//! The native-side fragments of a property's read accessor: the public
//! accessor, whose body takes the lock guard and forwards to the bridge-side
//! wrapper, and the declaration of that wrapper.

use vstd::prelude::*;
use vstd::string::*;

use crate::cpp_signal::spec_guard;
use crate::fragment::CppFragment;
use crate::naming::QPropertyName;

verus! {

/// The header declaration of a property's read accessor.
pub open spec fn spec_getter_header(cxx_ty: Seq<char>, getter_cpp: Seq<char>) -> Seq<char> {
    cxx_ty + " const& "@ + getter_cpp + "() const;"@
}

/// The out-of-line definition of a property's read accessor: it takes the
/// lock guard and then forwards to the bridge-side wrapper.
pub open spec fn spec_getter_source(
    cxx_ty: Seq<char>,
    qobject: Seq<char>,
    getter_cpp: Seq<char>,
    getter_wrapper_cpp: Seq<char>,
    guard: Option<Seq<char>>,
) -> Seq<char> {
    cxx_ty + " const&\n"@ + qobject + "::"@ + getter_cpp + "() const\n{\n    "@ + spec_guard(
        guard,
    ) + "\n    return "@ + getter_wrapper_cpp + "();\n}\n"@
}

/// The header declaration of the bridge-side read-accessor wrapper.
pub open spec fn spec_getter_wrapper_header(cxx_ty: Seq<char>, wrapper_cpp: Seq<char>)
    -> Seq<char> {
    cxx_ty + " const& "@ + wrapper_cpp + "() const noexcept;"@
}

/// Generate the native read accessor of one property.
pub fn generate(
    idents: &QPropertyName,
    qobject_ident: &str,
    cxx_ty: &str,
    lock_guard: Option<&str>,
) -> (r: CppFragment)
    ensures
        r@ == (crate::fragment::GCppFragment::Pair {
            header: spec_getter_header(cxx_ty@, idents.getter.cpp@),
            source: spec_getter_source(
                cxx_ty@,
                qobject_ident@,
                idents.getter.cpp@,
                idents.getter_wrapper.cpp@,
                crate::text::opt_str_view(lock_guard),
            ),
        }),
{
    let mut header = cxx_ty.to_owned();
    header.append(" const& ");
    header.append(idents.getter.cpp.as_str());
    header.append("() const;");
    proof {
        assert(header@ =~= spec_getter_header(cxx_ty@, idents.getter.cpp@));
    }

    let mut source = cxx_ty.to_owned();
    source.append(" const&\n");
    source.append(qobject_ident);
    source.append("::");
    source.append(idents.getter.cpp.as_str());
    source.append("() const\n{\n    ");
    match lock_guard {
        Option::Some(guard) => {
            source.append(guard);
        },
        Option::None => {},
    }
    source.append("\n    return ");
    source.append(idents.getter_wrapper.cpp.as_str());
    source.append("();\n}\n");
    proof {
        reveal_strlit("");
        assert(source@ =~= spec_getter_source(
            cxx_ty@,
            qobject_ident@,
            idents.getter.cpp@,
            idents.getter_wrapper.cpp@,
            crate::text::opt_str_view(lock_guard),
        ));
    }
    CppFragment::Pair { header, source }
}

/// Generate the declaration of the bridge-side read-accessor wrapper.
pub fn generate_wrapper(idents: &QPropertyName, cxx_ty: &str) -> (r: CppFragment)
    ensures
        r@ == crate::fragment::GCppFragment::Header(
            spec_getter_wrapper_header(cxx_ty@, idents.getter_wrapper.cpp@),
        ),
{
    let mut header = cxx_ty.to_owned();
    header.append(" const& ");
    header.append(idents.getter_wrapper.cpp.as_str());
    header.append("() const noexcept;");
    proof {
        assert(header@ =~= spec_getter_wrapper_header(cxx_ty@, idents.getter_wrapper.cpp@));
    }
    CppFragment::Header(header)
}

} // verus!
