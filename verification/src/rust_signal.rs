//! The bridge-side fragments of an object's signals: the re-emitted signal
//! declaration, the typed connect declaration that targets the native
//! connect function, and the convenience wrapper that connects with the
//! automatic connection kind.

use vstd::prelude::*;
use vstd::string::*;

use crate::naming::{
    QObjectName, QSignalName, spec_connect_cpp, spec_connect_rust, spec_on_rust,
};
use crate::parser::{GParam, ParsedFunctionParameter, ParsedSignal, clone_params};

verus! {

/// The re-emitted declaration of one signal inside the bridge's foreign
/// block.
#[derive(PartialEq, Eq, Debug)]
pub struct RustSignalBridgeDecl {
    /// The passthrough attributes, re-emitted unchanged.
    pub attrs: Vec<String>,
    /// The native spelling the declaration binds to.
    pub cxx_name: String,
    /// Whether the surrounding foreign block is the acknowledged-safe one.
    pub extern_unsafe: bool,
    /// Whether the declaration itself demands an unsafety acknowledgement.
    pub method_unsafe: bool,
    /// The bridge-side name of the signal.
    pub ident: String,
    /// Whether the implicit receiver is mutable.
    pub mutable: bool,
    /// The object the receiver belongs to.
    pub qobject_ident: String,
    /// The declared parameters, in source order.
    pub parameters: Vec<ParsedFunctionParameter>,
}

/// The bridge-side declaration of the native connect function.
#[derive(PartialEq, Eq, Debug)]
pub struct RustSignalConnectDecl {
    /// The documentation lines on the declaration.
    pub doc: Vec<String>,
    /// The native name of the signal, quoted in the documentation lines.
    pub doc_signal_name: String,
    /// The bridge-side name the connect function is imported under.
    pub rust_name: String,
    /// The native name of the connect function.
    pub cpp_name: String,
    /// Whether the receiver is mutable.
    pub mutable: bool,
    /// The object the receiver belongs to.
    pub qobject_ident: String,
    /// The parameters the connected function pointer takes after the
    /// receiver, in source order.
    pub parameters: Vec<ParsedFunctionParameter>,
    /// Whether the function pointer must be an acknowledged-unsafe one.
    pub func_unsafe: bool,
}

/// The convenience wrapper implemented on the object: it connects with the
/// automatic connection kind.
#[derive(PartialEq, Eq, Debug)]
pub struct RustSignalOnImpl {
    /// The documentation lines on the wrapper.
    pub doc: Vec<String>,
    /// The object the wrapper is implemented on.
    pub qobject_ident: String,
    /// The native name of the signal, quoted in the documentation lines.
    pub doc_signal_name: String,
    /// The wrapper's name.
    pub on_name: String,
    /// The bridge-side name of the connect function the wrapper calls.
    pub connect_rust_name: String,
    /// Whether the receiver is mutable.
    pub mutable: bool,
    /// The parameters the connected function pointer takes after the
    /// receiver, in source order.
    pub parameters: Vec<ParsedFunctionParameter>,
}

/// The three bridge-side fragments of one signal.
#[derive(PartialEq, Eq, Debug)]
pub struct RustSignalFragment {
    /// The re-emitted signal declaration.
    pub bridge_decl: RustSignalBridgeDecl,
    /// The connect declaration.
    pub connect_decl: RustSignalConnectDecl,
    /// The convenience wrapper.
    pub on_impl: RustSignalOnImpl,
}

/// The documentation lines of a connect declaration: the signal's native
/// name quoted between two fixed phrases.
pub open spec fn spec_connect_doc(cpp: Seq<char>) -> Seq<Seq<char>> {
    seq![
        "Connect the given function pointer to the signal "@,
        cpp,
        ", so that when the signal is emitted the function pointer is executed."@,
    ]
}

/// The documentation lines of the convenience wrapper: the connect lines
/// and the note about the automatic connection kind.
pub open spec fn spec_on_doc(cpp: Seq<char>) -> Seq<Seq<char>> {
    spec_connect_doc(cpp) + seq![
        "\n"@,
        "Note that this method uses a AutoConnection connection type."@,
    ]
}

/// Build the documentation lines of a connect declaration.
pub fn connect_doc(cpp: &str) -> (r: Vec<String>)
    ensures
        r@.map_values(|s: String| s@) == spec_connect_doc(cpp@),
{
    let mut doc: Vec<String> = Vec::new();
    doc.push("Connect the given function pointer to the signal ".to_owned());
    doc.push(cpp.to_owned());
    doc.push(
        ", so that when the signal is emitted the function pointer is executed.".to_owned(),
    );
    proof {
        assert(doc@.map_values(|s: String| s@) =~= spec_connect_doc(cpp@));
    }
    doc
}

/// Build the documentation lines of the convenience wrapper.
pub fn on_doc(cpp: &str) -> (r: Vec<String>)
    ensures
        r@.map_values(|s: String| s@) == spec_on_doc(cpp@),
{
    let mut doc = connect_doc(cpp);
    doc.push("\n".to_owned());
    doc.push("Note that this method uses a AutoConnection connection type.".to_owned());
    proof {
        assert(doc@.map_values(|s: String| s@) =~= spec_on_doc(cpp@));
    }
    doc
}

/// The parameter models of a fragment's parameter list.
pub open spec fn params_of(ps: Vec<ParsedFunctionParameter>) -> Seq<GParam> {
    ps@.map_values(|p: ParsedFunctionParameter| p@)
}

/// Whether the three fragments of one signal carry exactly the names and
/// shapes derived from the signal and the enclosing object: every spelling
/// comes from the signal's one name bundle.
pub open spec fn signal_fragment_matches(
    f: RustSignalFragment,
    s: crate::parser::GSignal,
    qobject_rust: Seq<char>,
) -> bool {
    &&& f.bridge_decl.attrs@.map_values(|a: String| a@) == s.attrs
    &&& f.bridge_decl.cxx_name@ == s.cpp
    &&& f.bridge_decl.extern_unsafe == s.safe
    &&& f.bridge_decl.method_unsafe == !s.safe
    &&& f.bridge_decl.ident@ == s.rust
    &&& f.bridge_decl.mutable == s.mutable
    &&& f.bridge_decl.qobject_ident@ == s.qobject_ident
    &&& params_of(f.bridge_decl.parameters) == s.parameters
    &&& f.connect_decl.doc@.map_values(|d: String| d@) == spec_connect_doc(s.cpp)
    &&& f.connect_decl.doc_signal_name@ == s.cpp
    &&& f.connect_decl.rust_name@ == spec_connect_rust(s.rust)
    &&& f.connect_decl.cpp_name@ == spec_connect_cpp(s.cpp)
    &&& f.connect_decl.mutable == s.mutable
    &&& f.connect_decl.qobject_ident@ == s.qobject_ident
    &&& params_of(f.connect_decl.parameters) == s.parameters
    &&& f.connect_decl.func_unsafe == !s.safe
    &&& f.on_impl.doc@.map_values(|d: String| d@) == spec_on_doc(s.cpp)
    &&& f.on_impl.qobject_ident@ == qobject_rust
    &&& f.on_impl.doc_signal_name@ == s.cpp
    &&& f.on_impl.on_name@ == spec_on_rust(s.rust)
    &&& f.on_impl.connect_rust_name@ == spec_connect_rust(s.rust)
    &&& f.on_impl.mutable == s.mutable
    &&& params_of(f.on_impl.parameters) == s.parameters
}

/// Generate the bridge-side fragments of every signal, in declaration
/// order. Each signal's three fragments share one derived name bundle.
#[verifier::loop_isolation(false)]
pub fn generate_rust_signals(signals: &Vec<ParsedSignal>, qobject_idents: &QObjectName) -> (r:
    Vec<RustSignalFragment>)
    ensures
        r@.len() == signals@.len(),
        forall|i: int| 0 <= i < signals@.len() ==> signal_fragment_matches(
            #[trigger] r@[i],
            signals@.map_values(|s: ParsedSignal| s@)[i],
            qobject_idents.cpp_class.rust@,
        ),
{
    let ghost gsigs = signals@.map_values(|s: ParsedSignal| s@);
    let mut generated: Vec<RustSignalFragment> = Vec::new();
    let mut i: usize = 0;
    while i < signals.len()
        invariant
            0 <= i <= signals@.len(),
            generated@.len() == i,
            forall|j: int| 0 <= j < i ==> signal_fragment_matches(
                #[trigger] generated@[j],
                gsigs[j],
                qobject_idents.cpp_class.rust@,
            ),
        decreases signals@.len() - i,
    {
        let signal = &signals[i];

        // Every fragment of this signal derives its spelling from this one
        // name bundle.
        let idents = QSignalName::from_idents(
            signal.ident.cpp.as_str(),
            signal.ident.rust.as_str(),
        );

        let mut attrs: Vec<String> = Vec::new();
        let ghost gattrs = signal.attrs@.map_values(|a: String| a@);
        proof {
            assert(attrs@.map_values(|a: String| a@) =~= gattrs.subrange(0, 0));
        }
        let mut j: usize = 0;
        while j < signal.attrs.len()
            invariant
                0 <= j <= signal.attrs@.len(),
                attrs@.map_values(|a: String| a@) == gattrs.subrange(0, j as int),
            decreases signal.attrs@.len() - j,
        {
            attrs.push(signal.attrs[j].clone());
            proof {
                assert(attrs@.map_values(|a: String| a@) =~= gattrs.subrange(0, j + 1int));
            }
            j = j + 1;
        }
        proof {
            assert(gattrs.subrange(0, gattrs.len() as int) =~= gattrs);
        }

        let bridge_decl = RustSignalBridgeDecl {
            attrs,
            cxx_name: signal.ident.cpp.clone(),
            extern_unsafe: signal.safe,
            method_unsafe: !signal.safe,
            ident: signal.ident.rust.clone(),
            mutable: signal.mutable,
            qobject_ident: signal.qobject_ident.clone(),
            parameters: clone_params(&signal.parameters),
        };
        let connect_decl = RustSignalConnectDecl {
            doc: connect_doc(idents.name.cpp.as_str()),
            doc_signal_name: idents.name.cpp.clone(),
            rust_name: idents.connect_name.rust.clone(),
            cpp_name: idents.connect_name.cpp.clone(),
            mutable: signal.mutable,
            qobject_ident: signal.qobject_ident.clone(),
            parameters: clone_params(&signal.parameters),
            func_unsafe: !signal.safe,
        };
        let on_impl = RustSignalOnImpl {
            doc: on_doc(idents.name.cpp.as_str()),
            qobject_ident: qobject_idents.cpp_class.rust.clone(),
            doc_signal_name: idents.name.cpp,
            on_name: idents.on_name,
            connect_rust_name: idents.connect_name.rust,
            mutable: signal.mutable,
            parameters: clone_params(&signal.parameters),
        };
        generated.push(RustSignalFragment { bridge_decl, connect_decl, on_impl });
        i = i + 1;
    }
    generated
}

/// Name consistency: for one signal, the identifier of the connect function
/// in the native declaration-pair header and the native name that the
/// bridge-side connect declaration targets are textually identical, and the
/// identifier of a newly defined signal in the native signal declaration
/// equals the native name the re-emitted bridge declaration binds to. Both
/// sides derive every spelling from the signal's one name bundle.
pub proof fn lemma_signal_name_consistency(
    f: RustSignalFragment,
    s: crate::parser::GSignal,
    qobject_rust: Seq<char>,
    qobject_cpp: Seq<char>,
    m: Seq<(Seq<char>, Seq<char>)>,
    guard: Option<Seq<char>>,
)
    requires
        signal_fragment_matches(f, s, qobject_rust),
        crate::cpp_signal::spec_signal_fragments(s, qobject_cpp, m, guard) is Ok,
    ensures
        ({
            let frags = crate::cpp_signal::spec_signal_fragments(s, qobject_cpp, m, guard)
                ->Ok_0;
            let connect_header = frags.last()->Pair_header;
            &&& frags.last() is Pair
            &&& connect_header.subrange(26, 26 + f.connect_decl.cpp_name@.len() as int)
                == f.connect_decl.cpp_name@
            &&& !s.inherit ==> frags[0] is Header && frags[0]->Header_0.subrange(
                14,
                14 + f.bridge_decl.cxx_name@.len() as int,
            ) == f.bridge_decl.cxx_name@
        }),
{
    reveal_strlit("::QMetaObject::Connection ");
    reveal_strlit("Q_SIGNAL void ");
    let decls = crate::cpp_signal::spec_param_decls(s.parameters, m, 0, Seq::empty())->Ok_0;
    let rust_decls = seq![qobject_cpp + "&"@] + decls;
    let cc = spec_connect_cpp(s.cpp);
    let frags = crate::cpp_signal::spec_signal_fragments(s, qobject_cpp, m, guard)->Ok_0;
    let connect_header = frags.last()->Pair_header;
    assert(connect_header == crate::cpp_signal::spec_connect_header(cc, rust_decls));
    assert("::QMetaObject::Connection "@.len() == 26);
    assert(connect_header.subrange(26, 26 + cc.len() as int) =~= cc);
    if !s.inherit {
        let header = frags[0]->Header_0;
        assert(header == crate::cpp_signal::spec_signal_header(s.cpp, decls));
        assert("Q_SIGNAL void "@.len() == 14);
        assert(header.subrange(14, 14 + s.cpp.len() as int) =~= s.cpp);
    }
}

} // verus!
