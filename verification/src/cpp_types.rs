//! Mapping a declared bridge-side type to its native (C++) spelling.
//!
//! Single-segment identifiers are first checked against the cross-module
//! rename table, then against the fixed primitive table; unknown identifiers
//! pass through unchanged. Multi-segment paths are joined with `::`. A
//! generic wrapper maps its outer name through the fixed template table and
//! recursively maps each argument; the `Pin` ownership wrapper is
//! transparent. A reference is const-qualified unless declared mutable.

use vstd::prelude::*;
use vstd::string::*;

use crate::text::{spec_join, str_eq, join_strs};
use crate::ty::{
    GArg, GArgs, GSeg, GTy, GenericArg, PathArgs, PathSegment, RustType, lemma_view_arg_seq,
    lemma_view_seg_seq, view_arg_seq, view_seg_seq,
};

verus! {

/// Why a declared type has no native spelling.
#[derive(Clone, Copy, PartialEq, Eq, Structural, Debug)]
pub enum TypeError {
    /// The type is not a path or a reference to one.
    NotAPath,
    /// A generic argument is not a type.
    UnsupportedGenericArgument,
    /// Parenthesized (function-style) arguments are unsupported.
    ParenthesizedArgumentsUnsupported,
}

/// The cross-module rename table: internal identifiers mapped to their
/// externally visible native names.
pub struct NameMap {
    /// The entries; an earlier entry shadows a later one with the same key.
    pub entries: Vec<(String, String)>,
}

/// The value of the first entry with the given key, if any.
pub open spec fn spec_lookup(m: Seq<(Seq<char>, Seq<char>)>, key: Seq<char>) -> Option<Seq<char>>
    decreases m.len(),
{
    if m.len() == 0 {
        Option::None
    } else if m[0].0 == key {
        Option::Some(m[0].1)
    } else {
        spec_lookup(m.drop_first(), key)
    }
}

impl View for NameMap {
    type V = Seq<(Seq<char>, Seq<char>)>;

    open spec fn view(&self) -> Seq<(Seq<char>, Seq<char>)> {
        self.entries@.map_values(|p: (String, String)| (p.0@, p.1@))
    }
}

impl NameMap {
    /// An empty table.
    pub fn new() -> (r: NameMap)
        ensures
            r@.len() == 0,
    {
        let r = NameMap { entries: Vec::new() };
        proof {
            assert(r@ =~= Seq::<(Seq<char>, Seq<char>)>::empty());
        }
        r
    }

    /// Map `key` to `value`, shadowing any earlier mapping of `key`.
    pub fn insert(&mut self, key: String, value: String)
        ensures
            final(self)@ == seq![(key@, value@)] + old(self)@,
    {
        self.entries.insert(0, (key, value));
        proof {
            assert(self@ =~= seq![(self.entries@[0].0@, self.entries@[0].1@)] + old(self)@);
        }
    }

    /// Look the key up, yielding the mapped value of the first entry that
    /// holds it.
    pub fn get(&self, key: &str) -> (r: Option<String>)
        ensures
            match r {
                Option::Some(v) => spec_lookup(self@, key@) == Option::Some(v@),
                Option::None => spec_lookup(self@, key@) is None,
            },
    {
        proof {
            assert(self@.skip(0) =~= self@);
        }
        let mut i: usize = 0;
        while i < self.entries.len()
            invariant
                0 <= i <= self.entries@.len(),
                self@.len() == self.entries@.len(),
                spec_lookup(self@, key@) == spec_lookup(self@.skip(i as int), key@),
            decreases self.entries@.len() - i,
        {
            proof {
                assert(self@[i as int] == (self.entries@[i as int].0@, self.entries@[
                    i as int
                ].1@));
                assert(self@.skip(i as int)[0] == self@[i as int]);
                assert(self@.skip(i as int).drop_first() =~= self@.skip(i + 1int));
            }
            let entry = &self.entries[i];
            if str_eq(entry.0.as_str(), key) {
                return Option::Some(entry.1.clone());
            }
            i = i + 1;
        }
        proof {
            assert(self@.skip(self@.len() as int).len() == 0);
        }
        Option::None
    }
}

/// The native spelling of a built-in single-segment identifier; an unknown
/// identifier passes through unchanged.
pub open spec fn spec_builtin(t: Seq<char>) -> Seq<char> {
    if t == "bool"@ {
        "bool"@
    } else if t == "c_char"@ {
        "char"@
    } else if t == "u8"@ {
        "::std::uint8_t"@
    } else if t == "u16"@ {
        "::std::uint16_t"@
    } else if t == "u32"@ {
        "::std::uint32_t"@
    } else if t == "u64"@ {
        "::std::uint64_t"@
    } else if t == "usize"@ {
        "::std::size_t"@
    } else if t == "i8"@ {
        "::std::int8_t"@
    } else if t == "i16"@ {
        "::std::int16_t"@
    } else if t == "i32"@ {
        "::std::int32_t"@
    } else if t == "i64"@ {
        "::std::int64_t"@
    } else if t == "isize"@ {
        "::rust::isize"@
    } else if t == "f32"@ {
        "float"@
    } else if t == "f64"@ {
        "double"@
    } else if t == "CxxString"@ {
        "::std::string"@
    } else if t == "String"@ {
        "::rust::String"@
    } else if t == "str"@ {
        "::rust::Str"@
    } else {
        t
    }
}

/// Convert any built-in type to its known native equivalent.
pub fn possible_built_in(ty: &str) -> (r: String)
    ensures
        r@ == spec_builtin(ty@),
{
    if str_eq(ty, "bool") {
        "bool".to_owned()
    } else if str_eq(ty, "c_char") {
        "char".to_owned()
    } else if str_eq(ty, "u8") {
        "::std::uint8_t".to_owned()
    } else if str_eq(ty, "u16") {
        "::std::uint16_t".to_owned()
    } else if str_eq(ty, "u32") {
        "::std::uint32_t".to_owned()
    } else if str_eq(ty, "u64") {
        "::std::uint64_t".to_owned()
    } else if str_eq(ty, "usize") {
        "::std::size_t".to_owned()
    } else if str_eq(ty, "i8") {
        "::std::int8_t".to_owned()
    } else if str_eq(ty, "i16") {
        "::std::int16_t".to_owned()
    } else if str_eq(ty, "i32") {
        "::std::int32_t".to_owned()
    } else if str_eq(ty, "i64") {
        "::std::int64_t".to_owned()
    } else if str_eq(ty, "isize") {
        "::rust::isize".to_owned()
    } else if str_eq(ty, "f32") {
        "float".to_owned()
    } else if str_eq(ty, "f64") {
        "double".to_owned()
    } else if str_eq(ty, "CxxString") {
        "::std::string".to_owned()
    } else if str_eq(ty, "String") {
        "::rust::String".to_owned()
    } else if str_eq(ty, "str") {
        "::rust::Str".to_owned()
    } else {
        ty.to_owned()
    }
}

/// The native spelling of a built-in generic wrapper's outer name; an
/// unknown name passes through unchanged.
pub open spec fn spec_builtin_template_base(t: Seq<char>) -> Seq<char> {
    if t == "Box"@ {
        "::rust::Box"@
    } else if t == "Vec"@ {
        "::rust::Vec"@
    } else if t == "UniquePtr"@ {
        "::std::unique_ptr"@
    } else if t == "SharedPtr"@ {
        "::std::shared_ptr"@
    } else if t == "WeakPtr"@ {
        "::std::weak_ptr"@
    } else if t == "CxxVector"@ {
        "::std::vector"@
    } else {
        t
    }
}

/// Convert any templated base to its known native equivalent.
pub fn possible_built_in_template_base(ty: &str) -> (r: String)
    ensures
        r@ == spec_builtin_template_base(ty@),
{
    if str_eq(ty, "Box") {
        "::rust::Box".to_owned()
    } else if str_eq(ty, "Vec") {
        "::rust::Vec".to_owned()
    } else if str_eq(ty, "UniquePtr") {
        "::std::unique_ptr".to_owned()
    } else if str_eq(ty, "SharedPtr") {
        "::std::shared_ptr".to_owned()
    } else if str_eq(ty, "WeakPtr") {
        "::std::weak_ptr".to_owned()
    } else if str_eq(ty, "CxxVector") {
        "::std::vector".to_owned()
    } else {
        ty.to_owned()
    }
}

/// The native spelling of a declared type under the rename table, or why it
/// has none.
pub open spec fn spec_to_cpp(t: GTy, m: Seq<(Seq<char>, Seq<char>)>) -> Result<
    Seq<char>,
    TypeError,
>
    decreases t, 0int,
{
    match t {
        GTy::Path(segs) => match spec_segs(segs, m, 0, Seq::empty()) {
            Result::Ok(parts) => {
                if parts.len() == 1 {
                    match spec_lookup(m, parts[0]) {
                        Option::Some(v) => Result::Ok(v),
                        Option::None => Result::Ok(spec_builtin(parts[0])),
                    }
                } else {
                    Result::Ok(spec_join(parts, "::"@))
                }
            },
            Result::Err(e) => Result::Err(e),
        },
        GTy::Reference { mutable, elem } => match spec_to_cpp(*elem, m) {
            Result::Ok(inner) => Result::Ok(
                (if mutable {
                    ""@
                } else {
                    "const "@
                }) + inner + "&"@,
            ),
            Result::Err(e) => Result::Err(e),
        },
        _ => Result::Err(TypeError::NotAPath),
    }
}

/// The native spellings of the path segments from `i` on, appended to `acc`;
/// the first failing segment wins.
pub open spec fn spec_segs(
    segs: Seq<GSeg>,
    m: Seq<(Seq<char>, Seq<char>)>,
    i: int,
    acc: Seq<Seq<char>>,
) -> Result<Seq<Seq<char>>, TypeError>
    decreases segs, segs.len() - i
        when 0 <= i <= segs.len()
{
    if i == segs.len() {
        Result::Ok(acc)
    } else {
        match spec_seg(segs[i], m) {
            Result::Ok(s) => spec_segs(segs, m, i + 1, acc.push(s)),
            Result::Err(e) => Result::Err(e),
        }
    }
}

/// The native spelling of one path segment: the transparent `Pin` wrapper
/// unwraps to its arguments, a templated segment maps its base through the
/// template table, and a plain segment is its identifier.
pub open spec fn spec_seg(seg: GSeg, m: Seq<(Seq<char>, Seq<char>)>) -> Result<
    Seq<char>,
    TypeError,
>
    decreases seg, 0int,
{
    match spec_args(seg.arguments, m) {
        Result::Err(e) => Result::Err(e),
        Result::Ok(vals) => {
            if seg.ident == "Pin"@ {
                Result::Ok(
                    match vals {
                        Option::Some(list) => spec_join(list, ", "@),
                        Option::None => Seq::empty(),
                    },
                )
            } else {
                match vals {
                    Option::None => Result::Ok(seg.ident),
                    Option::Some(list) => Result::Ok(
                        spec_builtin_template_base(seg.ident) + "<"@ + spec_join(list, ", "@)
                            + ">"@,
                    ),
                }
            }
        },
    }
}

/// The native spellings of a segment's arguments: `None` for a segment
/// without arguments, and an error for parenthesized arguments.
pub open spec fn spec_args(args: GArgs, m: Seq<(Seq<char>, Seq<char>)>) -> Result<
    Option<Seq<Seq<char>>>,
    TypeError,
>
    decreases args, 0int,
{
    match args {
        GArgs::Empty => Result::Ok(Option::None),
        GArgs::Parenthesized => Result::Err(TypeError::ParenthesizedArgumentsUnsupported),
        GArgs::AngleBracketed(list) => match spec_arg_list(list, m, 0, Seq::empty()) {
            Result::Ok(vs) => Result::Ok(Option::Some(vs)),
            Result::Err(e) => Result::Err(e),
        },
    }
}

/// The native spellings of the generic arguments from `i` on, appended to
/// `acc`; the first failing argument wins.
pub open spec fn spec_arg_list(
    list: Seq<GArg>,
    m: Seq<(Seq<char>, Seq<char>)>,
    i: int,
    acc: Seq<Seq<char>>,
) -> Result<Seq<Seq<char>>, TypeError>
    decreases list, list.len() - i
        when 0 <= i <= list.len()
{
    if i == list.len() {
        Result::Ok(acc)
    } else {
        match spec_arg(list[i], m) {
            Result::Ok(s) => spec_arg_list(list, m, i + 1, acc.push(s)),
            Result::Err(e) => Result::Err(e),
        }
    }
}

/// The native spelling of one generic argument; only type arguments have
/// one.
pub open spec fn spec_arg(a: GArg, m: Seq<(Seq<char>, Seq<char>)>) -> Result<
    Seq<char>,
    TypeError,
>
    decreases a, 0int,
{
    match a {
        GArg::Ty(t) => spec_to_cpp(*t, m),
        GArg::Other => Result::Err(TypeError::UnsupportedGenericArgument),
    }
}

/// Whether the executable result reports exactly the modelled mapping.
pub open spec fn matches_mapping(r: Result<String, TypeError>, o: Result<Seq<char>, TypeError>)
    -> bool {
    match r {
        Result::Ok(s) => o == Result::<Seq<char>, TypeError>::Ok(s@),
        Result::Err(e) => o == Result::<Seq<char>, TypeError>::Err(e),
    }
}

/// For a given declared type attempt to generate its native spelling.
#[verifier::loop_isolation(false)]
pub fn to_cpp_string(ty: &RustType, cxx_names_map: &NameMap) -> (r: Result<String, TypeError>)
    ensures
        matches_mapping(r, spec_to_cpp(ty@, cxx_names_map@)),
    decreases *ty, 0int,
{
    match ty {
        RustType::Path(segments) => {
            let ghost gsegs = view_seg_seq(segments@);
            proof {
                lemma_view_seg_seq(segments@);
            }
            let mut parts: Vec<String> = Vec::new();
            proof {
                assert(parts@.map_values(|s: String| s@) =~= Seq::<Seq<char>>::empty());
            }
            let mut i: usize = 0;
            while i < segments.len()
                invariant
                    0 <= i <= segments@.len(),
                    spec_segs(gsegs, cxx_names_map@, 0, Seq::empty()) == spec_segs(
                        gsegs,
                        cxx_names_map@,
                        i as int,
                        parts@.map_values(|s: String| s@),
                    ),
                decreases segments@.len() - i,
            {
                proof {
                    assert(decreases_to!(*ty, 0int => segments@[i as int], 0int)) by {
                        vstd::std_specs::vec::axiom_vec_index_decreases(
                            *segments,
                            i as int,
                        );
                        assert((*ty)->Path_0 == *segments);
                        assert(decreases_to!(*ty => (*ty)->Path_0));
                    }
                }
                let ghost acc0 = parts@.map_values(|s: String| s@);
                match path_segment_to_string(&segments[i], cxx_names_map) {
                    Result::Ok(s) => {
                        parts.push(s);
                        proof {
                            assert(parts@.map_values(|s: String| s@) =~= acc0.push(
                                parts@.last()@,
                            ));
                        }
                    },
                    Result::Err(e) => {
                        return Result::Err(e);
                    },
                }
                i = i + 1;
            }
            if parts.len() == 1 {
                let first = &parts[0];
                match cxx_names_map.get(first.as_str()) {
                    Option::Some(mapped) => Result::Ok(mapped),
                    Option::None => Result::Ok(possible_built_in(first.as_str())),
                }
            } else {
                Result::Ok(join_strs(&parts, "::"))
            }
        },
        RustType::Reference { mutable, elem } => {
            proof {
                assert(decreases_to!(*ty => **elem)) by {
                    assert((*ty)->Reference_elem == *elem);
                    assert(decreases_to!(*ty => (*ty)->Reference_elem));
                }
            }
            match to_cpp_string(elem, cxx_names_map) {
                Result::Ok(inner) => {
                    let mut out = String::new();
                    if !*mutable {
                        out.append("const ");
                    }
                    out.append(inner.as_str());
                    out.append("&");
                    proof {
                        reveal_strlit("");
                        if *mutable {
                            assert(out@ =~= ""@ + inner@ + "&"@);
                        } else {
                            assert(out@ =~= "const "@ + inner@ + "&"@);
                        }
                    }
                    Result::Ok(out)
                },
                Result::Err(e) => Result::Err(e),
            }
        },
        _ => Result::Err(TypeError::NotAPath),
    }
}

/// Convert a segment of a path to its native spelling.
#[verifier::loop_isolation(false)]
pub fn path_segment_to_string(segment: &PathSegment, cxx_names_map: &NameMap) -> (r: Result<
    String,
    TypeError,
>)
    ensures
        match r {
            Result::Ok(s) => spec_seg(segment@, cxx_names_map@) == Result::<
                Seq<char>,
                TypeError,
            >::Ok(s@),
            Result::Err(e) => spec_seg(segment@, cxx_names_map@) == Result::<
                Seq<char>,
                TypeError,
            >::Err(e),
        },
    decreases *segment, 0int,
{
    proof {
        assert(decreases_to!(*segment => segment.arguments));
    }
    let args = match path_argument_to_string(&segment.arguments, cxx_names_map) {
        Result::Ok(a) => a,
        Result::Err(e) => {
            return Result::Err(e);
        },
    };
    if str_eq(segment.ident.as_str(), "Pin") {
        match args {
            Option::Some(values) => Result::Ok(join_strs(&values, ", ")),
            Option::None => {
                let r = String::new();
                proof {
                    assert(r@ =~= Seq::<char>::empty());
                }
                Result::Ok(r)
            },
        }
    } else {
        match args {
            Option::None => Result::Ok(segment.ident.clone()),
            Option::Some(values) => {
                let mut out = possible_built_in_template_base(segment.ident.as_str());
                out.append("<");
                let joined = join_strs(&values, ", ");
                out.append(joined.as_str());
                out.append(">");
                proof {
                    assert(out@ =~= spec_builtin_template_base(segment.ident@) + "<"@
                        + joined@ + ">"@);
                }
                Result::Ok(out)
            },
        }
    }
}

/// Convert the arguments of a path segment to native spellings; this is the
/// whole angle-bracketed block.
#[verifier::loop_isolation(false)]
pub fn path_argument_to_string(args: &PathArgs, cxx_names_map: &NameMap) -> (r: Result<
    Option<Vec<String>>,
    TypeError,
>)
    ensures
        match r {
            Result::Ok(vs) => spec_args(args@, cxx_names_map@) == Result::<
                Option<Seq<Seq<char>>>,
                TypeError,
            >::Ok(
                match vs {
                    Option::Some(v) => Option::Some(v@.map_values(|s: String| s@)),
                    Option::None => Option::None,
                },
            ),
            Result::Err(e) => spec_args(args@, cxx_names_map@) == Result::<
                Option<Seq<Seq<char>>>,
                TypeError,
            >::Err(e),
        },
    decreases *args, 0int,
{
    match args {
        PathArgs::Empty => Result::Ok(Option::None),
        PathArgs::Parenthesized => Result::Err(TypeError::ParenthesizedArgumentsUnsupported),
        PathArgs::AngleBracketed(list) => {
            let ghost glist = view_arg_seq(list@);
            proof {
                lemma_view_arg_seq(list@);
            }
            let mut values: Vec<String> = Vec::new();
            proof {
                assert(values@.map_values(|s: String| s@) =~= Seq::<Seq<char>>::empty());
            }
            let mut i: usize = 0;
            while i < list.len()
                invariant
                    0 <= i <= list@.len(),
                    spec_arg_list(glist, cxx_names_map@, 0, Seq::empty()) == spec_arg_list(
                        glist,
                        cxx_names_map@,
                        i as int,
                        values@.map_values(|s: String| s@),
                    ),
                decreases list@.len() - i,
            {
                proof {
                    assert(decreases_to!(*args, 0int => list@[i as int], 0int)) by {
                        vstd::std_specs::vec::axiom_vec_index_decreases(*list, i as int);
                        assert((*args)->AngleBracketed_0 == *list);
                        assert(decreases_to!(*args => (*args)->AngleBracketed_0));
                    }
                }
                let ghost acc0 = values@.map_values(|s: String| s@);
                match generic_argument_to_string(&list[i], cxx_names_map) {
                    Result::Ok(s) => {
                        values.push(s);
                        proof {
                            assert(values@.map_values(|s: String| s@) =~= acc0.push(
                                values@.last()@,
                            ));
                        }
                    },
                    Result::Err(e) => {
                        return Result::Err(e);
                    },
                }
                i = i + 1;
            }
            Result::Ok(Option::Some(values))
        },
    }
}

/// Convert one generic argument to its native spelling, for instance `A` and
/// `B` in `Ty<A, B>`.
pub fn generic_argument_to_string(generic: &GenericArg, cxx_names_map: &NameMap) -> (r: Result<
    String,
    TypeError,
>)
    ensures
        match r {
            Result::Ok(s) => spec_arg(generic@, cxx_names_map@) == Result::<
                Seq<char>,
                TypeError,
            >::Ok(s@),
            Result::Err(e) => spec_arg(generic@, cxx_names_map@) == Result::<
                Seq<char>,
                TypeError,
            >::Err(e),
        },
    decreases *generic, 0int,
{
    match generic {
        GenericArg::Ty(t) => {
            proof {
                assert(decreases_to!(*generic => *t)) by {
                    assert((*generic)->Ty_0 == *t);
                    assert(decreases_to!(*generic => (*generic)->Ty_0));
                }
            }
            to_cpp_string(t, cxx_names_map)
        },
        GenericArg::Other => Result::Err(TypeError::UnsupportedGenericArgument),
    }
}

/// The single-segment path type with the given identifier.
pub open spec fn spec_ident_ty(name: Seq<char>) -> GTy {
    GTy::Path(seq![GSeg { ident: name, arguments: GArgs::Empty }])
}

/// Type-mapping round trip: mapping a fixed-width primitive, a reference to
/// it, and a generic wrapper around it compose — the primitive yields its
/// fixed-width native alias, a mutable reference yields the alias suffixed
/// with `&` and no const qualifier, an immutable reference yields the
/// const-qualified form, and the wrapper maps its outer name through the
/// template table around the alias.
pub proof fn lemma_type_mapping_round_trip(m: Seq<(Seq<char>, Seq<char>)>)
    requires
        spec_lookup(m, "u32"@) is None,
        spec_lookup(m, "::std::unique_ptr<::std::uint32_t>"@) is None,
    ensures
        spec_to_cpp(spec_ident_ty("u32"@), m) == Result::<Seq<char>, TypeError>::Ok(
            "::std::uint32_t"@,
        ),
        spec_to_cpp(
            GTy::Reference { mutable: true, elem: Box::new(spec_ident_ty("u32"@)) },
            m,
        ) == Result::<Seq<char>, TypeError>::Ok("::std::uint32_t&"@),
        spec_to_cpp(
            GTy::Reference { mutable: false, elem: Box::new(spec_ident_ty("u32"@)) },
            m,
        ) == Result::<Seq<char>, TypeError>::Ok("const ::std::uint32_t&"@),
        spec_to_cpp(
            GTy::Path(
                seq![
                    GSeg {
                        ident: "UniquePtr"@,
                        arguments: GArgs::AngleBracketed(
                            seq![GArg::Ty(Box::new(spec_ident_ty("u32"@)))],
                        ),
                    },
                ],
            ),
            m,
        ) == Result::<Seq<char>, TypeError>::Ok("::std::unique_ptr<::std::uint32_t>"@),
{
    reveal_strlit("");
    reveal_strlit("u32");
    reveal_strlit("&");
    reveal_strlit("<");
    reveal_strlit(">");
    reveal_strlit(", ");
    reveal_strlit("Pin");
    reveal_strlit("const ");
    reveal_strlit("::std::uint32_t");
    reveal_strlit("::std::uint32_t&");
    reveal_strlit("const ::std::uint32_t&");
    reveal_strlit("UniquePtr");
    reveal_strlit("::std::unique_ptr");
    reveal_strlit("::std::unique_ptr<::std::uint32_t>");
    reveal_strlit("bool");
    reveal_strlit("c_char");
    reveal_strlit("u8");
    reveal_strlit("u16");
    reveal_strlit("Box");
    reveal_strlit("Vec");
    reveal_strlit("u64");
    reveal_strlit("usize");
    reveal_strlit("i8");
    reveal_strlit("i16");
    reveal_strlit("i32");
    reveal_strlit("i64");
    reveal_strlit("isize");
    reveal_strlit("f32");
    reveal_strlit("f64");
    reveal_strlit("CxxString");
    reveal_strlit("String");
    reveal_strlit("str");

    // The primitive itself.
    assert(("u32"@)[0] == 'u' && ("Pin"@)[0] == 'P');
    assert("u32"@ != "Pin"@);
    let base = spec_ident_ty("u32"@);
    let segs = seq![GSeg { ident: "u32"@, arguments: GArgs::Empty }];
    assert(spec_args(GArgs::Empty, m) == Result::<Option<Seq<Seq<char>>>, TypeError>::Ok(
        Option::None,
    ));
    assert(spec_seg(segs[0], m) == Result::<Seq<char>, TypeError>::Ok("u32"@));
    assert(spec_segs(segs, m, 0, Seq::empty()) == spec_segs(
        segs,
        m,
        1,
        Seq::<Seq<char>>::empty().push("u32"@),
    ));
    assert(spec_segs(segs, m, 0, Seq::empty()) == Result::<Seq<Seq<char>>, TypeError>::Ok(
        Seq::<Seq<char>>::empty().push("u32"@),
    ));
    assert(("u16"@)[1] == '1' && ("u32"@)[1] == '3');
    assert("u32"@ != "u16"@);
    assert(spec_builtin("u32"@) == "::std::uint32_t"@);
    assert(spec_to_cpp(base, m) == Result::<Seq<char>, TypeError>::Ok("::std::uint32_t"@));

    // References compose around the alias.
    assert(""@ + "::std::uint32_t"@ + "&"@ =~= "::std::uint32_t&"@);
    assert("const "@ + "::std::uint32_t"@ + "&"@ =~= "const ::std::uint32_t&"@);

    // The wrapper composes around the alias through the template table.
    let wseg = GSeg {
        ident: "UniquePtr"@,
        arguments: GArgs::AngleBracketed(seq![GArg::Ty(Box::new(base))]),
    };
    let wrapper = GTy::Path(seq![wseg]);
    let args = seq![GArg::Ty(Box::new(base))];
    assert(spec_arg_list(args, m, 0, Seq::empty()) == spec_arg_list(
        args,
        m,
        1,
        Seq::<Seq<char>>::empty().push("::std::uint32_t"@),
    ));
    let inner = Seq::<Seq<char>>::empty().push("::std::uint32_t"@);
    assert(spec_args(wseg.arguments, m) == Result::<Option<Seq<Seq<char>>>, TypeError>::Ok(
        Option::Some(inner),
    ));
    assert("UniquePtr"@.len() != "Pin"@.len());
    assert("UniquePtr"@ != "Pin"@);
    assert(inner.len() == 1 && inner[0] == "::std::uint32_t"@);
    assert(crate::text::spec_join(inner, ", "@) == "::std::uint32_t"@);
    assert(spec_builtin_template_base("UniquePtr"@) + "<"@ + "::std::uint32_t"@ + ">"@
        =~= "::std::unique_ptr<::std::uint32_t>"@);
    assert(spec_seg(wseg, m) == Result::<Seq<char>, TypeError>::Ok(
        "::std::unique_ptr<::std::uint32_t>"@,
    ));
    let wsegs = seq![wseg];
    assert(spec_segs(wsegs, m, 0, Seq::empty()) == spec_segs(
        wsegs,
        m,
        1,
        Seq::<Seq<char>>::empty().push("::std::unique_ptr<::std::uint32_t>"@),
    ));
    assert(spec_builtin("::std::unique_ptr<::std::uint32_t>"@)
        == "::std::unique_ptr<::std::uint32_t>"@);
    assert(spec_to_cpp(wrapper, m) == Result::<Seq<char>, TypeError>::Ok(
        "::std::unique_ptr<::std::uint32_t>"@,
    ));
}

/// A helper describing a native type: the declared type's own native
/// spelling, and the spelling that an explicit override attribute imposes.
///
/// The two differ only when an override is present; this is useful where the
/// bridge side holds a smart-pointer wrapper but the native declaration
/// needs the wrapped type itself.
pub struct CppType {
    /// The overriding native spelling, if an override attribute was given.
    pub cxx_type: Option<String>,
    /// The declared type's own native spelling.
    pub ty: String,
}

impl CppType {
    /// The override's spelling if present, and the declared type's own
    /// native spelling otherwise.
    pub fn as_cxx_ty(&self) -> (r: &str)
        ensures
            r@ == match self.cxx_type {
                Option::Some(over) => over@,
                Option::None => self.ty@,
            },
    {
        match &self.cxx_type {
            Option::Some(cxx_type) => cxx_type.as_str(),
            Option::None => self.as_rust_ty(),
        }
    }

    /// The declared type's own native spelling.
    pub fn as_rust_ty(&self) -> (r: &str)
        ensures
            r@ == self.ty@,
    {
        self.ty.as_str()
    }

    /// Construct a [`CppType`] from a declared type and the contents of the
    /// override attribute.
    pub fn from(ty: &RustType, cxx_type: &Option<String>, cxx_names_map: &NameMap) -> (r: Result<
        CppType,
        TypeError,
    >)
        ensures
            match r {
                Result::Ok(c) => spec_to_cpp(ty@, cxx_names_map@) == Result::<
                    Seq<char>,
                    TypeError,
                >::Ok(c.ty@) && crate::text::opt_string_view(c.cxx_type)
                    == crate::text::opt_string_view(*cxx_type),
                Result::Err(e) => spec_to_cpp(ty@, cxx_names_map@) == Result::<
                    Seq<char>,
                    TypeError,
                >::Err(e),
            },
    {
        let mapped = match to_cpp_string(ty, cxx_names_map) {
            Result::Ok(s) => s,
            Result::Err(e) => {
                return Result::Err(e);
            },
        };
        let cxx_copy: Option<String> = match cxx_type {
            Option::Some(s) => Option::Some(s.clone()),
            Option::None => Option::None,
        };
        Result::Ok(CppType { cxx_type: cxx_copy, ty: mapped })
    }
}

} // verus!
