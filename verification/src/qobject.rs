//! Structuring of one annotated aggregate into an object description: the
//! object's annotation arguments, the extracted properties, the registration
//! metadata, and the recognized configuration-trait blocks.

use vstd::prelude::*;
use vstd::string::*;

use crate::constructor::ConstructorDesc;
use crate::parser::{GProperty, ParsedQProperty, ParsedSignal};
use crate::text::{all_digits, digits_val, parse_usize, str_eq};
use crate::ty::{GTy, RustType};

verus! {

/// One attribute of the annotated source, reduced to what structuring
/// reads: its path and its arguments.
#[derive(PartialEq, Eq, Debug)]
pub struct Attribute {
    /// The attribute's path, one segment per entry.
    pub path: Vec<String>,
    /// The attribute's arguments.
    pub args: AttrArgs,
}

/// The arguments of one attribute.
#[derive(PartialEq, Eq, Debug)]
pub enum AttrArgs {
    /// A list of `name` or `name = "value"` arguments.
    KeyValues(Vec<(String, Option<String>)>),
    /// A property declaration: its type and its name.
    Property(RustType, String),
    /// Any other argument shape.
    Other,
}

/// Mathematical model of an attribute.
#[verifier::ext_equal]
pub struct GAttr {
    pub path: Seq<Seq<char>>,
    pub args: GAttrArgs,
}

/// Mathematical model of an attribute's arguments.
#[verifier::ext_equal]
pub enum GAttrArgs {
    KeyValues(Seq<(Seq<char>, Option<Seq<char>>)>),
    Property(GTy, Seq<char>),
    Other,
}

impl View for Attribute {
    type V = GAttr;

    open spec fn view(&self) -> GAttr {
        GAttr {
            path: self.path@.map_values(|s: String| s@),
            args: match &self.args {
                AttrArgs::KeyValues(list) => GAttrArgs::KeyValues(
                    list@.map_values(|p: (String, Option<String>)| (p.0@, crate::text::opt_string_view(p.1))),
                ),
                AttrArgs::Property(t, n) => GAttrArgs::Property(t@, n@),
                AttrArgs::Other => GAttrArgs::Other,
            },
        }
    }
}

/// A structuring error, carrying the diagnostic for the offending item.
#[derive(PartialEq, Eq, Debug)]
pub struct Error {
    /// The diagnostic.
    pub msg: String,
}

/// One annotated aggregate as the front end hands it to structuring.
#[derive(PartialEq, Eq, Debug)]
pub struct ItemStruct {
    /// The attributes on the aggregate, in source order.
    pub attrs: Vec<Attribute>,
    /// Whether the aggregate is declared with public visibility.
    pub vis_public: bool,
    /// The aggregate's identifier.
    pub ident: String,
}

/// One trait-shaped configuration block as the front end hands it to
/// structuring.
#[derive(PartialEq, Eq, Debug)]
pub struct ItemImpl {
    /// The attributes on the block, in source order.
    pub attrs: Vec<Attribute>,
    /// Whether the implementation is negated.
    pub negative: bool,
    /// Whether the implementation is declared unsafe.
    pub unsafety: bool,
    /// The implemented trait's path, if the block implements a trait.
    pub trait_path: Option<Vec<String>>,
    /// The declared constructor routing, where the block implements the
    /// constructor trait.
    pub constructor: Option<ConstructorDesc>,
}

/// Metadata for registering an element with the declarative runtime.
#[derive(PartialEq, Eq, Debug)]
pub struct QmlElementMetadata {
    /// The module URI the element is registered under.
    pub uri: String,
    /// The element's registered name.
    pub name: String,
    /// The registered major version.
    pub version_major: usize,
    /// The registered minor version.
    pub version_minor: usize,
    /// Whether the element cannot be created from the declarative side.
    pub uncreatable: bool,
    /// Whether the element is a singleton.
    pub singleton: bool,
}

/// Mathematical model of the registration metadata.
#[verifier::ext_equal]
pub struct GQmlMeta {
    pub uri: Seq<char>,
    pub name: Seq<char>,
    pub version_major: nat,
    pub version_minor: nat,
    pub uncreatable: bool,
    pub singleton: bool,
}

impl View for QmlElementMetadata {
    type V = GQmlMeta;

    open spec fn view(&self) -> GQmlMeta {
        GQmlMeta {
            uri: self.uri@,
            name: self.name@,
            version_major: self.version_major as nat,
            version_minor: self.version_minor as nat,
            uncreatable: self.uncreatable,
            singleton: self.singleton,
        }
    }
}

/// The value of the last `key` argument, a bare `key` counting as the empty
/// value; `None` where no argument carries the key.
pub open spec fn spec_attr_value(
    args: Seq<(Seq<char>, Option<Seq<char>>)>,
    key: Seq<char>,
) -> Option<Seq<char>>
    decreases args.len(),
{
    if args.len() == 0 {
        Option::None
    } else if args.last().0 == key {
        Option::Some(
            match args.last().1 {
                Option::Some(v) => v,
                Option::None => Seq::empty(),
            },
        )
    } else {
        spec_attr_value(args.drop_last(), key)
    }
}

/// Look up the value of the last `key` argument.
#[verifier::loop_isolation(false)]
pub fn attr_value(args: &Vec<(String, Option<String>)>, key: &str) -> (r: Option<String>)
    ensures
        crate::text::opt_string_view(r) == spec_attr_value(
            args@.map_values(|p: (String, Option<String>)| (p.0@, crate::text::opt_string_view(p.1))),
            key@,
        ),
{
    let ghost gargs = args@.map_values(
        |p: (String, Option<String>)| (p.0@, crate::text::opt_string_view(p.1)),
    );
    let mut i: usize = args.len();
    proof {
        assert(gargs.subrange(0, i as int) =~= gargs);
    }
    while i > 0
        invariant
            0 <= i <= gargs.len(),
            gargs.len() == args@.len(),
            spec_attr_value(gargs, key@) == spec_attr_value(gargs.subrange(0, i as int), key@),
        decreases i,
    {
        i = i - 1;
        proof {
            assert(gargs.subrange(0, i + 1int).last() == gargs[i as int]);
            assert(gargs.subrange(0, i + 1int).drop_last() =~= gargs.subrange(0, i as int));
        }
        let entry = &args[i];
        if str_eq(entry.0.as_str(), key) {
            match &entry.1 {
                Option::Some(v) => {
                    return Option::Some(v.clone());
                },
                Option::None => {
                    return Option::Some(String::new());
                },
            }
        }
    }
    Option::None
}

/// Whether the path spells `<a>::<b>`.
pub open spec fn spec_path_is(path: Seq<Seq<char>>, a: Seq<char>, b: Seq<char>) -> bool {
    path.len() == 2 && path[0] == a && path[1] == b
}

/// Whether the path spells `<a>::<b>`.
pub fn path_is(path: &Vec<String>, a: &str, b: &str) -> (r: bool)
    ensures
        r == spec_path_is(path@.map_values(|s: String| s@), a@, b@),
{
    if path.len() != 2 {
        return false;
    }
    str_eq(path[0].as_str(), a) && str_eq(path[1].as_str(), b)
}

/// The index of the first `.` at or after `from`, or the length where none
/// follows.
pub open spec fn spec_dot_ix(s: Seq<char>, from: int) -> int
    decreases s.len() - from
        when 0 <= from <= s.len()
{
    if from == s.len() {
        from
    } else if s[from] == '.' {
        from
    } else {
        spec_dot_ix(s, from + 1)
    }
}

/// Find the first `.` at or after `from`.
#[verifier::loop_isolation(false)]
pub fn dot_ix(s: &str, from: usize) -> (r: usize)
    requires
        from <= s@.len(),
    ensures
        r == spec_dot_ix(s@, from as int),
        from <= r <= s@.len(),
{
    let n = s.unicode_len();
    let mut i: usize = from;
    while i < n
        invariant
            from <= i <= n,
            spec_dot_ix(s@, from as int) == spec_dot_ix(s@, i as int),
        decreases n - i,
    {
        if s.get_char(i) == '.' {
            return i;
        }
        i = i + 1;
    }
    n
}

/// The major-version digits of a version string: everything before the
/// first dot.
pub open spec fn spec_major_part(v: Seq<char>) -> Seq<char> {
    v.subrange(0, spec_dot_ix(v, 0))
}

/// The minor-version digits of a version string: everything between the
/// first and the second dot, or nothing where no dot occurs.
pub open spec fn spec_minor_part(v: Seq<char>) -> Seq<char> {
    let d1 = spec_dot_ix(v, 0);
    if d1 == v.len() {
        v.subrange(0, 0)
    } else {
        v.subrange(d1 + 1, spec_dot_ix(v, d1 + 1))
    }
}

/// The minor version: the value of the minor digits, or zero where they are
/// empty, malformed or out of range.
pub open spec fn spec_minor_value(v: Seq<char>) -> nat {
    let part = spec_minor_part(v);
    if spec_dot_ix(v, 0) != v.len() && part.len() > 0 && all_digits(part) && digits_val(part)
        <= usize::MAX {
        digits_val(part)
    } else {
        0
    }
}

/// Whether the major-version digits of the version string parse as a size.
pub open spec fn spec_major_parses(v: Seq<char>) -> bool {
    let part = spec_major_part(v);
    part.len() > 0 && all_digits(part) && digits_val(part) <= usize::MAX
}

/// The dot-boundary sits inside the string, so both parts are substrings.
proof fn lemma_dot_ix_bounds(s: Seq<char>, from: int)
    requires
        0 <= from <= s.len(),
    ensures
        from <= spec_dot_ix(s, from) <= s.len(),
    decreases s.len() - from,
{
    if from < s.len() && s[from] != '.' {
        lemma_dot_ix_bounds(s, from + 1);
    }
}

/// An exact copy of one attribute.
#[verifier::loop_isolation(false)]
pub fn clone_attr(a: &Attribute) -> (r: Attribute)
    ensures
        r@ == a@,
{
    let mut path: Vec<String> = Vec::new();
    let ghost gpath = a.path@.map_values(|s: String| s@);
    proof {
        assert(path@.map_values(|s: String| s@) =~= gpath.subrange(0, 0));
    }
    let mut i: usize = 0;
    while i < a.path.len()
        invariant
            0 <= i <= a.path@.len(),
            path@.map_values(|s: String| s@) == gpath.subrange(0, i as int),
        decreases a.path@.len() - i,
    {
        path.push(a.path[i].clone());
        proof {
            assert(path@.map_values(|s: String| s@) =~= gpath.subrange(0, i + 1int));
        }
        i = i + 1;
    }
    proof {
        assert(gpath.subrange(0, gpath.len() as int) =~= gpath);
    }
    let args = match &a.args {
        AttrArgs::Other => AttrArgs::Other,
        AttrArgs::Property(t, n) => AttrArgs::Property(t.clone_ty(), n.clone()),
        AttrArgs::KeyValues(list) => {
            let ghost glist = list@.map_values(
                |p: (String, Option<String>)| (p.0@, crate::text::opt_string_view(p.1)),
            );
            let mut kvs: Vec<(String, Option<String>)> = Vec::new();
            proof {
                assert(kvs@.map_values(
                    |p: (String, Option<String>)| (p.0@, crate::text::opt_string_view(p.1)),
                ) =~= glist.subrange(0, 0));
            }
            let mut j: usize = 0;
            while j < list.len()
                invariant
                    0 <= j <= list@.len(),
                    kvs@.map_values(
                        |p: (String, Option<String>)| (p.0@, crate::text::opt_string_view(
                            p.1,
                        )),
                    ) == glist.subrange(0, j as int),
                decreases list@.len() - j,
            {
                let entry = &list[j];
                let value: Option<String> = match &entry.1 {
                    Option::Some(v) => Option::Some(v.clone()),
                    Option::None => Option::None,
                };
                kvs.push((entry.0.clone(), value));
                proof {
                    assert(kvs@.map_values(
                        |p: (String, Option<String>)| (p.0@, crate::text::opt_string_view(
                            p.1,
                        )),
                    ) =~= glist.subrange(0, j + 1int));
                }
                j = j + 1;
            }
            proof {
                assert(glist.subrange(0, glist.len() as int) =~= glist);
            }
            AttrArgs::KeyValues(kvs)
        },
    };
    let r = Attribute { path, args };
    proof {
        assert(r@ =~= a@);
    }
    r
}

/// The registration metadata that the annotation arguments describe, the
/// element defaulting to the aggregate's own name, or the diagnostic where
/// the arguments are contradictory.
pub open spec fn spec_qml_metadata(
    gargs: Seq<(Seq<char>, Option<Seq<char>>)>,
    ident: Seq<char>,
) -> Result<Option<GQmlMeta>, Seq<char>> {
    let uri = spec_attr_value(gargs, "qml_uri"@);
    let version = spec_attr_value(gargs, "qml_version"@);
    let name = spec_attr_value(gargs, "qml_name"@);
    let uncreatable = spec_attr_value(gargs, "qml_uncreatable"@);
    let singleton = spec_attr_value(gargs, "qml_singleton"@);
    match (uri, version) {
        (Option::Some(u), Option::Some(v)) => Result::Ok(
            Option::Some(
                GQmlMeta {
                    uri: u,
                    name: match name {
                        Option::Some(n) => n,
                        Option::None => ident,
                    },
                    version_major: digits_val(spec_major_part(v)),
                    version_minor: spec_minor_value(v),
                    uncreatable: uncreatable is Some,
                    singleton: singleton is Some,
                },
            ),
        ),
        (Option::Some(u), Option::None) => Result::Err(
            "qml_uri specified but no qml_version specified"@,
        ),
        (Option::None, Option::Some(v)) => Result::Err(
            "qml_version specified but no qml_uri specified"@,
        ),
        (Option::None, Option::None) => {
            if name is Some {
                Result::Err("qml_name specified but qml_uri and qml_version unspecified"@)
            } else if uncreatable is Some {
                Result::Err(
                    "qml_uncreatable specified but qml_uri and qml_version unspecified"@,
                )
            } else if singleton is Some {
                Result::Err(
                    "qml_singleton specified but qml_uri and qml_version unspecified"@,
                )
            } else {
                Result::Ok(Option::None)
            }
        },
    }
}

/// The key-value arguments of an attribute's model, where it has that
/// shape.
pub open spec fn spec_kv_args(a: GAttr) -> Option<Seq<(Seq<char>, Option<Seq<char>>)>> {
    match a.args {
        GAttrArgs::KeyValues(list) => Option::Some(list),
        _ => Option::None,
    }
}

/// Whether the annotation's arguments let the registration metadata be
/// computed without the major version failing to parse.
pub open spec fn spec_qml_version_ok(a: GAttr) -> bool {
    match spec_kv_args(a) {
        Option::Some(gargs) => {
            let uri = spec_attr_value(gargs, "qml_uri"@);
            let version = spec_attr_value(gargs, "qml_version"@);
            (uri is Some && version is Some) ==> spec_major_parses(version->0)
        },
        Option::None => true,
    }
}

/// The diagnostic for an annotation whose arguments are not a name-value
/// list.
pub open spec fn spec_args_err() -> Seq<char> {
    "Expected a list of name = value arguments"@
}

/// Parse the registration metadata out of the annotation at `attr_index`.
/// The major version must parse; a missing or malformed minor version
/// counts as zero.
pub fn parse_qml_metadata(qobject_struct: &ItemStruct, attr_index: usize) -> (r: Result<
    Option<QmlElementMetadata>,
    Error,
>)
    requires
        attr_index < qobject_struct.attrs@.len(),
        spec_qml_version_ok(qobject_struct.attrs@[attr_index as int]@),
    ensures
        match spec_kv_args(qobject_struct.attrs@[attr_index as int]@) {
            Option::Some(gargs) => match r {
                Result::Ok(m) => spec_qml_metadata(gargs, qobject_struct.ident@) == Result::<
                    Option<GQmlMeta>,
                    Seq<char>,
                >::Ok(
                    match m {
                        Option::Some(meta) => Option::Some(meta@),
                        Option::None => Option::None,
                    },
                ),
                Result::Err(e) => spec_qml_metadata(gargs, qobject_struct.ident@) == Result::<
                    Option<GQmlMeta>,
                    Seq<char>,
                >::Err(e.msg@),
            },
            Option::None => r is Err && r->Err_0.msg@ == spec_args_err(),
        },
{
    let attr = &qobject_struct.attrs[attr_index];
    let list = match &attr.args {
        AttrArgs::KeyValues(list) => list,
        _ => {
            return Result::Err(Error { msg: "Expected a list of name = value arguments".to_owned() });
        },
    };
    let qml_uri = attr_value(list, "qml_uri");
    let qml_version = attr_value(list, "qml_version");
    let qml_name = attr_value(list, "qml_name");
    let qml_uncreatable = attr_value(list, "qml_uncreatable");
    let qml_singleton = attr_value(list, "qml_singleton");
    match (qml_uri, qml_version) {
        (Option::Some(uri), Option::Some(version)) => {
            let v = version.as_str();
            let n = v.unicode_len();
            let d1 = dot_ix(v, 0);
            let major_str = v.substring_char(0, d1);
            let version_major = match parse_usize(major_str) {
                Option::Some(m) => m,
                Option::None => {
                    proof {
                        assert(false);
                    }
                    0
                },
            };
            let version_minor: usize = if d1 == n {
                0
            } else {
                proof {
                    lemma_dot_ix_bounds(v@, d1 + 1int);
                }
                let d2 = dot_ix(v, d1 + 1);
                let minor_str = v.substring_char(d1 + 1, d2);
                match parse_usize(minor_str) {
                    Option::Some(m) => m,
                    Option::None => 0,
                }
            };
            let name = match qml_name {
                Option::Some(n) => n,
                Option::None => qobject_struct.ident.clone(),
            };
            Result::Ok(
                Option::Some(
                    QmlElementMetadata {
                        uri,
                        name,
                        version_major,
                        version_minor,
                        uncreatable: qml_uncreatable.is_some(),
                        singleton: qml_singleton.is_some(),
                    },
                ),
            )
        },
        (Option::Some(_), Option::None) => Result::Err(
            Error { msg: "qml_uri specified but no qml_version specified".to_owned() },
        ),
        (Option::None, Option::Some(_)) => Result::Err(
            Error { msg: "qml_version specified but no qml_uri specified".to_owned() },
        ),
        (Option::None, Option::None) => {
            if qml_name.is_some() {
                Result::Err(
                    Error {
                        msg: "qml_name specified but qml_uri and qml_version unspecified"
                            .to_owned(),
                    },
                )
            } else if qml_uncreatable.is_some() {
                Result::Err(
                    Error {
                        msg: "qml_uncreatable specified but qml_uri and qml_version unspecified"
                            .to_owned(),
                    },
                )
            } else if qml_singleton.is_some() {
                Result::Err(
                    Error {
                        msg: "qml_singleton specified but qml_uri and qml_version unspecified"
                            .to_owned(),
                    },
                )
            } else {
                Result::Ok(Option::None)
            }
        },
    }
}

/// The diagnostic for a malformed property attribute.
pub open spec fn spec_property_err() -> Seq<char> {
    "Expected a type and a name in the property attribute"@
}

/// The attributes kept and the properties extracted from the attributes
/// from `i` on: a property attribute is taken out and parsed, every other
/// attribute stays, in order.
pub open spec fn spec_extract_props(
    attrs: Seq<GAttr>,
    i: int,
    kept: Seq<GAttr>,
    props: Seq<GProperty>,
) -> Result<(Seq<GAttr>, Seq<GProperty>), Seq<char>>
    decreases attrs.len() - i
        when 0 <= i <= attrs.len()
{
    if i == attrs.len() {
        Result::Ok((kept, props))
    } else if attrs[i].path == seq!["qproperty"@] {
        match attrs[i].args {
            GAttrArgs::Property(t, n) => spec_extract_props(
                attrs,
                i + 1,
                kept,
                props.push(GProperty { ident: n, ty: t }),
            ),
            _ => Result::Err(spec_property_err()),
        }
    } else {
        spec_extract_props(attrs, i + 1, kept.push(attrs[i]), props)
    }
}

/// Take every property attribute out of the list, leaving the other
/// attributes untouched, and parse each into a property.
#[verifier::loop_isolation(false)]
pub fn parse_struct_attributes(attrs: &mut Vec<Attribute>) -> (r: Result<
    Vec<ParsedQProperty>,
    Error,
>)
    ensures
        match r {
            Result::Ok(props) => spec_extract_props(
                old(attrs)@.map_values(|a: Attribute| a@),
                0,
                Seq::empty(),
                Seq::empty(),
            ) == Result::<(Seq<GAttr>, Seq<GProperty>), Seq<char>>::Ok(
                (
                    final(attrs)@.map_values(|a: Attribute| a@),
                    props@.map_values(|p: ParsedQProperty| p@),
                ),
            ),
            Result::Err(e) => spec_extract_props(
                old(attrs)@.map_values(|a: Attribute| a@),
                0,
                Seq::empty(),
                Seq::empty(),
            ) == Result::<(Seq<GAttr>, Seq<GProperty>), Seq<char>>::Err(e.msg@),
        },
{
    let ghost gattrs = attrs@.map_values(|a: Attribute| a@);
    let mut kept: Vec<Attribute> = Vec::new();
    let mut props: Vec<ParsedQProperty> = Vec::new();
    proof {
        assert(kept@.map_values(|a: Attribute| a@) =~= Seq::<GAttr>::empty());
        assert(props@.map_values(|p: ParsedQProperty| p@) =~= Seq::<GProperty>::empty());
    }
    let mut i: usize = 0;
    while i < attrs.len()
        invariant
            0 <= i <= attrs@.len(),
            attrs@.map_values(|a: Attribute| a@) == gattrs,
            spec_extract_props(gattrs, 0, Seq::empty(), Seq::empty()) == spec_extract_props(
                gattrs,
                i as int,
                kept@.map_values(|a: Attribute| a@),
                props@.map_values(|p: ParsedQProperty| p@),
            ),
        decreases attrs@.len() - i,
    {
        let a = &attrs[i];
        let mut is_qproperty = false;
        if a.path.len() == 1 {
            if str_eq(a.path[0].as_str(), "qproperty") {
                is_qproperty = true;
            }
        }
        proof {
            assert(gattrs[i as int] == a@);
            if is_qproperty {
                assert(gattrs[i as int].path =~= seq!["qproperty"@]);
            } else {
                if a.path@.len() == 1 {
                    assert(gattrs[i as int].path[0] == a.path@[0]@);
                    assert(a.path@[0]@ != "qproperty"@);
                    assert(gattrs[i as int].path != seq!["qproperty"@]) by {
                        if gattrs[i as int].path == seq!["qproperty"@] {
                            assert(gattrs[i as int].path[0] == "qproperty"@);
                        }
                    }
                } else {
                    assert(gattrs[i as int].path.len() != 1);
                    assert(seq!["qproperty"@].len() == 1);
                }
            }
        }
        if is_qproperty {
            match &a.args {
                AttrArgs::Property(t, n) => {
                    let ghost props0 = props@.map_values(|p: ParsedQProperty| p@);
                    props.push(ParsedQProperty { ident: n.clone(), ty: t.clone_ty() });
                    proof {
                        assert(props@.map_values(|p: ParsedQProperty| p@) =~= props0.push(
                            props@.last()@,
                        ));
                    }
                },
                _ => {
                    return Result::Err(
                        Error {
                            msg: "Expected a type and a name in the property attribute"
                                .to_owned(),
                        },
                    );
                },
            }
        } else {
            let ghost kept0 = kept@.map_values(|a: Attribute| a@);
            kept.push(clone_attr(a));
            proof {
                assert(kept@.map_values(|a: Attribute| a@) =~= kept0.push(kept@.last()@));
            }
        }
        i = i + 1;
    }
    *attrs = kept;
    Result::Ok(props)
}

/// The structured representation of one annotated aggregate: the split of
/// its members into the blocks that generation reads. Created once per
/// annotated aggregate found during structuring; later structuring passes
/// only append members.
#[derive(PartialEq, Eq, Debug)]
pub struct ParsedQObject {
    /// The base class declared for the aggregate, if any.
    pub base_class: Option<String>,
    /// The aggregate itself, with the annotation and the property
    /// attributes taken out.
    pub qobject_struct: ItemStruct,
    /// The externally visible namespace; empty means the module's own.
    pub namespace: String,
    /// The object's signals.
    pub signals: Vec<ParsedSignal>,
    /// The object's user-declared constructors.
    pub constructors: Vec<ConstructorDesc>,
    /// The object's properties.
    pub properties: Vec<ParsedQProperty>,
    /// The declarative registration metadata, if requested.
    pub qml_metadata: Option<QmlElementMetadata>,
    /// Whether generated accessors take the object's lock.
    pub locking: bool,
    /// Whether the threading capability is enabled; it demands locking.
    pub threading: bool,
}

/// The diagnostic for an aggregate that is not declared public.
pub open spec fn spec_visibility_err() -> Seq<char> {
    "qobject marked structs must be public"@
}

impl ParsedQObject {
    /// Structure one annotated aggregate: read the annotation's arguments,
    /// extract the properties from the attribute list, and reject an
    /// aggregate that is not public — the wrapper type generated for a
    /// private one would be unreachable, which would only surface as an
    /// obscure downstream error.
    #[verifier::loop_isolation(false)]
    pub fn from_struct(qobject_struct: &ItemStruct, attr_index: usize) -> (r: Result<
        ParsedQObject,
        Error,
    >)
        requires
            attr_index < qobject_struct.attrs@.len(),
            spec_qml_version_ok(qobject_struct.attrs@[attr_index as int]@),
        ensures
            ({
                let gattrs = qobject_struct.attrs@.map_values(|a: Attribute| a@);
                let annotation = gattrs[attr_index as int];
                match spec_kv_args(annotation) {
                    Option::None => r is Err && r->Err_0.msg@ == spec_args_err(),
                    Option::Some(gargs) => {
                        let meta = spec_qml_metadata(gargs, qobject_struct.ident@);
                        let extracted = spec_extract_props(
                            gattrs.remove(attr_index as int),
                            0,
                            Seq::empty(),
                            Seq::empty(),
                        );
                        if meta is Err {
                            r is Err && r->Err_0.msg@ == meta->Err_0
                        } else if extracted is Err {
                            r is Err && r->Err_0.msg@ == extracted->Err_0
                        } else if !qobject_struct.vis_public {
                            r is Err && r->Err_0.msg@ == spec_visibility_err()
                        } else {
                            let obj = r->Ok_0;
                            &&& r is Ok
                            &&& crate::text::opt_string_view(obj.base_class)
                                == spec_attr_value(gargs, "base"@)
                            &&& obj.namespace@ == match spec_attr_value(gargs, "namespace"@) {
                                Option::Some(v) => v,
                                Option::None => Seq::<char>::empty(),
                            }
                            &&& obj.qobject_struct.attrs@.map_values(|a: Attribute| a@)
                                == extracted->Ok_0.0
                            &&& obj.qobject_struct.vis_public == qobject_struct.vis_public
                            &&& obj.qobject_struct.ident@ == qobject_struct.ident@
                            &&& obj.properties@.map_values(|p: ParsedQProperty| p@)
                                == extracted->Ok_0.1
                            &&& match (obj.qml_metadata, meta->Ok_0) {
                                (Option::Some(m), Option::Some(g)) => m@ == g,
                                (Option::None, Option::None) => true,
                                _ => false,
                            }
                            &&& obj.signals@.len() == 0
                            &&& obj.constructors@.len() == 0
                            &&& obj.locking
                            &&& !obj.threading
                        }
                    },
                }
            }),
    {
        let ghost gattrs = qobject_struct.attrs@.map_values(|a: Attribute| a@);
        let qml_metadata = match parse_qml_metadata(qobject_struct, attr_index) {
            Result::Ok(m) => m,
            Result::Err(e) => {
                return Result::Err(e);
            },
        };
        let attr = &qobject_struct.attrs[attr_index];
        let list = match &attr.args {
            AttrArgs::KeyValues(list) => list,
            _ => {
                return Result::Err(
                    Error { msg: "Expected a list of name = value arguments".to_owned() },
                );
            },
        };
        let base_class = attr_value(list, "base");
        let namespace = match attr_value(list, "namespace") {
            Option::Some(v) => v,
            Option::None => String::new(),
        };

        // Take the annotation itself out of the attribute list, then
        // extract the property attributes from what is left.
        let mut remaining: Vec<Attribute> = Vec::new();
        let ghost gremaining = gattrs.remove(attr_index as int);
        proof {
            assert(gattrs.len() == qobject_struct.attrs@.len());
            assert(gremaining =~= gattrs.subrange(0, attr_index as int) + gattrs.subrange(
                attr_index + 1,
                gattrs.len() as int,
            ));
            assert(remaining@.map_values(|a: Attribute| a@) =~= gremaining.subrange(0, 0));
        }
        let mut i: usize = 0;
        while i < qobject_struct.attrs.len()
            invariant
                0 <= i <= qobject_struct.attrs@.len(),
                attr_index < qobject_struct.attrs@.len(),
                gattrs.len() == qobject_struct.attrs@.len(),
                gremaining == gattrs.remove(attr_index as int),
                gremaining.len() == gattrs.len() - 1,
                remaining@.map_values(|a: Attribute| a@) == gremaining.subrange(
                    0,
                    if i <= attr_index {
                        i as int
                    } else {
                        i - 1
                    },
                ),
            decreases qobject_struct.attrs@.len() - i,
        {
            if i != attr_index {
                let ghost rem0 = remaining@.map_values(|a: Attribute| a@);
                let ghost pos: int = if i <= attr_index {
                    i as int
                } else {
                    i - 1
                };
                proof {
                    let left = gattrs.subrange(0, attr_index as int);
                    let right = gattrs.subrange(attr_index + 1, gattrs.len() as int);
                    assert(gremaining =~= left + right);
                    if i < attr_index {
                        assert((left + right)[pos] == left[pos]);
                        assert(left[pos] == gattrs[i as int]);
                    } else {
                        assert((left + right)[pos] == right[pos - attr_index]);
                        assert(right[pos - attr_index] == gattrs[i as int]);
                    }
                    assert(gremaining[pos] == gattrs[i as int]);
                }
                remaining.push(clone_attr(&qobject_struct.attrs[i]));
                proof {
                    assert(remaining@.last()@ == gattrs[i as int]);
                    assert(remaining@.map_values(|a: Attribute| a@) =~= rem0.push(
                        gattrs[i as int],
                    ));
                    assert(gremaining.subrange(0, pos + 1).drop_last() =~= gremaining
                        .subrange(0, pos));
                    assert(gremaining.subrange(0, pos + 1).last() == gremaining[pos]);
                    assert(remaining@.map_values(|a: Attribute| a@) =~= gremaining.subrange(
                        0,
                        pos + 1,
                    ));
                }
            }
            i = i + 1;
        }
        proof {
            assert(gremaining.subrange(0, gremaining.len() as int) =~= gremaining);
        }
        let properties = match parse_struct_attributes(&mut remaining) {
            Result::Ok(props) => props,
            Result::Err(e) => {
                return Result::Err(e);
            },
        };

        // The wrapper type generated for a private aggregate would be
        // unreachable, so reject it here with a clear diagnostic.
        if !qobject_struct.vis_public {
            return Result::Err(Error { msg: "qobject marked structs must be public".to_owned() });
        }
        Result::Ok(
            ParsedQObject {
                base_class,
                qobject_struct: ItemStruct {
                    attrs: remaining,
                    vis_public: qobject_struct.vis_public,
                    ident: qobject_struct.ident.clone(),
                },
                namespace,
                signals: Vec::new(),
                constructors: Vec::new(),
                properties,
                qml_metadata,
                locking: true,
                threading: false,
            },
        )
    }

    /// Recognize one trait-shaped configuration block by fully-qualified
    /// path: disabling locking, enabling threading, or declaring a
    /// constructor. Anything else has no code-generation meaning and is
    /// rejected with a descriptive diagnostic; threading without locking is
    /// contradictory and rejected in whichever order the two blocks come.
    pub fn parse_trait_impl(&mut self, imp: ItemImpl) -> (r: Result<(), Error>)
        ensures
            ({
                let old_self = *old(self);
                let s = *final(self);
                match imp.trait_path {
                    Option::None => r is Err && s == old_self && r->Err_0.msg@
                        == "Expected trait impl!"@,
                    Option::Some(path) => {
                        let gpath = path@.map_values(|p: String| p@);
                        if imp.attrs@.len() > 0 {
                            r is Err && s == old_self && r->Err_0.msg@
                                == "Attributes are not allowed on trait impls in cxx_qt::bridge"@
                        } else if spec_path_is(gpath, "cxx_qt"@, "Locking"@) {
                            if !imp.unsafety {
                                r is Err && s == old_self && r->Err_0.msg@
                                    == "cxx_qt::Locking must be an unsafe impl"@
                            } else if !imp.negative {
                                r is Err && s == old_self && r->Err_0.msg@
                                    == "cxx_qt::Locking is enabled by default, it can only be negated."@
                            } else if old_self.threading {
                                r is Err && s == old_self && r->Err_0.msg@
                                    == "cxx_qt::Locking must be enabled if cxx_qt::Threading is enabled"@
                            } else {
                                r is Ok && s == ParsedQObject { locking: false, ..old_self }
                            }
                        } else if spec_path_is(gpath, "cxx_qt"@, "Threading"@) {
                            if imp.negative {
                                r is Err && s == old_self && r->Err_0.msg@
                                    == "Negative impls for cxx_qt::Threading are not allowed"@
                            } else if !old_self.locking {
                                r is Err && s == old_self && r->Err_0.msg@
                                    == "cxx_qt::Locking must be enabled if cxx_qt::Threading is enabled"@
                            } else {
                                r is Ok && s == ParsedQObject { threading: true, ..old_self }
                            }
                        } else if spec_path_is(gpath, "cxx_qt"@, "Constructor"@) {
                            match imp.constructor {
                                Option::Some(c) => {
                                    if c.wf() {
                                        r is Ok && s.constructors@ == old_self.constructors@
                                            .push(c) && s == ParsedQObject {
                                            constructors: s.constructors,
                                            ..old_self
                                        }
                                    } else {
                                        r is Err && s == old_self && r->Err_0.msg@
                                            == "Expected one routing destination for each constructor argument"@
                                    }
                                },
                                Option::None => r is Err && s == old_self && r->Err_0.msg@
                                    == "Expected one routing destination for each constructor argument"@,
                            }
                        } else {
                            r is Err && s == old_self && r->Err_0.msg@
                                == "Unsupported trait!\nCXX-Qt currently only supports:\n- cxx_qt::Threading\n- cxx_qt::Constructor\n- cxx_qt::Locking\nNote that the trait must always be fully-qualified."@
                        }
                    },
                }
            }),
    {
        let trait_path = match &imp.trait_path {
            Option::Some(path) => path,
            Option::None => {
                return Result::Err(Error { msg: "Expected trait impl!".to_owned() });
            },
        };
        if imp.attrs.len() > 0 {
            return Result::Err(
                Error {
                    msg: "Attributes are not allowed on trait impls in cxx_qt::bridge".to_owned(),
                },
            );
        }
        if path_is(trait_path, "cxx_qt", "Locking") {
            if !imp.unsafety {
                return Result::Err(
                    Error { msg: "cxx_qt::Locking must be an unsafe impl".to_owned() },
                );
            }
            if !imp.negative {
                return Result::Err(
                    Error {
                        msg: "cxx_qt::Locking is enabled by default, it can only be negated."
                            .to_owned(),
                    },
                );
            }
            if self.threading {
                return Result::Err(
                    Error {
                        msg: "cxx_qt::Locking must be enabled if cxx_qt::Threading is enabled"
                            .to_owned(),
                    },
                );
            }
            self.locking = false;
            Result::Ok(())
        } else if path_is(trait_path, "cxx_qt", "Threading") {
            if imp.negative {
                return Result::Err(
                    Error {
                        msg: "Negative impls for cxx_qt::Threading are not allowed".to_owned(),
                    },
                );
            }
            if !self.locking {
                return Result::Err(
                    Error {
                        msg: "cxx_qt::Locking must be enabled if cxx_qt::Threading is enabled"
                            .to_owned(),
                    },
                );
            }
            self.threading = true;
            Result::Ok(())
        } else if path_is(trait_path, "cxx_qt", "Constructor") {
            match imp.constructor {
                Option::Some(c) => {
                    if c.routing.len() == c.arguments.len() {
                        self.constructors.push(c);
                        Result::Ok(())
                    } else {
                        Result::Err(
                            Error {
                                msg: "Expected one routing destination for each constructor argument"
                                    .to_owned(),
                            },
                        )
                    }
                },
                Option::None => Result::Err(
                    Error {
                        msg: "Expected one routing destination for each constructor argument"
                            .to_owned(),
                    },
                ),
            }
        } else {
            Result::Err(
                Error {
                    msg: "Unsupported trait!\nCXX-Qt currently only supports:\n- cxx_qt::Threading\n- cxx_qt::Constructor\n- cxx_qt::Locking\nNote that the trait must always be fully-qualified."
                        .to_owned(),
                },
            )
        }
    }
}

} // verus!
