//! The naming subsystem: every externally visible identifier is derived from
//! one canonical member name with deterministic casing rules, and the bundle
//! of derived names is computed once and shared by every fragment generator
//! that touches the member. That sharing is what keeps the bridge
//! declarations and the native declarations spelled alike.

use vstd::prelude::*;
use vstd::string::*;

use crate::text::push_char;

verus! {

/// The upper-case form of an ASCII letter; any other character is unchanged.
pub open spec fn spec_upper(c: char) -> char {
    if c == 'a' {
        'A'
    } else if c == 'b' {
        'B'
    } else if c == 'c' {
        'C'
    } else if c == 'd' {
        'D'
    } else if c == 'e' {
        'E'
    } else if c == 'f' {
        'F'
    } else if c == 'g' {
        'G'
    } else if c == 'h' {
        'H'
    } else if c == 'i' {
        'I'
    } else if c == 'j' {
        'J'
    } else if c == 'k' {
        'K'
    } else if c == 'l' {
        'L'
    } else if c == 'm' {
        'M'
    } else if c == 'n' {
        'N'
    } else if c == 'o' {
        'O'
    } else if c == 'p' {
        'P'
    } else if c == 'q' {
        'Q'
    } else if c == 'r' {
        'R'
    } else if c == 's' {
        'S'
    } else if c == 't' {
        'T'
    } else if c == 'u' {
        'U'
    } else if c == 'v' {
        'V'
    } else if c == 'w' {
        'W'
    } else if c == 'x' {
        'X'
    } else if c == 'y' {
        'Y'
    } else if c == 'z' {
        'Z'
    } else {
        c
    }
}

/// The upper-case form of an ASCII letter; any other character is unchanged.
pub fn upper_char(c: char) -> (r: char)
    ensures
        r == spec_upper(c),
{
    match c {
        'a' => 'A',
        'b' => 'B',
        'c' => 'C',
        'd' => 'D',
        'e' => 'E',
        'f' => 'F',
        'g' => 'G',
        'h' => 'H',
        'i' => 'I',
        'j' => 'J',
        'k' => 'K',
        'l' => 'L',
        'm' => 'M',
        'n' => 'N',
        'o' => 'O',
        'p' => 'P',
        'q' => 'Q',
        'r' => 'R',
        's' => 'S',
        't' => 'T',
        'u' => 'U',
        'v' => 'V',
        'w' => 'W',
        'x' => 'X',
        'y' => 'Y',
        'z' => 'Z',
        other => other,
    }
}

/// The camel-casing of the characters from `i` on: an underscore is dropped
/// and capitalizes what follows it; `up` says whether the next letter is
/// capitalized.
pub open spec fn camel_from(s: Seq<char>, i: int, up: bool) -> Seq<char>
    decreases s.len() - i
        when 0 <= i <= s.len()
{
    if i == s.len() {
        Seq::empty()
    } else if s[i] == '_' {
        camel_from(s, i + 1, true)
    } else if up {
        seq![spec_upper(s[i])] + camel_from(s, i + 1, false)
    } else {
        seq![s[i]] + camel_from(s, i + 1, false)
    }
}

/// The camel-case form of a snake-case name: `data_changed` becomes
/// `dataChanged`.
pub open spec fn spec_camel(s: Seq<char>) -> Seq<char> {
    camel_from(s, 0, false)
}

/// The pascal-case form of a snake-case name: `data_changed` becomes
/// `DataChanged`.
pub open spec fn spec_pascal(s: Seq<char>) -> Seq<char> {
    camel_from(s, 0, true)
}

/// Re-case a snake-case name, capitalizing after each dropped underscore,
/// and the first letter too when `upper_first` holds.
#[verifier::loop_isolation(false)]
pub fn recase(s: &str, upper_first: bool) -> (r: String)
    ensures
        r@ == camel_from(s@, 0, upper_first),
{
    let n = s.unicode_len();
    let mut out = String::new();
    let mut up = upper_first;
    let mut i: usize = 0;
    proof {
        assert(out@ + camel_from(s@, 0, upper_first) =~= camel_from(s@, 0, upper_first));
    }
    while i < n
        invariant
            0 <= i <= n,
            camel_from(s@, 0, upper_first) == out@ + camel_from(s@, i as int, up),
        decreases n - i,
    {
        let c = s.get_char(i);
        if c == '_' {
            up = true;
        } else if up {
            let ghost out0 = out@;
            push_char(&mut out, upper_char(c));
            up = false;
            proof {
                assert(out0 + (seq![spec_upper(s@[i as int])] + camel_from(s@, i + 1int, false))
                    =~= out@ + camel_from(s@, i + 1int, false));
            }
        } else {
            let ghost out0 = out@;
            push_char(&mut out, c);
            proof {
                assert(out0 + (seq![s@[i as int]] + camel_from(s@, i + 1int, false)) =~= out@
                    + camel_from(s@, i + 1int, false));
            }
        }
        i = i + 1;
    }
    proof {
        assert(out@ + camel_from(s@, n as int, up) =~= out@);
    }
    out
}

/// The camel-case form of a snake-case name.
pub fn camel_case(s: &str) -> (r: String)
    ensures
        r@ == spec_camel(s@),
{
    recase(s, false)
}

/// The pascal-case form of a snake-case name.
pub fn pascal_case(s: &str) -> (r: String)
    ensures
        r@ == spec_pascal(s@),
{
    recase(s, true)
}

/// One name in both spellings: the native one and the bridge-side one.
#[derive(PartialEq, Eq, Debug)]
pub struct CombinedIdent {
    /// The native (C++-side) spelling.
    pub cpp: String,
    /// The bridge-side (Rust-side) spelling.
    pub rust: String,
}

/// The derived connect-function name: native `<cppName>Connect`, bridge-side
/// `connect_<rust_name>`.
pub open spec fn spec_connect_cpp(cpp: Seq<char>) -> Seq<char> {
    cpp + "Connect"@
}

/// The bridge-side connect-function name.
pub open spec fn spec_connect_rust(rust: Seq<char>) -> Seq<char> {
    "connect_"@ + rust
}

/// The bridge-side convenience-wrapper name, `on_<rust_name>`.
pub open spec fn spec_on_rust(rust: Seq<char>) -> Seq<char> {
    "on_"@ + rust
}

/// The native getter name of a property, `get<PascalName>`.
pub open spec fn spec_getter_cpp(name: Seq<char>) -> Seq<char> {
    "get"@ + spec_pascal(name)
}

/// The native setter name of a property, `set<PascalName>`.
pub open spec fn spec_setter_cpp(name: Seq<char>) -> Seq<char> {
    "set"@ + spec_pascal(name)
}

/// The bridge-side setter name of a property, `set_<name>`.
pub open spec fn spec_setter_rust(name: Seq<char>) -> Seq<char> {
    "set_"@ + name
}

/// The native notify-signal name of a property, `<camelName>Changed`.
pub open spec fn spec_notify_cpp(name: Seq<char>) -> Seq<char> {
    spec_camel(name) + "Changed"@
}

/// The bridge-side notify-signal name of a property, `<name>_changed`.
pub open spec fn spec_notify_rust(name: Seq<char>) -> Seq<char> {
    name + "_changed"@
}

/// The names of one signal that every generator of its fragments shares.
#[derive(PartialEq, Eq, Debug)]
pub struct QSignalName {
    /// The signal's own name.
    pub name: CombinedIdent,
    /// The name of the generated connect function.
    pub connect_name: CombinedIdent,
    /// The name of the generated convenience wrapper.
    pub on_name: String,
}

impl QSignalName {
    /// Derive every name of a signal from its two canonical spellings.
    pub fn from_idents(cpp: &str, rust: &str) -> (r: QSignalName)
        ensures
            r.name.cpp@ == cpp@,
            r.name.rust@ == rust@,
            r.connect_name.cpp@ == spec_connect_cpp(cpp@),
            r.connect_name.rust@ == spec_connect_rust(rust@),
            r.on_name@ == spec_on_rust(rust@),
    {
        let mut connect_cpp = cpp.to_owned();
        connect_cpp.append("Connect");
        let mut connect_rust = "connect_".to_owned();
        connect_rust.append(rust);
        let mut on_name = "on_".to_owned();
        on_name.append(rust);
        QSignalName {
            name: CombinedIdent { cpp: cpp.to_owned(), rust: rust.to_owned() },
            connect_name: CombinedIdent { cpp: connect_cpp, rust: connect_rust },
            on_name,
        }
    }
}

/// The names of one property that every generator of its fragments shares.
#[derive(PartialEq, Eq, Debug)]
pub struct QPropertyName {
    /// The property's own name.
    pub name: CombinedIdent,
    /// The names of the generated read accessor.
    pub getter: CombinedIdent,
    /// The name of the native read-accessor wrapper.
    pub getter_wrapper: CombinedIdent,
    /// The names of the generated write accessor.
    pub setter: CombinedIdent,
    /// The name of the native write-accessor wrapper.
    pub setter_wrapper: CombinedIdent,
    /// The names of the property's notify signal.
    pub notify: CombinedIdent,
}

impl QPropertyName {
    /// Derive every name of a property from its canonical snake-case name
    /// and its native spelling.
    pub fn from_idents(rust: &str, cpp: &str) -> (r: QPropertyName)
        ensures
            r.name.rust@ == rust@,
            r.name.cpp@ == cpp@,
            r.getter.cpp@ == spec_getter_cpp(rust@),
            r.getter.rust@ == rust@,
            r.getter_wrapper.cpp@ == spec_getter_cpp(rust@) + "Wrapper"@,
            r.getter_wrapper.rust@ == rust@ + "_wrapper"@,
            r.setter.cpp@ == spec_setter_cpp(rust@),
            r.setter.rust@ == spec_setter_rust(rust@),
            r.setter_wrapper.cpp@ == spec_setter_cpp(rust@) + "Wrapper"@,
            r.setter_wrapper.rust@ == spec_setter_rust(rust@) + "_wrapper"@,
            r.notify.cpp@ == spec_notify_cpp(rust@),
            r.notify.rust@ == spec_notify_rust(rust@),
    {
        let pascal = pascal_case(rust);
        let mut getter_cpp = "get".to_owned();
        getter_cpp.append(pascal.as_str());
        let mut getter_wrapper_cpp = getter_cpp.clone();
        getter_wrapper_cpp.append("Wrapper");
        let mut getter_wrapper_rust = rust.to_owned();
        getter_wrapper_rust.append("_wrapper");
        let mut setter_cpp = "set".to_owned();
        setter_cpp.append(pascal.as_str());
        let mut setter_rust = "set_".to_owned();
        setter_rust.append(rust);
        let mut setter_wrapper_cpp = setter_cpp.clone();
        setter_wrapper_cpp.append("Wrapper");
        let mut setter_wrapper_rust = setter_rust.clone();
        setter_wrapper_rust.append("_wrapper");
        let camel = camel_case(rust);
        let mut notify_cpp = camel;
        notify_cpp.append("Changed");
        let mut notify_rust = rust.to_owned();
        notify_rust.append("_changed");
        QPropertyName {
            name: CombinedIdent { cpp: cpp.to_owned(), rust: rust.to_owned() },
            getter: CombinedIdent { cpp: getter_cpp, rust: rust.to_owned() },
            getter_wrapper: CombinedIdent {
                cpp: getter_wrapper_cpp,
                rust: getter_wrapper_rust,
            },
            setter: CombinedIdent { cpp: setter_cpp, rust: setter_rust },
            setter_wrapper: CombinedIdent {
                cpp: setter_wrapper_cpp,
                rust: setter_wrapper_rust,
            },
            notify: CombinedIdent { cpp: notify_cpp, rust: notify_rust },
        }
    }
}

/// The names of one object that every generator shares.
#[derive(PartialEq, Eq, Debug)]
pub struct QObjectName {
    /// The class name, spelled alike on both sides.
    pub cpp_class: CombinedIdent,
}

impl QObjectName {
    /// Derive the object's names from its declared identifier.
    pub fn from_ident(ident: &str) -> (r: QObjectName)
        ensures
            r.cpp_class.cpp@ == ident@,
            r.cpp_class.rust@ == ident@,
    {
        QObjectName {
            cpp_class: CombinedIdent { cpp: ident.to_owned(), rust: ident.to_owned() },
        }
    }
}

} // verus!
