use cxx_qt_gen::constructor::{ArgRoute, ConstructorDesc};
use cxx_qt_gen::qmap;
use cxx_qt_gen::qmap::QVariant;
use cxx_qt_gen::naming::{camel_case, pascal_case};
use cxx_qt_gen::obj_traits::{CxxQtType, Initialize};
use cxx_qt_gen::parser::ParsedFunctionParameter;
use cxx_qt_gen::qguiapplication::QGuiApplication;
use cxx_qt_gen::qstring::QString;
use cxx_qt_gen::qtmod::{ModItem, parse_mod};
use cxx_qt_gen::text::{join_strs, parse_usize, str_eq};
use cxx_qt_gen::ty::RustType;

fn qstr(text: &str) -> QString {
    QString::from_units(text.encode_utf16().collect())
}

fn param(ident: &str, ty: RustType) -> ParsedFunctionParameter {
    ParsedFunctionParameter { ident: ident.to_owned(), ty }
}

#[test]
fn test_camel_and_pascal_case() {
    assert_eq!(camel_case("data_changed"), "dataChanged");
    assert_eq!(pascal_case("data_changed"), "DataChanged");
    assert_eq!(camel_case("trivial_property"), "trivialProperty");
    assert_eq!(camel_case("ready"), "ready");
    assert_eq!(pascal_case("ready"), "Ready");
    assert_eq!(camel_case(""), "");
}

#[test]
fn test_str_helpers() {
    assert!(str_eq("abc", "abc"));
    assert!(!str_eq("abc", "abd"));
    assert!(!str_eq("abc", "ab"));
    assert_eq!(
        join_strs(&vec!["a".to_owned(), "b".to_owned(), "c".to_owned()], ", "),
        "a, b, c"
    );
    assert_eq!(join_strs(&Vec::new(), ", "), "");
    assert_eq!(parse_usize("123"), Some(123));
    assert_eq!(parse_usize(""), None);
    assert_eq!(parse_usize("12a"), None);
    assert_eq!(parse_usize("99999999999999999999999999"), None);
}

#[test]
fn test_constructor_route_arguments() {
    // Each argument goes to exactly one group; the groups keep the source
    // order and together cover the whole tuple.
    let desc = ConstructorDesc {
        arguments: vec![
            param("alpha", RustType::ident("i32")),
            param("beta", RustType::ident("QString")),
            param("gamma", RustType::ident("i64")),
            param("delta", RustType::ident("bool")),
        ],
        routing: vec![ArgRoute::New, ArgRoute::Base, ArgRoute::New, ArgRoute::Initialize],
    };
    let (new_args, base_args, init_args) = desc.route_arguments();
    assert_eq!(new_args.len(), 2);
    assert_eq!(new_args[0].ident, "alpha");
    assert_eq!(new_args[1].ident, "gamma");
    assert_eq!(base_args.len(), 1);
    assert_eq!(base_args[0].ident, "beta");
    assert_eq!(init_args.len(), 1);
    assert_eq!(init_args[0].ident, "delta");
    assert_eq!(new_args.len() + base_args.len() + init_args.len(), desc.arguments.len());
}

#[test]
fn test_qstring_basics() {
    let mut s = qstr("world");
    assert!(!s.is_empty());
    assert!(QString::new().is_empty());
    let prefix = qstr("hello ");
    s.prepend(&prefix);
    assert_eq!(s.as_slice(), qstr("hello world").as_slice());
    assert!(s.eq_units(&qstr("hello world")));
    assert!(!s.eq_units(&qstr("hello")));
}

#[test]
fn test_qguiapplication_settings() {
    let mut app = QGuiApplication::with_defaults();
    app.set_application_name(&qstr("kdabviewer"));
    app.set_application_version(&qstr("1.2.3"));
    app.set_organization_name(&qstr("KDAB"));
    app.qguiapplication_set_organization_domain(&qstr("kdab.com"));
    assert!(app.application_name().eq_units(&qstr("kdabviewer")));
    assert!(app.application_version().eq_units(&qstr("1.2.3")));
    assert!(app.organization_name().eq_units(&qstr("KDAB")));
    assert!(app.organization_domain().eq_units(&qstr("kdab.com")));
}

#[test]
fn test_qguiapplication_library_paths() {
    let mut app = QGuiApplication::with_defaults();
    app.set_library_paths(vec![qstr("/usr/lib")]);
    // A new path is prepended so it is searched first.
    app.add_library_path(&qstr("/opt/lib"));
    let paths = app.library_paths();
    assert_eq!(paths.len(), 2);
    assert!(paths[0].eq_units(&qstr("/opt/lib")));
    assert!(paths[1].eq_units(&qstr("/usr/lib")));
    // A path already in the list leaves the list unchanged.
    app.add_library_path(&qstr("/usr/lib"));
    assert_eq!(app.library_paths().len(), 2);
    // An empty path leaves the list unchanged.
    app.add_library_path(&QString::new());
    assert_eq!(app.library_paths().len(), 2);
}

#[test]
fn test_parse_mod_counts_extra_blocks() {
    let parsed = parse_mod(
        "ffi".to_owned(),
        true,
        Some(vec![
            ModItem::Other("struct Data;".to_owned()),
            ModItem::ExternQt("fn signal_handler();".to_owned()),
            ModItem::Other("impl Data {}".to_owned()),
            ModItem::ExternQt("fn another();".to_owned()),
        ]),
    );
    assert_eq!(parsed.extra, 2);
    let content = parsed.content.unwrap();
    assert_eq!(content, vec!["struct Data;".to_owned(), "impl Data {}".to_owned()]);
    assert_eq!(parsed.ident, "ffi");

    let empty = parse_mod("ffi".to_owned(), true, None);
    assert_eq!(empty.extra, 0);
    assert!(empty.content.is_none());
}

#[test]
fn test_qvariant_map_operations() {
    let mut map = qmap::default();
    assert_eq!(qmap::len(&map), 0);
    assert!(!qmap::contains(&map, &qstr("kdab")));
    assert_eq!(qmap::get_or_default(&map, &qstr("kdab")), QVariant::Null);

    qmap::insert(&mut map, &qstr("kdab"), &QVariant::I32(10));
    assert_eq!(qmap::len(&map), 1);
    assert!(qmap::contains(&map, &qstr("kdab")));
    assert_eq!(qmap::get_or_default(&map, &qstr("kdab")), QVariant::I32(10));

    // Inserting an existing key replaces its value.
    qmap::insert(&mut map, &qstr("kdab"), &QVariant::U64(100));
    assert_eq!(qmap::len(&map), 1);
    assert_eq!(qmap::get_or_default(&map, &qstr("kdab")), QVariant::U64(100));

    qmap::insert(&mut map, &qstr("other"), &QVariant::Bool(true));
    let copy = qmap::clone(&map);
    assert_eq!(qmap::len(&copy), 2);

    assert!(qmap::remove(&mut map, &qstr("kdab")));
    assert!(!qmap::remove(&mut map, &qstr("kdab")));
    assert_eq!(qmap::len(&map), 1);
    assert_eq!(qmap::get_or_default(&map, &qstr("other")), QVariant::Bool(true));

    qmap::clear(&mut map);
    assert_eq!(qmap::len(&map), 0);
}

struct Counter {
    inner: CounterData,
}

struct CounterData {
    count: i32,
}

impl CxxQtType for Counter {
    type Rust = CounterData;

    fn rust(&self) -> &CounterData {
        &self.inner
    }

    fn rust_mut(&mut self) -> &mut CounterData {
        &mut self.inner
    }
}

impl Initialize for Counter {
    fn initialize(&mut self) {
        self.inner.count = 1;
    }
}

#[test]
fn test_object_traits() {
    let mut counter = Counter { inner: CounterData { count: 0 } };
    assert_eq!(counter.rust().count, 0);
    counter.initialize();
    assert_eq!(counter.rust().count, 1);
    counter.rust_mut().count = 5;
    assert_eq!(counter.rust().count, 5);
}
