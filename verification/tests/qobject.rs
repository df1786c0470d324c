use cxx_qt_gen::qobject::{
    AttrArgs, Attribute, ItemImpl, ItemStruct, ParsedQObject, QmlElementMetadata,
};
use cxx_qt_gen::ty::RustType;

fn qobject_attr(args: Vec<(&str, Option<&str>)>) -> Attribute {
    Attribute {
        path: vec!["cxx_qt".to_owned(), "qobject".to_owned()],
        args: AttrArgs::KeyValues(
            args.into_iter()
                .map(|(k, v)| (k.to_owned(), v.map(|s| s.to_owned())))
                .collect(),
        ),
    }
}

fn qproperty_attr(ty: RustType, name: &str) -> Attribute {
    Attribute {
        path: vec!["qproperty".to_owned()],
        args: AttrArgs::Property(ty, name.to_owned()),
    }
}

fn plain_struct(attrs: Vec<Attribute>, ident: &str) -> ItemStruct {
    ItemStruct { attrs, vis_public: true, ident: ident.to_owned() }
}

fn create_parsed_qobject() -> ParsedQObject {
    let qobject_struct = plain_struct(vec![qobject_attr(vec![])], "MyObject");
    ParsedQObject::from_struct(&qobject_struct, 0).unwrap()
}

fn trait_impl(negative: bool, unsafety: bool, path: Option<Vec<&str>>) -> ItemImpl {
    ItemImpl {
        attrs: Vec::new(),
        negative,
        unsafety,
        trait_path: path.map(|p| p.into_iter().map(|s| s.to_owned()).collect()),
        constructor: None,
    }
}

#[test]
fn test_from_struct_no_base_class() {
    let qobject_struct = plain_struct(vec![qobject_attr(vec![])], "MyObject");
    let qobject = ParsedQObject::from_struct(&qobject_struct, 0).unwrap();
    assert!(qobject.base_class.is_none());
    assert!(qobject.qml_metadata.is_none());
}

#[test]
fn test_from_struct_base_class() {
    let qobject_struct = plain_struct(
        vec![qobject_attr(vec![("base", Some("QStringListModel"))])],
        "MyObject",
    );
    let qobject = ParsedQObject::from_struct(&qobject_struct, 0).unwrap();
    assert_eq!(qobject.base_class.as_ref().unwrap(), "QStringListModel");
}

#[test]
fn test_from_struct_properties_and_fields() {
    let qobject_struct = plain_struct(
        vec![
            qobject_attr(vec![]),
            qproperty_attr(RustType::ident("i32"), "int_property"),
            qproperty_attr(RustType::ident("i32"), "public_property"),
        ],
        "MyObject",
    );
    let qobject = ParsedQObject::from_struct(&qobject_struct, 0).unwrap();
    assert_eq!(qobject.properties.len(), 2);
}

#[test]
fn test_from_struct_fields() {
    let qobject_struct = plain_struct(vec![qobject_attr(vec![])], "MyObject");
    let qobject = ParsedQObject::from_struct(&qobject_struct, 0).unwrap();
    assert_eq!(qobject.properties.len(), 0);
}

#[test]
fn test_parse_trait_impl_valid() {
    let mut qobject = create_parsed_qobject();
    let item = trait_impl(false, false, Some(vec!["cxx_qt", "Threading"]));
    assert!(!qobject.threading);
    assert!(qobject.parse_trait_impl(item).is_ok());
    assert!(qobject.threading);
}

#[test]
fn test_parse_trait_impl_invalid() {
    let mut qobject = create_parsed_qobject();

    // must be a trait
    let item = trait_impl(false, false, None);
    assert!(qobject.parse_trait_impl(item).is_err());

    // no attribute allowed
    let mut item = trait_impl(false, false, Some(vec!["cxx_qt", "Threading"]));
    item.attrs.push(Attribute { path: vec!["attr".to_owned()], args: AttrArgs::Other });
    assert!(qobject.parse_trait_impl(item).is_err());

    // Threading cannot be negative
    let item = trait_impl(true, false, Some(vec!["cxx_qt", "Threading"]));
    assert!(qobject.parse_trait_impl(item).is_err());

    // must be a known trait
    let item = trait_impl(false, false, Some(vec!["cxx_qt", "ABC"]));
    assert!(qobject.parse_trait_impl(item).is_err());
}

#[test]
fn test_parse_struct_fields_valid() {
    let item = plain_struct(
        vec![
            qobject_attr(vec![]),
            qproperty_attr(RustType::ident("f64"), "f64_property"),
            qproperty_attr(RustType::ident("f64"), "public_property"),
        ],
        "T",
    );
    let properties = ParsedQObject::from_struct(&item, 0).unwrap().properties;
    assert_eq!(properties.len(), 2);

    assert_eq!(properties[0].ident, "f64_property");
    assert_eq!(properties[0].ty, RustType::ident("f64"));

    assert_eq!(properties[1].ident, "public_property");
    assert_eq!(properties[1].ty, RustType::ident("f64"));
}

#[test]
fn test_parse_struct_fields() {
    let item = plain_struct(vec![qobject_attr(vec![])], "T");
    assert!(ParsedQObject::from_struct(&item, 0).is_ok());
}

#[test]
fn test_qml_metadata() {
    let item = plain_struct(
        vec![qobject_attr(vec![("qml_uri", Some("foo.bar")), ("qml_version", Some("1.0"))])],
        "MyObject",
    );
    let qobject = ParsedQObject::from_struct(&item, 0).unwrap();
    assert_eq!(
        qobject.qml_metadata,
        Some(QmlElementMetadata {
            uri: "foo.bar".to_owned(),
            name: "MyObject".to_owned(),
            version_major: 1,
            version_minor: 0,
            uncreatable: false,
            singleton: false,
        })
    );
}

#[test]
fn test_qml_metadata_named() {
    let item = plain_struct(
        vec![qobject_attr(vec![
            ("qml_uri", Some("foo.bar")),
            ("qml_version", Some("1")),
            ("qml_name", Some("MyQmlElement")),
        ])],
        "MyNamedObject",
    );
    let qobject = ParsedQObject::from_struct(&item, 0).unwrap();
    assert_eq!(
        qobject.qml_metadata,
        Some(QmlElementMetadata {
            uri: "foo.bar".to_owned(),
            name: "MyQmlElement".to_owned(),
            version_major: 1,
            version_minor: 0,
            uncreatable: false,
            singleton: false,
        })
    );
}

#[test]
fn test_qml_metadata_singleton() {
    let item = plain_struct(
        vec![qobject_attr(vec![
            ("qml_uri", Some("foo.bar")),
            ("qml_version", Some("1")),
            ("qml_singleton", None),
        ])],
        "MyObject",
    );
    let qobject = ParsedQObject::from_struct(&item, 0).unwrap();
    assert_eq!(
        qobject.qml_metadata,
        Some(QmlElementMetadata {
            uri: "foo.bar".to_owned(),
            name: "MyObject".to_owned(),
            version_major: 1,
            version_minor: 0,
            uncreatable: false,
            singleton: true,
        })
    );
}

#[test]
fn test_qml_metadata_uncreatable() {
    let item = plain_struct(
        vec![qobject_attr(vec![
            ("qml_uri", Some("foo.bar")),
            ("qml_version", Some("1")),
            ("qml_uncreatable", None),
        ])],
        "MyObject",
    );
    let qobject = ParsedQObject::from_struct(&item, 0).unwrap();
    assert_eq!(
        qobject.qml_metadata,
        Some(QmlElementMetadata {
            uri: "foo.bar".to_owned(),
            name: "MyObject".to_owned(),
            version_major: 1,
            version_minor: 0,
            uncreatable: true,
            singleton: false,
        })
    );
}

#[test]
fn test_qml_metadata_no_version() {
    let item = plain_struct(
        vec![qobject_attr(vec![("qml_uri", Some("foo.bar"))])],
        "MyObject",
    );
    assert!(ParsedQObject::from_struct(&item, 0).is_err());
}

#[test]
fn test_qml_metadata_no_uri() {
    let item = plain_struct(
        vec![qobject_attr(vec![("qml_version", Some("1.0"))])],
        "MyObject",
    );
    assert!(ParsedQObject::from_struct(&item, 0).is_err());
}

#[test]
fn test_qml_metadata_only_name_no_version_no_uri() {
    let item = plain_struct(
        vec![qobject_attr(vec![("qml_name", Some("MyQmlElement"))])],
        "MyObject",
    );
    assert!(ParsedQObject::from_struct(&item, 0).is_err());
}

#[test]
fn test_qml_metadata_minor_version() {
    // Only the first two dot-separated parts count; a third is ignored.
    let item = plain_struct(
        vec![qobject_attr(vec![("qml_uri", Some("foo.bar")), ("qml_version", Some("2.7.9"))])],
        "MyObject",
    );
    let qobject = ParsedQObject::from_struct(&item, 0).unwrap();
    let meta = qobject.qml_metadata.unwrap();
    assert_eq!(meta.version_major, 2);
    assert_eq!(meta.version_minor, 7);
}

#[test]
fn test_private_struct_rejected() {
    // An object description that is not public is rejected with the
    // specific diagnostic, never silently accepted.
    let item = ItemStruct {
        attrs: vec![qobject_attr(vec![])],
        vis_public: false,
        ident: "MyObject".to_owned(),
    };
    let err = ParsedQObject::from_struct(&item, 0).unwrap_err();
    assert_eq!(err.msg, "qobject marked structs must be public");
}

#[test]
fn test_locking_disable_then_threading_rejected() {
    let mut qobject = create_parsed_qobject();
    let disable_locking = trait_impl(true, true, Some(vec!["cxx_qt", "Locking"]));
    assert!(qobject.parse_trait_impl(disable_locking).is_ok());
    assert!(!qobject.locking);
    let enable_threading = trait_impl(false, false, Some(vec!["cxx_qt", "Threading"]));
    let err = qobject.parse_trait_impl(enable_threading).unwrap_err();
    assert_eq!(
        err.msg,
        "cxx_qt::Locking must be enabled if cxx_qt::Threading is enabled"
    );
    assert!(!qobject.threading);
}
