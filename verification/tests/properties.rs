use cxx_qt_gen::naming::QObjectName;
use cxx_qt_gen::parser::ParsedQProperty;
use cxx_qt_gen::rust_property::{SetterStmt, generate_rust_properties};
use cxx_qt_gen::ty::RustType;

fn create_qobjectname() -> QObjectName {
    QObjectName::from_ident("MyObject")
}

fn prop(ident: &str, ty: RustType) -> ParsedQProperty {
    ParsedQProperty { ident: ident.to_owned(), ty }
}

#[test]
fn test_generate_rust_properties() {
    let properties = vec![
        prop("trivial_property", RustType::ident("i32")),
        prop("opaque_property", RustType::template("UniquePtr", RustType::ident("QColor"))),
        prop(
            "unsafe_property",
            RustType::Ptr { mutable: true, elem: Box::new(RustType::ident("T")) },
        ),
    ];
    let qobject_names = create_qobjectname();

    let generated = generate_rust_properties(&properties, &qobject_names);

    // Check that we have the expected number of fragments
    assert_eq!(generated.len(), 3);

    // Trivial property

    // Getter
    assert_eq!(generated[0].getter_decl.cxx_name, "getTrivialProperty");
    assert_eq!(generated[0].getter_decl.ident, "trivial_property");
    assert_eq!(generated[0].getter_impl.doc_property_name, "trivial_property");
    assert_eq!(generated[0].getter_impl.field, "trivial_property");

    // Setter
    assert_eq!(generated[0].setter_decl.cxx_name, "setTrivialProperty");
    assert_eq!(generated[0].setter_decl.ident, "set_trivial_property");
    assert!(!generated[0].setter_decl.method_unsafe);
    assert_eq!(generated[0].setter_decl.value_ty, RustType::ident("i32"));
    assert_eq!(generated[0].setter_impl.field, "trivial_property");
    assert_eq!(generated[0].setter_impl.notify, "trivial_property_changed");
    assert_eq!(
        generated[0].setter_impl.body,
        vec![SetterStmt::ReturnIfUnchanged, SetterStmt::AssignField, SetterStmt::EmitNotify]
    );

    // Notify signal
    assert_eq!(generated[0].notify.bridge_decl.cxx_name, "trivialPropertyChanged");
    assert_eq!(generated[0].notify.bridge_decl.ident, "trivial_property_changed");
    assert_eq!(
        generated[0].notify.connect_decl.rust_name,
        "connect_trivial_property_changed"
    );
    assert_eq!(
        generated[0].notify.connect_decl.cpp_name,
        "trivialPropertyChangedConnect"
    );
    assert_eq!(generated[0].notify.on_impl.on_name, "on_trivial_property_changed");

    // Opaque property

    assert_eq!(generated[1].getter_decl.cxx_name, "getOpaqueProperty");
    assert_eq!(generated[1].getter_decl.ident, "opaque_property");
    assert_eq!(generated[1].setter_decl.cxx_name, "setOpaqueProperty");
    assert_eq!(generated[1].setter_decl.ident, "set_opaque_property");
    assert!(!generated[1].setter_decl.method_unsafe);
    assert_eq!(
        generated[1].setter_decl.value_ty,
        RustType::template("UniquePtr", RustType::ident("QColor"))
    );
    assert_eq!(generated[1].notify.bridge_decl.cxx_name, "opaquePropertyChanged");
    assert_eq!(
        generated[1].notify.connect_decl.rust_name,
        "connect_opaque_property_changed"
    );
    assert_eq!(generated[1].notify.on_impl.on_name, "on_opaque_property_changed");

    // Unsafe property

    assert_eq!(generated[2].getter_decl.cxx_name, "getUnsafeProperty");
    assert_eq!(generated[2].setter_decl.cxx_name, "setUnsafeProperty");
    assert!(generated[2].setter_decl.method_unsafe);
    assert_eq!(generated[2].notify.bridge_decl.cxx_name, "unsafePropertyChanged");
    assert_eq!(
        generated[2].notify.connect_decl.rust_name,
        "connect_unsafe_property_changed"
    );
    assert_eq!(generated[2].notify.on_impl.on_name, "on_unsafe_property_changed");
}

#[test]
fn test_setter_guard_precedes_mutation_and_notify() {
    // Equality short-circuit: the early-return guard stands before the
    // mutation and the emission in every generated setter body.
    let properties = vec![prop("value", RustType::ident("i32"))];
    let generated = generate_rust_properties(&properties, &create_qobjectname());
    let body = &generated[0].setter_impl.body;
    assert_eq!(body.len(), 3);
    assert_eq!(body[0], SetterStmt::ReturnIfUnchanged);
    assert_eq!(body[1], SetterStmt::AssignField);
    assert_eq!(body[2], SetterStmt::EmitNotify);
}

#[test]
fn test_property_names_share_one_bundle() {
    // Name consistency: the native accessor spellings in the bridge
    // declarations and the notify signal's names all derive from the one
    // canonical property name.
    let properties = vec![prop("my_number", RustType::ident("i32"))];
    let generated = generate_rust_properties(&properties, &create_qobjectname());
    let fragment = &generated[0];
    assert_eq!(fragment.getter_decl.cxx_name, "getMyNumber");
    assert_eq!(fragment.setter_decl.cxx_name, "setMyNumber");
    assert_eq!(fragment.notify.bridge_decl.cxx_name, "myNumberChanged");
    assert_eq!(fragment.notify.bridge_decl.ident, "my_number_changed");
    assert_eq!(fragment.setter_impl.notify, "my_number_changed");
}
