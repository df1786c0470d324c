use cxx_qt_gen::cpp_types::{CppType, NameMap, to_cpp_string};
use cxx_qt_gen::ty::RustType;

fn cxx_names_map_default() -> NameMap {
    NameMap::new()
}

#[test]
fn test_cxx_type_with_attribute() {
    let ty = RustType::template("UniquePtr", RustType::ident("QColor"));
    let cxx_ty =
        CppType::from(&ty, &Some("QColor".to_owned()), &cxx_names_map_default()).unwrap();
    assert_eq!(cxx_ty.as_cxx_ty(), "QColor");
    assert_eq!(cxx_ty.as_rust_ty(), "::std::unique_ptr<QColor>");
}

#[test]
fn test_cxx_type_without_attribute() {
    let ty = RustType::template("UniquePtr", RustType::ident("QColor"));
    let cxx_ty = CppType::from(&ty, &None, &cxx_names_map_default()).unwrap();
    assert_eq!(cxx_ty.as_cxx_ty(), "::std::unique_ptr<QColor>");
    assert_eq!(cxx_ty.as_rust_ty(), "::std::unique_ptr<QColor>");
}

#[test]
fn test_cxx_type_mapped() {
    let ty = RustType::ident("A");
    let mut cxx_names_map = NameMap::new();
    cxx_names_map.insert("A".to_owned(), "A1".to_owned());
    let cxx_ty = CppType::from(&ty, &None, &cxx_names_map).unwrap();
    assert_eq!(cxx_ty.as_cxx_ty(), "A1");
    assert_eq!(cxx_ty.as_rust_ty(), "A1");
}

#[test]
fn test_cxx_type_mapped_with_attribute() {
    let ty = RustType::ident("A");
    let mut cxx_names_map = NameMap::new();
    cxx_names_map.insert("A".to_owned(), "A1".to_owned());
    let cxx_ty = CppType::from(&ty, &Some("B1".to_owned()), &cxx_names_map).unwrap();
    assert_eq!(cxx_ty.as_cxx_ty(), "B1");
    assert_eq!(cxx_ty.as_rust_ty(), "A1");
}

#[test]
fn test_to_cpp_string_built_in_one_part() {
    let ty = RustType::ident("i32");
    assert_eq!(
        to_cpp_string(&ty, &cxx_names_map_default()).unwrap(),
        "::std::int32_t"
    );
}

#[test]
fn test_to_cpp_string_unknown_one_part() {
    let ty = RustType::ident("QPoint");
    assert_eq!(
        to_cpp_string(&ty, &cxx_names_map_default()).unwrap(),
        "QPoint"
    );
}

#[test]
fn test_to_cpp_string_ref_const_one_part() {
    let ty = RustType::reference(false, RustType::ident("QPoint"));
    assert_eq!(
        to_cpp_string(&ty, &cxx_names_map_default()).unwrap(),
        "const QPoint&"
    );
}

#[test]
fn test_to_cpp_string_ref_mut_one_part() {
    let ty = RustType::reference(true, RustType::ident("QPoint"));
    assert_eq!(
        to_cpp_string(&ty, &cxx_names_map_default()).unwrap(),
        "QPoint&"
    );
}

#[test]
fn test_to_cpp_string_templated_built_in() {
    let ty = RustType::template("Vec", RustType::ident("f64"));
    assert_eq!(
        to_cpp_string(&ty, &cxx_names_map_default()).unwrap(),
        "::rust::Vec<double>"
    );
}

#[test]
fn test_to_cpp_string_templated_unknown() {
    let ty = RustType::template("UniquePtr", RustType::ident("QColor"));
    assert_eq!(
        to_cpp_string(&ty, &cxx_names_map_default()).unwrap(),
        "::std::unique_ptr<QColor>"
    );
}

#[test]
fn test_to_cpp_string_templated_built_in_ref_const() {
    let ty = RustType::reference(false, RustType::template("Vec", RustType::ident("f64")));
    assert_eq!(
        to_cpp_string(&ty, &cxx_names_map_default()).unwrap(),
        "const ::rust::Vec<double>&"
    );
}

#[test]
fn test_to_cpp_string_templated_unknown_ref_mut() {
    let ty = RustType::reference(
        true,
        RustType::template("UniquePtr", RustType::ident("QColor")),
    );
    assert_eq!(
        to_cpp_string(&ty, &cxx_names_map_default()).unwrap(),
        "::std::unique_ptr<QColor>&"
    );
}

#[test]
fn test_to_cpp_string_mapped() {
    let ty = RustType::ident("A");
    let mut cxx_names_map = NameMap::new();
    cxx_names_map.insert("A".to_owned(), "A1".to_owned());
    assert_eq!(to_cpp_string(&ty, &cxx_names_map).unwrap(), "A1");
}

#[test]
fn test_to_cpp_string_pin() {
    let ty = RustType::template("Pin", RustType::ident("T"));
    assert_eq!(to_cpp_string(&ty, &cxx_names_map_default()).unwrap(), "T");
}

#[test]
fn test_to_cpp_string_pin_ref() {
    let ty = RustType::template("Pin", RustType::reference(false, RustType::ident("T")));
    assert_eq!(
        to_cpp_string(&ty, &cxx_names_map_default()).unwrap(),
        "const T&"
    );
}

#[test]
fn test_to_cpp_string_pin_ref_mut() {
    let ty = RustType::template("Pin", RustType::reference(true, RustType::ident("T")));
    assert_eq!(to_cpp_string(&ty, &cxx_names_map_default()).unwrap(), "T&");
}

#[test]
fn test_to_cpp_string_pin_template() {
    let ty = RustType::template(
        "Pin",
        RustType::template("UniquePtr", RustType::ident("T")),
    );
    assert_eq!(
        to_cpp_string(&ty, &cxx_names_map_default()).unwrap(),
        "::std::unique_ptr<T>"
    );
}

#[test]
fn test_to_cpp_string_pin_template_ref() {
    let ty = RustType::template(
        "Pin",
        RustType::reference(false, RustType::template("UniquePtr", RustType::ident("T"))),
    );
    assert_eq!(
        to_cpp_string(&ty, &cxx_names_map_default()).unwrap(),
        "const ::std::unique_ptr<T>&"
    );
}

#[test]
fn test_to_cpp_string_pin_template_ref_mut() {
    let ty = RustType::template(
        "Pin",
        RustType::reference(true, RustType::template("UniquePtr", RustType::ident("T"))),
    );
    assert_eq!(
        to_cpp_string(&ty, &cxx_names_map_default()).unwrap(),
        "::std::unique_ptr<T>&"
    );
}

#[test]
fn test_to_cpp_string_pointer_rejected() {
    let ty = RustType::Ptr { mutable: true, elem: Box::new(RustType::ident("T")) };
    assert!(to_cpp_string(&ty, &cxx_names_map_default()).is_err());
}

#[test]
fn test_type_mapping_composes() {
    // Mapping a primitive, a reference to it, and a wrapper around it
    // compose: the fixed-width alias, the reference rules, and the
    // template table agree.
    let map = cxx_names_map_default();
    assert_eq!(to_cpp_string(&RustType::ident("u32"), &map).unwrap(), "::std::uint32_t");
    assert_eq!(
        to_cpp_string(&RustType::reference(true, RustType::ident("u32")), &map).unwrap(),
        "::std::uint32_t&"
    );
    assert_eq!(
        to_cpp_string(&RustType::reference(false, RustType::ident("u32")), &map).unwrap(),
        "const ::std::uint32_t&"
    );
    assert_eq!(
        to_cpp_string(&RustType::template("UniquePtr", RustType::ident("u32")), &map).unwrap(),
        "::std::unique_ptr<::std::uint32_t>"
    );
}
