use cxx_qt_gen::cpp_property::{generate, generate_wrapper};
use cxx_qt_gen::fragment::CppFragment;
use cxx_qt_gen::naming::QPropertyName;

#[test]
fn test_generate_cpp_property_getter() {
    let idents = QPropertyName::from_idents("my_number", "myNumber");
    let fragment = generate(&idents, "MyObject", "::std::int32_t", Some("// lock"));
    let (header, source) = match fragment {
        CppFragment::Pair { header, source } => (header, source),
        _ => panic!("Expected Pair"),
    };
    assert_eq!(header, "::std::int32_t const& getMyNumber() const;");
    assert_eq!(
        source,
        "::std::int32_t const&\nMyObject::getMyNumber() const\n{\n    // lock\n    return getMyNumberWrapper();\n}\n"
    );
}

#[test]
fn test_generate_cpp_property_getter_wrapper() {
    let idents = QPropertyName::from_idents("my_number", "myNumber");
    let fragment = generate_wrapper(&idents, "::std::int32_t");
    let header = match fragment {
        CppFragment::Header(header) => header,
        _ => panic!("Expected Header"),
    };
    assert_eq!(header, "::std::int32_t const& getMyNumberWrapper() const noexcept;");
}

#[test]
fn test_getter_names_agree_across_fragments() {
    // Name consistency: the public accessor and its wrapper spell the
    // accessor name from the same bundle in both fragments.
    let idents = QPropertyName::from_idents("my_number", "myNumber");
    let getter_cpp = idents.getter.cpp.clone();
    let pair = generate(&idents, "MyObject", "T", None);
    let wrapper = generate_wrapper(&idents, "T");
    let header = match pair {
        CppFragment::Pair { header, .. } => header,
        _ => panic!("Expected Pair"),
    };
    let wrapper_header = match wrapper {
        CppFragment::Header(header) => header,
        _ => panic!("Expected Header"),
    };
    assert!(header.contains(&getter_cpp));
    assert!(wrapper_header.contains(&format!("{getter_cpp}Wrapper")));
}
