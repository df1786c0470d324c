use cxx_qt_gen::cpp_signal::generate_cpp_signals;
use cxx_qt_gen::cpp_types::NameMap;
use cxx_qt_gen::fragment::CppFragment;
use cxx_qt_gen::naming::{CombinedIdent, QObjectName};
use cxx_qt_gen::parser::{ParsedFunctionParameter, ParsedSignal};
use cxx_qt_gen::rust_signal::generate_rust_signals;
use cxx_qt_gen::ty::RustType;

fn create_qobjectname() -> QObjectName {
    QObjectName::from_ident("MyObject")
}

fn signal(
    cpp: &str,
    rust: &str,
    parameters: Vec<ParsedFunctionParameter>,
    safe: bool,
    inherit: bool,
    attrs: Vec<&str>,
) -> ParsedSignal {
    ParsedSignal {
        ident: CombinedIdent { cpp: cpp.to_owned(), rust: rust.to_owned() },
        qobject_ident: "MyObject".to_owned(),
        mutable: true,
        parameters,
        safe,
        inherit,
        attrs: attrs.into_iter().map(|a| a.to_owned()).collect(),
    }
}

fn param(ident: &str, ty: RustType) -> ParsedFunctionParameter {
    ParsedFunctionParameter { ident: ident.to_owned(), ty }
}

#[test]
fn test_generate_cpp_signals() {
    let signals = vec![signal(
        "dataChanged",
        "data_changed",
        vec![
            param("trivial", RustType::ident("i32")),
            param("opaque", RustType::template("UniquePtr", RustType::ident("QColor"))),
        ],
        true,
        false,
        vec![],
    )];
    let qobject_idents = create_qobjectname();

    let generated = generate_cpp_signals(
        &signals,
        &qobject_idents,
        &NameMap::new(),
        Some("// ::std::lock_guard"),
    )
    .unwrap();

    assert_eq!(generated.methods.len(), 2);
    let header = if let CppFragment::Header(header) = &generated.methods[0] {
        header
    } else {
        panic!("Expected header")
    };
    assert_eq!(
        header,
        "Q_SIGNAL void dataChanged(::std::int32_t trivial, ::std::unique_ptr<QColor> opaque);"
    );

    let (header, source) = if let CppFragment::Pair { header, source } = &generated.methods[1] {
        (header, source)
    } else {
        panic!("Expected Pair")
    };
    assert_eq!(
        header,
        "::QMetaObject::Connection dataChangedConnect(::rust::Fn<void(MyObject&, ::std::int32_t trivial, ::std::unique_ptr<QColor> opaque)> func, ::Qt::ConnectionType type);"
    );
    assert_eq!(
        source,
        "::QMetaObject::Connection\nMyObject::dataChangedConnect(::rust::Fn<void(MyObject&, ::std::int32_t trivial, ::std::unique_ptr<QColor> opaque)> func, ::Qt::ConnectionType type)\n{\n    return ::QObject::connect(this,\n            &MyObject::dataChanged,\n            this,\n            [&, func = ::std::move(func)](::std::int32_t trivial, ::std::unique_ptr<QColor> opaque) {\n              // ::std::lock_guard\n              func(*this, ::std::move(trivial), ::std::move(opaque));\n            }, type);\n}\n"
    );
}

#[test]
fn test_generate_cpp_signals_mapped_cxx_name() {
    let signals = vec![signal(
        "dataChanged",
        "data_changed",
        vec![param("mapped", RustType::ident("A1"))],
        true,
        false,
        vec![],
    )];
    let qobject_idents = create_qobjectname();

    let mut cxx_mappings = NameMap::new();
    cxx_mappings.insert("A".to_owned(), "A1".to_owned());

    let generated = generate_cpp_signals(
        &signals,
        &qobject_idents,
        &cxx_mappings,
        Some("// ::std::lock_guard"),
    )
    .unwrap();

    assert_eq!(generated.methods.len(), 2);
    let header = if let CppFragment::Header(header) = &generated.methods[0] {
        header
    } else {
        panic!("Expected header")
    };
    assert_eq!(header, "Q_SIGNAL void dataChanged(A1 mapped);");

    let (header, source) = if let CppFragment::Pair { header, source } = &generated.methods[1] {
        (header, source)
    } else {
        panic!("Expected Pair")
    };
    assert_eq!(
        header,
        "::QMetaObject::Connection dataChangedConnect(::rust::Fn<void(MyObject&, A1 mapped)> func, ::Qt::ConnectionType type);"
    );
    assert_eq!(
        source,
        "::QMetaObject::Connection\nMyObject::dataChangedConnect(::rust::Fn<void(MyObject&, A1 mapped)> func, ::Qt::ConnectionType type)\n{\n    return ::QObject::connect(this,\n            &MyObject::dataChanged,\n            this,\n            [&, func = ::std::move(func)](A1 mapped) {\n              // ::std::lock_guard\n              func(*this, ::std::move(mapped));\n            }, type);\n}\n"
    );
}

#[test]
fn test_generate_cpp_signals_existing_cxx_name() {
    let signals = vec![signal("baseName", "existing_signal", vec![], true, true, vec![
        "cxx_name = \"baseName\"",
    ])];
    let qobject_idents = create_qobjectname();

    let generated = generate_cpp_signals(
        &signals,
        &qobject_idents,
        &NameMap::new(),
        Some("// ::std::lock_guard"),
    )
    .unwrap();

    assert_eq!(generated.methods.len(), 1);

    let (header, source) = if let CppFragment::Pair { header, source } = &generated.methods[0] {
        (header, source)
    } else {
        panic!("Expected Pair")
    };
    assert_eq!(
        header,
        "::QMetaObject::Connection baseNameConnect(::rust::Fn<void(MyObject&)> func, ::Qt::ConnectionType type);"
    );
    assert_eq!(
        source,
        "::QMetaObject::Connection\nMyObject::baseNameConnect(::rust::Fn<void(MyObject&)> func, ::Qt::ConnectionType type)\n{\n    return ::QObject::connect(this,\n            &MyObject::baseName,\n            this,\n            [&, func = ::std::move(func)]() {\n              // ::std::lock_guard\n              func(*this);\n            }, type);\n}\n"
    );
}

#[test]
fn test_generate_rust_signal() {
    let qsignal = signal("ready", "ready", vec![], true, false, vec![]);
    let qobject_idents = create_qobjectname();

    let generated = generate_rust_signals(&vec![qsignal], &qobject_idents);

    assert_eq!(generated.len(), 1);
    let fragment = &generated[0];

    assert_eq!(fragment.bridge_decl.cxx_name, "ready");
    assert_eq!(fragment.bridge_decl.ident, "ready");
    assert!(fragment.bridge_decl.extern_unsafe);
    assert!(!fragment.bridge_decl.method_unsafe);
    assert!(fragment.bridge_decl.parameters.is_empty());

    assert_eq!(
        fragment.connect_decl.doc,
        vec![
            "Connect the given function pointer to the signal ".to_owned(),
            "ready".to_owned(),
            ", so that when the signal is emitted the function pointer is executed."
                .to_owned(),
        ]
    );
    assert_eq!(fragment.connect_decl.rust_name, "connect_ready");
    assert_eq!(fragment.connect_decl.cpp_name, "readyConnect");

    assert_eq!(fragment.on_impl.on_name, "on_ready");
    assert_eq!(fragment.on_impl.connect_rust_name, "connect_ready");
    assert_eq!(
        fragment.on_impl.doc,
        vec![
            "Connect the given function pointer to the signal ".to_owned(),
            "ready".to_owned(),
            ", so that when the signal is emitted the function pointer is executed."
                .to_owned(),
            "\n".to_owned(),
            "Note that this method uses a AutoConnection connection type.".to_owned(),
        ]
    );
}

#[test]
fn test_generate_rust_signal_parameters() {
    let qsignal = signal(
        "dataChanged",
        "data_changed",
        vec![
            param("trivial", RustType::ident("i32")),
            param("opaque", RustType::template("UniquePtr", RustType::ident("QColor"))),
        ],
        true,
        false,
        vec!["attribute"],
    );
    let qobject_idents = create_qobjectname();

    let generated = generate_rust_signals(&vec![qsignal], &qobject_idents);

    assert_eq!(generated.len(), 1);
    let fragment = &generated[0];

    assert_eq!(fragment.bridge_decl.cxx_name, "dataChanged");
    assert_eq!(fragment.bridge_decl.ident, "data_changed");
    assert_eq!(fragment.bridge_decl.attrs, vec!["attribute".to_owned()]);
    assert_eq!(fragment.bridge_decl.parameters.len(), 2);
    assert_eq!(fragment.bridge_decl.parameters[0].ident, "trivial");
    assert_eq!(fragment.bridge_decl.parameters[0].ty, RustType::ident("i32"));
    assert_eq!(fragment.bridge_decl.parameters[1].ident, "opaque");
    assert_eq!(
        fragment.bridge_decl.parameters[1].ty,
        RustType::template("UniquePtr", RustType::ident("QColor"))
    );

    assert_eq!(fragment.connect_decl.rust_name, "connect_data_changed");
    assert_eq!(fragment.connect_decl.cpp_name, "dataChangedConnect");
    assert_eq!(fragment.connect_decl.doc_signal_name, "dataChanged");
    assert_eq!(fragment.on_impl.on_name, "on_data_changed");
}

#[test]
fn test_generate_rust_signal_unsafe() {
    let qsignal = signal(
        "unsafeSignal",
        "unsafe_signal",
        vec![param(
            "param",
            RustType::Ptr { mutable: true, elem: Box::new(RustType::ident("T")) },
        )],
        false,
        false,
        vec![],
    );
    let qobject_idents = create_qobjectname();

    let generated = generate_rust_signals(&vec![qsignal], &qobject_idents);

    assert_eq!(generated.len(), 1);
    let fragment = &generated[0];

    // An unacknowledged signal flips both safety markers.
    assert!(!fragment.bridge_decl.extern_unsafe);
    assert!(fragment.bridge_decl.method_unsafe);
    assert!(fragment.connect_decl.func_unsafe);

    assert_eq!(fragment.bridge_decl.cxx_name, "unsafeSignal");
    assert_eq!(fragment.connect_decl.rust_name, "connect_unsafe_signal");
    assert_eq!(fragment.connect_decl.cpp_name, "unsafeSignalConnect");
    assert_eq!(fragment.on_impl.on_name, "on_unsafe_signal");
}

#[test]
fn test_generate_rust_signal_existing() {
    let qsignal = signal("baseName", "existing_signal", vec![], true, true, vec!["inherit"]);
    let qobject_idents = create_qobjectname();

    let generated = generate_rust_signals(&vec![qsignal], &qobject_idents);

    assert_eq!(generated.len(), 1);
    let fragment = &generated[0];

    assert_eq!(fragment.bridge_decl.cxx_name, "baseName");
    assert_eq!(fragment.bridge_decl.ident, "existing_signal");
    assert_eq!(fragment.bridge_decl.attrs, vec!["inherit".to_owned()]);
    assert_eq!(fragment.connect_decl.rust_name, "connect_existing_signal");
    assert_eq!(fragment.connect_decl.cpp_name, "baseNameConnect");
    assert_eq!(fragment.connect_decl.doc_signal_name, "baseName");
    assert_eq!(fragment.on_impl.on_name, "on_existing_signal");
}

#[test]
fn test_connect_names_agree_across_fragments() {
    // Name consistency: the connect identifier in the native header and
    // the native name the bridge declaration targets are spelled alike.
    let qsignal = signal(
        "dataChanged",
        "data_changed",
        vec![param("trivial", RustType::ident("i32"))],
        true,
        false,
        vec![],
    );
    let qobject_idents = create_qobjectname();
    let rust_fragments = generate_rust_signals(&vec![qsignal], &qobject_idents);

    let qsignal = signal(
        "dataChanged",
        "data_changed",
        vec![param("trivial", RustType::ident("i32"))],
        true,
        false,
        vec![],
    );
    let generated =
        generate_cpp_signals(&vec![qsignal], &qobject_idents, &NameMap::new(), None).unwrap();

    let connect_header = match &generated.methods[1] {
        CppFragment::Pair { header, .. } => header,
        _ => panic!("Expected Pair"),
    };
    let target = &rust_fragments[0].connect_decl.cpp_name;
    let embedded = &connect_header["::QMetaObject::Connection ".len()..][..target.len()];
    assert_eq!(embedded, target);
}
