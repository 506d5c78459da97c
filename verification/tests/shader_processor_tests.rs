use kiln::{ShaderInclude, ShaderIncludePath, ShaderProcessor, ShaderProcessorError};

#[test]
fn shader_include() {
    let source = r#"#include <input>
#include "help"

struct Foo {
    a: i32,
    b: f32,
}"#;

    let unit = ShaderInclude::parse(source, Some("")).unwrap();

    assert_eq!(
        unit.source,
        "\n\n\nstruct Foo {\n    a: i32,\n    b: f32,\n}"
    );
}

#[test]
fn include_paths_parse_by_delimiter() {
    let global = ShaderIncludePath::parse("<lib/math>", None).unwrap();
    assert!(matches!(&global, ShaderIncludePath::Global(name) if name == "lib/math"));
    assert!(!global.is_local());

    let local = ShaderIncludePath::parse("\"util.wgsl\"", Some("shaders/main.wgsl")).unwrap();
    assert!(matches!(&local, ShaderIncludePath::Local(path) if path == "shaders/util.wgsl"));
    assert!(local.is_local());

    let bare = ShaderIncludePath::parse("\"util.wgsl\"", Some("main.wgsl")).unwrap();
    assert!(matches!(&bare, ShaderIncludePath::Local(path) if path == "util.wgsl"));
}

#[test]
fn include_path_errors() {
    assert!(matches!(
        ShaderIncludePath::parse("", None),
        Err(ShaderProcessorError::ExpectedPath)
    ));
    assert!(matches!(
        ShaderIncludePath::parse("x", None),
        Err(ShaderProcessorError::BadStart('x'))
    ));
    assert!(matches!(
        ShaderIncludePath::parse("<oops", None),
        Err(ShaderProcessorError::BadEnd('>'))
    ));
    assert!(matches!(
        ShaderIncludePath::parse("\"oops", None),
        Err(ShaderProcessorError::BadEnd('"'))
    ));
    assert!(matches!(
        ShaderIncludePath::parse("<a:b>", None),
        Err(ShaderProcessorError::BadChar(':'))
    ));
}

#[test]
fn directives_inside_comments_are_skipped() {
    let source = "/* #include <a> */\nreal";
    let unit = ShaderInclude::parse(source, None).unwrap();
    assert!(unit.includes.is_empty());
    assert_eq!(unit.source, "/* #include <a> */\nreal");

    let source = "// #include <a>\nreal";
    let unit = ShaderInclude::parse(source, None).unwrap();
    assert!(unit.includes.is_empty());
    assert_eq!(unit.source, "// #include <a>\nreal");
}

#[test]
fn repeated_includes_are_recorded_once() {
    let source = "#include <a>\n#include <a>\nbody";
    let unit = ShaderInclude::parse(source, None).unwrap();
    assert_eq!(unit.includes.len(), 1);
    assert!(matches!(&unit.includes[0], ShaderIncludePath::Global(name) if name == "a"));
    assert_eq!(unit.source, "\n\nbody");
}

#[test]
fn processor_splices_in_dependency_order() {
    let mut processor = ShaderProcessor::new();
    processor.insert_global("lib", "fn lib() {}", None).unwrap();
    processor
        .insert_local("a.wgsl", "#include <lib>\nfn a() {}")
        .unwrap();
    let out = processor.process("a.wgsl").unwrap();
    assert_eq!(out, "fn lib() {}\nfn a() {}");
}

#[test]
fn processor_reports_missing_units() {
    let mut processor = ShaderProcessor::empty();
    let err = processor
        .insert_global("top", "#include <missing>\n", None)
        .unwrap_err();
    assert!(matches!(&err, ShaderProcessorError::InvalidGlobal(name) if name == "missing"));

    let err = processor.process("nowhere.wgsl").unwrap_err();
    assert!(matches!(&err, ShaderProcessorError::InvalidLocal(path) if path == "nowhere.wgsl"));
}

#[test]
fn processor_rejects_cycles() {
    let mut processor = ShaderProcessor::empty();
    // register the pair bottom-up, closing the cycle with the second insert
    processor.insert_local("b.wgsl", "B").unwrap();
    processor.insert_local("a.wgsl", "#include \"b.wgsl\"\nA").unwrap();
    processor
        .insert_local("b.wgsl", "#include \"a.wgsl\"\nB")
        .unwrap();
    let err = processor.process("a.wgsl").unwrap_err();
    assert!(matches!(err, ShaderProcessorError::CyclicInclude));
}

#[test]
fn invalidating_locals_keeps_globals() {
    let mut processor = ShaderProcessor::new();
    processor.insert_global("lib", "G", None).unwrap();
    processor.insert_local("a.wgsl", "#include <lib>\nA").unwrap();
    processor.invalidate_locals();
    assert!(processor.contains(&ShaderIncludePath::Global(String::from("lib"))));
    assert!(!processor.contains(&ShaderIncludePath::Local(String::from("a.wgsl"))));
    let err = processor.process("a.wgsl").unwrap_err();
    assert!(matches!(&err, ShaderProcessorError::InvalidLocal(path) if path == "a.wgsl"));
    // re-registering the changed file brings it back
    processor.insert_local("a.wgsl", "A2").unwrap();
    assert_eq!(processor.process("a.wgsl").unwrap(), "A2");
}

#[test]
fn global_names_are_validated() {
    let mut processor = ShaderProcessor::empty();
    let err = processor.insert_global("bad:name", "x", None).unwrap_err();
    assert!(matches!(err, ShaderProcessorError::BadChar(':')));
}
