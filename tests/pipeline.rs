use oxcc::boundary::{answer, deliver, failure_code, request_path};
use oxcc::transpile::{classify, check_stage, Error, Stage, TransformConfig, Transpiler};
use oxcc::Result;

fn run(path: &str, source: &str) -> std::result::Result<String, Error> {
    let mut t = Transpiler::new();
    t.transpile(path, source)
}

fn code_of(outcome: std::result::Result<String, Error>) -> Result {
    deliver(outcome).0
}

#[test]
fn type_annotation_is_stripped() {
    let out = run("input.ts", "const x: number = 1;").ok().unwrap();
    assert!(out.contains("const x = 1;"));
    assert!(!out.contains("number"));
    assert!(!out.contains(':'));
}

#[test]
fn type_only_imports_are_removed() {
    let src = "import type { Foo } from \"./foo\";\nimport type Bar from \"./bar\";\nconst v: Foo = 1 as Bar;\nconsole.log(v);\n";
    let out = run("input.ts", src).ok().unwrap();
    assert!(!out.contains("import"));
    assert!(!out.contains("Foo"));
    assert!(out.contains("const v = 1;"));
}

#[test]
fn malformed_source_is_a_parse_failure() {
    let outcome = run("input.ts", "const = ;");
    match &outcome {
        Err(Error::Parse(d)) => assert!(!d.is_empty()),
        _ => panic!("expected a parse failure"),
    }
    let (code, output) = deliver(outcome);
    assert_eq!(code, Result::Parse);
    assert!(output.is_none());
}

#[test]
fn unknown_extension_fails_before_reading() {
    assert_eq!(request_path(Some(b"does/not/exist.txt"), true).map_err(|e| e.0), Err(Result::Io));
    assert_eq!(request_path(Some(b"Makefile"), true).map_err(|e| e.0), Err(Result::Io));
    assert!(matches!(run("notes.txt", "const x = 1;"), Err(Error::Io(_))));
    assert!(matches!(run("noext", ""), Err(Error::Io(_))));
}

#[test]
fn recognized_extensions_classify() {
    for path in ["a.js", "a.mjs", "a.cjs", "a.jsx", "a.ts", "a.mts", "a.cts", "a.tsx", "dir/b.d.ts"] {
        assert!(classify(path).is_ok(), "{path}");
    }
    for path in ["a.txt", "a", "a.json", "dir/"] {
        assert!(matches!(classify(path), Err(Error::Io(_))), "{path}");
    }
}

#[test]
fn second_call_on_same_handle_matches_first() {
    let mut t = Transpiler::new();
    let first = t.transpile("input.ts", "const x: number = 1;").ok().unwrap();
    let (code, output) = deliver(Ok(first.clone()));
    assert_eq!(code, Result::Success);
    drop(output);
    let second = t.transpile("input.ts", "const x: number = 1;").ok().unwrap();
    assert_eq!(first, second);
}

#[test]
fn failed_call_does_not_affect_next_call() {
    let mut t = Transpiler::new();
    assert!(matches!(t.transpile("input.ts", "const = ;"), Err(Error::Parse(_))));
    let out = t.transpile("input.ts", "let y: string = \"a\";").ok().unwrap();
    assert!(out.contains("let y = \"a\";"));
    assert!(!out.contains("const"));
}

#[test]
fn two_handles_do_not_share_output() {
    let mut a = Transpiler::new();
    let mut b = Transpiler::new();
    let out_a1 = a.transpile("a.ts", "const a: number = 1;").ok().unwrap();
    let out_b1 = b.transpile("b.ts", "const b: string = \"b\";").ok().unwrap();
    let out_a2 = a.transpile("a.ts", "const a: number = 1;").ok().unwrap();
    assert!(out_a1.contains("const a = 1;"));
    assert!(!out_a1.contains("const b"));
    assert!(out_b1.contains("const b = \"b\";"));
    assert!(!out_b1.contains("const a"));
    assert_eq!(out_a1, out_a2);
}

#[test]
fn import_extensions_are_rewritten() {
    let out = run("main.ts", "import { a } from \"./a.ts\";\nconsole.log(a);\n").ok().unwrap();
    assert!(out.contains("./a.js"));
    assert!(!out.contains("./a.ts"));
}

#[test]
fn namespaces_are_transformed() {
    let out = run("ns.ts", "namespace N { export const a = 1; }\nconsole.log(N.a);\n").ok().unwrap();
    assert!(!out.contains("namespace"));
}

#[test]
fn uninitialized_class_fields_are_dropped() {
    let out = run("c.ts", "class C { x: number; y = 2; }\nnew C();\n").ok().unwrap();
    assert!(!out.contains("x;"));
    assert!(out.contains("y = 2"));
}

#[test]
fn plain_javascript_passes_through() {
    let out = run("plain.js", "let a = 1;\n").ok().unwrap();
    assert_eq!(out, "let a = 1;\n");
}

#[test]
fn typescript_syntax_in_javascript_file_fails_to_parse() {
    assert_eq!(code_of(run("plain.js", "const x: number = 1;")), Result::Parse);
}

#[test]
fn request_without_path_or_slot_is_invalid() {
    assert_eq!(request_path(None, true).map_err(|e| e.0), Err(Result::Invalid));
    assert_eq!(request_path(Some(b"a.ts"), false).map_err(|e| e.0), Err(Result::Invalid));
    assert_eq!(request_path(None, false).map_err(|e| e.0), Err(Result::Invalid));
}

#[test]
fn request_with_non_utf8_path_is_io() {
    assert_eq!(request_path(Some(&[0x61, 0xff, 0x2e, 0x74, 0x73]), true).map_err(|e| e.0), Err(Result::Io));
}

#[test]
fn request_with_good_path_is_accepted() {
    assert_eq!(request_path(Some(b"src/main.ts"), true).map_err(|e| e.0), Ok("src/main.ts".to_string()));
    assert_eq!(request_path(Some("d\u{e9}j\u{e0}.tsx".as_bytes()), true).map_err(|e| e.0), Ok("d\u{e9}j\u{e0}.tsx".to_string()));
}

#[test]
fn each_error_has_its_code() {
    assert_eq!(failure_code(&Error::Io("x".to_string())), Result::Io);
    assert_eq!(failure_code(&Error::Parse(vec!["p".to_string()])), Result::Parse);
    assert_eq!(failure_code(&Error::Semantic(vec!["s".to_string()])), Result::Semantic);
    assert_eq!(failure_code(&Error::Transformer(vec!["t".to_string()])), Result::Transformer);
}

#[test]
fn delivery_hands_over_output_only_on_success() {
    assert_eq!(deliver(Ok("let a = 1;\n".to_string())), (Result::Success, Some("let a = 1;\n".to_string())));
    assert_eq!(deliver(Ok("a\0b".to_string())), (Result::Io, None));
    assert_eq!(deliver(Err(Error::Semantic(vec!["s".to_string()]))), (Result::Semantic, None));
    assert_eq!(deliver(Err(Error::Transformer(vec!["t".to_string()]))), (Result::Transformer, None));
    assert_eq!(deliver(Ok(String::new())), (Result::Success, Some(String::new())));
}

#[test]
fn stage_check_is_fail_fast() {
    assert!(check_stage(Stage::Parse, vec![]).is_ok());
    assert!(check_stage(Stage::Transform, vec![]).is_ok());
    match check_stage(Stage::Semantic, vec!["dup".to_string()]) {
        Err(Error::Semantic(d)) => assert_eq!(d, vec!["dup".to_string()]),
        _ => panic!("expected a semantic failure"),
    }
    match check_stage(Stage::Transform, vec!["a".to_string(), "b".to_string()]) {
        Err(Error::Transformer(d)) => assert_eq!(d.len(), 2),
        _ => panic!("expected a transform failure"),
    }
    assert!(matches!(check_stage(Stage::Parse, vec!["e".to_string()]), Err(Error::Parse(_))));
}

#[test]
fn pipeline_configuration_enables_all_transforms() {
    let c = TransformConfig::pipeline();
    assert!(c.only_remove_type_imports);
    assert!(c.allow_namespaces);
    assert!(c.remove_class_fields_without_initializer);
    assert!(c.rewrite_import_extensions);
}

#[test]
fn answer_to_failed_read_is_io() {
    let mut t = Transpiler::new();
    let (code, output, messages) = answer(&mut t, "gone.ts", Err("not found".to_string()));
    assert_eq!(code, Result::Io);
    assert!(output.is_none());
    assert_eq!(messages, vec!["not found".to_string()]);
}

#[test]
fn answer_to_good_source_hands_over_output() {
    let mut t = Transpiler::new();
    let (code, output, messages) = answer(&mut t, "input.ts", Ok("const x: number = 1;".to_string()));
    assert_eq!(code, Result::Success);
    assert!(output.unwrap().contains("const x = 1;"));
    assert!(messages.is_empty());
}

#[test]
fn answer_to_malformed_source_reports_diagnostics() {
    let mut t = Transpiler::new();
    let (code, output, messages) = answer(&mut t, "input.ts", Ok("const = ;".to_string()));
    assert_eq!(code, Result::Parse);
    assert!(output.is_none());
    assert!(!messages.is_empty());
}

#[test]
fn answer_to_unknown_extension_is_io() {
    let mut t = Transpiler::new();
    let (code, output, messages) = answer(&mut t, "notes.md", Ok("# hi".to_string()));
    assert_eq!(code, Result::Io);
    assert!(output.is_none());
    assert_eq!(messages.len(), 1);
}

#[test]
fn error_messages_are_its_diagnostics() {
    assert_eq!(Error::Io("m".to_string()).into_messages(), vec!["m".to_string()]);
    assert_eq!(
        Error::Parse(vec!["a".to_string(), "b".to_string()]).into_messages(),
        vec!["a".to_string(), "b".to_string()]
    );
    assert_eq!(Error::Transformer(vec![]).into_messages(), Vec::<String>::new());
}

#[test]
fn default_pipeline_transpiles() {
    let mut t = Transpiler::default();
    assert!(t.transpile("d.mts", "export const z: number = 3;").ok().unwrap().contains("export const z = 3;"));
}

#[test]
fn refused_request_says_why() {
    let (code, message) = request_path(Some(b"notes.txt"), true).err().unwrap();
    assert_eq!(code, Result::Io);
    assert!(!message.is_empty());
    let (code, message) = request_path(Some(&[0xff, 0x2e, 0x74, 0x73]), true).err().unwrap();
    assert_eq!(code, Result::Io);
    assert!(!message.is_empty());
}

#[test]
fn parse_failure_carries_parser_diagnostics_only() {
    let mut t = Transpiler::new();
    match t.transpile("bad.ts", "const = ;") {
        Err(Error::Parse(d)) => {
            assert!(!d.is_empty());
            let again = Transpiler::default().transpile("bad.ts", "const = ;");
            match again {
                Err(Error::Parse(d2)) => assert_eq!(d, d2),
                _ => panic!("expected the same parse failure"),
            }
        }
        _ => panic!("expected a parse failure"),
    }
}

#[test]
fn fresh_and_used_handles_agree() {
    let mut used = Transpiler::new();
    let _ = used.transpile("bad.ts", "const = ;");
    let _ = used.transpile("other.tsx", "const a = <div />;");
    let mut fresh = Transpiler::default();
    let src = "enum E { A, B }\nexport const e: E = E.B;\n";
    assert_eq!(used.transpile("e.ts", src).ok().unwrap(), fresh.transpile("e.ts", src).ok().unwrap());
}
