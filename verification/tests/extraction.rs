use code_extractor::classify::{
    extract_file, parse_enum, parse_fn, parse_impl, parse_item, parse_struct,
};
use code_extractor::context::TContext;
use code_extractor::merge::{merge_results, FileOutcome};
use code_extractor::model::{
    CodeEntity, Decl, EntityKind, FnDecl, ImplDecl, ImplMember, MethodDecl, TypeDecl,
};
use code_extractor::select::{is_excluded_dir, is_source_extension};

fn ctx_at_root(file_name: &str) -> TContext {
    TContext::for_file(&vec![file_name.to_string()])
}

fn line_count(s: &str) -> usize {
    s.chars().filter(|c| *c == '\n').count()
}

fn assert_entities_equal(a: &CodeEntity, b: &CodeEntity) {
    assert_eq!(a.name, b.name);
    assert_eq!(a.signature, b.signature);
    assert_eq!(a.kind, b.kind);
    assert_eq!(a.doc, b.doc);
    assert_eq!(a.name_line, b.name_line);
    assert_eq!(a.line_from, b.line_from);
    assert_eq!(a.line_to, b.line_to);
    assert_eq!(a.context.module, b.context.module);
    assert_eq!(a.context.file_path, b.context.file_path);
    assert_eq!(a.context.file_name, b.context.file_name);
    assert_eq!(a.context.enclosing_type, b.context.enclosing_type);
    assert_eq!(a.context.snippet, b.context.snippet);
    assert_eq!(a.context.before_text, b.context.before_text);
    assert_eq!(a.context.after_text, b.context.after_text);
}

#[test]
fn add_snippet_takes_exact_span() {
    let lines = ["a", "b", "c", "d"];
    let mut ctx = ctx_at_root("f.rs");
    ctx.add_snippet(&lines, 2, 3);
    assert_eq!(ctx.snippet, "b\nc\n");
}

#[test]
fn add_rest_lines_takes_strict_remainders() {
    let lines = ["a", "b", "c", "d"];
    let mut ctx = ctx_at_root("f.rs");
    ctx.add_rest_lines(&lines, 2, 3);
    assert_eq!(ctx.before_text, "a\n");
    assert_eq!(ctx.after_text, "d\n");
}

#[test]
fn full_span_leaves_empty_remainders() {
    let lines = ["only"];
    let mut ctx = ctx_at_root("f.rs");
    ctx.add_snippet(&lines, 1, 1);
    ctx.add_rest_lines(&lines, 1, 1);
    assert_eq!(ctx.snippet, "only\n");
    assert_eq!(ctx.before_text, "");
    assert_eq!(ctx.after_text, "");
}

#[test]
fn trailing_blank_line_is_kept_newline_terminated() {
    let lines = ["a", ""];
    let mut ctx = ctx_at_root("f.rs");
    ctx.add_snippet(&lines, 2, 2);
    ctx.add_rest_lines(&lines, 2, 2);
    assert_eq!(ctx.snippet, "\n");
    assert_eq!(ctx.before_text, "a\n");
    assert_eq!(ctx.after_text, "");
}

#[test]
fn slices_reassemble_file_and_line_counts_add_up() {
    let original = "one\ntwo\nthree\nfour\nfive\n";
    let lines: Vec<&str> = original.lines().collect();
    let mut ctx = ctx_at_root("f.rs");
    ctx.add_snippet(&lines, 2, 4);
    ctx.add_rest_lines(&lines, 2, 4);
    let reassembled = format!("{}{}{}", ctx.before_text, ctx.snippet, ctx.after_text);
    assert_eq!(reassembled, original);
    assert_eq!(
        line_count(&ctx.before_text) + line_count(&ctx.snippet) + line_count(&ctx.after_text),
        lines.len()
    );
}

#[test]
fn module_absent_for_file_at_scan_root() {
    let ctx = ctx_at_root("lib.rs");
    assert_eq!(ctx.module, None);
    assert_eq!(ctx.file_path, "lib.rs");
    assert_eq!(ctx.file_name, "lib.rs");
    assert_eq!(ctx.enclosing_type, None);
}

#[test]
fn module_is_immediate_containing_directory() {
    let segments = vec![
        "segment".to_string(),
        "index".to_string(),
        "mod.rs".to_string(),
    ];
    let ctx = TContext::for_file(&segments);
    assert_eq!(ctx.module, Some("index".to_string()));
    assert_eq!(ctx.file_path, "segment/index/mod.rs");
    assert_eq!(ctx.file_name, "mod.rs");
}

#[test]
fn three_line_struct_yields_one_struct_entity() {
    let lines = ["", "", "struct S {", "    a: i64,", "}"];
    let decl = Decl::Struct(TypeDecl {
        name: "S".to_string(),
        text: "struct S { a : i64 }".to_string(),
        doc: None,
        name_line: 3,
        line_from: 3,
        line_to: 5,
    });
    let (functions, structs) = parse_item(&decl, ctx_at_root("s.rs"), &lines);
    assert_eq!(functions.len(), 0);
    assert_eq!(structs.len(), 1);
    let e = &structs[0];
    assert_eq!(e.kind, EntityKind::Struct);
    assert_eq!(e.name, "S");
    assert_eq!(e.line_from, 3);
    assert_eq!(e.line_to, 5);
    assert_eq!(e.context.enclosing_type, None);
    assert_eq!(e.context.snippet, "struct S {\n    a: i64,\n}\n");
    assert_eq!(e.context.before_text, "\n\n");
    assert_eq!(e.context.after_text, "");
}

#[test]
fn impl_block_yields_method_entities_only() {
    let lines = ["impl S {", "    fn m() {}", "}"];
    let decl = Decl::Impl(ImplDecl {
        self_ty: "S".to_string(),
        members: vec![ImplMember::Method(MethodDecl {
            name: "m".to_string(),
            signature: "fn m ()".to_string(),
            doc: None,
            name_line: 2,
            line_from: 2,
            line_to: 2,
        })],
    });
    let (functions, structs) = parse_item(&decl, ctx_at_root("s.rs"), &lines);
    assert_eq!(structs.len(), 0);
    assert_eq!(functions.len(), 1);
    let e = &functions[0];
    assert_eq!(e.kind, EntityKind::Method);
    assert_eq!(e.name, "m");
    assert_eq!(e.context.enclosing_type, Some("S".to_string()));
    assert_eq!(e.line_from, 2);
    assert_eq!(e.line_to, 2);
    assert_eq!(e.context.snippet, "    fn m() {}\n");
}

#[test]
fn non_method_impl_members_are_ignored() {
    let lines = ["impl S {", "    const K: u8 = 1;", "    fn m() {}", "}"];
    let decl = ImplDecl {
        self_ty: "S".to_string(),
        members: vec![
            ImplMember::Other,
            ImplMember::Method(MethodDecl {
                name: "m".to_string(),
                signature: "fn m ()".to_string(),
                doc: None,
                name_line: 3,
                line_from: 3,
                line_to: 3,
            }),
        ],
    };
    let mut ctx = ctx_at_root("s.rs");
    ctx.enclosing_type = Some("S".to_string());
    let entities = parse_impl(&decl, ctx, &lines);
    assert_eq!(entities.len(), 1);
    assert_eq!(entities[0].name, "m");
}

#[test]
fn doc_comment_is_carried_verbatim() {
    let lines = ["/// adds one", "fn f() {", "}"];
    let decl = FnDecl {
        name: "f".to_string(),
        signature: "fn f ()".to_string(),
        doc: Some("= \" adds one\"".to_string()),
        name_line: 2,
        body_end: 3,
    };
    let e = parse_fn(&decl, ctx_at_root("f.rs"), &lines);
    assert_eq!(e.doc, Some("= \" adds one\"".to_string()));
}

#[test]
fn missing_doc_comment_stays_absent() {
    let lines = ["fn f() {", "}"];
    let decl = FnDecl {
        name: "f".to_string(),
        signature: "fn f ()".to_string(),
        doc: None,
        name_line: 1,
        body_end: 2,
    };
    let e = parse_fn(&decl, ctx_at_root("f.rs"), &lines);
    assert_eq!(e.doc, None);
    assert_eq!(e.kind, EntityKind::Function);
    assert_eq!(e.context.enclosing_type, None);
}

#[test]
fn function_span_starts_at_identifier_line() {
    let lines = ["#[inline]", "fn f() {", "}"];
    let decl = FnDecl {
        name: "f".to_string(),
        signature: "fn f ()".to_string(),
        doc: None,
        name_line: 2,
        body_end: 3,
    };
    let e = parse_fn(&decl, ctx_at_root("f.rs"), &lines);
    assert_eq!(e.name_line, 2);
    assert_eq!(e.line_from, 2);
    assert_eq!(e.line_to, 3);
    assert_eq!(e.context.before_text, "#[inline]\n");
    assert_eq!(e.context.snippet, "fn f() {\n}\n");
    assert_eq!(e.context.after_text, "");
    assert_eq!(
        line_count(&e.context.before_text) + line_count(&e.context.snippet)
            + line_count(&e.context.after_text),
        lines.len()
    );
}

#[test]
fn method_span_includes_leading_attributes() {
    let lines = ["impl S {", "    #[inline]", "    fn m() {}", "}"];
    let decl = ImplDecl {
        self_ty: "S".to_string(),
        members: vec![ImplMember::Method(MethodDecl {
            name: "m".to_string(),
            signature: "fn m ()".to_string(),
            doc: None,
            name_line: 3,
            line_from: 2,
            line_to: 3,
        })],
    };
    let mut ctx = ctx_at_root("s.rs");
    ctx.enclosing_type = Some("S".to_string());
    let entities = parse_impl(&decl, ctx, &lines);
    assert_eq!(entities.len(), 1);
    assert_eq!(entities[0].name_line, 3);
    assert_eq!(entities[0].line_from, 2);
    assert_eq!(entities[0].line_to, 3);
    assert_eq!(entities[0].context.snippet, "    #[inline]\n    fn m() {}\n");
}

#[test]
fn enum_entity_uses_full_declaration_as_signature() {
    let lines = ["enum E {", "    A,", "}"];
    let decl = TypeDecl {
        name: "E".to_string(),
        text: "enum E { A }".to_string(),
        doc: None,
        name_line: 1,
        line_from: 1,
        line_to: 3,
    };
    let e = parse_enum(&decl, ctx_at_root("e.rs"), &lines);
    assert_eq!(e.kind, EntityKind::Enum);
    assert_eq!(e.signature, "enum E { A }");
    assert_eq!(e.context.enclosing_type, None);
}

#[test]
fn struct_entity_signature_matches_parse_struct() {
    let lines = ["struct T;"];
    let decl = TypeDecl {
        name: "T".to_string(),
        text: "struct T ;".to_string(),
        doc: None,
        name_line: 1,
        line_from: 1,
        line_to: 1,
    };
    let e = parse_struct(&decl, ctx_at_root("t.rs"), &lines);
    assert_eq!(e.kind, EntityKind::Struct);
    assert_eq!(e.name, "T");
    assert_eq!(e.signature, "struct T ;");
}

#[test]
fn other_declarations_yield_no_entity() {
    let lines = ["use x::y;"];
    let (functions, structs) = parse_item(&Decl::Other, ctx_at_root("u.rs"), &lines);
    assert_eq!(functions.len(), 0);
    assert_eq!(structs.len(), 0);
}

fn sample_file_decls() -> (Vec<Decl>, [&'static str; 7]) {
    let lines = [
        "struct S {",
        "    a: i64,",
        "}",
        "impl S {",
        "    fn m(&self) -> i64 { self.a }",
        "}",
        "fn free() {}",
    ];
    let decls = vec![
        Decl::Struct(TypeDecl {
            name: "S".to_string(),
            text: "struct S { a : i64 }".to_string(),
            doc: None,
            name_line: 1,
            line_from: 1,
            line_to: 3,
        }),
        Decl::Impl(ImplDecl {
            self_ty: "S".to_string(),
            members: vec![ImplMember::Method(MethodDecl {
                name: "m".to_string(),
                signature: "fn m (& self) -> i64".to_string(),
                doc: None,
                name_line: 5,
                line_from: 5,
                line_to: 5,
            })],
        }),
        Decl::Fn(FnDecl {
            name: "free".to_string(),
            signature: "fn free ()".to_string(),
            doc: None,
            name_line: 7,
            body_end: 7,
        }),
    ];
    (decls, lines)
}

#[test]
fn extract_file_buckets_callable_and_non_callable() {
    let (decls, lines) = sample_file_decls();
    let ctx = ctx_at_root("s.rs");
    let (functions, structs) = extract_file(&decls, &ctx, &lines);
    assert_eq!(structs.len(), 1);
    assert_eq!(functions.len(), 2);
    assert_eq!(structs[0].name, "S");
    assert_eq!(functions[0].name, "m");
    assert_eq!(functions[0].kind, EntityKind::Method);
    assert_eq!(functions[1].name, "free");
    assert_eq!(functions[1].kind, EntityKind::Function);
    for e in structs.iter().chain(functions.iter()) {
        let reassembled =
            format!("{}{}{}", e.context.before_text, e.context.snippet, e.context.after_text);
        assert_eq!(reassembled, lines.join("\n") + "\n");
    }
}

#[test]
fn extraction_twice_yields_identical_entities() {
    let (decls, lines) = sample_file_decls();
    let ctx = ctx_at_root("s.rs");
    let (f1, s1) = extract_file(&decls, &ctx, &lines);
    let (f2, s2) = extract_file(&decls, &ctx, &lines);
    assert_eq!(f1.len(), f2.len());
    assert_eq!(s1.len(), s2.len());
    for (a, b) in f1.iter().zip(f2.iter()) {
        assert_entities_equal(a, b);
    }
    for (a, b) in s1.iter().zip(s2.iter()) {
        assert_entities_equal(a, b);
    }
}

#[test]
fn failed_file_does_not_hinder_siblings() {
    let lines_a = ["fn a() {}"];
    let decls_a = vec![Decl::Fn(FnDecl {
        name: "a".to_string(),
        signature: "fn a ()".to_string(),
        doc: None,
        name_line: 1,
        body_end: 1,
    })];
    let lines_b = ["fn b() {}"];
    let decls_b = vec![Decl::Fn(FnDecl {
        name: "b".to_string(),
        signature: "fn b ()".to_string(),
        doc: None,
        name_line: 1,
        body_end: 1,
    })];
    let (fa, sa) = extract_file(&decls_a, &ctx_at_root("a.rs"), &lines_a);
    let (fb, sb) = extract_file(&decls_b, &ctx_at_root("b.rs"), &lines_b);
    let outcomes = vec![
        FileOutcome::Extracted { functions: fa, structs: sa },
        FileOutcome::Failed {
            file_path: "broken.rs".to_string(),
            reason: "syntax error".to_string(),
        },
        FileOutcome::Extracted { functions: fb, structs: sb },
    ];
    let (functions, structs) = merge_results(outcomes);
    assert_eq!(structs.len(), 0);
    assert_eq!(functions.len(), 2);
    assert_eq!(functions[0].name, "a");
    assert_eq!(functions[1].name, "b");
}

#[test]
fn merge_of_failures_alone_is_empty() {
    let outcomes = vec![FileOutcome::Failed {
        file_path: "x.rs".to_string(),
        reason: "unreadable".to_string(),
    }];
    let (functions, structs) = merge_results(outcomes);
    assert_eq!(functions.len(), 0);
    assert_eq!(structs.len(), 0);
}

#[test]
fn build_output_directories_are_excluded() {
    assert!(is_excluded_dir(&"target".to_string()));
    assert!(!is_excluded_dir(&"src".to_string()));
    assert!(!is_excluded_dir(&"".to_string()));
}

#[test]
fn only_source_extensions_are_selected() {
    assert!(is_source_extension(&"rs".to_string()));
    assert!(!is_source_extension(&"toml".to_string()));
    assert!(!is_source_extension(&"".to_string()));
}
