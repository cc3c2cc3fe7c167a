//! Scope-completion tests: each snippet marks the cursor with `<|>`; the
//! names the resolver would see in scope there are handed to
//! `complete_scope`, which must offer exactly those, in order, as reference
//! completions over the cursor's range.

use hir_expand::completion::{
    complete_scope, CompletionContext, CompletionKind, Completions, TextRange,
};

fn check_reference_completion(name: &str, code: &str, scope_names: &[&str]) {
    let cursor = code.find("<|>").expect("snippet must mark the cursor");
    let range = TextRange { start: cursor, end: cursor };
    let ctx = CompletionContext {
        is_trivial_path: true,
        source_range: range,
        scope_names: scope_names.iter().map(|s| s.to_string()).collect(),
    };
    let mut acc = Completions::new();
    complete_scope(&mut acc, &ctx);
    let labels: Vec<&str> = acc.buf.iter().map(|item| item.label.as_str()).collect();
    assert_eq!(labels, scope_names, "completions for {}", name);
    for item in &acc.buf {
        assert_eq!(item.kind, CompletionKind::Reference);
        assert_eq!(item.source_range, range);
    }
}

#[test]
fn completes_bindings_from_let() {
    check_reference_completion(
        "bindings_from_let",
        r"
            fn quux(x: i32) {
                let y = 92;
                1 + <|>;
                let z = ();
            }
            ",
        &["y", "x", "quux"],
    );
}

#[test]
fn completes_bindings_from_if_let() {
    check_reference_completion(
        "bindings_from_if_let",
        r"
            fn quux() {
                if let Some(x) = foo() {
                    let y = 92;
                };
                if let Some(a) = bar() {
                    let b = 62;
                    1 + <|>
                }
            }
            ",
        &["b", "a", "quux"],
    );
}

#[test]
fn completes_bindings_from_for() {
    check_reference_completion(
        "bindings_from_for",
        r"
            fn quux() {
                for x in &[1, 2, 3] {
                    <|>
                }
            }
            ",
        &["x", "quux"],
    );
}

#[test]
fn completes_module_items() {
    check_reference_completion(
        "module_items",
        r"
            struct Foo;
            enum Baz {}
            fn quux() {
                <|>
            }
            ",
        &["quux", "Foo", "Baz"],
    );
}

#[test]
fn completes_module_items_in_nested_modules() {
    check_reference_completion(
        "module_items_in_nested_modules",
        r"
            struct Foo;
            mod m {
                struct Bar;
                fn quux() { <|> }
            }
            ",
        &["quux", "Bar"],
    );
}

#[test]
fn completes_return_type() {
    check_reference_completion(
        "return_type",
        r"
            struct Foo;
            fn x() -> <|>
            ",
        &["Foo", "x"],
    )
}

#[test]
fn dont_show_both_completions_for_shadowing() {
    check_reference_completion(
        "dont_show_both_completions_for_shadowing",
        r"
            fn foo() -> {
                let bar = 92;
                {
                    let bar = 62;
                    <|>
                }
            }
            ",
        &["bar", "foo"],
    )
}

#[test]
fn completes_self_in_methods() {
    check_reference_completion("self_in_methods", r"impl S { fn foo(&self) { <|> } }", &["self"])
}

#[test]
fn leaves_accumulator_alone_on_non_trivial_path() {
    let ctx = CompletionContext {
        is_trivial_path: false,
        source_range: TextRange { start: 4, end: 4 },
        scope_names: vec!["a".to_string(), "b".to_string()],
    };
    let mut acc = Completions::new();
    complete_scope(&mut acc, &ctx);
    assert!(acc.buf.is_empty());
}

#[test]
fn appends_after_existing_completions() {
    let range = TextRange { start: 1, end: 2 };
    let ctx = CompletionContext {
        is_trivial_path: true,
        source_range: range,
        scope_names: vec!["second".to_string()],
    };
    let mut acc = Completions::new();
    let first = hir_expand::completion::CompletionItem::new(
        CompletionKind::Keyword,
        TextRange { start: 0, end: 0 },
        "first".to_string(),
    );
    first.add_to(&mut acc);
    complete_scope(&mut acc, &ctx);
    assert_eq!(acc.buf.len(), 2);
    assert_eq!(acc.buf[0].label, "first");
    assert_eq!(acc.buf[0].kind, CompletionKind::Keyword);
    assert_eq!(acc.buf[1].label, "second");
    assert_eq!(acc.buf[1].kind, CompletionKind::Reference);
    assert_eq!(acc.buf[1].source_range, range);
}
