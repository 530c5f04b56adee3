use rustfmt_shim::rewrite::rewrite_source;

#[test]
fn bumpalo_import_becomes_std() {
    let out = rewrite_source("use bumpalo::core_alloc::Bump;\n");
    assert!(out.contains("use std::Bump;"));
    assert_eq!(out, "use std::Bump;\n");
}

#[test]
fn every_rule_rewrites_its_prefix() {
    let input = "use bumpalo::core_alloc::a;\n\
                 use failure::_core::b;\n\
                 use futures_core::core_reexport::c;\n\
                 use smallvec::alloc::d;\n\
                 use tracing::stdlib::e;\n\
                 use winapi::_core::f;\n";
    let expected = "use std::a;\nuse std::b;\nuse std::c;\nuse std::d;\nuse std::e;\nuse std::f;\n";
    assert_eq!(rewrite_source(input), expected);
}

#[test]
fn only_line_starts_are_rewritten() {
    let input = "  use bumpalo::core_alloc::Bump;\nfn f() {} use smallvec::alloc::vec;\n";
    assert_eq!(rewrite_source(input), input);
}

#[test]
fn every_occurrence_is_rewritten() {
    let input = "use tracing::stdlib::fmt;\nfn main() {}\nuse tracing::stdlib::mem;";
    assert_eq!(rewrite_source(input), "use std::fmt;\nfn main() {}\nuse std::mem;");
}

#[test]
fn clean_text_is_unchanged() {
    let input = "use std::fmt;\n\nfn main() {\n    println!(\"héllo\");\n}\n";
    assert_eq!(rewrite_source(input), input);
}

#[test]
fn empty_text_stays_empty() {
    assert_eq!(rewrite_source(""), "");
}

#[test]
fn rewriting_twice_equals_once() {
    let input = "use winapi::_core::ptr;\nuse failure::_core::any;\nuse std::x;\n";
    let once = rewrite_source(input);
    assert_eq!(rewrite_source(&once), once);
    assert_eq!(once, "use std::ptr;\nuse std::any;\nuse std::x;\n");
}

#[test]
fn carriage_return_lines_are_rewritten() {
    let input = "use smallvec::alloc::vec;\r\nuse smallvec::alloc::boxed;\r\n";
    assert_eq!(rewrite_source(input), "use std::vec;\r\nuse std::boxed;\r\n");
}
