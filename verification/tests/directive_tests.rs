//! Directive protocol encoding.

use wt_layout::directive::{Directive, DirectiveOutput};

#[test]
fn test_encode_change_directory_and_message() {
    let mut output = DirectiveOutput::new();
    output.add(Directive::ChangeDirectory("/repo/feature".to_string()));
    output.add(Directive::Message("Switched".to_string()));

    assert_eq!(
        output.encode(),
        "__WORKTRUNK_CD__/repo/feature\u{0}Switched\u{0}\n"
    );
}

#[test]
fn test_encode_execute_directive() {
    let mut output = DirectiveOutput::new();
    output.add(Directive::Execute("cargo build\ncargo test".to_string()));

    // NUL termination lets a multi-line command survive as one directive
    assert_eq!(output.encode(), "__WORKTRUNK_EXEC__cargo build\ncargo test\u{0}\n");
}

#[test]
fn test_encode_empty_output() {
    let output = DirectiveOutput::new();
    assert_eq!(output.encode(), "\n");
}

#[test]
fn test_directives_keep_their_order() {
    let mut output = DirectiveOutput::new();
    output.add(Directive::Message("first".to_string()));
    output.add(Directive::ChangeDirectory("/second".to_string()));
    output.add(Directive::Execute("third".to_string()));

    assert_eq!(
        output.encode(),
        "first\u{0}__WORKTRUNK_CD__/second\u{0}__WORKTRUNK_EXEC__third\u{0}\n"
    );
}
