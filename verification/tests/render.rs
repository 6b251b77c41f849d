use scriptvm::context::failure;
use scriptvm::diag::{carets, dec_u32, spaces, Diagnostic};
use scriptvm::error::VmError;

#[test]
fn diagnostic_renders_the_full_layout() {
    let d = Diagnostic {
        text: "SyntaxError: Unexpected token ';'".to_owned(),
        resource: "<script>".to_owned(),
        source: "let x = ;".to_owned(),
        line: 3,
        start_column: 8,
        end_column: 9,
    };
    let expected = "SyntaxError: Unexpected token ';'\n\
                    \x20   --> <script>:3:8\n\
                    \x20    |   \n\
                    \x20  3 | let x = ;\n\
                    \x20    |         ^\n";
    assert_eq!(d.render(), expected);
}

#[test]
fn diagnostic_keeps_wide_line_numbers() {
    let d = Diagnostic {
        text: "m".to_owned(),
        resource: "r".to_owned(),
        source: "s".to_owned(),
        line: 123456,
        start_column: 0,
        end_column: 2,
    };
    let rendered = d.render();
    assert!(rendered.contains("r:123456:0"));
    assert!(rendered.contains("123456 | s"));
    assert!(rendered.contains("| ^^"));
}

#[test]
fn diagnostic_inverted_columns_draw_no_caret() {
    let d = Diagnostic {
        text: "m".to_owned(),
        resource: "r".to_owned(),
        source: "s".to_owned(),
        line: 1,
        start_column: 5,
        end_column: 3,
    };
    let rendered = d.render();
    assert!(!rendered.contains('^'));
}

#[test]
fn startup_diagnostic_names_resource_and_line() {
    let d = Diagnostic {
        text: "SyntaxError: Unexpected identifier".to_owned(),
        resource: "<script>".to_owned(),
        source: "exprot default function(){}".to_owned(),
        line: 1,
        start_column: 0,
        end_column: 6,
    };
    let e = failure(Some(d), None);
    match e {
        VmError::Startup(m) => {
            assert!(m.contains("<script>"));
            assert!(m.contains(":1:"));
        },
        _ => panic!("expected a startup failure"),
    }
}

#[test]
fn decimal_rendering_is_exact() {
    assert_eq!(dec_u32(0), "0");
    assert_eq!(dec_u32(7), "7");
    assert_eq!(dec_u32(10), "10");
    assert_eq!(dec_u32(42), "42");
    assert_eq!(dec_u32(4294967295), "4294967295");
}

#[test]
fn runs_of_fill_characters() {
    assert_eq!(spaces(0), "");
    assert_eq!(spaces(3), "   ");
    assert_eq!(carets(0), "");
    assert_eq!(carets(4), "^^^^");
}

#[test]
fn error_renderings_are_fixed() {
    assert_eq!(VmError::MachineTerminated.render(), "machine terminated");
    assert_eq!(VmError::ChannelClosed.render(), "channel closed");
    assert_eq!(VmError::ExportGone.render(), "export gone");
    assert_eq!(VmError::NotAFunction("f".to_owned()).render(), "f is not a function");
    assert_eq!(VmError::Script("Error: boom".to_owned()).render(), "Error: boom");
    assert_eq!(VmError::Startup("bad".to_owned()).render(), "bad");
}
