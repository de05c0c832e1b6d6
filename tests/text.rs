use kmon::keys::KEY_BINDINGS;
use kmon::text::{is_white_space, trim_end};

#[test]
fn trims_only_the_end() {
    assert_eq!(trim_end("  a b \n\t "), "  a b");
    assert_eq!(trim_end(""), "");
    assert_eq!(trim_end("\n\n"), "");
    assert_eq!(trim_end("x"), "x");
}

#[test]
fn trims_unicode_white_space() {
    assert_eq!(trim_end("x\u{3000}\u{a0}\u{2009}"), "x");
    assert_eq!(trim_end("é \u{85}"), "é");
    assert_eq!(trim_end("x\u{200b}"), "x\u{200b}");
}

#[test]
fn white_space_matches_std() {
    for u in 0u32..0x3100 {
        if let Some(c) = char::from_u32(u) {
            assert_eq!(is_white_space(c), c.is_whitespace(), "{:x}", u);
        }
    }
}

#[test]
fn key_binding_table() {
    assert_eq!(KEY_BINDINGS.len(), 15);
    assert_eq!(KEY_BINDINGS[0], ("'?', f1", "help"));
    assert_eq!(KEY_BINDINGS[6], ("\\, tab, backtab", "show the next kernel information"));
    assert_eq!(KEY_BINDINGS[14], ("q, ctrl-c/d, esc", "quit"));
}
