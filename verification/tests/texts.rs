use focusflow::command::prefixed;
use focusflow::text::{ends_with, str_equals};

#[test]
fn str_equals_compares_characters() {
    assert!(str_equals("", ""));
    assert!(str_equals("active.json", "active.json"));
    assert!(!str_equals("active.json", "active.jsom"));
    assert!(!str_equals("active.json", "active.jso"));
    assert!(!str_equals("a", ""));
    assert!(str_equals("héllo wörld ✓", "héllo wörld ✓"));
    assert!(!str_equals("héllo", "hello"));
}

#[test]
fn ends_with_looks_at_the_tail() {
    assert!(ends_with("active.json.tmp", ".tmp"));
    assert!(ends_with(".tmp", ".tmp"));
    assert!(ends_with("anything", ""));
    assert!(ends_with("", ""));
    assert!(!ends_with("tmp", ".tmp"));
    assert!(!ends_with("active.json", ".tmp"));
    assert!(!ends_with("active.tmp.json", ".tmp"));
    assert!(!ends_with("", ".tmp"));
    assert!(ends_with("日本語.tmp", ".tmp"));
    assert!(!ends_with("x.tmp日", ".tmp"));
}

#[test]
fn ends_with_agrees_with_std() {
    let samples = ["", "a", ".tmp", "a.tmp", "a.tmpx", "ä.tmp", "tmp.", "..tmp", "a.TMP"];
    for s in samples {
        for suffix in ["", ".tmp", "p", "ä.tmp"] {
            assert_eq!(ends_with(s, suffix), s.ends_with(suffix), "{:?} {:?}", s, suffix);
        }
    }
}

#[test]
fn prefixed_puts_the_prefix_first() {
    assert_eq!(prefixed("Failed to read file: ", "denied"), "Failed to read file: denied");
    assert_eq!(prefixed("", "x"), "x");
    assert_eq!(prefixed("x", ""), "x");
}
