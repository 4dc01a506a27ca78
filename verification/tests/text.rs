use rumba::text::{join, split_str, strip_prefix, trim};

#[test]
fn split_cuts_at_every_separator() {
    assert_eq!(split_str("a```b``````c", "```"), vec!["a", "b", "", "c"]);
    assert_eq!(split_str("no fence", "```"), vec!["no fence"]);
    assert_eq!(split_str("", ","), vec![""]);
    assert_eq!(split_str("a,", ","), vec!["a", ""]);
}

#[test]
fn split_takes_the_leftmost_occurrence() {
    assert_eq!(split_str("````", "```"), vec!["", "`"]);
}

#[test]
fn split_then_join_gives_the_text_back() {
    for s in ["a,b,,c", ",", "", "x"] {
        let parts = split_str(s, ",");
        assert_eq!(join(&parts, ","), s);
    }
}

#[test]
fn trim_removes_unicode_white_space_at_both_ends() {
    assert_eq!(trim("  a b \n"), "a b");
    assert_eq!(trim("\u{3000}x\u{a0}"), "x");
    assert_eq!(trim(" \t "), "");
    assert_eq!(trim("\u{200b}x"), "\u{200b}x");
}

#[test]
fn strip_prefix_only_strips_a_prefix() {
    assert_eq!(strip_prefix("css\nbody{}", "css"), Some("\nbody{}".to_string()));
    assert_eq!(strip_prefix("html", "css"), None);
    assert_eq!(strip_prefix("cs", "css"), None);
}
