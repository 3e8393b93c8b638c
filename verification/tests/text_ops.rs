use marquee_manager::template::{substitute, Binding};
use marquee_manager::text::{
    chars_of, is_space_char, join_chars, push_decimal, push_signed_decimal, replace_chars,
    same_text, split_chars, string_of, trim_chars,
};

fn replace(s: &str, pat: &str, val: &str) -> String {
    string_of(&replace_chars(&chars_of(s), &chars_of(pat), &chars_of(val)))
}

fn split(s: &str, sep: char) -> Vec<String> {
    split_chars(&chars_of(s), sep).iter().map(string_of).collect()
}

fn trim(s: &str) -> String {
    string_of(&trim_chars(&chars_of(s)))
}

fn join(base: &str, rel: &str) -> String {
    string_of(&join_chars(&chars_of(base), &chars_of(rel)))
}

#[test]
fn chars_round_trip() {
    let chars = chars_of("héllo {x}");
    assert_eq!(chars.len(), 9);
    assert_eq!(chars[1], 'é');
    assert_eq!(string_of(&chars), "héllo {x}");
    assert_eq!(string_of(&chars_of("")), "");
}

#[test]
fn replace_every_occurrence() {
    assert_eq!(replace("a-b-c", "-", "+"), "a+b+c");
    assert_eq!(replace("{x}{x}", "{x}", "yy"), "yyyy");
    assert_eq!(replace("abc", "abcd", "z"), "abc");
    assert_eq!(replace("", "a", "z"), "");
}

#[test]
fn replace_is_leftmost_and_does_not_rescan() {
    assert_eq!(replace("aaa", "aa", "b"), "ba");
    assert_eq!(replace("aa", "a", "aa"), "aaaa");
}

#[test]
fn replace_with_empty_pattern_changes_nothing() {
    assert_eq!(replace("abc", "", "z"), "abc");
}

#[test]
fn split_keeps_empty_fields() {
    assert_eq!(split("png,jpg", ','), vec!["png", "jpg"]);
    assert_eq!(split("", ','), vec![""]);
    assert_eq!(split("a,", ','), vec!["a", ""]);
    assert_eq!(split(",a,,b", ','), vec!["", "a", "", "b"]);
}

#[test]
fn trim_removes_white_space_at_both_ends() {
    assert_eq!(trim("  png \t"), "png");
    assert_eq!(trim("p n g"), "p n g");
    assert_eq!(trim(" \n "), "");
    assert_eq!(trim("\u{3000}x\u{a0}"), "x");
    assert!(is_space_char(' '));
    assert!(is_space_char('\r'));
    assert!(!is_space_char('x'));
    assert!(!is_space_char('\u{200b}'));
}

#[test]
fn decimal_numerals() {
    let mut out = Vec::new();
    push_decimal(&mut out, 0);
    out.push(' ');
    push_decimal(&mut out, 1920);
    out.push(' ');
    push_decimal(&mut out, u64::MAX);
    assert_eq!(string_of(&out), "0 1920 18446744073709551615");
    let mut signed = Vec::new();
    push_signed_decimal(&mut signed, -1);
    signed.push(' ');
    push_signed_decimal(&mut signed, i32::MIN);
    signed.push(' ');
    push_signed_decimal(&mut signed, i32::MAX);
    assert_eq!(string_of(&signed), "-1 -2147483648 2147483647");
}

#[test]
fn join_puts_one_separator() {
    assert_eq!(join("/a", "b"), "/a/b");
    assert_eq!(join("/a/", "b"), "/a/b");
    assert_eq!(join("", "b"), "b");
    assert_eq!(join("/a", "/b"), "/b");
    assert_eq!(join("/a", ""), "/a/");
    assert_eq!(join("a", "b/c.png"), "a/b/c.png");
}

#[test]
fn same_text_compares_contents() {
    assert!(same_text("game-selected", "game-selected"));
    assert!(!same_text("game-selected", "game-selecteD"));
    assert!(!same_text("a", "ab"));
    assert!(same_text("", ""));
}

#[test]
fn substitute_leaves_unknown_placeholders() {
    let bindings = vec![Binding::new("a", "1")];
    assert_eq!(substitute("{unknown}-x", &bindings), "{unknown}-x");
}

#[test]
fn substitute_is_idempotent_without_placeholders() {
    let bindings = vec![Binding::new("system_name", "nes"), Binding::new("game_name", "zelda")];
    let once = substitute("plain/{other}/text", &bindings);
    let twice = substitute(&once, &bindings);
    assert_eq!(once, "plain/{other}/text");
    assert_eq!(twice, once);
}

#[test]
fn substitute_replaces_each_placeholder_everywhere() {
    let bindings = vec![Binding::new("system_name", "nes"), Binding::new("game_name", "zelda")];
    assert_eq!(
        substitute("{system_name}/{game_name}-{system_name}", &bindings),
        "nes/zelda-nes"
    );
    assert_eq!(substitute("{system_name", &bindings), "{system_name");
    assert_eq!(substitute("x", &Vec::new()), "x");
}

#[test]
fn substitute_applies_bindings_in_order() {
    let bindings = vec![Binding::new("a", "{b}"), Binding::new("b", "2")];
    assert_eq!(substitute("{a}{b}", &bindings), "22");
    let reversed = vec![Binding::new("b", "2"), Binding::new("a", "{b}")];
    assert_eq!(substitute("{a}{b}", &reversed), "{b}2");
}
