use base64::Engine;
use deno_loader::source_map::extract_inline_source_map;
use deno_loader::source_map::find_last;
use deno_loader::source_map::find_source_map_text;
use deno_loader::source_map::SOURCE_MAP_PREFIX;

fn with_map(code: &str, rest: &str) -> Vec<u8> {
    format!("{}{}{}", code, SOURCE_MAP_PREFIX, rest).into_bytes()
}

#[test]
fn inline_map_is_decoded() {
    let source = b"let a = 1;\n//# sourceMappingURL=data:application/json;base64,e30=\n";
    assert_eq!(extract_inline_source_map(source), Some(b"{}".to_vec()));
}

#[test]
fn last_map_wins() {
    let first = String::from_utf8(with_map("a();\n", "AAAA\n")).unwrap();
    let source = with_map(&first, "e30=");
    assert_eq!(extract_inline_source_map(&source), Some(b"{}".to_vec()));
}

#[test]
fn trailing_white_space_is_ignored() {
    let source = with_map("", "e30=\r\n \t\u{2003}\u{3000}\n");
    assert_eq!(find_source_map_text(&source), Some("e30=".to_string()));
    assert_eq!(extract_inline_source_map(&source), Some(b"{}".to_vec()));
}

#[test]
fn only_a_whole_prefix_starts_a_map() {
    let source = with_map("a();\n", "e30=//# sourceMappingURL=data:application/json");
    assert_eq!(
        find_source_map_text(&source),
        Some("e30=//# sourceMappingURL=data:application/json".to_string())
    );
    let source = with_map("", "//");
    assert_eq!(find_source_map_text(&source), Some("//".to_string()));
}

#[test]
fn white_space_after_malformed_text_changes_nothing() {
    let mut source = vec![0xe2u8, 0x80];
    assert_eq!(extract_inline_source_map(&source), None);
    source.extend("\u{2003}".as_bytes());
    assert_eq!(extract_inline_source_map(&source), None);
}

#[test]
fn white_space_inside_is_no_base64() {
    let source = with_map("", "e3\n0=");
    assert_eq!(find_source_map_text(&source), Some("e3\n0=".to_string()));
    assert_eq!(extract_inline_source_map(&source), None);
}

#[test]
fn missing_padding_is_no_base64() {
    assert_eq!(extract_inline_source_map(&with_map("", "e30")), None);
}

#[test]
fn empty_map_is_empty() {
    assert_eq!(extract_inline_source_map(&with_map("x", "")), Some(Vec::new()));
}

#[test]
fn source_without_prefix_has_no_map() {
    assert_eq!(extract_inline_source_map(b""), None);
    assert_eq!(extract_inline_source_map(b"let a = 1;"), None);
    assert_eq!(extract_inline_source_map(b"//# sourceMappingURL=a.js.map"), None);
}

#[test]
fn source_that_is_not_utf8_has_no_map() {
    let mut source = vec![0xffu8];
    source.extend(with_map("", "e30="));
    assert_eq!(extract_inline_source_map(&source), None);
}

#[test]
fn text_outside_ascii_is_passed_over() {
    let source = with_map("let s = \"\u{e9}\u{1f600}\";\n", "e30=");
    assert_eq!(extract_inline_source_map(&source), Some(b"{}".to_vec()));
    let source = with_map("", "\u{e9}");
    assert_eq!(find_source_map_text(&source), Some("\u{e9}".to_string()));
    assert_eq!(extract_inline_source_map(&source), None);
}

#[test]
fn last_occurrence_is_found() {
    assert_eq!(find_last(b"abcabc", b"abc"), Some(3));
    assert_eq!(find_last(b"aaaa", b"aa"), Some(2));
    assert_eq!(find_last(b"abc", b""), Some(3));
    assert_eq!(find_last(b"ab", b"abc"), None);
    assert_eq!(find_last(b"abd", b"abc"), None);
}

#[test]
fn standard_base64_is_decoded() {
    let cases: [(&str, &[u8]); 7] = [
        ("", b""),
        ("Zg==", b"f"),
        ("Zm8=", b"fo"),
        ("Zm9v", b"foo"),
        ("Zm9vYg==", b"foob"),
        ("+/+/", &[0xfb, 0xff, 0xbf]),
        ("AAAA", &[0, 0, 0]),
    ];
    for (text, bytes) in cases {
        assert_eq!(extract_inline_source_map(&with_map("", text)), Some(bytes.to_vec()));
    }
}

#[test]
fn other_base64_is_not_decoded() {
    for text in ["Zh==", "Zm9=", "Zg=", "Zg", "Z", "=", "====", "Zg==Zg==", "-_-_", "Zm9v\u{e9}"] {
        assert_eq!(extract_inline_source_map(&with_map("", text)), None);
    }
}

#[test]
fn encoded_maps_are_given_back() {
    for len in 0..40usize {
        let map: Vec<u8> = (0..len).map(|i| (i * 37 + len) as u8).collect();
        let text = base64::engine::general_purpose::STANDARD.encode(&map);
        let source = with_map("a();\n", &format!("{}\n", text));
        assert_eq!(extract_inline_source_map(&source), Some(map));
    }
}
