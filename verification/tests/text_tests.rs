use chat_backend_rs::text::{clean_content, truncate};

#[test]
fn clean_content_trims_plain_text() {
    assert_eq!(clean_content("  hello world \n"), "hello world");
}

#[test]
fn clean_content_strips_json_fence() {
    let s = "\n```json\n{\"a\": 1}\n```\n";
    assert_eq!(clean_content(s), "{\"a\": 1}");
}

#[test]
fn clean_content_strips_plain_fence() {
    assert_eq!(clean_content("```\nlet x = 1;\n```"), "let x = 1;");
}

#[test]
fn clean_content_strips_repeated_markers() {
    assert_eq!(clean_content("```json```json x``````"), "x");
}

#[test]
fn clean_content_keeps_inner_fence_text() {
    assert_eq!(clean_content("text ```json"), "text ```json");
}

#[test]
fn clean_content_trims_unicode_white_space() {
    assert_eq!(clean_content("\u{3000}\u{a0}abc\u{2029}\t"), "abc");
}

#[test]
fn clean_content_of_empty_and_blank() {
    assert_eq!(clean_content(""), "");
    assert_eq!(clean_content(" \t\n "), "");
    assert_eq!(clean_content("```"), "");
}

#[test]
fn clean_content_matches_std_trim_on_samples() {
    for s in ["  a b  ", "\u{85}x\u{2000}", "```json\n y \n```", "```\n\n```", "plain"] {
        let c = clean_content(s);
        assert_eq!(c.trim(), c.as_str());
    }
}

#[test]
fn truncate_keeps_short_text() {
    assert_eq!(truncate("  short  ", 10), "short");
    assert_eq!(truncate("exact", 5), "exact");
}

#[test]
fn truncate_cuts_long_text() {
    assert_eq!(truncate("hello world", 5), "hello...");
    assert_eq!(truncate("```json\nabcdef\n```", 3), "abc...");
    assert_eq!(truncate("abc", 0), "...");
}

#[test]
fn truncate_counts_bytes() {
    // 'é' takes two bytes: byte 3 ends it.
    assert_eq!(truncate("héllo", 3), "hé...");
    assert_eq!(truncate("héllo", 1), "h...");
}

#[test]
fn truncate_stays_within_budget() {
    let s = "  naïve café — ünïcödé text with ascii  ";
    let cleaned = clean_content(s);
    for max in 0..cleaned.len() + 2 {
        if max >= cleaned.len() || cleaned.is_char_boundary(max) {
            let t = truncate(s, max);
            assert!(t.len() <= max + 3);
        }
    }
}

#[test]
fn fenced_block_cleans_to_trimmed_inside() {
    assert_eq!(clean_content("  ```json\n{\"a\": 1}\n```\n"), "{\"a\": 1}");
    assert_eq!(clean_content("\n```\n  let x = 1;  \n```  "), "let x = 1;");
    assert_eq!(clean_content("```\nkeep ``` inside\n```"), "keep ``` inside");
}
