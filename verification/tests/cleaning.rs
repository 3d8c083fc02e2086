use novelize::text::{clean_code_block_wrappers, decimal_u8, join_context, strip_closing_fences_and_trim};

const CONTENT: &str = r#"iajsfiajisfjajfiajsifjija
        asfiajsifjasfjiajsfjasifjaisf
        asfiajisfajifsjiaifjiajsfijs
        asdjasidjijd"#;

fn wrapped_samples() -> Vec<String> {
    let prefixes = vec!["```renpy", "```json", "```"];
    let end = "```";
    let mut samples: Vec<String> = vec![];
    for prefix in prefixes {
        samples.push(format!("{}\n{}\n{}", prefix, CONTENT, end));
    }
    samples.push(CONTENT.to_string());
    samples
}

#[test]
fn pipeline_clean_code_block_wrappers_test() {
    for sample in wrapped_samples() {
        let cleaned = clean_code_block_wrappers(&sample);
        assert_eq!(cleaned, CONTENT)
    }
}

#[test]
fn etc_clean_code_block_wrappers_test() {
    for sample in wrapped_samples() {
        let cleaned = clean_code_block_wrappers(&sample);
        assert_eq!(cleaned, CONTENT)
    }
}

#[test]
fn fenced_reply_with_crlf_is_unwrapped() {
    assert_eq!(clean_code_block_wrappers("```json\r\n{\"a\": 1}\r\n```"), "{\"a\": 1}");
}

#[test]
fn only_first_fence_line_is_removed() {
    let text = "```\nlabel a:\n```python\nx = 1\n```";
    assert_eq!(clean_code_block_wrappers(text), "label a:\n```python\nx = 1");
}

#[test]
fn fence_inside_a_line_is_kept() {
    let text = "say ```hi``` now";
    assert_eq!(clean_code_block_wrappers(text), "say ```hi``` now");
}

#[test]
fn fence_after_text_lines_is_removed() {
    let text = "Here it is:\n```renpy\nlabel a:\n    return\n```\n";
    // The closing fence is only removed when nothing follows it: the trailing
    // line break keeps it here.
    assert_eq!(clean_code_block_wrappers(text), "Here it is:\nlabel a:\n    return\n```");
    let text = "Here it is:\n```renpy\nlabel a:\n    return\n```";
    assert_eq!(clean_code_block_wrappers(text), "Here it is:\nlabel a:\n    return");
}

#[test]
fn repeated_closing_fences_and_whitespace_are_removed() {
    assert_eq!(clean_code_block_wrappers("  body\n``````"), "body");
    assert_eq!(strip_closing_fences_and_trim("\t x ``````"), "x");
    assert_eq!(strip_closing_fences_and_trim("````"), "`");
    assert_eq!(strip_closing_fences_and_trim("\u{3000}a\u{a0}"), "a");
}

#[test]
fn fence_line_without_break_at_end() {
    assert_eq!(clean_code_block_wrappers("text\n```renpy"), "text");
}

#[test]
fn cleaned_reply_has_no_surrounding_whitespace() {
    let out = clean_code_block_wrappers("\n\n```\n  padded  \n```\n\n");
    assert_eq!(out, "padded  \n```");
    assert_eq!(out.trim(), out);
    let out = clean_code_block_wrappers("\n\n```\n  padded  \n```");
    assert_eq!(out, "padded");
    assert_eq!(out.trim(), out);
}

#[test]
fn empty_and_blank_replies() {
    assert_eq!(clean_code_block_wrappers(""), "");
    assert_eq!(clean_code_block_wrappers(" \n "), "");
    assert_eq!(clean_code_block_wrappers("```\n\n```"), "");
}

#[test]
fn decimal_text_of_counts() {
    assert_eq!(decimal_u8(0), "0");
    assert_eq!(decimal_u8(7), "7");
    assert_eq!(decimal_u8(42), "42");
    assert_eq!(decimal_u8(100), "100");
    assert_eq!(decimal_u8(255), "255");
}

#[test]
fn join_context_puts_each_item_on_a_new_line() {
    assert_eq!(join_context(&[]), "");
    let items = vec!["a".to_string(), "b c".to_string()];
    assert_eq!(join_context(&items), "\na\nb c");
}
