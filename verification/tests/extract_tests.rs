//! The response extractor: the first fenced bash block, trimmed; absence
//! of a block is no match, not an error.

use bott::extract::extract_bash_block;

#[test]
fn extracts_trimmed_interior() {
    let text = "Sure, run this:\n```bash\necho hi\n```\nThat prints hi.";
    assert_eq!(extract_bash_block(text).as_deref(), Some("echo hi"));
}

#[test]
fn block_only_text_extracts() {
    assert_eq!(extract_bash_block("```bash\necho hi\n```").as_deref(), Some("echo hi"));
}

#[test]
fn no_fence_is_no_match() {
    assert!(extract_bash_block("no code here, sorry").is_none());
    assert!(extract_bash_block("").is_none());
}

#[test]
fn unclosed_fence_is_no_match() {
    assert!(extract_bash_block("```bash\necho hi").is_none());
}

#[test]
fn first_block_wins() {
    let text = "```bash\nfirst\n``` and then ```bash\nsecond\n```";
    assert_eq!(extract_bash_block(text).as_deref(), Some("first"));
}

#[test]
fn interior_whitespace_is_kept_ends_trimmed() {
    let text = "```bash\n  for f in *; do\n    echo \"$f\"\n  done\n```";
    assert_eq!(
        extract_bash_block(text).as_deref(),
        Some("for f in *; do\n    echo \"$f\"\n  done"),
    );
}

#[test]
fn empty_block_is_empty_match() {
    assert_eq!(extract_bash_block("```bash\n```").as_deref(), Some(""));
}
