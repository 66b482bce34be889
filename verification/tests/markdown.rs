use discourse_rs::markdown::render;
use discourse_rs::models::{CreatePostInput, UpdatePostInput};

#[test]
fn test_basic_markdown() {
    let raw = "Hello **world**!";
    let cooked = render(raw);
    assert!(cooked.contains("<strong>world</strong>"));
}

#[test]
fn test_code_block() {
    let raw = "```rust\nfn main() {}\n```";
    let cooked = render(raw);
    assert!(cooked.contains("<code"));
}

#[test]
fn test_strikethrough() {
    let raw = "~~deleted~~";
    let cooked = render(raw);
    assert!(cooked.contains("<del>deleted</del>"));
}

#[test]
fn test_autolink() {
    let raw = "Check out https://example.com";
    let cooked = render(raw);
    assert!(cooked.contains("<a href=\"https://example.com\""));
}

#[test]
fn test_table() {
    let raw = "| A | B |\n|---|---|\n| 1 | 2 |";
    let cooked = render(raw);
    assert!(cooked.contains("<table>"));
}

#[test]
fn test_xss_prevention() {
    let raw = "<script>alert('xss')</script>";
    let cooked = render(raw);
    assert!(!cooked.contains("<script>"));
}

#[test]
fn render_plain_paragraph_exactly() {
    assert_eq!(render("Hello"), "<p>Hello</p>\n");
}

#[test]
fn render_escapes_raw_html() {
    assert_eq!(render("<i>x</i>"), "<p>&lt;i&gt;x&lt;/i&gt;</p>\n");
}

#[test]
fn render_uses_smart_punctuation() {
    assert_eq!(render("a -- b"), "<p>a \u{2013} b</p>\n");
}

#[test]
fn render_superscript_and_tasklist() {
    assert!(render("x^2^").contains("<sup>2</sup>"));
    assert!(render("- [x] done").contains("type=\"checkbox\""));
}

#[test]
fn new_post_carries_the_rendering_of_its_source() {
    let input = CreatePostInput {
        topic_id: 7,
        user_id: 3,
        post_number: 2,
        raw: "Hello **world**!".to_string(),
        reply_to_post_number: Some(1),
    };
    let post = input.into_new_post();
    assert_eq!(post.topic_id, 7);
    assert_eq!(post.user_id, 3);
    assert_eq!(post.post_number, 2);
    assert_eq!(post.raw, "Hello **world**!");
    assert_eq!(post.cooked, render("Hello **world**!"));
    assert_eq!(post.cooked, "<p>Hello <strong>world</strong>!</p>\n");
    assert_eq!(post.reply_to_post_number, Some(1));
}

#[test]
fn update_post_renders_only_a_given_source() {
    let update = UpdatePostInput { raw: Some("~~old~~".to_string()) }.into_update_post();
    assert_eq!(update.raw.as_deref(), Some("~~old~~"));
    assert_eq!(update.cooked.as_deref(), Some("<p><del>old</del></p>\n"));

    let untouched = UpdatePostInput { raw: None }.into_update_post();
    assert!(untouched.raw.is_none());
    assert!(untouched.cooked.is_none());
}
