//! Rendering of post text: Markdown in, HTML out.

use vstd::prelude::*;

verus! {

/// The Markdown features that rendering switches on.
#[derive(Debug, Clone, Copy, PartialEq, Eq, Structural)]
pub struct MarkdownOptions {
    pub strikethrough: bool,
    pub table: bool,
    pub autolink: bool,
    pub tasklist: bool,
    pub superscript: bool,
    /// Typographic quotes, dashes and ellipses.
    pub smart: bool,
    /// Raw HTML in the source is escaped, not passed through.
    pub escape: bool,
}

/// The HTML that `comrak::markdown_to_html` makes of `raw` under `options`,
/// every other option of comrak left at its default.
pub uninterp spec fn comrak_html(raw: Seq<char>, options: MarkdownOptions) -> Seq<char>;

/// Renders Markdown with comrak.
///
/// Calls `comrak::markdown_to_html` with `comrak::Options::default()` in
/// which the seven switches of `options` are set. Assumed, not proved: the
/// HTML is a function of the source text and the seven switches alone; it
/// is named `comrak_html`.
#[verifier::external_body]
fn markdown_to_html(raw: &str, options: &MarkdownOptions) -> (html: String)
    ensures
        html@ == comrak_html(raw@, *options),
{
    let mut settings = comrak::Options::default();
    settings.extension.strikethrough = options.strikethrough;
    settings.extension.table = options.table;
    settings.extension.autolink = options.autolink;
    settings.extension.tasklist = options.tasklist;
    settings.extension.superscript = options.superscript;
    settings.parse.smart = options.smart;
    settings.render.escape = options.escape;
    comrak::markdown_to_html(raw, &settings)
}

/// The features posts are rendered with: the GitHub-flavoured extensions
/// and smart punctuation, with raw HTML escaped.
pub open spec fn post_options() -> MarkdownOptions {
    MarkdownOptions {
        strikethrough: true,
        table: true,
        autolink: true,
        tasklist: true,
        superscript: true,
        smart: true,
        escape: true,
    }
}

/// The cooked HTML of a post's raw text.
pub open spec fn rendered(raw: Seq<char>) -> Seq<char> {
    comrak_html(raw, post_options())
}

/// Renders the raw Markdown of a post to cooked HTML.
pub fn render(raw: &str) -> (cooked: String)
    ensures
        cooked@ == rendered(raw@),
{
    let options = MarkdownOptions {
        strikethrough: true,
        table: true,
        autolink: true,
        tasklist: true,
        superscript: true,
        smart: true,
        escape: true,
    };
    markdown_to_html(raw, &options)
}

} // verus!
