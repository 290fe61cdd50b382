use vstd::prelude::*;

verus! {

/// The HTML that `markdown::to_html` renders for a Markdown source text
/// (CommonMark with the crate's default options).
pub uninterp spec fn markdown_html(source: Seq<char>) -> Seq<char>;

/// Renders Markdown as HTML with `markdown::to_html`.
///
/// Trusted: the result is `markdown_html` of the source text. The renderer is a
/// pure function of its input; with the default options (no MDX) it never fails,
/// so its internal `unwrap` does not panic.
#[verifier::external_body]
pub(crate) fn to_html(source: &str) -> (html: String)
    ensures
        html@ == markdown_html(source@),
{
    markdown::to_html(source)
}

} // verus!
