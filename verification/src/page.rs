//! The HTML page that a rendered document is assembled into.

use crate::model::text_of;
use vstd::prelude::*;

verus! {

/// The page up to the place of the highlighter.
pub const PAGE_OPEN: &'static str = r#"<!DOCTYPE html>
<html lang="en">
<head>
<meta charset="utf-8">
<meta name="viewport" content="width=device-width, initial-scale=1">

"#;

/// What parts the highlighter from the math region.
pub const REGION_BREAK: &'static str = "\n";

/// From the end of the math region to the title's text.
pub const TITLE_OPEN: &'static str = "\n\n<title>";

/// From the title's text to the theme's CSS.
pub const STYLE_OPEN: &'static str = "</title>\n\n<style>\n";

/// From the theme's CSS to the compiled document.
pub const BODY_OPEN: &'static str = "\n</style>\n</head>\n\n<body>\n";

/// From the compiled document to the end of the page.
pub const PAGE_CLOSE: &'static str = "\n</body>\n</html>\n";

/// The highlighter up to its stylesheet.
pub const HIGHLIGHT_OPEN: &'static str = "\n    <style>";

/// From the highlighter's stylesheet to its script.
pub const HIGHLIGHT_SCRIPT: &'static str = "</style>\n    <script>";

/// From the highlighter's script on: the call that highlights every code
/// block once the page has loaded.
pub const HIGHLIGHT_CLOSE: &'static str =
    "</script>\n    <script>hljs.highlightAll();</script>\n        ";

/// The math region: the remote stylesheet and script, pinned by their
/// integrity hashes, and the script that renders every math span once the
/// page's content has loaded.
pub const MATH: &'static str = r#"
<link rel="stylesheet" href="https://cdn.jsdelivr.net/npm/katex@0.16.4/dist/katex.min.css"
    integrity="sha384-vKruj+a13U8yHIkAyGgK1J3ArTLzrFGBbBc0tDp4ad/EyewESeXE/Iv67Aj8gKZ0" crossorigin="anonymous">
<script defer src="https://cdn.jsdelivr.net/npm/katex@0.16.4/dist/katex.min.js"
    integrity="sha384-PwRUT/YqbnEjkZO0zZxNqcxACrXe+j766U2amXcgMg5457rve2Y7I6ZJSm2A0mS4"
    crossorigin="anonymous"></script>
<script>
document.addEventListener("DOMContentLoaded",()=>{{for(let e of document.querySelectorAll(".language-math"))katex.render(e.textContent,e)}});
</script>
"#;

/// The title of a document in which no title was found.
pub const DEFAULT_TITLE: &'static str = "Document";

/// The vendored assets of the syntax highlighter.
#[derive(Debug)]
pub struct Vendor {
    /// The highlighter's stylesheet.
    pub highlight_css: String,
    /// The highlighter's script.
    pub highlight_js: String,
}

/// The highlighter, inlined: its stylesheet, its script, and the call that
/// runs it.
pub open spec fn highlight_block(style: Seq<char>, script: Seq<char>) -> Seq<char> {
    HIGHLIGHT_OPEN@ + style + HIGHLIGHT_SCRIPT@ + script + HIGHLIGHT_CLOSE@
}

/// The highlighter region of a page: empty unless highlighting is on.
pub open spec fn highlight_region(on: bool, style: Seq<char>, script: Seq<char>) -> Seq<char> {
    if on {
        highlight_block(style, script)
    } else {
        Seq::empty()
    }
}

/// The math region of a page: empty unless math is on.
pub open spec fn math_region(on: bool) -> Seq<char> {
    if on {
        MATH@
    } else {
        Seq::empty()
    }
}

/// The title that a page shows.
pub open spec fn title_or_default(title: Option<Seq<char>>) -> Seq<char> {
    match title {
        Some(text) => text,
        None => DEFAULT_TITLE@,
    }
}

/// The head of a page up to the math region.
pub open spec fn before_math(highlight: Seq<char>) -> Seq<char> {
    PAGE_OPEN@ + highlight + REGION_BREAK@
}

/// The rest of a page after the math region.
pub open spec fn after_math(title: Seq<char>, style: Seq<char>, body: Seq<char>) -> Seq<char> {
    TITLE_OPEN@ + title + STYLE_OPEN@ + style + BODY_OPEN@ + body + PAGE_CLOSE@
}

/// The complete page: doctype, head with the two regions, the title and the
/// theme's CSS, and the body with the compiled document.
pub open spec fn page(
    highlight: Seq<char>,
    math: Seq<char>,
    title: Seq<char>,
    style: Seq<char>,
    body: Seq<char>,
) -> Seq<char> {
    PAGE_OPEN@ + highlight + REGION_BREAK@ + math + TITLE_OPEN@ + title + STYLE_OPEN@ + style
        + BODY_OPEN@ + body + PAGE_CLOSE@
}

/// A page without highlighter and without math.
pub open spec fn plain_page(title: Seq<char>, style: Seq<char>, body: Seq<char>) -> Seq<char> {
    PAGE_OPEN@ + REGION_BREAK@ + TITLE_OPEN@ + title + STYLE_OPEN@ + style + BODY_OPEN@ + body
        + PAGE_CLOSE@
}

/// The page that is composed from the settings, the vendored assets and the
/// three texts that were derived from the document and its theme.
pub open spec fn composed(
    highlight: bool,
    math: bool,
    vendor_css: Seq<char>,
    vendor_js: Seq<char>,
    title: Option<Seq<char>>,
    style: Seq<char>,
    body: Seq<char>,
) -> Seq<char> {
    page(
        highlight_region(highlight, vendor_css, vendor_js),
        math_region(math),
        title_or_default(title),
        style,
        body,
    )
}

/// Whether `part` stands in `text` at position `at`.
pub open spec fn stands_at(text: Seq<char>, part: Seq<char>, at: nat) -> bool {
    &&& at + part.len() <= text.len()
    &&& text.subrange(at as int, (at + part.len()) as int) == part
}

/// A text stands between what is written before and after it.
pub proof fn lemma_stands_between(before: Seq<char>, part: Seq<char>, after: Seq<char>)
    ensures
        stands_at(before + part + after, part, before.len()),
{
    let text = before + part + after;
    assert(text.subrange(before.len() as int, (before.len() + part.len()) as int) =~= part);
}

/// Every page holds its title, the theme's CSS and the compiled document,
/// each at the one place that the fixed text around it determines.
pub proof fn lemma_page_holds_parts(
    highlight: Seq<char>,
    math: Seq<char>,
    title: Seq<char>,
    style: Seq<char>,
    body: Seq<char>,
)
    ensures
        stands_at(
            page(highlight, math, title, style, body),
            title,
            before_math(highlight).len() + math.len() + TITLE_OPEN@.len(),
        ),
        stands_at(
            page(highlight, math, title, style, body),
            style,
            before_math(highlight).len() + math.len() + TITLE_OPEN@.len() + title.len()
                + STYLE_OPEN@.len(),
        ),
        stands_at(
            page(highlight, math, title, style, body),
            body,
            before_math(highlight).len() + math.len() + TITLE_OPEN@.len() + title.len()
                + STYLE_OPEN@.len() + style.len() + BODY_OPEN@.len(),
        ),
{
    let whole = page(highlight, math, title, style, body);
    let to_title = before_math(highlight) + math + TITLE_OPEN@;
    let to_style = to_title + title + STYLE_OPEN@;
    let to_body = to_style + style + BODY_OPEN@;
    assert(whole =~= to_title + title + (STYLE_OPEN@ + style + BODY_OPEN@ + body + PAGE_CLOSE@));
    lemma_stands_between(to_title, title, STYLE_OPEN@ + style + BODY_OPEN@ + body + PAGE_CLOSE@);
    assert(whole =~= to_style + style + (BODY_OPEN@ + body + PAGE_CLOSE@));
    lemma_stands_between(to_style, style, BODY_OPEN@ + body + PAGE_CLOSE@);
    assert(whole =~= to_body + body + PAGE_CLOSE@);
    lemma_stands_between(to_body, body, PAGE_CLOSE@);
}

/// With highlighting and math both off, the page holds the title, the theme's
/// CSS and the compiled document between fixed text, and nothing of the
/// highlighter's assets or of the math region.
pub proof fn lemma_plain_page(
    vendor_css: Seq<char>,
    vendor_js: Seq<char>,
    title: Option<Seq<char>>,
    style: Seq<char>,
    body: Seq<char>,
)
    ensures
        composed(false, false, vendor_css, vendor_js, title, style, body) == plain_page(
            title_or_default(title),
            style,
            body,
        ),
{
    let t = title_or_default(title);
    assert(PAGE_OPEN@ + Seq::<char>::empty() =~= PAGE_OPEN@);
    assert(PAGE_OPEN@ + REGION_BREAK@ + Seq::<char>::empty() =~= PAGE_OPEN@ + REGION_BREAK@);
}

/// The math region stands at one place of a page, between the head up to the
/// highlighter and the title; with math on it is the pinned tags, with math
/// off it is empty.
pub proof fn lemma_math_region_once(
    highlight: bool,
    math: bool,
    vendor_css: Seq<char>,
    vendor_js: Seq<char>,
    title: Option<Seq<char>>,
    style: Seq<char>,
    body: Seq<char>,
)
    ensures
        composed(highlight, math, vendor_css, vendor_js, title, style, body) == before_math(
            highlight_region(highlight, vendor_css, vendor_js),
        ) + math_region(math) + after_math(title_or_default(title), style, body),
        math ==> math_region(math) == MATH@,
        !math ==> math_region(math).len() == 0,
        math ==> stands_at(
            composed(highlight, math, vendor_css, vendor_js, title, style, body),
            MATH@,
            before_math(highlight_region(highlight, vendor_css, vendor_js)).len(),
        ),
{
    let h = highlight_region(highlight, vendor_css, vendor_js);
    let t = title_or_default(title);
    assert(composed(highlight, math, vendor_css, vendor_js, title, style, body) =~= before_math(h)
        + math_region(math) + after_math(t, style, body));
    lemma_stands_between(before_math(h), math_region(math), after_math(t, style, body));
}

/// Inlines the highlighter's assets.
pub fn highlighter(vendor: &Vendor) -> (r: String)
    ensures
        r@ == highlight_block(vendor.highlight_css@, vendor.highlight_js@),
{
    let mut block = HIGHLIGHT_OPEN.to_owned();
    block.append(vendor.highlight_css.as_str());
    block.append(HIGHLIGHT_SCRIPT);
    block.append(vendor.highlight_js.as_str());
    block.append(HIGHLIGHT_CLOSE);
    block
}

/// Stitches the regions, the title, the theme's CSS and the compiled document
/// into one page.
pub fn assemble(highlight: &str, math: &str, title: &str, style: &str, body: &str) -> (r: String)
    ensures
        r@ == page(highlight@, math@, title@, style@, body@),
{
    let mut html = PAGE_OPEN.to_owned();
    html.append(highlight);
    html.append(REGION_BREAK);
    html.append(math);
    html.append(TITLE_OPEN);
    html.append(title);
    html.append(STYLE_OPEN);
    html.append(style);
    html.append(BODY_OPEN);
    html.append(body);
    html.append(PAGE_CLOSE);
    html
}

/// Composes the page of a document from the settings, the vendored assets,
/// the title that was found in it, the minified CSS of its theme and the HTML
/// that it was compiled to.
pub fn compose(
    highlight: bool,
    math: bool,
    vendor: &Vendor,
    title: Option<String>,
    style: &str,
    body: &str,
) -> (r: String)
    ensures
        r@ == composed(
            highlight,
            math,
            vendor.highlight_css@,
            vendor.highlight_js@,
            text_of(title),
            style@,
            body@,
        ),
{
    let highlight_part = if highlight {
        highlighter(vendor)
    } else {
        String::new()
    };
    let math_part = if math {
        MATH
    } else {
        ""
    };
    let title_text = match title {
        Some(text) => text,
        None => DEFAULT_TITLE.to_owned(),
    };
    proof {
        reveal_strlit("");
        assert(""@ =~= Seq::<char>::empty());
    }
    assemble(highlight_part.as_str(), math_part, title_text.as_str(), style, body)
}

} // verus!
