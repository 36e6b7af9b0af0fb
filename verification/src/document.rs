//! Documents: the title of a markdown text and its rendering as an HTML page.

use crate::engine::{compile, gfm_html, gfm_tree, message_text, outline_of, parse_gfm, Features};
use crate::error::{Failure, RenderError};
use crate::model::{outcome, text_of};
use crate::page::{
    before_math, compose, composed, highlight_region, lemma_math_region_once, lemma_plain_page,
    plain_page, stands_at, title_or_default, Vendor, MATH,
};
use crate::themes::{FileRead, FileReadView, Theme, ThemeView};
use crate::tree::{first_heading, DocNode, Outline};
use vstd::prelude::*;

verus! {

/// A markdown document: its source text.
#[derive(Debug)]
pub struct Document {
    text: String,
}

impl View for Document {
    type V = Seq<char>;

    closed spec fn view(&self) -> Seq<char> {
        self.text@
    }
}

/// How a document is to be rendered.
#[derive(Debug)]
pub struct RenderOptions {
    /// The theme whose CSS styles the page.
    pub theme: Theme,
    /// Whether the syntax highlighter is inlined.
    pub highlight: bool,
    /// Whether math is parsed and rendered.
    pub math: bool,
}

/// The construct switches under which a document is compiled: raw HTML in
/// both forms and link-reference definitions on, raw HTML let through
/// unescaped, and the two math constructs as `math` says.
pub open spec fn features_for(math: bool) -> Features {
    Features {
        html_flow: true,
        html_text: true,
        math_flow: math,
        math_text: math,
        definition: true,
        allow_dangerous_html: true,
    }
}

/// The title of a document whose text parses to `tree`: none where parsing
/// failed, else what the first-child chain of the root yields.
pub open spec fn title_of(tree: Option<Outline>) -> Option<Seq<char>> {
    match tree {
        Some(root) => first_heading(root),
        None => None,
    }
}

/// What rendering yields once the document is compiled to `body`: the page,
/// or the failure to resolve the theme.
pub open spec fn rendered(
    text: Seq<char>,
    body: Seq<char>,
    theme: ThemeView,
    highlight: bool,
    math: bool,
    vendor_css: Seq<char>,
    vendor_js: Seq<char>,
    read: FileReadView,
) -> Result<Seq<char>, Failure> {
    match theme.resolved(read) {
        Ok(style) => Ok(
            composed(
                highlight,
                math,
                vendor_css,
                vendor_js,
                title_of(gfm_tree(text)),
                style,
                body,
            ),
        ),
        Err(failure) => Err(failure),
    }
}

/// Whether `result` is an outcome of rendering: a markdown failure where the
/// engine rejects the text under the construct set for `math`, and otherwise
/// exactly [`rendered`] of what the engine compiles it to.
pub open spec fn is_rendering(
    text: Seq<char>,
    theme: ThemeView,
    highlight: bool,
    math: bool,
    vendor_css: Seq<char>,
    vendor_js: Seq<char>,
    read: FileReadView,
    result: Result<Seq<char>, Failure>,
) -> bool {
    match gfm_html(text, features_for(math)) {
        Some(body) => result == rendered(
            text,
            body,
            theme,
            highlight,
            math,
            vendor_css,
            vendor_js,
            read,
        ),
        None => result matches Err(failure) && failure is MarkdownCompile,
    }
}

/// Rendering is a function of its inputs: two outcomes for the same text,
/// options, assets and file contents succeed or fail together, a page is the
/// same text in both, and a failure is of the same kind.
pub proof fn lemma_render_deterministic(
    text: Seq<char>,
    theme: ThemeView,
    highlight: bool,
    math: bool,
    vendor_css: Seq<char>,
    vendor_js: Seq<char>,
    read: FileReadView,
    first: Result<Seq<char>, Failure>,
    second: Result<Seq<char>, Failure>,
)
    requires
        is_rendering(text, theme, highlight, math, vendor_css, vendor_js, read, first),
        is_rendering(text, theme, highlight, math, vendor_css, vendor_js, read, second),
    ensures
        first is Ok <==> second is Ok,
        first is Ok ==> first == second,
        first matches Err(failure) ==> second matches Err(other) && (failure == other || (failure
            is MarkdownCompile && other is MarkdownCompile)),
{
}

/// A page that was rendered with highlighting and math both off is the plain
/// page of the document's title, the theme's minified CSS and the compiled
/// document: it holds nothing of the highlighter or of the math region, and
/// the document was compiled with the math constructs off.
pub proof fn lemma_render_plain(
    text: Seq<char>,
    theme: ThemeView,
    vendor_css: Seq<char>,
    vendor_js: Seq<char>,
    read: FileReadView,
    html: Seq<char>,
)
    requires
        is_rendering(text, theme, false, false, vendor_css, vendor_js, read, Ok(html)),
    ensures
        !features_for(false).math_flow && !features_for(false).math_text,
        gfm_html(text, features_for(false)) matches Some(body) && theme.resolved(read) matches Ok(
            style,
        ) && html == plain_page(title_or_default(title_of(gfm_tree(text))), style, body),
{
    let body = gfm_html(text, features_for(false)).unwrap();
    let style = match theme.resolved(read) {
        Ok(style) => style,
        Err(_) => Seq::empty(),
    };
    lemma_plain_page(vendor_css, vendor_js, title_of(gfm_tree(text)), style, body);
}

/// A page that was rendered with math on was compiled with both math
/// constructs on, and holds the pinned math tags at the one place of the math
/// region, right after the head up to the highlighter.
pub proof fn lemma_render_with_math(
    text: Seq<char>,
    theme: ThemeView,
    highlight: bool,
    vendor_css: Seq<char>,
    vendor_js: Seq<char>,
    read: FileReadView,
    html: Seq<char>,
)
    requires
        is_rendering(text, theme, highlight, true, vendor_css, vendor_js, read, Ok(html)),
    ensures
        features_for(true).math_flow && features_for(true).math_text,
        gfm_html(text, features_for(true)) is Some,
        stands_at(
            html,
            MATH@,
            before_math(highlight_region(highlight, vendor_css, vendor_js)).len(),
        ),
{
    let body = gfm_html(text, features_for(true)).unwrap();
    let style = match theme.resolved(read) {
        Ok(style) => style,
        Err(_) => Seq::empty(),
    };
    lemma_math_region_once(
        highlight,
        true,
        vendor_css,
        vendor_js,
        title_of(gfm_tree(text)),
        style,
        body,
    );
}

impl RenderOptions {
    /// The construct switches that these options ask for.
    pub fn features(&self) -> (r: Features)
        ensures
            r == features_for(self.math),
    {
        Features {
            html_flow: true,
            html_text: true,
            math_flow: self.math,
            math_text: self.math,
            definition: true,
            allow_dangerous_html: true,
        }
    }
}

impl Document {
    /// A document with the given source text.
    pub fn new(text: &str) -> (r: Self)
        ensures
            r@ == text@,
    {
        Document { text: text.to_owned() }
    }

    /// The title that the tree below `node` yields. Only the first child of a
    /// node is looked at: where it yields no title, the node yields none.
    pub fn get_title_from_node(node: &DocNode) -> (r: Option<String>)
        ensures
            text_of(r) == first_heading(node@),
        decreases node,
    {
        match node {
            DocNode::Heading(text) => Some(text.clone()),
            DocNode::Parent(children) => if children.len() > 0 {
                Document::get_title_from_node(&children[0])
            } else {
                None
            },
            DocNode::Leaf => None,
        }
    }

    /// The title of the document, if it has one. A text that the engine
    /// cannot parse has none.
    pub fn title(&self) -> (r: Option<String>)
        ensures
            text_of(r) == title_of(gfm_tree(self@)),
    {
        match parse_gfm(self.text.as_str()) {
            Ok(node) => {
                let tree = outline_of(&node);
                Document::get_title_from_node(&tree)
            },
            Err(_) => None,
        }
    }

    /// Renders the document as one self-contained HTML page. `vendor` holds the
    /// highlighter's assets and `read` what came of reading the file that the
    /// theme asked for. Fails, with no page at all, where the engine rejects
    /// the text or the theme cannot be resolved.
    pub fn render(&self, options: &RenderOptions, vendor: &Vendor, read: &FileRead) -> (r: Result<
        String,
        RenderError,
    >)
        ensures
            is_rendering(
                self@,
                options.theme@,
                options.highlight,
                options.math,
                vendor.highlight_css@,
                vendor.highlight_js@,
                read@,
                outcome(r),
            ),
            gfm_html(self@, features_for(options.math)) is None ==> r is Err,
    {
        let features = options.features();
        let body = match compile(self.text.as_str(), &features) {
            Ok(body) => body,
            Err(message) => {
                return Err(RenderError::MarkdownCompile(message_text(&message)));
            },
        };
        let title = self.title();
        let style = match options.theme.resolve(read) {
            Ok(style) => style,
            Err(error) => {
                return Err(error);
            },
        };
        Ok(compose(options.highlight, options.math, vendor, title, style.as_str(), body.as_str()))
    }
}

} // verus!
