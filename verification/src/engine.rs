//! The markdown engine. Parsing and compilation are the work of the `markdown`
//! crate; this module states what the rest of the library relies on.

use crate::tree::{DocNode, Outline};
use vstd::prelude::*;

verus! {

/// `markdown::mdast::Node`, a node of the engine's syntax tree, taken as
/// opaque: it is only handed from [`parse_gfm`] to [`outline_of`].
#[verifier::external_type_specification]
#[verifier::external_body]
pub struct ExNode(markdown::mdast::Node);

/// `markdown::message::Message`, the engine's report of a failure, taken as
/// opaque: it is only handed to [`message_text`].
#[verifier::external_type_specification]
#[verifier::external_body]
pub struct ExMessage(markdown::message::Message);

/// The switches of the construct set that this library sets itself. Every
/// other switch keeps its GitHub-flavoured default.
#[derive(Clone, Copy, Debug, PartialEq, Eq)]
pub struct Features {
    /// Raw HTML blocks.
    pub html_flow: bool,
    /// Raw inline HTML.
    pub html_text: bool,
    /// Block-level math regions.
    pub math_flow: bool,
    /// Inline math spans.
    pub math_text: bool,
    /// Link-reference definitions.
    pub definition: bool,
    /// Whether raw HTML reaches the output unescaped.
    pub allow_dangerous_html: bool,
}

/// The tree that the engine parses `text` into under the GitHub-flavoured
/// dialect, or `None` where it reports a failure.
pub uninterp spec fn gfm_tree(text: Seq<char>) -> Option<Outline>;

/// What the engine's tree below `node` holds, as far as this library reads
/// it: where the headings are, with their text, and which nodes have children.
pub uninterp spec fn node_outline(node: markdown::mdast::Node) -> Outline;

/// The HTML fragment that the engine compiles `text` to under the
/// GitHub-flavoured dialect with `features` applied, or `None` where it
/// reports a failure.
pub uninterp spec fn gfm_html(text: Seq<char>, features: Features) -> Option<Seq<char>>;

/// Calls `markdown::to_mdast` with `markdown::ParseOptions::gfm()`.
///
/// Trusted: the outcome is a function of `text` alone, named by [`gfm_tree`].
#[verifier::external_body]
pub(crate) fn parse_gfm(text: &str) -> (r: Result<
    markdown::mdast::Node,
    markdown::message::Message,
>)
    ensures
        r is Ok <==> gfm_tree(text@) is Some,
        r matches Ok(node) ==> gfm_tree(text@) == Some(node_outline(node)),
{
    markdown::to_mdast(text, &markdown::ParseOptions::gfm())
}

/// Copies a tree of the engine into a [`DocNode`], through
/// `markdown::mdast::Node::children` and the node's `to_string`.
///
/// Trusted: a heading becomes `Heading` with its text content, any other node
/// with a list of children becomes `Parent` of the copies of those children in
/// order, and every other node becomes `Leaf`; [`node_outline`] names the
/// result.
#[verifier::external_body]
pub(crate) fn outline_of(node: &markdown::mdast::Node) -> (r: DocNode)
    ensures
        r@ == node_outline(*node),
{
    match node {
        markdown::mdast::Node::Heading(_) => DocNode::Heading(node.to_string()),
        _ => match node.children() {
            Some(children) => DocNode::Parent(children.iter().map(outline_of).collect()),
            None => DocNode::Leaf,
        },
    }
}

/// Calls `markdown::to_html_with_options`. The options are the
/// GitHub-flavoured ones of `markdown::Constructs::gfm`,
/// `markdown::ParseOptions::gfm` and `markdown::CompileOptions::gfm`, with the
/// six switches of `features` written over them.
///
/// Trusted: the outcome is a function of `text` and `features` alone, named by
/// [`gfm_html`].
#[verifier::external_body]
pub(crate) fn compile(text: &str, features: &Features) -> (r: Result<
    String,
    markdown::message::Message,
>)
    ensures
        r is Ok <==> gfm_html(text@, *features) is Some,
        r matches Ok(html) ==> gfm_html(text@, *features) == Some(html@),
{
    let constructs = markdown::Constructs {
        html_flow: features.html_flow,
        html_text: features.html_text,
        math_flow: features.math_flow,
        math_text: features.math_text,
        definition: features.definition,
        ..markdown::Constructs::gfm()
    };
    let parse = markdown::ParseOptions { constructs, ..markdown::ParseOptions::gfm() };
    let compile = markdown::CompileOptions {
        allow_dangerous_html: features.allow_dangerous_html,
        ..markdown::CompileOptions::gfm()
    };
    markdown::to_html_with_options(text, &markdown::Options { parse, compile })
}

/// Formats a failure of the engine through its `Display` impl. Nothing is
/// claimed of the text.
#[verifier::external_body]
pub(crate) fn message_text(message: &markdown::message::Message) -> (r: String) {
    message.to_string()
}

} // verus!
