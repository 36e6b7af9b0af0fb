//! The failures that resolving a theme or rendering a document can end in.

use vstd::prelude::*;

verus! {

/// Why a theme could not be resolved or a document could not be rendered.
#[derive(Debug, PartialEq, Eq)]
pub enum RenderError {
    /// The theme names no source at all.
    ThemeSourceMissing,
    /// A file that themes depend on could not be read; holds the reason.
    ThemeIo(String),
    /// The theme's source is a remote URL, which is not supported.
    ThemeUnimplemented,
    /// The minifier rejected the theme's CSS; holds the reason.
    ThemeMinify(String),
    /// The markdown engine rejected the document; holds the reason.
    MarkdownCompile(String),
    /// The themes configuration is malformed; holds the reason.
    ConfigParse(String),
}

/// The mathematical model of a [`RenderError`].
pub enum Failure {
    ThemeSourceMissing,
    ThemeIo(Seq<char>),
    ThemeUnimplemented,
    ThemeMinify(Seq<char>),
    MarkdownCompile(Seq<char>),
    ConfigParse(Seq<char>),
}

impl View for RenderError {
    type V = Failure;

    open spec fn view(&self) -> Failure {
        match self {
            RenderError::ThemeSourceMissing => Failure::ThemeSourceMissing,
            RenderError::ThemeIo(reason) => Failure::ThemeIo(reason@),
            RenderError::ThemeUnimplemented => Failure::ThemeUnimplemented,
            RenderError::ThemeMinify(reason) => Failure::ThemeMinify(reason@),
            RenderError::MarkdownCompile(reason) => Failure::MarkdownCompile(reason@),
            RenderError::ConfigParse(reason) => Failure::ConfigParse(reason@),
        }
    }
}

impl Failure {
    /// The human-readable message of a failure.
    pub open spec fn message(self) -> Seq<char> {
        match self {
            Failure::ThemeSourceMissing => "theme source is not specified"@,
            Failure::ThemeIo(reason) => reason,
            Failure::ThemeUnimplemented => "not implemented"@,
            Failure::ThemeMinify(reason) => reason,
            Failure::MarkdownCompile(reason) => reason,
            Failure::ConfigParse(reason) => reason,
        }
    }
}

impl RenderError {
    /// The human-readable message that this failure carries.
    pub fn message(&self) -> (r: String)
        ensures
            r@ == self@.message(),
    {
        match self {
            RenderError::ThemeSourceMissing => "theme source is not specified".to_owned(),
            RenderError::ThemeIo(reason) => reason.clone(),
            RenderError::ThemeUnimplemented => "not implemented".to_owned(),
            RenderError::ThemeMinify(reason) => reason.clone(),
            RenderError::MarkdownCompile(reason) => reason.clone(),
            RenderError::ConfigParse(reason) => reason.clone(),
        }
    }
}

} // verus!
