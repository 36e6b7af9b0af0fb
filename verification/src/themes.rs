//! Themes: named CSS sources, the registry that holds them, and the
//! resolution of a theme to minified CSS.
//!
//! Reading a theme's file is left to the caller. [`Theme::file_request`] says
//! which file a theme needs, if any, and [`Theme::resolve`] takes what came of
//! reading it.

use crate::css::{minified, minify, outcome_view};
use crate::error::{Failure, RenderError};
use crate::model::{outcome, text_of};
use vstd::prelude::*;

verus! {

/// A named style source. At most one of `inline`, `path` and `url` is meant to
/// be populated; where several are, `inline` goes before `path`, and `path`
/// before `url`.
#[derive(Debug, PartialEq, Eq)]
pub struct Theme {
    /// The name by which a registry finds the theme.
    pub name: String,
    /// A file that holds the CSS.
    pub path: Option<String>,
    /// The CSS itself.
    pub inline: Option<String>,
    /// A remote location of the CSS.
    pub url: Option<String>,
}

/// The mathematical model of a [`Theme`].
pub struct ThemeView {
    pub name: Seq<char>,
    pub path: Option<Seq<char>>,
    pub inline: Option<Seq<char>>,
    pub url: Option<Seq<char>>,
}

impl View for Theme {
    type V = ThemeView;

    open spec fn view(&self) -> ThemeView {
        ThemeView {
            name: self.name@,
            path: text_of(self.path),
            inline: text_of(self.inline),
            url: text_of(self.url),
        }
    }
}

/// The source variant that governs a theme.
pub enum Source {
    Inline(Seq<char>),
    Path(Seq<char>),
    Url(Seq<char>),
    Missing,
}

/// A file that has to be read before a theme can be resolved.
#[derive(Debug, PartialEq, Eq)]
pub struct FileRequest {
    /// The path as the theme gives it.
    pub path: String,
    /// Whether `path` is relative, and so meant below the user's configuration
    /// directory.
    pub in_config_dir: bool,
}

/// The mathematical model of a [`FileRequest`].
pub struct FileRequestView {
    pub path: Seq<char>,
    pub in_config_dir: bool,
}

impl View for FileRequest {
    type V = FileRequestView;

    open spec fn view(&self) -> FileRequestView {
        FileRequestView { path: self.path@, in_config_dir: self.in_config_dir }
    }
}

/// The model of an optional file request.
pub open spec fn request_of(r: Option<FileRequest>) -> Option<FileRequestView> {
    match r {
        Some(request) => Some(request@),
        None => None,
    }
}

/// What came of reading the file that a theme asked for.
#[derive(Debug)]
pub enum FileRead {
    /// No file was read.
    NotRead,
    /// The file's full contents.
    Contents(String),
    /// The file is missing or unreadable; holds the reason.
    Failed(String),
}

/// The mathematical model of a [`FileRead`].
pub enum FileReadView {
    NotRead,
    Contents(Seq<char>),
    Failed(Seq<char>),
}

impl View for FileRead {
    type V = FileReadView;

    open spec fn view(&self) -> FileReadView {
        match self {
            FileRead::NotRead => FileReadView::NotRead,
            FileRead::Contents(text) => FileReadView::Contents(text@),
            FileRead::Failed(reason) => FileReadView::Failed(reason@),
        }
    }
}

/// What the minifier's outcome becomes for the caller: a rejection is a
/// [`Failure::ThemeMinify`] with the minifier's reason.
pub open spec fn minify_result(m: Result<Seq<char>, Seq<char>>) -> Result<Seq<char>, Failure> {
    match m {
        Ok(text) => Ok(text),
        Err(reason) => Err(Failure::ThemeMinify(reason)),
    }
}

impl ThemeView {
    /// A theme whose source is inline CSS.
    pub open spec fn with_inline(name: Seq<char>, css: Seq<char>) -> ThemeView {
        ThemeView { name, path: None, inline: Some(css), url: None }
    }

    /// Whether at most one source is populated, as it is meant to be.
    pub open spec fn single_source(self) -> bool {
        &&& self.inline is Some ==> self.path is None && self.url is None
        &&& self.path is Some ==> self.url is None
    }

    /// The governing source: inline text before a path, a path before a URL.
    pub open spec fn source(self) -> Source {
        if self.inline is Some {
            Source::Inline(self.inline.unwrap())
        } else if self.path is Some {
            Source::Path(self.path.unwrap())
        } else if self.url is Some {
            Source::Url(self.url.unwrap())
        } else {
            Source::Missing
        }
    }

    /// The file to read before resolution, given whether the theme's path is
    /// relative: one exactly when the governing source is a path.
    pub open spec fn file_request(self, relative: bool) -> Option<FileRequestView> {
        match self.source() {
            Source::Path(path) => Some(FileRequestView { path, in_config_dir: relative }),
            _ => None,
        }
    }

    /// The raw CSS of the theme, given what came of reading its file.
    pub open spec fn raw_css(self, read: FileReadView) -> Result<Seq<char>, Failure> {
        match self.source() {
            Source::Inline(css) => Ok(css),
            Source::Path(_) => match read {
                FileReadView::Contents(css) => Ok(css),
                FileReadView::Failed(reason) => Err(Failure::ThemeIo(reason)),
                FileReadView::NotRead => Err(Failure::ThemeIo("theme file was not read"@)),
            },
            Source::Url(_) => Err(Failure::ThemeUnimplemented),
            Source::Missing => Err(Failure::ThemeSourceMissing),
        }
    }

    /// The minified CSS of the theme, given what came of reading its file.
    pub open spec fn resolved(self, read: FileReadView) -> Result<Seq<char>, Failure> {
        match self.raw_css(read) {
            Ok(css) => minify_result(minified(css)),
            Err(failure) => Err(failure),
        }
    }
}

/// Calls `std::path::Path::is_relative` on `path`. Nothing is claimed of the
/// answer: what counts as relative is the platform's matter.
#[verifier::external_body]
fn path_is_relative(path: &str) -> (r: bool) {
    std::path::Path::new(path).is_relative()
}

impl Clone for Theme {
    fn clone(&self) -> (r: Self)
        ensures
            r == *self,
    {
        Theme {
            name: self.name.clone(),
            path: self.path.clone(),
            inline: self.inline.clone(),
            url: self.url.clone(),
        }
    }
}

impl Theme {
    /// A theme that carries its CSS inline, as the built-in themes do.
    pub fn with_inline(name: &str, css: &str) -> (r: Theme)
        ensures
            r@ == ThemeView::with_inline(name@, css@),
            r@.single_source(),
    {
        Theme { name: name.to_owned(), path: None, inline: Some(css.to_owned()), url: None }
    }

    /// The default theme, which is the built-in `air`, with the stylesheet
    /// given for it.
    pub fn default_theme(air: &str) -> (r: Theme)
        ensures
            r@ == ThemeView::with_inline("air"@, air@),
    {
        Theme::with_inline("air", air)
    }

    /// The file that has to be read before [`Theme::resolve`], where
    /// `relative` says whether the theme's path is relative.
    pub fn file_request_for(&self, relative: bool) -> (r: Option<FileRequest>)
        ensures
            request_of(r) == self@.file_request(relative),
    {
        if self.inline.is_some() {
            None
        } else {
            match &self.path {
                Some(path) => Some(FileRequest { path: path.clone(), in_config_dir: relative }),
                None => None,
            }
        }
    }

    /// The file that has to be read before [`Theme::resolve`]: none unless the
    /// governing source is a path, and then that path, marked as lying in the
    /// configuration directory if the platform takes it for relative.
    pub fn file_request(&self) -> (r: Option<FileRequest>)
        ensures
            request_of(r) == self@.file_request(r is Some && r.unwrap().in_config_dir),
            self.inline is Some ==> r is None,
    {
        let relative = match &self.path {
            Some(path) => self.inline.is_none() && path_is_relative(path.as_str()),
            None => false,
        };
        self.file_request_for(relative)
    }

    /// The raw CSS of a theme with inline text: that text, verbatim.
    fn resolve_inline(&self) -> (r: String)
        requires
            self.inline is Some,
        ensures
            r@ == self.inline.unwrap()@,
    {
        self.inline.as_ref().unwrap().clone()
    }

    /// The raw CSS of a theme with a path: the contents that were read, or the
    /// failure to read them.
    fn resolve_path(&self, read: &FileRead) -> (r: Result<String, RenderError>)
        requires
            self.path is Some,
        ensures
            outcome(r) == (match read@ {
                FileReadView::Contents(css) => Ok::<Seq<char>, Failure>(css),
                FileReadView::Failed(reason) => Err(Failure::ThemeIo(reason)),
                FileReadView::NotRead => Err(Failure::ThemeIo("theme file was not read"@)),
            }),
    {
        match read {
            FileRead::Contents(css) => Ok(css.clone()),
            FileRead::Failed(reason) => Err(RenderError::ThemeIo(reason.clone())),
            FileRead::NotRead => Err(RenderError::ThemeIo("theme file was not read".to_owned())),
        }
    }

    /// The raw CSS of a theme with a URL: fetching is not supported.
    fn resolve_url(&self) -> (r: Result<String, RenderError>)
        requires
            self.url is Some,
        ensures
            outcome(r) == Err::<Seq<char>, Failure>(Failure::ThemeUnimplemented),
    {
        Err(RenderError::ThemeUnimplemented)
    }

    /// Turns the minifier's outcome into the outcome of a resolution.
    pub fn minify_outcome(result: Result<String, &'static str>) -> (r: Result<String, RenderError>)
        ensures
            outcome(r) == minify_result(outcome_view(result)),
    {
        match result {
            Ok(css) => Ok(css),
            Err(reason) => Err(RenderError::ThemeMinify(reason.to_owned())),
        }
    }

    /// Resolves the theme to minified CSS. `read` is what came of reading the
    /// file that [`Theme::file_request`] names; it is looked at only where the
    /// governing source is a path.
    pub fn resolve(&self, read: &FileRead) -> (r: Result<String, RenderError>)
        ensures
            outcome(r) == self@.resolved(read@),
            self@.inline matches Some(css) ==> outcome(r) == minify_result(minified(css)),
            self@.source() is Path ==> (read@ matches FileReadView::Failed(reason) ==> outcome(r)
                == Err::<Seq<char>, Failure>(Failure::ThemeIo(reason))),
            self@.source() is Url ==> outcome(r) == Err::<Seq<char>, Failure>(
                Failure::ThemeUnimplemented,
            ),
            self@.source() is Missing ==> outcome(r) == Err::<Seq<char>, Failure>(
                Failure::ThemeSourceMissing,
            ),
    {
        let raw = if self.inline.is_some() {
            self.resolve_inline()
        } else if self.path.is_some() {
            match self.resolve_path(read) {
                Ok(css) => css,
                Err(error) => {
                    return Err(error);
                },
            }
        } else if self.url.is_some() {
            match self.resolve_url() {
                Ok(css) => css,
                Err(error) => {
                    return Err(error);
                },
            }
        } else {
            return Err(RenderError::ThemeSourceMissing);
        };
        Theme::minify_outcome(minify(raw.as_str()))
    }
}

/// A file is asked for, and what came of reading it counts, only where the
/// governing source is a path. In particular a theme with inline CSS resolves
/// to the minifier's outcome on that text whatever is on disk.
pub proof fn lemma_file_counts_only_for_path(
    theme: ThemeView,
    relative: bool,
    first: FileReadView,
    second: FileReadView,
)
    requires
        !(theme.source() is Path),
    ensures
        theme.file_request(relative) is None,
        theme.resolved(first) == theme.resolved(second),
        theme.inline matches Some(css) ==> theme.resolved(first) == minify_result(minified(css)),
{
}

/// An ordered registry of themes: the built-in ones first, the user's after.
#[derive(Debug)]
pub struct Themes {
    pub themes: Vec<Theme>,
}

impl View for Themes {
    type V = Seq<ThemeView>;

    open spec fn view(&self) -> Seq<ThemeView> {
        self.themes@.map_values(|theme: Theme| theme@)
    }
}

/// The model of an optional theme.
pub open spec fn theme_of(t: Option<Theme>) -> Option<ThemeView> {
    match t {
        Some(theme) => Some(theme@),
        None => None,
    }
}

/// Whether `i` is the first position in `themes` of a theme called `name`.
pub open spec fn is_first_match(themes: Seq<ThemeView>, name: Seq<char>, i: int) -> bool {
    &&& 0 <= i < themes.len()
    &&& themes[i].name == name
    &&& forall|j: int| 0 <= j < i ==> (#[trigger] themes[j]).name != name
}

/// The theme that a lookup of `name` in `themes` finds: the first one of that
/// name in sequence order.
pub open spec fn lookup(themes: Seq<ThemeView>, name: Seq<char>) -> Option<ThemeView> {
    if exists|i: int| is_first_match(themes, name, i) {
        Some(themes[choose|i: int| is_first_match(themes, name, i)])
    } else {
        None
    }
}

/// The registry of the built-in themes, given their four stylesheets.
pub open spec fn builtin_themes(
    air: Seq<char>,
    modest: Seq<char>,
    retro: Seq<char>,
    splendor: Seq<char>,
) -> Seq<ThemeView> {
    seq![
        ThemeView::with_inline("air"@, air),
        ThemeView::with_inline("modest"@, modest),
        ThemeView::with_inline("retro"@, retro),
        ThemeView::with_inline("splendor"@, splendor),
    ]
}

/// At most one position is the first match of a name.
pub proof fn lemma_first_match_unique(themes: Seq<ThemeView>, name: Seq<char>, i: int, j: int)
    requires
        is_first_match(themes, name, i),
        is_first_match(themes, name, j),
    ensures
        i == j,
{
    if i < j {
        assert(themes[i].name != name);
    }
    if j < i {
        assert(themes[j].name != name);
    }
}

/// A lookup finds the theme at the first matching position, and nothing
/// where no theme has the name.
pub proof fn lemma_lookup(themes: Seq<ThemeView>, name: Seq<char>)
    ensures
        forall|i: int| is_first_match(themes, name, i) ==> lookup(themes, name) == Some(themes[i]),
        lookup(themes, name) is None <==> forall|i: int|
            0 <= i < themes.len() ==> (#[trigger] themes[i]).name != name,
{
    assert forall|i: int| is_first_match(themes, name, i) implies lookup(themes, name) == Some(
        themes[i],
    ) by {
        let k = choose|k: int| is_first_match(themes, name, k);
        lemma_first_match_unique(themes, name, i, k);
    }
    if lookup(themes, name) is None {
        assert forall|i: int| 0 <= i < themes.len() implies (#[trigger] themes[i]).name
            != name by {
            if themes[i].name == name {
                lemma_least_match(themes, name, i);
            }
        }
    }
}

/// Where some theme up to position `i` has the name, there is a first one.
proof fn lemma_least_match(themes: Seq<ThemeView>, name: Seq<char>, i: int)
    requires
        0 <= i < themes.len(),
        themes[i].name == name,
    ensures
        exists|k: int| is_first_match(themes, name, k),
    decreases i,
{
    if exists|j: int| 0 <= j < i && (#[trigger] themes[j]).name == name {
        let j = choose|j: int| 0 <= j < i && (#[trigger] themes[j]).name == name;
        lemma_least_match(themes, name, j);
    } else {
        assert(is_first_match(themes, name, i));
    }
}

/// Themes appended to a registry never replace one that it already holds: a
/// name that `first` has is found in `first + second` as it is in `first`. So
/// a user's theme that bears a built-in theme's name is shadowed by it.
pub proof fn lemma_earlier_theme_shadows(
    first: Seq<ThemeView>,
    second: Seq<ThemeView>,
    name: Seq<char>,
)
    requires
        lookup(first, name) is Some,
    ensures
        lookup(first + second, name) == lookup(first, name),
{
    let i = choose|i: int| is_first_match(first, name, i);
    let both = first + second;
    assert(both[i] == first[i]);
    assert forall|j: int| 0 <= j < i implies (#[trigger] both[j]).name != name by {
        assert(both[j] == first[j]);
    }
    assert(is_first_match(both, name, i));
    lemma_lookup(both, name);
}

/// A name that `first` lacks is looked up in `first + second` as in `second`.
pub proof fn lemma_later_theme_found(
    first: Seq<ThemeView>,
    second: Seq<ThemeView>,
    name: Seq<char>,
)
    requires
        lookup(first, name) is None,
    ensures
        lookup(first + second, name) == lookup(second, name),
{
    let both = first + second;
    lemma_lookup(first, name);
    lemma_lookup(second, name);
    lemma_lookup(both, name);
    if lookup(second, name) is Some {
        let i = choose|i: int| is_first_match(second, name, i);
        let k = first.len() + i;
        assert(both[k] == second[i]);
        assert forall|j: int| 0 <= j < k implies (#[trigger] both[j]).name != name by {
            if j < first.len() {
                assert(both[j] == first[j]);
            } else {
                assert(both[j] == second[j - first.len()]);
            }
        }
        assert(is_first_match(both, name, k));
    } else {
        assert forall|j: int| 0 <= j < both.len() implies (#[trigger] both[j]).name != name by {
            if j < first.len() {
                assert(both[j] == first[j]);
            } else {
                assert(both[j] == second[j - first.len()]);
            }
        }
    }
}

impl Themes {
    /// Looks a theme up by name: the first in sequence order that bears it.
    pub fn by_name(&self, name: &str) -> (r: Option<Theme>)
        ensures
            theme_of(r) == lookup(self@, name@),
    {
        let wanted = name.to_owned();
        let mut i: usize = 0;
        while i < self.themes.len()
            invariant
                i <= self.themes.len(),
                wanted@ == name@,
                forall|j: int| 0 <= j < i ==> (#[trigger] self@[j]).name != name@,
            decreases self.themes.len() - i,
        {
            if self.themes[i].name == wanted {
                proof {
                    assert(is_first_match(self@, name@, i as int));
                    lemma_lookup(self@, name@);
                }
                return Some(self.themes[i].clone());
            }
            i += 1;
        }
        proof {
            lemma_lookup(self@, name@);
        }
        None
    }

    /// The registry of the built-in themes, which are `air`, `modest`, `retro`
    /// and `splendor` in this order, each with the stylesheet given for it.
    pub fn builtin(air: &str, modest: &str, retro: &str, splendor: &str) -> (r: Themes)
        ensures
            r@ == builtin_themes(air@, modest@, retro@, splendor@),
            forall|i: int| 0 <= i < r@.len() ==> (#[trigger] r@[i]).single_source(),
    {
        let mut themes: Vec<Theme> = Vec::new();
        themes.push(Theme::with_inline("air", air));
        themes.push(Theme::with_inline("modest", modest));
        themes.push(Theme::with_inline("retro", retro));
        themes.push(Theme::with_inline("splendor", splendor));
        let r = Themes { themes };
        assert(r@ =~= builtin_themes(air@, modest@, retro@, splendor@));
        r
    }
}

/// What came of looking for the user's themes configuration.
#[derive(Debug)]
pub enum UserThemes {
    /// There is no configuration file.
    Absent,
    /// The file exists and could not be read; holds the reason.
    Unreadable(String),
    /// The file's contents are malformed; holds the reason.
    Malformed(String),
    /// The themes that the file describes, in its order.
    Parsed(Vec<Theme>),
}

/// The mathematical model of a [`UserThemes`].
pub enum UserThemesView {
    Absent,
    Unreadable(Seq<char>),
    Malformed(Seq<char>),
    Parsed(Seq<ThemeView>),
}

impl View for UserThemes {
    type V = UserThemesView;

    open spec fn view(&self) -> UserThemesView {
        match self {
            UserThemes::Absent => UserThemesView::Absent,
            UserThemes::Unreadable(reason) => UserThemesView::Unreadable(reason@),
            UserThemes::Malformed(reason) => UserThemesView::Malformed(reason@),
            UserThemes::Parsed(themes) => UserThemesView::Parsed(
                themes@.map_values(|theme: Theme| theme@),
            ),
        }
    }
}

/// The model of a registry or the failure to build one.
pub open spec fn registry_of(r: Result<Themes, RenderError>) -> Result<Seq<ThemeView>, Failure> {
    match r {
        Ok(themes) => Ok(themes@),
        Err(error) => Err(error@),
    }
}

/// The registry that is available: the built-in themes, followed by the
/// user's where a configuration was found. A missing configuration is no
/// failure.
pub open spec fn available(builtin: Seq<ThemeView>, user: UserThemesView) -> Result<
    Seq<ThemeView>,
    Failure,
> {
    match user {
        UserThemesView::Absent => Ok(builtin),
        UserThemesView::Unreadable(reason) => Err(Failure::ThemeIo(reason)),
        UserThemesView::Malformed(reason) => Err(Failure::ConfigParse(reason)),
        UserThemesView::Parsed(themes) => Ok(builtin + themes),
    }
}

/// Builds the registry of available themes from the built-in ones and what
/// came of looking for the user's configuration.
pub fn available_themes(builtin: Themes, user: UserThemes) -> (r: Result<Themes, RenderError>)
    ensures
        registry_of(r) == available(builtin@, user@),
{
    let mut default = builtin;
    match user {
        UserThemes::Absent => Ok(default),
        UserThemes::Unreadable(reason) => Err(RenderError::ThemeIo(reason)),
        UserThemes::Malformed(reason) => Err(RenderError::ConfigParse(reason)),
        UserThemes::Parsed(custom) => {
            let mut custom = custom;
            let ghost appended = custom@.map_values(|theme: Theme| theme@);
            default.themes.append(&mut custom);
            assert(default@ =~= builtin@ + appended);
            Ok(default)
        },
    }
}

/// In the available registry a built-in theme is found under its name
/// whatever the user's configuration holds.
pub proof fn lemma_builtin_theme_stays(
    builtin: Seq<ThemeView>,
    user: Seq<ThemeView>,
    name: Seq<char>,
)
    requires
        lookup(builtin, name) is Some,
    ensures
        available(builtin, UserThemesView::Parsed(user)) matches Ok(all) && lookup(all, name)
            == lookup(builtin, name),
{
    lemma_earlier_theme_shadows(builtin, user, name);
}

} // verus!
