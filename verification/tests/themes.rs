use mdpage::error::RenderError;
use mdpage::themes::{available_themes, FileRead, FileRequest, Theme, Themes, UserThemes};

const SPACED_CSS: &str = "\n    .foo > p {\n        color: red;\n    }";
const MINIFIED_CSS: &str = ".foo>p{color:red;}";

fn inline_theme(name: &str, css: &str) -> Theme {
    Theme { name: name.to_string(), path: None, inline: Some(css.to_string()), url: None }
}

fn path_theme(name: &str, path: &str) -> Theme {
    Theme { name: name.to_string(), path: Some(path.to_string()), inline: None, url: None }
}

fn url_theme(name: &str, url: &str) -> Theme {
    Theme { name: name.to_string(), path: None, inline: None, url: Some(url.to_string()) }
}

fn bare_theme(name: &str) -> Theme {
    Theme { name: name.to_string(), path: None, inline: None, url: None }
}

#[test]
fn inline_theme_resolves_to_minified_css() {
    let theme = inline_theme("plain", SPACED_CSS);
    assert_eq!(theme.resolve(&FileRead::NotRead), Ok(MINIFIED_CSS.to_string()));
}

#[test]
fn inline_theme_asks_for_no_file() {
    let theme = inline_theme("plain", SPACED_CSS);
    assert_eq!(theme.file_request(), None);
    assert_eq!(theme.file_request_for(true), None);
    assert_eq!(theme.file_request_for(false), None);
}

#[test]
fn inline_theme_ignores_what_was_read() {
    let theme = inline_theme("plain", SPACED_CSS);
    let failed = FileRead::Failed("no such file".to_string());
    let other = FileRead::Contents("body { margin: 0; }".to_string());
    assert_eq!(theme.resolve(&failed), Ok(MINIFIED_CSS.to_string()));
    assert_eq!(theme.resolve(&other), Ok(MINIFIED_CSS.to_string()));
}

#[test]
fn with_inline_populates_only_the_inline_source() {
    let theme = Theme::with_inline("air", "body{}");
    assert_eq!(theme, inline_theme("air", "body{}"));
}

#[test]
fn default_theme_is_air() {
    assert_eq!(Theme::default_theme("body{}"), inline_theme("air", "body{}"));
    assert_eq!(
        Themes::builtin("body{}", "m{}", "r{}", "s{}").themes[0],
        Theme::default_theme("body{}")
    );
}

#[test]
fn relative_path_is_requested_in_config_dir() {
    let theme = path_theme("mine", "themes/mine.css");
    assert_eq!(
        theme.file_request(),
        Some(FileRequest { path: "themes/mine.css".to_string(), in_config_dir: true })
    );
}

#[test]
fn absolute_path_is_requested_directly() {
    let theme = path_theme("mine", "/usr/share/themes/mine.css");
    assert_eq!(
        theme.file_request(),
        Some(FileRequest { path: "/usr/share/themes/mine.css".to_string(), in_config_dir: false })
    );
}

#[test]
fn file_request_for_follows_the_flag() {
    let theme = path_theme("mine", "mine.css");
    assert_eq!(
        theme.file_request_for(true),
        Some(FileRequest { path: "mine.css".to_string(), in_config_dir: true })
    );
    assert_eq!(
        theme.file_request_for(false),
        Some(FileRequest { path: "mine.css".to_string(), in_config_dir: false })
    );
}

#[test]
fn url_and_bare_themes_ask_for_no_file() {
    assert_eq!(url_theme("far", "https://example.com/far.css").file_request(), None);
    assert_eq!(bare_theme("none").file_request(), None);
    assert_eq!(url_theme("far", "https://example.com/far.css").file_request_for(true), None);
    assert_eq!(bare_theme("none").file_request_for(true), None);
}

#[test]
fn path_theme_resolves_the_contents_that_were_read() {
    let theme = path_theme("mine", "mine.css");
    let read = FileRead::Contents(SPACED_CSS.to_string());
    assert_eq!(theme.resolve(&read), Ok(MINIFIED_CSS.to_string()));
}

#[test]
fn path_theme_with_unreadable_file_is_an_io_failure() {
    let theme = path_theme("mine", "missing.css");
    let read = FileRead::Failed("No such file or directory (os error 2)".to_string());
    assert_eq!(
        theme.resolve(&read),
        Err(RenderError::ThemeIo("No such file or directory (os error 2)".to_string()))
    );
}

#[test]
fn path_theme_without_a_read_is_an_io_failure() {
    let theme = path_theme("mine", "mine.css");
    assert_eq!(
        theme.resolve(&FileRead::NotRead),
        Err(RenderError::ThemeIo("theme file was not read".to_string()))
    );
}

#[test]
fn url_theme_is_unimplemented() {
    let theme = url_theme("far", "https://example.com/far.css");
    assert_eq!(theme.resolve(&FileRead::NotRead), Err(RenderError::ThemeUnimplemented));
    let read = FileRead::Contents(SPACED_CSS.to_string());
    assert_eq!(theme.resolve(&read), Err(RenderError::ThemeUnimplemented));
}

#[test]
fn theme_without_source_is_missing() {
    let theme = bare_theme("none");
    assert_eq!(theme.resolve(&FileRead::NotRead), Err(RenderError::ThemeSourceMissing));
    let read = FileRead::Contents(SPACED_CSS.to_string());
    assert_eq!(theme.resolve(&read), Err(RenderError::ThemeSourceMissing));
}

#[test]
fn malformed_css_is_a_minify_failure() {
    let theme = inline_theme("broken", "a{content:\"x}");
    assert_eq!(
        theme.resolve(&FileRead::NotRead),
        Err(RenderError::ThemeMinify("Unclosed string".to_string()))
    );
    let theme = inline_theme("broken", "a{}}");
    assert_eq!(
        theme.resolve(&FileRead::NotRead),
        Err(RenderError::ThemeMinify("Too much '}'".to_string()))
    );
}

#[test]
fn malformed_file_contents_are_a_minify_failure() {
    let theme = path_theme("broken", "broken.css");
    let read = FileRead::Contents("/* never closed".to_string());
    assert_eq!(
        theme.resolve(&read),
        Err(RenderError::ThemeMinify("Unclosed comment".to_string()))
    );
}

#[test]
fn inline_goes_before_path_and_path_before_url() {
    let all = Theme {
        name: "all".to_string(),
        path: Some("other.css".to_string()),
        inline: Some(SPACED_CSS.to_string()),
        url: Some("https://example.com/far.css".to_string()),
    };
    assert_eq!(all.file_request(), None);
    assert_eq!(
        all.resolve(&FileRead::Contents("b{color:blue}".to_string())),
        Ok(MINIFIED_CSS.to_string())
    );
    let two = Theme {
        name: "two".to_string(),
        path: Some("other.css".to_string()),
        inline: None,
        url: Some("https://example.com/far.css".to_string()),
    };
    assert_eq!(
        two.file_request_for(true),
        Some(FileRequest { path: "other.css".to_string(), in_config_dir: true })
    );
    assert_eq!(two.resolve(&FileRead::Contents(SPACED_CSS.to_string())), Ok(MINIFIED_CSS.to_string()));
}

#[test]
fn minify_outcome_maps_both_outcomes() {
    assert_eq!(Theme::minify_outcome(Ok("a{}".to_string())), Ok("a{}".to_string()));
    assert_eq!(
        Theme::minify_outcome(Err("Unclosed string")),
        Err(RenderError::ThemeMinify("Unclosed string".to_string()))
    );
}

#[test]
fn clone_keeps_every_field() {
    let theme = Theme {
        name: "all".to_string(),
        path: Some("other.css".to_string()),
        inline: Some("a{}".to_string()),
        url: Some("https://example.com/far.css".to_string()),
    };
    assert_eq!(theme.clone(), theme);
    assert_eq!(bare_theme("none").clone(), bare_theme("none"));
}

#[test]
fn builtin_registry_has_four_inline_themes_in_order() {
    let themes = Themes::builtin("a{}", "m{}", "r{}", "s{}");
    assert_eq!(
        themes.themes,
        vec![
            inline_theme("air", "a{}"),
            inline_theme("modest", "m{}"),
            inline_theme("retro", "r{}"),
            inline_theme("splendor", "s{}"),
        ]
    );
}

#[test]
fn by_name_finds_each_builtin() {
    let themes = Themes::builtin("a{}", "m{}", "r{}", "s{}");
    assert_eq!(themes.by_name("air"), Some(inline_theme("air", "a{}")));
    assert_eq!(themes.by_name("modest"), Some(inline_theme("modest", "m{}")));
    assert_eq!(themes.by_name("retro"), Some(inline_theme("retro", "r{}")));
    assert_eq!(themes.by_name("splendor"), Some(inline_theme("splendor", "s{}")));
}

#[test]
fn by_name_of_unknown_name_is_none() {
    let themes = Themes::builtin("a{}", "m{}", "r{}", "s{}");
    assert_eq!(themes.by_name("solarized"), None);
    assert_eq!(themes.by_name(""), None);
    assert_eq!(themes.by_name("Air"), None);
    assert_eq!(Themes { themes: vec![] }.by_name("air"), None);
}

#[test]
fn by_name_returns_the_first_match() {
    let builtin = Themes { themes: vec![inline_theme("A", "a{}"), inline_theme("B", "b{}")] };
    let user = UserThemes::Parsed(vec![path_theme("A", "override.css")]);
    let all = available_themes(builtin, user).unwrap();
    assert_eq!(all.themes.len(), 3);
    assert_eq!(all.by_name("A"), Some(inline_theme("A", "a{}")));
    assert_eq!(all.by_name("B"), Some(inline_theme("B", "b{}")));
}

#[test]
fn by_name_finds_a_user_theme_with_a_new_name() {
    let builtin = Themes::builtin("a{}", "m{}", "r{}", "s{}");
    let user = UserThemes::Parsed(vec![path_theme("mine", "mine.css"), url_theme("far", "u")]);
    let all = available_themes(builtin, user).unwrap();
    assert_eq!(all.by_name("mine"), Some(path_theme("mine", "mine.css")));
    assert_eq!(all.by_name("far"), Some(url_theme("far", "u")));
    assert_eq!(all.by_name("air"), Some(inline_theme("air", "a{}")));
}

#[test]
fn available_themes_without_configuration_are_the_builtin_ones() {
    let all = available_themes(Themes::builtin("a{}", "m{}", "r{}", "s{}"), UserThemes::Absent);
    assert_eq!(all.unwrap().themes, Themes::builtin("a{}", "m{}", "r{}", "s{}").themes);
}

#[test]
fn available_themes_appends_the_user_themes_in_order() {
    let builtin = Themes::builtin("a{}", "m{}", "r{}", "s{}");
    let user = UserThemes::Parsed(vec![path_theme("x", "x.css"), inline_theme("y", "y{}")]);
    let all = available_themes(builtin, user).unwrap();
    assert_eq!(
        all.themes,
        vec![
            inline_theme("air", "a{}"),
            inline_theme("modest", "m{}"),
            inline_theme("retro", "r{}"),
            inline_theme("splendor", "s{}"),
            path_theme("x", "x.css"),
            inline_theme("y", "y{}"),
        ]
    );
}

#[test]
fn available_themes_with_empty_configuration_are_the_builtin_ones() {
    let builtin = Themes::builtin("a{}", "m{}", "r{}", "s{}");
    let all = available_themes(builtin, UserThemes::Parsed(vec![])).unwrap();
    assert_eq!(all.themes.len(), 4);
}

#[test]
fn malformed_configuration_is_a_parse_failure() {
    let builtin = Themes::builtin("a{}", "m{}", "r{}", "s{}");
    let user = UserThemes::Malformed("expected `=`".to_string());
    match available_themes(builtin, user) {
        Err(error) => assert_eq!(error, RenderError::ConfigParse("expected `=`".to_string())),
        Ok(_) => panic!("a malformed configuration gave a registry"),
    }
}

#[test]
fn unreadable_configuration_is_an_io_failure() {
    let builtin = Themes::builtin("a{}", "m{}", "r{}", "s{}");
    let user = UserThemes::Unreadable("permission denied".to_string());
    match available_themes(builtin, user) {
        Err(error) => assert_eq!(error, RenderError::ThemeIo("permission denied".to_string())),
        Ok(_) => panic!("an unreadable configuration gave a registry"),
    }
}

#[test]
fn every_failure_has_its_message() {
    assert_eq!(RenderError::ThemeSourceMissing.message(), "theme source is not specified");
    assert_eq!(RenderError::ThemeIo("gone".to_string()).message(), "gone");
    assert_eq!(RenderError::ThemeUnimplemented.message(), "not implemented");
    assert_eq!(RenderError::ThemeMinify("Unclosed string".to_string()).message(), "Unclosed string");
    assert_eq!(RenderError::MarkdownCompile("1:1: bad".to_string()).message(), "1:1: bad");
    assert_eq!(RenderError::ConfigParse("expected `=`".to_string()).message(), "expected `=`");
}
