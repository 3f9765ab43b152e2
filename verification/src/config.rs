//! The environment of the application: color themes and where the
//! configuration file is looked for.
//!
//! Colors and styles here have the meaning of the terminal UI library's: a
//! style sets a foreground and a background color, and adds or removes text
//! modifiers, given as bits.

use vstd::prelude::*;

use crate::error::Error;
use crate::text::string_of;

verus! {

/// A terminal color.
#[derive(Clone, Copy, Debug, PartialEq, Eq, Structural)]
pub enum Color {
    Reset,
    Black,
    Red,
    Green,
    Yellow,
    Blue,
    Magenta,
    Cyan,
    Gray,
    DarkGray,
    LightRed,
    LightGreen,
    LightYellow,
    LightBlue,
    LightMagenta,
    LightCyan,
    White,
    Rgb(u8, u8, u8),
    Indexed(u8),
}

/// Bold text.
pub const BOLD: u16 = 0x0001;

/// Text with foreground and background swapped.
pub const REVERSED: u16 = 0x0040;

/// How text is drawn: colors that are set, and modifiers that are added or removed.
#[derive(Clone, Copy, Debug, PartialEq, Eq, Structural)]
pub struct Style {
    pub fg: Option<Color>,
    pub bg: Option<Color>,
    pub add_modifier: u16,
    pub sub_modifier: u16,
}

/// `s` with the modifier bits added to those it adds and taken from those it removes.
pub open spec fn with_modifier(s: Style, modifier: u16) -> Style {
    Style { add_modifier: s.add_modifier | modifier, sub_modifier: s.sub_modifier & !modifier, ..s }
}

impl Style {
    /// A style that sets nothing.
    pub fn new() -> (r: Style)
        ensures
            r == (Style { fg: None, bg: None, add_modifier: 0, sub_modifier: 0 }),
    {
        Style { fg: None, bg: None, add_modifier: 0, sub_modifier: 0 }
    }

    /// This style with the foreground color set.
    pub fn fg(self, color: Color) -> (r: Style)
        ensures
            r == (Style { fg: Some(color), ..self }),
    {
        Style { fg: Some(color), ..self }
    }

    /// This style with the background color set.
    pub fn bg(self, color: Color) -> (r: Style)
        ensures
            r == (Style { bg: Some(color), ..self }),
    {
        Style { bg: Some(color), ..self }
    }

    /// This style with the modifiers added (and no longer removed).
    pub fn add_modifier(self, modifier: u16) -> (r: Style)
        ensures
            r == with_modifier(self, modifier),
    {
        Style {
            add_modifier: self.add_modifier | modifier,
            sub_modifier: self.sub_modifier & !modifier,
            ..self
        }
    }
}

/// A pair of background and foreground colors, each one optional.
#[derive(Clone, Copy, Debug, PartialEq, Eq, Structural)]
pub struct ColorPair {
    /// The background color.
    pub bg: Option<Color>,
    /// The foreground color.
    pub fg: Option<Color>,
}

/// Colors and other TUI style settings.
#[derive(Clone, Copy, Debug, PartialEq, Eq, Structural)]
pub struct Theme {
    /// The default colors, for general content/text.
    pub default: ColorPair,
    /// Colors for important content.
    pub highlight: ColorPair,
    /// Colors for block/box borders.
    pub border: ColorPair,
    /// Colors for block/box borders around important content.
    pub border_highlight: ColorPair,
    /// Text and border colors for error reporting.
    pub error: ColorPair,
}

/// Configures the environment of the application.
#[derive(Clone, Copy, Debug, PartialEq, Eq, Structural)]
pub struct Config {
    /// Colors and other TUI style settings.
    pub theme: Theme,
}

/// The color of an optional setting, or the fallback.
pub open spec fn color_or(c: Option<Color>, fallback: Color) -> Color {
    match c {
        Some(x) => x,
        None => fallback,
    }
}

/// The style that sets the colors of a pair, with fallbacks for unset ones.
pub open spec fn pair_style(pair: ColorPair, bg: Color, fg: Color) -> Style {
    Style { fg: Some(color_or(pair.fg, fg)), bg: Some(color_or(pair.bg, bg)), add_modifier: 0, sub_modifier: 0 }
}

/// The style of general content: light yellow on black unless configured.
pub open spec fn default_style(t: Theme) -> Style {
    pair_style(t.default, Color::Black, Color::LightYellow)
}

/// The style of important content: black on light yellow unless configured.
pub open spec fn highlight_style(t: Theme) -> Style {
    pair_style(t.highlight, Color::LightYellow, Color::Black)
}

/// The style of borders: light cyan on black unless configured.
pub open spec fn border_style(t: Theme) -> Style {
    pair_style(t.border, Color::Black, Color::LightCyan)
}

/// The style of borders around important content: cyan on light yellow unless configured.
pub open spec fn border_highlight_style(t: Theme) -> Style {
    pair_style(t.border_highlight, Color::LightYellow, Color::Cyan)
}

/// The style of error reports: light red on light yellow unless configured.
pub open spec fn error_style(t: Theme) -> Style {
    pair_style(t.error, Color::LightYellow, Color::LightRed)
}

/// The color of an optional setting, or the fallback.
fn color_or_else(c: Option<Color>, fallback: Color) -> (r: Color)
    ensures
        r == color_or(c, fallback),
{
    match c {
        Some(x) => x,
        None => fallback,
    }
}

/// The style that sets the colors of a pair, with fallbacks for unset ones.
fn style_of(pair: ColorPair, bg: Color, fg: Color) -> (r: Style)
    ensures
        r == pair_style(pair, bg, fg),
{
    Style::new().bg(color_or_else(pair.bg, bg)).fg(color_or_else(pair.fg, fg))
}

impl ColorPair {
    /// A pair that sets no color.
    pub fn unset() -> (r: ColorPair)
        ensures
            r == (ColorPair { bg: None, fg: None }),
    {
        ColorPair { bg: None, fg: None }
    }
}

impl Theme {
    /// The theme that sets no color: every style falls back to the built-in colors.
    pub fn builtin() -> (r: Theme)
        ensures
            r == Theme::builtin_spec(),
    {
        Theme {
            default: ColorPair::unset(),
            highlight: ColorPair::unset(),
            border: ColorPair::unset(),
            border_highlight: ColorPair::unset(),
            error: ColorPair::unset(),
        }
    }

    /// The style of general content: light yellow on black unless configured.
    pub fn default(&self) -> (r: Style)
        ensures
            r == default_style(*self),
    {
        style_of(self.default, Color::Black, Color::LightYellow)
    }

    /// The style of important content: black on light yellow unless configured.
    pub fn highlight(&self) -> (r: Style)
        ensures
            r == highlight_style(*self),
    {
        style_of(self.highlight, Color::LightYellow, Color::Black)
    }

    /// The style of borders: light cyan on black unless configured.
    pub fn border(&self) -> (r: Style)
        ensures
            r == border_style(*self),
    {
        style_of(self.border, Color::Black, Color::LightCyan)
    }

    /// The style of borders around important content: cyan on light yellow
    /// unless configured.
    pub fn border_highlight(&self) -> (r: Style)
        ensures
            r == border_highlight_style(*self),
    {
        style_of(self.border_highlight, Color::LightYellow, Color::Cyan)
    }

    /// The style of error reports: light red on light yellow unless configured.
    pub fn error(&self) -> (r: Style)
        ensures
            r == error_style(*self),
    {
        style_of(self.error, Color::LightYellow, Color::LightRed)
    }
}

impl Config {
    /// The built-in configuration, used when no configuration file is found.
    pub fn builtin() -> (r: Config)
        ensures
            r.theme == Theme::builtin_spec(),
    {
        Config { theme: Theme::builtin() }
    }
}

impl Theme {
    /// The theme that sets no color.
    pub open spec fn builtin_spec() -> Theme {
        Theme {
            default: ColorPair { bg: None, fg: None },
            highlight: ColorPair { bg: None, fg: None },
            border: ColorPair { bg: None, fg: None },
            border_highlight: ColorPair { bg: None, fg: None },
            error: ColorPair { bg: None, fg: None },
        }
    }
}

/// What came of trying to open a candidate configuration file.
#[derive(Debug)]
pub enum OpenOutcome {
    /// The file was opened.
    Opened,
    /// There is no such file.
    NotFound,
    /// The file may not be read.
    PermissionDenied,
    /// Opening failed otherwise; the text says why.
    Failed(String),
}

/// Whether a candidate configuration file is there to be read: a missing or
/// unreadable file is passed over, any other failure is an error.
pub fn open_file_if_exists(outcome: OpenOutcome) -> (r: Result<bool, Error>)
    ensures
        match outcome {
            OpenOutcome::Opened => r == Ok::<bool, Error>(true),
            OpenOutcome::NotFound | OpenOutcome::PermissionDenied => r == Ok::<bool, Error>(false),
            OpenOutcome::Failed(m) => r matches Err(Error::Context { message, source })
                && message@ == "Found .steelsaferc but cannot open"@ && source == m,
        },
{
    match outcome {
        OpenOutcome::Opened => Ok(true),
        OpenOutcome::NotFound => Ok(false),
        OpenOutcome::PermissionDenied => Ok(false),
        OpenOutcome::Failed(m) => Err(Error::context(m, string_of("Found .steelsaferc but cannot open"))),
    }
}

/// The configuration read from a file that was found: a file that does not
/// parse is an error, never passed over.
pub fn config_from_parsed(parsed: Result<Config, String>) -> (r: Result<Config, Error>)
    ensures
        match parsed {
            Ok(c) => r == Ok::<Config, Error>(c),
            Err(m) => r matches Err(Error::Context { message, source })
                && message@ == "Invalid .steelsaferc"@ && source == m,
        },
{
    match parsed {
        Ok(c) => Ok(c),
        Err(m) => Err(Error::context(m, string_of("Invalid .steelsaferc"))),
    }
}

impl Default for ColorPair {
    /// A pair that sets no color.
    fn default() -> (r: ColorPair)
        ensures
            r == (ColorPair { bg: None, fg: None }),
    {
        ColorPair::unset()
    }
}

impl Default for Config {
    /// The built-in configuration.
    fn default() -> (r: Config)
        ensures
            r.theme == Theme::builtin_spec(),
    {
        Config::builtin()
    }
}

/// Where a configuration file is looked for.
#[derive(Clone, Copy, Debug, PartialEq, Eq, Structural)]
pub enum RcLocation {
    /// `.steelsaferc` in the application's configuration directory.
    ConfigDir,
    /// `.steelsaferc` in the home directory.
    HomeDir,
}

/// The next step of looking for the configuration.
#[derive(Debug)]
pub enum RcStep {
    /// Try to open the file at this location.
    Open(RcLocation),
    /// Read the file that was opened at this location; its configuration is
    /// the result, or its parse error (see [`config_from_parsed`]).
    Read(RcLocation),
    /// No file was found: use the built-in configuration.
    BuiltIn,
    /// Give up with this error.
    Fail(Error),
}

/// Where the search starts: the configuration directory when it is known,
/// else the home directory when it is known, else the built-in configuration.
pub open spec fn rc_first(config_dir_known: bool, home_known: bool) -> RcStep {
    if config_dir_known {
        RcStep::Open(RcLocation::ConfigDir)
    } else if home_known {
        RcStep::Open(RcLocation::HomeDir)
    } else {
        RcStep::BuiltIn
    }
}

/// The first step of the search for the configuration file.
pub fn rc_search_start(config_dir_known: bool, home_known: bool) -> (r: RcStep)
    ensures
        r == rc_first(config_dir_known, home_known),
{
    if config_dir_known {
        RcStep::Open(RcLocation::ConfigDir)
    } else if home_known {
        RcStep::Open(RcLocation::HomeDir)
    } else {
        RcStep::BuiltIn
    }
}

/// The step after trying to open the file at `at`: a file that was opened is
/// read; a missing or unreadable file in the configuration directory passes
/// the search on to the home directory when it is known, and one in the home
/// directory ends it with the built-in configuration; any other failure to
/// open is an error.
pub fn rc_search_after_open(at: RcLocation, outcome: OpenOutcome, home_known: bool) -> (r: RcStep)
    ensures
        match outcome {
            OpenOutcome::Opened => r == RcStep::Read(at),
            OpenOutcome::NotFound | OpenOutcome::PermissionDenied => r == (
            if at == RcLocation::ConfigDir && home_known {
                RcStep::Open(RcLocation::HomeDir)
            } else {
                RcStep::BuiltIn
            }),
            OpenOutcome::Failed(m) => r matches RcStep::Fail(Error::Context { message, source })
                && message@ == "Found .steelsaferc but cannot open"@ && source == m,
        },
{
    match open_file_if_exists(outcome) {
        Err(e) => RcStep::Fail(e),
        Ok(true) => RcStep::Read(at),
        Ok(false) => match at {
            RcLocation::ConfigDir => if home_known {
                RcStep::Open(RcLocation::HomeDir)
            } else {
                RcStep::BuiltIn
            },
            RcLocation::HomeDir => RcStep::BuiltIn,
        },
    }
}

/// Each style of a theme takes the colors configured for its own pair, and
/// falls back to its built-in color for each one that is not configured; it
/// adds and removes no modifier. The other pairs play no part.
pub proof fn lemma_theme_styles_use_their_own_pair(t: Theme)
    ensures
        default_style(t) == (Style {
            fg: Some(if let Some(c) = t.default.fg { c } else { Color::LightYellow }),
            bg: Some(if let Some(c) = t.default.bg { c } else { Color::Black }),
            add_modifier: 0,
            sub_modifier: 0,
        }),
        highlight_style(t) == (Style {
            fg: Some(if let Some(c) = t.highlight.fg { c } else { Color::Black }),
            bg: Some(if let Some(c) = t.highlight.bg { c } else { Color::LightYellow }),
            add_modifier: 0,
            sub_modifier: 0,
        }),
        border_style(t) == (Style {
            fg: Some(if let Some(c) = t.border.fg { c } else { Color::LightCyan }),
            bg: Some(if let Some(c) = t.border.bg { c } else { Color::Black }),
            add_modifier: 0,
            sub_modifier: 0,
        }),
        border_highlight_style(t) == (Style {
            fg: Some(if let Some(c) = t.border_highlight.fg { c } else { Color::Cyan }),
            bg: Some(if let Some(c) = t.border_highlight.bg { c } else { Color::LightYellow }),
            add_modifier: 0,
            sub_modifier: 0,
        }),
        error_style(t) == (Style {
            fg: Some(if let Some(c) = t.error.fg { c } else { Color::LightRed }),
            bg: Some(if let Some(c) = t.error.bg { c } else { Color::LightYellow }),
            add_modifier: 0,
            sub_modifier: 0,
        }),
{
}

/// Two themes that agree on a pair give the same style for that pair,
/// whatever their other pairs hold.
pub proof fn lemma_theme_style_depends_on_its_pair_only(t1: Theme, t2: Theme)
    ensures
        t1.default == t2.default ==> default_style(t1) == default_style(t2),
        t1.highlight == t2.highlight ==> highlight_style(t1) == highlight_style(t2),
        t1.border == t2.border ==> border_style(t1) == border_style(t2),
        t1.border_highlight == t2.border_highlight ==> border_highlight_style(t1)
            == border_highlight_style(t2),
        t1.error == t2.error ==> error_style(t1) == error_style(t2),
{
    lemma_theme_styles_use_their_own_pair(t1);
    lemma_theme_styles_use_their_own_pair(t2);
}

} // verus!
