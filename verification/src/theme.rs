//! The colour scheme of the desktop: how it is spelled, how the answers of
//! the desktop's settings tools are read, and in which order they are asked.

use crate::icons::{
    lemma_recovered_label_of_tray_icon, recover_label, recovered_label, select_tray_icon,
    tray_icon_for, TrayIcon,
};
use crate::label::ConnectionLabel;
use crate::text::{contains, contains_text, lowercase_of, same_text, to_lowercase};
use vstd::prelude::*;

verus! {

/// A colour scheme.
#[derive(Clone, Copy, Debug, PartialEq, Eq, Structural)]
pub enum Theme {
    Light,
    Dark,
}

/// What a colour-scheme detector reports: a scheme, or no preference.
#[derive(Clone, Copy, Debug, PartialEq, Eq, Structural)]
pub enum ColorMode {
    Dark,
    Light,
    Default,
}

/// The theme computed at startup, resolved to light or dark.
#[derive(Clone, Copy, Debug)]
pub struct InitialTheme(pub Theme);

/// A place to ask for the desktop's colour scheme.
#[derive(Clone, Copy, Debug, PartialEq, Eq, Structural)]
pub enum ThemeSource {
    /// The `color-scheme` key of the desktop interface settings.
    ColorScheme,
    /// The `gtk-theme` key of the desktop interface settings.
    GtkTheme,
    /// The colour-scheme detector.
    Detector,
}

/// Where a theme lookup stands: another source has to be asked, or the
/// answer is in.
#[derive(Clone, Copy, Debug, PartialEq, Eq, Structural)]
pub enum ThemeProbe {
    Ask(ThemeSource),
    Settled(Option<Theme>),
}

impl Theme {
    /// The characters of the theme's name.
    pub open spec fn name_view(self) -> Seq<char> {
        match self {
            Theme::Light => "light"@,
            Theme::Dark => "dark"@,
        }
    }

    /// The theme's name, `light` or `dark`.
    pub fn name(self) -> (name: &'static str)
        ensures
            name@ == self.name_view(),
    {
        match self {
            Theme::Light => "light",
            Theme::Dark => "dark",
        }
    }

    /// The theme that a name stands for, if any.
    pub open spec fn of_name(name: Seq<char>) -> Option<Theme> {
        if name == "dark"@ {
            Some(Theme::Dark)
        } else if name == "light"@ {
            Some(Theme::Light)
        } else {
            None
        }
    }

    /// Reads a theme from its name. Any other text is no theme.
    pub fn from_name(name: &str) -> (theme: Option<Theme>)
        ensures
            theme == Self::of_name(name@),
    {
        if same_text(name, "dark") {
            Some(Theme::Dark)
        } else if same_text(name, "light") {
            Some(Theme::Light)
        } else {
            None
        }
    }
}

/// A theme is read back from its own name.
pub proof fn lemma_theme_name_round_trip(theme: Theme)
    ensures
        Theme::of_name(theme.name_view()) == Some(theme),
{
    reveal_strlit("light");
    reveal_strlit("dark");
    assert("light"@.len() == 5);
    assert("dark"@.len() == 4);
}

impl InitialTheme {
    /// Resolves the theme found at startup: dark where the desktop states
    /// no preference.
    pub fn resolve(detected: Option<Theme>) -> (initial: InitialTheme)
        ensures
            initial.0 == (match detected {
                Some(theme) => theme,
                None => Theme::Dark,
            }),
    {
        match detected {
            Some(theme) => InitialTheme(theme),
            None => InitialTheme(Theme::Dark),
        }
    }
}

/// The name of the theme computed at startup.
pub fn get_initial_theme(state: &InitialTheme) -> (name: String)
    ensures
        name@ == state.0.name_view(),
{
    state.0.name().to_owned()
}

/// The theme that a detector's report stands for.
pub open spec fn theme_of_mode(mode: ColorMode) -> Option<Theme> {
    match mode {
        ColorMode::Dark => Some(Theme::Dark),
        ColorMode::Light => Some(Theme::Light),
        ColorMode::Default => None,
    }
}

/// The theme that a `color-scheme` value or change notice names, if any.
pub open spec fn theme_of_color_scheme(text: Seq<char>) -> Option<Theme> {
    if contains_text(text, "prefer-dark"@) {
        Some(Theme::Dark)
    } else if contains_text(text, "prefer-light"@) {
        Some(Theme::Light)
    } else {
        None
    }
}

/// The theme that a lower-cased `gtk-theme` value names: dark if the name
/// says so, light otherwise.
pub open spec fn theme_of_lowered_gtk_theme(lowered: Seq<char>) -> Theme {
    if contains_text(lowered, "dark"@) {
        Theme::Dark
    } else {
        Theme::Light
    }
}

/// The theme that a `gtk-theme` change notice names; an empty line names
/// none. `lowered` is the lower-cased line.
pub open spec fn theme_of_gtk_theme_line(line: Seq<char>, lowered: Seq<char>) -> Option<Theme> {
    if contains_text(lowered, "dark"@) {
        Some(Theme::Dark)
    } else if line.len() != 0 {
        Some(Theme::Light)
    } else {
        None
    }
}

/// The source to ask first: the desktop settings where the platform has
/// them, the detector elsewhere.
pub fn first_theme_source(has_desktop_settings: bool) -> (source: ThemeSource)
    ensures
        source == (if has_desktop_settings {
            ThemeSource::ColorScheme
        } else {
            ThemeSource::Detector
        }),
{
    if has_desktop_settings {
        ThemeSource::ColorScheme
    } else {
        ThemeSource::Detector
    }
}

/// Reads a `color-scheme` value or change notice.
pub fn theme_from_color_scheme(text: &str) -> (theme: Option<Theme>)
    ensures
        theme == theme_of_color_scheme(text@),
{
    if contains(text, "prefer-dark") {
        Some(Theme::Dark)
    } else if contains(text, "prefer-light") {
        Some(Theme::Light)
    } else {
        None
    }
}

/// Where the lookup stands after the `color-scheme` query, `None` if the
/// query failed. A failed query sends the lookup to the detector; an answer
/// that names no scheme sends it on to the `gtk-theme` key.
pub open spec fn color_scheme_step(output: Option<&str>) -> ThemeProbe {
    match output {
        None => ThemeProbe::Ask(ThemeSource::Detector),
        Some(text) => match theme_of_color_scheme(text@) {
            Some(theme) => ThemeProbe::Settled(Some(theme)),
            None => ThemeProbe::Ask(ThemeSource::GtkTheme),
        },
    }
}

/// Where the lookup stands after the `gtk-theme` query, `None` if the query
/// failed. A failed query sends the lookup to the detector; any answer
/// settles it.
pub open spec fn gtk_theme_step(output: Option<&str>) -> ThemeProbe {
    match output {
        None => ThemeProbe::Ask(ThemeSource::Detector),
        Some(text) => ThemeProbe::Settled(Some(theme_of_lowered_gtk_theme(lowercase_of(text@)))),
    }
}

/// Takes the answer to the `color-scheme` query, `None` if the query failed.
pub fn after_color_scheme(output: Option<&str>) -> (probe: ThemeProbe)
    ensures
        probe == color_scheme_step(output),
{
    match output {
        None => ThemeProbe::Ask(ThemeSource::Detector),
        Some(text) => match theme_from_color_scheme(text) {
            Some(theme) => ThemeProbe::Settled(Some(theme)),
            None => ThemeProbe::Ask(ThemeSource::GtkTheme),
        },
    }
}

/// Reads a `gtk-theme` value that has been lower-cased.
pub fn theme_from_lowered_gtk_theme(lowered: &str) -> (theme: Theme)
    ensures
        theme == theme_of_lowered_gtk_theme(lowered@),
{
    if contains(lowered, "dark") {
        Theme::Dark
    } else {
        Theme::Light
    }
}

/// Takes the answer to the `gtk-theme` query, `None` if the query failed.
pub fn after_gtk_theme(output: Option<&str>) -> (probe: ThemeProbe)
    ensures
        probe == gtk_theme_step(output),
{
    match output {
        None => ThemeProbe::Ask(ThemeSource::Detector),
        Some(text) => {
            let lowered = to_lowercase(text);
            ThemeProbe::Settled(Some(theme_from_lowered_gtk_theme(lowered.as_str())))
        },
    }
}

/// Takes the detector's report, which settles the lookup.
pub fn after_detector(mode: ColorMode) -> (theme: Option<Theme>)
    ensures
        theme == theme_of_mode(mode),
{
    match mode {
        ColorMode::Dark => Some(Theme::Dark),
        ColorMode::Light => Some(Theme::Light),
        ColorMode::Default => None,
    }
}

/// Reads one line of the `gtk-theme` monitor, given the line and its
/// lower-cased form.
pub fn theme_from_gtk_theme_line(line: &str, lowered: &str) -> (theme: Option<Theme>)
    ensures
        theme == theme_of_gtk_theme_line(line@, lowered@),
{
    if contains(lowered, "dark") {
        Some(Theme::Dark)
    } else if !line.is_empty() {
        Some(Theme::Light)
    } else {
        None
    }
}

/// Reads one line of the `gtk-theme` monitor.
pub fn gtk_theme_changed(line: &str) -> (theme: Option<Theme>)
    ensures
        theme == theme_of_gtk_theme_line(line@, lowercase_of(line@)),
{
    let lowered = to_lowercase(line);
    theme_from_gtk_theme_line(line, lowered.as_str())
}

/// The place of a source in the order of the lookup.
pub open spec fn source_rank(source: ThemeSource) -> nat {
    match source {
        ThemeSource::ColorScheme => 0,
        ThemeSource::GtkTheme => 1,
        ThemeSource::Detector => 2,
    }
}

/// The lookup never goes back: an answer settles it or sends it to a later
/// source, and the detector, the last source, always settles it. So it asks
/// at most three times.
pub proof fn lemma_lookup_moves_forward(output: Option<&str>)
    ensures
        color_scheme_step(output) matches ThemeProbe::Ask(next) ==> source_rank(next)
            > source_rank(ThemeSource::ColorScheme),
        gtk_theme_step(output) matches ThemeProbe::Ask(next) ==> source_rank(next) > source_rank(
            ThemeSource::GtkTheme,
        ),
        forall|source: ThemeSource| #[trigger]
            source_rank(source) <= source_rank(ThemeSource::Detector),
{
}

/// Reacts to a change of theme: reads the label back from the tray icon
/// shown, and shows the icon for that label under the new theme. `theme` is
/// the new theme by name; any other text stands for an unknown theme.
/// Returns the icon to draw, or `None` if the tray shows it already. Without
/// the record (`None`) the label counts as `Disconnected`.
pub fn theme_changed(current_icon: Option<&mut String>, theme: &str, auto_recolor: bool) -> (redraw:
    Option<TrayIcon>)
    ensures
        current_icon is None ==> redraw == Some(
            tray_icon_for(ConnectionLabel::Disconnected, Theme::of_name(theme@), auto_recolor),
        ),
        current_icon matches Some(shown) ==> ({
            let icon = tray_icon_for(
                recovered_label(shown@),
                Theme::of_name(theme@),
                auto_recolor,
            );
            &&& final(shown)@ == icon.file_name_view()
            &&& redraw == icon.redraw_over(shown@)
        }),
{
    let new_theme = Theme::from_name(theme);
    match current_icon {
        Some(shown) => {
            let label = recover_label(shown.as_str());
            select_tray_icon(label, new_theme, auto_recolor).apply_if_changed(Some(shown))
        },
        None => select_tray_icon(
            ConnectionLabel::Disconnected,
            new_theme,
            auto_recolor,
        ).apply_if_changed(None),
    }
}

/// A change of theme recolours the tray icon and nothing else: showing a
/// label's icon, reading the label back from it and showing that under
/// another theme gives the icon that the label itself has under that theme.
pub proof fn lemma_theme_change_on_catalog_icon(
    label: ConnectionLabel,
    theme: Option<Theme>,
    new_theme: Option<Theme>,
    auto_recolor: bool,
)
    ensures
        tray_icon_for(
            recovered_label(tray_icon_for(label, theme, auto_recolor).file_name_view()),
            new_theme,
            auto_recolor,
        ) == tray_icon_for(label, new_theme, auto_recolor),
{
    lemma_recovered_label_of_tray_icon(tray_icon_for(label, theme, auto_recolor));
}

} // verus!
