//! The icon catalog, the rules that pick an icon for each surface, and the
//! record of what each surface shows.
//!
//! A surface's record is a `String` holding the file name of the icon last
//! applied. The caller guards it; the operations here take it as
//! `Option<&mut String>`, where `None` says that the guard could not be had.
//! They then fail open: the candidate counts as changed, so that the surface
//! is drawn again rather than left stale.

use crate::label::{
    aggregate_label, derive_status, destination_labels, has_low_funds,
    lemma_order_keeps_the_kind, low_funds_in, ConnectionLabel,
};
use crate::status::{RunMode, StatusResponse};
use crate::text::{contains, contains_text, occurs_at};
use crate::theme::Theme;
use vstd::prelude::*;

verus! {

pub const APP_ICON_CONNECTED: &'static str = "app-icon-connected.png";

pub const APP_ICON_CONNECTED_LOW_FUNDS: &'static str = "app-icon-connected-low-funds.png";

pub const APP_ICON_CONNECTING_1: &'static str = "app-icon-connecting-1.png";

pub const APP_ICON_CONNECTING_2: &'static str = "app-icon-connecting-2.png";

pub const APP_ICON_DISCONNECTED: &'static str = "app-icon-disconnected.png";

pub const APP_ICON_DISCONNECTED_LOW_FUNDS: &'static str = "app-icon-disconnected-low-funds.png";

pub const TRAY_ICON_CONNECTED: &'static str = "tray-icons/tray-icon-connected.png";

pub const TRAY_ICON_CONNECTED_BLACK: &'static str = "tray-icons/tray-icon-connected-black.png";

pub const TRAY_ICON_CONNECTING: &'static str = "tray-icons/tray-icon-connecting.png";

pub const TRAY_ICON_CONNECTING_BLACK: &'static str = "tray-icons/tray-icon-connecting-black.png";

pub const TRAY_ICON_DISCONNECTED: &'static str = "tray-icons/tray-icon-disconnected.png";

pub const TRAY_ICON_DISCONNECTED_BLACK: &'static str =
    "tray-icons/tray-icon-disconnected-black.png";

/// An icon of the application surface.
#[derive(Clone, Copy, Debug, PartialEq, Eq, Structural)]
pub enum AppIcon {
    Connected,
    ConnectedLowFunds,
    /// First frame of the blinking animation.
    Connecting1,
    /// Second frame of the blinking animation.
    Connecting2,
    Disconnected,
    DisconnectedLowFunds,
}

/// An icon of the tray surface. The black icons are for light themes.
#[derive(Clone, Copy, Debug, PartialEq, Eq, Structural)]
pub enum TrayIcon {
    Connected,
    ConnectedBlack,
    Connecting,
    ConnectingBlack,
    Disconnected,
    DisconnectedBlack,
}

/// What the tray surface shows.
#[derive(Clone, Debug)]
pub struct TrayIconState {
    pub current_icon: String,
}

/// What the application surface shows, and where its animation stands.
#[derive(Clone, Debug)]
pub struct AppIconState {
    /// Which frame the heartbeat showed last: the second if set, the first
    /// if not. Each tick of the animation flips it.
    pub animation_toggle: bool,
    /// Whether the icon blinks.
    pub is_animating: bool,
    pub current_icon: String,
}

/// The icons to draw after an update, one per surface; `None` where the
/// surface already shows the right icon.
#[derive(Clone, Copy, Debug, PartialEq, Eq, Structural)]
pub struct IconRedraws {
    pub tray: Option<TrayIcon>,
    pub app: Option<AppIcon>,
}

impl AppIcon {
    /// The characters of the icon's file name.
    pub open spec fn file_name_view(self) -> Seq<char> {
        match self {
            AppIcon::Connected => APP_ICON_CONNECTED@,
            AppIcon::ConnectedLowFunds => APP_ICON_CONNECTED_LOW_FUNDS@,
            AppIcon::Connecting1 => APP_ICON_CONNECTING_1@,
            AppIcon::Connecting2 => APP_ICON_CONNECTING_2@,
            AppIcon::Disconnected => APP_ICON_DISCONNECTED@,
            AppIcon::DisconnectedLowFunds => APP_ICON_DISCONNECTED_LOW_FUNDS@,
        }
    }

    /// The icon's file name in the catalog.
    pub fn file_name(self) -> (name: &'static str)
        ensures
            name@ == self.file_name_view(),
    {
        match self {
            AppIcon::Connected => APP_ICON_CONNECTED,
            AppIcon::ConnectedLowFunds => APP_ICON_CONNECTED_LOW_FUNDS,
            AppIcon::Connecting1 => APP_ICON_CONNECTING_1,
            AppIcon::Connecting2 => APP_ICON_CONNECTING_2,
            AppIcon::Disconnected => APP_ICON_DISCONNECTED,
            AppIcon::DisconnectedLowFunds => APP_ICON_DISCONNECTED_LOW_FUNDS,
        }
    }

    /// What has to be drawn when this icon is applied to a surface that
    /// shows the icon named `shown`: the icon itself, unless it is shown
    /// already.
    pub open spec fn redraw_over(self, shown: Seq<char>) -> Option<AppIcon> {
        if apply_candidate(shown, self.file_name_view()).1 {
            Some(self)
        } else {
            None
        }
    }

    /// Makes this icon the one shown, and says whether it has to be drawn.
    pub fn apply_if_changed(self, current_icon: Option<&mut String>) -> (redraw: Option<AppIcon>)
        ensures
            current_icon is None ==> redraw == Some(self),
            current_icon matches Some(shown) ==> {
                &&& final(shown)@ == self.file_name_view()
                &&& redraw == self.redraw_over(shown@)
            },
    {
        if update_icon_name_if_changed(current_icon, self.file_name()) {
            Some(self)
        } else {
            None
        }
    }
}

impl TrayIcon {
    /// The characters of the icon's file name.
    pub open spec fn file_name_view(self) -> Seq<char> {
        match self {
            TrayIcon::Connected => TRAY_ICON_CONNECTED@,
            TrayIcon::ConnectedBlack => TRAY_ICON_CONNECTED_BLACK@,
            TrayIcon::Connecting => TRAY_ICON_CONNECTING@,
            TrayIcon::ConnectingBlack => TRAY_ICON_CONNECTING_BLACK@,
            TrayIcon::Disconnected => TRAY_ICON_DISCONNECTED@,
            TrayIcon::DisconnectedBlack => TRAY_ICON_DISCONNECTED_BLACK@,
        }
    }

    /// The icon's file name in the catalog.
    pub fn file_name(self) -> (name: &'static str)
        ensures
            name@ == self.file_name_view(),
    {
        match self {
            TrayIcon::Connected => TRAY_ICON_CONNECTED,
            TrayIcon::ConnectedBlack => TRAY_ICON_CONNECTED_BLACK,
            TrayIcon::Connecting => TRAY_ICON_CONNECTING,
            TrayIcon::ConnectingBlack => TRAY_ICON_CONNECTING_BLACK,
            TrayIcon::Disconnected => TRAY_ICON_DISCONNECTED,
            TrayIcon::DisconnectedBlack => TRAY_ICON_DISCONNECTED_BLACK,
        }
    }

    /// What has to be drawn when this icon is applied to a surface that
    /// shows the icon named `shown`: the icon itself, unless it is shown
    /// already.
    pub open spec fn redraw_over(self, shown: Seq<char>) -> Option<TrayIcon> {
        if apply_candidate(shown, self.file_name_view()).1 {
            Some(self)
        } else {
            None
        }
    }

    /// Makes this icon the one shown, and says whether it has to be drawn.
    pub fn apply_if_changed(self, current_icon: Option<&mut String>) -> (redraw: Option<TrayIcon>)
        ensures
            current_icon is None ==> redraw == Some(self),
            current_icon matches Some(shown) ==> {
                &&& final(shown)@ == self.file_name_view()
                &&& redraw == self.redraw_over(shown@)
            },
    {
        if update_icon_name_if_changed(current_icon, self.file_name()) {
            Some(self)
        } else {
            None
        }
    }
}

impl TrayIconState {
    /// A tray surface that shows `icon`.
    pub fn new(icon: TrayIcon) -> (state: TrayIconState)
        ensures
            state.current_icon@ == icon.file_name_view(),
    {
        TrayIconState { current_icon: icon.file_name().to_owned() }
    }
}

impl AppIconState {
    /// The application surface at startup: the disconnected icon, at rest.
    pub fn new() -> (state: AppIconState)
        ensures
            !state.animation_toggle,
            !state.is_animating,
            state.current_icon@ == AppIcon::Disconnected.file_name_view(),
    {
        AppIconState {
            animation_toggle: false,
            is_animating: false,
            current_icon: AppIcon::Disconnected.file_name().to_owned(),
        }
    }
}

/// What applying `candidate` does to a surface that shows `current`: the
/// name shown afterwards, and whether the surface has to be drawn.
pub open spec fn apply_candidate(current: Seq<char>, candidate: Seq<char>) -> (Seq<char>, bool) {
    (candidate, current != candidate)
}

/// Records `next` as the icon shown and says whether that changed anything.
/// Without the record (`None`) nothing is written and the answer is `true`.
pub fn update_icon_name_if_changed(current: Option<&mut String>, next: &str) -> (changed: bool)
    ensures
        current is None ==> changed,
        current matches Some(shown) ==> (final(shown)@, changed) == apply_candidate(
            shown@,
            next@,
        ),
{
    match current {
        Some(shown) => {
            let candidate = next.to_owned();
            if *shown == candidate {
                false
            } else {
                *shown = candidate;
                true
            }
        },
        None => true,
    }
}

/// The application icon for a label and a low-funds flag. While a
/// connection is in transition the icon is the first animation frame.
pub open spec fn app_icon_for(label: ConnectionLabel, low_funds: bool) -> AppIcon {
    match label {
        ConnectionLabel::Connected => if low_funds {
            AppIcon::ConnectedLowFunds
        } else {
            AppIcon::Connected
        },
        ConnectionLabel::Connecting | ConnectionLabel::Disconnecting => AppIcon::Connecting1,
        ConnectionLabel::Disconnected => if low_funds {
            AppIcon::DisconnectedLowFunds
        } else {
            AppIcon::Disconnected
        },
    }
}

/// Whether the tray takes the black icons: under a light theme, unless the
/// platform recolours tray icons by itself.
pub open spec fn uses_black_icons(theme: Option<Theme>, auto_recolor: bool) -> bool {
    !auto_recolor && theme == Some(Theme::Light)
}

/// The tray icon for a label under a theme. `auto_recolor` says that the
/// platform recolours tray icons by itself, so that the theme plays no part.
pub open spec fn tray_icon_for(
    label: ConnectionLabel,
    theme: Option<Theme>,
    auto_recolor: bool,
) -> TrayIcon {
    let black = uses_black_icons(theme, auto_recolor);
    match label {
        ConnectionLabel::Connected => if black {
            TrayIcon::ConnectedBlack
        } else {
            TrayIcon::Connected
        },
        ConnectionLabel::Connecting | ConnectionLabel::Disconnecting => if black {
            TrayIcon::ConnectingBlack
        } else {
            TrayIcon::Connecting
        },
        ConnectionLabel::Disconnected => if black {
            TrayIcon::DisconnectedBlack
        } else {
            TrayIcon::Disconnected
        },
    }
}

/// Picks the application icon.
pub fn select_app_icon(label: ConnectionLabel, low_funds: bool) -> (icon: AppIcon)
    ensures
        icon == app_icon_for(label, low_funds),
{
    match label {
        ConnectionLabel::Connected => if low_funds {
            AppIcon::ConnectedLowFunds
        } else {
            AppIcon::Connected
        },
        ConnectionLabel::Connecting | ConnectionLabel::Disconnecting => AppIcon::Connecting1,
        ConnectionLabel::Disconnected => if low_funds {
            AppIcon::DisconnectedLowFunds
        } else {
            AppIcon::Disconnected
        },
    }
}

/// Picks the tray icon.
pub fn select_tray_icon(label: ConnectionLabel, theme: Option<Theme>, auto_recolor: bool) -> (icon:
    TrayIcon)
    ensures
        icon == tray_icon_for(label, theme, auto_recolor),
{
    let black = !auto_recolor && match theme {
        Some(Theme::Light) => true,
        _ => false,
    };
    match label {
        ConnectionLabel::Connected => if black {
            TrayIcon::ConnectedBlack
        } else {
            TrayIcon::Connected
        },
        ConnectionLabel::Connecting | ConnectionLabel::Disconnecting => if black {
            TrayIcon::ConnectingBlack
        } else {
            TrayIcon::Connecting
        },
        ConnectionLabel::Disconnected => if black {
            TrayIcon::DisconnectedBlack
        } else {
            TrayIcon::Disconnected
        },
    }
}

/// The file name of the application icon for a label, given by name, and a
/// run mode.
pub fn determine_app_icon(connection_state: &str, run_mode: &RunMode) -> (name: String)
    ensures
        name@ == app_icon_for(
            ConnectionLabel::of_name(connection_state@),
            low_funds_in(*run_mode),
        ).file_name_view(),
{
    let label = ConnectionLabel::from_name(connection_state);
    select_app_icon(label, has_low_funds(run_mode)).file_name().to_owned()
}

/// The file name of the tray icon for a label, given by name, under a theme.
pub fn determine_tray_icon(connection_state: &str, theme: Option<Theme>, auto_recolor: bool) -> (name:
    &'static str)
    ensures
        name@ == tray_icon_for(
            ConnectionLabel::of_name(connection_state@),
            theme,
            auto_recolor,
        ).file_name_view(),
{
    select_tray_icon(ConnectionLabel::from_name(connection_state), theme, auto_recolor).file_name()
}

/// The label read back from an icon's file name: `Connecting` for a name
/// that holds `connecting`, `Connected` for one that holds `connected` and
/// is not a disconnected icon's, `Disconnected` for every other name.
/// `Connecting` stands for both transitional labels, which share their tray
/// icons.
pub open spec fn recovered_label(icon_name: Seq<char>) -> ConnectionLabel {
    if contains_text(icon_name, "connecting"@) {
        ConnectionLabel::Connecting
    } else if contains_text(icon_name, "connected"@) && !contains_text(
        icon_name,
        "disconnected"@,
    ) {
        ConnectionLabel::Connected
    } else {
        ConnectionLabel::Disconnected
    }
}

/// Reads the label back from an icon's file name.
pub fn recover_label(icon_name: &str) -> (label: ConnectionLabel)
    ensures
        label == recovered_label(icon_name@),
{
    if contains(icon_name, "connecting") {
        ConnectionLabel::Connecting
    } else if contains(icon_name, "connected") && !contains(icon_name, "disconnected") {
        ConnectionLabel::Connected
    } else {
        ConnectionLabel::Disconnected
    }
}

/// Reads the name of the label back from an icon's file name.
pub fn extract_connection_state_from_icon(icon_name: &str) -> (name: &'static str)
    ensures
        name@ == recovered_label(icon_name@).name_view(),
{
    recover_label(icon_name).name()
}

/// Shows the tray icon for a label, given by name, under a theme. Returns
/// the icon to draw, or `None` if the tray shows it already.
pub fn update_tray_icon(
    current_icon: Option<&mut String>,
    connection_state: &str,
    theme: Option<Theme>,
    auto_recolor: bool,
) -> (redraw: Option<TrayIcon>)
    ensures
        ({
            let icon = tray_icon_for(
                ConnectionLabel::of_name(connection_state@),
                theme,
                auto_recolor,
            );
            &&& current_icon is None ==> redraw == Some(icon)
            &&& current_icon matches Some(shown) ==> {
                &&& final(shown)@ == icon.file_name_view()
                &&& redraw == icon.redraw_over(shown@)
            }
        }),
{
    let label = ConnectionLabel::from_name(connection_state);
    select_tray_icon(label, theme, auto_recolor).apply_if_changed(current_icon)
}

/// Shows the application icon for a label and a low-funds flag, and starts
/// or stops the animation. Returns the icon to draw, or `None` if the
/// surface shows it already.
pub fn update_app_icon(
    current_icon: Option<&mut String>,
    is_animating: &mut bool,
    label: ConnectionLabel,
    low_funds: bool,
) -> (redraw: Option<AppIcon>)
    ensures
        *final(is_animating) == label.is_transitional(),
        current_icon is None ==> redraw == Some(app_icon_for(label, low_funds)),
        current_icon matches Some(shown) ==> {
            &&& final(shown)@ == app_icon_for(label, low_funds).file_name_view()
            &&& redraw == app_icon_for(label, low_funds).redraw_over(shown@)
        },
{
    *is_animating = label.animates();
    select_app_icon(label, low_funds).apply_if_changed(current_icon)
}

/// What a status query amounts to: the aggregate label and the low-funds
/// flag of the snapshot, or `Disconnected` without low funds if the query
/// failed.
pub open spec fn status_outcome(status: Option<&StatusResponse>) -> (ConnectionLabel, bool) {
    match status {
        Some(snapshot) => (
            aggregate_label(destination_labels(snapshot.destinations@)),
            low_funds_in(snapshot.run_mode),
        ),
        None => (ConnectionLabel::Disconnected, false),
    }
}

/// Brings both surfaces in line with the answer to a status query, `None`
/// if the query failed, and starts or stops the animation. A failed query
/// shows as disconnected on both surfaces.
pub fn apply_status(
    status: Option<&StatusResponse>,
    theme: Option<Theme>,
    auto_recolor: bool,
    tray_icon: Option<&mut String>,
    app_icon: Option<&mut String>,
    is_animating: &mut bool,
) -> (redraws: IconRedraws)
    ensures
        ({
            let (label, low_funds) = status_outcome(status);
            let tray = tray_icon_for(label, theme, auto_recolor);
            let app = app_icon_for(label, low_funds);
            &&& *final(is_animating) == label.is_transitional()
            &&& tray_icon is None ==> redraws.tray == Some(tray)
            &&& tray_icon matches Some(shown) ==> {
                &&& final(shown)@ == tray.file_name_view()
                &&& redraws.tray == tray.redraw_over(shown@)
            }
            &&& app_icon is None ==> redraws.app == Some(app)
            &&& app_icon matches Some(shown) ==> {
                &&& final(shown)@ == app.file_name_view()
                &&& redraws.app == app.redraw_over(shown@)
            }
        }),
{
    let (label, low_funds) = match status {
        Some(snapshot) => derive_status(snapshot),
        None => (ConnectionLabel::Disconnected, false),
    };
    let tray = select_tray_icon(label, theme, auto_recolor).apply_if_changed(tray_icon);
    let app = update_app_icon(app_icon, is_animating, label, low_funds);
    IconRedraws { tray, app }
}

/// Applying the same candidate twice draws once: the first application of a
/// candidate that is not shown yet reports a change, the second none.
pub proof fn lemma_repeated_candidate_is_suppressed(current: Seq<char>, candidate: Seq<char>)
    requires
        current != candidate,
    ensures
        apply_candidate(current, candidate).1,
        !apply_candidate(apply_candidate(current, candidate).0, candidate).1,
{
}

/// Applying a candidate and then a different one draws twice.
pub proof fn lemma_new_candidate_is_reported(
    current: Seq<char>,
    first: Seq<char>,
    second: Seq<char>,
)
    requires
        current != first,
        first != second,
    ensures
        apply_candidate(current, first).1,
        apply_candidate(apply_candidate(current, first).0, second).1,
{
}

/// After any application the surface shows the candidate, and a change is
/// reported exactly when the surface showed something else before.
pub proof fn lemma_applied_candidate_is_shown(current: Seq<char>, candidate: Seq<char>)
    ensures
        apply_candidate(current, candidate).0 == candidate,
        apply_candidate(current, candidate).1 <==> current != candidate,
{
}

/// Drawing exactly when a change is reported keeps the screen in step with
/// the record: if the screen shows what the record holds, it still does
/// after the next candidate, and nothing is drawn that is on the screen
/// already.
pub proof fn lemma_draw_on_change_keeps_screen_current(
    shown: Seq<char>,
    drawn: Seq<char>,
    candidate: Seq<char>,
)
    requires
        shown == drawn,
    ensures
        ({
            let (next_shown, changed) = apply_candidate(shown, candidate);
            let next_drawn = if changed {
                candidate
            } else {
                drawn
            };
            &&& next_shown == next_drawn
            &&& changed ==> candidate != drawn
        }),
{
}

/// Where the platform recolours tray icons by itself, the theme plays no
/// part in the choice of the tray icon, and no black icon is chosen.
pub proof fn lemma_auto_recolor_ignores_theme(
    label: ConnectionLabel,
    theme: Option<Theme>,
    other: Option<Theme>,
)
    ensures
        tray_icon_for(label, theme, true) == tray_icon_for(label, other, true),
        tray_icon_for(label, theme, true) == tray_icon_for(label, Some(Theme::Dark), false),
{
}

/// The two transitional labels share their icons on both surfaces, and the
/// application icon they share is the first animation frame.
pub proof fn lemma_transitional_labels_share_icons(
    low_funds: bool,
    theme: Option<Theme>,
    auto_recolor: bool,
)
    ensures
        app_icon_for(ConnectionLabel::Connecting, low_funds) == AppIcon::Connecting1,
        app_icon_for(ConnectionLabel::Disconnecting, low_funds) == AppIcon::Connecting1,
        tray_icon_for(ConnectionLabel::Connecting, theme, auto_recolor) == tray_icon_for(
            ConnectionLabel::Disconnecting,
            theme,
            auto_recolor,
        ),
{
}

/// The icons on both surfaces do not depend on the order in which the
/// snapshot lists the destinations.
pub proof fn lemma_icons_ignore_order(
    a: Seq<ConnectionLabel>,
    b: Seq<ConnectionLabel>,
    low_funds: bool,
    theme: Option<Theme>,
    auto_recolor: bool,
)
    requires
        a.to_multiset() == b.to_multiset(),
    ensures
        app_icon_for(aggregate_label(a), low_funds) == app_icon_for(aggregate_label(b), low_funds),
        tray_icon_for(aggregate_label(a), theme, auto_recolor) == tray_icon_for(
            aggregate_label(b),
            theme,
            auto_recolor,
        ),
{
    lemma_order_keeps_the_kind(a, b);
}

/// A failed status query shows as disconnected on both surfaces, without
/// the low-funds overlay and without animation.
pub proof fn lemma_failed_query_shows_disconnected(theme: Option<Theme>, auto_recolor: bool)
    ensures
        status_outcome(None) == (ConnectionLabel::Disconnected, false),
        !status_outcome(None).0.is_transitional(),
        app_icon_for(status_outcome(None).0, status_outcome(None).1) == AppIcon::Disconnected,
        tray_icon_for(status_outcome(None).0, theme, auto_recolor) == (if uses_black_icons(
            theme,
            auto_recolor,
        ) {
            TrayIcon::DisconnectedBlack
        } else {
            TrayIcon::Disconnected
        }),
{
}

/// No two application icons share a file name.
pub proof fn lemma_app_icon_names_distinct(a: AppIcon, b: AppIcon)
    requires
        a != b,
    ensures
        a.file_name_view() != b.file_name_view(),
{
    reveal_strlit("app-icon-connected.png");
    reveal_strlit("app-icon-connected-low-funds.png");
    reveal_strlit("app-icon-connecting-1.png");
    reveal_strlit("app-icon-connecting-2.png");
    reveal_strlit("app-icon-disconnected.png");
    reveal_strlit("app-icon-disconnected-low-funds.png");
    assert(APP_ICON_CONNECTED@.len() == 22);
    assert(APP_ICON_CONNECTED_LOW_FUNDS@.len() == 32);
    assert(APP_ICON_CONNECTING_1@.len() == 25 && APP_ICON_CONNECTING_1@[20] == '1');
    assert(APP_ICON_CONNECTING_2@.len() == 25 && APP_ICON_CONNECTING_2@[20] == '2');
    assert(APP_ICON_CONNECTING_1@[9] == 'c' && APP_ICON_CONNECTING_2@[9] == 'c');
    assert(APP_ICON_DISCONNECTED@.len() == 25 && APP_ICON_DISCONNECTED@[9] == 'd');
    assert(APP_ICON_DISCONNECTED_LOW_FUNDS@.len() == 35);
}

/// No two tray icons share a file name.
pub proof fn lemma_tray_icon_names_distinct(a: TrayIcon, b: TrayIcon)
    requires
        a != b,
    ensures
        a.file_name_view() != b.file_name_view(),
{
    reveal_strlit("tray-icons/tray-icon-connected.png");
    reveal_strlit("tray-icons/tray-icon-connected-black.png");
    reveal_strlit("tray-icons/tray-icon-connecting.png");
    reveal_strlit("tray-icons/tray-icon-connecting-black.png");
    reveal_strlit("tray-icons/tray-icon-disconnected.png");
    reveal_strlit("tray-icons/tray-icon-disconnected-black.png");
    assert(TRAY_ICON_CONNECTED@.len() == 34);
    assert(TRAY_ICON_CONNECTED_BLACK@.len() == 40);
    assert(TRAY_ICON_CONNECTING@.len() == 35);
    assert(TRAY_ICON_CONNECTING_BLACK@.len() == 41);
    assert(TRAY_ICON_DISCONNECTED@.len() == 37);
    assert(TRAY_ICON_DISCONNECTED_BLACK@.len() == 43);
}

/// `pattern` stands in `text` at `at`, shown by comparing the characters.
proof fn lemma_occurs(text: Seq<char>, pattern: Seq<char>, at: int)
    requires
        0 <= at,
        at + pattern.len() <= text.len(),
        forall|k: int| 0 <= k < pattern.len() ==> text[at + k] == pattern[k],
    ensures
        contains_text(text, pattern),
{
    assert(text.subrange(at, at + pattern.len()) =~= pattern);
    assert(occurs_at(text, pattern, at));
}

/// A text in which no `c` is followed by an `i` seven places on does not
/// hold `connecting`.
proof fn lemma_no_connecting(text: Seq<char>)
    requires
        forall|at: int|
            0 <= at && at + 10 <= text.len() ==> !(#[trigger] text[at] == 'c' && text[at + 7]
                == 'i'),
    ensures
        !contains_text(text, "connecting"@),
{
    reveal_strlit("connecting");
    assert("connecting"@.len() == 10);
    assert forall|at: int| !occurs_at(text, "connecting"@, at) by {
        if occurs_at(text, "connecting"@, at) {
            let window = text.subrange(at, at + 10);
            assert(window[0] == 'c' && window[7] == 'i');
            assert(text[at] == 'c' && text[at + 7] == 'i');
        }
    }
}

/// A text in which no `d` is followed by an `s` two places on does not hold
/// `disconnected`.
proof fn lemma_no_disconnected(text: Seq<char>)
    requires
        forall|at: int|
            0 <= at && at + 12 <= text.len() ==> !(#[trigger] text[at] == 'd' && text[at + 2]
                == 's'),
    ensures
        !contains_text(text, "disconnected"@),
{
    reveal_strlit("disconnected");
    assert("disconnected"@.len() == 12);
    assert forall|at: int| !occurs_at(text, "disconnected"@, at) by {
        if occurs_at(text, "disconnected"@, at) {
            let window = text.subrange(at, at + 12);
            assert(window[0] == 'd' && window[2] == 's');
            assert(text[at] == 'd' && text[at + 2] == 's');
        }
    }
}

/// The label read back from the file name of a tray icon is the label the
/// icon stands for, whatever its colour; for the transitional icons it is
/// `Connecting`.
pub proof fn lemma_recovered_label_of_tray_icon(icon: TrayIcon)
    ensures
        recovered_label(icon.file_name_view()) == (match icon {
            TrayIcon::Connected | TrayIcon::ConnectedBlack => ConnectionLabel::Connected,
            TrayIcon::Connecting | TrayIcon::ConnectingBlack => ConnectionLabel::Connecting,
            TrayIcon::Disconnected | TrayIcon::DisconnectedBlack => ConnectionLabel::Disconnected,
        }),
{
    reveal_strlit("connected");
    reveal_strlit("connecting");
    reveal_strlit("disconnected");
    assert("connected"@.len() == 9);
    assert("connecting"@.len() == 10);
    assert("disconnected"@.len() == 12);
    let name = icon.file_name_view();
    match icon {
        TrayIcon::Connected => {
            reveal_strlit("tray-icons/tray-icon-connected.png");
            assert(name.len() == 34);
            lemma_occurs(name, "connected"@, 21);
            lemma_no_connecting(name);
            lemma_no_disconnected(name);
        },
        TrayIcon::ConnectedBlack => {
            reveal_strlit("tray-icons/tray-icon-connected-black.png");
            assert(name.len() == 40);
            lemma_occurs(name, "connected"@, 21);
            lemma_no_connecting(name);
            lemma_no_disconnected(name);
        },
        TrayIcon::Connecting => {
            reveal_strlit("tray-icons/tray-icon-connecting.png");
            assert(name.len() == 35);
            lemma_occurs(name, "connecting"@, 21);
        },
        TrayIcon::ConnectingBlack => {
            reveal_strlit("tray-icons/tray-icon-connecting-black.png");
            assert(name.len() == 41);
            lemma_occurs(name, "connecting"@, 21);
        },
        TrayIcon::Disconnected => {
            reveal_strlit("tray-icons/tray-icon-disconnected.png");
            assert(name.len() == 37);
            lemma_occurs(name, "disconnected"@, 21);
            lemma_no_connecting(name);
        },
        TrayIcon::DisconnectedBlack => {
            reveal_strlit("tray-icons/tray-icon-disconnected-black.png");
            assert(name.len() == 43);
            lemma_occurs(name, "disconnected"@, 21);
            lemma_no_connecting(name);
        },
    }
}

} // verus!
