//! The blinking animation of the application icon, one wake-up at a time.
//!
//! The caller owns the loop: it wakes, calls `heartbeat_tick`, draws what
//! the step asks for, sleeps for as long as the step says, and wakes again.
//! While the animation is off a tick changes nothing and asks for a coarse
//! sleep. While it is on, each tick flips the toggle and shows the frame
//! that the flipped toggle stands for: the second frame if it is now set,
//! the first if it is now clear. The first frame stays briefly, the second
//! three times as long.

use crate::icons::{lemma_app_icon_names_distinct, AppIcon, AppIconState};
use vstd::prelude::*;

verus! {

/// Sleep between two looks at the animating flag while at rest.
pub const IDLE_POLL_MS: u64 = 500;

/// How long the first frame stays.
pub const FIRST_FRAME_MS: u64 = 200;

/// How long the second frame stays.
pub const SECOND_FRAME_MS: u64 = 600;

/// What the caller does after a tick.
#[derive(Clone, Copy, Debug, PartialEq, Eq, Structural)]
pub struct HeartbeatStep {
    /// The icon to draw, if the surface does not show it yet.
    pub redraw: Option<AppIcon>,
    /// How long to sleep before the next tick, in milliseconds.
    pub sleep_ms: u64,
}

/// The application surface as plain values.
pub struct AppSurface {
    pub animation_toggle: bool,
    pub is_animating: bool,
    pub current_icon: Seq<char>,
}

impl View for AppIconState {
    type V = AppSurface;

    open spec fn view(&self) -> AppSurface {
        AppSurface {
            animation_toggle: self.animation_toggle,
            is_animating: self.is_animating,
            current_icon: self.current_icon@,
        }
    }
}

/// The frame that a toggle value stands for: the second if set, the first
/// if clear.
pub open spec fn frame_of(toggle: bool) -> AppIcon {
    if toggle {
        AppIcon::Connecting2
    } else {
        AppIcon::Connecting1
    }
}

/// How long the frame of a toggle value stays, in milliseconds.
pub open spec fn frame_sleep_ms(toggle: bool) -> u64 {
    if toggle {
        SECOND_FRAME_MS
    } else {
        FIRST_FRAME_MS
    }
}

/// One tick on a surface whose record could be had: the surface afterwards,
/// and the step for the caller. While animating the toggle is flipped, and
/// the flipped value picks the frame and the sleep.
pub open spec fn tick(surface: AppSurface) -> (AppSurface, HeartbeatStep) {
    if surface.is_animating {
        let flipped = !surface.animation_toggle;
        (
            AppSurface {
                animation_toggle: flipped,
                is_animating: true,
                current_icon: frame_of(flipped).file_name_view(),
            },
            HeartbeatStep {
                redraw: frame_of(flipped).redraw_over(surface.current_icon),
                sleep_ms: frame_sleep_ms(flipped),
            },
        )
    } else {
        (surface, HeartbeatStep { redraw: None, sleep_ms: IDLE_POLL_MS })
    }
}

/// One wake-up of the heartbeat. `current_icon` is the record of the
/// application surface, `None` if its guard could not be had; the frame is
/// then drawn without being recorded.
pub fn heartbeat_tick(
    is_animating: bool,
    animation_toggle: &mut bool,
    current_icon: Option<&mut String>,
) -> (step: HeartbeatStep)
    ensures
        !is_animating ==> {
            &&& *final(animation_toggle) == *old(animation_toggle)
            &&& step == HeartbeatStep { redraw: None, sleep_ms: IDLE_POLL_MS }
            &&& current_icon matches Some(shown) ==> final(shown)@ == shown@
        },
        is_animating ==> {
            &&& *final(animation_toggle) == !*old(animation_toggle)
            &&& step.sleep_ms == frame_sleep_ms(!*old(animation_toggle))
            &&& current_icon is None ==> step.redraw == Some(frame_of(!*old(animation_toggle)))
            &&& current_icon matches Some(shown) ==> {
                &&& final(shown)@ == frame_of(!*old(animation_toggle)).file_name_view()
                &&& step.redraw == frame_of(!*old(animation_toggle)).redraw_over(shown@)
            }
        },
{
    if is_animating {
        let flipped = !*animation_toggle;
        *animation_toggle = flipped;
        let (frame, sleep_ms) = if flipped {
            (AppIcon::Connecting2, SECOND_FRAME_MS)
        } else {
            (AppIcon::Connecting1, FIRST_FRAME_MS)
        };
        HeartbeatStep { redraw: frame.apply_if_changed(current_icon), sleep_ms }
    } else {
        HeartbeatStep { redraw: None, sleep_ms: IDLE_POLL_MS }
    }
}

impl AppIconState {
    /// One wake-up of the heartbeat on a surface held exclusively.
    pub fn tick(&mut self) -> (step: HeartbeatStep)
        ensures
            (final(self)@, step) == tick(old(self)@),
    {
        heartbeat_tick(self.is_animating, &mut self.animation_toggle, Some(&mut self.current_icon))
    }
}

/// At rest a tick changes nothing, draws nothing and asks for the coarse
/// sleep: once the animating flag is clear, no tick draws.
pub proof fn lemma_idle_tick_is_silent(surface: AppSurface)
    requires
        !surface.is_animating,
    ensures
        tick(surface) == (surface, HeartbeatStep { redraw: None, sleep_ms: IDLE_POLL_MS }),
{
}

/// While animating, a tick shows the first frame for 200 ms or the second
/// for 600 ms, three times as long, and leaves the animating flag alone.
pub proof fn lemma_frame_cadence(surface: AppSurface)
    requires
        surface.is_animating,
    ensures
        tick(surface).0.is_animating,
        tick(surface).0.current_icon == AppIcon::Connecting1.file_name_view() <==> tick(
            surface,
        ).1.sleep_ms == FIRST_FRAME_MS,
        tick(surface).0.current_icon == AppIcon::Connecting2.file_name_view() <==> tick(
            surface,
        ).1.sleep_ms == SECOND_FRAME_MS,
        tick(surface).1.sleep_ms == FIRST_FRAME_MS || tick(surface).1.sleep_ms == SECOND_FRAME_MS,
        SECOND_FRAME_MS == 3 * FIRST_FRAME_MS,
{
    lemma_app_icon_names_distinct(AppIcon::Connecting1, AppIcon::Connecting2);
}

/// While animating, two ticks in a row show the two frames one after the
/// other: the second tick shows the frame that the first did not, draws it,
/// and brings the toggle back to where it stood; a full cycle takes 800 ms.
pub proof fn lemma_frames_alternate(surface: AppSurface)
    requires
        surface.is_animating,
    ensures
        ({
            let (first, first_step) = tick(surface);
            let (second, second_step) = tick(first);
            &&& first.current_icon == frame_of(!surface.animation_toggle).file_name_view()
            &&& second.current_icon == frame_of(surface.animation_toggle).file_name_view()
            &&& first.current_icon != second.current_icon
            &&& second_step.redraw == Some(frame_of(surface.animation_toggle))
            &&& second.animation_toggle == surface.animation_toggle
            &&& first_step.sleep_ms + second_step.sleep_ms == FIRST_FRAME_MS + SECOND_FRAME_MS
        }),
{
    lemma_app_icon_names_distinct(AppIcon::Connecting1, AppIcon::Connecting2);
}

/// When the animation starts on the first frame with the toggle clear, the
/// next tick puts the second frame on the surface, draws it, and asks for
/// the long sleep.
pub proof fn lemma_second_frame_on_next_tick(surface: AppSurface)
    requires
        surface.is_animating,
        !surface.animation_toggle,
        surface.current_icon == AppIcon::Connecting1.file_name_view(),
    ensures
        tick(surface).0.current_icon == AppIcon::Connecting2.file_name_view(),
        tick(surface).0.animation_toggle,
        tick(surface).1 == (HeartbeatStep {
            redraw: Some(AppIcon::Connecting2),
            sleep_ms: SECOND_FRAME_MS,
        }),
{
    lemma_app_icon_names_distinct(AppIcon::Connecting1, AppIcon::Connecting2);
}

} // verus!
