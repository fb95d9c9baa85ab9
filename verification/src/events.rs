//! Events handed in by the window collaborator, and the decisions the main
//! loop takes on them.
//!
//! The native windowing layer decodes its raw tagged events into [`Event`]
//! at the boundary and hands the drained batch to [`decide_frame`], which
//! says whether the iteration quits, idles, or runs a full frame.

use vstd::prelude::*;

verus! {

/// Parameters for opening the window.
#[derive(Default)]
pub struct XglwallInit {
    pub title: String,
    pub enable_input: bool,
}

/// A key press or release: the decoded character, if any, with the raw
/// key-symbol code and the code with modifiers applied.
pub struct KeyEvent {
    pub char: Option<char>,
    pub keysym: i32,
    pub keysym_mod: i32,
}

/// Which mouse button an event speaks of.
pub enum MouseButton {
    /// No button: a plain motion event.
    NoButton,
    Left,
    Middle,
    Right,
    WheelUp,
    WheelDown,
    /// A button code outside the known set.
    Unknown(i32),
}

/// A mouse press, release or motion, with the pointer position in pixels.
pub struct MouseEvent {
    pub button: MouseButton,
    pub x: i32,
    pub y: i32,
}

/// One event from the window collaborator.
pub enum Event {
    Destroy,
    KeyPress(KeyEvent),
    KeyRelease(KeyEvent),
    MousePress(MouseEvent),
    MouseRelease(MouseEvent),
    MouseMotion(MouseEvent),
    Resize(u32, u32),
}

/// Whether an event ends the main loop: the window was destroyed, or a key
/// press decoded to the character 'q'.
pub open spec fn is_quit_event(ev: Event) -> bool {
    match ev {
        Event::Destroy => true,
        Event::KeyPress(k) => k.char == Some('q'),
        _ => false,
    }
}

/// Decides [`is_quit_event`] for one event.
pub fn should_quit(ev: &Event) -> (r: bool)
    ensures
        r == is_quit_event(*ev),
{
    match ev {
        Event::Destroy => true,
        Event::KeyPress(k) => match k.char {
            Some(c) => c == 'q',
            None => false,
        },
        _ => false,
    }
}

/// What one iteration of the main loop does once the pending events are
/// drained.
pub enum LoopAction {
    /// Leave the loop: a quit event arrived.
    Quit,
    /// The window is not visible: skip simulation and rendering, only pace.
    Idle,
    /// Advance the simulation and render a frame.
    RunFrame,
}

/// Decides the iteration from the drained events and the visibility query:
/// any quit event ends the loop on this very iteration, before any
/// simulation or render work; otherwise a hidden window idles and a
/// visible one runs a full frame.
pub fn decide_frame(events: &Vec<Event>, visible: bool) -> (r: LoopAction)
    ensures
        (r == LoopAction::Quit) <==> (exists|i: int|
            0 <= i < events@.len() && is_quit_event(events@[i])),
        (forall|i: int| 0 <= i < events@.len() ==> !is_quit_event(events@[i])) ==> r == (
        if visible {
            LoopAction::RunFrame
        } else {
            LoopAction::Idle
        }),
{
    let n: usize = events.len();
    let mut i: usize = 0;
    while i < n
        invariant
            i <= n,
            n == events.len(),
            forall|j: int| 0 <= j < i ==> !is_quit_event(events@[j]),
        decreases n - i,
    {
        if should_quit(&events[i]) {
            proof {
                assert(is_quit_event(events@[i as int]));
            }
            return LoopAction::Quit;
        }
        i += 1;
    }
    if visible {
        LoopAction::RunFrame
    } else {
        LoopAction::Idle
    }
}

} // verus!
