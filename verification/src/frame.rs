//! The frame loop's decisions: classify and route one batch of raw
//! platform events, buffer the frame's key input, and pace the frame.
//! The embedding drives the loop itself: it polls the platform, hands the
//! pending raw events here, delivers the canonical events that come back,
//! renders when told to, and sleeps for the returned remainder.

use vstd::prelude::*;

use crate::events::UiEvent;
use crate::keyboard::{opt_text_view, spec_encode, KeyCode, ModifierSet};
use crate::redraw_scheduler::RedrawScheduler;
use crate::window::{spec_logical_axis, spec_wheel_events, WindowState};

verus! {

/// Nanoseconds in one frame at the target refresh rate of 144 frames per
/// second: the hard floor each loop iteration is held to.
pub const FRAME_LENGTH_NS: u64 = 1_000_000_000 / 144;

/// One raw platform notification, as the embedding classified it: exactly
/// the cases the loop routes, with everything else collapsed into
/// `WindowOther` (redraw-worthy window activity) or `Other` (ignored).
#[derive(Debug, PartialEq, Eq)]
pub enum RawEvent {
    Quit,
    KeyDown(Option<KeyCode>),
    TextInput(String),
    MouseMotion(i32, i32),
    MouseButtonDown,
    MouseButtonUp,
    MouseWheel(i32, i32),
    FocusLost,
    FocusGained,
    WindowOther,
    Other,
}

/// The key input buffered while draining one batch of raw events: the last
/// keycode and text seen, and whether a focus regain set the one-frame
/// text-suppression guard.
#[derive(Debug, PartialEq, Eq)]
pub struct FrameInputs {
    pub keycode: Option<KeyCode>,
    pub keytext: Option<String>,
    pub ignore_text: bool,
}

impl FrameInputs {
    /// The buffer a frame starts with: nothing seen, no guard.
    pub fn new() -> (r: Self)
        ensures
            r.keycode is None,
            r.keytext is None,
            !r.ignore_text,
    {
        FrameInputs { keycode: Option::None, keytext: Option::None, ignore_text: false }
    }
}

/// Everything one batch of raw events amounts to: the translator state and
/// redraw flag as they stand, the key buffer, the canonical events emitted
/// so far in order, and whether a quit was seen.
pub struct FrameTrace {
    pub window: WindowState,
    pub pending: bool,
    pub inputs: FrameInputs,
    pub emitted: Seq<UiEvent>,
    pub quit: bool,
}

/// How one raw event advances the frame: the routing table of the loop.
pub open spec fn frame_step(s: FrameTrace, e: RawEvent, scale: u32) -> FrameTrace {
    match e {
        RawEvent::Quit => FrameTrace {
            emitted: s.emitted + seq![UiEvent::Quit],
            quit: true,
            ..s
        },
        RawEvent::KeyDown(kc) => FrameTrace {
            inputs: FrameInputs { keycode: kc, ..s.inputs },
            ..s
        },
        RawEvent::TextInput(t) => FrameTrace {
            inputs: FrameInputs { keytext: Option::Some(t), ..s.inputs },
            ..s
        },
        RawEvent::MouseMotion(x, y) => {
            let np = (spec_logical_axis(x, scale), spec_logical_axis(y, scale));
            FrameTrace {
                window: WindowState { mouse_position: np, ..s.window },
                emitted: if s.window.mouse_down && np != s.window.mouse_position {
                    s.emitted + seq![UiEvent::MouseDragged(np.0, np.1)]
                } else {
                    s.emitted
                },
                ..s
            }
        },
        RawEvent::MouseButtonDown => FrameTrace {
            window: WindowState { mouse_down: true, ..s.window },
            emitted: s.emitted
                + seq![
                    UiEvent::MousePressed(s.window.mouse_position.0, s.window.mouse_position.1)
                ],
            ..s
        },
        RawEvent::MouseButtonUp => FrameTrace {
            window: WindowState { mouse_down: false, ..s.window },
            emitted: s.emitted
                + seq![
                    UiEvent::MouseReleased(s.window.mouse_position.0, s.window.mouse_position.1)
                ],
            ..s
        },
        RawEvent::MouseWheel(x, y) => FrameTrace {
            emitted: s.emitted + spec_wheel_events(x as int, y as int, s.window.mouse_position),
            ..s
        },
        RawEvent::FocusLost => FrameTrace {
            emitted: s.emitted + seq![UiEvent::FocusLost],
            ..s
        },
        RawEvent::FocusGained => FrameTrace {
            pending: true,
            inputs: FrameInputs { ignore_text: true, ..s.inputs },
            emitted: s.emitted + seq![UiEvent::FocusGained],
            ..s
        },
        RawEvent::WindowOther => FrameTrace { pending: true, ..s },
        RawEvent::Other => s,
    }
}

/// A whole batch, processed strictly in delivery order — except that a quit
/// stops everything: raw events after the first quit are never routed.
pub open spec fn frame_batch(s: FrameTrace, events: Seq<RawEvent>, scale: u32) -> FrameTrace
    decreases events.len(),
{
    if s.quit || events.len() == 0 {
        s
    } else {
        frame_batch(frame_step(s, events[0], scale), events.drop_first(), scale)
    }
}

/// The trace a batch starts from: the current translator state and redraw
/// flag, an empty key buffer, nothing emitted, no quit seen.
pub open spec fn frame_start(window: WindowState, pending: bool) -> FrameTrace {
    FrameTrace {
        window,
        pending,
        inputs: FrameInputs { keycode: Option::None, keytext: Option::None, ignore_text: false },
        emitted: Seq::<UiEvent>::empty(),
        quit: false,
    }
}

/// Drain one batch of raw events through the translator, in order,
/// stopping at the first quit.  Returns the canonical events to deliver,
/// the buffered key input of this frame, and whether the loop must
/// terminate; the whole outcome is exactly what the `frame_batch` model
/// says of the batch.
pub fn process_pending_events(
    window: &mut WindowState,
    sched: &mut RedrawScheduler,
    events: &Vec<RawEvent>,
    scale: u32,
) -> (r: (Vec<UiEvent>, FrameInputs, bool))
    requires
        scale >= 1,
    ensures
        *final(window) == frame_batch(frame_start(*old(window), old(sched).pending()), events@, scale).window,
        final(sched).pending() == frame_batch(
            frame_start(*old(window), old(sched).pending()),
            events@,
            scale,
        ).pending,
        r.0@ == frame_batch(frame_start(*old(window), old(sched).pending()), events@, scale).emitted,
        r.1 == frame_batch(frame_start(*old(window), old(sched).pending()), events@, scale).inputs,
        r.2 == frame_batch(frame_start(*old(window), old(sched).pending()), events@, scale).quit,
{
    let ghost s0 = frame_start(*window, sched.pending());
    let mut emitted: Vec<UiEvent> = Vec::new();
    let mut inputs = FrameInputs::new();
    let mut quit = false;
    proof {
        assert(events@.skip(0) =~= events@);
    }
    for i in 0..events.len()
        invariant
            scale >= 1,
            frame_batch(s0, events@, scale) == frame_batch(
                FrameTrace {
                    window: *window,
                    pending: sched.pending(),
                    inputs,
                    emitted: emitted@,
                    quit,
                },
                events@.skip(i as int),
                scale,
            ),
    {
        let ghost pre = FrameTrace {
            window: *window,
            pending: sched.pending(),
            inputs,
            emitted: emitted@,
            quit,
        };
        proof {
            assert(events@.skip(i as int)[0] == events@[i as int]);
            assert(events@.skip(i as int).drop_first() =~= events@.skip(i as int + 1));
        }
        if !quit {
            match &events[i] {
                RawEvent::Quit => {
                    let e = window.handle_quit();
                    emitted.push(e);
                    quit = true;
                    proof {
                        assert(emitted@ =~= pre.emitted + seq![UiEvent::Quit]);
                    }
                },
                RawEvent::KeyDown(kc) => {
                    inputs.keycode = *kc;
                },
                RawEvent::TextInput(t) => {
                    inputs.keytext = Option::Some(t.clone());
                },
                RawEvent::MouseMotion(x, y) => {
                    match window.handle_pointer_motion(*x, *y, scale) {
                        Option::Some(e) => {
                            emitted.push(e);
                        },
                        Option::None => {},
                    }
                    proof {
                        let np = (spec_logical_axis(*x, scale), spec_logical_axis(*y, scale));
                        if pre.window.mouse_down && np != pre.window.mouse_position {
                            assert(emitted@ =~= pre.emitted
                                + seq![UiEvent::MouseDragged(np.0, np.1)]);
                        }
                    }
                },
                RawEvent::MouseButtonDown => {
                    let e = window.handle_pointer_down();
                    emitted.push(e);
                    proof {
                        assert(emitted@ =~= pre.emitted
                            + seq![
                                UiEvent::MousePressed(
                                    pre.window.mouse_position.0,
                                    pre.window.mouse_position.1,
                                )
                            ]);
                    }
                },
                RawEvent::MouseButtonUp => {
                    let e = window.handle_pointer_up();
                    emitted.push(e);
                    proof {
                        assert(emitted@ =~= pre.emitted
                            + seq![
                                UiEvent::MouseReleased(
                                    pre.window.mouse_position.0,
                                    pre.window.mouse_position.1,
                                )
                            ]);
                    }
                },
                RawEvent::MouseWheel(x, y) => {
                    let mut wheel = window.handle_mouse_wheel(*x, *y);
                    emitted.append(&mut wheel);
                },
                RawEvent::FocusLost => {
                    let e = window.handle_focus_lost();
                    emitted.push(e);
                    proof {
                        assert(emitted@ =~= pre.emitted + seq![UiEvent::FocusLost]);
                    }
                },
                RawEvent::FocusGained => {
                    let e = window.handle_focus_gained(sched);
                    emitted.push(e);
                    inputs.ignore_text = true;
                    proof {
                        assert(emitted@ =~= pre.emitted + seq![UiEvent::FocusGained]);
                    }
                },
                RawEvent::WindowOther => {
                    sched.queue_next_frame();
                },
                RawEvent::Other => {},
            }
            proof {
                assert(FrameTrace {
                    window: *window,
                    pending: sched.pending(),
                    inputs,
                    emitted: emitted@,
                    quit,
                } == frame_step(pre, events@[i as int], scale));
            }
        }
    }
    proof {
        assert(events@.skip(events@.len() as int) =~= Seq::<RawEvent>::empty());
    }
    (emitted, inputs, quit)
}

/// The end-of-batch key dispatch: unless the one-frame suppression guard is
/// set, the buffered keycode and text go through the keybinding encoder
/// with the modifier state the platform reports, and an encoded token
/// becomes one canonical keyboard event.
pub fn frame_key_event(
    window: &WindowState,
    inputs: FrameInputs,
    modifiers: ModifierSet,
) -> (r: Option<UiEvent>)
    ensures
        inputs.ignore_text ==> r is None,
        !inputs.ignore_text ==> (match r {
            Option::Some(e) => e matches UiEvent::KeyboardInput(s)
                && spec_encode(inputs.keycode, opt_text_view(inputs.keytext), modifiers)
                    == Option::Some(s@),
            Option::None => spec_encode(inputs.keycode, opt_text_view(inputs.keytext), modifiers)
                is None,
        }),
{
    if inputs.ignore_text {
        Option::None
    } else {
        window.handle_keyboard_input(inputs.keycode, inputs.keytext, modifiers)
    }
}

/// How long the loop must still sleep after a frame body that took
/// `elapsed_ns`: the remainder of the fixed budget, or nothing once the
/// budget is spent.  The budget is a constant, so a frame over budget
/// neither sleeps nor shortens any later frame.
pub fn frame_sleep_duration(elapsed_ns: u64) -> (r: u64)
    ensures
        elapsed_ns < FRAME_LENGTH_NS ==> r == FRAME_LENGTH_NS - elapsed_ns,
        elapsed_ns >= FRAME_LENGTH_NS ==> r == 0,
        r <= FRAME_LENGTH_NS,
{
    if elapsed_ns < FRAME_LENGTH_NS {
        FRAME_LENGTH_NS - elapsed_ns
    } else {
        0
    }
}

/// No raw event after the first quit of a batch is ever routed: the trace
/// of a batch with a quit at `i`, all earlier events quit-free, is the
/// trace of just the events through `i` — whatever follows.
pub proof fn lemma_quit_stops_batch(s: FrameTrace, events: Seq<RawEvent>, scale: u32, i: int)
    requires
        !s.quit,
        0 <= i < events.len(),
        events[i] is Quit,
        forall|j: int| 0 <= j < i ==> !(events[j] is Quit),
    ensures
        frame_batch(s, events, scale) == frame_batch(s, events.take(i + 1), scale),
        frame_batch(s, events, scale).quit,
    decreases events.len(),
{
    if i == 0 {
        let s1 = frame_step(s, events[0], scale);
        assert(s1.quit);
        assert(frame_batch(s1, events.drop_first(), scale) == s1);
        assert(events.take(1)[0] == events[0]);
        assert(frame_batch(s1, events.take(1).drop_first(), scale) == s1);
    } else {
        let s1 = frame_step(s, events[0], scale);
        assert(!(events[0] is Quit));
        assert(!s1.quit) by {
            lemma_step_keeps_quit(s, events[0], scale);
        }
        assert(forall|j: int| 0 <= j < i - 1 ==> events.drop_first()[j] == events[j + 1]);
        lemma_quit_stops_batch(s1, events.drop_first(), scale, i - 1);
        assert(events.drop_first().take(i) =~= events.take(i + 1).drop_first());
        assert(events.take(i + 1)[0] == events[0]);
    }
}

/// A step on anything but a quit leaves the quit flag alone.
proof fn lemma_step_keeps_quit(s: FrameTrace, e: RawEvent, scale: u32)
    requires
        !(e is Quit),
    ensures
        frame_step(s, e, scale).quit == s.quit,
{
}

} // verus!
