//! The event translator: owned window and input state, and the stateful
//! mapping from raw platform notifications to canonical events.  The
//! platform itself (querying geometry, resizing, rendering) stays outside;
//! each operation takes what it needs as plain values and reports what the
//! embedding must do as plain values.

use vstd::prelude::*;

use crate::events::{Direction, UiEvent};
use crate::keyboard::{
    opt_text_view, produce_keybinding_string, spec_encode, KeyCode, ModifierSet,
};
use crate::redraw_scheduler::RedrawScheduler;

verus! {

/// Logical units per cell: the fixed placeholder metric used for the
/// pixel-to-logical conversion, pending real font metrics.
pub const CELL_SIZE: u32 = 10;

/// Mutable window and input state owned by the event translator.
/// `cached_size` and `cached_position` are meaningful only while
/// `fullscreen` is true: they hold the geometry to restore on exit.
#[derive(Debug)]
pub struct WindowState {
    pub mouse_down: bool,
    pub mouse_position: (u32, u32),
    pub fullscreen: bool,
    pub cached_size: (u32, u32),
    pub cached_position: (i32, i32),
    pub previous_logical_size: (u32, u32),
    pub title: String,
}

/// What the embedding must do to the native window after a fullscreen
/// toggle: cover the display, or restore the given windowed geometry.
#[derive(Clone, Copy, Debug, PartialEq, Eq)]
pub enum FullscreenAction {
    Enter,
    Restore((u32, u32), (i32, i32)),
}

/// What one draw step decided: whether the logical size changed, and
/// whether a render is owed this iteration.
#[derive(Clone, Copy, Debug, PartialEq, Eq, Structural)]
pub struct DrawOutcome {
    pub resized: bool,
    pub should_render: bool,
}

/// One device-pixel coordinate brought to logical units: negative
/// coordinates clamp to zero, then the cell metric and the display scale
/// divide it down.
pub open spec fn spec_logical_axis(p: i32, scale: u32) -> u32
    recommends
        scale >= 1,
{
    (((if p >= 0 {
        p as int
    } else {
        0
    }) / (CELL_SIZE as int)) / (scale as int)) as u32
}

/// The scroll emissions of one wheel event, horizontal axis first, at the
/// given pointer position.  Each axis contributes at most one emission;
/// a zero axis contributes none.
pub open spec fn spec_wheel_events(x: int, y: int, pos: (u32, u32)) -> Seq<UiEvent> {
    (if x > 0 {
        seq![UiEvent::Scroll(Direction::Right, pos.0, pos.1)]
    } else if x < 0 {
        seq![UiEvent::Scroll(Direction::Left, pos.0, pos.1)]
    } else {
        Seq::<UiEvent>::empty()
    }) + (if y > 0 {
        seq![UiEvent::Scroll(Direction::Up, pos.0, pos.1)]
    } else if y < 0 {
        seq![UiEvent::Scroll(Direction::Down, pos.0, pos.1)]
    } else {
        Seq::<UiEvent>::empty()
    })
}

/// How one fullscreen toggle relates the state before it, the windowed
/// geometry the platform reported, the state after it, and the action the
/// embedding must carry out.
pub open spec fn fullscreen_toggle_rel(
    pre: WindowState,
    current_size: (u32, u32),
    current_position: (i32, i32),
    post: WindowState,
    action: FullscreenAction,
) -> bool {
    &&& post.fullscreen == !pre.fullscreen
    &&& post.mouse_down == pre.mouse_down
    &&& post.mouse_position == pre.mouse_position
    &&& post.previous_logical_size == pre.previous_logical_size
    &&& post.title == pre.title
    &&& if pre.fullscreen {
        &&& action == FullscreenAction::Restore(pre.cached_size, pre.cached_position)
        &&& post.cached_size == pre.cached_size
        &&& post.cached_position == pre.cached_position
    } else {
        &&& action is Enter
        &&& post.cached_size == current_size
        &&& post.cached_position == current_position
    }
}

impl WindowState {
    /// Fresh state for a window of `size` cells: the initial logical size
    /// is the cell metric times the cell count (plus one spare row of
    /// logical pixels), nothing pressed, windowed.
    pub fn new(size: (u32, u32)) -> (s: Self)
        requires
            size.0 * CELL_SIZE <= u32::MAX,
            size.1 * CELL_SIZE + 1 <= u32::MAX,
        ensures
            !s.mouse_down,
            s.mouse_position == (0u32, 0u32),
            !s.fullscreen,
            s.cached_size == (0u32, 0u32),
            s.cached_position == (0i32, 0i32),
            s.previous_logical_size == ((size.0 * CELL_SIZE) as u32, (size.1 * CELL_SIZE + 1) as u32),
            s.title@ == "Neovide"@,
    {
        let (width, height) = size;
        WindowState {
            mouse_down: false,
            mouse_position: (0, 0),
            fullscreen: false,
            cached_size: (0, 0),
            cached_position: (0, 0),
            previous_logical_size: (width * CELL_SIZE, height * CELL_SIZE + 1),
            title: "Neovide".to_owned(),
        }
    }

    /// A quit notification becomes the canonical quit event.
    pub fn handle_quit(&self) -> (e: UiEvent)
        ensures
            e == UiEvent::Quit,
    {
        UiEvent::Quit
    }

    /// A key press this frame, with the modifier state the platform
    /// reported: at most one canonical keyboard event, carrying exactly the
    /// token the keybinding encoder yields for these inputs.
    pub fn handle_keyboard_input(
        &self,
        keycode: Option<KeyCode>,
        text: Option<String>,
        modifiers: ModifierSet,
    ) -> (r: Option<UiEvent>)
        ensures
            (match r {
                Option::Some(e) => e matches UiEvent::KeyboardInput(s)
                    && spec_encode(keycode, opt_text_view(text), modifiers) == Option::Some(s@),
                Option::None => spec_encode(keycode, opt_text_view(text), modifiers) is None,
            }),
    {
        match produce_keybinding_string(keycode, text, modifiers) {
            Option::Some(token) => Option::Some(UiEvent::KeyboardInput(token)),
            Option::None => Option::None,
        }
    }

    /// Pointer motion in device pixels: remembers the new logical position,
    /// and emits one drag exactly when the button is down and the logical
    /// position actually changed.  Never a drag with the button up; never
    /// an emission on sub-cell jitter.
    pub fn handle_pointer_motion(&mut self, x: i32, y: i32, scale: u32) -> (r: Option<UiEvent>)
        requires
            scale >= 1,
        ensures
            final(self).mouse_position == (spec_logical_axis(x, scale), spec_logical_axis(y, scale)),
            *final(self) == (WindowState { mouse_position: final(self).mouse_position, ..*old(self) }),
            r == (if old(self).mouse_down && final(self).mouse_position != old(self).mouse_position {
                Option::Some(
                    UiEvent::MouseDragged(final(self).mouse_position.0, final(self).mouse_position.1),
                )
            } else {
                Option::None
            }),
    {
        let px: u32 = if x >= 0 {
            x as u32
        } else {
            0
        };
        let py: u32 = if y >= 0 {
            y as u32
        } else {
            0
        };
        let new_position: (u32, u32) = (px / CELL_SIZE / scale, py / CELL_SIZE / scale);
        let previous_position = self.mouse_position;
        self.mouse_position = new_position;
        if self.mouse_down
            && (new_position.0 != previous_position.0 || new_position.1 != previous_position.1) {
            Option::Some(UiEvent::MouseDragged(new_position.0, new_position.1))
        } else {
            Option::None
        }
    }

    /// A button press: emits the press at the current pointer position and
    /// remembers that the button is down.
    pub fn handle_pointer_down(&mut self) -> (e: UiEvent)
        ensures
            e == UiEvent::MousePressed(old(self).mouse_position.0, old(self).mouse_position.1),
            *final(self) == (WindowState { mouse_down: true, ..*old(self) }),
    {
        let e = UiEvent::MousePressed(self.mouse_position.0, self.mouse_position.1);
        self.mouse_down = true;
        e
    }

    /// A button release: emits the release at the current pointer position
    /// and remembers that the button is up.
    pub fn handle_pointer_up(&mut self) -> (e: UiEvent)
        ensures
            e == UiEvent::MouseReleased(old(self).mouse_position.0, old(self).mouse_position.1),
            *final(self) == (WindowState { mouse_down: false, ..*old(self) }),
    {
        let e = UiEvent::MouseReleased(self.mouse_position.0, self.mouse_position.1);
        self.mouse_down = false;
        e
    }

    /// A wheel event: each axis emits independently, horizontal first, at
    /// the current pointer position; a diagonal event yields two emissions
    /// and a zero event none.
    pub fn handle_mouse_wheel(&self, x: i32, y: i32) -> (r: Vec<UiEvent>)
        ensures
            r@ == spec_wheel_events(x as int, y as int, self.mouse_position),
    {
        let mut out: Vec<UiEvent> = Vec::new();
        if x > 0 {
            out.push(UiEvent::Scroll(Direction::Right, self.mouse_position.0, self.mouse_position.1));
        } else if x < 0 {
            out.push(UiEvent::Scroll(Direction::Left, self.mouse_position.0, self.mouse_position.1));
        }
        if y > 0 {
            out.push(UiEvent::Scroll(Direction::Up, self.mouse_position.0, self.mouse_position.1));
        } else if y < 0 {
            out.push(UiEvent::Scroll(Direction::Down, self.mouse_position.0, self.mouse_position.1));
        }
        proof {
            assert(out@ =~= spec_wheel_events(x as int, y as int, self.mouse_position));
        }
        out
    }

    /// Losing focus only emits the canonical event.
    pub fn handle_focus_lost(&self) -> (e: UiEvent)
        ensures
            e == UiEvent::FocusLost,
    {
        UiEvent::FocusLost
    }

    /// Regaining focus emits the canonical event and always queues a
    /// redraw: content may have changed underneath.
    pub fn handle_focus_gained(&self, sched: &mut RedrawScheduler) -> (e: UiEvent)
        ensures
            e == UiEvent::FocusGained,
            final(sched).pending(),
    {
        sched.queue_next_frame();
        UiEvent::FocusGained
    }

    /// Flip between windowed and fullscreen.  Entering captures the
    /// windowed geometry the platform reported into the cache; exiting
    /// hands that cache back as the geometry to restore.  The platform work
    /// itself (resize, reposition) is the embedding's, told by the returned
    /// action; its best-effort failure leaves this state no less valid.
    pub fn toggle_fullscreen(
        &mut self,
        current_size: (u32, u32),
        current_position: (i32, i32),
    ) -> (action: FullscreenAction)
        ensures
            fullscreen_toggle_rel(*old(self), current_size, current_position, *final(self), action),
    {
        let action: FullscreenAction = if self.fullscreen {
            FullscreenAction::Restore(self.cached_size, self.cached_position)
        } else {
            self.cached_size = current_size;
            self.cached_position = current_position;
            FullscreenAction::Enter
        };
        self.fullscreen = !self.fullscreen;
        action
    }

    /// The draw step's bookkeeping: record the logical size the platform
    /// reports now, say whether it changed, and consume the redraw flag to
    /// say whether a render is owed.
    pub fn draw_frame(&mut self, sched: &mut RedrawScheduler, new_size: (u32, u32)) -> (r:
        DrawOutcome)
        ensures
            r.resized == (old(self).previous_logical_size != new_size),
            r.should_render == old(sched).pending(),
            !final(sched).pending(),
            *final(self) == (WindowState { previous_logical_size: new_size, ..*old(self) }),
    {
        let resized = self.previous_logical_size.0 != new_size.0
            || self.previous_logical_size.1 != new_size.1;
        self.previous_logical_size = new_size;
        let should_render = sched.should_draw();
        DrawOutcome { resized, should_render }
    }
}

/// Round trip of the fullscreen toggle: entering from windowed state and
/// toggling again hands back exactly the geometry observed before entering,
/// and lands back in windowed state, whatever geometry the second call
/// observes.
pub proof fn lemma_fullscreen_round_trip(
    w0: WindowState,
    size: (u32, u32),
    position: (i32, i32),
    w1: WindowState,
    a1: FullscreenAction,
    size2: (u32, u32),
    position2: (i32, i32),
    w2: WindowState,
    a2: FullscreenAction,
)
    requires
        !w0.fullscreen,
        fullscreen_toggle_rel(w0, size, position, w1, a1),
        fullscreen_toggle_rel(w1, size2, position2, w2, a2),
    ensures
        a2 == FullscreenAction::Restore(size, position),
        !w2.fullscreen,
        w2.cached_size == size,
        w2.cached_position == position,
{
}

} // verus!
