use vstd::prelude::*;
use crate::bindings::{KeyBindings, lookup};
use crate::keys::{KEY_EOT, KEY_J_LOWER, KEY_K_LOWER, KEY_NAK, KEY_Q_LOWER};
use crate::window::{Window, WindowView, step_down, step_up, steps_down, steps_up};

verus! {

/// How many lines the page keys move the cursor.
pub const PAGE_LINES: u32 = 20;

/// What a key press comes to.
#[derive(Clone, Copy, Debug, PartialEq, Eq, Structural)]
pub enum KeyAction {
    /// The component's own command bound to the key.
    Handler(u32),
    CursorDown,
    CursorUp,
    PageDown,
    PageUp,
    Stop,
    Nothing,
}

/// A key bound by the component runs its command; otherwise `j` and `k`
/// move the cursor a line, the two page codes move it a page, `q` stops, and
/// any other key does nothing.
pub open spec fn resolve_spec(bindings: Map<i32, u32>, key: i32) -> KeyAction {
    match lookup(bindings, key) {
        Some(c) => KeyAction::Handler(c),
        None => if key == KEY_J_LOWER {
            KeyAction::CursorDown
        } else if key == KEY_K_LOWER {
            KeyAction::CursorUp
        } else if key == KEY_EOT {
            KeyAction::PageDown
        } else if key == KEY_NAK {
            KeyAction::PageUp
        } else if key == KEY_Q_LOWER {
            KeyAction::Stop
        } else {
            KeyAction::Nothing
        },
    }
}

/// What the key `key` comes to under `bindings`.
pub fn resolve(bindings: &KeyBindings, key: i32) -> (r: KeyAction)
    ensures
        r == resolve_spec(bindings@, key),
{
    match bindings.get(key) {
        Some(c) => KeyAction::Handler(c),
        None => {
            if key == KEY_J_LOWER {
                KeyAction::CursorDown
            } else if key == KEY_K_LOWER {
                KeyAction::CursorUp
            } else if key == KEY_EOT {
                KeyAction::PageDown
            } else if key == KEY_NAK {
                KeyAction::PageUp
            } else if key == KEY_Q_LOWER {
                KeyAction::Stop
            } else {
                KeyAction::Nothing
            }
        },
    }
}

/// What a built-in action does to the window; a component's command and
/// stopping leave it as it is.
pub open spec fn builtin_effect(v: WindowView, action: KeyAction) -> WindowView {
    match action {
        KeyAction::CursorDown => step_down(v),
        KeyAction::CursorUp => step_up(v),
        KeyAction::PageDown => steps_down(v, PAGE_LINES as nat),
        KeyAction::PageUp => steps_up(v, PAGE_LINES as nat),
        _ => v,
    }
}

/// Carries out a built-in action on the window. Returns whether the render
/// loop goes on: it does for every action but `Stop`.
pub fn apply_builtin(window: &mut Window, action: KeyAction) -> (r: bool)
    requires
        old(window).wf(),
    ensures
        final(window).wf(),
        final(window)@ == builtin_effect(old(window)@, action),
        r == (action != KeyAction::Stop),
{
    match action {
        KeyAction::CursorDown => {
            window.move_cursor_down();
            true
        },
        KeyAction::CursorUp => {
            window.move_cursor_up();
            true
        },
        KeyAction::PageDown => {
            let ghost v = window@;
            let mut k: u32 = 0;
            while k < PAGE_LINES
                invariant
                    k <= PAGE_LINES,
                    window.wf(),
                    window@ == steps_down(v, k as nat),
                decreases PAGE_LINES - k,
            {
                window.move_cursor_down();
                k = k + 1;
            }
            true
        },
        KeyAction::PageUp => {
            let ghost v = window@;
            let mut k: u32 = 0;
            while k < PAGE_LINES
                invariant
                    k <= PAGE_LINES,
                    window.wf(),
                    window@ == steps_up(v, k as nat),
                decreases PAGE_LINES - k,
            {
                window.move_cursor_up();
                k = k + 1;
            }
            true
        },
        KeyAction::Stop => false,
        _ => true,
    }
}

/// Where a render session stands.
#[derive(Clone, Copy, Debug, PartialEq, Eq, Structural)]
pub enum Phase {
    /// Built, not begun.
    Constructing,
    /// The component is being started: handlers registered, lines set.
    Starting,
    /// The first frame is being drawn.
    Started,
    /// The component's per-frame callback is running.
    Rendering,
    /// Waiting for one key.
    Reading,
    /// A key is being dispatched.
    Dispatching,
    /// The component is being started again after a handler ran a modal
    /// session of its own.
    Restarting,
    /// The frame after a key is being drawn.
    Flushing,
    /// The component's exit callback is running.
    Exiting,
    /// The session is over.
    Exited,
}

/// What the caller is to do next.
#[derive(Clone, Copy, Debug, PartialEq, Eq, Structural)]
pub enum Action {
    /// Clear the region, register the component's handlers and start it.
    Start,
    /// Hand the lines in view to the screen and draw them.
    Flush,
    /// Run the component's per-frame callback.
    Render,
    /// Block for one key.
    ReadKey,
    /// Dispatch the key: the component's handler, or a built-in.
    Dispatch(i32),
    /// Start the component again, so that it reloads its lines.
    Restart,
    /// Run the component's exit callback.
    Exit,
    /// Nothing more: the session is over.
    Finish,
}

/// What came of the last action.
#[derive(Clone, Copy, Debug, PartialEq, Eq, Structural)]
pub enum Event {
    /// The action was carried out.
    Done,
    /// The callback or handler ran and said whether to go on.
    Proceed(bool),
    /// A key was read.
    Key(i32),
    /// The handler ran a modal session over its own region, which has
    /// closed; the component is to be started again before the next frame.
    Reload,
}

/// The action a phase waits on.
pub open spec fn pending(phase: Phase, key: i32) -> Action {
    match phase {
        Phase::Constructing => Action::Start,
        Phase::Starting => Action::Start,
        Phase::Started => Action::Flush,
        Phase::Rendering => Action::Render,
        Phase::Reading => Action::ReadKey,
        Phase::Dispatching => Action::Dispatch(key),
        Phase::Restarting => Action::Restart,
        Phase::Flushing => Action::Flush,
        Phase::Exiting => Action::Exit,
        Phase::Exited => Action::Finish,
    }
}

/// One transition of a render session. An interactive session starts the
/// component, draws, then loops: the per-frame callback, one key, its
/// dispatch, a fresh frame; when the callback or a dispatch says stop, the
/// exit callback runs and the session ends. A dispatch whose handler ran a
/// modal session of its own starts the component again before the fresh
/// frame. A non-interactive session ends
/// after the first frame. An event that does not answer the pending action
/// leaves the session as it is.
///
/// The per-frame callback runs once after the first frame and before the
/// first key is read, not only after each key: a prompt takes over input from
/// that callback (text entry), and must do so before any key is consumed by
/// the dispatch.
pub open spec fn transition(phase: Phase, key: i32, interactive: bool, event: Event) -> (
    Phase,
    i32,
) {
    match (phase, event) {
        (Phase::Constructing, _) => (Phase::Starting, key),
        (Phase::Starting, Event::Done) => (Phase::Started, key),
        (Phase::Started, Event::Done) => if interactive {
            (Phase::Rendering, key)
        } else {
            (Phase::Exited, key)
        },
        (Phase::Rendering, Event::Proceed(go)) => if go {
            (Phase::Reading, key)
        } else {
            (Phase::Exiting, key)
        },
        (Phase::Reading, Event::Key(k)) => (Phase::Dispatching, k),
        (Phase::Dispatching, Event::Proceed(go)) => if go {
            (Phase::Flushing, key)
        } else {
            (Phase::Exiting, key)
        },
        (Phase::Dispatching, Event::Reload) => (Phase::Restarting, key),
        (Phase::Restarting, Event::Done) => (Phase::Flushing, key),
        (Phase::Flushing, Event::Done) => (Phase::Rendering, key),
        (Phase::Exiting, Event::Done) => (Phase::Exited, key),
        _ => (phase, key),
    }
}

/// The decisions of one render session over a component and its window, as
/// a state machine: the caller performs each action and reports the event.
pub struct RenderLoop {
    pub phase: Phase,
    pub key: i32,
    pub interactive: bool,
}

impl RenderLoop {
    /// A session that loops on keys until told to stop.
    pub fn new() -> (r: RenderLoop)
        ensures
            r.phase == Phase::Constructing,
            r.interactive,
    {
        RenderLoop { phase: Phase::Constructing, key: 0, interactive: true }
    }

    /// A session that starts the component and draws one frame, reading no
    /// key.
    pub fn draw_only() -> (r: RenderLoop)
        ensures
            r.phase == Phase::Constructing,
            !r.interactive,
    {
        RenderLoop { phase: Phase::Constructing, key: 0, interactive: false }
    }

    /// The action the session waits on.
    pub fn pending(&self) -> (r: Action)
        ensures
            r == pending(self.phase, self.key),
    {
        match self.phase {
            Phase::Constructing => Action::Start,
            Phase::Starting => Action::Start,
            Phase::Started => Action::Flush,
            Phase::Rendering => Action::Render,
            Phase::Reading => Action::ReadKey,
            Phase::Dispatching => Action::Dispatch(self.key),
            Phase::Restarting => Action::Restart,
            Phase::Flushing => Action::Flush,
            Phase::Exiting => Action::Exit,
            Phase::Exited => Action::Finish,
        }
    }

    /// Takes in what came of the last action and returns the next one.
    pub fn next(&mut self, event: Event) -> (r: Action)
        ensures
            (final(self).phase, final(self).key) == transition(
                old(self).phase,
                old(self).key,
                old(self).interactive,
                event,
            ),
            final(self).interactive == old(self).interactive,
            r == pending(final(self).phase, final(self).key),
    {
        let phase = match (self.phase, event) {
            (Phase::Constructing, _) => Phase::Starting,
            (Phase::Starting, Event::Done) => Phase::Started,
            (Phase::Started, Event::Done) => {
                if self.interactive {
                    Phase::Rendering
                } else {
                    Phase::Exited
                }
            },
            (Phase::Rendering, Event::Proceed(go)) => {
                if go {
                    Phase::Reading
                } else {
                    Phase::Exiting
                }
            },
            (Phase::Reading, Event::Key(k)) => {
                self.key = k;
                Phase::Dispatching
            },
            (Phase::Dispatching, Event::Proceed(go)) => {
                if go {
                    Phase::Flushing
                } else {
                    Phase::Exiting
                }
            },
            (Phase::Dispatching, Event::Reload) => Phase::Restarting,
            (Phase::Restarting, Event::Done) => Phase::Flushing,
            (Phase::Flushing, Event::Done) => Phase::Rendering,
            (Phase::Exiting, Event::Done) => Phase::Exited,
            (p, _) => p,
        };
        self.phase = phase;
        self.pending()
    }

    /// Whether the session is over.
    pub fn is_finished(&self) -> (r: bool)
        ensures
            r == (self.phase == Phase::Exited),
    {
        match self.phase {
            Phase::Exited => true,
            _ => false,
        }
    }
}

/// After a dispatched key says go on, the session draws a fresh frame and
/// runs the per-frame callback before it reads another key; after one says
/// stop, it runs the exit callback and ends without reading one.
pub proof fn lemma_redraw_before_next_key(key: i32, interactive: bool, go: bool)
    ensures
        ({
            let a = transition(Phase::Dispatching, key, interactive, Event::Proceed(go));
            if go {
                &&& pending(a.0, a.1) == Action::Flush
                &&& pending(transition(a.0, a.1, interactive, Event::Done).0, key) == Action::Render
            } else {
                &&& pending(a.0, a.1) == Action::Exit
                &&& transition(a.0, a.1, interactive, Event::Done).0 == Phase::Exited
            }
        }),
{
}

/// A modal session opened from a handler: the child session, once waiting
/// for a key, meets the stop key with nothing bound to it, so it runs its exit
/// callback and ends without reading another key. The parent's handler then
/// reports the return, and the parent starts its component again and draws a
/// fresh frame before it reads its next key.
pub proof fn lemma_modal_child_returns(child_bindings: Map<i32, u32>, parent_key: i32)
    requires
        !child_bindings.dom().contains(KEY_Q_LOWER),
    ensures
        resolve_spec(child_bindings, KEY_Q_LOWER) == KeyAction::Stop,
        ({
            let c1 = transition(Phase::Reading, 0, true, Event::Key(KEY_Q_LOWER));
            let c2 = transition(c1.0, c1.1, true, Event::Proceed(false));
            &&& pending(c1.0, c1.1) == Action::Dispatch(KEY_Q_LOWER)
            &&& pending(c2.0, c2.1) == Action::Exit
            &&& transition(c2.0, c2.1, true, Event::Done).0 == Phase::Exited
        }),
        ({
            let p1 = transition(Phase::Dispatching, parent_key, true, Event::Reload);
            let p2 = transition(p1.0, p1.1, true, Event::Done);
            let p3 = transition(p2.0, p2.1, true, Event::Done);
            let p4 = transition(p3.0, p3.1, true, Event::Proceed(true));
            &&& pending(p1.0, p1.1) == Action::Restart
            &&& pending(p2.0, p2.1) == Action::Flush
            &&& pending(p3.0, p3.1) == Action::Render
            &&& pending(p4.0, p4.1) == Action::ReadKey
        }),
{
}

} // verus!
