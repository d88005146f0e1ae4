//! How window events change imgui's input state: the key table, the text
//! input queue and the three primary mouse buttons.
use vstd::prelude::*;

verus! {

/// Length of imgui's key-down table, indexed by raw key code.
pub const KEY_TABLE_LEN: usize = 512;

/// Number of mouse buttons whose state is forwarded.
pub const MOUSE_BUTTONS: u32 = 3;

/// The character a backspace key press also produces; it is left out of the
/// text queue because the delete key signal already handles it.
pub const BACKSPACE_CHAR: char = '\u{7f}';

/// The state change a key or button event reports.
#[derive(Clone, Copy, Debug, PartialEq, Eq, Structural)]
pub enum Action {
    Release,
    Press,
    Repeat,
}

/// The window events whose mapping carries no floating-point value.
#[derive(Clone, Copy, Debug, PartialEq, Eq, Structural)]
pub enum InputEvent {
    /// A key changed state; `code` is its raw platform key code.
    Key { code: i32, action: Action },
    /// A character was typed.
    Char(char),
    /// A mouse button changed state; `button` counts from zero.
    MouseButton { button: u32, action: Action },
    /// Any other event.
    Other,
}

/// One mutation of imgui's input state.
#[derive(Clone, Copy, Debug, PartialEq, Eq, Structural)]
pub enum InputUpdate {
    /// Set entry `index` of the key-down table.
    SetKey { index: usize, down: bool },
    /// Append a character to the text input queue.
    PushChar(char),
    /// Set the down state of mouse button `index`.
    SetMouseButton { index: usize, down: bool },
    /// Leave the input state as it is.
    Ignore,
}

pub open spec fn is_press(action: Action) -> bool {
    action == Action::Press
}

/// The update an event makes: a key press or release sets its key's entry
/// (codes outside the table change nothing), a character other than
/// backspace is queued, the three primary mouse buttons set their state.
pub open spec fn update_of(event: InputEvent) -> InputUpdate {
    match event {
        InputEvent::Key { code, action } => if 0 <= code < KEY_TABLE_LEN {
            InputUpdate::SetKey { index: code as usize, down: is_press(action) }
        } else {
            InputUpdate::Ignore
        },
        InputEvent::Char(c) => if c == BACKSPACE_CHAR {
            InputUpdate::Ignore
        } else {
            InputUpdate::PushChar(c)
        },
        InputEvent::MouseButton { button, action } => if button < MOUSE_BUTTONS {
            InputUpdate::SetMouseButton { index: button as usize, down: is_press(action) }
        } else {
            InputUpdate::Ignore
        },
        InputEvent::Other => InputUpdate::Ignore,
    }
}

/// Maps one window event to the input-state update it makes.
pub fn input_update(event: &InputEvent) -> (r: InputUpdate)
    ensures
        r == update_of(*event),
{
    match *event {
        InputEvent::Key { code, action } => {
            if 0 <= code && code < KEY_TABLE_LEN as i32 {
                InputUpdate::SetKey { index: code as usize, down: action == Action::Press }
            } else {
                InputUpdate::Ignore
            }
        },
        InputEvent::Char(c) => {
            if c == BACKSPACE_CHAR {
                InputUpdate::Ignore
            } else {
                InputUpdate::PushChar(c)
            }
        },
        InputEvent::MouseButton { button, action } => {
            if button < MOUSE_BUTTONS {
                InputUpdate::SetMouseButton { index: button as usize, down: action == Action::Press }
            } else {
                InputUpdate::Ignore
            }
        },
        InputEvent::Other => InputUpdate::Ignore,
    }
}

/// The characters that the updates of a sequence of events queue, in order.
pub open spec fn queued_by_updates(events: Seq<InputEvent>) -> Seq<char>
    decreases events.len(),
{
    if events.len() == 0 {
        Seq::empty()
    } else {
        let rest = queued_by_updates(events.drop_last());
        match update_of(events.last()) {
            InputUpdate::PushChar(c) => rest.push(c),
            _ => rest,
        }
    }
}

/// The typed characters of a sequence of events, in order, backspace left out.
pub open spec fn typed_text(events: Seq<InputEvent>) -> Seq<char> {
    events.filter(|e: InputEvent| e is Char && e->Char_0 != BACKSPACE_CHAR).map_values(
        |e: InputEvent| e->Char_0,
    )
}

/// Over any sequence of events, the text queue receives every typed
/// character but backspace, in event order, and nothing else.
pub proof fn lemma_text_queue_skips_backspace(events: Seq<InputEvent>)
    ensures
        queued_by_updates(events) == typed_text(events),
        !queued_by_updates(events).contains(BACKSPACE_CHAR),
    decreases events.len(),
{
    let pred = |e: InputEvent| e is Char && e->Char_0 != BACKSPACE_CHAR;
    if events.len() > 0 {
        lemma_text_queue_skips_backspace(events.drop_last());
        reveal(Seq::filter);
        assert(events.drop_last().push(events.last()) =~= events);
        assert(events.filter(pred) == {
            let f = events.drop_last().filter(pred);
            if pred(events.last()) {
                f.push(events.last())
            } else {
                f
            }
        });
        assert(queued_by_updates(events) =~= typed_text(events));
    } else {
        assert(typed_text(events) =~= Seq::empty());
    }
    assert forall|i: int| 0 <= i < typed_text(events).len() implies typed_text(events)[i]
        != BACKSPACE_CHAR by {
        broadcast use vstd::seq_lib::group_filter_ensures;

        let f = events.filter(pred);
        assert(pred(f[i]));
    }
}

} // verus!
