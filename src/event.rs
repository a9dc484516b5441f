//! The canonical input-event record handed to the event sink.

use vstd::prelude::*;

verus! {

/// Which kind of input occurred.
#[derive(Clone, Copy, Debug, PartialEq, Eq, Structural)]
pub enum EventKind {
    KeyPress,
    KeyRelease,
    MouseMove,
    MousePress,
    MouseRelease,
    Wheel,
}

impl EventKind {
    /// The name under which the kind travels in an event payload.
    pub open spec fn spec_name(self) -> Seq<char> {
        match self {
            EventKind::KeyPress => "key_press"@,
            EventKind::KeyRelease => "key_release"@,
            EventKind::MouseMove => "mouse_move"@,
            EventKind::MousePress => "mouse_press"@,
            EventKind::MouseRelease => "mouse_release"@,
            EventKind::Wheel => "wheel"@,
        }
    }

    pub fn name(&self) -> (r: &'static str)
        ensures
            r@ == self.spec_name(),
    {
        match self {
            EventKind::KeyPress => "key_press",
            EventKind::KeyRelease => "key_release",
            EventKind::MouseMove => "mouse_move",
            EventKind::MousePress => "mouse_press",
            EventKind::MouseRelease => "mouse_release",
            EventKind::Wheel => "wheel",
        }
    }

    /// The kind whose payload name is `s`, if there is one.
    pub fn from_name(s: &str) -> (r: Option<EventKind>)
        ensures
            match r {
                Some(k) => s@ == k.spec_name(),
                None => forall|k: EventKind| s@ != #[trigger] k.spec_name(),
            },
    {
        proof {
            reveal_strlit("key_press");
            reveal_strlit("key_release");
            reveal_strlit("mouse_move");
            reveal_strlit("mouse_press");
            reveal_strlit("mouse_release");
            reveal_strlit("wheel");
        }
        let t = String::from_str(s);
        if t == String::from_str("key_press") {
            Some(EventKind::KeyPress)
        } else if t == String::from_str("key_release") {
            Some(EventKind::KeyRelease)
        } else if t == String::from_str("mouse_move") {
            Some(EventKind::MouseMove)
        } else if t == String::from_str("mouse_press") {
            Some(EventKind::MousePress)
        } else if t == String::from_str("mouse_release") {
            Some(EventKind::MouseRelease)
        } else if t == String::from_str("wheel") {
            Some(EventKind::Wheel)
        } else {
            assert forall|k: EventKind| s@ != #[trigger] k.spec_name() by {
                match k {
                    EventKind::KeyPress => {},
                    EventKind::KeyRelease => {},
                    EventKind::MouseMove => {},
                    EventKind::MousePress => {},
                    EventKind::MouseRelease => {},
                    EventKind::Wheel => {},
                }
            }
            None
        }
    }
}

/// One normalized input occurrence. Which of the optional fields are
/// present depends on `kind` alone (see [`EventView::well_formed`]).
#[derive(Clone, Debug)]
pub struct InputEvent {
    pub kind: EventKind,
    /// Key identifier for key events; the scroll amounts for wheel events.
    pub key: Option<String>,
    pub mouse_x: Option<i32>,
    pub mouse_y: Option<i32>,
    /// Button identifier for button events.
    pub button: Option<String>,
}

/// The mathematical value of an [`InputEvent`]: its texts as character
/// sequences.
pub ghost struct EventView {
    pub kind: EventKind,
    pub key: Option<Seq<char>>,
    pub mouse_x: Option<i32>,
    pub mouse_y: Option<i32>,
    pub button: Option<Seq<char>>,
}

/// An optional text as an optional character sequence.
pub open spec fn text_view(o: Option<String>) -> Option<Seq<char>> {
    match o {
        Some(s) => Some(s@),
        None => None,
    }
}

impl View for InputEvent {
    type V = EventView;

    open spec fn view(&self) -> EventView {
        EventView {
            kind: self.kind,
            key: text_view(self.key),
            mouse_x: self.mouse_x,
            mouse_y: self.mouse_y,
            button: text_view(self.button),
        }
    }
}

impl EventView {
    /// Exactly the fields that belong to the kind are present.
    pub open spec fn well_formed(self) -> bool {
        match self.kind {
            EventKind::KeyPress | EventKind::KeyRelease | EventKind::Wheel => {
                &&& self.key is Some
                &&& self.mouse_x is None
                &&& self.mouse_y is None
                &&& self.button is None
            },
            EventKind::MouseMove => {
                &&& self.key is None
                &&& self.mouse_x is Some
                &&& self.mouse_y is Some
                &&& self.button is None
            },
            EventKind::MousePress | EventKind::MouseRelease => {
                &&& self.key is None
                &&& self.mouse_x is None
                &&& self.mouse_y is None
                &&& self.button is Some
            },
        }
    }
}

impl InputEvent {
    /// The payload name of this event's kind.
    pub fn event_type(&self) -> (r: &'static str)
        ensures
            r@ == self.kind.spec_name(),
    {
        self.kind.name()
    }
}

} // verus!
