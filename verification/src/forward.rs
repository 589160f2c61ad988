//! From what the capture layer observes to what goes on the wire.
//!
//! The capture layer reports key presses by platform scancode, mouse buttons
//! one at a time, and motion as deltas since its last report. This module
//! decides what each of these means for the receiver: which event to send, how
//! the button mask changes, and when the session ends.

use vstd::prelude::*;
use crate::keymap::{consumer_code, scancode_to_consumer};
use crate::udp::UdpSender;
use crate::wire::{
    consumer_payload, datagrams, keyboard_payload, mouse_packets, mouse_payload, packet,
    PACKET_TYPE_CONSUMER, PACKET_TYPE_KEYBOARD, PACKET_TYPE_MOUSE,
};

verus! {

/// Scancode of the key that, held with the right control key, ends the session.
pub const SCANCODE_Q: u8 = 20;

/// Scancode of the right control key.
pub const SCANCODE_RIGHT_CTRL: u8 = 228;

/// Bit of the left button in the button mask.
pub const BUTTON_LEFT: u8 = 0x01;

/// Bit of the right button in the button mask.
pub const BUTTON_RIGHT: u8 = 0x02;

/// Bit of the middle button in the button mask.
pub const BUTTON_MIDDLE: u8 = 0x04;

/// An input event as the receiver is told of it.
#[derive(Clone, Copy, Debug, PartialEq, Eq)]
pub enum Event {
    /// An ordinary key went down or up.
    Key { pressed: bool, scancode: u8 },
    /// A media key went down or up.
    Consumer { pressed: bool, code: u16 },
    /// The mouse moved, a wheel turned, or the buttons changed. `buttons` is
    /// the mask of the buttons that are down now.
    Mouse { buttons: u8, dx: i32, dy: i32, vwheel: i32, hwheel: i32 },
}

/// A button of the mouse.
#[derive(Clone, Copy, Debug, PartialEq, Eq)]
pub enum MouseButton {
    Left,
    Right,
    Middle,
    /// Any further button. The receiver is not told of these.
    Other,
}

/// What the capture layer observed.
#[derive(Clone, Copy, Debug, PartialEq, Eq)]
pub enum Captured {
    /// The window was closed.
    Quit,
    /// A key went down. `repeat` marks auto-repeat; `right_ctrl` says whether
    /// the right control key was held.
    KeyDown { scancode: u32, repeat: bool, right_ctrl: bool },
    /// A key went up.
    KeyUp { scancode: u32, repeat: bool },
    /// A mouse button went down.
    ButtonDown { button: MouseButton },
    /// A mouse button went up.
    ButtonUp { button: MouseButton },
    /// The pointer moved by this much since the last report.
    Motion { dx: i32, dy: i32 },
    /// A wheel turned: `x` is the horizontal wheel, `y` the vertical one.
    Wheel { x: i32, y: i32 },
    /// Anything else.
    Other,
}

/// What follows from one observation.
#[derive(Clone, Copy, Debug, PartialEq, Eq)]
pub struct Step {
    /// The button mask from now on.
    pub buttons: u8,
    /// The event to send, if the observation calls for one.
    pub event: Option<Event>,
    /// Whether the pointer moved, so that the capture layer may put it back.
    pub recenter: bool,
    /// Whether the session ends here.
    pub quit: bool,
}

/// The bit that a button has in the button mask. Buttons that are not
/// forwarded have none.
pub open spec fn button_bit(button: MouseButton) -> u8 {
    match button {
        MouseButton::Left => BUTTON_LEFT,
        MouseButton::Right => BUTTON_RIGHT,
        MouseButton::Middle => BUTTON_MIDDLE,
        MouseButton::Other => 0,
    }
}

/// The event for a key, by its platform scancode. A media key is sent by its
/// consumer code. Any other key is sent by its scancode where that fits a
/// byte; where it does not, nothing is sent.
pub open spec fn key_event_of(pressed: bool, raw: u32) -> Option<Event> {
    match consumer_code(raw) {
        Some(code) => Some(Event::Consumer { pressed, code }),
        None => if raw <= 0xff {
            Some(Event::Key { pressed, scancode: raw as u8 })
        } else {
            None
        },
    }
}

/// A step that changes nothing and sends nothing.
pub open spec fn idle(buttons: u8) -> Step {
    Step { buttons, event: None, recenter: false, quit: false }
}

/// A step that reports the button mask `buttons` with no motion.
pub open spec fn report_buttons(buttons: u8) -> Step {
    Step {
        buttons,
        event: Some(Event::Mouse { buttons, dx: 0, dy: 0, vwheel: 0, hwheel: 0 }),
        recenter: false,
        quit: false,
    }
}

/// What follows from an observation, given the button mask before it.
pub open spec fn step_of(buttons: u8, input: Captured) -> Step {
    match input {
        Captured::Quit => Step { buttons, event: None, recenter: false, quit: true },
        Captured::KeyDown { scancode, repeat, right_ctrl } => if repeat {
            idle(buttons)
        } else if scancode == SCANCODE_Q as u32 && right_ctrl {
            Step { buttons, event: None, recenter: false, quit: true }
        } else {
            Step { buttons, event: key_event_of(true, scancode), recenter: false, quit: false }
        },
        Captured::KeyUp { scancode, repeat } => if repeat {
            idle(buttons)
        } else {
            Step { buttons, event: key_event_of(false, scancode), recenter: false, quit: false }
        },
        Captured::ButtonDown { button } => report_buttons(buttons | button_bit(button)),
        Captured::ButtonUp { button } => report_buttons(buttons & !button_bit(button)),
        Captured::Motion { dx, dy } => if dx != 0 || dy != 0 {
            Step {
                buttons,
                event: Some(Event::Mouse { buttons, dx, dy, vwheel: 0, hwheel: 0 }),
                recenter: true,
                quit: false,
            }
        } else {
            idle(buttons)
        },
        Captured::Wheel { x, y } => if x != 0 || y != 0 {
            Step {
                buttons,
                event: Some(Event::Mouse { buttons, dx: 0, dy: 0, vwheel: y, hwheel: x }),
                recenter: false,
                quit: false,
            }
        } else {
            idle(buttons)
        },
        Captured::Other => idle(buttons),
    }
}

/// The datagrams that carry an event, in the order in which they go out.
pub open spec fn event_packets(token: Option<Seq<u8>>, event: Event) -> Seq<Seq<u8>> {
    match event {
        Event::Key { pressed, scancode } => seq![
            packet(PACKET_TYPE_KEYBOARD, token, keyboard_payload(pressed, scancode)),
        ],
        Event::Consumer { pressed, code } => seq![
            packet(PACKET_TYPE_CONSUMER, token, consumer_payload(pressed, code)),
        ],
        Event::Mouse { buttons, dx, dy, vwheel, hwheel } => mouse_packets(
            token,
            buttons,
            dx as int,
            dy as int,
            vwheel as int,
            hwheel as int,
        ),
    }
}

/// The events that end a session: the two keys of the quit combination are
/// released, and the mouse buttons too where any was down.
pub open spec fn release_events(buttons: u8) -> Seq<Event> {
    let keys = seq![
        Event::Key { pressed: false, scancode: SCANCODE_RIGHT_CTRL },
        Event::Key { pressed: false, scancode: SCANCODE_Q },
    ];
    if buttons != 0 {
        keys.push(Event::Mouse { buttons: 0, dx: 0, dy: 0, vwheel: 0, hwheel: 0 })
    } else {
        keys
    }
}

/// The bit of a button in the button mask.
pub fn button_mask(button: MouseButton) -> (bit: u8)
    ensures
        bit == button_bit(button),
{
    match button {
        MouseButton::Left => BUTTON_LEFT,
        MouseButton::Right => BUTTON_RIGHT,
        MouseButton::Middle => BUTTON_MIDDLE,
        MouseButton::Other => 0,
    }
}

/// The event to send for a key that went down or up, if any.
pub fn key_event(pressed: bool, raw: u32) -> (event: Option<Event>)
    ensures
        event == key_event_of(pressed, raw),
{
    match scancode_to_consumer(raw) {
        Some(code) => Some(Event::Consumer { pressed, code }),
        None => {
            if raw <= 0xff {
                Some(Event::Key { pressed, scancode: raw as u8 })
            } else {
                None
            }
        },
    }
}

/// Decides what follows from one observation of the capture layer.
///
/// `buttons` is the mask of the mouse buttons that were down before it. The
/// result holds the mask from now on, the event to send, and whether the
/// session ends.
///
/// Auto-repeat is dropped. Q with the right control key held ends the
/// session, and so does closing the window. A change of a button is always
/// reported, with no motion. Motion and wheel turns are reported unless they
/// are zero on both axes.
pub fn capture_step(buttons: u8, input: Captured) -> (step: Step)
    ensures
        step == step_of(buttons, input),
{
    match input {
        Captured::Quit => Step { buttons, event: None, recenter: false, quit: true },
        Captured::KeyDown { scancode, repeat, right_ctrl } => {
            if repeat {
                Step { buttons, event: None, recenter: false, quit: false }
            } else if scancode == SCANCODE_Q as u32 && right_ctrl {
                Step { buttons, event: None, recenter: false, quit: true }
            } else {
                Step { buttons, event: key_event(true, scancode), recenter: false, quit: false }
            }
        },
        Captured::KeyUp { scancode, repeat } => {
            if repeat {
                Step { buttons, event: None, recenter: false, quit: false }
            } else {
                Step { buttons, event: key_event(false, scancode), recenter: false, quit: false }
            }
        },
        Captured::ButtonDown { button } => {
            let buttons = buttons | button_mask(button);
            Step {
                buttons,
                event: Some(Event::Mouse { buttons, dx: 0, dy: 0, vwheel: 0, hwheel: 0 }),
                recenter: false,
                quit: false,
            }
        },
        Captured::ButtonUp { button } => {
            let buttons = buttons & !button_mask(button);
            Step {
                buttons,
                event: Some(Event::Mouse { buttons, dx: 0, dy: 0, vwheel: 0, hwheel: 0 }),
                recenter: false,
                quit: false,
            }
        },
        Captured::Motion { dx, dy } => {
            if dx != 0 || dy != 0 {
                Step {
                    buttons,
                    event: Some(Event::Mouse { buttons, dx, dy, vwheel: 0, hwheel: 0 }),
                    recenter: true,
                    quit: false,
                }
            } else {
                Step { buttons, event: None, recenter: false, quit: false }
            }
        },
        Captured::Wheel { x, y } => {
            if x != 0 || y != 0 {
                Step {
                    buttons,
                    event: Some(Event::Mouse { buttons, dx: 0, dy: 0, vwheel: y, hwheel: x }),
                    recenter: false,
                    quit: false,
                }
            } else {
                Step { buttons, event: None, recenter: false, quit: false }
            }
        },
        Captured::Other => Step { buttons, event: None, recenter: false, quit: false },
    }
}

/// The events to send when the session ends, so that no key and no button
/// stays down at the receiver.
pub fn release_all(buttons: u8) -> (events: Vec<Event>)
    ensures
        events@ == release_events(buttons),
{
    let mut events: Vec<Event> = Vec::new();
    events.push(Event::Key { pressed: false, scancode: SCANCODE_RIGHT_CTRL });
    events.push(Event::Key { pressed: false, scancode: SCANCODE_Q });
    if buttons != 0 {
        events.push(Event::Mouse { buttons: 0, dx: 0, dy: 0, vwheel: 0, hwheel: 0 });
    }
    events
}

impl UdpSender {
    /// The datagrams that carry an event, in the order in which they go out.
    pub fn send(&self, event: Event) -> (packets: Vec<Vec<u8>>)
        ensures
            datagrams(packets@) == event_packets(self@.token, event),
    {
        match event {
            Event::Key { pressed, scancode } => {
                let mut packets: Vec<Vec<u8>> = Vec::new();
                packets.push(self.send_keyboard(pressed, scancode));
                packets
            },
            Event::Consumer { pressed, code } => {
                let mut packets: Vec<Vec<u8>> = Vec::new();
                packets.push(self.send_consumer(pressed, code));
                packets
            },
            Event::Mouse { buttons, dx, dy, vwheel, hwheel } => self.send_mouse(
                buttons,
                dx,
                dy,
                vwheel,
                hwheel,
            ),
        }
    }
}

/// A change of a mouse button is reported in exactly one packet, which
/// carries the new button mask and no motion.
pub proof fn button_change_takes_one_packet(
    token: Option<Seq<u8>>,
    buttons: u8,
    button: MouseButton,
    down: bool,
)
    ensures
        ({
            let input = if down {
                Captured::ButtonDown { button }
            } else {
                Captured::ButtonUp { button }
            };
            let step = step_of(buttons, input);
            &&& step.buttons == if down {
                buttons | button_bit(button)
            } else {
                buttons & !button_bit(button)
            }
            &&& step.event matches Some(event)
            &&& event_packets(token, event) == seq![
                packet(PACKET_TYPE_MOUSE, token, mouse_payload(step.buttons, 0, 0, 0, 0)),
            ]
        }),
{
}

} // verus!
