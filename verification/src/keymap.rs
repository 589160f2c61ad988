//! Media keys: from platform scancodes to HID consumer-control codes.

use vstd::prelude::*;

verus! {

/// Consumer-control usage "volume increment".
pub const CONSUMER_VOLUME_UP: u16 = 0x00E9;

/// Consumer-control usage "volume decrement".
pub const CONSUMER_VOLUME_DOWN: u16 = 0x00EA;

/// Consumer-control usage "scan next track".
pub const CONSUMER_NEXT_TRACK: u16 = 0x00B5;

/// Consumer-control usage "scan previous track".
pub const CONSUMER_PREVIOUS_TRACK: u16 = 0x00B6;

/// Consumer-control usage "stop".
pub const CONSUMER_STOP: u16 = 0x00B7;

/// Consumer-control usage "play/pause".
pub const CONSUMER_PLAY: u16 = 0x00CD;

/// Consumer-control usage "mute".
pub const CONSUMER_MUTE: u16 = 0x00E2;

/// The media-key table. A scancode that is not in it is an ordinary key.
pub open spec fn consumer_code(raw: u32) -> Option<u16> {
    if raw == 128 {
        Some(CONSUMER_VOLUME_UP)
    } else if raw == 129 {
        Some(CONSUMER_VOLUME_DOWN)
    } else if raw == 258 {
        Some(CONSUMER_NEXT_TRACK)
    } else if raw == 259 {
        Some(CONSUMER_PREVIOUS_TRACK)
    } else if raw == 260 {
        Some(CONSUMER_STOP)
    } else if raw == 261 {
        Some(CONSUMER_PLAY)
    } else if raw == 262 {
        Some(CONSUMER_MUTE)
    } else {
        None
    }
}

/// Looks a platform scancode up in the media-key table.
#[verifier::when_used_as_spec(consumer_code)]
pub fn scancode_to_consumer(raw: u32) -> (code: Option<u16>)
    ensures
        code == consumer_code(raw),
{
    match raw {
        128 => Some(CONSUMER_VOLUME_UP),
        129 => Some(CONSUMER_VOLUME_DOWN),
        258 => Some(CONSUMER_NEXT_TRACK),
        259 => Some(CONSUMER_PREVIOUS_TRACK),
        260 => Some(CONSUMER_STOP),
        261 => Some(CONSUMER_PLAY),
        262 => Some(CONSUMER_MUTE),
        _ => None,
    }
}

} // verus!
