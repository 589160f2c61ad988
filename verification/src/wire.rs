//! The wire format: how a datagram is laid out, and how a mouse delta that
//! does not fit one report is spread over several.

use vstd::prelude::*;
use crate::token::token_view;

verus! {

/// The UDP port that the receiver listens on.
pub const PORT: u16 = 4444;

/// Packet-type tag of a keyboard report.
pub const PACKET_TYPE_KEYBOARD: u8 = 0x01;

/// Packet-type tag of a mouse report.
pub const PACKET_TYPE_MOUSE: u8 = 0x02;

/// Packet-type tag of a consumer-control report.
pub const PACKET_TYPE_CONSUMER: u8 = 0x03;

/// Auth-mode tag of a packet that carries no token.
pub const AUTH_MODE_OPEN: u8 = 0x01;

/// Auth-mode tag of a packet whose header carries the session token.
pub const AUTH_MODE_TOKEN: u8 = 0x02;

/// The header of a packet: type tag, auth-mode tag, and the token where the
/// session has one.
pub open spec fn header(pkt_type: u8, token: Option<Seq<u8>>) -> Seq<u8> {
    match token {
        Some(bytes) => seq![pkt_type, AUTH_MODE_TOKEN] + bytes,
        None => seq![pkt_type, AUTH_MODE_OPEN],
    }
}

/// A whole packet: header, then the payload of its type.
pub open spec fn packet(pkt_type: u8, token: Option<Seq<u8>>, payload: Seq<u8>) -> Seq<u8> {
    header(pkt_type, token) + payload
}

/// The byte that says whether a key went down (1) or up (0).
pub open spec fn pressed_byte(pressed: bool) -> u8 {
    if pressed {
        1
    } else {
        0
    }
}

/// A value of -128..=127 as the byte that holds it in two's complement.
pub open spec fn signed_byte(v: int) -> u8 {
    if v >= 0 {
        v as u8
    } else {
        (v + 256) as u8
    }
}

/// Payload of a keyboard report. The modifier byte is always zero.
pub open spec fn keyboard_payload(pressed: bool, scancode: u8) -> Seq<u8> {
    seq![pressed_byte(pressed), 0u8, scancode]
}

/// Payload of a consumer-control report: the code goes out low byte first.
pub open spec fn consumer_payload(pressed: bool, code: u16) -> Seq<u8> {
    seq![pressed_byte(pressed), (code % 256) as u8, (code / 256) as u8]
}

/// Payload of a mouse report: the button mask, then the two motion axes and
/// the two wheel axes as signed bytes.
pub open spec fn mouse_payload(buttons: u8, dx: int, dy: int, vwheel: int, hwheel: int) -> Seq<u8> {
    seq![buttons, signed_byte(dx), signed_byte(dy), signed_byte(vwheel), signed_byte(hwheel)]
}

/// A delta cut down to what one report can carry on an axis.
pub open spec fn clamp_axis(v: int) -> int {
    if v > 127 {
        127
    } else if v < -127 {
        -127
    } else {
        v
    }
}

/// What is still to be conveyed of a delta `v` once `k` reports have gone out.
pub open spec fn remaining(v: int, k: int) -> int {
    if v >= 0 {
        if v - 127 * k > 0 {
            v - 127 * k
        } else {
            0
        }
    } else {
        if v + 127 * k < 0 {
            v + 127 * k
        } else {
            0
        }
    }
}

/// The value that report `k` (counted from 0) carries for a delta `v`.
pub open spec fn report_delta(v: int, k: int) -> int {
    clamp_axis(remaining(v, k))
}

/// The number of reports it takes to convey a delta `v` on one axis: its
/// magnitude over 127, rounded up.
pub open spec fn reports_needed(v: int) -> int {
    if v >= 0 {
        (v + 126) / 127
    } else {
        (126 - v) / 127
    }
}

/// The larger of two numbers.
pub open spec fn larger(a: int, b: int) -> int {
    if a >= b {
        a
    } else {
        b
    }
}

/// The number of packets that one mouse event takes: as many as its most
/// demanding axis needs, and one where nothing moved.
pub open spec fn mouse_report_count(dx: int, dy: int, vwheel: int, hwheel: int) -> int {
    larger(
        1,
        larger(
            larger(reports_needed(dx), reports_needed(dy)),
            larger(reports_needed(vwheel), reports_needed(hwheel)),
        ),
    )
}

/// The packets of one mouse event, in the order in which they go out.
pub open spec fn mouse_packets(
    token: Option<Seq<u8>>,
    buttons: u8,
    dx: int,
    dy: int,
    vwheel: int,
    hwheel: int,
) -> Seq<Seq<u8>> {
    Seq::new(
        mouse_report_count(dx, dy, vwheel, hwheel) as nat,
        |k: int|
            packet(
                PACKET_TYPE_MOUSE,
                token,
                mouse_payload(
                    buttons,
                    report_delta(dx, k),
                    report_delta(dy, k),
                    report_delta(vwheel, k),
                    report_delta(hwheel, k),
                ),
            ),
    )
}

/// The bytes of each datagram in a list.
pub open spec fn datagrams(packets: Seq<Vec<u8>>) -> Seq<Seq<u8>> {
    Seq::new(packets.len(), |i: int| packets[i]@)
}

/// The number of bytes that the header takes.
pub open spec fn header_len(token: Option<Seq<u8>>) -> int {
    match token {
        Some(bytes) => 2 + bytes.len() as int,
        None => 2,
    }
}

/// The signed value that a byte holds in two's complement.
pub open spec fn signed_value(b: u8) -> int {
    if b < 128 {
        b as int
    } else {
        b - 256
    }
}

/// The value that a mouse packet carries on an axis. The axes are numbered in
/// the order of the payload: 0 and 1 for the motion in x and y, 2 for the
/// vertical wheel, 3 for the horizontal one.
pub open spec fn carried(pkt: Seq<u8>, token: Option<Seq<u8>>, axis: int) -> int {
    signed_value(pkt[header_len(token) + 1 + axis])
}

/// What the first `n` packets of a list carry on an axis, taken together.
pub open spec fn carried_total(
    packets: Seq<Seq<u8>>,
    token: Option<Seq<u8>>,
    axis: int,
    n: int,
) -> int
    decreases n,
{
    if n <= 0 {
        0
    } else {
        carried_total(packets, token, axis, n - 1) + carried(packets[n - 1], token, axis)
    }
}

/// Every packet starts with its type tag and the auth-mode tag. Without a
/// token the mode is 0x01 and the payload follows at once. With a token the
/// mode is 0x02, the 16 bytes of the token follow, and the payload comes after
/// these 18 bytes.
pub proof fn header_layout(pkt_type: u8, token: Option<[u8; 16]>, payload: Seq<u8>)
    ensures
        token is None ==> packet(pkt_type, token_view(token), payload) == seq![pkt_type, 0x01u8]
            + payload,
        token matches Some(bytes) ==> {
            let pkt = packet(pkt_type, token_view(token), payload);
            &&& pkt.subrange(0, 18) == seq![pkt_type, 0x02u8] + bytes@
            &&& pkt.subrange(18, pkt.len() as int) == payload
        },
{
}

/// All the packets of a session carry the same auth mode, whatever their
/// type and payload: the mode goes by the token alone.
pub proof fn auth_mode_is_fixed(
    token: Option<Seq<u8>>,
    type_a: u8,
    payload_a: Seq<u8>,
    type_b: u8,
    payload_b: Seq<u8>,
)
    ensures
        packet(type_a, token, payload_a)[1] == packet(type_b, token, payload_b)[1],
        packet(type_a, token, payload_a)[1] == if token is Some {
            AUTH_MODE_TOKEN
        } else {
            AUTH_MODE_OPEN
        },
{
}

/// A signed byte reads back as the value that was written into it.
pub proof fn signed_byte_round_trip(v: int)
    requires
        -128 <= v <= 127,
    ensures
        signed_value(signed_byte(v)) == v,
{
}

/// The number of reports that an axis needs is its magnitude over 127, rounded
/// up: none for zero, and otherwise the least number of steps of 127 that
/// reaches the magnitude.
pub proof fn reports_needed_is_ceiling(v: int)
    ensures
        v == 0 ==> reports_needed(v) == 0,
        v > 0 ==> 127 * (reports_needed(v) - 1) < v <= 127 * reports_needed(v),
        v < 0 ==> 127 * (reports_needed(v) - 1) < -v <= 127 * reports_needed(v),
{
}

/// Each report carries between -127 and 127 on an axis. It carries something
/// exactly as long as the axis still needs reports, so the number of reports
/// that move an axis is the number that the axis needs.
pub proof fn report_delta_bounds(v: int, k: int)
    requires
        0 <= k,
    ensures
        -127 <= report_delta(v, k) <= 127,
        report_delta(v, k) != 0 <==> k < reports_needed(v),
        report_delta(v, k) == remaining(v, k) - remaining(v, k + 1),
{
}

/// A mouse event takes one packet where nothing moved, and otherwise as many
/// as the axis with the largest magnitude needs.
pub proof fn mouse_report_count_bounds(dx: int, dy: int, vwheel: int, hwheel: int)
    ensures
        mouse_report_count(dx, dy, vwheel, hwheel) >= 1,
        mouse_report_count(dx, dy, vwheel, hwheel) >= reports_needed(dx),
        mouse_report_count(dx, dy, vwheel, hwheel) >= reports_needed(dy),
        mouse_report_count(dx, dy, vwheel, hwheel) >= reports_needed(vwheel),
        mouse_report_count(dx, dy, vwheel, hwheel) >= reports_needed(hwheel),
        dx == 0 && dy == 0 && vwheel == 0 && hwheel == 0 ==> mouse_report_count(
            dx,
            dy,
            vwheel,
            hwheel,
        ) == 1,
        dy == 0 && vwheel == 0 && hwheel == 0 && dx != 0 ==> mouse_report_count(
            dx,
            dy,
            vwheel,
            hwheel,
        ) == reports_needed(dx),
        dx == 0 && vwheel == 0 && hwheel == 0 && dy != 0 ==> mouse_report_count(
            dx,
            dy,
            vwheel,
            hwheel,
        ) == reports_needed(dy),
        dx == 0 && dy == 0 && hwheel == 0 && vwheel != 0 ==> mouse_report_count(
            dx,
            dy,
            vwheel,
            hwheel,
        ) == reports_needed(vwheel),
        dx == 0 && dy == 0 && vwheel == 0 && hwheel != 0 ==> mouse_report_count(
            dx,
            dy,
            vwheel,
            hwheel,
        ) == reports_needed(hwheel),
{
}

/// The packets of a mouse event convey the event exactly. There are as many
/// as the event needs. Each holds the header, the button mask and, on every
/// axis, the share of the delta that falls to it. On every axis these shares
/// add up to the delta that was given.
pub proof fn mouse_packets_convey_event(
    token: Option<[u8; 16]>,
    buttons: u8,
    dx: int,
    dy: int,
    vwheel: int,
    hwheel: int,
)
    ensures
        ({
            let tok = token_view(token);
            let pkts = mouse_packets(tok, buttons, dx, dy, vwheel, hwheel);
            let n = pkts.len() as int;
            &&& n == mouse_report_count(dx, dy, vwheel, hwheel)
            &&& forall|k: int|
                0 <= k < n ==> {
                    &&& (#[trigger] pkts[k]).len() == header_len(tok) + 5
                    &&& pkts[k].subrange(0, header_len(tok)) == header(PACKET_TYPE_MOUSE, tok)
                    &&& pkts[k][header_len(tok)] == buttons
                    &&& carried(pkts[k], tok, 0) == report_delta(dx, k)
                    &&& carried(pkts[k], tok, 1) == report_delta(dy, k)
                    &&& carried(pkts[k], tok, 2) == report_delta(vwheel, k)
                    &&& carried(pkts[k], tok, 3) == report_delta(hwheel, k)
                }
            &&& carried_total(pkts, tok, 0, n) == dx
            &&& carried_total(pkts, tok, 1, n) == dy
            &&& carried_total(pkts, tok, 2, n) == vwheel
            &&& carried_total(pkts, tok, 3, n) == hwheel
        }),
{
    let tok = token_view(token);
    let pkts = mouse_packets(tok, buttons, dx, dy, vwheel, hwheel);
    let n = pkts.len() as int;
    carried_total_telescopes(pkts, tok, 0, dx, n);
    carried_total_telescopes(pkts, tok, 1, dy, n);
    carried_total_telescopes(pkts, tok, 2, vwheel, n);
    carried_total_telescopes(pkts, tok, 3, hwheel, n);
}

/// Where packet `k` carries report `k` of a delta `v` on an axis, the first
/// `n` packets together carry what `n` reports take off `v`.
proof fn carried_total_telescopes(
    packets: Seq<Seq<u8>>,
    token: Option<Seq<u8>>,
    axis: int,
    v: int,
    n: int,
)
    requires
        0 <= n <= packets.len(),
        forall|k: int|
            0 <= k < n ==> carried(#[trigger] packets[k], token, axis) == report_delta(v, k),
    ensures
        carried_total(packets, token, axis, n) == v - remaining(v, n),
    decreases n,
{
    if n > 0 {
        carried_total_telescopes(packets, token, axis, v, n - 1);
    }
}

} // verus!
