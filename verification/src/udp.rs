//! The datagram protocol: packet layout and the encoding of each event class.
//!
//! A [`UdpSender`] stands for one session. It holds the receiver's host and the
//! session token, and turns each input event into the datagrams that carry it.
//! Handing those datagrams to a socket is left to the caller.

use vstd::prelude::*;
use vstd::string::*;
use crate::token::token_view;
use crate::wire::{
    clamp_axis, consumer_payload, datagrams, header, keyboard_payload, mouse_packets,
    mouse_payload, mouse_report_count, packet, remaining, report_delta, signed_byte,
    AUTH_MODE_OPEN, AUTH_MODE_TOKEN, PACKET_TYPE_CONSUMER, PACKET_TYPE_KEYBOARD, PACKET_TYPE_MOUSE,
};

verus! {

/// What a session is made of.
pub struct Session {
    pub host: Seq<char>,
    pub token: Option<Seq<u8>>,
}

/// One forwarding session: where the packets go and the token they carry.
/// Neither changes once the session is made.
pub struct UdpSender {
    host: String,
    token: Option<[u8; 16]>,
}

impl View for UdpSender {
    type V = Session;

    closed spec fn view(&self) -> Session {
        Session { host: self.host@, token: token_view(self.token) }
    }
}

/// Cuts a delta down to -127..=127.
pub fn clamp8(v: i32) -> (c: i8)
    ensures
        c == clamp_axis(v as int),
{
    if v > 127 {
        127
    } else if v < -127 {
        -127
    } else {
        v as i8
    }
}

/// The two's-complement byte of a signed value.
fn byte_of(v: i8) -> (b: u8)
    ensures
        b == signed_byte(v as int),
{
    if v >= 0 {
        v as u8
    } else {
        (v as i16 + 256) as u8
    }
}

impl UdpSender {
    /// A session with the receiver at `host`, authenticated where `token` is given.
    pub fn new(host: &str, token: Option<[u8; 16]>) -> (sender: Self)
        ensures
            sender@.host == host@,
            sender@.token == token_view(token),
    {
        UdpSender { host: String::from_str(host), token }
    }

    /// The receiver's host, as the session was given it.
    pub fn host(&self) -> (host: &str)
        ensures
            host@ == self@.host,
    {
        self.host.as_str()
    }

    /// The session token, where the session is authenticated.
    pub fn token(&self) -> (token: Option<[u8; 16]>)
        ensures
            token_view(token) == self@.token,
    {
        self.token
    }

    /// The address that the datagrams go to: the host, a colon and the port.
    pub fn address(&self) -> (addr: String)
        ensures
            addr@ == self@.host + ":4444"@,
    {
        let mut addr = String::from_str(self.host.as_str());
        addr.append(":4444");
        addr
    }

    fn build_header(&self, pkt_type: u8) -> (hdr: Vec<u8>)
        ensures
            hdr@ == header(pkt_type, self@.token),
    {
        match &self.token {
            Some(token) => {
                let mut hdr = Vec::with_capacity(18);
                hdr.push(pkt_type);
                hdr.push(AUTH_MODE_TOKEN);
                hdr.extend_from_slice(token.as_slice());
                hdr
            },
            None => {
                let mut hdr = Vec::with_capacity(2);
                hdr.push(pkt_type);
                hdr.push(AUTH_MODE_OPEN);
                hdr
            },
        }
    }

    /// The datagram for a key that went down or up.
    pub fn send_keyboard(&self, pressed: bool, scancode: u8) -> (pkt: Vec<u8>)
        ensures
            pkt@ == packet(PACKET_TYPE_KEYBOARD, self@.token, keyboard_payload(pressed, scancode)),
    {
        let mut pkt = self.build_header(PACKET_TYPE_KEYBOARD);
        pkt.push(if pressed { 1 } else { 0 });
        pkt.push(0);
        pkt.push(scancode);
        pkt
    }

    /// The datagram for a media key that went down or up.
    pub fn send_consumer(&self, pressed: bool, code: u16) -> (pkt: Vec<u8>)
        ensures
            pkt@ == packet(PACKET_TYPE_CONSUMER, self@.token, consumer_payload(pressed, code)),
    {
        let low: u8 = (code & 0xff) as u8;
        let high: u8 = (code >> 8) as u8;
        assert(code & 0xff == code % 256 && code >> 8 == code / 256) by (bit_vector);
        let mut pkt = self.build_header(PACKET_TYPE_CONSUMER);
        pkt.push(if pressed { 1 } else { 0 });
        pkt.push(low);
        pkt.push(high);
        pkt
    }

    /// The datagrams for one mouse event, in the order in which they go out.
    ///
    /// A delta may be larger than the signed byte that a report has for it.
    /// Each report carries as much of every axis as fits, and reports follow
    /// until nothing is left of any axis. Every one of them carries the button
    /// mask as it is now. An event with no motion at all still takes one report.
    pub fn send_mouse(
        &self,
        buttons: u8,
        x: i32,
        y: i32,
        vert: i32,
        horiz: i32,
    ) -> (packets: Vec<Vec<u8>>)
        ensures
            datagrams(packets@) == mouse_packets(
                self@.token,
                buttons,
                x as int,
                y as int,
                vert as int,
                horiz as int,
            ),
    {
        let ghost count = mouse_report_count(x as int, y as int, vert as int, horiz as int);
        let mut packets: Vec<Vec<u8>> = Vec::new();
        let mut rx = x;
        let mut ry = y;
        let mut rv = vert;
        let mut rh = horiz;
        loop
            invariant_except_break
                packets@.len() < count,
                rx == remaining(x as int, packets@.len() as int),
                ry == remaining(y as int, packets@.len() as int),
                rv == remaining(vert as int, packets@.len() as int),
                rh == remaining(horiz as int, packets@.len() as int),
            invariant
                count == mouse_report_count(x as int, y as int, vert as int, horiz as int),
                packets@.len() <= count,
                forall|k: int|
                    0 <= k < packets@.len() ==> (#[trigger] packets@[k])@ == packet(
                        PACKET_TYPE_MOUSE,
                        self@.token,
                        mouse_payload(
                            buttons,
                            report_delta(x as int, k),
                            report_delta(y as int, k),
                            report_delta(vert as int, k),
                            report_delta(horiz as int, k),
                        ),
                    ),
            ensures
                packets@.len() == count,
            decreases count - packets@.len(),
        {
            let cx = clamp8(rx);
            let cy = clamp8(ry);
            let cv = clamp8(rv);
            let ch = clamp8(rh);

            let mut pkt = self.build_header(PACKET_TYPE_MOUSE);
            pkt.push(buttons);
            pkt.push(byte_of(cx));
            pkt.push(byte_of(cy));
            pkt.push(byte_of(cv));
            pkt.push(byte_of(ch));
            packets.push(pkt);

            rx -= cx as i32;
            ry -= cy as i32;
            rv -= cv as i32;
            rh -= ch as i32;

            if rx == 0 && ry == 0 && rv == 0 && rh == 0 {
                break ;
            }
        }
        packets
    }
}

} // verus!
