//! The adapter protocol: fixed 13-byte frames exchanged with the
//! CAN-to-Ethernet adapter, one connection per physical bus.
//!
//! Byte 0 holds the extended-ID flag (bit 7), the remote-frame flag (bit 6)
//! and the DLC (bits 3-0); bytes 1-4 the big-endian identifier; bytes 5-12
//! the payload, zero past the DLC.

use vstd::prelude::*;
use vstd::slice::slice_subrange;
use crate::frame::{id_fits, Message, MessageView, CAN_MAX_DLC};

verus! {

/// Length of an adapter-protocol frame on the wire.
pub const CANET_FRAME_LEN: usize = 13;

/// The smallest bus index that outgoing frames are routed by: the bus of a
/// frame is raised to at least this value before a connection is chosen.
pub const ROUTE_MIN_BUS: u8 = 1;

/// The 32-bit value of four big-endian bytes.
pub open spec fn be_u32(b0: u8, b1: u8, b2: u8, b3: u8) -> u32 {
    (b0 as int * 0x1000000 + b1 as int * 0x10000 + b2 as int * 0x100 + b3 as int) as u32
}

/// The four big-endian bytes of `x`.
pub open spec fn be_bytes(x: u32) -> Seq<u8> {
    seq![
        (x / 0x1000000) as u8,
        (x / 0x10000 % 0x100) as u8,
        (x / 0x100 % 0x100) as u8,
        (x % 0x100) as u8,
    ]
}

/// Byte 0 of the wire frame of `v`.
pub open spec fn canet_header(v: MessageView) -> u8 {
    ((if v.ext_id() { 0x80int } else { 0 }) + (if v is Remote { 0x40int } else { 0 })
        + v.dlc()) as u8
}

/// Bytes 5 to 12 of the wire frame of `v`: the payload, padded with zeros.
pub open spec fn canet_payload(v: MessageView) -> Seq<u8> {
    Seq::new(
        8,
        |i: int|
            match v {
                MessageView::Data { data, .. } => if i < data.len() {
                    data[i]
                } else {
                    0u8
                },
                MessageView::Remote { .. } => 0u8,
            },
    )
}

/// The 13-byte wire frame of `v`.
pub open spec fn canet_bytes(v: MessageView) -> Seq<u8> {
    seq![canet_header(v)] + be_bytes(v.id()) + canet_payload(v)
}

/// The message that the 13-byte wire frame `b` carries, received on `bus`;
/// `None` where its fields break the frame invariants.
pub open spec fn canet_decode(b: Seq<u8>, bus: u8) -> Option<MessageView>
    recommends
        b.len() == CANET_FRAME_LEN,
{
    let ext_id = b[0] & 0x80 != 0;
    let dlc = b[0] & 0x0F;
    let id = be_u32(b[1], b[2], b[3], b[4]);
    if !id_fits(id, ext_id) || dlc as usize > CAN_MAX_DLC {
        None
    } else if b[0] & 0x40 != 0 {
        Some(MessageView::Remote { bus, id, ext_id, dlc })
    } else {
        Some(MessageView::Data { bus, id, ext_id, data: b.subrange(5, 5 + dlc) })
    }
}

/// The view of an optional message.
pub open spec fn opt_view(m: Option<Message>) -> Option<MessageView> {
    match m {
        Some(m) => Some(m@),
        None => None,
    }
}

/// Reads a big-endian 32-bit value.
pub fn read_be_u32(b0: u8, b1: u8, b2: u8, b3: u8) -> (r: u32)
    ensures
        r == be_u32(b0, b1, b2, b3),
        r as int == b0 as int * 0x1000000 + b1 as int * 0x10000 + b2 as int * 0x100 + b3 as int,
{
    (b0 as u32) * 0x1000000 + (b1 as u32) * 0x10000 + (b2 as u32) * 0x100 + b3 as u32
}

/// Decodes a 13-byte adapter frame received on the connection serving `bus`.
/// Yields `None` where the frame breaks the invariants of a [`Message`].
pub fn decode_canet_frame(buf: &[u8; 13], bus: u8) -> (r: Option<Message>)
    ensures
        opt_view(r) == canet_decode(buf@, bus),
{
    let h = buf[0];
    let ext_id = (h & 0x80) != 0;
    let dlc = h & 0x0F;
    let id = read_be_u32(buf[1], buf[2], buf[3], buf[4]);
    if (h & 0x40) != 0 {
        match Message::new_remote(bus, id, ext_id, dlc) {
            Ok(m) => Some(m),
            Err(_) => None,
        }
    } else if dlc as usize > CAN_MAX_DLC {
        None
    } else {
        let payload = slice_subrange(buf.as_slice(), 5, 5 + dlc as usize);
        match Message::new_data(bus, id, ext_id, payload) {
            Ok(m) => Some(m),
            Err(_) => None,
        }
    }
}

/// An encoded adapter frame, tagged with the connection it is written to.
#[derive(Debug, Clone, Copy)]
pub enum CanetMsg {
    /// For the connection of the primary bus.
    Can1([u8; 13]),
    /// For the connection of the secondary bus.
    Can2([u8; 13]),
}

/// The bus index that a frame of bus `bus` is routed by.
pub open spec fn routed_bus(bus: u8) -> u8 {
    if bus < ROUTE_MIN_BUS {
        ROUTE_MIN_BUS
    } else {
        bus
    }
}

/// Byte `i` of the zero-padded payload.
pub(crate) fn padded_byte(data: &[u8], i: usize) -> (r: u8)
    ensures
        r == (if i < data@.len() {
            data@[i as int]
        } else {
            0u8
        }),
{
    if i < data.len() {
        data[i]
    } else {
        0
    }
}

/// Encodes `msg` as a 13-byte adapter frame.
pub fn encode_canet_frame(msg: &Message) -> (r: [u8; 13])
    ensures
        r@ == canet_bytes(msg@),
{
    msg.check_wf();
    let ext_flag: u8 = if msg.ext_id() {
        0x80
    } else {
        0
    };
    let remote_flag: u8 = match msg {
        Message::Data(..) => 0,
        Message::Remote(..) => 0x40,
    };
    let h = ext_flag + remote_flag + msg.dlc();
    let id = msg.id();
    let empty: [u8; 0] = [];
    let data: &[u8] = match msg.data() {
        Some(d) => d,
        None => empty.as_slice(),
    };
    let r = [
        h,
        (id / 0x1000000) as u8,
        (id / 0x10000 % 0x100) as u8,
        (id / 0x100 % 0x100) as u8,
        (id % 0x100) as u8,
        padded_byte(data, 0),
        padded_byte(data, 1),
        padded_byte(data, 2),
        padded_byte(data, 3),
        padded_byte(data, 4),
        padded_byte(data, 5),
        padded_byte(data, 6),
        padded_byte(data, 7),
    ];
    assert(r@ =~= canet_bytes(msg@));
    r
}

/// Encodes `msg` for the adapter and picks the connection by its bus, raised
/// to at least [`ROUTE_MIN_BUS`]: routed bus 0 goes to the primary
/// connection, routed bus 1 to the secondary one.
pub fn convert_to_canet(msg: Message) -> (r: CanetMsg)
    requires
        routed_bus(msg@.bus()) <= 1,
    ensures
        match r {
            CanetMsg::Can1(b) => routed_bus(msg@.bus()) == 0 && b@ == canet_bytes(msg@),
            CanetMsg::Can2(b) => routed_bus(msg@.bus()) == 1 && b@ == canet_bytes(msg@),
        },
{
    let buf = encode_canet_frame(&msg);
    let bus = msg.bus();
    let bus = if bus < ROUTE_MIN_BUS {
        ROUTE_MIN_BUS
    } else {
        bus
    };
    if bus == 0 {
        CanetMsg::Can1(buf)
    } else {
        CanetMsg::Can2(buf)
    }
}

/// The flags and the DLC packed into byte 0 are read back by their masks.
proof fn lemma_header_fields(e: u8, rm: u8, d: u8)
    requires
        e == 0 || e == 0x80,
        rm == 0 || rm == 0x40,
        d <= 8,
    ensures
        ((e + rm + d) as u8 & 0x80 != 0) == (e == 0x80),
        ((e + rm + d) as u8 & 0x40 != 0) == (rm == 0x40),
        (e + rm + d) as u8 & 0x0F == d,
{
    assert(((e + rm + d) as u8 & 0x80 != 0) == (e == 0x80)) by (bit_vector)
        requires
            e == 0 || e == 0x80,
            rm == 0 || rm == 0x40,
            d <= 8,
    ;
    assert(((e + rm + d) as u8 & 0x40 != 0) == (rm == 0x40)) by (bit_vector)
        requires
            e == 0 || e == 0x80,
            rm == 0 || rm == 0x40,
            d <= 8,
    ;
    assert((e + rm + d) as u8 & 0x0F == d) by (bit_vector)
        requires
            e == 0 || e == 0x80,
            rm == 0 || rm == 0x40,
            d <= 8,
    ;
}

/// Encoding a valid message as an adapter frame and decoding it back yields
/// the same message, attributed to the bus the frame is received on.
pub proof fn lemma_canet_round_trip(v: MessageView, bus: u8)
    requires
        v.wf(),
    ensures
        canet_decode(canet_bytes(v), bus) == Some(v.with_bus(bus)),
{
    let b = canet_bytes(v);
    let e: u8 = if v.ext_id() { 0x80 } else { 0 };
    let rm: u8 = if v is Remote { 0x40 } else { 0 };
    let d = v.dlc() as u8;
    lemma_header_fields(e, rm, d);
    assert(b[0] == (e + rm + d) as u8);
    assert(be_u32(b[1], b[2], b[3], b[4]) == v.id());
    if let MessageView::Data { data, .. } = v {
        assert(b.subrange(5, 5 + d) =~= data);
    }
}

} // verus!
