//! The analysis protocol: command identifiers, the fixed replies, the
//! telemetry frame sent for each forwarded CAN frame, and the byte-stream
//! decoder with its handshake state machine.

use vstd::prelude::*;
use tokio::time::Instant;
use vstd::slice::slice_to_vec;
use crate::canet::padded_byte;
use crate::frame::{id_fits, Message, MessageView, CAN_STD_ID_MASK};

verus! {

/// The prefix byte of every command and reply.
pub const GVRET_PREFIX: u8 = 0xF1;

/// The byte that acknowledges the binary handshake.
pub const GVRET_BINARY: u8 = 0xE7;

/// The bit rate reported for each bus.
pub const CAN_BAUD: u32 = 500_000;

/// The tokio clock's instant, carried opaquely.
#[verifier::external_type_specification]
#[verifier::external_body]
pub struct ExInstant(Instant);

/// Relies on tokio::time::Instant::elapsed and Duration::as_micros: the
/// microseconds passed since `now`. Nothing is known of the value.
#[verifier::external_body]
fn elapsed_micros(now: &Instant) -> u128 {
    now.elapsed().as_micros()
}

/// The commands of the analysis protocol.
#[derive(Debug, Clone, Copy, PartialEq, Eq, Structural)]
pub enum GVRETProtocol {
    BuildCanFrame,
    TimeSync,
    DigInputs,
    AnaInputs,
    SetDigOut,
    SetupCanBus,
    GetCanBusParams,
    GetDevInfo,
    SetSwMode,
    KeepAlive,
    SetSysType,
    EchoCanFrame,
    GetNumBuses,
    GetExtBuses,
    SetExtBuses,
    BuildFdFrame,
    SetupFd,
    GetFd,
}

/// The command that identifier byte `b` names; unknown identifiers name
/// [`GVRETProtocol::BuildCanFrame`].
pub open spec fn protocol_of(b: u8) -> GVRETProtocol {
    if b == 1 {
        GVRETProtocol::TimeSync
    } else if b == 2 {
        GVRETProtocol::DigInputs
    } else if b == 3 {
        GVRETProtocol::AnaInputs
    } else if b == 4 {
        GVRETProtocol::SetDigOut
    } else if b == 5 {
        GVRETProtocol::SetupCanBus
    } else if b == 6 {
        GVRETProtocol::GetCanBusParams
    } else if b == 7 {
        GVRETProtocol::GetDevInfo
    } else if b == 8 {
        GVRETProtocol::SetSwMode
    } else if b == 9 {
        GVRETProtocol::KeepAlive
    } else if b == 10 {
        GVRETProtocol::SetSysType
    } else if b == 11 {
        GVRETProtocol::EchoCanFrame
    } else if b == 12 {
        GVRETProtocol::GetNumBuses
    } else if b == 13 {
        GVRETProtocol::GetExtBuses
    } else if b == 14 {
        GVRETProtocol::SetExtBuses
    } else if b == 20 {
        GVRETProtocol::BuildFdFrame
    } else if b == 21 {
        GVRETProtocol::SetupFd
    } else if b == 22 {
        GVRETProtocol::GetFd
    } else {
        GVRETProtocol::BuildCanFrame
    }
}

impl From<u8> for GVRETProtocol {
    fn from(value: u8) -> (r: GVRETProtocol)
        ensures
            r == protocol_of(value),
    {
        match value {
            0 => GVRETProtocol::BuildCanFrame,
            1 => GVRETProtocol::TimeSync,
            2 => GVRETProtocol::DigInputs,
            3 => GVRETProtocol::AnaInputs,
            4 => GVRETProtocol::SetDigOut,
            5 => GVRETProtocol::SetupCanBus,
            6 => GVRETProtocol::GetCanBusParams,
            7 => GVRETProtocol::GetDevInfo,
            8 => GVRETProtocol::SetSwMode,
            9 => GVRETProtocol::KeepAlive,
            10 => GVRETProtocol::SetSysType,
            11 => GVRETProtocol::EchoCanFrame,
            12 => GVRETProtocol::GetNumBuses,
            13 => GVRETProtocol::GetExtBuses,
            14 => GVRETProtocol::SetExtBuses,
            20 => GVRETProtocol::BuildFdFrame,
            21 => GVRETProtocol::SetupFd,
            22 => GVRETProtocol::GetFd,
            _ => GVRETProtocol::BuildCanFrame,
        }
    }
}

impl vstd::std_specs::convert::FromSpecImpl<u8> for GVRETProtocol {
    open spec fn obeys_from_spec() -> bool {
        true
    }

    open spec fn from_spec(v: u8) -> GVRETProtocol {
        protocol_of(v)
    }
}

/// The four little-endian bytes of `x`.
pub open spec fn le_bytes(x: u32) -> Seq<u8> {
    seq![
        (x % 0x100) as u8,
        (x / 0x100 % 0x100) as u8,
        (x / 0x10000 % 0x100) as u8,
        (x / 0x1000000) as u8,
    ]
}

/// The 32-bit value of four little-endian bytes.
pub open spec fn le_u32(b0: u8, b1: u8, b2: u8, b3: u8) -> u32 {
    (b0 as int + b1 as int * 0x100 + b2 as int * 0x10000 + b3 as int * 0x1000000) as u32
}

/// Appends the four little-endian bytes of `x`.
pub fn push_le_u32(v: &mut Vec<u8>, x: u32)
    ensures
        final(v)@ == old(v)@ + le_bytes(x),
{
    v.push((x % 0x100) as u8);
    v.push((x / 0x100 % 0x100) as u8);
    v.push((x / 0x10000 % 0x100) as u8);
    v.push((x / 0x1000000) as u8);
    assert(final(v)@ =~= old(v)@ + le_bytes(x));
}

/// The reply to a device-information request.
pub open spec fn dev_info_reply() -> Seq<u8> {
    seq![0xF1u8, 0x07, 0x6A, 0x02, 0x20, 0x00, 0x00, 0x00]
}

/// The reply to a keep-alive request.
pub open spec fn keepalive_reply() -> Seq<u8> {
    seq![0xF1u8, 0x09, 0xDE, 0xAD]
}

/// The reply to an extended-buses request: no extended bus.
pub open spec fn ext_buses_reply() -> Seq<u8> {
    seq![0xF1u8, 0x0D] + Seq::new(15, |i: int| 0u8)
}

/// The reply to a bus-parameters request, with a second bus or without.
pub open spec fn canbus_params_reply(port2: bool) -> Seq<u8> {
    seq![0xF1u8, 0x06, 0x01] + le_bytes(CAN_BAUD) + if port2 {
        seq![0x01u8] + le_bytes(CAN_BAUD)
    } else {
        Seq::empty()
    }
}

/// The reply to a number-of-buses request.
pub open spec fn num_buses_reply(busses: u8) -> Seq<u8> {
    seq![0xF1u8, 0x0C, busses]
}

/// The 32-bit timestamp field for `micros` microseconds: its low 32 bits.
pub open spec fn timestamp(micros: u128) -> u32 {
    (micros % 0x1_0000_0000) as u32
}

/// The reply to a time-sync request, `micros` microseconds after start.
pub open spec fn timesync_reply(micros: u128) -> Seq<u8> {
    seq![0xF1u8, 0x01] + le_bytes(timestamp(micros))
}

/// The reply that a command with a fixed answer gets; `None` for the
/// commands whose answer depends on configuration or time, for the frame
/// command, and for the commands that are not served.
pub open spec fn fixed_reply(cmd: GVRETProtocol) -> Option<Seq<u8>> {
    match cmd {
        GVRETProtocol::GetDevInfo => Some(dev_info_reply()),
        GVRETProtocol::KeepAlive => Some(keepalive_reply()),
        GVRETProtocol::GetExtBuses => Some(ext_buses_reply()),
        _ => None,
    }
}

/// The bus-parameters reply; `port2` says whether a second bus is configured.
pub fn get_canbus_params(port2: bool) -> (r: Vec<u8>)
    ensures
        r@ == canbus_params_reply(port2),
{
    let mut v: Vec<u8> = Vec::with_capacity(12);
    v.push(GVRET_PREFIX);
    v.push(0x06);
    v.push(0x01);
    push_le_u32(&mut v, CAN_BAUD);
    if port2 {
        v.push(0x01);
        push_le_u32(&mut v, CAN_BAUD);
    }
    assert(v@ =~= canbus_params_reply(port2));
    v
}

/// The number-of-buses reply.
pub fn get_num_busses(busses: u8) -> (r: Vec<u8>)
    ensures
        r@ == num_buses_reply(busses),
{
    let r = vec![GVRET_PREFIX, 0x0C, busses];
    assert(r@ =~= num_buses_reply(busses));
    r
}

/// The device-information reply.
pub fn get_dev_info() -> (r: Vec<u8>)
    ensures
        r@ == dev_info_reply(),
{
    let r = vec![GVRET_PREFIX, 0x07, 0x6A, 0x02, 0x20, 0x00, 0x00, 0x00];
    assert(r@ =~= dev_info_reply());
    r
}

/// The keep-alive reply.
pub fn get_keepalive() -> (r: Vec<u8>)
    ensures
        r@ == keepalive_reply(),
{
    let r = vec![GVRET_PREFIX, 0x09, 0xDE, 0xAD];
    assert(r@ =~= keepalive_reply());
    r
}

/// The time-sync reply for `micros` microseconds since start.
pub fn timesync_at(micros: u128) -> (r: Vec<u8>)
    ensures
        r@ == timesync_reply(micros),
{
    let mut v: Vec<u8> = Vec::with_capacity(6);
    v.push(GVRET_PREFIX);
    v.push(0x01);
    push_le_u32(&mut v, (micros % 0x1_0000_0000) as u32);
    assert(v@ =~= timesync_reply(micros));
    v
}

/// The time-sync reply, carrying the microseconds passed since `now`.
pub fn get_timesync(now: Instant) -> (r: Vec<u8>)
    ensures
        exists|micros: u128| r@ == timesync_reply(micros),
{
    let micros = elapsed_micros(&now);
    timesync_at(micros)
}

impl GVRETProtocol {
    /// The reply to a command with a fixed answer; `None` for every other
    /// command.
    pub fn process(&self) -> (r: Option<Vec<u8>>)
        ensures
            match fixed_reply(*self) {
                Some(s) => r matches Some(v) && v@ == s,
                None => r is None,
            },
    {
        match self {
            GVRETProtocol::GetDevInfo => Some(get_dev_info()),
            GVRETProtocol::KeepAlive => Some(get_keepalive()),
            GVRETProtocol::GetExtBuses => {
                let mut v: Vec<u8> = Vec::with_capacity(17);
                v.push(GVRET_PREFIX);
                v.push(0x0D);
                let mut i: usize = 0;
                while i < 15
                    invariant
                        i <= 15,
                        v@ == seq![0xF1u8, 0x0D] + Seq::new(i as nat, |j: int| 0u8),
                    decreases 15 - i,
                {
                    v.push(0);
                    i += 1;
                    assert(v@ =~= seq![0xF1u8, 0x0D] + Seq::new(i as nat, |j: int| 0u8));
                }
                Some(v)
            },
            _ => None,
        }
    }
}

/// Reads a little-endian 32-bit value.
pub fn read_le_u32(b0: u8, b1: u8, b2: u8, b3: u8) -> (r: u32)
    ensures
        r == le_u32(b0, b1, b2, b3),
{
    b0 as u32 + (b1 as u32) * 0x100 + (b2 as u32) * 0x10000 + (b3 as u32) * 0x1000000
}

/// The payload length that a frame header's byte 5 announces: its low
/// nibble, at most 8.
pub open spec fn header_dlc(h5: u8) -> u8 {
    if h5 & 0x0F > 8 {
        8
    } else {
        h5 & 0x0F
    }
}

/// The identifier and extended-ID flag that a frame header's raw
/// little-endian value stands for: a value above the standard mask is an
/// extended identifier, with bit 31 cleared.
pub open spec fn header_id(raw: u32) -> (u32, bool) {
    if raw > CAN_STD_ID_MASK {
        (raw & 0x7FFF_FFFF, true)
    } else {
        (raw, false)
    }
}

/// The data frame that a 6-byte header and the payload bytes `d` describe;
/// `None` where the identifier does not fit.
pub open spec fn header_frame(h: Seq<u8>, d: Seq<u8>) -> Option<MessageView> {
    let (id, ext_id) = header_id(le_u32(h[0], h[1], h[2], h[3]));
    if id_fits(id, ext_id) {
        Some(
            MessageView::Data {
                bus: h[4] & 3,
                id,
                ext_id,
                data: d.subrange(0, header_dlc(h[5]) as int),
            },
        )
    } else {
        None
    }
}

/// The payload length announced by header byte 5.
pub fn frame_dlc(h5: u8) -> (r: u8)
    ensures
        r == header_dlc(h5),
        r <= 8,
{
    let d = h5 & 0x0F;
    if d > 8 {
        8
    } else {
        d
    }
}

/// Builds the data frame that a frame header and its payload describe; the
/// payload holds the first `header_dlc` bytes of `frame_data`. `None` where
/// the identifier does not fit the extended range.
pub fn build_can_frame(frame_header: [u8; 6], frame_data: [u8; 8]) -> (r: Option<Message>)
    ensures
        match header_frame(frame_header@, frame_data@) {
            Some(v) => r matches Some(m) && m@ == v,
            None => r is None,
        },
{
    let raw = read_le_u32(frame_header[0], frame_header[1], frame_header[2], frame_header[3]);
    let (id, ext_id) = if raw > CAN_STD_ID_MASK {
        (raw & 0x7FFF_FFFF, true)
    } else {
        (raw, false)
    };
    let dlc = frame_dlc(frame_header[5]);
    let bus = frame_header[4] & 3;
    let payload = vstd::slice::slice_subrange(frame_data.as_slice(), 0, dlc as usize);
    match Message::new_data(bus, id, ext_id, payload) {
        Ok(m) => Some(m),
        Err(_) => None,
    }
}

/// The identifier field of a telemetry frame: bit 31 marks an extended ID.
pub open spec fn flagged_id(id: u32, ext_id: bool) -> u32 {
    if ext_id {
        id | 0x8000_0000
    } else {
        id
    }
}

/// The byte that packs a bus index (high nibble) and a DLC (low nibble).
pub open spec fn bus_dlc_byte(bus: u8, dlc: u8) -> u8 {
    (bus << 4u8) | (dlc & 0x0F)
}

/// The telemetry frame sent to the analysis client for `v`, `micros`
/// microseconds after start; `None` for a remote frame, which carries no
/// payload.
pub open spec fn gvret_frame(v: MessageView, micros: u128) -> Option<Seq<u8>> {
    match v {
        MessageView::Data { bus, id, ext_id, data } => Some(
            seq![0xF1u8, 0x00] + le_bytes(timestamp(micros)) + le_bytes(flagged_id(id, ext_id))
                + seq![bus_dlc_byte(bus, data.len() as u8)] + data + seq![0x00u8],
        ),
        MessageView::Remote { .. } => None,
    }
}

/// The telemetry frame for `message`, stamped `micros` microseconds after
/// start; `None` for a remote frame.
pub fn convert_to_gvret_at(message: &Message, micros: u128) -> (r: Option<Vec<u8>>)
    ensures
        match gvret_frame(message@, micros) {
            Some(s) => r matches Some(v) && v@ == s,
            None => r is None,
        },
{
    message.check_wf();
    let data: &[u8] = match message.data() {
        Some(d) => d,
        None => return None,
    };
    let mut id = message.id();
    if message.ext_id() {
        id = id | 0x8000_0000;
    }
    let mut out: Vec<u8> = Vec::with_capacity(12 + data.len());
    out.push(GVRET_PREFIX);
    out.push(0x00);
    push_le_u32(&mut out, (micros % 0x1_0000_0000) as u32);
    push_le_u32(&mut out, id);
    out.push((message.bus() << 4u8) | (message.dlc() & 0x0F));
    let ghost before = out@;
    let mut i: usize = 0;
    while i < data.len()
        invariant
            i <= data@.len(),
            out@ == before + data@.subrange(0, i as int),
        decreases data@.len() - i,
    {
        out.push(data[i]);
        i += 1;
        assert(out@ =~= before + data@.subrange(0, i as int));
    }
    out.push(0x00);
    assert(out@ =~= gvret_frame(message@, micros)->Some_0);
    Some(out)
}

/// The telemetry frame for `message`, stamped with the microseconds passed
/// since `now`; `None` for a remote frame.
pub fn convert_to_gvret(message: Message, now: Instant) -> (r: Option<Vec<u8>>)
    ensures
        r is None <==> message@ is Remote,
        r matches Some(v) ==> exists|micros: u128| gvret_frame(message@, micros) == Some(v@),
{
    if message.data().is_none() {
        return None;
    }
    let micros = elapsed_micros(&now);
    convert_to_gvret_at(&message, micros)
}

/// The handshake mode of the analysis connection, and the classification of
/// a byte read from it.
#[derive(Debug, Clone, Copy, PartialEq, Eq, Structural)]
pub enum Mode {
    Init,
    Binary,
    Command,
}

/// The mode that byte `b` stands for.
pub open spec fn mode_of(b: u8) -> Mode {
    if b == GVRET_BINARY {
        Mode::Binary
    } else if b == GVRET_PREFIX {
        Mode::Command
    } else {
        Mode::Init
    }
}

impl From<u8> for Mode {
    fn from(value: u8) -> (r: Mode)
        ensures
            r == mode_of(value),
    {
        match value {
            GVRET_BINARY => Mode::Binary,
            GVRET_PREFIX => Mode::Command,
            _ => Mode::Init,
        }
    }
}

impl vstd::std_specs::convert::FromSpecImpl<u8> for Mode {
    open spec fn obeys_from_spec() -> bool {
        true
    }

    open spec fn from_spec(v: u8) -> Mode {
        mode_of(v)
    }
}

/// Where the decoder stands within a command.
#[derive(Debug, Clone, Copy, PartialEq, Eq, Structural)]
pub enum Stage {
    /// Between commands: waiting for the handshake or a command prefix.
    Idle,
    /// The prefix was read; the command identifier comes next.
    Command,
    /// Reading the 6-byte header of a frame command.
    Header,
    /// Reading the payload of a frame command.
    Payload,
}

/// What the decoder produces: a frame to forward to an adapter bus, or a
/// reply to write back to the analysis client.
#[derive(Debug, Clone)]
pub enum Gvret {
    Frame(Message),
    Init(Vec<u8>),
}

/// The view of a [`Gvret`].
pub enum GvretView {
    Frame(MessageView),
    Init(Seq<u8>),
}

/// The view of an optional decoder output.
pub open spec fn gvret_view(r: Option<Gvret>) -> Option<GvretView> {
    match r {
        Some(Gvret::Frame(m)) => Some(GvretView::Frame(m@)),
        Some(Gvret::Init(v)) => Some(GvretView::Init(v@)),
        None => None,
    }
}

/// The state of the decoder: the handshake mode, the stage within a
/// command, and the header and payload bytes read so far.
pub struct DecoderView {
    pub mode: Mode,
    pub stage: Stage,
    pub header: Seq<u8>,
    pub data: Seq<u8>,
}

/// The decoder state between commands in mode `mode`.
pub open spec fn idle_view(mode: Mode) -> DecoderView {
    DecoderView { mode, stage: Stage::Idle, header: Seq::empty(), data: Seq::empty() }
}

/// The reply to command `cmd` other than the frame command, with `busses`
/// buses configured, `micros` microseconds after start.
pub open spec fn command_reply(cmd: GVRETProtocol, busses: u8, micros: u128) -> Option<Seq<u8>> {
    match cmd {
        GVRETProtocol::TimeSync => Some(timesync_reply(micros)),
        GVRETProtocol::GetCanBusParams => Some(canbus_params_reply(busses > 1)),
        GVRETProtocol::GetNumBuses => Some(num_buses_reply(busses)),
        _ => fixed_reply(cmd),
    }
}

/// The output for a completed frame command.
pub open spec fn frame_output(h: Seq<u8>, d: Seq<u8>) -> Option<GvretView> {
    match header_frame(h, d) {
        Some(m) => Some(GvretView::Frame(m)),
        None => None,
    }
}

/// The output for a reply.
pub open spec fn reply_output(r: Option<Seq<u8>>) -> Option<GvretView> {
    match r {
        Some(v) => Some(GvretView::Init(v)),
        None => None,
    }
}

/// One step of the decoder: the state after byte `b` is read in state `s`,
/// and what the step produces.
pub open spec fn decode_step(s: DecoderView, b: u8, busses: u8, micros: u128) -> (
    DecoderView,
    Option<GvretView>,
) {
    match s.stage {
        Stage::Idle => if mode_of(b) == Mode::Binary && s.mode == Mode::Init {
            (idle_view(Mode::Binary), None)
        } else if mode_of(b) == Mode::Command {
            (DecoderView { stage: Stage::Command, ..s }, None)
        } else {
            (s, None)
        },
        Stage::Command => if protocol_of(b) == GVRETProtocol::BuildCanFrame {
            (DecoderView { stage: Stage::Header, ..s }, None)
        } else {
            (idle_view(s.mode), reply_output(command_reply(protocol_of(b), busses, micros)))
        },
        Stage::Header => {
            let h = s.header.push(b);
            if h.len() < 6 {
                (DecoderView { header: h, ..s }, None)
            } else if header_dlc(h[5]) == 0 {
                (idle_view(s.mode), frame_output(h, Seq::empty()))
            } else {
                (DecoderView { stage: Stage::Payload, header: h, ..s }, None)
            }
        },
        Stage::Payload => {
            let d = s.data.push(b);
            if d.len() < header_dlc(s.header[5]) {
                (DecoderView { data: d, ..s }, None)
            } else {
                (idle_view(s.mode), frame_output(s.header, d))
            }
        },
    }
}

/// The byte-stream decoder of the analysis protocol, fed one byte at a time.
pub struct GvretDecoder {
    mode: Mode,
    stage: Stage,
    header: Vec<u8>,
    data: Vec<u8>,
}

impl View for GvretDecoder {
    type V = DecoderView;

    closed spec fn view(&self) -> DecoderView {
        DecoderView { mode: self.mode, stage: self.stage, header: self.header@, data: self.data@ }
    }
}

/// The states that the decoder can reach.
pub open spec fn decoder_wf(s: DecoderView) -> bool {
    match s.stage {
        Stage::Idle | Stage::Command => s.header.len() == 0 && s.data.len() == 0,
        Stage::Header => s.header.len() < 6 && s.data.len() == 0,
        Stage::Payload => s.header.len() == 6 && s.data.len() < header_dlc(s.header[5]),
    }
}

impl GvretDecoder {
    #[verifier::type_invariant]
    spec fn inv(&self) -> bool {
        decoder_wf(self@)
    }

    /// A decoder before the handshake.
    pub fn new() -> (r: GvretDecoder)
        ensures
            r@ == idle_view(Mode::Init),
    {
        GvretDecoder { mode: Mode::Init, stage: Stage::Idle, header: Vec::new(), data: Vec::new() }
    }

    /// The handshake mode.
    pub fn mode(&self) -> (r: Mode)
        ensures
            r == self@.mode,
    {
        self.mode
    }

    /// The stage within a command.
    pub fn stage(&self) -> (r: Stage)
        ensures
            r == self@.stage,
    {
        self.stage
    }

    /// Abandons a partly read command after a read error; the mode stays.
    pub fn abort(&mut self)
        ensures
            final(self)@ == idle_view(old(self)@.mode),
    {
        *self = GvretDecoder { mode: self.mode, stage: Stage::Idle, header: Vec::new(), data: Vec::new() };
    }

    /// The frame that a complete header and payload describe.
    fn finish(header: &Vec<u8>, data: &Vec<u8>) -> (r: Option<Gvret>)
        requires
            header@.len() == 6,
            data@.len() == header_dlc(header@[5]),
        ensures
            gvret_view(r) == frame_output(header@, data@),
    {
        let h = [header[0], header[1], header[2], header[3], header[4], header[5]];
        let d = [
            padded_byte(data.as_slice(), 0),
            padded_byte(data.as_slice(), 1),
            padded_byte(data.as_slice(), 2),
            padded_byte(data.as_slice(), 3),
            padded_byte(data.as_slice(), 4),
            padded_byte(data.as_slice(), 5),
            padded_byte(data.as_slice(), 6),
            padded_byte(data.as_slice(), 7),
        ];
        assert(h@ =~= header@);
        assert(d@.subrange(0, header_dlc(header@[5]) as int) =~= data@);
        assert(data@.subrange(0, header_dlc(header@[5]) as int) =~= data@);
        match build_can_frame(h, d) {
            Some(m) => Some(Gvret::Frame(m)),
            None => None,
        }
    }

    /// Feeds one byte read from the analysis client, `micros` microseconds
    /// after start, with `busses` buses configured. Returns a frame or a
    /// reply when the byte completes a command.
    pub fn feed_at(&mut self, byte: u8, busses: u8, micros: u128) -> (r: Option<Gvret>)
        ensures
            (final(self)@, gvret_view(r)) == decode_step(old(self)@, byte, busses, micros),
    {
        proof {
            use_type_invariant(&*self);
        }
        let mode = self.mode;
        if self.stage == Stage::Idle || self.stage == Stage::Command {
            assert(self.header@ =~= Seq::<u8>::empty());
        }
        if self.stage != Stage::Payload {
            assert(self.data@ =~= Seq::<u8>::empty());
        }
        match self.stage {
            Stage::Idle => {
                let c = Mode::from(byte);
                if c == Mode::Binary && mode == Mode::Init {
                    self.mode = Mode::Binary;
                } else if c == Mode::Command {
                    self.stage = Stage::Command;
                }
                None
            },
            Stage::Command => {
                let cmd = GVRETProtocol::from(byte);
                if cmd == GVRETProtocol::BuildCanFrame {
                    self.stage = Stage::Header;
                    return None;
                }
                self.stage = Stage::Idle;
                let resp = match cmd {
                    GVRETProtocol::TimeSync => Some(timesync_at(micros)),
                    GVRETProtocol::GetCanBusParams => Some(get_canbus_params(busses > 1)),
                    GVRETProtocol::GetNumBuses => Some(get_num_busses(busses)),
                    _ => cmd.process(),
                };
                match resp {
                    Some(v) => Some(Gvret::Init(v)),
                    None => None,
                }
            },
            Stage::Header => {
                let mut header = slice_to_vec(self.header.as_slice());
                header.push(byte);
                assert(header@ =~= old(self)@.header.push(byte));
                if header.len() < 6 {
                    *self = GvretDecoder { mode, stage: Stage::Header, header, data: Vec::new() };
                    None
                } else if frame_dlc(header[5]) == 0 {
                    *self = GvretDecoder { mode, stage: Stage::Idle, header: Vec::new(), data: Vec::new() };
                    let empty: Vec<u8> = Vec::new();
                    assert(empty@ =~= Seq::<u8>::empty());
                    let r = Self::finish(&header, &empty);
                        r
                } else {
                    *self = GvretDecoder { mode, stage: Stage::Payload, header, data: Vec::new() };
                    None
                }
            },
            Stage::Payload => {
                let mut data = slice_to_vec(self.data.as_slice());
                data.push(byte);
                assert(data@ =~= old(self)@.data.push(byte));
                let header = slice_to_vec(self.header.as_slice());
                assert(header@ =~= old(self)@.header);
                if data.len() < frame_dlc(header[5]) as usize {
                    *self = GvretDecoder { mode, stage: Stage::Payload, header, data };
                    None
                } else {
                    *self = GvretDecoder { mode, stage: Stage::Idle, header: Vec::new(), data: Vec::new() };
                    let r = Self::finish(&header, &data);
                        r
                }
            },
        }
    }

    /// Feeds one byte read from the analysis client, with `busses` buses
    /// configured; a time-sync reply carries the microseconds passed since
    /// `now`.
    pub fn feed(&mut self, byte: u8, busses: u8, now: &Instant) -> (r: Option<Gvret>)
        ensures
            exists|micros: u128|
                (final(self)@, gvret_view(r)) == decode_step(old(self)@, byte, busses, micros),
    {
        let micros = elapsed_micros(now);
        self.feed_at(byte, busses, micros)
    }
}

/// The handshake: between commands, the binary marker moves a decoder in the
/// initial mode to binary mode, with no output; in binary mode the marker
/// changes nothing. Binary mode, once reached, is never left, and no other
/// byte changes the mode.
pub proof fn lemma_handshake(s: DecoderView, b: u8, busses: u8, micros: u128)
    requires
        decoder_wf(s),
    ensures
        s == idle_view(Mode::Init) ==> decode_step(s, GVRET_BINARY, busses, micros) == (
            idle_view(Mode::Binary),
            None::<GvretView>,
        ),
        s == idle_view(Mode::Binary) ==> decode_step(s, GVRET_BINARY, busses, micros) == (
            s,
            None::<GvretView>,
        ),
        s.mode == Mode::Binary ==> decode_step(s, b, busses, micros).0.mode == Mode::Binary,
        decode_step(s, b, busses, micros).0.mode != s.mode ==> s.mode == Mode::Init && s.stage
            == Stage::Idle && b == GVRET_BINARY,
{
}

} // verus!
