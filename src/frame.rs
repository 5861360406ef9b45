//! The canonical, wire-independent CAN frame and its validation rules.

use vstd::prelude::*;
use vstd::slice::slice_to_vec;

verus! {

/// Maximum value for a CAN identifier when the extended 29-bit ID is selected.
pub const CAN_EXT_ID_MASK: u32 = 0x1FFFFFFF;

/// Maximum value for a CAN identifier when the standard 11-bit ID is selected.
pub const CAN_STD_ID_MASK: u32 = 0x7FF;

/// Maximum payload length (DLC) of a CAN frame.
pub const CAN_MAX_DLC: usize = 8;

/// Whether `id` lies in the identifier space selected by `ext_id`.
pub open spec fn id_fits(id: u32, ext_id: bool) -> bool {
    if ext_id {
        id <= CAN_EXT_ID_MASK
    } else {
        id <= CAN_STD_ID_MASK
    }
}

/// Errors that may occur when creating or validating CAN frame fields.
#[derive(Debug, Clone, Copy, PartialEq, Eq, Structural)]
pub enum CanFrameError {
    IdTooLong,
    DataTooLong,
}

impl CanFrameError {
    /// Checks that `id` fits the identifier space selected by `ext_id`.
    pub fn validate_id(id: u32, ext_id: bool) -> (r: Result<(), CanFrameError>)
        ensures
            r is Ok <==> id_fits(id, ext_id),
            !id_fits(id, ext_id) ==> r == Err::<(), CanFrameError>(CanFrameError::IdTooLong),
    {
        if ext_id {
            if id > CAN_EXT_ID_MASK {
                return Err(CanFrameError::IdTooLong);
            }
        } else if id > CAN_STD_ID_MASK {
            return Err(CanFrameError::IdTooLong);
        }
        Ok(())
    }
}

/// A CAN data frame (the RTR bit is 0): an identifier and 0 to 8 payload bytes.
#[derive(Debug)]
pub struct DataFrame {
    pub(crate) id: u32,
    pub(crate) ext_id: bool,
    pub(crate) data: Vec<u8>,
}

impl View for DataFrame {
    /// Identifier, extended-ID flag and payload.
    type V = (u32, bool, Seq<u8>);

    open(crate) spec fn view(&self) -> (u32, bool, Seq<u8>) {
        (self.id, self.ext_id, self.data@)
    }
}

impl Clone for DataFrame {
    fn clone(&self) -> (r: Self)
        ensures
            r@ == self@,
    {
        proof {
            use_type_invariant(self);
        }
        let data = slice_to_vec(self.data.as_slice());
        DataFrame { id: self.id, ext_id: self.ext_id, data }
    }
}

impl DataFrame {
    #[verifier::type_invariant]
    spec fn inv(&self) -> bool {
        id_fits(self.id, self.ext_id) && self.data@.len() <= CAN_MAX_DLC
    }

    /// Creates a data frame; fails if the ID is out of range or the data is too long.
    pub fn new(id: u32, ext_id: bool, data: Vec<u8>) -> (r: Result<Self, CanFrameError>)
        ensures
            r is Ok <==> id_fits(id, ext_id) && data@.len() <= CAN_MAX_DLC,
            r matches Ok(f) ==> f@ == (id, ext_id, data@),
            !id_fits(id, ext_id) ==> r matches Err(CanFrameError::IdTooLong),
            id_fits(id, ext_id) && data@.len() > CAN_MAX_DLC ==> r matches Err(
                CanFrameError::DataTooLong,
            ),
    {
        if let Err(e) = CanFrameError::validate_id(id, ext_id) {
            return Err(e);
        }
        if data.len() > CAN_MAX_DLC {
            return Err(CanFrameError::DataTooLong);
        }
        Ok(DataFrame { id, ext_id, data })
    }

    pub fn id(&self) -> (r: u32)
        ensures
            r == self@.0,
            id_fits(r, self@.1),
    {
        proof {
            use_type_invariant(self);
        }
        self.id
    }

    pub fn ext_id(&self) -> (r: bool)
        ensures
            r == self@.1,
    {
        self.ext_id
    }

    pub fn data(&self) -> (r: &[u8])
        ensures
            r@ == self@.2,
            r@.len() <= CAN_MAX_DLC,
    {
        proof {
            use_type_invariant(self);
        }
        self.data.as_slice()
    }

    pub fn dlc(&self) -> (r: u8)
        ensures
            r as int == self@.2.len(),
            r as usize <= CAN_MAX_DLC,
    {
        proof {
            use_type_invariant(self);
        }
        self.data.len() as u8
    }
}

/// A CAN remote frame (the RTR bit is 1): an identifier and a requested
/// length, with no payload.
#[derive(Debug, Clone, Copy)]
pub struct RemoteFrame {
    pub(crate) id: u32,
    pub(crate) ext_id: bool,
    pub(crate) dlc: u8,
}

impl View for RemoteFrame {
    /// Identifier, extended-ID flag and requested length.
    type V = (u32, bool, u8);

    open(crate) spec fn view(&self) -> (u32, bool, u8) {
        (self.id, self.ext_id, self.dlc)
    }
}

impl RemoteFrame {
    #[verifier::type_invariant]
    spec fn inv(&self) -> bool {
        id_fits(self.id, self.ext_id) && self.dlc as usize <= CAN_MAX_DLC
    }

    /// Creates a remote frame; fails if the ID is out of range or the dlc is too long.
    pub fn new(id: u32, ext_id: bool, dlc: u8) -> (r: Result<Self, CanFrameError>)
        ensures
            r is Ok <==> id_fits(id, ext_id) && dlc as usize <= CAN_MAX_DLC,
            r matches Ok(f) ==> f@ == (id, ext_id, dlc),
            !id_fits(id, ext_id) ==> r matches Err(CanFrameError::IdTooLong),
            id_fits(id, ext_id) && dlc as usize > CAN_MAX_DLC ==> r matches Err(
                CanFrameError::DataTooLong,
            ),
    {
        if let Err(e) = CanFrameError::validate_id(id, ext_id) {
            return Err(e);
        }
        if dlc as usize > CAN_MAX_DLC {
            return Err(CanFrameError::DataTooLong);
        }
        Ok(RemoteFrame { id, ext_id, dlc })
    }

    pub fn id(&self) -> (r: u32)
        ensures
            r == self@.0,
            id_fits(r, self@.1),
    {
        proof {
            use_type_invariant(self);
        }
        self.id
    }

    pub fn ext_id(&self) -> (r: bool)
        ensures
            r == self@.1,
    {
        self.ext_id
    }

    pub fn dlc(&self) -> (r: u8)
        ensures
            r == self@.2,
            r as usize <= CAN_MAX_DLC,
    {
        proof {
            use_type_invariant(self);
        }
        self.dlc
    }
}

/// The mathematical content of a [`Message`]: the bus it belongs to and the
/// fields of its frame.
pub enum MessageView {
    Data { bus: u8, id: u32, ext_id: bool, data: Seq<u8> },
    Remote { bus: u8, id: u32, ext_id: bool, dlc: u8 },
}

impl MessageView {
    pub open spec fn bus(self) -> u8 {
        match self {
            MessageView::Data { bus, .. } => bus,
            MessageView::Remote { bus, .. } => bus,
        }
    }

    pub open spec fn id(self) -> u32 {
        match self {
            MessageView::Data { id, .. } => id,
            MessageView::Remote { id, .. } => id,
        }
    }

    pub open spec fn ext_id(self) -> bool {
        match self {
            MessageView::Data { ext_id, .. } => ext_id,
            MessageView::Remote { ext_id, .. } => ext_id,
        }
    }

    /// The data length code: the payload length of a data frame, the
    /// requested length of a remote frame.
    pub open spec fn dlc(self) -> int {
        match self {
            MessageView::Data { data, .. } => data.len() as int,
            MessageView::Remote { dlc, .. } => dlc as int,
        }
    }

    /// The same frame, attributed to another bus.
    pub open spec fn with_bus(self, b: u8) -> MessageView {
        match self {
            MessageView::Data { id, ext_id, data, .. } => MessageView::Data {
                bus: b,
                id,
                ext_id,
                data,
            },
            MessageView::Remote { id, ext_id, dlc, .. } => MessageView::Remote {
                bus: b,
                id,
                ext_id,
                dlc,
            },
        }
    }

    /// The invariants that every constructed frame satisfies.
    pub open spec fn wf(self) -> bool {
        id_fits(self.id(), self.ext_id()) && self.dlc() <= CAN_MAX_DLC
    }
}

/// A message on a CAN bus: a data or a remote frame, tagged with its bus index.
#[derive(Debug, Clone)]
pub enum Message {
    Data(u8, DataFrame),
    Remote(u8, RemoteFrame),
}

impl View for Message {
    type V = MessageView;

    open spec fn view(&self) -> MessageView {
        match self {
            Message::Data(bus, f) => MessageView::Data {
                bus: *bus,
                id: f@.0,
                ext_id: f@.1,
                data: f@.2,
            },
            Message::Remote(bus, f) => MessageView::Remote {
                bus: *bus,
                id: f@.0,
                ext_id: f@.1,
                dlc: f@.2,
            },
        }
    }
}

impl Message {
    /// Every message satisfies the frame invariants.
    pub fn check_wf(&self)
        ensures
            self@.wf(),
    {
        match self {
            Message::Data(_, f) => {
                proof {
                    use_type_invariant(f);
                }
            },
            Message::Remote(_, f) => {
                proof {
                    use_type_invariant(f);
                }
            },
        }
    }

    /// Creates a message holding a data frame; fails if the ID is out of
    /// range or the data is too long.
    pub fn new_data(bus: u8, id: u32, ext_id: bool, data: &[u8]) -> (r: Result<
        Message,
        CanFrameError,
    >)
        ensures
            r is Ok <==> id_fits(id, ext_id) && data@.len() <= CAN_MAX_DLC,
            r matches Ok(m) ==> m@ == (MessageView::Data { bus, id, ext_id, data: data@ }),
            !id_fits(id, ext_id) ==> r matches Err(CanFrameError::IdTooLong),
            id_fits(id, ext_id) && data@.len() > CAN_MAX_DLC ==> r matches Err(
                CanFrameError::DataTooLong,
            ),
    {
        if let Err(e) = CanFrameError::validate_id(id, ext_id) {
            return Err(e);
        }
        if data.len() > CAN_MAX_DLC {
            return Err(CanFrameError::DataTooLong);
        }
        Ok(Message::Data(bus, DataFrame { id, ext_id, data: slice_to_vec(data) }))
    }

    /// Creates a message holding a remote frame; fails if the ID is out of
    /// range or the dlc is too long.
    pub fn new_remote(bus: u8, id: u32, ext_id: bool, dlc: u8) -> (r: Result<
        Message,
        CanFrameError,
    >)
        ensures
            r is Ok <==> id_fits(id, ext_id) && dlc as usize <= CAN_MAX_DLC,
            r matches Ok(m) ==> m@ == (MessageView::Remote { bus, id, ext_id, dlc }),
            !id_fits(id, ext_id) ==> r matches Err(CanFrameError::IdTooLong),
            id_fits(id, ext_id) && dlc as usize > CAN_MAX_DLC ==> r matches Err(
                CanFrameError::DataTooLong,
            ),
    {
        match RemoteFrame::new(id, ext_id, dlc) {
            Ok(f) => Ok(Message::Remote(bus, f)),
            Err(e) => Err(e),
        }
    }

    /// The payload of a data frame; `None` for a remote frame.
    pub fn data(&self) -> (r: Option<&[u8]>)
        ensures
            match self@ {
                MessageView::Data { data, .. } => r matches Some(d) && d@ == data,
                MessageView::Remote { .. } => r is None,
            },
    {
        match self {
            Message::Data(_, f) => Some(f.data()),
            Message::Remote(_, _) => None,
        }
    }

    pub fn bus(&self) -> (r: u8)
        ensures
            r == self@.bus(),
    {
        match self {
            Message::Data(b, _) => *b,
            Message::Remote(b, _) => *b,
        }
    }

    pub fn id(&self) -> (r: u32)
        ensures
            r == self@.id(),
    {
        match self {
            Message::Data(_, f) => f.id(),
            Message::Remote(_, f) => f.id(),
        }
    }

    pub fn ext_id(&self) -> (r: bool)
        ensures
            r == self@.ext_id(),
    {
        match self {
            Message::Data(_, f) => f.ext_id(),
            Message::Remote(_, f) => f.ext_id(),
        }
    }

    pub fn dlc(&self) -> (r: u8)
        ensures
            r as int == self@.dlc(),
    {
        match self {
            Message::Data(_, f) => f.dlc(),
            Message::Remote(_, f) => f.dlc(),
        }
    }
}

/// Every error that this crate may report.
#[derive(Debug)]
pub enum UsrError {
    Io(std::io::Error),
    IdTooLong,
    DataTooLong,
}

/// The I/O error of std, carried opaquely inside [`UsrError`].
#[verifier::external_type_specification]
#[verifier::external_body]
pub struct ExIoError(std::io::Error);

impl From<CanFrameError> for UsrError {
    fn from(x: CanFrameError) -> (r: UsrError)
        ensures
            x == CanFrameError::IdTooLong ==> r is IdTooLong,
            x == CanFrameError::DataTooLong ==> r is DataTooLong,
    {
        match x {
            CanFrameError::IdTooLong => UsrError::IdTooLong,
            CanFrameError::DataTooLong => UsrError::DataTooLong,
        }
    }
}

impl vstd::std_specs::convert::FromSpecImpl<CanFrameError> for UsrError {
    open spec fn obeys_from_spec() -> bool {
        true
    }

    open spec fn from_spec(x: CanFrameError) -> UsrError {
        match x {
            CanFrameError::IdTooLong => UsrError::IdTooLong,
            CanFrameError::DataTooLong => UsrError::DataTooLong,
        }
    }
}

impl From<std::io::Error> for UsrError {
    fn from(x: std::io::Error) -> (r: UsrError)
        ensures
            r == UsrError::Io(x),
    {
        UsrError::Io(x)
    }
}

impl vstd::std_specs::convert::FromSpecImpl<std::io::Error> for UsrError {
    open spec fn obeys_from_spec() -> bool {
        true
    }

    open spec fn from_spec(x: std::io::Error) -> UsrError {
        UsrError::Io(x)
    }
}

} // verus!
