//! One CAN message: identifier, addressing mode, remote-request flag and up to
//! eight bytes of payload.

use vstd::prelude::*;
use vstd::slice::slice_subrange;
use crate::error::Error;

verus! {

/// Exclusive upper bound of a standard (11-bit) identifier.
pub const STD_MASK: u32 = 0x7FF;

/// Exclusive upper bound of an extended (29-bit) identifier.
pub const EXT_MASK: u32 = 0x1FFF_FFFF;

/// Largest payload a frame carries, in bytes.
pub const MAX_PAYLOAD: usize = 8;

/// What a frame is, apart from how it is stored.
pub struct FrameView {
    pub id: u32,
    pub extended: bool,
    pub remote: bool,
    pub data: Seq<u8>,
}

/// The bound that an identifier stays under in the given addressing mode.
pub open spec fn id_limit(extended: bool) -> u32 {
    if extended {
        EXT_MASK
    } else {
        STD_MASK
    }
}

/// The identifiers and payload lengths from which a frame can be built.
pub open spec fn valid_parameters(id: u32, len: nat, extended: bool) -> bool {
    id < id_limit(extended) && len <= MAX_PAYLOAD
}

impl FrameView {
    /// The frame that is built from an identifier, a payload and the two
    /// flags.
    pub open spec fn new(id: u32, data: Seq<u8>, rtr: bool, ext: bool) -> FrameView {
        FrameView { id, extended: ext, remote: rtr, data }
    }

    /// What holds of every frame: the identifier is below the bound of the
    /// addressing mode, and the payload has at most eight bytes.
    pub open spec fn valid(self) -> bool {
        valid_parameters(self.id, self.data.len(), self.extended)
    }
}

/// The eight bytes of a frame's buffer: the payload, then zeros.
pub open spec fn padded(data: Seq<u8>) -> Seq<u8> {
    Seq::new(8, |i: int| if i < data.len() { data[i] } else { 0u8 })
}

/// An identifier as the mailbox takes it: eleven bits in the standard field,
/// or twenty-nine in the extended one.
#[derive(Clone, Copy, Debug, PartialEq, Eq)]
pub enum Identifier {
    Standard(u16),
    Extended(u32),
}

impl Identifier {
    /// The identifier as a number.
    pub open spec fn value(self) -> u32 {
        match self {
            Identifier::Standard(id) => id as u32,
            Identifier::Extended(id) => id,
        }
    }
}

/// The identifier of a frame, in the field that its addressing mode selects.
pub open spec fn identifier_of(frame: FrameView) -> Identifier {
    if frame.extended {
        Identifier::Extended(frame.id)
    } else {
        Identifier::Standard(frame.id as u16)
    }
}

/// A frame. Its identifier is below the bound of its addressing mode, its
/// payload has at most eight bytes, and the rest of its buffer is zero.
#[derive(Debug)]
pub struct CanFrame {
    id: u32,
    rtr: bool,
    ext: bool,
    dlc: u8,
    data: [u8; 8],
}

impl View for CanFrame {
    type V = FrameView;

    closed spec fn view(&self) -> FrameView {
        FrameView {
            id: self.id,
            extended: self.ext,
            remote: self.rtr,
            data: self.data@.take(self.dlc as int),
        }
    }
}

impl CanFrame {
    #[verifier::type_invariant]
    spec fn inv(self) -> bool {
        &&& self.id < id_limit(self.ext)
        &&& self.dlc <= 8
        &&& forall|i: int| self.dlc <= i < 8 ==> self.data@[i] == 0
    }

    /// Builds a frame from an identifier, a payload and the two flags.
    pub fn new(id: u32, data: &[u8], rtr: bool, ext: bool) -> (frame: Self)
        requires
            valid_parameters(id, data@.len(), ext),
        ensures
            frame@ == FrameView::new(id, data@, rtr, ext),
            frame@.valid(),
    {
        let mut data_copy: [u8; 8] = [0u8; 8];
        let n: usize = data.len();
        let mut i: usize = 0;
        while i < n
            invariant
                n == data@.len(),
                n <= 8,
                i <= n,
                forall|j: int| 0 <= j < i ==> data_copy@[j] == data@[j],
                forall|j: int| i <= j < 8 ==> data_copy@[j] == 0,
            decreases n - i,
        {
            data_copy[i] = data[i];
            i += 1;
        }
        let frame = CanFrame { id, rtr, ext, dlc: n as u8, data: data_copy };
        assert(frame@.data =~= data@);
        frame
    }

    /// Builds a frame, or refuses parameters that no frame can have.
    pub fn try_new(id: u32, data: &[u8], rtr: bool, ext: bool) -> (r: Result<Self, Error>)
        ensures
            match r {
                Ok(frame) => valid_parameters(id, data@.len(), ext) && frame@ == FrameView::new(
                    id,
                    data@,
                    rtr,
                    ext,
                ),
                Err(e) => !valid_parameters(id, data@.len(), ext) && e
                    == Error::InvalidFrameParameters,
            },
    {
        let limit: u32 = if ext {
            EXT_MASK
        } else {
            STD_MASK
        };
        if id < limit && data.len() <= MAX_PAYLOAD {
            Ok(CanFrame::new(id, data, rtr, ext))
        } else {
            Err(Error::InvalidFrameParameters)
        }
    }

    /// The identifier, below the bound of the frame's addressing mode.
    pub fn id(&self) -> (id: u32)
        ensures
            id == self@.id,
            id < id_limit(self@.extended),
            self@.valid(),
    {
        proof {
            use_type_invariant(self);
        }
        self.id
    }

    /// Whether the frame uses extended (29-bit) addressing.
    pub fn is_extended(&self) -> (extended: bool)
        ensures
            extended == self@.extended,
    {
        self.ext
    }

    /// Whether the frame requests data from another node.
    pub fn is_rtr(&self) -> (remote: bool)
        ensures
            remote == self@.remote,
    {
        self.rtr
    }

    /// The payload: as many bytes as the frame was built from.
    pub fn data(&self) -> (payload: &[u8])
        ensures
            payload@ == self@.data,
            payload@.len() <= MAX_PAYLOAD,
            self@.valid(),
    {
        proof {
            use_type_invariant(self);
        }
        slice_subrange(self.data.as_slice(), 0, self.dlc as usize)
    }

    /// The identifier in the form that a mailbox takes. Nothing of it is lost.
    pub fn identifier(&self) -> (id: Identifier)
        ensures
            id == identifier_of(self@),
            id.value() == self@.id,
            self@.valid(),
    {
        proof {
            use_type_invariant(self);
        }
        if self.ext {
            Identifier::Extended(self.id)
        } else {
            Identifier::Standard(self.id as u16)
        }
    }

    /// The whole buffer: the payload, then zeros up to eight bytes.
    pub fn buffer(&self) -> (bytes: [u8; 8])
        ensures
            bytes@ == padded(self@.data),
            self@.valid(),
    {
        proof {
            use_type_invariant(self);
            assert(self.data@ =~= padded(self@.data));
        }
        self.data
    }
}

/// Round trip: a frame gives back the identifier, the flags and the payload
/// that it was built from; its identifier is below the bound of its
/// addressing mode, its payload has at most eight bytes, and neither the
/// mailbox form of the identifier nor the padded buffer loses any of it.
pub proof fn lemma_round_trip(id: u32, data: Seq<u8>, rtr: bool, ext: bool)
    requires
        valid_parameters(id, data.len(), ext),
    ensures
        FrameView::new(id, data, rtr, ext).id == id,
        FrameView::new(id, data, rtr, ext).extended == ext,
        FrameView::new(id, data, rtr, ext).remote == rtr,
        FrameView::new(id, data, rtr, ext).data == data,
        FrameView::new(id, data, rtr, ext).valid(),
        FrameView::new(id, data, rtr, ext).id < id_limit(ext),
        FrameView::new(id, data, rtr, ext).data.len() <= MAX_PAYLOAD,
        identifier_of(FrameView::new(id, data, rtr, ext)).value() == id,
        padded(FrameView::new(id, data, rtr, ext).data).take(data.len() as int) == data,
{
    assert(padded(data).take(data.len() as int) =~= data);
}

} // verus!
