//! Setup packets.
//!
//! Every control transfer begins with a setup packet: exactly eight bytes
//! delivered on endpoint 0 OUT, laid out little-endian as request type,
//! request, value, index and length. Anything shorter or longer is a
//! protocol error and must stall the control endpoint.

use vstd::prelude::*;
use crate::endpoint::Direction;

verus! {

/// The only length a setup packet may have.
pub const SETUP_PACKET_LENGTH: usize = 8;

/// The request-type bit that selects an IN data stage.
pub const DIRECTION_IN_BIT: u8 = 0x80;

/// The standard request code for SET_ADDRESS.
pub const REQUEST_SET_ADDRESS: u8 = 5;

/// A decoded setup packet.
#[derive(Clone, Copy, PartialEq, Eq, Structural, Debug)]
pub struct SetupPacket {
    /// Request characteristics; bit 7 is the data-stage direction.
    pub request_type: u8,
    /// The request code.
    pub request: u8,
    /// The request's value word; for SET_ADDRESS, the new address.
    pub value: u16,
    /// The request's index word.
    pub index: u16,
    /// How many bytes the data stage carries; zero means no data stage.
    pub length: u16,
}

impl SetupPacket {
    /// The direction of the data stage this packet requests: bit 7 of the
    /// request type, which for a byte is exactly the values at or above
    /// [`DIRECTION_IN_BIT`].
    pub open spec fn spec_direction(&self) -> Direction {
        if self.request_type >= DIRECTION_IN_BIT {
            Direction::In
        } else {
            Direction::Out
        }
    }

    /// Whether this packet is a standard SET_ADDRESS request.
    pub open spec fn spec_is_set_address(&self) -> bool {
        self.request_type == 0 && self.request == REQUEST_SET_ADDRESS
    }

    /// The direction of the data stage this packet requests.
    pub fn direction(&self) -> (d: Direction)
        ensures
            d == self.spec_direction(),
    {
        if self.request_type >= DIRECTION_IN_BIT {
            Direction::In
        } else {
            Direction::Out
        }
    }

    /// Whether this packet is a standard SET_ADDRESS request.
    pub fn is_set_address(&self) -> (r: bool)
        ensures
            r == self.spec_is_set_address(),
    {
        self.request_type == 0 && self.request == REQUEST_SET_ADDRESS
    }
}

/// What the bytes of a well-formed setup packet decode to.
pub open spec fn spec_parse_setup(bytes: Seq<u8>) -> SetupPacket
    recommends
        bytes.len() == SETUP_PACKET_LENGTH,
{
    SetupPacket {
        request_type: bytes[0],
        request: bytes[1],
        value: (bytes[2] + bytes[3] * 256) as u16,
        index: (bytes[4] + bytes[5] * 256) as u16,
        length: (bytes[6] + bytes[7] * 256) as u16,
    }
}

/// Decode a setup packet from the bytes endpoint 0 OUT received. Exactly
/// eight bytes decode to the packet; any other length is refused as
/// malformed.
pub fn parse_setup(bytes: &Vec<u8>) -> (r: Option<SetupPacket>)
    ensures
        bytes@.len() == SETUP_PACKET_LENGTH ==> r == Some(spec_parse_setup(bytes@)),
        bytes@.len() != SETUP_PACKET_LENGTH ==> r is None,
{
    if bytes.len() != SETUP_PACKET_LENGTH {
        return None;
    }
    let value = bytes[2] as u16 + bytes[3] as u16 * 256;
    let index = bytes[4] as u16 + bytes[5] as u16 * 256;
    let length = bytes[6] as u16 + bytes[7] as u16 * 256;
    Some(
        SetupPacket {
            request_type: bytes[0],
            request: bytes[1],
            value,
            index,
            length,
        },
    )
}

} // verus!
