//! The frame model and the serializer for both wire revisions.

use vstd::prelude::*;

use crate::checksum::{crc8_dvb_s2, crc8_dvb_s2_of, lemma_xor_fold_push, lemma_xor_fold_two, lemma_xor_zero, xor_fold,
    xor_of};
use crate::data::MspPacketData;

verus! {

/// The sync byte `'$'` that opens every frame.
pub const SYNC_BYTE: u8 = 36;

/// The version tag `'M'` that selects wire revision V1.
pub const V1_TAG: u8 = 77;

/// The version tag `'X'` that selects wire revision V2.
pub const V2_TAG: u8 = 88;

/// The direction byte `'<'`.
pub const DIR_TO_FC_BYTE: u8 = 60;

/// The direction byte `'>'`.
pub const DIR_FROM_FC_BYTE: u8 = 62;

/// The direction byte `'!'`.
pub const DIR_UNSUPPORTED_BYTE: u8 = 33;

/// Packet parsing or serialization error.
#[derive(Copy, Clone, Debug, PartialEq, Eq, Structural)]
pub enum MspPacketParseError {
    /// The destination buffer handed to a serializer does not have exactly
    /// the size of the frame.
    OutputBufferSizeMismatch,
    /// The checksum byte read from the wire (`expected`) differs from the
    /// one computed over the received frame (`calculated`).
    CrcMismatch { expected: u8, calculated: u8 },
    /// The byte after the sync byte is neither `'M'` nor `'X'`.
    InvalidHeader2,
    /// The direction byte is none of `'<'`, `'>'`, `'!'`.
    InvalidDirection,
    /// A numeric command code that the command registry does not know.
    UnknownCommand,
}

/// Packet's desired destination.
#[derive(Copy, Clone, Debug, PartialEq, Eq, Structural)]
pub enum MspPacketDirection {
    /// Wire byte `'<'`.
    ToFlightController,
    /// Wire byte `'>'`.
    FromFlightController,
    /// Wire byte `'!'`.
    Unsupported,
}

impl MspPacketDirection {
    /// The byte this direction is written as on the wire.
    pub open spec fn spec_byte(self) -> u8 {
        match self {
            MspPacketDirection::ToFlightController => DIR_TO_FC_BYTE,
            MspPacketDirection::FromFlightController => DIR_FROM_FC_BYTE,
            MspPacketDirection::Unsupported => DIR_UNSUPPORTED_BYTE,
        }
    }

    /// To network byte.
    pub fn to_byte(&self) -> (r: u8)
        ensures
            r == self.spec_byte(),
    {
        match *self {
            MspPacketDirection::ToFlightController => DIR_TO_FC_BYTE,
            MspPacketDirection::FromFlightController => DIR_FROM_FC_BYTE,
            MspPacketDirection::Unsupported => DIR_UNSUPPORTED_BYTE,
        }
    }
}

/// The direction a wire byte stands for, if any.
pub open spec fn spec_direction_of_byte(b: u8) -> Option<MspPacketDirection> {
    if b == DIR_TO_FC_BYTE {
        Some(MspPacketDirection::ToFlightController)
    } else if b == DIR_FROM_FC_BYTE {
        Some(MspPacketDirection::FromFlightController)
    } else if b == DIR_UNSUPPORTED_BYTE {
        Some(MspPacketDirection::Unsupported)
    } else {
        None
    }
}

/// A decoded MSP packet, with a command code, direction and payload.
#[derive(Clone, Debug)]
pub struct MspPacket {
    pub cmd: u16,
    pub direction: MspPacketDirection,
    pub data: MspPacketData,
}

/// The mathematical content of a packet: its command, direction and payload
/// bytes.
#[verifier::ext_equal]
pub struct FrameModel {
    pub cmd: u16,
    pub direction: MspPacketDirection,
    pub data: Seq<u8>,
}

impl FrameModel {
    /// The payload fits the one-byte length field of revision V1.
    pub open spec fn valid_v1(self) -> bool {
        self.data.len() <= 255
    }

    /// The payload fits the two-byte length field of revision V2.
    pub open spec fn valid_v2(self) -> bool {
        self.data.len() <= 65535
    }
}

impl View for MspPacket {
    type V = FrameModel;

    open spec fn view(&self) -> FrameModel {
        FrameModel { cmd: self.cmd, direction: self.direction, data: self.data@ }
    }
}

/// The low byte of a 16-bit value in little-endian order.
pub open spec fn le16_lo(v: u16) -> u8 {
    (v % 256) as u8
}

/// The high byte of a 16-bit value in little-endian order.
pub open spec fn le16_hi(v: u16) -> u8 {
    (v / 256) as u8
}

/// The 16-bit value read from two bytes in little-endian order.
pub open spec fn le16(lo: u8, hi: u8) -> u16 {
    (lo + 256 * hi) as u16
}

/// Splitting a 16-bit value into little-endian bytes and reading them back
/// yields the value again.
pub proof fn lemma_le16_roundtrip(v: u16)
    ensures
        le16(le16_lo(v), le16_hi(v)) == v,
{
}

/// The bytes that the V1 checksum covers: the length byte, the command byte
/// and the payload.
pub open spec fn spec_v1_covered(f: FrameModel) -> Seq<u8> {
    seq![f.data.len() as u8, (f.cmd % 256) as u8] + f.data
}

/// The wire bytes of a frame in revision V1:
/// `'$' 'M' dir len cmd payload... xor`. The command is narrowed to its low
/// 8 bits, as the one-byte V1 command field demands.
pub open spec fn spec_serialize_v1(f: FrameModel) -> Seq<u8> {
    seq![SYNC_BYTE, V1_TAG, f.direction.spec_byte(), f.data.len() as u8, (f.cmd % 256) as u8]
        + f.data + seq![xor_of(spec_v1_covered(f))]
}

/// The bytes that the V2 checksum covers: the flag byte, the command and the
/// length in little-endian order, and the payload.
pub open spec fn spec_v2_covered(f: FrameModel) -> Seq<u8> {
    seq![0u8, le16_lo(f.cmd), le16_hi(f.cmd), le16_lo(f.data.len() as u16), le16_hi(
        f.data.len() as u16,
    )] + f.data
}

/// The wire bytes of a frame in revision V2:
/// `'$' 'X' dir flag cmd_le16 len_le16 payload... crc8`.
pub open spec fn spec_serialize_v2(f: FrameModel) -> Seq<u8> {
    seq![SYNC_BYTE, V2_TAG, f.direction.spec_byte()] + spec_v2_covered(f) + seq![crc8_dvb_s2_of(
        spec_v2_covered(f),
    )]
}

impl MspPacket {
    /// Number of bytes that this packet requires on the wire in revision V1.
    pub fn packet_size_bytes(&self) -> (r: usize)
        requires
            self@.valid_v1(),
        ensures
            r == 6 + self@.data.len(),
    {
        6 + self.data.0.len()
    }

    /// Number of bytes that this packet requires on the wire in revision V2.
    pub fn packet_size_bytes_v2(&self) -> (r: usize)
        requires
            self@.valid_v2(),
        ensures
            r == 9 + self@.data.len(),
    {
        9 + self.data.0.len()
    }

    /// Serialize to network bytes in revision V1. Fails, leaving the buffer
    /// untouched, exactly when the buffer's length is not the frame's size.
    /// A command above 255 is narrowed to its low 8 bits on the wire.
    pub fn serialize(&self, output: &mut Vec<u8>) -> (r: Result<(), MspPacketParseError>)
        requires
            self@.valid_v1(),
        ensures
            match r {
                Ok(()) => old(output)@.len() == 6 + self@.data.len() && final(output)@
                    == spec_serialize_v1(self@),
                Err(e) => e == MspPacketParseError::OutputBufferSizeMismatch && old(output)@.len()
                    != 6 + self@.data.len() && final(output)@ == old(output)@,
            },
    {
        if output.len() != 6 + self.data.0.len() {
            return Err(MspPacketParseError::OutputBufferSizeMismatch);
        }
        let len_byte: u8 = self.data.0.len() as u8;
        let cmd_byte: u8 = (self.cmd % 256) as u8;
        output.clear();
        output.push(SYNC_BYTE);
        output.push(V1_TAG);
        output.push(self.direction.to_byte());
        output.push(len_byte);
        output.push(cmd_byte);
        let mut crc: u8 = len_byte ^ cmd_byte;
        proof {
            lemma_xor_zero(len_byte);
            lemma_xor_fold_two(0u8, len_byte, cmd_byte);
            assert(xor_fold(0u8, seq![len_byte, cmd_byte]) == len_byte ^ cmd_byte);
        }
        let n = self.data.0.len();
        let mut i: usize = 0;
        while i < n
            invariant
                n == self@.data.len(),
                n <= 255,
                i <= n,
                len_byte == self@.data.len() as u8,
                cmd_byte == (self@.cmd % 256) as u8,
                self@.valid_v1(),
                output@ == seq![
                    SYNC_BYTE,
                    V1_TAG,
                    self@.direction.spec_byte(),
                    len_byte,
                    cmd_byte,
                ] + self@.data.take(i as int),
                crc == xor_fold(0u8, seq![len_byte, cmd_byte] + self@.data.take(i as int)),
            decreases n - i,
        {
            let b = self.data.0[i];
            output.push(b);
            crc = crc ^ b;
            proof {
                let prev = seq![len_byte, cmd_byte] + self@.data.take(i as int);
                lemma_xor_fold_push(0u8, prev, b);
                assert(prev.push(b) =~= seq![len_byte, cmd_byte] + self@.data.take(i + 1));
                assert(output@ == seq![
                    SYNC_BYTE,
                    V1_TAG,
                    self@.direction.spec_byte(),
                    len_byte,
                    cmd_byte,
                ] + self@.data.take(i as int) + seq![b]);
                assert((seq![SYNC_BYTE, V1_TAG, self@.direction.spec_byte(), len_byte, cmd_byte]
                    + self@.data.take(i as int) + seq![b]) =~= seq![
                    SYNC_BYTE,
                    V1_TAG,
                    self@.direction.spec_byte(),
                    len_byte,
                    cmd_byte,
                ] + self@.data.take(i + 1));
            }
            i = i + 1;
        }
        proof {
            assert(self@.data.take(n as int) =~= self@.data);
        }
        output.push(crc);
        proof {
            assert(output@ =~= spec_serialize_v1(self@));
        }
        Ok(())
    }

    /// Serialize to network bytes in revision V2. Fails, leaving the buffer
    /// untouched, exactly when the buffer's length is not the frame's size.
    pub fn serialize_v2(&self, output: &mut Vec<u8>) -> (r: Result<(), MspPacketParseError>)
        requires
            self@.valid_v2(),
        ensures
            match r {
                Ok(()) => old(output)@.len() == 9 + self@.data.len() && final(output)@
                    == spec_serialize_v2(self@),
                Err(e) => e == MspPacketParseError::OutputBufferSizeMismatch && old(output)@.len()
                    != 9 + self@.data.len() && final(output)@ == old(output)@,
            },
    {
        if output.len() != 9 + self.data.0.len() {
            return Err(MspPacketParseError::OutputBufferSizeMismatch);
        }
        let len16: u16 = self.data.0.len() as u16;
        let mut covered: Vec<u8> = Vec::new();
        covered.push(0);
        covered.push((self.cmd % 256) as u8);
        covered.push((self.cmd / 256) as u8);
        covered.push((len16 % 256) as u8);
        covered.push((len16 / 256) as u8);
        let n = self.data.0.len();
        let mut i: usize = 0;
        while i < n
            invariant
                n == self@.data.len(),
                i <= n,
                len16 == self@.data.len() as u16,
                self@.valid_v2(),
                covered@ == seq![
                    0u8,
                    le16_lo(self@.cmd),
                    le16_hi(self@.cmd),
                    le16_lo(len16),
                    le16_hi(len16),
                ] + self@.data.take(i as int),
            decreases n - i,
        {
            covered.push(self.data.0[i]);
            proof {
                assert(covered@ =~= seq![
                    0u8,
                    le16_lo(self@.cmd),
                    le16_hi(self@.cmd),
                    le16_lo(len16),
                    le16_hi(len16),
                ] + self@.data.take(i + 1));
            }
            i = i + 1;
        }
        proof {
            assert(covered@ =~= spec_v2_covered(self@));
        }
        let crc = crc8_dvb_s2(covered.as_slice());
        output.clear();
        output.push(SYNC_BYTE);
        output.push(V2_TAG);
        output.push(self.direction.to_byte());
        let m = covered.len();
        let mut j: usize = 0;
        while j < m
            invariant
                m == covered@.len(),
                j <= m,
                covered@ == spec_v2_covered(self@),
                output@ == seq![SYNC_BYTE, V2_TAG, self@.direction.spec_byte()] + covered@.take(
                    j as int,
                ),
            decreases m - j,
        {
            output.push(covered[j]);
            proof {
                assert(output@ =~= seq![SYNC_BYTE, V2_TAG, self@.direction.spec_byte()]
                    + covered@.take(j + 1));
            }
            j = j + 1;
        }
        proof {
            assert(covered@.take(m as int) =~= covered@);
        }
        output.push(crc);
        proof {
            assert(output@ =~= spec_serialize_v2(self@));
        }
        Ok(())
    }
}

impl PartialEq for MspPacket {
    /// Two packets are equal when command, direction and payload agree.
    fn eq(&self, other: &MspPacket) -> (r: bool) {
        self.cmd == other.cmd && self.direction == other.direction && self.data == other.data
    }
}

impl vstd::std_specs::cmp::PartialEqSpecImpl for MspPacket {
    open spec fn obeys_eq_spec() -> bool {
        true
    }

    open spec fn eq_spec(&self, other: &MspPacket) -> bool {
        self@ == other@
    }
}

} // verus!
