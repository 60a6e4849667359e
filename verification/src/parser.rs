//! The streaming frame parser: a state machine that consumes one byte at a
//! time and emits completed frames, resynchronizing on the sync byte after
//! any error.

use vstd::prelude::*;

use crate::checksum::crc8_dvb_s2;
use crate::checksum::crc8_dvb_s2_of;
use crate::data::MspPacketData;
use crate::packet::{le16, spec_direction_of_byte, FrameModel, MspPacket, MspPacketDirection,
    MspPacketParseError, DIR_FROM_FC_BYTE, DIR_TO_FC_BYTE, DIR_UNSUPPORTED_BYTE, SYNC_BYTE,
    V1_TAG, V2_TAG};

verus! {

/// The phase the parser is in, one variant per wire field.
#[derive(Copy, Clone, Debug, PartialEq, Eq, Structural)]
pub enum MspParserState {
    Header1,
    Header2,
    Direction,
    FlagV2,
    DataLength,
    DataLengthV2,
    Command,
    CommandV2,
    Data,
    DataV2,
    Crc,
}

/// The wire revision detected for the frame being parsed.
#[derive(Copy, Clone, Debug, PartialEq, Eq, Structural)]
pub enum MspVersion {
    V1,
    V2,
}

/// The mathematical content of a parser: its phase and every accumulator.
#[verifier::ext_equal]
pub struct ParserModel {
    /// Current phase.
    pub state: MspParserState,
    /// Revision selected at the version tag.
    pub version: MspVersion,
    /// Direction read from the wire, or the hint the parser was built with.
    pub direction: MspPacketDirection,
    /// Command accumulated so far.
    pub cmd: u16,
    /// Payload bytes still owed.
    pub remaining: usize,
    /// Payload bytes accumulated so far.
    pub data: Seq<u8>,
    /// The one or two bytes of a V2 command or length field read so far.
    pub scratch: Seq<u8>,
    /// The V1 running XOR checksum.
    pub crc: u8,
    /// The V2 header bytes that the CRC-8 covers, in order: flag, command,
    /// length.
    pub crc_header: Seq<u8>,
}

/// What one parsing step hands back.
#[verifier::ext_equal]
pub enum StepOutput {
    /// The frame is still incomplete.
    NoFrame,
    /// A frame was completed and validated.
    Frame(FrameModel),
    /// The byte violated the protocol; the parser has already reset itself.
    Failed(MspPacketParseError),
}

impl ParserModel {
    /// The parser is between frames with all accumulators cleared, so the
    /// next sync byte starts a clean frame.
    pub open spec fn ready(self) -> bool {
        &&& self.state == MspParserState::Header1
        &&& self.crc == 0
        &&& self.crc_header.len() == 0
    }
}

/// The state of a parser bound to direction hint `dir`, before any byte.
pub open spec fn initial_model(dir: MspPacketDirection) -> ParserModel {
    ParserModel {
        state: MspParserState::Header1,
        version: MspVersion::V1,
        direction: dir,
        cmd: 0,
        remaining: 0,
        data: Seq::empty(),
        scratch: Seq::empty(),
        crc: 0,
        crc_header: Seq::empty(),
    }
}

/// The state after a reset: everything cleared but the detected revision,
/// and the direction back at its default.
pub open spec fn reset_model(m: ParserModel) -> ParserModel {
    ParserModel {
        state: MspParserState::Header1,
        version: m.version,
        direction: MspPacketDirection::ToFlightController,
        cmd: 0,
        remaining: 0,
        data: Seq::empty(),
        scratch: Seq::empty(),
        crc: 0,
        crc_header: Seq::empty(),
    }
}

/// One transition of the parser state machine: the state after consuming
/// byte `b` in state `m`, and what that step hands back.
pub open spec fn spec_step(m: ParserModel, b: u8) -> (ParserModel, StepOutput) {
    match m.state {
        MspParserState::Header1 => {
            if b == SYNC_BYTE {
                (ParserModel { state: MspParserState::Header2, ..m }, StepOutput::NoFrame)
            } else {
                (reset_model(m), StepOutput::NoFrame)
            }
        },
        MspParserState::Header2 => {
            if b == V1_TAG {
                (
                    ParserModel {
                        state: MspParserState::Direction,
                        version: MspVersion::V1,
                        ..m
                    },
                    StepOutput::NoFrame,
                )
            } else if b == V2_TAG {
                (
                    ParserModel {
                        state: MspParserState::Direction,
                        version: MspVersion::V2,
                        ..m
                    },
                    StepOutput::NoFrame,
                )
            } else {
                (reset_model(m), StepOutput::Failed(MspPacketParseError::InvalidHeader2))
            }
        },
        MspParserState::Direction => {
            match spec_direction_of_byte(b) {
                Some(d) => (
                    ParserModel {
                        state: if m.version == MspVersion::V1 {
                            MspParserState::DataLength
                        } else {
                            MspParserState::FlagV2
                        },
                        direction: d,
                        ..m
                    },
                    StepOutput::NoFrame,
                ),
                None => (reset_model(m), StepOutput::Failed(MspPacketParseError::InvalidDirection)),
            }
        },
        MspParserState::FlagV2 => {
            (
                ParserModel {
                    state: MspParserState::CommandV2,
                    data: Seq::empty(),
                    scratch: Seq::empty(),
                    crc_header: m.crc_header.push(b),
                    ..m
                },
                StepOutput::NoFrame,
            )
        },
        MspParserState::CommandV2 => {
            let sc = m.scratch.push(b);
            if sc.len() == 2 {
                (
                    ParserModel {
                        state: MspParserState::DataLengthV2,
                        cmd: le16(sc[0], sc[1]),
                        scratch: Seq::empty(),
                        crc_header: m.crc_header + sc,
                        ..m
                    },
                    StepOutput::NoFrame,
                )
            } else {
                (ParserModel { scratch: sc, ..m }, StepOutput::NoFrame)
            }
        },
        MspParserState::DataLengthV2 => {
            let sc = m.scratch.push(b);
            if sc.len() == 2 {
                let n = le16(sc[0], sc[1]) as usize;
                (
                    ParserModel {
                        state: if n == 0 {
                            MspParserState::Crc
                        } else {
                            MspParserState::DataV2
                        },
                        remaining: n,
                        scratch: Seq::empty(),
                        crc_header: m.crc_header + sc,
                        ..m
                    },
                    StepOutput::NoFrame,
                )
            } else {
                (ParserModel { scratch: sc, ..m }, StepOutput::NoFrame)
            }
        },
        MspParserState::DataV2 => {
            let rem: usize = if m.remaining == 0 {
                0
            } else {
                (m.remaining - 1) as usize
            };
            (
                ParserModel {
                    state: if rem == 0 {
                        MspParserState::Crc
                    } else {
                        MspParserState::DataV2
                    },
                    remaining: rem,
                    data: m.data.push(b),
                    ..m
                },
                StepOutput::NoFrame,
            )
        },
        MspParserState::DataLength => {
            (
                ParserModel {
                    state: MspParserState::Command,
                    remaining: b as usize,
                    crc: m.crc ^ b,
                    data: Seq::empty(),
                    ..m
                },
                StepOutput::NoFrame,
            )
        },
        MspParserState::Command => {
            (
                ParserModel {
                    state: if m.remaining == 0 {
                        MspParserState::Crc
                    } else {
                        MspParserState::Data
                    },
                    cmd: b as u16,
                    crc: m.crc ^ b,
                    ..m
                },
                StepOutput::NoFrame,
            )
        },
        MspParserState::Data => {
            let rem: usize = if m.remaining == 0 {
                0
            } else {
                (m.remaining - 1) as usize
            };
            (
                ParserModel {
                    state: if rem == 0 {
                        MspParserState::Crc
                    } else {
                        MspParserState::Data
                    },
                    remaining: rem,
                    data: m.data.push(b),
                    crc: m.crc ^ b,
                    ..m
                },
                StepOutput::NoFrame,
            )
        },
        MspParserState::Crc => {
            let calculated = if m.version == MspVersion::V2 {
                crc8_dvb_s2_of(m.crc_header + m.data)
            } else {
                m.crc
            };
            if b != calculated {
                (
                    reset_model(m),
                    StepOutput::Failed(
                        MspPacketParseError::CrcMismatch { expected: b, calculated },
                    ),
                )
            } else {
                (
                    reset_model(m),
                    StepOutput::Frame(
                        FrameModel { cmd: m.cmd, direction: m.direction, data: m.data },
                    ),
                )
            }
        },
    }
}

/// Parser that can find packets in a raw byte stream.
#[derive(Debug)]
pub struct MspParser {
    state: MspParserState,
    packet_version: MspVersion,
    packet_direction: MspPacketDirection,
    packet_cmd: u16,
    packet_data_length_remaining: usize,
    packet_data: MspPacketData,
    scratch: Vec<u8>,
    packet_crc: u8,
    crc_header: Vec<u8>,
}

impl View for MspParser {
    type V = ParserModel;

    closed spec fn view(&self) -> ParserModel {
        ParserModel {
            state: self.state,
            version: self.packet_version,
            direction: self.packet_direction,
            cmd: self.packet_cmd,
            remaining: self.packet_data_length_remaining,
            data: self.packet_data@,
            scratch: self.scratch@,
            crc: self.packet_crc,
            crc_header: self.crc_header@,
        }
    }
}

impl MspParser {
    /// Create a new parser bound to a direction hint.
    pub fn new(dir: MspPacketDirection) -> (r: MspParser)
        ensures
            r@ == initial_model(dir),
    {
        let r = MspParser {
            state: MspParserState::Header1,
            packet_version: MspVersion::V1,
            packet_direction: dir,
            packet_cmd: 0,
            packet_data_length_remaining: 0,
            packet_data: MspPacketData::new(),
            scratch: Vec::new(),
            packet_crc: 0,
            crc_header: Vec::new(),
        };
        proof {
            assert(r@ =~= initial_model(dir));
        }
        r
    }

    /// A parser for frames coming from the flight controller.
    pub fn from_fc() -> (r: Self)
        ensures
            r@ == initial_model(MspPacketDirection::FromFlightController),
    {
        Self::new(MspPacketDirection::FromFlightController)
    }

    /// A parser for frames going to the flight controller.
    pub fn to_fc() -> (r: Self)
        ensures
            r@ == initial_model(MspPacketDirection::ToFlightController),
    {
        Self::new(MspPacketDirection::ToFlightController)
    }

    /// Are we waiting for the header of a brand new packet?
    pub fn state_is_between_packets(&self) -> (r: bool)
        ensures
            r == (self@.state == MspParserState::Header1),
    {
        self.state == MspParserState::Header1
    }

    /// Throw away everything accumulated and search for the next sync byte.
    pub fn reset(&mut self)
        ensures
            final(self)@ == reset_model(old(self)@),
    {
        self.state = MspParserState::Header1;
        self.packet_direction = MspPacketDirection::ToFlightController;
        self.packet_data_length_remaining = 0;
        self.packet_cmd = 0;
        self.packet_data.0.clear();
        self.scratch.clear();
        self.packet_crc = 0;
        self.crc_header.clear();
        proof {
            assert(self@ =~= reset_model(old(self)@));
        }
    }

    /// Parse the next input byte. Makes exactly the transition that
    /// `spec_step` describes: it returns the completed packet when one byte
    /// finishes a valid frame, the protocol error when the byte violates the
    /// protocol (the parser having already reset itself), and no packet
    /// otherwise.
    pub fn parse(&mut self, input: u8) -> (r: Result<Option<MspPacket>, MspPacketParseError>)
        ensures
            final(self)@ == spec_step(old(self)@, input).0,
            match r {
                Ok(None) => spec_step(old(self)@, input).1 == StepOutput::NoFrame,
                Ok(Some(p)) => spec_step(old(self)@, input).1 == StepOutput::Frame(p@),
                Err(e) => spec_step(old(self)@, input).1 == StepOutput::Failed(e),
            },
    {
        match self.state {
            MspParserState::Header1 => {
                if input == SYNC_BYTE {
                    self.state = MspParserState::Header2;
                } else {
                    self.reset();
                }
            },
            MspParserState::Header2 => {
                if input == V1_TAG {
                    self.packet_version = MspVersion::V1;
                    self.state = MspParserState::Direction;
                } else if input == V2_TAG {
                    self.packet_version = MspVersion::V2;
                    self.state = MspParserState::Direction;
                } else {
                    self.reset();
                    return Err(MspPacketParseError::InvalidHeader2);
                }
            },
            MspParserState::Direction => {
                if input == DIR_TO_FC_BYTE {
                    self.packet_direction = MspPacketDirection::ToFlightController;
                } else if input == DIR_FROM_FC_BYTE {
                    self.packet_direction = MspPacketDirection::FromFlightController;
                } else if input == DIR_UNSUPPORTED_BYTE {
                    self.packet_direction = MspPacketDirection::Unsupported;
                } else {
                    self.reset();
                    return Err(MspPacketParseError::InvalidDirection);
                }
                if self.packet_version == MspVersion::V1 {
                    self.state = MspParserState::DataLength;
                } else {
                    self.state = MspParserState::FlagV2;
                }
            },
            MspParserState::FlagV2 => {
                // The flag byte is reserved and accepted whatever its value;
                // it still counts into the checksum.
                self.state = MspParserState::CommandV2;
                self.packet_data.0.clear();
                self.scratch.clear();
                self.crc_header.push(input);
            },
            MspParserState::CommandV2 => {
                self.scratch.push(input);
                if self.scratch.len() == 2 {
                    let lo = self.scratch[0];
                    let hi = self.scratch[1];
                    self.packet_cmd = lo as u16 + 256 * (hi as u16);
                    self.crc_header.push(lo);
                    self.crc_header.push(hi);
                    self.scratch.clear();
                    self.state = MspParserState::DataLengthV2;
                    proof {
                        assert(old(self)@.crc_header + old(self)@.scratch.push(input)
                            =~= self@.crc_header);
                    }
                }
            },
            MspParserState::DataLengthV2 => {
                self.scratch.push(input);
                if self.scratch.len() == 2 {
                    let lo = self.scratch[0];
                    let hi = self.scratch[1];
                    let n: usize = lo as usize + 256 * (hi as usize);
                    self.packet_data_length_remaining = n;
                    self.crc_header.push(lo);
                    self.crc_header.push(hi);
                    self.scratch.clear();
                    if n == 0 {
                        self.state = MspParserState::Crc;
                    } else {
                        self.state = MspParserState::DataV2;
                    }
                    proof {
                        assert(old(self)@.crc_header + old(self)@.scratch.push(input)
                            =~= self@.crc_header);
                    }
                }
            },
            MspParserState::DataV2 => {
                self.packet_data.0.push(input);
                if self.packet_data_length_remaining <= 1 {
                    self.state = MspParserState::Crc;
                    self.packet_data_length_remaining = 0;
                } else {
                    self.packet_data_length_remaining = self.packet_data_length_remaining - 1;
                }
            },
            MspParserState::DataLength => {
                self.packet_data_length_remaining = input as usize;
                self.state = MspParserState::Command;
                self.packet_crc = self.packet_crc ^ input;
                self.packet_data.0.clear();
            },
            MspParserState::Command => {
                self.packet_cmd = input as u16;
                if self.packet_data_length_remaining == 0 {
                    self.state = MspParserState::Crc;
                } else {
                    self.state = MspParserState::Data;
                }
                self.packet_crc = self.packet_crc ^ input;
            },
            MspParserState::Data => {
                self.packet_data.0.push(input);
                self.packet_crc = self.packet_crc ^ input;
                if self.packet_data_length_remaining <= 1 {
                    self.state = MspParserState::Crc;
                    self.packet_data_length_remaining = 0;
                } else {
                    self.packet_data_length_remaining = self.packet_data_length_remaining - 1;
                }
            },
            MspParserState::Crc => {
                let calculated: u8;
                if self.packet_version == MspVersion::V2 {
                    let mut covered: Vec<u8> = Vec::new();
                    let hn = self.crc_header.len();
                    let mut i: usize = 0;
                    while i < hn
                        invariant
                            hn == self.crc_header@.len(),
                            i <= hn,
                            covered@ == self.crc_header@.take(i as int),
                        decreases hn - i,
                    {
                        covered.push(self.crc_header[i]);
                        proof {
                            assert(covered@ =~= self.crc_header@.take(i + 1));
                        }
                        i = i + 1;
                    }
                    let dn = self.packet_data.0.len();
                    let mut j: usize = 0;
                    while j < dn
                        invariant
                            hn == self.crc_header@.len(),
                            dn == self.packet_data@.len(),
                            j <= dn,
                            covered@ == self.crc_header@.take(hn as int) + self.packet_data@.take(
                                j as int,
                            ),
                        decreases dn - j,
                    {
                        covered.push(self.packet_data.0[j]);
                        proof {
                            assert(covered@ =~= self.crc_header@.take(hn as int)
                                + self.packet_data@.take(j + 1));
                        }
                        j = j + 1;
                    }
                    proof {
                        assert(covered@ =~= self@.crc_header + self@.data);
                    }
                    calculated = crc8_dvb_s2(covered.as_slice());
                } else {
                    calculated = self.packet_crc;
                }
                if input != calculated {
                    self.reset();
                    return Err(
                        MspPacketParseError::CrcMismatch { expected: input, calculated },
                    );
                }
                let mut taken: Vec<u8> = Vec::new();
                let tn = self.packet_data.0.len();
                let mut k: usize = 0;
                while k < tn
                    invariant
                        tn == self.packet_data@.len(),
                        k <= tn,
                        taken@ == self.packet_data@.take(k as int),
                    decreases tn - k,
                {
                    taken.push(self.packet_data.0[k]);
                    proof {
                        assert(taken@ =~= self.packet_data@.take(k + 1));
                    }
                    k = k + 1;
                }
                proof {
                    assert(taken@ =~= self.packet_data@);
                }
                let packet = MspPacket {
                    cmd: self.packet_cmd,
                    direction: self.packet_direction,
                    data: MspPacketData(taken),
                };
                self.reset();
                return Ok(Some(packet));
            },
        }
        Ok(None)
    }
}

impl Default for MspParser {
    /// The default parser carries the to-flight-controller direction hint.
    fn default() -> (r: Self)
        ensures
            r@ == initial_model(MspPacketDirection::ToFlightController),
    {
        Self::to_fc()
    }
}

} // verus!
