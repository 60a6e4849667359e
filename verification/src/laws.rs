//! Stream-level guarantees of the parser: what feeding whole byte sequences
//! into the state machine yields.

use vstd::prelude::*;

use crate::checksum::{lemma_xor_fold_append, lemma_xor_fold_one, lemma_xor_fold_two, xor_fold,
    xor_of};
use crate::checksum::crc8_dvb_s2_of;
use crate::packet::{le16_hi, le16_lo, lemma_le16_roundtrip, spec_direction_of_byte,
    spec_serialize_v1, spec_serialize_v2, spec_v1_covered, spec_v2_covered, FrameModel,
    MspPacketParseError, SYNC_BYTE, V1_TAG, V2_TAG};
use crate::parser::{reset_model, spec_step, MspParserState, MspVersion, ParserModel, StepOutput};

verus! {

/// The parser state and the outputs, one per byte, after consuming `bytes`
/// from state `m`, one byte at a time.
pub open spec fn feed(m: ParserModel, bytes: Seq<u8>) -> (ParserModel, Seq<StepOutput>)
    decreases bytes.len(),
{
    if bytes.len() == 0 {
        (m, Seq::empty())
    } else {
        let first = spec_step(m, bytes[0]);
        let rest = feed(first.0, bytes.skip(1));
        (rest.0, seq![first.1] + rest.1)
    }
}

/// Feeding nothing changes nothing.
proof fn lemma_feed_nil(m: ParserModel)
    ensures
        feed(m, Seq::empty()) == (m, Seq::<StepOutput>::empty()),
{
}

/// Feeding a non-empty sequence is one step followed by the rest.
proof fn lemma_feed_unfold(m: ParserModel, bytes: Seq<u8>)
    requires
        bytes.len() >= 1,
    ensures
        feed(m, bytes).0 == feed(spec_step(m, bytes[0]).0, bytes.skip(1)).0,
        feed(m, bytes).1 == seq![spec_step(m, bytes[0]).1] + feed(
            spec_step(m, bytes[0]).0,
            bytes.skip(1),
        ).1,
{
}

/// Feeding a concatenation is feeding the first part, then the second from
/// the state the first part left behind.
pub proof fn lemma_feed_append(m: ParserModel, a: Seq<u8>, b: Seq<u8>)
    ensures
        feed(m, a + b).0 == feed(feed(m, a).0, b).0,
        feed(m, a + b).1 == feed(m, a).1 + feed(feed(m, a).0, b).1,
    decreases a.len(),
{
    if a.len() == 0 {
        assert(a + b =~= b);
        assert(feed(m, a).1 + feed(m, b).1 =~= feed(m, b).1);
    } else {
        assert((a + b)[0] == a[0]);
        assert((a + b).len() >= 1);
        assert((a + b).skip(1) =~= a.skip(1) + b);
        let m1 = spec_step(m, a[0]).0;
        lemma_feed_append(m1, a.skip(1), b);
        assert(feed(m, a + b).1 =~= feed(m, a).1 + feed(feed(m, a).0, b).1);
    }
}

/// Resynchronization consumes noise silently: while the parser is between
/// frames, bytes other than the sync byte produce neither frames nor errors
/// and leave the parser between frames.
pub proof fn lemma_resync(m: ParserModel, noise: Seq<u8>)
    requires
        m.ready(),
        forall|i: int| 0 <= i < noise.len() ==> noise[i] != SYNC_BYTE,
    ensures
        feed(m, noise).0.ready(),
        feed(m, noise).1.len() == noise.len(),
        forall|i: int|
            0 <= i < noise.len() ==> feed(m, noise).1[i] == StepOutput::NoFrame,
    decreases noise.len(),
{
    if noise.len() == 0 {
    } else {
        let m1 = spec_step(m, noise[0]).0;
        assert(noise[0] != SYNC_BYTE);
        assert(m1 == reset_model(m));
        assert(forall|i: int|
            0 <= i < noise.skip(1).len() ==> noise.skip(1)[i] == noise[i + 1]);
        lemma_resync(m1, noise.skip(1));
        lemma_feed_unfold(m, noise);
    }
}

/// Feeding the payload bytes while in the V1 payload phase appends them to
/// the buffer, folds them into the XOR checksum, and ends at the checksum
/// phase, with no frame and no error on the way.
proof fn lemma_feed_v1_payload(m: ParserModel, rest: Seq<u8>)
    requires
        m.state == MspParserState::Data,
        m.remaining == rest.len(),
        rest.len() >= 1,
    ensures
        feed(m, rest).0 == (ParserModel {
            state: MspParserState::Crc,
            remaining: 0,
            data: m.data + rest,
            crc: xor_fold(m.crc, rest),
            ..m
        }),
        feed(m, rest).1.len() == rest.len(),
        forall|i: int| 0 <= i < rest.len() ==> feed(m, rest).1[i] == StepOutput::NoFrame,
    decreases rest.len(),
{
    let s = spec_step(m, rest[0]);
    lemma_feed_unfold(m, rest);
    if rest.len() == 1 {
        assert(rest.skip(1) =~= Seq::<u8>::empty());
        assert(rest =~= seq![rest[0]]);
        lemma_xor_fold_one(m.crc, rest[0]);
        assert(m.data + rest =~= m.data.push(rest[0]));
        assert(feed(m, rest).0 =~= (ParserModel {
            state: MspParserState::Crc,
            remaining: 0,
            data: m.data + rest,
            crc: xor_fold(m.crc, rest),
            ..m
        }));
    } else {
        lemma_feed_v1_payload(s.0, rest.skip(1));
        assert(m.data.push(rest[0]) + rest.skip(1) =~= m.data + rest);
        assert(xor_fold(m.crc ^ rest[0], rest.skip(1)) == xor_fold(m.crc, rest));
        assert(feed(m, rest).0 =~= (ParserModel {
            state: MspParserState::Crc,
            remaining: 0,
            data: m.data + rest,
            crc: xor_fold(m.crc, rest),
            ..m
        }));
    }
}

/// Partial feeding, revision V1: every byte of a V1 frame but the last
/// leaves the parser waiting at the checksum phase with the frame's fields
/// accumulated, and yields neither a frame nor an error on the way.
pub proof fn lemma_feed_v1_to_crc(m: ParserModel, f: FrameModel)
    requires
        m.ready(),
        f.valid_v1(),
    ensures
        feed(m, spec_serialize_v1(f).drop_last()).0 == (ParserModel {
            state: MspParserState::Crc,
            version: MspVersion::V1,
            direction: f.direction,
            cmd: (f.cmd % 256) as u16,
            remaining: 0,
            data: f.data,
            crc: xor_of(spec_v1_covered(f)),
            ..m
        }),
        feed(m, spec_serialize_v1(f).drop_last()).1.len() == 5 + f.data.len(),
        forall|i: int|
            0 <= i < 5 + f.data.len() ==> feed(m, spec_serialize_v1(f).drop_last()).1[i]
                == StepOutput::NoFrame,
{
    let db = f.direction.spec_byte();
    let lb = f.data.len() as u8;
    let cb = (f.cmd % 256) as u8;
    let hdr = seq![SYNC_BYTE, V1_TAG, db, lb, cb];
    let w = spec_serialize_v1(f);
    assert(w.drop_last() =~= hdr + f.data);
    lemma_feed_append(m, hdr, f.data);

    // Walk the five header bytes.
    let m1 = spec_step(m, hdr[0]).0;
    let t1 = hdr.skip(1);
    assert(t1 =~= seq![V1_TAG, db, lb, cb]);
    lemma_feed_unfold(m, hdr);
    assert(m1 == (ParserModel { state: MspParserState::Header2, ..m }));
    let m2 = spec_step(m1, t1[0]).0;
    let t2 = t1.skip(1);
    assert(t2 =~= seq![db, lb, cb]);
    lemma_feed_unfold(m1, t1);
    assert(m2 == (ParserModel {
        state: MspParserState::Direction,
        version: MspVersion::V1,
        ..m
    }));
    assert(spec_direction_of_byte(db) == Some(f.direction));
    let m3 = spec_step(m2, t2[0]).0;
    let t3 = t2.skip(1);
    assert(t3 =~= seq![lb, cb]);
    lemma_feed_unfold(m2, t2);
    assert(m3 == (ParserModel {
        state: MspParserState::DataLength,
        version: MspVersion::V1,
        direction: f.direction,
        ..m
    }));
    let m4 = spec_step(m3, t3[0]).0;
    let t4 = t3.skip(1);
    assert(t4 =~= seq![cb]);
    lemma_feed_unfold(m3, t3);
    assert(m4 == (ParserModel {
        state: MspParserState::Command,
        version: MspVersion::V1,
        direction: f.direction,
        remaining: lb as usize,
        crc: 0u8 ^ lb,
        data: Seq::empty(),
        ..m
    }));
    assert(lb as usize == f.data.len());
    let m5 = spec_step(m4, t4[0]).0;
    let t5 = t4.skip(1);
    assert(t5 =~= Seq::<u8>::empty());
    lemma_feed_unfold(m4, t4);
    lemma_feed_nil(m5);
    assert(feed(m, hdr).0 == m5);
    assert(feed(m, hdr).1 =~= seq![
        StepOutput::NoFrame,
        StepOutput::NoFrame,
        StepOutput::NoFrame,
        StepOutput::NoFrame,
        StepOutput::NoFrame,
    ]);

    // The checksum over the covered bytes.
    lemma_xor_fold_append(0u8, seq![lb, cb], f.data);
    lemma_xor_fold_two(0u8, lb, cb);
    assert(spec_v1_covered(f) == seq![lb, cb] + f.data);
    assert(xor_of(spec_v1_covered(f)) == xor_fold((0u8 ^ lb) ^ cb, f.data));

    if f.data.len() == 0 {
        assert(m5 == (ParserModel {
            state: MspParserState::Crc,
            version: MspVersion::V1,
            direction: f.direction,
            cmd: cb as u16,
            remaining: 0,
            crc: (0u8 ^ lb) ^ cb,
            data: Seq::empty(),
            ..m
        }));
        assert(f.data =~= Seq::<u8>::empty());
        assert(xor_fold((0u8 ^ lb) ^ cb, f.data) == (0u8 ^ lb) ^ cb);
        assert(feed(m, hdr + f.data).0 =~= (ParserModel {
            state: MspParserState::Crc,
            version: MspVersion::V1,
            direction: f.direction,
            cmd: (f.cmd % 256) as u16,
            remaining: 0,
            data: f.data,
            crc: xor_of(spec_v1_covered(f)),
            ..m
        }));
        assert(feed(m, hdr + f.data).1 =~= feed(m, hdr).1);
    } else {
        assert(m5 == (ParserModel {
            state: MspParserState::Data,
            version: MspVersion::V1,
            direction: f.direction,
            cmd: cb as u16,
            remaining: f.data.len() as usize,
            crc: (0u8 ^ lb) ^ cb,
            data: Seq::empty(),
            ..m
        }));
        lemma_feed_v1_payload(m5, f.data);
        assert(Seq::<u8>::empty() + f.data =~= f.data);
        assert(feed(m, hdr + f.data).0 =~= (ParserModel {
            state: MspParserState::Crc,
            version: MspVersion::V1,
            direction: f.direction,
            cmd: (f.cmd % 256) as u16,
            remaining: 0,
            data: f.data,
            crc: xor_of(spec_v1_covered(f)),
            ..m
        }));
    }
}

/// Round trip, revision V1: serializing any frame whose payload fits the V1
/// length field and whose command fits the one-byte V1 command field, then
/// feeding the bytes one at a time into a parser that is between frames,
/// yields no frame and no error for every byte but the last, and the last
/// byte completes exactly the original frame. The parser is between frames
/// again afterwards.
pub proof fn lemma_round_trip_v1(m: ParserModel, f: FrameModel)
    requires
        m.ready(),
        f.valid_v1(),
        f.cmd <= 255,
    ensures
        feed(m, spec_serialize_v1(f)).0.ready(),
        feed(m, spec_serialize_v1(f)).1.len() == 6 + f.data.len(),
        forall|i: int|
            0 <= i < 5 + f.data.len() ==> feed(m, spec_serialize_v1(f)).1[i]
                == StepOutput::NoFrame,
        feed(m, spec_serialize_v1(f)).1[5 + f.data.len() as int] == StepOutput::Frame(f),
{
    let w = spec_serialize_v1(f);
    let ck = xor_of(spec_v1_covered(f));
    assert(w.len() == 6 + f.data.len());
    assert(w.last() == ck);
    assert(w =~= w.drop_last() + seq![ck]);
    lemma_feed_v1_to_crc(m, f);
    lemma_feed_append(m, w.drop_last(), seq![ck]);
    let mc = feed(m, w.drop_last()).0;
    let s = spec_step(mc, ck);
    assert(s.1 == StepOutput::Frame(FrameModel { cmd: mc.cmd, direction: mc.direction, data: mc.data }));
    assert(FrameModel { cmd: mc.cmd, direction: mc.direction, data: mc.data } =~= f);
    lemma_feed_unfold(mc, seq![ck]);
    assert(seq![ck].skip(1) =~= Seq::<u8>::empty());
    lemma_feed_nil(s.0);
    assert(feed(mc, seq![ck]).1 =~= seq![s.1]);
    assert(feed(m, w).1 =~= feed(m, w.drop_last()).1 + seq![s.1]);
}

/// Checksum corruption, revision V1: replacing the checksum byte of a
/// serialized V1 frame with any other byte makes the final parse step
/// report a checksum mismatch that carries the corrupted byte as seen on
/// the wire and the correct value as calculated; no frame is produced, and
/// the parser is between frames again, ready for the next frame.
pub proof fn lemma_checksum_corruption_v1(m: ParserModel, f: FrameModel, x: u8)
    requires
        m.ready(),
        f.valid_v1(),
        x != spec_serialize_v1(f).last(),
    ensures
        feed(m, spec_serialize_v1(f).drop_last().push(x)).0.ready(),
        feed(m, spec_serialize_v1(f).drop_last().push(x)).1.len() == 6 + f.data.len(),
        forall|i: int|
            0 <= i < 5 + f.data.len() ==> feed(m, spec_serialize_v1(f).drop_last().push(x)).1[i]
                == StepOutput::NoFrame,
        feed(m, spec_serialize_v1(f).drop_last().push(x)).1[5 + f.data.len() as int]
            == StepOutput::Failed(MspPacketParseError::CrcMismatch {
            expected: x,
            calculated: xor_of(spec_v1_covered(f)),
        }),
{
    let w = spec_serialize_v1(f);
    let ck = xor_of(spec_v1_covered(f));
    let wx = w.drop_last().push(x);
    assert(w.last() == ck);
    assert(wx =~= w.drop_last() + seq![x]);
    lemma_feed_v1_to_crc(m, f);
    lemma_feed_append(m, w.drop_last(), seq![x]);
    let mc = feed(m, w.drop_last()).0;
    let s = spec_step(mc, x);
    assert(s.1 == StepOutput::Failed(MspPacketParseError::CrcMismatch {
        expected: x,
        calculated: ck,
    }));
    lemma_feed_unfold(mc, seq![x]);
    assert(seq![x].skip(1) =~= Seq::<u8>::empty());
    lemma_feed_nil(s.0);
    assert(feed(mc, seq![x]).1 =~= seq![s.1]);
    assert(feed(m, wx).1 =~= feed(m, w.drop_last()).1 + seq![s.1]);
}

/// Checksum sensitivity, revision V1: flipping any single bit of the
/// checksum byte of a serialized V1 frame makes the final parse step report
/// a checksum mismatch carrying the flipped byte and the correct value, and
/// no frame is produced.
pub proof fn lemma_checksum_sensitivity_v1(m: ParserModel, f: FrameModel, k: u8)
    requires
        m.ready(),
        f.valid_v1(),
        k < 8,
    ensures
        ({
            let x = spec_serialize_v1(f).last() ^ (1u8 << k);
            let r = feed(m, spec_serialize_v1(f).drop_last().push(x));
            &&& r.0.ready()
            &&& r.1.len() == 6 + f.data.len()
            &&& forall|i: int| 0 <= i < 5 + f.data.len() ==> r.1[i] == StepOutput::NoFrame
            &&& r.1[5 + f.data.len() as int] == StepOutput::Failed(
                MspPacketParseError::CrcMismatch {
                    expected: x,
                    calculated: xor_of(spec_v1_covered(f)),
                },
            )
        }),
{
    let c = spec_serialize_v1(f).last();
    let x = c ^ (1u8 << k);
    assert(x != c) by (bit_vector)
        requires
            x == c ^ (1u8 << k),
            k < 8,
    ;
    lemma_checksum_corruption_v1(m, f, x);
}

/// Resynchronization then a frame, revision V1: garbage bytes, none of them
/// the sync byte, followed by a valid serialized V1 frame are consumed
/// without a frame and without an error, and the frame's last byte still
/// completes exactly the original frame.
pub proof fn lemma_resync_then_frame_v1(m: ParserModel, noise: Seq<u8>, f: FrameModel)
    requires
        m.ready(),
        forall|i: int| 0 <= i < noise.len() ==> noise[i] != SYNC_BYTE,
        f.valid_v1(),
        f.cmd <= 255,
    ensures
        ({
            let r = feed(m, noise + spec_serialize_v1(f));
            &&& r.0.ready()
            &&& r.1.len() == noise.len() + 6 + f.data.len()
            &&& forall|i: int|
                0 <= i < noise.len() + 5 + f.data.len() ==> r.1[i] == StepOutput::NoFrame
            &&& r.1[noise.len() as int + 5 + f.data.len() as int] == StepOutput::Frame(f)
        }),
{
    lemma_resync(m, noise);
    lemma_feed_append(m, noise, spec_serialize_v1(f));
    lemma_round_trip_v1(feed(m, noise).0, f);
}

/// Feeding the payload bytes while in the V2 payload phase appends them to
/// the buffer and ends at the checksum phase, with no frame and no error on
/// the way.
proof fn lemma_feed_v2_payload(m: ParserModel, rest: Seq<u8>)
    requires
        m.state == MspParserState::DataV2,
        m.remaining == rest.len(),
        rest.len() >= 1,
    ensures
        feed(m, rest).0 == (ParserModel {
            state: MspParserState::Crc,
            remaining: 0,
            data: m.data + rest,
            ..m
        }),
        feed(m, rest).1.len() == rest.len(),
        forall|i: int| 0 <= i < rest.len() ==> feed(m, rest).1[i] == StepOutput::NoFrame,
    decreases rest.len(),
{
    let s = spec_step(m, rest[0]);
    lemma_feed_unfold(m, rest);
    if rest.len() == 1 {
        assert(rest.skip(1) =~= Seq::<u8>::empty());
        assert(m.data + rest =~= m.data.push(rest[0]));
        assert(feed(m, rest).0 =~= (ParserModel {
            state: MspParserState::Crc,
            remaining: 0,
            data: m.data + rest,
            ..m
        }));
    } else {
        lemma_feed_v2_payload(s.0, rest.skip(1));
        assert(m.data.push(rest[0]) + rest.skip(1) =~= m.data + rest);
        assert(feed(m, rest).0 =~= (ParserModel {
            state: MspParserState::Crc,
            remaining: 0,
            data: m.data + rest,
            ..m
        }));
    }
}

/// Partial feeding, revision V2: every byte of a V2 frame but the last
/// leaves the parser waiting at the checksum phase with the frame's fields
/// accumulated, and yields neither a frame nor an error on the way.
pub proof fn lemma_feed_v2_to_crc(m: ParserModel, f: FrameModel)
    requires
        m.ready(),
        f.valid_v2(),
    ensures
        feed(m, spec_serialize_v2(f).drop_last()).0 == (ParserModel {
            state: MspParserState::Crc,
            version: MspVersion::V2,
            direction: f.direction,
            cmd: f.cmd,
            remaining: 0,
            data: f.data,
            scratch: Seq::empty(),
            crc: m.crc,
            crc_header: spec_v2_covered(f).take(5),
            ..m
        }),
        feed(m, spec_serialize_v2(f).drop_last()).1.len() == 8 + f.data.len(),
        forall|i: int|
            0 <= i < 8 + f.data.len() ==> feed(m, spec_serialize_v2(f).drop_last()).1[i]
                == StepOutput::NoFrame,
{
    let db = f.direction.spec_byte();
    let clo = le16_lo(f.cmd);
    let chi = le16_hi(f.cmd);
    let len16 = f.data.len() as u16;
    let llo = le16_lo(len16);
    let lhi = le16_hi(len16);
    let hdr = seq![SYNC_BYTE, V2_TAG, db, 0u8, clo, chi, llo, lhi];
    let w = spec_serialize_v2(f);
    assert(w.drop_last() =~= hdr + f.data);
    lemma_feed_append(m, hdr, f.data);

    // Walk the eight header bytes.
    let m1 = spec_step(m, hdr[0]).0;
    let t1 = hdr.skip(1);
    assert(t1 =~= seq![V2_TAG, db, 0u8, clo, chi, llo, lhi]);
    lemma_feed_unfold(m, hdr);
    assert(m1 == (ParserModel { state: MspParserState::Header2, ..m }));
    let m2 = spec_step(m1, t1[0]).0;
    let t2 = t1.skip(1);
    assert(t2 =~= seq![db, 0u8, clo, chi, llo, lhi]);
    lemma_feed_unfold(m1, t1);
    assert(m2 == (ParserModel {
        state: MspParserState::Direction,
        version: MspVersion::V2,
        ..m
    }));
    assert(spec_direction_of_byte(db) == Some(f.direction));
    let m3 = spec_step(m2, t2[0]).0;
    let t3 = t2.skip(1);
    assert(t3 =~= seq![0u8, clo, chi, llo, lhi]);
    lemma_feed_unfold(m2, t2);
    assert(m3 == (ParserModel {
        state: MspParserState::FlagV2,
        version: MspVersion::V2,
        direction: f.direction,
        ..m
    }));
    let m4 = spec_step(m3, t3[0]).0;
    let t4 = t3.skip(1);
    assert(t4 =~= seq![clo, chi, llo, lhi]);
    lemma_feed_unfold(m3, t3);
    assert(m.crc_header.push(0u8) =~= seq![0u8]);
    assert(m4 == (ParserModel {
        state: MspParserState::CommandV2,
        version: MspVersion::V2,
        direction: f.direction,
        data: Seq::empty(),
        scratch: Seq::empty(),
        crc_header: seq![0u8],
        ..m
    }));
    let m5 = spec_step(m4, t4[0]).0;
    let t5 = t4.skip(1);
    assert(t5 =~= seq![chi, llo, lhi]);
    lemma_feed_unfold(m4, t4);
    assert(Seq::<u8>::empty().push(clo).len() == 1);
    assert(m5 == (ParserModel { scratch: seq![clo], ..m4 }));
    let m6 = spec_step(m5, t5[0]).0;
    let t6 = t5.skip(1);
    assert(t6 =~= seq![llo, lhi]);
    lemma_feed_unfold(m5, t5);
    let sc6 = seq![clo].push(chi);
    assert(sc6.len() == 2 && sc6[0] == clo && sc6[1] == chi);
    lemma_le16_roundtrip(f.cmd);
    assert(seq![0u8] + sc6 =~= seq![0u8, clo, chi]);
    assert(m6 == (ParserModel {
        state: MspParserState::DataLengthV2,
        cmd: f.cmd,
        scratch: Seq::empty(),
        crc_header: seq![0u8, clo, chi],
        ..m5
    }));
    let m7 = spec_step(m6, t6[0]).0;
    let t7 = t6.skip(1);
    assert(t7 =~= seq![lhi]);
    lemma_feed_unfold(m6, t6);
    assert(m7 == (ParserModel { scratch: seq![llo], ..m6 }));
    let m8 = spec_step(m7, t7[0]).0;
    let t8 = t7.skip(1);
    assert(t8 =~= Seq::<u8>::empty());
    lemma_feed_unfold(m7, t7);
    lemma_feed_nil(m8);
    let sc8 = seq![llo].push(lhi);
    assert(sc8.len() == 2 && sc8[0] == llo && sc8[1] == lhi);
    lemma_le16_roundtrip(len16);
    assert(crate::packet::le16(llo, lhi) as usize == f.data.len());
    assert(seq![0u8, clo, chi] + sc8 =~= seq![0u8, clo, chi, llo, lhi]);
    assert(feed(m, hdr).0 == m8);
    assert(feed(m, hdr).1 =~= seq![
        StepOutput::NoFrame,
        StepOutput::NoFrame,
        StepOutput::NoFrame,
        StepOutput::NoFrame,
        StepOutput::NoFrame,
        StepOutput::NoFrame,
        StepOutput::NoFrame,
        StepOutput::NoFrame,
    ]);
    assert(spec_v2_covered(f).take(5) =~= seq![0u8, clo, chi, llo, lhi]);

    if f.data.len() == 0 {
        assert(m8 == (ParserModel {
            state: MspParserState::Crc,
            version: MspVersion::V2,
            direction: f.direction,
            cmd: f.cmd,
            remaining: 0,
            data: Seq::empty(),
            scratch: Seq::empty(),
            crc: m.crc,
            crc_header: seq![0u8, clo, chi, llo, lhi],
            ..m
        }));
        assert(f.data =~= Seq::<u8>::empty());
        assert(feed(m, hdr + f.data).0 =~= (ParserModel {
            state: MspParserState::Crc,
            version: MspVersion::V2,
            direction: f.direction,
            cmd: f.cmd,
            remaining: 0,
            data: f.data,
            scratch: Seq::empty(),
            crc: m.crc,
            crc_header: spec_v2_covered(f).take(5),
            ..m
        }));
        assert(feed(m, hdr + f.data).1 =~= feed(m, hdr).1);
    } else {
        assert(m8 == (ParserModel {
            state: MspParserState::DataV2,
            version: MspVersion::V2,
            direction: f.direction,
            cmd: f.cmd,
            remaining: f.data.len() as usize,
            data: Seq::empty(),
            scratch: Seq::empty(),
            crc: m.crc,
            crc_header: seq![0u8, clo, chi, llo, lhi],
            ..m
        }));
        lemma_feed_v2_payload(m8, f.data);
        assert(Seq::<u8>::empty() + f.data =~= f.data);
        assert(feed(m, hdr + f.data).0 =~= (ParserModel {
            state: MspParserState::Crc,
            version: MspVersion::V2,
            direction: f.direction,
            cmd: f.cmd,
            remaining: 0,
            data: f.data,
            scratch: Seq::empty(),
            crc: m.crc,
            crc_header: spec_v2_covered(f).take(5),
            ..m
        }));
    }
}

/// Round trip, revision V2: serializing any frame whose payload fits the V2
/// length field, then feeding the bytes one at a time into a parser that is
/// between frames, yields no frame and no error for every byte but the
/// last, and the last byte completes exactly the original frame, the full
/// 16-bit command included. The parser is between frames again afterwards.
pub proof fn lemma_round_trip_v2(m: ParserModel, f: FrameModel)
    requires
        m.ready(),
        f.valid_v2(),
    ensures
        feed(m, spec_serialize_v2(f)).0.ready(),
        feed(m, spec_serialize_v2(f)).1.len() == 9 + f.data.len(),
        forall|i: int|
            0 <= i < 8 + f.data.len() ==> feed(m, spec_serialize_v2(f)).1[i]
                == StepOutput::NoFrame,
        feed(m, spec_serialize_v2(f)).1[8 + f.data.len() as int] == StepOutput::Frame(f),
{
    let w = spec_serialize_v2(f);
    let ck = crc8_dvb_s2_of(spec_v2_covered(f));
    assert(w.len() == 9 + f.data.len());
    assert(w.last() == ck);
    assert(w =~= w.drop_last() + seq![ck]);
    lemma_feed_v2_to_crc(m, f);
    lemma_feed_append(m, w.drop_last(), seq![ck]);
    let mc = feed(m, w.drop_last()).0;
    assert(mc.crc_header + mc.data =~= spec_v2_covered(f));
    let s = spec_step(mc, ck);
    assert(s.1 == StepOutput::Frame(FrameModel { cmd: mc.cmd, direction: mc.direction, data: mc.data }));
    assert(FrameModel { cmd: mc.cmd, direction: mc.direction, data: mc.data } =~= f);
    lemma_feed_unfold(mc, seq![ck]);
    assert(seq![ck].skip(1) =~= Seq::<u8>::empty());
    lemma_feed_nil(s.0);
    assert(feed(mc, seq![ck]).1 =~= seq![s.1]);
    assert(feed(m, w).1 =~= feed(m, w.drop_last()).1 + seq![s.1]);
}

/// Checksum corruption, revision V2: replacing the checksum byte of a
/// serialized V2 frame with any other byte makes the final parse step
/// report a checksum mismatch that carries the corrupted byte as seen on
/// the wire and the correct CRC-8 as calculated; no frame is produced, and
/// the parser is between frames again, ready for the next frame.
pub proof fn lemma_checksum_corruption_v2(m: ParserModel, f: FrameModel, x: u8)
    requires
        m.ready(),
        f.valid_v2(),
        x != spec_serialize_v2(f).last(),
    ensures
        feed(m, spec_serialize_v2(f).drop_last().push(x)).0.ready(),
        feed(m, spec_serialize_v2(f).drop_last().push(x)).1.len() == 9 + f.data.len(),
        forall|i: int|
            0 <= i < 8 + f.data.len() ==> feed(m, spec_serialize_v2(f).drop_last().push(x)).1[i]
                == StepOutput::NoFrame,
        feed(m, spec_serialize_v2(f).drop_last().push(x)).1[8 + f.data.len() as int]
            == StepOutput::Failed(MspPacketParseError::CrcMismatch {
            expected: x,
            calculated: crc8_dvb_s2_of(spec_v2_covered(f)),
        }),
{
    let w = spec_serialize_v2(f);
    let ck = crc8_dvb_s2_of(spec_v2_covered(f));
    let wx = w.drop_last().push(x);
    assert(w.last() == ck);
    assert(wx =~= w.drop_last() + seq![x]);
    lemma_feed_v2_to_crc(m, f);
    lemma_feed_append(m, w.drop_last(), seq![x]);
    let mc = feed(m, w.drop_last()).0;
    assert(mc.crc_header + mc.data =~= spec_v2_covered(f));
    let s = spec_step(mc, x);
    assert(s.1 == StepOutput::Failed(MspPacketParseError::CrcMismatch {
        expected: x,
        calculated: ck,
    }));
    lemma_feed_unfold(mc, seq![x]);
    assert(seq![x].skip(1) =~= Seq::<u8>::empty());
    lemma_feed_nil(s.0);
    assert(feed(mc, seq![x]).1 =~= seq![s.1]);
    assert(feed(m, wx).1 =~= feed(m, w.drop_last()).1 + seq![s.1]);
}

/// Checksum sensitivity, revision V2: flipping any single bit of the
/// checksum byte of a serialized V2 frame makes the final parse step report
/// a checksum mismatch carrying the flipped byte and the correct CRC-8, and
/// no frame is produced.
pub proof fn lemma_checksum_sensitivity_v2(m: ParserModel, f: FrameModel, k: u8)
    requires
        m.ready(),
        f.valid_v2(),
        k < 8,
    ensures
        ({
            let x = spec_serialize_v2(f).last() ^ (1u8 << k);
            let r = feed(m, spec_serialize_v2(f).drop_last().push(x));
            &&& r.0.ready()
            &&& r.1.len() == 9 + f.data.len()
            &&& forall|i: int| 0 <= i < 8 + f.data.len() ==> r.1[i] == StepOutput::NoFrame
            &&& r.1[8 + f.data.len() as int] == StepOutput::Failed(
                MspPacketParseError::CrcMismatch {
                    expected: x,
                    calculated: crc8_dvb_s2_of(spec_v2_covered(f)),
                },
            )
        }),
{
    let c = spec_serialize_v2(f).last();
    let x = c ^ (1u8 << k);
    assert(x != c) by (bit_vector)
        requires
            x == c ^ (1u8 << k),
            k < 8,
    ;
    lemma_checksum_corruption_v2(m, f, x);
}

/// Resynchronization then a frame, revision V2: garbage bytes, none of them
/// the sync byte, followed by a valid serialized V2 frame are consumed
/// without a frame and without an error, and the frame's last byte still
/// completes exactly the original frame.
pub proof fn lemma_resync_then_frame_v2(m: ParserModel, noise: Seq<u8>, f: FrameModel)
    requires
        m.ready(),
        forall|i: int| 0 <= i < noise.len() ==> noise[i] != SYNC_BYTE,
        f.valid_v2(),
    ensures
        ({
            let r = feed(m, noise + spec_serialize_v2(f));
            &&& r.0.ready()
            &&& r.1.len() == noise.len() + 9 + f.data.len()
            &&& forall|i: int|
                0 <= i < noise.len() + 8 + f.data.len() ==> r.1[i] == StepOutput::NoFrame
            &&& r.1[noise.len() as int + 8 + f.data.len() as int] == StepOutput::Frame(f)
        }),
{
    lemma_resync(m, noise);
    lemma_feed_append(m, noise, spec_serialize_v2(f));
    lemma_round_trip_v2(feed(m, noise).0, f);
}

} // verus!
