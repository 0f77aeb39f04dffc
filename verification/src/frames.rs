use crate::commands::Command;
use crate::constants::FMT_DATA_SIZE;
use crate::constants::SOF;
use vstd::prelude::*;
use vstd::seq_lib::commutative_foldl;
use vstd::seq_lib::lemma_fold_left_permutation;
use vstd::slice::slice_subrange;
use vstd::slice::slice_to_vec;

verus! {

/// Decode or encode failure of the monitor-frame codec. Malformed input is
/// always surfaced as one of these; the codec never panics and never
/// substitutes a default frame for a bad parse.
#[derive(Debug, Copy, Clone, Eq, PartialEq, Structural)]
pub enum FrameError {
    /// The first byte of an inbound envelope is not the start-of-frame
    /// marker, or the buffer is too short to carry any header at all.
    FramingError,
    /// The trailing frame-check byte does not equal the XOR fold of the
    /// header and payload bytes.
    ChecksumMismatch,
    /// Fewer bytes are available than the declared length demands.
    TruncatedFrame,
    /// The extended frame variant has no defined serialization.
    UnsupportedVariant,
    /// The declared payload length exceeds the 250-byte maximum.
    InvalidLength,
}

/// XOR fold of a byte sequence, accumulator starting at zero: the frame
/// check sequence of the monitor frame envelope.
pub open spec fn xor_fold(s: Seq<u8>) -> u8
    decreases s.len(),
{
    if s.len() == 0 {
        0u8
    } else {
        xor_fold(s.drop_last()) ^ s.last()
    }
}

/// `xor_fold` is the left fold of `^` over the sequence.
proof fn lemma_xor_fold_is_fold_left(s: Seq<u8>)
    ensures
        xor_fold(s) == s.fold_left(0u8, |acc: u8, x: u8| acc ^ x),
    decreases s.len(),
{
    if s.len() > 0 {
        lemma_xor_fold_is_fold_left(s.drop_last());
    }
}

/// The frame check sequence ignores byte order: two buffers that hold the
/// same bytes as multisets share one XOR fold.
pub proof fn lemma_fcs_permutation(s1: Seq<u8>, s2: Seq<u8>)
    requires
        s1.to_multiset() == s2.to_multiset(),
    ensures
        xor_fold(s1) == xor_fold(s2),
{
    let f = |acc: u8, x: u8| acc ^ x;
    assert(commutative_foldl(f)) by {
        assert forall|x: u8, y: u8, v: u8| #[trigger] f(f(v, x), y) == f(f(v, y), x) by {
            assert((v ^ x) ^ y == (v ^ y) ^ x) by (bit_vector);
        }
    }
    lemma_xor_fold_is_fold_left(s1);
    lemma_xor_fold_is_fold_left(s2);
    lemma_fold_left_permutation(s1, s2, f, 0u8);
}

/// Replacing the byte at `i` by `b` folds the old byte out and the new one
/// in: the fold of the updated buffer is `xor_fold(s) ^ s[i] ^ b`.
proof fn lemma_xor_fold_update(s: Seq<u8>, i: int, b: u8)
    requires
        0 <= i < s.len(),
    ensures
        xor_fold(s.update(i, b)) == xor_fold(s) ^ s[i] ^ b,
    decreases s.len(),
{
    let t = s.update(i, b);
    if i == s.len() - 1 {
        assert(t.drop_last() =~= s.drop_last());
        let x = xor_fold(s.drop_last());
        let a = s.last();
        assert(x ^ b == (x ^ a) ^ a ^ b) by (bit_vector);
    } else {
        assert(t.drop_last() =~= s.drop_last().update(i, b));
        lemma_xor_fold_update(s.drop_last(), i, b);
        let x = xor_fold(s.drop_last());
        let a = s.drop_last()[i];
        let l = s.last();
        assert((x ^ a ^ b) ^ l == (x ^ l) ^ a ^ b) by (bit_vector);
    }
}

/// Flipping any single byte always changes the frame check sequence: XOR
/// detects every one-byte corruption.
pub proof fn lemma_fcs_byte_flip(s: Seq<u8>, i: int, b: u8)
    requires
        0 <= i < s.len(),
        b != s[i],
    ensures
        xor_fold(s.update(i, b)) != xor_fold(s),
{
    lemma_xor_fold_update(s, i, b);
    let x = xor_fold(s);
    let a = s[i];
    let c = b;
    assert(a != c ==> x ^ a ^ c != x) by (bit_vector);
}

/// Frame check sequence over a byte buffer: the XOR of every byte,
/// starting from zero.
pub fn calc_fcs(data: &[u8]) -> (r: u8)
    ensures
        r == xor_fold(data@),
{
    let mut acc: u8 = 0;
    let mut i: usize = 0;
    while i < data.len()
        invariant
            i <= data@.len(),
            acc == xor_fold(data@.take(i as int)),
        decreases data@.len() - i,
    {
        proof {
            assert(data@.take(i + 1).drop_last() =~= data@.take(i as int));
            assert(data@.take(i + 1).last() == data@[i as int]);
        }
        acc = acc ^ data[i];
        i = i + 1;
    }
    proof {
        assert(data@.take(data@.len() as int) =~= data@);
    }
    acc
}

/// Abstract content of a standard frame: the declared length, the two
/// command bytes, and the payload. Every codec contract is stated over
/// this model.
#[verifier::ext_equal]
pub struct FrameModel {
    pub len: u8,
    pub cmd0: u8,
    pub cmd1: u8,
    pub payload: Seq<u8>,
}

impl FrameModel {
    /// A model is well formed when the declared length equals the payload
    /// length and stays within the 250-byte maximum.
    pub open spec fn wf(self) -> bool {
        &&& self.payload.len() == self.len
        &&& self.len <= FMT_DATA_SIZE
    }
}

/// Wire bytes of a standard frame: the 3-byte header followed by the
/// payload.
pub open spec fn frame_bytes(m: FrameModel) -> Seq<u8> {
    seq![m.len, m.cmd0, m.cmd1] + m.payload
}

/// Wire bytes of a complete monitor envelope: start marker, standard
/// frame, then the XOR frame check sequence over the frame bytes alone.
pub open spec fn envelope_bytes(m: FrameModel) -> Seq<u8> {
    seq![SOF] + frame_bytes(m) + seq![xor_fold(frame_bytes(m))]
}

/// Decode a standard frame region: 3 header bytes, then exactly the
/// declared number of payload bytes. Bytes past the payload are ignored.
pub open spec fn decode_frame(raw: Seq<u8>) -> Result<FrameModel, FrameError> {
    if raw.len() < 3 {
        Err(FrameError::TruncatedFrame)
    } else if raw[0] > FMT_DATA_SIZE {
        Err(FrameError::InvalidLength)
    } else if raw.len() < 3 + raw[0] {
        Err(FrameError::TruncatedFrame)
    } else {
        Ok(
            FrameModel {
                len: raw[0],
                cmd0: raw[1],
                cmd1: raw[2],
                payload: raw.subrange(3, 3 + raw[0] as int),
            },
        )
    }
}

/// Decode a complete envelope capture: check the start marker, the
/// declared length, the available byte count, and the trailing frame
/// check sequence, then decode the standard frame region.
pub open spec fn decode_envelope(raw: Seq<u8>) -> Result<FrameModel, FrameError> {
    if raw.len() < 2 || raw[0] != SOF {
        Err(FrameError::FramingError)
    } else if raw[1] > FMT_DATA_SIZE {
        Err(FrameError::InvalidLength)
    } else if raw.len() < 5 + raw[1] {
        Err(FrameError::TruncatedFrame)
    } else if raw[4 + raw[1]] != xor_fold(raw.subrange(1, 4 + raw[1] as int)) {
        Err(FrameError::ChecksumMismatch)
    } else {
        decode_frame(raw.subrange(1, 4 + raw[1] as int))
    }
}

/// 3-byte header of a standard frame: the payload length and the command
/// word.
#[derive(Debug, Clone)]
pub struct Header {
    pub len: u8,
    pub command: Command,
}

/// Structural placeholder for the extended header: a version field in the
/// upper five bits and an id in the lower three. No frame format is
/// defined over it here.
#[derive(Debug, Clone)]
pub struct ExtendedHeader {
    pub version: u8,
    pub id: u8,
}

/// A standard monitor frame: a 3-byte header and up to 250 payload bytes.
/// Well formed when the header length equals the payload length.
#[derive(Debug, Clone)]
pub struct StandardFrame {
    pub header: Header,
    pub data: Vec<u8>,
}

/// Structural placeholder for the extended frame variant: it carries no
/// data and has no defined serialization.
#[derive(Debug, Clone)]
pub struct ExtendedFrame {}

/// A monitor frame is either a standard frame or the extended placeholder.
#[derive(Debug)]
pub enum MonitorFrame {
    StandardFrame(StandardFrame),
    ExtendedFrame(ExtendedFrame),
}

/// Frames that can emit their wire bytes. Serialization of a variant with
/// no defined encoding reports `UnsupportedVariant` instead of emitting an
/// empty buffer.
pub trait FrameStructure {
    fn serialize(&self) -> (r: Result<Vec<u8>, FrameError>);
}

impl View for StandardFrame {
    type V = FrameModel;

    open spec fn view(&self) -> FrameModel {
        FrameModel {
            len: self.header.len,
            cmd0: self.header.command.cmd0,
            cmd1: self.header.command.cmd1,
            payload: self.data@,
        }
    }
}

impl Header {
    /// Read a header from its three wire bytes; rejected only when the
    /// declared length exceeds the 250-byte payload maximum.
    pub fn from_bytes(data: &[u8; 3]) -> (r: Option<Self>)
        ensures
            match r {
                Some(h) => data@[0] <= FMT_DATA_SIZE && h.len == data@[0] && h.command.cmd0 == data@[1]
                    && h.command.cmd1 == data@[2],
                None => data@[0] > FMT_DATA_SIZE,
            },
    {
        if data[0] > FMT_DATA_SIZE {
            return None;
        }
        let len: u8 = data[0];
        let pair: [u8; 2] = [data[1], data[2]];
        let command = Command::from_bytes(&pair);
        Some(Self { len, command })
    }

    /// The three wire bytes of the header: length, then the command word
    /// in transmission order.
    pub fn serialize(&self) -> (r: Vec<u8>)
        ensures
            r@ == seq![self.len, self.command.cmd0, self.command.cmd1],
    {
        let mut res: Vec<u8> = Vec::new();
        res.push(self.len);
        res.push(self.command.cmd0);
        res.push(self.command.cmd1);
        proof {
            assert(res@ =~= seq![self.len, self.command.cmd0, self.command.cmd1]);
        }
        res
    }
}

impl FrameStructure for StandardFrame {
    /// Header bytes followed by the payload bytes; never fails.
    fn serialize(&self) -> (r: Result<Vec<u8>, FrameError>)
        ensures
            r matches Ok(v) && v@ == frame_bytes(self@),
    {
        let mut res: Vec<u8> = self.header.serialize();
        let mut i: usize = 0;
        while i < self.data.len()
            invariant
                i <= self.data@.len(),
                res@ == seq![
                    self.header.len,
                    self.header.command.cmd0,
                    self.header.command.cmd1,
                ] + self.data@.take(i as int),
            decreases self.data@.len() - i,
        {
            res.push(self.data[i]);
            proof {
                assert(self.data@.take(i + 1) =~= self.data@.take(i as int).push(
                    self.data@[i as int],
                ));
            }
            i = i + 1;
        }
        proof {
            assert(self.data@.take(self.data@.len() as int) =~= self.data@);
        }
        Ok(res)
    }
}

impl StandardFrame {
    /// Decode a standard frame region: the first three bytes form the
    /// header, then exactly the declared number of payload bytes follow.
    /// A buffer shorter than that is a truncated frame.
    pub fn from_bytes(data: &[u8]) -> (r: Result<Self, FrameError>)
        ensures
            match r {
                Ok(f) => decode_frame(data@) == Ok::<FrameModel, FrameError>(f@),
                Err(e) => decode_frame(data@) == Err::<FrameModel, FrameError>(e),
            },
    {
        if data.len() < 3 {
            return Err(FrameError::TruncatedFrame);
        }
        let head: [u8; 3] = [data[0], data[1], data[2]];
        let header = match Header::from_bytes(&head) {
            Some(h) => h,
            None => {
                return Err(FrameError::InvalidLength);
            },
        };
        let n: usize = header.len as usize;
        if data.len() < 3 + n {
            return Err(FrameError::TruncatedFrame);
        }
        let payload: Vec<u8> = slice_to_vec(slice_subrange(data, 3, 3 + n));
        let frame = Self { header, data: payload };
        proof {
            assert(decode_frame(data@) is Ok);
            assert(frame@ =~= decode_frame(data@)->Ok_0);
        }
        Ok(frame)
    }

    /// Decode as `from_bytes`; only the standard frame format is read.
    pub fn deserialize(&self, data: &[u8]) -> (r: Result<Self, FrameError>)
        ensures
            match r {
                Ok(f) => decode_frame(data@) == Ok::<FrameModel, FrameError>(f@),
                Err(e) => decode_frame(data@) == Err::<FrameModel, FrameError>(e),
            },
    {
        Self::from_bytes(data)
    }
}

impl FrameStructure for MonitorFrame {
    /// Start marker, standard frame bytes, then the XOR frame check
    /// sequence. The extended variant has no defined encoding and is
    /// reported as `UnsupportedVariant`.
    fn serialize(&self) -> (r: Result<Vec<u8>, FrameError>)
        ensures
            match self {
                MonitorFrame::StandardFrame(f) => r matches Ok(v) && v@ == envelope_bytes(f@),
                MonitorFrame::ExtendedFrame(_) => r == Err::<Vec<u8>, FrameError>(
                    FrameError::UnsupportedVariant,
                ),
            },
    {
        match self {
            MonitorFrame::StandardFrame(frame) => {
                let inner: Vec<u8> = match frame.serialize() {
                    Ok(v) => v,
                    Err(e) => {
                        return Err(e);
                    },
                };
                let fcs: u8 = calc_fcs(inner.as_slice());
                let mut res: Vec<u8> = Vec::new();
                res.push(SOF);
                let mut i: usize = 0;
                while i < inner.len()
                    invariant
                        i <= inner@.len(),
                        res@ == seq![SOF] + inner@.take(i as int),
                    decreases inner@.len() - i,
                {
                    res.push(inner[i]);
                    proof {
                        assert(inner@.take(i + 1) =~= inner@.take(i as int).push(
                            inner@[i as int],
                        ));
                    }
                    i = i + 1;
                }
                res.push(fcs);
                proof {
                    assert(inner@.take(inner@.len() as int) =~= inner@);
                    assert(res@ =~= envelope_bytes(frame@));
                }
                Ok(res)
            },
            MonitorFrame::ExtendedFrame(_) => Err(FrameError::UnsupportedVariant),
        }
    }
}

impl MonitorFrame {
    /// Decode a complete envelope capture: the start marker, the declared
    /// length, the byte count, and the trailing frame check sequence are
    /// all verified before the standard frame is read out.
    pub fn from_bytes(data: &[u8]) -> (r: Result<MonitorFrame, FrameError>)
        ensures
            match r {
                Ok(mf) => mf matches MonitorFrame::StandardFrame(f) && decode_envelope(data@)
                    == Ok::<FrameModel, FrameError>(f@),
                Err(e) => decode_envelope(data@) == Err::<FrameModel, FrameError>(e),
            },
    {
        if data.len() < 2 {
            return Err(FrameError::FramingError);
        }
        if data[0] != SOF {
            return Err(FrameError::FramingError);
        }
        let n: u8 = data[1];
        if n > FMT_DATA_SIZE {
            return Err(FrameError::InvalidLength);
        }
        let need: usize = 5 + n as usize;
        if data.len() < need {
            return Err(FrameError::TruncatedFrame);
        }
        let end: usize = 4 + n as usize;
        let inner: &[u8] = slice_subrange(data, 1, end);
        let fcs: u8 = calc_fcs(inner);
        if data[end] != fcs {
            return Err(FrameError::ChecksumMismatch);
        }
        match StandardFrame::from_bytes(inner) {
            Ok(f) => Ok(MonitorFrame::StandardFrame(f)),
            Err(e) => Err(e),
        }
    }

    /// Decode as `from_bytes`: the argument is the complete wire capture,
    /// start marker and frame check sequence included.
    pub fn deserialize(&self, data: &[u8]) -> (r: Result<MonitorFrame, FrameError>)
        ensures
            match r {
                Ok(mf) => mf matches MonitorFrame::StandardFrame(f) && decode_envelope(data@)
                    == Ok::<FrameModel, FrameError>(f@),
                Err(e) => decode_envelope(data@) == Err::<FrameModel, FrameError>(e),
            },
    {
        Self::from_bytes(data)
    }

    /// The embedded command word of a standard frame; the extended
    /// placeholder has none and yields the all-zero sentinel word.
    pub fn command(&self) -> (r: Command)
        ensures
            match self {
                MonitorFrame::StandardFrame(f) => r == f.header.command,
                MonitorFrame::ExtendedFrame(_) => r == (Command { cmd0: 0, cmd1: 0 }),
            },
    {
        match self {
            MonitorFrame::StandardFrame(frame) => frame.header.command,
            MonitorFrame::ExtendedFrame(_) => Command { cmd0: 0x00, cmd1: 0x00 },
        }
    }
}

/// Round trip: decoding the envelope of any well-formed frame yields that
/// frame back, exactly.
pub proof fn lemma_envelope_round_trip(m: FrameModel)
    requires
        m.wf(),
    ensures
        decode_envelope(envelope_bytes(m)) == Ok::<FrameModel, FrameError>(m),
{
    let inner = frame_bytes(m);
    let e = envelope_bytes(m);
    assert(inner.len() == 3 + m.len);
    assert(e.len() == 5 + m.len);
    assert(e[0] == SOF);
    assert(e[1] == m.len);
    assert(e.subrange(1, 4 + m.len as int) =~= inner);
    assert(e[4 + m.len] == xor_fold(inner));
    assert(inner.subrange(3, 3 + m.len as int) =~= m.payload);
    assert(decode_frame(inner) is Ok);
    assert(decode_frame(inner)->Ok_0 =~= m);
}

/// A corrupted trailing byte never decodes: if the frame check byte of a
/// well-formed envelope is replaced by anything other than the true fold,
/// decoding reports a checksum mismatch.
pub proof fn lemma_corrupt_fcs_detected(m: FrameModel, bad: u8)
    requires
        m.wf(),
        bad != xor_fold(frame_bytes(m)),
    ensures
        decode_envelope(envelope_bytes(m).update(envelope_bytes(m).len() - 1, bad)) == Err::<
            FrameModel,
            FrameError,
        >(FrameError::ChecksumMismatch),
{
    let inner = frame_bytes(m);
    let e = envelope_bytes(m);
    let t = e.update(e.len() - 1, bad);
    assert(e.len() == 5 + m.len);
    assert(t[0] == SOF);
    assert(t[1] == m.len);
    assert(t.subrange(1, 4 + m.len as int) =~= inner);
    assert(t[4 + m.len] == bad);
}

/// A declared length that exceeds the bytes available never decodes: the
/// envelope is reported truncated, and no byte past the buffer is read.
pub proof fn lemma_truncated_detected(raw: Seq<u8>)
    requires
        raw.len() >= 2,
        raw[0] == SOF,
        raw[1] <= FMT_DATA_SIZE,
        raw.len() < 5 + raw[1],
    ensures
        decode_envelope(raw) == Err::<FrameModel, FrameError>(FrameError::TruncatedFrame),
{
}

} // verus!
