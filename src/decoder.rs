use crate::error::VslError;
use crate::frame::Frame;
use vstd::prelude::*;

verus! {

/// Status bit: the decoder could not decode its input.
pub const DEC_ERROR: u32 = 0x1;

/// Status bit: the decoder learned the stream's parameters.
pub const DEC_INIT_INFO: u32 = 0x2;

/// Status bit: the decoder produced a frame.
pub const DEC_FRAME_DECODED: u32 = 0x4;

/// The coded formats that a decoder takes.
#[derive(Debug, Clone, Copy, PartialEq, Eq, Structural)]
pub enum DecoderInputCodec {
    H264,
    HEVC,
}

impl DecoderInputCodec {
    /// The native code of the format.
    pub fn code(&self) -> (r: u32)
        ensures
            r == match *self {
                DecoderInputCodec::H264 => 0u32,
                DecoderInputCodec::HEVC => 1u32,
            },
    {
        match self {
            DecoderInputCodec::H264 => 0,
            DecoderInputCodec::HEVC => 1,
        }
    }
}

/// What a successful decode call reports.
#[derive(Debug, Clone, Copy, PartialEq, Eq, Structural)]
pub enum DecodeReturnCode {
    /// Input was consumed; nothing else happened.
    Success,
    /// The decoder learned the stream's parameters.
    Initialized,
    /// A frame was decoded.
    FrameDecoded,
}

/// Every fact that a decoder status word reports.
#[derive(Debug, Clone, Copy, PartialEq, Eq, Structural)]
pub struct DecodeStatus {
    pub error: bool,
    pub init_info: bool,
    pub frame_decoded: bool,
}

/// The facts of a status word.
pub open spec fn status_of(bits: u32) -> DecodeStatus {
    DecodeStatus {
        error: bits & DEC_ERROR != 0,
        init_info: bits & DEC_INIT_INFO != 0,
        frame_decoded: bits & DEC_FRAME_DECODED != 0,
    }
}

/// What a status word comes to: the error bit wins over every other;
/// otherwise every fact it reports, initialisation and a decoded frame
/// alike, even where both hold.
pub open spec fn decode_result_of(bits: u32) -> Result<DecodeStatus, VslError> {
    if status_of(bits).error {
        Err(VslError::Decode)
    } else {
        Ok(status_of(bits))
    }
}

/// The facts of a status, one code each, in the order initialisation then
/// decoded frame; `Success` where neither holds.
pub open spec fn codes_of(s: DecodeStatus) -> Seq<DecodeReturnCode> {
    if !s.init_info && !s.frame_decoded {
        seq![DecodeReturnCode::Success]
    } else {
        (if s.init_info {
            seq![DecodeReturnCode::Initialized]
        } else {
            Seq::empty()
        }) + (if s.frame_decoded {
            seq![DecodeReturnCode::FrameDecoded]
        } else {
            Seq::empty()
        })
    }
}

impl DecodeStatus {
    /// Reads every fact of a status word.
    pub fn from_bits(bits: u32) -> (r: DecodeStatus)
        ensures
            r == status_of(bits),
    {
        DecodeStatus {
            error: bits & DEC_ERROR != 0,
            init_info: bits & DEC_INIT_INFO != 0,
            frame_decoded: bits & DEC_FRAME_DECODED != 0,
        }
    }

    /// The facts other than the error, one code each.
    pub fn codes(&self) -> (r: Vec<DecodeReturnCode>)
        ensures
            r@ == codes_of(*self),
    {
        let mut v: Vec<DecodeReturnCode> = Vec::new();
        if !self.init_info && !self.frame_decoded {
            v.push(DecodeReturnCode::Success);
            assert(v@ =~= codes_of(*self));
            return v;
        }
        if self.init_info {
            v.push(DecodeReturnCode::Initialized);
        }
        if self.frame_decoded {
            v.push(DecodeReturnCode::FrameDecoded);
        }
        assert(v@ =~= codes_of(*self));
        v
    }
}

/// Interprets a status word: `Decode` where the error bit is set, else
/// every fact it reports.
pub fn decode_result(bits: u32) -> (r: Result<DecodeStatus, VslError>)
    ensures
        r == decode_result_of(bits),
{
    let s = DecodeStatus::from_bits(bits);
    if s.error {
        Err(VslError::Decode)
    } else {
        Ok(s)
    }
}

/// A status word with the error bit set is an error, whatever else it
/// reports, a decoded frame included; without it, initialisation and a
/// decoded frame are both reported where both bits are set.
pub proof fn lemma_error_takes_precedence(bits: u32)
    ensures
        bits & DEC_ERROR != 0 ==> decode_result_of(bits) == Err::<DecodeStatus, VslError>(
            VslError::Decode,
        ),
        decode_result_of(bits | DEC_ERROR | DEC_FRAME_DECODED) == Err::<DecodeStatus, VslError>(
            VslError::Decode,
        ),
        bits & DEC_ERROR == 0 && bits & DEC_INIT_INFO != 0 && bits & DEC_FRAME_DECODED != 0
            ==> (decode_result_of(bits) matches Ok(st) && codes_of(st) == seq![
            DecodeReturnCode::Initialized,
            DecodeReturnCode::FrameDecoded,
        ]),
{
    assert((bits | 0x1u32 | 0x4u32) & 0x1u32 != 0) by (bit_vector);
    assert(seq![DecodeReturnCode::Initialized] + seq![DecodeReturnCode::FrameDecoded] =~= seq![
        DecodeReturnCode::Initialized,
        DecodeReturnCode::FrameDecoded,
    ]);
}

/// A hardware decoder of one coded format.
pub struct Decoder {
    codec: DecoderInputCodec,
    fps: i32,
}

impl Decoder {
    /// A decoder of `codec` streams at `fps` frames per second.
    pub fn create(codec: DecoderInputCodec, fps: i32) -> (r: Decoder)
        ensures
            r.spec_codec() == codec,
            r.spec_fps() == fps,
    {
        Decoder { codec, fps }
    }

    pub closed spec fn spec_codec(&self) -> DecoderInputCodec {
        self.codec
    }

    pub closed spec fn spec_fps(&self) -> i32 {
        self.fps
    }

    /// The coded format.
    pub fn codec(&self) -> (r: DecoderInputCodec)
        ensures
            r == self.spec_codec(),
    {
        self.codec
    }

    /// The frame rate.
    pub fn fps(&self) -> (r: i32)
        ensures
            r == self.spec_fps(),
    {
        self.fps
    }

    /// The result of one decode call, from its status word, the number of
    /// input bytes it consumed and the frame it produced, if any: every fact
    /// the word reports. The error bit fails the call even where a frame
    /// came out.
    pub fn decode_frame(&self, bits: u32, bytes_used: usize, frame: Option<Frame>) -> (r: Result<
        (DecodeStatus, usize, Option<Frame>),
        VslError,
    >)
        ensures
            decode_result_of(bits) matches Err(e) ==> r == Err::<
                (DecodeStatus, usize, Option<Frame>),
                VslError,
            >(e),
            decode_result_of(bits) matches Ok(st) ==> (r matches Ok(t) && t.0 == st && t.1
                == bytes_used && t.2 == frame),
    {
        match decode_result(bits) {
            Err(e) => Err(e),
            Ok(st) => Ok((st, bytes_used, frame)),
        }
    }
}

} // verus!
