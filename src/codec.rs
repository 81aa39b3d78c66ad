//! Decode stage: frame geometry, codec result codes and gain quantization.
use vstd::prelude::*;

verus! {

/// Nominal duration of one compressed frame, in milliseconds.
pub const FRAME_DURATION_MS: u32 = 20;

/// Codec result code for success.
pub const OPUS_OK: i32 = 0;

/// Codec error: one of the codec's negative result codes with its reason text.
#[derive(Debug, Clone)]
pub struct OpusError {
    pub error: i32,
    pub message: String,
}

/// The classes of codec result codes.
#[derive(Debug, Clone, Copy, PartialEq, Eq, Structural)]
pub enum CodecErrorKind {
    Success,
    BadArgument,
    BufferTooSmall,
    InternalError,
    InvalidPacket,
    Unimplemented,
    InvalidState,
    AllocationFailed,
    Unknown,
}

/// The class of a codec result code.
pub open spec fn kind_of_code(code: i32) -> CodecErrorKind {
    if code == 0 {
        CodecErrorKind::Success
    } else if code == -1 {
        CodecErrorKind::BadArgument
    } else if code == -2 {
        CodecErrorKind::BufferTooSmall
    } else if code == -3 {
        CodecErrorKind::InternalError
    } else if code == -4 {
        CodecErrorKind::InvalidPacket
    } else if code == -5 {
        CodecErrorKind::Unimplemented
    } else if code == -6 {
        CodecErrorKind::InvalidState
    } else if code == -7 {
        CodecErrorKind::AllocationFailed
    } else {
        CodecErrorKind::Unknown
    }
}

/// The human-readable reason the codec library gives for each class.
pub open spec fn kind_text(kind: CodecErrorKind) -> Seq<char> {
    match kind {
        CodecErrorKind::Success => "success"@,
        CodecErrorKind::BadArgument => "invalid argument"@,
        CodecErrorKind::BufferTooSmall => "buffer too small"@,
        CodecErrorKind::InternalError => "internal error"@,
        CodecErrorKind::InvalidPacket => "corrupted stream"@,
        CodecErrorKind::Unimplemented => "request not implemented"@,
        CodecErrorKind::InvalidState => "invalid state"@,
        CodecErrorKind::AllocationFailed => "memory allocation failed"@,
        CodecErrorKind::Unknown => "unknown error"@,
    }
}

/// Classifies a codec result code.
pub fn error_kind(code: i32) -> (r: CodecErrorKind)
    ensures
        r == kind_of_code(code),
{
    match code {
        0 => CodecErrorKind::Success,
        -1 => CodecErrorKind::BadArgument,
        -2 => CodecErrorKind::BufferTooSmall,
        -3 => CodecErrorKind::InternalError,
        -4 => CodecErrorKind::InvalidPacket,
        -5 => CodecErrorKind::Unimplemented,
        -6 => CodecErrorKind::InvalidState,
        -7 => CodecErrorKind::AllocationFailed,
        _ => CodecErrorKind::Unknown,
    }
}

impl CodecErrorKind {
    /// The reason text of this class.
    pub fn text(&self) -> (r: String)
        ensures
            r@ == kind_text(*self),
    {
        match self {
            CodecErrorKind::Success => "success".to_owned(),
            CodecErrorKind::BadArgument => "invalid argument".to_owned(),
            CodecErrorKind::BufferTooSmall => "buffer too small".to_owned(),
            CodecErrorKind::InternalError => "internal error".to_owned(),
            CodecErrorKind::InvalidPacket => "corrupted stream".to_owned(),
            CodecErrorKind::Unimplemented => "request not implemented".to_owned(),
            CodecErrorKind::InvalidState => "invalid state".to_owned(),
            CodecErrorKind::AllocationFailed => "memory allocation failed".to_owned(),
            CodecErrorKind::Unknown => "unknown error".to_owned(),
        }
    }
}

/// Builds the error value for a codec result code, with its reason text.
pub fn get_opus_error(error: i32) -> (r: OpusError)
    ensures
        r.error == error,
        r.message@ == kind_text(kind_of_code(error)),
{
    let kind = error_kind(error);
    OpusError { error, message: kind.text() }
}

impl OpusError {
    /// The class of this error's code.
    pub fn kind(&self) -> (r: CodecErrorKind)
        ensures
            r == kind_of_code(self.error),
    {
        error_kind(self.error)
    }
}

/// Samples in one decoded frame: the per-channel samples of a nominal frame,
/// times the channel count.
pub open spec fn frame_samples(sample_rate: nat, channels: nat) -> nat {
    ((FRAME_DURATION_MS as nat) * sample_rate / 1000) * channels
}

/// Smallest and largest gain command the codec takes (16-bit signed).
pub open spec fn clamp_gain(q: int) -> int {
    if q < i16::MIN {
        i16::MIN as int
    } else if q > i16::MAX {
        i16::MAX as int
    } else {
        q
    }
}

/// Computes the number of samples in one decoded frame.
pub fn frame_len(sample_rate: u32, channels: u32) -> (r: u64)
    ensures
        r == frame_samples(sample_rate as nat, channels as nat),
{
    let ms = FRAME_DURATION_MS as u64;
    let rate = sample_rate as u64;
    assert(ms * rate <= 20 * 0xffff_ffffu64) by (nonlinear_arith)
        requires
            ms == 20,
            rate <= 0xffff_ffffu64,
    ;
    let per_channel: u64 = ms * rate / 1000;
    assert(per_channel <= 0x800_0000u64) by (nonlinear_arith)
        requires
            per_channel == 20 * (sample_rate as int) / 1000,
            sample_rate <= 0xffff_ffffu32,
    ;
    assert(per_channel * (channels as u64) <= 0x800_0000u64 * 0x1_0000_0000u64)
        by (nonlinear_arith)
        requires
            per_channel <= 0x800_0000u64,
            channels <= 0xffff_ffffu32,
    ;
    per_channel * (channels as u64)
}

/// Maps a gain in whole decibels to the codec's gain command: 1/256 dB
/// units, clamped to the 16-bit signed range.
pub fn quantized_gain(db: i32) -> (r: i16)
    ensures
        r as int == clamp_gain(db * 256),
{
    let q: i64 = (db as i64) * 256;
    if q < i16::MIN as i64 {
        i16::MIN
    } else if q > i16::MAX as i64 {
        i16::MAX
    } else {
        q as i16
    }
}

/// Checks the result code of creating a codec instance.
pub fn check_created(code: i32) -> (r: Result<(), OpusError>)
    ensures
        r is Ok <==> code == OPUS_OK,
        r matches Err(e) ==> e.error == code && e.message@ == kind_text(kind_of_code(code)),
{
    if code != OPUS_OK {
        Err(get_opus_error(code))
    } else {
        Ok(())
    }
}

/// Settings of a decode stage: the geometry of the stream it decodes.
#[derive(Debug, Clone, Copy)]
pub struct DecodeStage {
    sample_rate: u32,
    channels: u32,
    frame_len: usize,
}

impl DecodeStage {
    pub closed spec fn wf(&self) -> bool {
        &&& self.sample_rate > 0
        &&& self.channels > 0
        &&& self.frame_len == frame_samples(self.sample_rate as nat, self.channels as nat)
    }

    pub closed spec fn spec_sample_rate(&self) -> u32 {
        self.sample_rate
    }

    pub closed spec fn spec_channels(&self) -> u32 {
        self.channels
    }

    pub closed spec fn spec_frame_len(&self) -> nat {
        self.frame_len as nat
    }

    /// Settings for a stream of `sample_rate` Hz and `channels` channels.
    /// `None` when either is zero or a decoded frame would not be
    /// addressable.
    pub fn new(sample_rate: u32, channels: u32) -> (r: Option<DecodeStage>)
        ensures
            r is Some <==> (sample_rate > 0 && channels > 0 && frame_samples(
                sample_rate as nat,
                channels as nat,
            ) <= usize::MAX),
            r matches Some(d) ==> d.wf() && d.spec_sample_rate() == sample_rate
                && d.spec_channels() == channels,
    {
        if sample_rate == 0 || channels == 0 {
            return None;
        }
        let n = frame_len(sample_rate, channels);
        if n > usize::MAX as u64 {
            return None;
        }
        Some(DecodeStage { sample_rate, channels, frame_len: n as usize })
    }

    pub fn sample_rate(&self) -> (r: u32)
        ensures
            r == self.spec_sample_rate(),
    {
        self.sample_rate
    }

    pub fn channels(&self) -> (r: u32)
        ensures
            r == self.spec_channels(),
    {
        self.channels
    }

    /// Samples in one decoded frame.
    pub fn frame_len(&self) -> (r: usize)
        ensures
            r == self.spec_frame_len(),
            self.wf() ==> r == frame_samples(
                self.spec_sample_rate() as nat,
                self.spec_channels() as nat,
            ),
    {
        self.frame_len
    }

    /// A zeroed buffer that holds exactly one decoded frame.
    pub fn output_buffer(&self) -> (r: Vec<i16>)
        requires
            self.wf(),
        ensures
            r@ == Seq::new(self.spec_frame_len(), |_i: int| 0i16),
    {
        vec![0i16; self.frame_len]
    }

    /// Turns the codec's result for one frame into the decoded frame or the
    /// error. `written` is the codec's result code, `pcm` the buffer it
    /// decoded into; a negative code drops the frame.
    pub fn finish(&self, written: i32, pcm: Vec<i16>) -> (r: Result<Vec<i16>, OpusError>)
        requires
            self.wf(),
            pcm.len() == self.spec_frame_len(),
        ensures
            r is Err <==> written < 0,
            r matches Ok(v) ==> v@ == pcm@ && v.len() == frame_samples(
                self.spec_sample_rate() as nat,
                self.spec_channels() as nat,
            ),
            r matches Err(e) ==> e.error == written && e.message@ == kind_text(
                kind_of_code(written),
            ),
    {
        if written < 0 {
            Err(get_opus_error(written))
        } else {
            Ok(pcm)
        }
    }
}


/// Gains of -40 dB to +20 dB (volume scales of 1% to 1000%) are sent
/// unclamped, as `db * 256`, inside the 16-bit signed range; 0 dB (a scale of
/// 100%) is the command 0.
pub proof fn lemma_gain_unclamped_in_volume_range(db: int)
    requires
        -40 <= db <= 20,
    ensures
        clamp_gain(db * 256) == db * 256,
        i16::MIN <= clamp_gain(db * 256) <= i16::MAX,
        db == 0 ==> clamp_gain(db * 256) == 0,
{
}

} // verus!
