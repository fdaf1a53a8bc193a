//! The shape of an audio buffer, and the decisions taken around decoding a
//! file: whether its first bytes look like audio, whether its track can be
//! used, and when progress is reported.

use vstd::prelude::*;
use vstd::string::*;

verus! {

/// What the coordination logic reads of a buffer of interleaved samples.
#[derive(Debug, Clone, Copy, PartialEq, Eq, Structural)]
pub struct AudioShape {
    /// Number of samples, all channels together.
    pub sample_count: usize,
    pub sample_rate: u32,
    pub channels: u16,
}

impl AudioShape {
    /// Number of whole frames: samples per channel.
    pub open spec fn frames(self) -> int {
        if self.channels == 0 {
            0
        } else {
            self.sample_count as int / self.channels as int
        }
    }

    /// Total number of frames.
    #[must_use]
    pub fn frame_count(&self) -> (n: usize)
        ensures
            n == self.frames(),
    {
        if self.channels == 0 {
            0
        } else {
            self.sample_count / (self.channels as usize)
        }
    }

    /// The shape of the mono downmix: one sample per whole frame, at the
    /// same rate. A buffer without channels downmixes to an empty one.
    pub fn to_mono(&self) -> (mono: AudioShape)
        ensures
            mono.channels == 1,
            mono.sample_rate == self.sample_rate,
            mono.sample_count == self.frames(),
    {
        AudioShape {
            sample_count: self.frame_count(),
            sample_rate: self.sample_rate,
            channels: 1,
        }
    }
}

/// Errors that can occur while decoding a file.
#[derive(Debug)]
pub enum DecoderError {
    /// The file could not be opened or read.
    Io(String),
    /// The format was not recognized, or it holds no usable audio track.
    UnsupportedFormat(String),
    /// The codec is not supported.
    UnsupportedCodec(String),
    /// Decoding failed.
    Decode(String),
}

impl DecoderError {
    /// What the error's text starts with.
    pub open spec fn prefix(self) -> Seq<char> {
        match self {
            DecoderError::Io(_) => "I/O error: "@,
            DecoderError::UnsupportedFormat(_) => "unsupported format: "@,
            DecoderError::UnsupportedCodec(_) => "unsupported codec: "@,
            DecoderError::Decode(_) => "decode error: "@,
        }
    }

    /// The detail that the error carries.
    pub open spec fn detail(self) -> Seq<char> {
        match self {
            DecoderError::Io(msg) => msg@,
            DecoderError::UnsupportedFormat(msg) => msg@,
            DecoderError::UnsupportedCodec(msg) => msg@,
            DecoderError::Decode(msg) => msg@,
        }
    }

    /// The error as text.
    pub fn describe(&self) -> (text: String)
        ensures
            text@ == self.prefix() + self.detail(),
    {
        match self {
            DecoderError::Io(msg) => String::from_str("I/O error: ").concat(msg.as_str()),
            DecoderError::UnsupportedFormat(msg) => String::from_str("unsupported format: ").concat(
                msg.as_str(),
            ),
            DecoderError::UnsupportedCodec(msg) => String::from_str("unsupported codec: ").concat(
                msg.as_str(),
            ),
            DecoderError::Decode(msg) => String::from_str("decode error: ").concat(msg.as_str()),
        }
    }
}

/// Error starting audio playback.
#[derive(Debug)]
pub struct PlaybackError(pub String);

impl PlaybackError {
    /// The error as text.
    pub fn describe(&self) -> (text: String)
        ensures
            text@ == "playback error: "@ + self.0@,
    {
        String::from_str("playback error: ").concat(self.0.as_str())
    }
}

/// Whether `e` is an unsupported-format error with this detail.
pub open spec fn unsupported_format(e: DecoderError, detail: Seq<char>) -> bool {
    e is UnsupportedFormat && e.detail() == detail
}

/// The sample rate and channel count of a track, as far as its container
/// declares them.
///
/// Both must be known and there must be at least one channel; the error
/// names the first of these that fails.
pub fn track_shape(sample_rate: Option<u32>, channel_count: Option<usize>) -> (r: Result<
    (u32, u16),
    DecoderError,
>)
    ensures
        match (sample_rate, channel_count) {
            (None, _) => r is Err && unsupported_format(r->Err_0, "unknown sample rate"@),
            (Some(_), None) => r is Err && unsupported_format(
                r->Err_0,
                "unknown channel layout"@,
            ),
            (Some(rate), Some(count)) => if count % 65536 == 0 {
                r is Err && unsupported_format(r->Err_0, "zero channels"@)
            } else {
                r == Ok::<(u32, u16), DecoderError>((rate, (count % 65536) as u16))
            },
        },
{
    match sample_rate {
        None => Err(DecoderError::UnsupportedFormat(String::from_str("unknown sample rate"))),
        Some(rate) => match channel_count {
            None => Err(
                DecoderError::UnsupportedFormat(String::from_str("unknown channel layout")),
            ),
            Some(count) => {
                let channels: u16 = (count % 65536) as u16;
                if channels == 0 {
                    Err(DecoderError::UnsupportedFormat(String::from_str("zero channels")))
                } else {
                    Ok((rate, channels))
                }
            },
        },
    }
}

/// How much of a file is decoded, in percent, capped at 100.
pub open spec fn percent_done(frames_decoded: int, total_frames: int) -> int {
    let raw = frames_decoded * 100 / total_frames;
    if raw > 100 {
        100
    } else {
        raw
    }
}

/// The percentage to report after a packet, if any: progress is reported
/// only where the total is known and positive, and only when the percentage
/// differs from the last one reported.
pub fn progress_update(frames_decoded: u64, total_frames: Option<u64>, last: u8) -> (report: Option<
    u8,
>)
    ensures
        match total_frames {
            Some(total) if total > 0 => {
                let pct = percent_done(frames_decoded as int, total as int);
                if pct != last {
                    report == Some(pct as u8)
                } else {
                    report is None
                }
            },
            _ => report is None,
        },
{
    match total_frames {
        Some(total) => {
            if total > 0 {
                let raw: u128 = (frames_decoded as u128 * 100) / (total as u128);
                let pct: u8 = if raw > 100 {
                    100
                } else {
                    raw as u8
                };
                if pct != last {
                    Some(pct)
                } else {
                    None
                }
            } else {
                None
            }
        },
        None => None,
    }
}

/// Accepts what was decoded: a file that yields no samples is an error.
pub fn check_decoded(sample_count: usize) -> (r: Result<(), DecoderError>)
    ensures
        sample_count > 0 ==> r is Ok,
        sample_count == 0 ==> r is Err && r->Err_0 is Decode && r->Err_0.detail()
            == "no audio samples decoded"@,
{
    if sample_count == 0 {
        Err(DecoderError::Decode(String::from_str("no audio samples decoded")))
    } else {
        Ok(())
    }
}

/// What the first bytes of a file say about it.
#[derive(Debug, Clone, Copy, PartialEq, Eq, Structural)]
pub enum HeaderVerdict {
    /// The file holds no bytes at all.
    Empty,
    /// The bytes start like a known audio container.
    Audio,
    /// The bytes are not recognized.
    Unrecognized,
}

/// Whether `bytes` holds `magic` at `offset`.
pub open spec fn holds_at(bytes: Seq<u8>, offset: int, magic: Seq<u8>) -> bool {
    bytes.len() >= offset + magic.len() && bytes.subrange(offset, offset + magic.len()) == magic
}

/// Whether the bytes start like WAV, FLAC, Ogg, MP3, MP4 or AIFF.
pub open spec fn audio_signature(bytes: Seq<u8>) -> bool {
    bytes.len() >= 4 && ({
        ||| (holds_at(bytes, 0, seq![0x52u8, 0x49, 0x46, 0x46]) && holds_at(
            bytes,
            8,
            seq![0x57u8, 0x41, 0x56, 0x45],
        ))
        ||| holds_at(bytes, 0, seq![0x66u8, 0x4c, 0x61, 0x43])
        ||| holds_at(bytes, 0, seq![0x4fu8, 0x67, 0x67, 0x53])
        ||| holds_at(bytes, 0, seq![0x49u8, 0x44, 0x33])
        ||| (bytes[0] == 0xff && bytes[1] & 0xe0 == 0xe0)
        ||| holds_at(bytes, 4, seq![0x66u8, 0x74, 0x79, 0x70])
        ||| (holds_at(bytes, 0, seq![0x46u8, 0x4f, 0x52, 0x4d]) && holds_at(
            bytes,
            8,
            seq![0x41u8, 0x49, 0x46, 0x46],
        ))
    })
}

/// The verdict on a file whose first bytes are `bytes`.
pub open spec fn verdict_of(bytes: Seq<u8>) -> HeaderVerdict {
    if bytes.len() == 0 {
        HeaderVerdict::Empty
    } else if audio_signature(bytes) {
        HeaderVerdict::Audio
    } else {
        HeaderVerdict::Unrecognized
    }
}

fn four_at(header: &[u8], offset: usize, a: u8, b: u8, c: u8, d: u8) -> (found: bool)
    requires
        offset <= 8,
    ensures
        found == holds_at(header@, offset as int, seq![a, b, c, d]),
{
    if header.len() >= offset + 4 {
        let found = header[offset] == a && header[offset + 1] == b && header[offset + 2] == c
            && header[offset + 3] == d;
        proof {
            let part = header@.subrange(offset as int, offset + 4);
            if found {
                assert(part =~= seq![a, b, c, d]);
            } else {
                assert(part[0] == header@[offset as int]);
                assert(part[1] == header@[offset + 1]);
                assert(part[2] == header@[offset + 2]);
                assert(part[3] == header@[offset + 3]);
            }
        }
        found
    } else {
        false
    }
}

/// Judges a file by its first bytes. Twelve bytes are enough: no signature
/// reaches further.
pub fn classify_header(header: &[u8]) -> (verdict: HeaderVerdict)
    ensures
        verdict == verdict_of(header@),
{
    if header.len() == 0 {
        return HeaderVerdict::Empty;
    }
    if header.len() < 4 {
        return HeaderVerdict::Unrecognized;
    }
    let id3 = header[0] == 0x49 && header[1] == 0x44 && header[2] == 0x33;
    proof {
        let part = header@.subrange(0, 3);
        if id3 {
            assert(part =~= seq![0x49u8, 0x44, 0x33]);
        } else {
            assert(part[0] == header@[0]);
            assert(part[1] == header@[1]);
            assert(part[2] == header@[2]);
        }
    }
    let recognized = (four_at(header, 0, 0x52, 0x49, 0x46, 0x46) && four_at(
        header,
        8,
        0x57,
        0x41,
        0x56,
        0x45,
    )) || four_at(header, 0, 0x66, 0x4c, 0x61, 0x43) || four_at(header, 0, 0x4f, 0x67, 0x67, 0x53)
        || id3 || (header[0] == 0xff && header[1] & 0xe0 == 0xe0) || four_at(
        header,
        4,
        0x66,
        0x74,
        0x79,
        0x70,
    ) || (four_at(header, 0, 0x46, 0x4f, 0x52, 0x4d) && four_at(header, 8, 0x41, 0x49, 0x46, 0x46));
    if recognized {
        HeaderVerdict::Audio
    } else {
        HeaderVerdict::Unrecognized
    }
}

} // verus!
