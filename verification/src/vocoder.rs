//! Guards around the vocoder: what is checked before audio is handed to
//! analysis and before parameters are handed to synthesis.
//!
//! The vocoder itself is a numerical library outside this crate. It reads
//! tables whose dimensions must agree, and it allocates its output at once,
//! so both are checked first.

use vstd::prelude::*;
use vstd::string::*;
use crate::text::{append_decimal, decimal};

verus! {

/// The most samples a synthesis may produce: ten minutes at 96 kHz.
pub const MAX_SYNTHESIS_SAMPLES: usize = 57_600_000;

/// Errors from checking vocoder parameters.
#[derive(Debug, Clone)]
pub enum WorldError {
    /// The parameters are empty or their dimensions disagree.
    InvalidParams(String),
    /// The output would hold more samples than are allowed.
    AllocationTooLarge { requested: usize, max: usize },
}

impl WorldError {
    /// The error's text.
    pub open spec fn text(self) -> Seq<char> {
        match self {
            WorldError::InvalidParams(msg) => "invalid WORLD params: "@ + msg@,
            WorldError::AllocationTooLarge { requested, max } => "synthesis output too large: "@
                + decimal(requested as nat) + " samples (max "@ + decimal(max as nat) + ")"@,
        }
    }

    /// Whether this is an invalid-parameters error with the given detail.
    pub open spec fn invalid_with(self, detail: Seq<char>) -> bool {
        match self {
            WorldError::InvalidParams(msg) => msg@ == detail,
            _ => false,
        }
    }

    /// The error as text.
    pub fn describe(&self) -> (text: String)
        ensures
            text@ == self.text(),
    {
        match self {
            WorldError::InvalidParams(msg) => String::from_str("invalid WORLD params: ").concat(
                msg.as_str(),
            ),
            WorldError::AllocationTooLarge { requested, max } => {
                let mut text = String::from_str("synthesis output too large: ");
                append_decimal(&mut text, *requested as u64);
                text.append(" samples (max ");
                append_decimal(&mut text, *max as u64);
                text.append(")");
                text
            },
        }
    }
}

/// The dimensions of a set of vocoder parameters.
#[derive(Debug, Clone)]
pub struct ParamShape {
    /// Number of frames of the pitch track.
    pub f0_len: usize,
    /// Number of frame times.
    pub temporal_len: usize,
    /// Width of each row of the spectral envelope.
    pub spectrogram_widths: Vec<usize>,
    /// Width of each row of the aperiodicity table.
    pub aperiodicity_widths: Vec<usize>,
    /// The transform size the tables were computed with.
    pub fft_size: usize,
}

/// What can be wrong with the dimensions of vocoder parameters.
#[derive(Debug, Clone, Copy, PartialEq, Eq, Structural)]
pub enum ShapeFault {
    EmptyPitchTrack,
    ZeroTransformSize,
    FrameTimes,
    SpectrogramRows,
    AperiodicityRows,
    SpectrogramWidth,
    AperiodicityWidth,
}

impl ShapeFault {
    /// The detail that an error for this fault carries.
    pub open spec fn text(self) -> Seq<char> {
        match self {
            ShapeFault::EmptyPitchTrack => "f0 must not be empty"@,
            ShapeFault::ZeroTransformSize => "fft_size must be positive"@,
            ShapeFault::FrameTimes => "temporal_positions length differs from f0 length"@,
            ShapeFault::SpectrogramRows => "spectrogram row count differs from f0 length"@,
            ShapeFault::AperiodicityRows => "aperiodicity row count differs from f0 length"@,
            ShapeFault::SpectrogramWidth => "spectrogram row width differs from fft_size/2+1"@,
            ShapeFault::AperiodicityWidth => "aperiodicity row width differs from fft_size/2+1"@,
        }
    }

    fn label(self) -> (s: &'static str)
        ensures
            s@ == self.text(),
    {
        match self {
            ShapeFault::EmptyPitchTrack => "f0 must not be empty",
            ShapeFault::ZeroTransformSize => "fft_size must be positive",
            ShapeFault::FrameTimes => "temporal_positions length differs from f0 length",
            ShapeFault::SpectrogramRows => "spectrogram row count differs from f0 length",
            ShapeFault::AperiodicityRows => "aperiodicity row count differs from f0 length",
            ShapeFault::SpectrogramWidth => "spectrogram row width differs from fft_size/2+1",
            ShapeFault::AperiodicityWidth => "aperiodicity row width differs from fft_size/2+1",
        }
    }
}

/// Whether every row has the given width.
pub open spec fn uniform(widths: Seq<usize>, width: int) -> bool {
    forall|i: int| 0 <= i < widths.len() ==> #[trigger] widths[i] == width
}

impl ParamShape {
    /// The first fault of the shape, in the order in which the checks are
    /// made, or `None` for a consistent shape: there is at least one frame
    /// and a positive transform size, every table has one entry per frame,
    /// and every row is `fft_size / 2 + 1` wide.
    pub open spec fn first_fault(self) -> Option<ShapeFault> {
        let width = self.fft_size as int / 2 + 1;
        if self.f0_len == 0 {
            Some(ShapeFault::EmptyPitchTrack)
        } else if self.fft_size == 0 {
            Some(ShapeFault::ZeroTransformSize)
        } else if self.temporal_len != self.f0_len {
            Some(ShapeFault::FrameTimes)
        } else if self.spectrogram_widths@.len() != self.f0_len {
            Some(ShapeFault::SpectrogramRows)
        } else if self.aperiodicity_widths@.len() != self.f0_len {
            Some(ShapeFault::AperiodicityRows)
        } else if !uniform(self.spectrogram_widths@, width) {
            Some(ShapeFault::SpectrogramWidth)
        } else if !uniform(self.aperiodicity_widths@, width) {
            Some(ShapeFault::AperiodicityWidth)
        } else {
            None
        }
    }

    /// Checks that the dimensions agree.
    pub fn validate(&self) -> (r: Result<(), WorldError>)
        ensures
            match self.first_fault() {
                None => r is Ok,
                Some(fault) => invalid_params(r, fault.text()),
            },
    {
        match self.find_fault() {
            None => Ok(()),
            Some(fault) => Err(WorldError::InvalidParams(String::from_str(fault.label()))),
        }
    }

    /// Finds the first fault of the shape.
    pub fn find_fault(&self) -> (fault: Option<ShapeFault>)
        ensures
            fault == self.first_fault(),
    {
        if self.f0_len == 0 {
            return Some(ShapeFault::EmptyPitchTrack);
        }
        if self.fft_size == 0 {
            return Some(ShapeFault::ZeroTransformSize);
        }
        let width: usize = self.fft_size / 2 + 1;
        if self.temporal_len != self.f0_len {
            return Some(ShapeFault::FrameTimes);
        }
        if self.spectrogram_widths.len() != self.f0_len {
            return Some(ShapeFault::SpectrogramRows);
        }
        if self.aperiodicity_widths.len() != self.f0_len {
            return Some(ShapeFault::AperiodicityRows);
        }
        if !all_equal(&self.spectrogram_widths, width) {
            return Some(ShapeFault::SpectrogramWidth);
        }
        if !all_equal(&self.aperiodicity_widths, width) {
            return Some(ShapeFault::AperiodicityWidth);
        }
        None
    }
}

fn all_equal(widths: &Vec<usize>, width: usize) -> (same: bool)
    ensures
        same == uniform(widths@, width as int),
{
    let mut i: usize = 0;
    while i < widths.len()
        invariant
            i <= widths.len(),
            forall|j: int| 0 <= j < i ==> #[trigger] widths@[j] == width,
        decreases widths.len() - i,
    {
        if widths[i] != width {
            return false;
        }
        i = i + 1;
    }
    true
}

/// Whether `r` is an invalid-parameters error with this detail.
pub open spec fn invalid_params(r: Result<(), WorldError>, detail: Seq<char>) -> bool {
    r is Err && r->Err_0.invalid_with(detail)
}

/// Checks the sample rate handed to synthesis: it must be positive.
pub fn check_sample_rate(sample_rate: i32) -> (r: Result<(), WorldError>)
    ensures
        sample_rate > 0 ==> r is Ok,
        sample_rate <= 0 ==> invalid_params(r, "sample_rate must be positive"@),
{
    if sample_rate <= 0 {
        Err(WorldError::InvalidParams(String::from_str("sample_rate must be positive")))
    } else {
        Ok(())
    }
}

/// Checks the number of samples a synthesis would produce against the
/// ceiling.
pub fn check_output_length(requested: usize) -> (r: Result<(), WorldError>)
    ensures
        requested <= MAX_SYNTHESIS_SAMPLES ==> r is Ok,
        requested > MAX_SYNTHESIS_SAMPLES ==> r == Err::<(), WorldError>(
            WorldError::AllocationTooLarge { requested, max: MAX_SYNTHESIS_SAMPLES },
        ),
{
    if requested > MAX_SYNTHESIS_SAMPLES {
        Err(WorldError::AllocationTooLarge { requested, max: MAX_SYNTHESIS_SAMPLES })
    } else {
        Ok(())
    }
}

/// Checks audio before analysis: its mono downmix must hold samples, and
/// the sample rate must be positive. Returns the length of the downmix.
pub fn check_analysis_input(sample_count: usize, channels: u16, sample_rate: u32) -> (r: Result<
    usize,
    WorldError,
>)
    ensures
        match r {
            Ok(frames) => channels > 0 && frames == sample_count as int / channels as int && frames
                > 0 && sample_rate > 0,
            Err(e) => if channels == 0 || sample_count as int / channels as int == 0 {
                e.invalid_with("audio is empty (no samples or zero channels)"@)
            } else {
                sample_rate == 0 && e.invalid_with("sample_rate must be positive"@)
            },
        },
{
    let frames: usize = if channels == 0 {
        0
    } else {
        sample_count / (channels as usize)
    };
    if frames == 0 {
        Err(
            WorldError::InvalidParams(
                String::from_str("audio is empty (no samples or zero channels)"),
            ),
        )
    } else if sample_rate == 0 {
        Err(WorldError::InvalidParams(String::from_str("sample_rate must be positive")))
    } else {
        Ok(frames)
    }
}

} // verus!
