use vstd::prelude::*;
use crate::error::EncodeError;

verus! {

/// Coarse speed/quality selector that picks the encoder preset.
#[derive(Debug, Clone, Copy, PartialEq, Eq, Structural)]
pub enum Mode {
    Speed,
    Quality,
}

/// Name of the preset that a mode selects.
pub open spec fn preset_of(mode: Mode) -> Seq<char> {
    match mode {
        Mode::Speed => "ultrafast"@,
        Mode::Quality => "medium"@,
    }
}

/// Number of fixed key/value overrides applied on top of the preset.
pub const N_OVERRIDES: usize = 16;

/// Key of the override at position `i` of the fixed, ordered policy list.
pub open spec fn override_key(i: int) -> Seq<char> {
    if i == 0 { "partitions"@ }
    else if i == 1 { "constrained-intra"@ }
    else if i == 2 { "deblock"@ }
    else if i == 3 { "qcomp"@ }
    else if i == 4 { "aq-mode"@ }
    else if i == 5 { "cplxblur"@ }
    else if i == 6 { "trellis"@ }
    else if i == 7 { "subme"@ }
    else if i == 8 { "psy-rd"@ }
    else if i == 9 { "direct"@ }
    else if i == 10 { "cqm"@ }
    else if i == 11 { "no-weightb"@ }
    else if i == 12 { "no-mixed-refs"@ }
    else if i == 13 { "no-chroma-me"@ }
    else if i == 14 { "no-dct-decimate"@ }
    else { "non-deterministic"@ }
}

/// Value of the override at position `i` of the fixed, ordered policy list.
pub open spec fn override_value(i: int) -> Seq<char> {
    if i == 0 { "all"@ }
    else if i == 1 { "1"@ }
    else if i == 2 { "0,0"@ }
    else if i == 3 { "0.5"@ }
    else if i == 4 { "2"@ }
    else if i == 5 { "20.0"@ }
    else if i == 6 { "2"@ }
    else if i == 7 { "11"@ }
    else if i == 8 { "2.0:0.7"@ }
    else if i == 9 { "none"@ }
    else if i == 10 { "flat"@ }
    else { "1"@ }
}

/// The override at position `i` of the fixed policy list.
pub fn override_at(i: usize) -> (r: (&'static str, &'static str))
    requires
        i < N_OVERRIDES,
    ensures
        r.0@ == override_key(i as int),
        r.1@ == override_value(i as int),
{
    match i {
        0 => ("partitions", "all"),
        1 => ("constrained-intra", "1"),
        2 => ("deblock", "0,0"),
        3 => ("qcomp", "0.5"),
        4 => ("aq-mode", "2"),
        5 => ("cplxblur", "20.0"),
        6 => ("trellis", "2"),
        7 => ("subme", "11"),
        8 => ("psy-rd", "2.0:0.7"),
        9 => ("direct", "none"),
        10 => ("cqm", "flat"),
        11 => ("no-weightb", "1"),
        12 => ("no-mixed-refs", "1"),
        13 => ("no-chroma-me", "1"),
        14 => ("no-dct-decimate", "1"),
        _ => ("non-deterministic", "1"),
    }
}

/// Whether a frame geometry can be encoded in planar 4:2:0: both dimensions
/// positive and even.
pub open spec fn valid_geometry(width: u32, height: u32) -> bool {
    width > 0 && height > 0 && width % 2 == 0 && height % 2 == 0
}

/// The immutable configuration of one encoding session: the frame geometry
/// and the preset mode. Everything else is fixed policy that the accessors
/// report.
#[derive(Debug, Clone, Copy, PartialEq, Eq, Structural)]
pub struct EncoderParameters {
    mode: Mode,
    width: u32,
    height: u32,
}

impl EncoderParameters {
    pub closed spec fn spec_mode(&self) -> Mode {
        self.mode
    }

    pub closed spec fn spec_width(&self) -> u32 {
        self.width
    }

    pub closed spec fn spec_height(&self) -> u32 {
        self.height
    }

    /// Every value of this type has a geometry that 4:2:0 can hold.
    pub open spec fn wf(&self) -> bool {
        valid_geometry(self.spec_width(), self.spec_height())
    }

    /// Number of luma samples of one frame.
    pub open spec fn spec_luma_size(&self) -> int {
        self.spec_width() as int * self.spec_height() as int
    }

    /// Number of samples of each chroma plane of one frame.
    pub open spec fn spec_chroma_size(&self) -> int {
        self.spec_luma_size() / 4
    }

    /// Parameters for frames of `width` x `height` in the given mode. Fails,
    /// without any engine involvement, when a dimension is zero or odd.
    pub fn build(mode: Mode, width: u32, height: u32) -> (r: Result<EncoderParameters, EncodeError>)
        ensures
            valid_geometry(width, height) <==> r is Ok,
            r matches Ok(p) ==> p.wf() && p.spec_width() == width && p.spec_height() == height
                && p.spec_mode() == mode,
            r matches Err(e) ==> e == (EncodeError::InvalidDimensions { width, height }),
    {
        if width == 0 || height == 0 || width % 2 != 0 || height % 2 != 0 {
            Err(EncodeError::InvalidDimensions { width, height })
        } else {
            Ok(EncoderParameters { mode, width, height })
        }
    }

    pub fn mode(&self) -> (r: Mode)
        ensures
            r == self.spec_mode(),
    {
        self.mode
    }

    pub fn width(&self) -> (r: u32)
        ensures
            r == self.spec_width(),
    {
        self.width
    }

    pub fn height(&self) -> (r: u32)
        ensures
            r == self.spec_height(),
    {
        self.height
    }

    /// The engine preset, chosen by the mode.
    pub fn preset(&self) -> (r: &'static str)
        ensures
            r@ == preset_of(self.spec_mode()),
    {
        match self.mode {
            Mode::Speed => "ultrafast",
            Mode::Quality => "medium",
        }
    }

    /// The perceptual tuning applied with the preset.
    pub fn tune(&self) -> (r: &'static str)
        ensures
            r@ == "ssim"@,
    {
        "ssim"
    }

    /// The profile applied last, as a compatibility filter over all settings.
    pub fn profile(&self) -> (r: &'static str)
        ensures
            r@ == "high"@,
    {
        "high"
    }

    /// Bits per sample.
    pub fn bit_depth(&self) -> (r: u32)
        ensures
            r == 8,
    {
        8
    }

    /// The fixed key/value overrides, in the order in which they are applied.
    pub fn overrides(&self) -> (r: Vec<(&'static str, &'static str)>)
        ensures
            r@.len() == N_OVERRIDES,
            forall|i: int| 0 <= i < N_OVERRIDES ==> #[trigger] r@[i].0@ == override_key(i)
                && r@[i].1@ == override_value(i),
    {
        let mut r: Vec<(&'static str, &'static str)> = Vec::new();
        let mut i: usize = 0;
        while i < N_OVERRIDES
            invariant
                i <= N_OVERRIDES,
                r@.len() == i,
                forall|j: int| 0 <= j < i ==> #[trigger] r@[j].0@ == override_key(j)
                    && r@[j].1@ == override_value(j),
            decreases N_OVERRIDES - i,
        {
            r.push(override_at(i));
            i += 1;
        }
        r
    }

    /// Number of luma samples of one frame.
    pub fn luma_size(&self) -> (r: u64)
        ensures
            r == self.spec_luma_size(),
    {
        proof {
            vstd::arithmetic::mul::lemma_mul_upper_bound(self.width as int, u32::MAX as int,
                self.height as int, u32::MAX as int);
        }
        self.width as u64 * self.height as u64
    }

    /// Number of samples of each of the two chroma planes of one frame.
    pub fn chroma_size(&self) -> (r: u64)
        ensures
            r == self.spec_chroma_size(),
    {
        self.luma_size() / 4
    }
}

} // verus!
