use vstd::prelude::*;

verus! {

/// The step of the pipeline in which an engine encode call failed.
#[derive(Debug, Clone, Copy, PartialEq, Eq, Structural)]
pub enum Phase {
    Submit,
    Flush,
}

/// Fatal errors of an encoding session. None is retried: each one ends the
/// session, and no output is produced.
#[derive(Debug, Clone, PartialEq, Eq)]
pub enum EncodeError {
    /// A frame dimension is zero or odd; found before the engine is touched.
    InvalidDimensions { width: u32, height: u32 },
    /// The engine refused one of the fixed parameter overrides.
    ConfigurationRejected { key: &'static str, value: &'static str },
    /// The engine refused the per-frame quality factor.
    QualityRejected { quality: u32 },
    /// The engine could not allocate the picture buffer or open a session.
    EngineOpenFailed,
    /// The picture buffer does not have three planes with the expected strides.
    BufferLayoutMismatch,
    /// A submitted frame's planes do not have the session's sizes.
    FrameGeometryMismatch,
    /// An engine encode step reported a negative size.
    EncodeFailed { phase: Phase },
}

} // verus!
