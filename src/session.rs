use vstd::prelude::*;
use crate::error::{EncodeError, Phase};
use crate::params::{
    override_at, override_key, override_value, preset_of, EncoderParameters, N_OVERRIDES,
};
use crate::stream::OutputStream;

verus! {

/// Where a session stands in its lifecycle; each stage but `Idle` and
/// `Finished` waits for the outcome of one engine request.
#[derive(Debug, Clone, Copy, PartialEq, Eq, Structural)]
pub enum Stage {
    Idle,
    Presetting,
    Configuring(usize),
    Profiling,
    Allocating,
    Opening,
    AwaitingFrame,
    ApplyingQuality,
    Submitting,
    Querying,
    Draining,
    Releasing,
    Finished,
}

/// What the driver reports back after performing the last requested action.
#[derive(Debug, Clone)]
pub enum Event {
    /// Begin the session.
    Start,
    /// Status of applying a preset, an override, the profile or the quality
    /// factor; zero means accepted.
    Applied { status: i32 },
    /// Status of allocating the picture buffer; zero means allocated.
    PictureAllocated { status: i32 },
    /// Whether the engine opened, and the picture buffer's plane count and
    /// strides.
    EngineOpened { opened: bool, planes: i32, stride_y: i32, stride_u: i32, stride_v: i32 },
    /// The next source frame, by the lengths of its three planes.
    Frame { luma: usize, chroma_u: usize, chroma_v: usize },
    /// The frame source has no more frames.
    SourceExhausted,
    /// Size reported by an encode step, and a copy of the unit it emitted.
    Encoded { size: i32, payload: Vec<u8> },
    /// Number of frames the engine still buffers.
    Delayed { count: i32 },
    /// The requested resources were released.
    Released,
}

/// The next thing the driver must do with the engine.
#[derive(Debug, Clone, Copy, PartialEq, Eq)]
pub enum Action {
    /// Load the named preset with the named tuning into the parameters.
    ApplyPreset { preset: &'static str, tune: &'static str },
    /// Apply one key/value override to the parameters.
    ApplyOverride { key: &'static str, value: &'static str },
    /// Restrict the parameters to the named profile.
    ApplyProfile { profile: &'static str },
    /// Allocate the picture buffer for the session's geometry.
    AllocatePicture,
    /// Open the engine with the parameters.
    OpenEngine,
    /// Fetch the next frame from the source.
    NextFrame,
    /// Copy the fetched frame into the picture buffer and set its quality factor.
    ApplyQuality { quality: u32 },
    /// Encode the picture buffer.
    EncodeFrame,
    /// Ask the engine how many frames it still buffers.
    QueryDelayed,
    /// Encode with no picture, to drain one buffered frame.
    EncodeDrain,
    /// Release the engine handle and/or the picture buffer.
    Release { engine: bool, picture: bool },
    /// Nothing is left to do: the outcome is ready.
    Finish,
}

/// Mathematical state of a session.
pub struct SessionModel {
    pub params: EncoderParameters,
    pub quality: u32,
    pub stage: Stage,
    pub picture_held: bool,
    pub engine_held: bool,
    pub drained: bool,
    pub failure: Option<EncodeError>,
    pub output: Seq<u8>,
}

/// Whether the picture buffer has three planes with the strides of `p`'s
/// geometry: the width for luma and half of it for each chroma plane.
pub open spec fn layout_matches(p: EncoderParameters, planes: i32, stride_y: i32, stride_u: i32, stride_v: i32) -> bool {
    &&& planes == 3
    &&& stride_y as int == p.spec_width() as int
    &&& stride_u as int == p.spec_width() as int / 2
    &&& stride_v as int == p.spec_width() as int / 2
}

/// Whether a frame's planes have the sizes of `p`'s geometry.
pub open spec fn frame_matches(p: EncoderParameters, luma: usize, chroma_u: usize, chroma_v: usize) -> bool {
    &&& luma as int == p.spec_luma_size()
    &&& chroma_u as int == p.spec_chroma_size()
    &&& chroma_v as int == p.spec_chroma_size()
}

/// Whether the session holds any engine resource.
pub open spec fn holds(s: SessionModel) -> bool {
    s.picture_held || s.engine_held
}

/// The state of a new session.
pub open spec fn initial(params: EncoderParameters, quality: u32) -> SessionModel {
    SessionModel {
        params,
        quality,
        stage: Stage::Idle,
        picture_held: false,
        engine_held: false,
        drained: false,
        failure: None,
        output: Seq::empty(),
    }
}

/// `s` with its stage replaced.
pub open spec fn moved(s: SessionModel, stage: Stage) -> SessionModel {
    SessionModel { stage, ..s }
}

/// `s` after giving up every resource it holds.
pub open spec fn released(s: SessionModel) -> SessionModel {
    SessionModel {
        stage: if holds(s) { Stage::Releasing } else { Stage::Finished },
        picture_held: false,
        engine_held: false,
        ..s
    }
}

/// `s` after a fatal error: it records the error and gives up its resources.
pub open spec fn aborted(s: SessionModel, err: EncodeError) -> SessionModel {
    released(SessionModel { failure: Some(err), ..s })
}

/// The action that gives up what `s` holds: a release of exactly the held
/// resources, or, when nothing is held, the end.
pub open spec fn release_action(s: SessionModel) -> Action {
    if holds(s) {
        Action::Release { engine: s.engine_held, picture: s.picture_held }
    } else {
        Action::Finish
    }
}

/// `t` and `a` follow from `s` by the engine refusing `key` = `value`.
pub open spec fn rejects(s: SessionModel, t: SessionModel, a: Action, key: Seq<char>, value: Seq<char>) -> bool {
    &&& t.failure matches Some(EncodeError::ConfigurationRejected { key: k, value: v })
    &&& k@ == key
    &&& v@ == value
    &&& t == aborted(s, t.failure->0)
    &&& a == release_action(s)
}

/// `a` applies the override at position `i` of the policy list.
pub open spec fn applies_override(a: Action, i: int) -> bool {
    a matches Action::ApplyOverride { key, value } && key@ == override_key(i) && value@ == override_value(i)
}

/// Whether a session in state `s` can take event `e`: `e` reports on the
/// action that led to `s`.
pub open spec fn accepts(s: SessionModel, e: Event) -> bool {
    match s.stage {
        Stage::Idle => e is Start,
        Stage::Presetting | Stage::Configuring(_) | Stage::Profiling | Stage::ApplyingQuality => e is Applied,
        Stage::Allocating => e is PictureAllocated,
        Stage::Opening => e is EngineOpened,
        Stage::AwaitingFrame => e is Frame || e is SourceExhausted,
        Stage::Submitting | Stage::Draining => e is Encoded,
        Stage::Querying => e is Delayed,
        Stage::Releasing => e is Released,
        Stage::Finished => false,
    }
}

/// The protocol: from state `s`, event `e` leads to state `t` and action `a`.
pub open spec fn transition(s: SessionModel, e: Event, t: SessionModel, a: Action) -> bool {
    match s.stage {
        Stage::Idle => {
            &&& t == moved(s, Stage::Presetting)
            &&& a matches Action::ApplyPreset { preset, tune }
            &&& preset@ == preset_of(s.params.spec_mode())
            &&& tune@ == "ssim"@
        },
        Stage::Presetting => e matches Event::Applied { status } && if status == 0 {
            t == moved(s, Stage::Configuring(0)) && applies_override(a, 0)
        } else {
            rejects(s, t, a, "preset"@, preset_of(s.params.spec_mode()))
        },
        Stage::Configuring(i) => e matches Event::Applied { status } && if status != 0 {
            rejects(s, t, a, override_key(i as int), override_value(i as int))
        } else if i + 1 < N_OVERRIDES {
            t == moved(s, Stage::Configuring((i + 1) as usize)) && applies_override(a, i + 1)
        } else {
            t == moved(s, Stage::Profiling) && (a matches Action::ApplyProfile { profile } && profile@ == "high"@)
        },
        Stage::Profiling => e matches Event::Applied { status } && if status == 0 {
            t == moved(s, Stage::Allocating) && a == Action::AllocatePicture
        } else {
            rejects(s, t, a, "profile"@, "high"@)
        },
        Stage::Allocating => e matches Event::PictureAllocated { status } && if status == 0 {
            t == SessionModel { stage: Stage::Opening, picture_held: true, ..s } && a == Action::OpenEngine
        } else {
            t == aborted(s, EncodeError::EngineOpenFailed) && a == release_action(s)
        },
        Stage::Opening => e matches Event::EngineOpened { opened, planes, stride_y, stride_u, stride_v } && if !opened {
            t == aborted(s, EncodeError::EngineOpenFailed) && a == release_action(s)
        } else {
            let s1 = SessionModel { engine_held: true, ..s };
            if layout_matches(s.params, planes, stride_y, stride_u, stride_v) {
                t == moved(s1, Stage::AwaitingFrame) && a == Action::NextFrame
            } else {
                t == aborted(s1, EncodeError::BufferLayoutMismatch) && a == release_action(s1)
            }
        },
        Stage::AwaitingFrame => match e {
            Event::Frame { luma, chroma_u, chroma_v } => if frame_matches(s.params, luma, chroma_u, chroma_v) {
                t == moved(s, Stage::ApplyingQuality) && a == (Action::ApplyQuality { quality: s.quality })
            } else {
                t == aborted(s, EncodeError::FrameGeometryMismatch) && a == release_action(s)
            },
            _ => t == moved(s, Stage::Querying) && a == Action::QueryDelayed,
        },
        Stage::ApplyingQuality => e matches Event::Applied { status } && if status == 0 {
            t == moved(s, Stage::Submitting) && a == Action::EncodeFrame
        } else {
            t == aborted(s, EncodeError::QualityRejected { quality: s.quality }) && a == release_action(s)
        },
        Stage::Submitting => e matches Event::Encoded { size, payload } && if size >= 0 {
            t == SessionModel { stage: Stage::AwaitingFrame, output: s.output + payload@, ..s }
                && a == Action::NextFrame
        } else {
            t == aborted(s, EncodeError::EncodeFailed { phase: Phase::Submit }) && a == release_action(s)
        },
        Stage::Querying => e matches Event::Delayed { count } && if count > 0 {
            t == moved(s, Stage::Draining) && a == Action::EncodeDrain
        } else {
            t == released(SessionModel { drained: true, ..s }) && a == release_action(s)
        },
        Stage::Draining => e matches Event::Encoded { size, payload } && if size >= 0 {
            t == SessionModel { stage: Stage::Querying, output: s.output + payload@, ..s }
                && a == Action::QueryDelayed
        } else {
            t == aborted(s, EncodeError::EncodeFailed { phase: Phase::Flush }) && a == release_action(s)
        },
        Stage::Releasing => t == moved(s, Stage::Finished) && a == Action::Finish,
        Stage::Finished => false,
    }
}

/// The invariant of every reachable state: which resources each stage holds,
/// and that an error or a completed drain comes only with giving them up.
pub open spec fn inv(s: SessionModel) -> bool {
    &&& s.params.wf()
    &&& match s.stage {
        Stage::Idle | Stage::Presetting | Stage::Profiling | Stage::Allocating => !holds(s) && s.failure is None && !s.drained,
        Stage::Configuring(i) => i < N_OVERRIDES && !holds(s) && s.failure is None && !s.drained,
        Stage::Opening => s.picture_held && !s.engine_held && s.failure is None && !s.drained,
        Stage::AwaitingFrame | Stage::ApplyingQuality | Stage::Submitting | Stage::Querying | Stage::Draining =>
            s.picture_held && s.engine_held && s.failure is None && !s.drained,
        Stage::Releasing | Stage::Finished => !holds(s) && (s.failure is None ==> s.drained),
    }
}

/// One encoding session: its parameters, the resources it holds in the
/// engine, and the stream collected so far. A driver performs each returned
/// action and reports its outcome with the next call of `step`.
pub struct Session {
    params: EncoderParameters,
    quality: u32,
    stage: Stage,
    picture_held: bool,
    engine_held: bool,
    drained: bool,
    failure: Option<EncodeError>,
    output: OutputStream,
}

impl View for Session {
    type V = SessionModel;

    closed spec fn view(&self) -> SessionModel {
        SessionModel {
            params: self.params,
            quality: self.quality,
            stage: self.stage,
            picture_held: self.picture_held,
            engine_held: self.engine_held,
            drained: self.drained,
            failure: self.failure,
            output: self.output@,
        }
    }
}

impl Session {
    /// A session that has not touched the engine yet. `quality` is the
    /// relative-quality factor set on every submitted frame.
    pub fn new(params: EncoderParameters, quality: u32) -> (r: Session)
        requires
            params.wf(),
        ensures
            r@ == initial(params, quality),
            inv(r@),
    {
        Session {
            params,
            quality,
            stage: Stage::Idle,
            picture_held: false,
            engine_held: false,
            drained: false,
            failure: None,
            output: OutputStream::new(),
        }
    }

    pub fn stage(&self) -> (r: Stage)
        ensures
            r == self@.stage,
    {
        self.stage
    }

    pub fn params(&self) -> (r: EncoderParameters)
        ensures
            r == self@.params,
    {
        self.params
    }

    /// Whether `e` is an outcome that the session waits for.
    pub fn accepts(&self, e: &Event) -> (r: bool)
        ensures
            r == accepts(self@, *e),
    {
        match self.stage {
            Stage::Idle => matches!(e, Event::Start),
            Stage::Presetting | Stage::Configuring(_) | Stage::Profiling | Stage::ApplyingQuality => matches!(e, Event::Applied { .. }),
            Stage::Allocating => matches!(e, Event::PictureAllocated { .. }),
            Stage::Opening => matches!(e, Event::EngineOpened { .. }),
            Stage::AwaitingFrame => matches!(e, Event::Frame { .. }) || matches!(e, Event::SourceExhausted),
            Stage::Submitting | Stage::Draining => matches!(e, Event::Encoded { .. }),
            Stage::Querying => matches!(e, Event::Delayed { .. }),
            Stage::Releasing => matches!(e, Event::Released),
            Stage::Finished => false,
        }
    }

    fn release(&mut self) -> (r: Action)
        ensures
            final(self)@ == released(old(self)@),
            r == release_action(old(self)@),
    {
        let engine = self.engine_held;
        let picture = self.picture_held;
        self.engine_held = false;
        self.picture_held = false;
        if engine || picture {
            self.stage = Stage::Releasing;
            Action::Release { engine, picture }
        } else {
            self.stage = Stage::Finished;
            Action::Finish
        }
    }

    fn abort(&mut self, err: EncodeError) -> (r: Action)
        ensures
            final(self)@ == aborted(old(self)@, err),
            r == release_action(old(self)@),
    {
        self.failure = Some(err);
        self.release()
    }

    /// Takes the outcome of the last action and returns the next one.
    pub fn step(&mut self, e: Event) -> (r: Action)
        requires
            inv(old(self)@),
            accepts(old(self)@, e),
        ensures
            transition(old(self)@, e, final(self)@, r),
            inv(final(self)@),
    {
        match (self.stage, e) {
            (Stage::Idle, _) => {
                self.stage = Stage::Presetting;
                Action::ApplyPreset { preset: self.params.preset(), tune: self.params.tune() }
            },
            (Stage::Presetting, Event::Applied { status }) => {
                if status == 0 {
                    self.stage = Stage::Configuring(0);
                    let (key, value) = override_at(0);
                    Action::ApplyOverride { key, value }
                } else {
                    let value = self.params.preset();
                    self.abort(EncodeError::ConfigurationRejected { key: "preset", value })
                }
            },
            (Stage::Configuring(i), Event::Applied { status }) => {
                if status != 0 {
                    let (key, value) = override_at(i);
                    self.abort(EncodeError::ConfigurationRejected { key, value })
                } else if i + 1 < N_OVERRIDES {
                    self.stage = Stage::Configuring(i + 1);
                    let (key, value) = override_at(i + 1);
                    Action::ApplyOverride { key, value }
                } else {
                    self.stage = Stage::Profiling;
                    Action::ApplyProfile { profile: self.params.profile() }
                }
            },
            (Stage::Profiling, Event::Applied { status }) => {
                if status == 0 {
                    self.stage = Stage::Allocating;
                    Action::AllocatePicture
                } else {
                    let value = self.params.profile();
                    self.abort(EncodeError::ConfigurationRejected { key: "profile", value })
                }
            },
            (Stage::Allocating, Event::PictureAllocated { status }) => {
                if status == 0 {
                    self.stage = Stage::Opening;
                    self.picture_held = true;
                    Action::OpenEngine
                } else {
                    self.abort(EncodeError::EngineOpenFailed)
                }
            },
            (Stage::Opening, Event::EngineOpened { opened, planes, stride_y, stride_u, stride_v }) => {
                if !opened {
                    self.abort(EncodeError::EngineOpenFailed)
                } else {
                    self.engine_held = true;
                    if check_layout(&self.params, planes, stride_y, stride_u, stride_v) {
                        self.stage = Stage::AwaitingFrame;
                        Action::NextFrame
                    } else {
                        self.abort(EncodeError::BufferLayoutMismatch)
                    }
                }
            },
            (Stage::AwaitingFrame, Event::Frame { luma, chroma_u, chroma_v }) => {
                if frame_fits(&self.params, luma, chroma_u, chroma_v) {
                    self.stage = Stage::ApplyingQuality;
                    Action::ApplyQuality { quality: self.quality }
                } else {
                    self.abort(EncodeError::FrameGeometryMismatch)
                }
            },
            (Stage::AwaitingFrame, _) => {
                self.stage = Stage::Querying;
                Action::QueryDelayed
            },
            (Stage::ApplyingQuality, Event::Applied { status }) => {
                if status == 0 {
                    self.stage = Stage::Submitting;
                    Action::EncodeFrame
                } else {
                    self.abort(EncodeError::QualityRejected { quality: self.quality })
                }
            },
            (Stage::Submitting, Event::Encoded { size, payload }) => {
                if size >= 0 {
                    self.output.append(payload.as_slice());
                    self.stage = Stage::AwaitingFrame;
                    Action::NextFrame
                } else {
                    self.abort(EncodeError::EncodeFailed { phase: Phase::Submit })
                }
            },
            (Stage::Querying, Event::Delayed { count }) => {
                if count > 0 {
                    self.stage = Stage::Draining;
                    Action::EncodeDrain
                } else {
                    self.drained = true;
                    self.release()
                }
            },
            (Stage::Draining, Event::Encoded { size, payload }) => {
                if size >= 0 {
                    self.output.append(payload.as_slice());
                    self.stage = Stage::Querying;
                    Action::QueryDelayed
                } else {
                    self.abort(EncodeError::EncodeFailed { phase: Phase::Flush })
                }
            },
            (Stage::Releasing, _) => {
                self.stage = Stage::Finished;
                Action::Finish
            },
            _ => Action::Finish,
        }
    }

    /// The outcome of a finished session: the collected stream, or the error
    /// that ended it.
    pub fn finish(self) -> (r: Result<Vec<u8>, EncodeError>)
        requires
            self@.stage is Finished,
        ensures
            match self@.failure {
                Some(err) => r == Err::<Vec<u8>, EncodeError>(err),
                None => r matches Ok(bytes) && bytes@ == self@.output,
            },
    {
        match self.failure {
            Some(err) => Err(err),
            None => Ok(self.output.into_bytes()),
        }
    }
}

/// Whether a picture buffer with `planes` planes and these strides fits the
/// geometry of `params`.
pub fn check_layout(params: &EncoderParameters, planes: i32, stride_y: i32, stride_u: i32, stride_v: i32) -> (r: bool)
    ensures
        r == layout_matches(*params, planes, stride_y, stride_u, stride_v),
{
    let w = params.width() as i64;
    planes == 3 && stride_y as i64 == w && stride_u as i64 == w / 2 && stride_v as i64 == w / 2
}

/// Whether planes of these lengths form a frame of the geometry of `params`.
pub fn frame_fits(params: &EncoderParameters, luma: usize, chroma_u: usize, chroma_v: usize) -> (r: bool)
    ensures
        r == frame_matches(*params, luma, chroma_u, chroma_v),
{
    let l = params.luma_size();
    let c = params.chroma_size();
    luma as u64 == l && chroma_u as u64 == c && chroma_v as u64 == c
}

} // verus!
