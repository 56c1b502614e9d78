use imager_h264::error::{EncodeError, Phase};
use imager_h264::frame::Frame;
use imager_h264::params::{EncoderParameters, Mode};
use imager_h264::session::{Action, Event, Session};

/// A scripted stand-in for the native engine, counting what it is asked to do.
struct ScriptedEngine {
    reject_key: Option<&'static str>,
    alloc_status: i32,
    open_ok: bool,
    planes: i32,
    strides: (i32, i32, i32),
    quality_status: i32,
    frames: Vec<Frame>,
    submit_units: Vec<(i32, Vec<u8>)>,
    drain_units: Vec<(i32, Vec<u8>)>,
    next_frame: usize,
    submitted: usize,
    drained: usize,
    engine_calls: usize,
    picture_allocs: usize,
    picture_releases: usize,
    engine_opens: usize,
    engine_releases: usize,
    stop_draining_after: Option<usize>,
}

impl ScriptedEngine {
    fn new(width: u32, frames: Vec<Frame>) -> ScriptedEngine {
        ScriptedEngine {
            reject_key: None,
            alloc_status: 0,
            open_ok: true,
            planes: 3,
            strides: (width as i32, (width / 2) as i32, (width / 2) as i32),
            quality_status: 0,
            frames,
            submit_units: Vec::new(),
            drain_units: Vec::new(),
            next_frame: 0,
            submitted: 0,
            drained: 0,
            engine_calls: 0,
            picture_allocs: 0,
            picture_releases: 0,
            engine_opens: 0,
            engine_releases: 0,
            stop_draining_after: None,
        }
    }

    fn status_for(&self, key: &str) -> i32 {
        if self.reject_key == Some(key) {
            -1
        } else {
            0
        }
    }

    fn encoded(unit: &(i32, Vec<u8>)) -> Event {
        Event::Encoded { size: unit.0, payload: unit.1.clone() }
    }

    /// Drives a session to its end; `None` when the driver stopped it before.
    fn drive(&mut self, mut session: Session) -> Option<Result<Vec<u8>, EncodeError>> {
        let mut event = Event::Start;
        loop {
            assert!(session.accepts(&event));
            let action = session.step(event);
            event = match action {
                Action::ApplyPreset { preset, .. } => Event::Applied { status: self.status_for(preset) },
                Action::ApplyOverride { key, .. } => Event::Applied { status: self.status_for(key) },
                Action::ApplyProfile { profile } => Event::Applied { status: self.status_for(profile) },
                Action::AllocatePicture => {
                    self.engine_calls += 1;
                    if self.alloc_status == 0 {
                        self.picture_allocs += 1;
                    }
                    Event::PictureAllocated { status: self.alloc_status }
                }
                Action::OpenEngine => {
                    self.engine_calls += 1;
                    if self.open_ok {
                        self.engine_opens += 1;
                    }
                    Event::EngineOpened {
                        opened: self.open_ok,
                        planes: self.planes,
                        stride_y: self.strides.0,
                        stride_u: self.strides.1,
                        stride_v: self.strides.2,
                    }
                }
                Action::NextFrame => {
                    if self.next_frame < self.frames.len() {
                        self.next_frame += 1;
                        self.frames[self.next_frame - 1].to_event()
                    } else {
                        Event::SourceExhausted
                    }
                }
                Action::ApplyQuality { .. } => Event::Applied { status: self.quality_status },
                Action::EncodeFrame => {
                    self.engine_calls += 1;
                    self.submitted += 1;
                    match self.submit_units.get(self.submitted - 1) {
                        Some(unit) => Self::encoded(unit),
                        None => Event::Encoded { size: 0, payload: Vec::new() },
                    }
                }
                Action::QueryDelayed => {
                    self.engine_calls += 1;
                    if let Some(limit) = self.stop_draining_after {
                        if self.drained == limit {
                            return None;
                        }
                    }
                    Event::Delayed { count: (self.drain_units.len() - self.drained) as i32 }
                }
                Action::EncodeDrain => {
                    self.engine_calls += 1;
                    self.drained += 1;
                    Self::encoded(&self.drain_units[self.drained - 1])
                }
                Action::Release { engine, picture } => {
                    if engine {
                        self.engine_releases += 1;
                    }
                    if picture {
                        self.picture_releases += 1;
                    }
                    Event::Released
                }
                Action::Finish => return Some(session.finish()),
            };
        }
    }
}

fn zero_frame(width: u32, height: u32) -> Frame {
    let luma = (width * height) as usize;
    Frame::new(width, height, vec![0u8; luma], vec![0u8; luma / 4], vec![0u8; luma / 4])
}

fn session(width: u32, height: u32) -> Session {
    let params = EncoderParameters::build(Mode::Quality, width, height).unwrap();
    Session::new(params, 36)
}

fn sps_unit() -> Vec<u8> {
    vec![0, 0, 0, 1, 0x67, 0x64, 0x00, 0x0a]
}

#[test]
fn two_zero_frames_encode_to_a_stream_starting_with_a_parameter_set() {
    let mut engine = ScriptedEngine::new(16, vec![zero_frame(16, 16), zero_frame(16, 16)]);
    engine.submit_units = vec![(8, sps_unit()), (0, Vec::new())];
    engine.drain_units = vec![(5, vec![0, 0, 1, 0x65, 0x88]), (4, vec![0, 0, 1, 0x41])];
    let outcome = engine.drive(session(16, 16));
    let bytes = outcome.unwrap().unwrap();
    assert!(!bytes.is_empty());
    assert_eq!(&bytes[0..5], &[0, 0, 0, 1, 0x67]);
    let mut expected = sps_unit();
    expected.extend_from_slice(&[0, 0, 1, 0x65, 0x88, 0, 0, 1, 0x41]);
    assert_eq!(bytes, expected);
    assert_eq!(engine.submitted, 2);
    assert_eq!(engine.drained, 2);
    assert_eq!(engine.picture_allocs, 1);
    assert_eq!(engine.picture_releases, 1);
    assert_eq!(engine.engine_opens, 1);
    assert_eq!(engine.engine_releases, 1);
}

#[test]
fn odd_width_fails_at_build_before_any_engine_call() {
    let result = EncoderParameters::build(Mode::Quality, 15, 16);
    assert_eq!(result, Err(EncodeError::InvalidDimensions { width: 15, height: 16 }));
}

#[test]
fn identical_runs_give_identical_bytes() {
    let run = || {
        let mut engine = ScriptedEngine::new(16, vec![zero_frame(16, 16), zero_frame(16, 16), zero_frame(16, 16)]);
        engine.submit_units = vec![(8, sps_unit()), (0, Vec::new()), (3, vec![1, 2, 3])];
        engine.drain_units = vec![(2, vec![4, 5])];
        engine.drive(session(16, 16)).unwrap().unwrap()
    };
    assert_eq!(run(), run());
}

#[test]
fn output_does_not_depend_on_which_step_emitted_a_unit() {
    let mut early = ScriptedEngine::new(16, vec![zero_frame(16, 16), zero_frame(16, 16)]);
    early.submit_units = vec![(3, vec![1, 2, 3]), (2, vec![4, 5])];
    let mut late = ScriptedEngine::new(16, vec![zero_frame(16, 16), zero_frame(16, 16)]);
    late.submit_units = vec![(0, Vec::new()), (0, Vec::new())];
    late.drain_units = vec![(3, vec![1, 2, 3]), (2, vec![4, 5])];
    let a = early.drive(session(16, 16)).unwrap().unwrap();
    let b = late.drive(session(16, 16)).unwrap().unwrap();
    assert_eq!(a, vec![1, 2, 3, 4, 5]);
    assert_eq!(a, b);
}

#[test]
fn stopping_the_drain_early_leaves_the_session_unfinished() {
    let mut engine = ScriptedEngine::new(16, vec![zero_frame(16, 16)]);
    engine.submit_units = vec![(3, vec![9, 9, 9])];
    engine.drain_units = vec![(2, vec![7, 7]), (1, vec![6])];
    engine.stop_draining_after = Some(1);
    let outcome = engine.drive(session(16, 16));
    assert!(outcome.is_none());

    let mut full = ScriptedEngine::new(16, vec![zero_frame(16, 16)]);
    full.submit_units = vec![(3, vec![9, 9, 9])];
    full.drain_units = vec![(2, vec![7, 7]), (1, vec![6])];
    let bytes = full.drive(session(16, 16)).unwrap().unwrap();
    assert_eq!(bytes, vec![9, 9, 9, 7, 7, 6]);
}

#[test]
fn session_is_not_finished_while_frames_are_delayed() {
    let mut s = session(16, 16);
    let mut event = Event::Start;
    let statuses = 1 + 16 + 1;
    for _ in 0..statuses {
        s.step(event);
        event = Event::Applied { status: 0 };
    }
    assert_eq!(s.step(event), Action::AllocatePicture);
    assert_eq!(s.step(Event::PictureAllocated { status: 0 }), Action::OpenEngine);
    let opened = Event::EngineOpened { opened: true, planes: 3, stride_y: 16, stride_u: 8, stride_v: 8 };
    assert_eq!(s.step(opened), Action::NextFrame);
    assert_eq!(s.step(Event::SourceExhausted), Action::QueryDelayed);
    assert_eq!(s.step(Event::Delayed { count: 2 }), Action::EncodeDrain);
    assert!(!s.accepts(&Event::Released));
    assert!(s.accepts(&Event::Encoded { size: 0, payload: Vec::new() }));
    assert_eq!(s.step(Event::Encoded { size: 1, payload: vec![5] }), Action::QueryDelayed);
    assert_eq!(s.step(Event::Delayed { count: 0 }), Action::Release { engine: true, picture: true });
    assert_eq!(s.step(Event::Released), Action::Finish);
    assert_eq!(s.finish(), Ok(vec![5]));
}

#[test]
fn rejected_override_fails_before_any_resource_is_held() {
    let mut engine = ScriptedEngine::new(16, vec![zero_frame(16, 16)]);
    engine.reject_key = Some("trellis");
    let outcome = engine.drive(session(16, 16));
    assert_eq!(outcome.unwrap(), Err(EncodeError::ConfigurationRejected { key: "trellis", value: "2" }));
    assert_eq!(engine.engine_calls, 0);
    assert_eq!(engine.picture_releases, 0);
    assert_eq!(engine.engine_releases, 0);
}

#[test]
fn rejected_preset_is_reported() {
    let mut engine = ScriptedEngine::new(16, Vec::new());
    engine.reject_key = Some("medium");
    let outcome = engine.drive(session(16, 16));
    assert_eq!(outcome.unwrap(), Err(EncodeError::ConfigurationRejected { key: "preset", value: "medium" }));
}

#[test]
fn rejected_profile_is_reported() {
    let mut engine = ScriptedEngine::new(16, Vec::new());
    engine.reject_key = Some("high");
    let outcome = engine.drive(session(16, 16));
    assert_eq!(outcome.unwrap(), Err(EncodeError::ConfigurationRejected { key: "profile", value: "high" }));
    assert_eq!(engine.engine_calls, 0);
}

#[test]
fn failed_allocation_releases_nothing() {
    let mut engine = ScriptedEngine::new(16, vec![zero_frame(16, 16)]);
    engine.alloc_status = -1;
    let outcome = engine.drive(session(16, 16));
    assert_eq!(outcome.unwrap(), Err(EncodeError::EngineOpenFailed));
    assert_eq!(engine.picture_releases, 0);
    assert_eq!(engine.engine_releases, 0);
}

#[test]
fn failed_open_releases_the_picture_once() {
    let mut engine = ScriptedEngine::new(16, vec![zero_frame(16, 16)]);
    engine.open_ok = false;
    let outcome = engine.drive(session(16, 16));
    assert_eq!(outcome.unwrap(), Err(EncodeError::EngineOpenFailed));
    assert_eq!(engine.picture_allocs, 1);
    assert_eq!(engine.picture_releases, 1);
    assert_eq!(engine.engine_releases, 0);
}

#[test]
fn layout_mismatch_aborts_before_any_frame() {
    let mut engine = ScriptedEngine::new(16, vec![zero_frame(16, 16)]);
    engine.strides = (16, 16, 8);
    let outcome = engine.drive(session(16, 16));
    assert_eq!(outcome.unwrap(), Err(EncodeError::BufferLayoutMismatch));
    assert_eq!(engine.next_frame, 0);
    assert_eq!(engine.submitted, 0);
    assert_eq!(engine.picture_releases, 1);
    assert_eq!(engine.engine_releases, 1);
}

#[test]
fn wrong_plane_count_aborts_before_any_frame() {
    let mut engine = ScriptedEngine::new(16, vec![zero_frame(16, 16)]);
    engine.planes = 2;
    let outcome = engine.drive(session(16, 16));
    assert_eq!(outcome.unwrap(), Err(EncodeError::BufferLayoutMismatch));
    assert_eq!(engine.submitted, 0);
}

#[test]
fn mismatched_frame_aborts_and_releases_once() {
    let mut engine = ScriptedEngine::new(16, vec![zero_frame(16, 16), zero_frame(16, 14)]);
    let outcome = engine.drive(session(16, 16));
    assert_eq!(outcome.unwrap(), Err(EncodeError::FrameGeometryMismatch));
    assert_eq!(engine.submitted, 1);
    assert_eq!(engine.picture_releases, 1);
    assert_eq!(engine.engine_releases, 1);
}

#[test]
fn rejected_quality_aborts_and_releases_once() {
    let mut engine = ScriptedEngine::new(16, vec![zero_frame(16, 16)]);
    engine.quality_status = -1;
    let outcome = engine.drive(session(16, 16));
    assert_eq!(outcome.unwrap(), Err(EncodeError::QualityRejected { quality: 36 }));
    assert_eq!(engine.picture_releases, 1);
    assert_eq!(engine.engine_releases, 1);
}

#[test]
fn failed_submit_aborts_and_releases_once() {
    let mut engine = ScriptedEngine::new(16, vec![zero_frame(16, 16), zero_frame(16, 16), zero_frame(16, 16)]);
    engine.submit_units = vec![(3, vec![1, 2, 3]), (-1, Vec::new())];
    let outcome = engine.drive(session(16, 16));
    assert_eq!(outcome.unwrap(), Err(EncodeError::EncodeFailed { phase: Phase::Submit }));
    assert_eq!(engine.submitted, 2);
    assert_eq!(engine.picture_releases, 1);
    assert_eq!(engine.engine_releases, 1);
}

#[test]
fn failed_flush_aborts_and_releases_once() {
    let mut engine = ScriptedEngine::new(16, vec![zero_frame(16, 16)]);
    engine.drain_units = vec![(2, vec![1, 2]), (-5, Vec::new())];
    let outcome = engine.drive(session(16, 16));
    assert_eq!(outcome.unwrap(), Err(EncodeError::EncodeFailed { phase: Phase::Flush }));
    assert_eq!(engine.picture_releases, 1);
    assert_eq!(engine.engine_releases, 1);
}

#[test]
fn empty_source_still_drains_and_closes() {
    let mut engine = ScriptedEngine::new(16, Vec::new());
    let outcome = engine.drive(session(16, 16));
    assert_eq!(outcome.unwrap(), Ok(Vec::new()));
    assert_eq!(engine.picture_releases, 1);
    assert_eq!(engine.engine_releases, 1);
}

#[test]
fn configuration_actions_follow_the_policy_order() {
    let mut s = session(16, 16);
    let first = s.step(Event::Start);
    assert_eq!(first, Action::ApplyPreset { preset: "medium", tune: "ssim" });
    let mut keys = Vec::new();
    loop {
        match s.step(Event::Applied { status: 0 }) {
            Action::ApplyOverride { key, value } => keys.push((key, value)),
            Action::ApplyProfile { profile } => {
                assert_eq!(profile, "high");
                break;
            }
            other => panic!("unexpected action {:?}", other),
        }
    }
    assert_eq!(keys.len(), 16);
    assert_eq!(keys[0], ("partitions", "all"));
    assert_eq!(keys[2], ("deblock", "0,0"));
    assert_eq!(keys[8], ("psy-rd", "2.0:0.7"));
    assert_eq!(keys[15], ("non-deterministic", "1"));
}

#[test]
fn quality_factor_is_set_on_every_frame() {
    let params = EncoderParameters::build(Mode::Speed, 4, 2).unwrap();
    let mut s = Session::new(params, 23);
    assert_eq!(s.step(Event::Start), Action::ApplyPreset { preset: "ultrafast", tune: "ssim" });
    for _ in 0..18 {
        s.step(Event::Applied { status: 0 });
    }
    s.step(Event::PictureAllocated { status: 0 });
    let opened = Event::EngineOpened { opened: true, planes: 3, stride_y: 4, stride_u: 2, stride_v: 2 };
    assert_eq!(s.step(opened), Action::NextFrame);
    let frame = zero_frame(4, 2);
    assert_eq!(s.step(frame.to_event()), Action::ApplyQuality { quality: 23 });
    assert_eq!(s.step(Event::Applied { status: 0 }), Action::EncodeFrame);
    assert_eq!(s.step(Event::Encoded { size: 2, payload: vec![1, 1] }), Action::NextFrame);
    assert_eq!(s.step(frame.to_event()), Action::ApplyQuality { quality: 23 });
}
