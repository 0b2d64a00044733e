//! The enrollment flow.
//!
//! Each attempt captures one frame and assesses its brightness. A frame
//! below the mode's minimum consumes the attempt; the first frame at or
//! above it is handed to the extractor, and its embedding becomes the
//! reference. An extractor failure consumes the attempt too. When the
//! budget is spent, the run fails with the last failure of the extractor
//! where every attempt failed there, and otherwise with the brightness of
//! the last frame and the minimum it had to reach.
use vstd::prelude::*;
use crate::config::{Detection, Modes};
use crate::error::{DeviceError, EnrollmentError, ExtractionError};
use crate::illumination::{assess_brightness, is_bright_enough, Brightness, Frame};
use crate::similarity::Embedding;
use crate::store::ReferenceStore;

verus! {

/// What the enrollment flow receives.
#[derive(Debug)]
pub enum EnrollEvent {
    /// A frame was captured.
    Frame(Frame),
    /// The extractor embedded the frame bright enough to keep.
    Embedded(Embedding),
    /// The extractor failed on the frame bright enough to keep.
    ExtractionFailed(ExtractionError),
    /// The device delivered no frame.
    DeviceFailed(DeviceError),
}

/// Where an enrollment run stands.
#[derive(Debug)]
pub struct EnrollState {
    /// Frames captured so far.
    pub attempts: u32,
    /// The last frame was bright enough and its embedding is awaited.
    pub awaiting_embedding: bool,
    /// Every attempt so far reached the extractor and failed there.
    pub only_extraction_failures: bool,
    /// The brightness of the last frame; that of no samples before the first.
    pub last_brightness: Brightness,
    pub outcome: Option<Result<Embedding, EnrollmentError>>,
}

/// The state a run starts in. A budget of zero fails before any capture.
pub open spec fn enroll_initial(min_brightness: u32, limit: u32) -> EnrollState {
    let none = Brightness::of(Seq::empty());
    EnrollState {
        attempts: 0,
        awaiting_embedding: false,
        only_extraction_failures: true,
        last_brightness: none,
        outcome: if limit == 0 {
            Some(
                Err(
                    EnrollmentError::Failed {
                        last_brightness: none,
                        required_brightness: min_brightness,
                    },
                ),
            )
        } else {
            None
        },
    }
}

/// The state after one more event. A frame or a device failure is taken
/// only while no embedding is awaited, and an embedding or an extractor
/// failure only while one is; any other event leaves the state as it is.
pub open spec fn enroll_next(
    min_brightness: u32,
    limit: u32,
    s: EnrollState,
    event: EnrollEvent,
) -> EnrollState {
    match event {
        EnrollEvent::Frame(f) => if s.awaiting_embedding {
            s
        } else {
            let attempts = (s.attempts + 1) as u32;
            let b = Brightness::of(f.pixels@);
            if b.at_least(min_brightness as int) {
                EnrollState {
                    attempts,
                    awaiting_embedding: true,
                    only_extraction_failures: s.only_extraction_failures,
                    last_brightness: b,
                    outcome: None,
                }
            } else {
                EnrollState {
                    attempts,
                    awaiting_embedding: false,
                    only_extraction_failures: false,
                    last_brightness: b,
                    outcome: if attempts >= limit {
                        Some(
                            Err(
                                EnrollmentError::Failed {
                                    last_brightness: b,
                                    required_brightness: min_brightness,
                                },
                            ),
                        )
                    } else {
                        None
                    },
                }
            }
        },
        EnrollEvent::DeviceFailed(e) => if s.awaiting_embedding {
            s
        } else {
            EnrollState {
                attempts: s.attempts,
                awaiting_embedding: false,
                only_extraction_failures: s.only_extraction_failures,
                last_brightness: s.last_brightness,
                outcome: Some(Err(EnrollmentError::Device(e))),
            }
        },
        EnrollEvent::Embedded(e) => if !s.awaiting_embedding {
            s
        } else {
            EnrollState {
                attempts: s.attempts,
                awaiting_embedding: false,
                only_extraction_failures: s.only_extraction_failures,
                last_brightness: s.last_brightness,
                outcome: Some(Ok(e)),
            }
        },
        EnrollEvent::ExtractionFailed(err) => if !s.awaiting_embedding {
            s
        } else {
            EnrollState {
                attempts: s.attempts,
                awaiting_embedding: false,
                only_extraction_failures: s.only_extraction_failures,
                last_brightness: s.last_brightness,
                outcome: if s.attempts >= limit {
                    if s.only_extraction_failures {
                        Some(Err(EnrollmentError::Extraction(err)))
                    } else {
                        Some(
                            Err(
                                EnrollmentError::Failed {
                                    last_brightness: s.last_brightness,
                                    required_brightness: min_brightness,
                                },
                            ),
                        )
                    }
                } else {
                    None
                },
            }
        },
    }
}

/// Feeds `events` to a run in state `s` until it has an outcome or the
/// events run out: the final state and how many events it took.
pub open spec fn enroll_run(
    min_brightness: u32,
    limit: u32,
    s: EnrollState,
    events: Seq<EnrollEvent>,
) -> (EnrollState, nat)
    decreases events.len(),
{
    if s.outcome is Some || events.len() == 0 {
        (s, 0)
    } else {
        let (t, used) = enroll_run(
            min_brightness,
            limit,
            enroll_next(min_brightness, limit, s, events[0]),
            events.subrange(1, events.len() as int),
        );
        (t, used + 1)
    }
}

/// One enrollment run for one mode.
#[derive(Debug)]
pub struct EnrollSession {
    min_brightness: u32,
    limit: u32,
    state: EnrollState,
}

impl EnrollSession {
    #[verifier::type_invariant]
    spec fn inv(&self) -> bool {
        &&& self.state.attempts <= self.limit
        &&& self.state.outcome is None && !self.state.awaiting_embedding ==> self.state.attempts
            < self.limit
        &&& self.state.awaiting_embedding ==> self.state.outcome is None
    }

    /// The minimum brightness a frame must reach.
    pub closed spec fn min_brightness_spec(&self) -> u32 {
        self.min_brightness
    }

    /// The attempt budget.
    pub closed spec fn limit_spec(&self) -> u32 {
        self.limit
    }

    /// Where the run stands.
    pub closed spec fn state_spec(&self) -> EnrollState {
        self.state
    }

    /// Starts a run for `mode` with that mode's minimum brightness and the
    /// configured attempt budget.
    pub fn start(detection: &Detection, mode: Modes) -> (r: EnrollSession)
        ensures
            r.min_brightness_spec() == detection.thresholds_spec(mode).min_brightness,
            r.limit_spec() == detection.retries,
            r.state_spec() == enroll_initial(r.min_brightness_spec(), r.limit_spec()),
    {
        let th = detection.thresholds(mode);
        let outcome = if th.max_attempts == 0 {
            Some(
                Err(
                    EnrollmentError::Failed {
                        last_brightness: Brightness::zero(),
                        required_brightness: th.min_brightness,
                    },
                ),
            )
        } else {
            None
        };
        EnrollSession {
            min_brightness: th.min_brightness,
            limit: th.max_attempts,
            state: EnrollState {
                attempts: 0,
                awaiting_embedding: false,
                only_extraction_failures: true,
                last_brightness: Brightness::zero(),
                outcome,
            },
        }
    }

    /// Whether the run has an outcome.
    pub fn is_finished(&self) -> (r: bool)
        ensures
            r == self.state_spec().outcome is Some,
    {
        self.state.outcome.is_some()
    }

    /// Whether the run waits for the embedding of the frame that was bright
    /// enough, rather than for another frame.
    pub fn wants_embedding(&self) -> (r: bool)
        ensures
            r == self.state_spec().awaiting_embedding,
    {
        self.state.awaiting_embedding
    }

    /// The frames captured so far.
    pub fn attempts(&self) -> (r: u32)
        ensures
            r == self.state_spec().attempts,
    {
        self.state.attempts
    }

    /// Applies the flow to one more event.
    pub fn record(&mut self, event: EnrollEvent)
        requires
            old(self).state_spec().outcome is None,
        ensures
            final(self).min_brightness_spec() == old(self).min_brightness_spec(),
            final(self).limit_spec() == old(self).limit_spec(),
            final(self).state_spec() == enroll_next(
                old(self).min_brightness_spec(),
                old(self).limit_spec(),
                old(self).state_spec(),
                event,
            ),
    {
        proof {
            use_type_invariant(&*self);
        }
        let awaiting = self.state.awaiting_embedding;
        let only = self.state.only_extraction_failures;
        match event {
            EnrollEvent::Frame(f) => {
                if awaiting {
                    return ;
                }
                let attempts = self.state.attempts + 1;
                let b = assess_brightness(&f);
                if is_bright_enough(&b, self.min_brightness) {
                    self.state = EnrollState {
                        attempts,
                        awaiting_embedding: true,
                        only_extraction_failures: only,
                        last_brightness: b,
                        outcome: None,
                    };
                } else {
                    let outcome = if attempts >= self.limit {
                        Some(
                            Err(
                                EnrollmentError::Failed {
                                    last_brightness: b.duplicate(),
                                    required_brightness: self.min_brightness,
                                },
                            ),
                        )
                    } else {
                        None
                    };
                    self.state = EnrollState {
                        attempts,
                        awaiting_embedding: false,
                        only_extraction_failures: false,
                        last_brightness: b,
                        outcome,
                    };
                }
            },
            EnrollEvent::DeviceFailed(e) => {
                if awaiting {
                    return ;
                }
                let last = self.state.last_brightness.duplicate();
                self.state = EnrollState {
                    attempts: self.state.attempts,
                    awaiting_embedding: false,
                    only_extraction_failures: only,
                    last_brightness: last,
                    outcome: Some(Err(EnrollmentError::Device(e))),
                };
            },
            EnrollEvent::Embedded(e) => {
                if !awaiting {
                    return ;
                }
                let last = self.state.last_brightness.duplicate();
                self.state = EnrollState {
                    attempts: self.state.attempts,
                    awaiting_embedding: false,
                    only_extraction_failures: only,
                    last_brightness: last,
                    outcome: Some(Ok(e)),
                };
            },
            EnrollEvent::ExtractionFailed(err) => {
                if !awaiting {
                    return ;
                }
                let last = self.state.last_brightness.duplicate();
                let outcome = if self.state.attempts >= self.limit {
                    if only {
                        Some(Err(EnrollmentError::Extraction(err)))
                    } else {
                        Some(
                            Err(
                                EnrollmentError::Failed {
                                    last_brightness: self.state.last_brightness.duplicate(),
                                    required_brightness: self.min_brightness,
                                },
                            ),
                        )
                    }
                } else {
                    None
                };
                self.state = EnrollState {
                    attempts: self.state.attempts,
                    awaiting_embedding: false,
                    only_extraction_failures: only,
                    last_brightness: last,
                    outcome,
                };
            },
        }
    }

    /// The outcome of a finished run.
    pub fn into_outcome(self) -> (r: Option<Result<Embedding, EnrollmentError>>)
        ensures
            r == self.state_spec().outcome,
    {
        self.state.outcome
    }
}

/// Enrolls `identity` in `mode` with `events` standing in for the capture
/// device and the extractor. On success the embedding is stored as the
/// reference of `(identity, mode)`, replacing any earlier one; otherwise
/// the store is left as it was. Returns the outcome, `None` where the
/// events ran out first, and how many events were taken.
pub fn enroll_scripted(
    store: &mut ReferenceStore,
    identity: &str,
    detection: &Detection,
    mode: Modes,
    events: Vec<EnrollEvent>,
) -> (r: (Option<Result<(), EnrollmentError>>, usize))
    ensures
        ({
            let th = detection.thresholds_spec(mode);
            let (s, used) = enroll_run(
                th.min_brightness,
                detection.retries,
                enroll_initial(th.min_brightness, detection.retries),
                events@,
            );
            &&& r.1 == used
            &&& s.outcome matches Some(Ok(e)) ==> r.0 == Some(Ok::<(), EnrollmentError>(()))
                && final(store)@ == old(store)@.insert((identity@, mode), e@)
            &&& s.outcome matches Some(Err(err)) ==> r.0 == Some(Err::<(), EnrollmentError>(err))
                && final(store)@ == old(store)@
            &&& s.outcome is None ==> r.0 is None && final(store)@ == old(store)@
        }),
{
    let mut session = EnrollSession::start(detection, mode);
    let ghost min_b = session.min_brightness_spec();
    let ghost limit = session.limit_spec();
    let ghost total = enroll_run(min_b, limit, session.state_spec(), events@);
    let ghost all = events@;
    let n = events.len();
    let mut rest = events;
    let mut used: usize = 0;
    while !session.is_finished() && rest.len() > 0
        invariant
            session.min_brightness_spec() == min_b,
            session.limit_spec() == limit,
            n == all.len(),
            used <= n,
            rest@ == all.subrange(used as int, all.len() as int),
            enroll_run(min_b, limit, session.state_spec(), rest@).0 == total.0,
            enroll_run(min_b, limit, session.state_spec(), rest@).1 + used == total.1,
        decreases rest@.len(),
    {
        let ghost before = rest@;
        let event = rest.remove(0);
        assert(rest@ =~= before.subrange(1, before.len() as int));
        assert(rest@ =~= all.subrange(used + 1, all.len() as int));
        session.record(event);
        used = used + 1;
    }
    match session.into_outcome() {
        Some(Ok(e)) => {
            store.save(identity, mode, e);
            (Some(Ok(())), used)
        },
        Some(Err(err)) => (Some(Err(err)), used),
        None => (None, used),
    }
}

} // verus!
