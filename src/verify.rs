//! The verification decision engine.
//!
//! One attempt is one captured frame: its brightness is assessed, the
//! extractor's embedding of it is scored against the reference, and the
//! attempt matches when the frame is bright enough and the similarity is
//! finite and strictly above the threshold. A session asks for attempts
//! until one matches, the device fails, or, in a bounded session, the
//! attempt budget is spent; an interactive session has no budget and ends
//! on a match, a device failure or a cancel.
use vstd::prelude::*;
use crate::config::{Config, Thresholds};
use crate::error::{DeviceError, ExtractionError, VerifyError};
use crate::illumination::{
    assess_brightness, bright_enough_spec, is_bright_enough, sample_sum, Brightness, Frame,
};
use crate::similarity::{cosine_similarity, dot, exceeds_spec, DimensionMismatch, Embedding, Similarity};
use crate::store::{RecordKey, ReferenceStore};

verus! {

/// Whether `frame` is bright enough for `min_brightness`.
pub open spec fn brightness_ok_spec(frame: Frame, min_brightness: int) -> bool {
    bright_enough_spec(
        sample_sum(frame.pixels@, frame.pixels@.len()),
        frame.pixels@.len() as int,
        min_brightness,
    )
}

/// Whether `probe` is a finite similarity strictly above `min_similarity`
/// from `reference`.
pub open spec fn similarity_ok_spec(reference: Seq<i16>, probe: Seq<i16>, min_similarity: int) -> bool {
    exceeds_spec(dot(reference, probe), dot(reference, reference), dot(probe, probe), min_similarity)
}

/// What the engine receives for one attempt.
#[derive(Debug)]
pub enum Attempt {
    /// A frame was captured and the extractor embedded it.
    Scored { frame: Frame, probe: Embedding },
    /// A frame was captured but the extractor failed on it.
    ExtractionFailed { frame: Frame, error: ExtractionError },
    /// The device delivered no frame.
    DeviceFailed(DeviceError),
}

/// The per-frame outcome of one scored attempt.
#[derive(Debug)]
pub struct AttemptJudgment {
    pub brightness: Brightness,
    pub similarity: Similarity,
    pub brightness_ok: bool,
    pub similarity_ok: bool,
}

/// How a judgment reads to an operator watching the preview.
#[derive(Debug, Clone, Copy, PartialEq, Eq, Structural)]
pub enum FrameVerdict {
    TooDark,
    Matches,
    NoMatch,
}

impl AttemptJudgment {
    /// Whether `self` is the judgment of `frame` and `probe` against
    /// `reference` under `th`.
    pub open spec fn judges(
        &self,
        frame: Frame,
        probe: Seq<i16>,
        reference: Seq<i16>,
        th: Thresholds,
    ) -> bool {
        &&& self.brightness.sum_spec() == sample_sum(frame.pixels@, frame.pixels@.len())
        &&& self.brightness.count_spec() == frame.pixels@.len()
        &&& self.similarity.dot_spec() == dot(reference, probe)
        &&& self.similarity.norm_sq_a_spec() == dot(reference, reference)
        &&& self.similarity.norm_sq_b_spec() == dot(probe, probe)
        &&& self.brightness_ok == brightness_ok_spec(frame, th.min_brightness as int)
        &&& self.similarity_ok == similarity_ok_spec(reference, probe, th.min_similarity as int)
    }

    /// Both conditions hold: the attempt is a match.
    pub fn matched(&self) -> (r: bool)
        ensures
            r == (self.brightness_ok && self.similarity_ok),
    {
        self.brightness_ok && self.similarity_ok
    }

    /// A dark frame reads as too dark whatever its similarity; otherwise the
    /// similarity decides.
    pub fn verdict(&self) -> (r: FrameVerdict)
        ensures
            !self.brightness_ok ==> r == FrameVerdict::TooDark,
            self.brightness_ok && self.similarity_ok ==> r == FrameVerdict::Matches,
            self.brightness_ok && !self.similarity_ok ==> r == FrameVerdict::NoMatch,
    {
        if !self.brightness_ok {
            FrameVerdict::TooDark
        } else if self.similarity_ok {
            FrameVerdict::Matches
        } else {
            FrameVerdict::NoMatch
        }
    }
}

/// Judges one frame and its embedding against `reference`. Both checks
/// are made on every frame; neither short-circuits the other.
pub fn judge_attempt(
    frame: &Frame,
    probe: &Embedding,
    reference: &Embedding,
    th: &Thresholds,
) -> (r: Result<AttemptJudgment, DimensionMismatch>)
    ensures
        r is Err <==> probe@.len() != reference@.len(),
        r matches Err(e) ==> e.left == reference@.len() && e.right == probe@.len(),
        r matches Ok(j) ==> j.judges(*frame, probe@, reference@, *th),
{
    let brightness = assess_brightness(frame);
    let brightness_ok = is_bright_enough(&brightness, th.min_brightness);
    match cosine_similarity(reference, probe) {
        Err(e) => Err(e),
        Ok(similarity) => {
            let similarity_ok = similarity.exceeds(th.min_similarity);
            Ok(AttemptJudgment { brightness, similarity, brightness_ok, similarity_ok })
        },
    }
}

/// Where a run stands: the attempts a bounded run has used, whether every
/// one of them failed in the extractor, and the outcome once there is one.
#[derive(Debug)]
pub struct RunState {
    pub attempts: u32,
    pub only_extraction_failures: bool,
    pub outcome: Option<Result<bool, VerifyError>>,
}

/// The state a run starts in. A budget of zero ends it before any capture.
pub open spec fn initial_state(limit: Option<u32>) -> RunState {
    RunState {
        attempts: 0,
        only_extraction_failures: true,
        outcome: if limit == Some(0u32) {
            Some(Ok(false))
        } else {
            None
        },
    }
}

/// The state after one more attempt.
pub open spec fn next_state(
    reference: Seq<i16>,
    th: Thresholds,
    limit: Option<u32>,
    s: RunState,
    attempt: Attempt,
) -> RunState {
    let attempts: u32 = if limit is Some {
        (s.attempts + 1) as u32
    } else {
        s.attempts
    };
    let exhausted = limit matches Some(n) && attempts >= n;
    let only = s.only_extraction_failures && attempt is ExtractionFailed;
    let outcome = match attempt {
        Attempt::DeviceFailed(e) => Some(Err(VerifyError::Device(e))),
        Attempt::ExtractionFailed { frame, error } => if exhausted {
            if only {
                Some(Err(VerifyError::Extraction(error)))
            } else {
                Some(Ok(false))
            }
        } else {
            None
        },
        Attempt::Scored { frame, probe } => if probe@.len() != reference.len() {
            Some(
                Err(
                    VerifyError::Dimension(
                        DimensionMismatch {
                            left: reference.len() as usize,
                            right: probe@.len() as usize,
                        },
                    ),
                ),
            )
        } else if brightness_ok_spec(frame, th.min_brightness as int) && similarity_ok_spec(
            reference,
            probe@,
            th.min_similarity as int,
        ) {
            Some(Ok(true))
        } else if exhausted {
            Some(Ok(false))
        } else {
            None
        },
    };
    RunState { attempts, only_extraction_failures: only, outcome }
}

/// Feeds `attempts` to a run in state `s` until it has an outcome or the
/// attempts run out: the final state and how many attempts it took.
pub open spec fn run(
    reference: Seq<i16>,
    th: Thresholds,
    limit: Option<u32>,
    s: RunState,
    attempts: Seq<Attempt>,
) -> (RunState, nat)
    decreases attempts.len(),
{
    if s.outcome is Some || attempts.len() == 0 {
        (s, 0)
    } else {
        let (t, used) = run(
            reference,
            th,
            limit,
            next_state(reference, th, limit, s, attempts[0]),
            attempts.subrange(1, attempts.len() as int),
        );
        (t, used + 1)
    }
}

/// A run of the engine against one reference.
#[derive(Debug)]
pub struct VerifySession {
    reference: Embedding,
    thresholds: Thresholds,
    limit: Option<u32>,
    state: RunState,
}

/// Whether a state agrees with its budget: a bounded run never passes it
/// and has an outcome once it reaches it; an unbounded one counts nothing.
pub open spec fn within_budget(limit: Option<u32>, s: RunState) -> bool {
    match limit {
        Some(n) => s.attempts <= n && (s.outcome is None ==> s.attempts < n),
        None => s.attempts == 0,
    }
}

impl VerifySession {
    #[verifier::type_invariant]
    spec fn inv(&self) -> bool {
        within_budget(self.limit, self.state)
    }

    /// The reference the session scores against.
    pub closed spec fn reference_spec(&self) -> Seq<i16> {
        self.reference@
    }

    /// The thresholds the session applies.
    pub closed spec fn thresholds_spec(&self) -> Thresholds {
        self.thresholds
    }

    /// The attempt budget; `None` for an interactive session.
    pub closed spec fn limit_spec(&self) -> Option<u32> {
        self.limit
    }

    /// Where the run stands.
    pub closed spec fn state_spec(&self) -> RunState {
        self.state
    }

    fn open(reference: &Embedding, thresholds: Thresholds, limit: Option<u32>) -> (r: VerifySession)
        ensures
            r.reference_spec() == reference@,
            r.thresholds_spec() == thresholds,
            r.limit_spec() == limit,
            r.state_spec() == initial_state(limit),
    {
        let outcome = match limit {
            Some(n) => if n == 0 {
                Some(Ok(false))
            } else {
                None
            },
            None => None,
        };
        VerifySession {
            reference: reference.duplicate(),
            thresholds,
            limit,
            state: RunState { attempts: 0, only_extraction_failures: true, outcome },
        }
    }

    /// Starts a bounded run for `identity` in the configured mode, with the
    /// configured thresholds and attempt budget. Fails with `NotEnrolled`,
    /// before any capture, where the store has no reference for them.
    pub fn start(store: &ReferenceStore, identity: &str, config: &Config) -> (r: Result<
        VerifySession,
        VerifyError,
    >)
        ensures
            r is Err <==> !store@.contains_key((identity@, config.video.mode)),
            r matches Err(e) ==> e is NotEnrolled,
            r matches Ok(s) ==> {
                let th = config.detection.thresholds_spec(config.video.mode);
                &&& s.reference_spec() == store@[(identity@, config.video.mode)]
                &&& s.thresholds_spec() == th
                &&& s.limit_spec() == Some(th.max_attempts)
                &&& s.state_spec() == initial_state(Some(th.max_attempts))
            },
    {
        match store.load(identity, config.video.mode) {
            Err(_) => Err(VerifyError::NotEnrolled),
            Ok(reference) => {
                let th = config.active_thresholds();
                Ok(VerifySession::open(reference, th, Some(th.max_attempts)))
            },
        }
    }

    /// Starts an interactive run: no budget, same judgment per attempt.
    pub fn start_interactive(store: &ReferenceStore, identity: &str, config: &Config) -> (r: Result<
        VerifySession,
        VerifyError,
    >)
        ensures
            r is Err <==> !store@.contains_key((identity@, config.video.mode)),
            r matches Err(e) ==> e is NotEnrolled,
            r matches Ok(s) ==> {
                &&& s.reference_spec() == store@[(identity@, config.video.mode)]
                &&& s.thresholds_spec() == config.detection.thresholds_spec(config.video.mode)
                &&& s.limit_spec() is None
                &&& s.state_spec() == initial_state(None)
            },
    {
        match store.load(identity, config.video.mode) {
            Err(_) => Err(VerifyError::NotEnrolled),
            Ok(reference) => Ok(VerifySession::open(reference, config.active_thresholds(), None)),
        }
    }

    /// Whether the run has an outcome; until then it wants another attempt.
    pub fn is_finished(&self) -> (r: bool)
        ensures
            r == self.state_spec().outcome is Some,
    {
        self.state.outcome.is_some()
    }

    /// Whether the session has no attempt budget.
    pub fn is_interactive(&self) -> (r: bool)
        ensures
            r == self.limit_spec() is None,
    {
        self.limit.is_none()
    }

    /// The attempts a bounded run has used so far.
    pub fn attempts(&self) -> (r: u32)
        ensures
            r == self.state_spec().attempts,
    {
        self.state.attempts
    }

    /// Applies the policy to one more attempt. Returns the judgment of a
    /// scored attempt whose probe has the reference's dimensionality.
    pub fn record(&mut self, attempt: Attempt) -> (r: Option<AttemptJudgment>)
        requires
            old(self).state_spec().outcome is None,
        ensures
            final(self).reference_spec() == old(self).reference_spec(),
            final(self).thresholds_spec() == old(self).thresholds_spec(),
            final(self).limit_spec() == old(self).limit_spec(),
            final(self).state_spec() == next_state(
                old(self).reference_spec(),
                old(self).thresholds_spec(),
                old(self).limit_spec(),
                old(self).state_spec(),
                attempt,
            ),
            r is Some <==> (attempt matches Attempt::Scored { probe, .. } && probe@.len()
                == old(self).reference_spec().len()),
            r matches Some(j) ==> (attempt matches Attempt::Scored { frame, probe } && j.judges(
                frame,
                probe@,
                old(self).reference_spec(),
                old(self).thresholds_spec(),
            )),
    {
        proof {
            use_type_invariant(&*self);
        }
        let attempts: u32 = match self.limit {
            Some(_) => self.state.attempts + 1,
            None => self.state.attempts,
        };
        let exhausted = match self.limit {
            Some(n) => attempts >= n,
            None => false,
        };
        let failed_extraction = match &attempt {
            Attempt::ExtractionFailed { .. } => true,
            _ => false,
        };
        let only = self.state.only_extraction_failures && failed_extraction;
        let ghost old_attempt = attempt;
        let (outcome, judgment) = match attempt {
            Attempt::DeviceFailed(e) => (Some(Err(VerifyError::Device(e))), None),
            Attempt::ExtractionFailed { frame, error } => {
                if exhausted {
                    if only {
                        (Some(Err(VerifyError::Extraction(error))), None)
                    } else {
                        (Some(Ok(false)), None)
                    }
                } else {
                    (None, None)
                }
            },
            Attempt::Scored { frame, probe } => {
                match judge_attempt(&frame, &probe, &self.reference, &self.thresholds) {
                    Err(e) => (Some(Err(VerifyError::Dimension(e))), None),
                    Ok(j) => {
                        if j.matched() {
                            (Some(Ok(true)), Some(j))
                        } else if exhausted {
                            (Some(Ok(false)), Some(j))
                        } else {
                            (None, Some(j))
                        }
                    },
                }
            },
        };
        self.state = RunState { attempts, only_extraction_failures: only, outcome };
        judgment
    }

    /// Ends an interactive run at the operator's request, without a match.
    pub fn cancel(&mut self)
        requires
            old(self).limit_spec() is None,
            old(self).state_spec().outcome is None,
        ensures
            final(self).state_spec().outcome == Some(Ok::<bool, VerifyError>(false)),
            final(self).state_spec().attempts == old(self).state_spec().attempts,
            final(self).reference_spec() == old(self).reference_spec(),
            final(self).limit_spec() == old(self).limit_spec(),
    {
        proof {
            use_type_invariant(&*self);
        }
        let only = self.state.only_extraction_failures;
        self.state = RunState {
            attempts: self.state.attempts,
            only_extraction_failures: only,
            outcome: Some(Ok(false)),
        };
    }

    /// The outcome of a finished run.
    pub fn into_outcome(self) -> (r: Option<Result<bool, VerifyError>>)
        ensures
            r == self.state_spec().outcome,
    {
        self.state.outcome
    }
}

/// What verifying `identity` against a store with view `store` gives when
/// the frame source delivers `attempts` in order: the outcome, `None` where
/// the attempts ran out first, and how many attempts were taken. Without a
/// reference the answer is `NotEnrolled` and no attempt is taken.
pub open spec fn verify_spec(
    store: Map<RecordKey, Seq<i16>>,
    identity: Seq<char>,
    config: Config,
    attempts: Seq<Attempt>,
) -> (Option<Result<bool, VerifyError>>, nat) {
    let key = (identity, config.video.mode);
    if !store.contains_key(key) {
        (Some(Err(VerifyError::NotEnrolled)), 0)
    } else {
        let th = config.detection.thresholds_spec(config.video.mode);
        let limit = Some(th.max_attempts);
        let (s, used) = run(store[key], th, limit, initial_state(limit), attempts);
        (s.outcome, used)
    }
}

/// Verifies `identity` with `attempts` standing in for the frame source:
/// the bounded run of `VerifySession::start`, fed one attempt at a time.
/// Returns the outcome, `None` where the attempts ran out first, and how
/// many attempts were taken.
pub fn verify_scripted(
    store: &ReferenceStore,
    identity: &str,
    config: &Config,
    attempts: Vec<Attempt>,
) -> (r: (Option<Result<bool, VerifyError>>, usize))
    ensures
        (r.0, r.1 as nat) == verify_spec(store@, identity@, *config, attempts@),
{
    let mut session = match VerifySession::start(store, identity, config) {
        Err(e) => {
            return (Some(Err(e)), 0);
        },
        Ok(s) => s,
    };
    let ghost reference = session.reference_spec();
    let ghost th = session.thresholds_spec();
    let ghost limit = session.limit_spec();
    let ghost total = run(reference, th, limit, session.state_spec(), attempts@);
    let ghost all = attempts@;
    let n = attempts.len();
    let mut rest = attempts;
    let mut used: usize = 0;
    while !session.is_finished() && rest.len() > 0
        invariant
            session.reference_spec() == reference,
            session.thresholds_spec() == th,
            session.limit_spec() == limit,
            n == all.len(),
            used <= n,
            rest@ == all.subrange(used as int, all.len() as int),
            run(reference, th, limit, session.state_spec(), rest@).0 == total.0,
            run(reference, th, limit, session.state_spec(), rest@).1 + used == total.1,
        decreases rest@.len(),
    {
        let ghost before = rest@;
        let attempt = rest.remove(0);
        assert(rest@ =~= before.subrange(1, before.len() as int));
        assert(rest@ =~= all.subrange(used + 1, all.len() as int));
        session.record(attempt);
        used = used + 1;
    }
    (session.into_outcome(), used)
}

proof fn lemma_run_within_budget(
    reference: Seq<i16>,
    th: Thresholds,
    n: u32,
    s: RunState,
    attempts: Seq<Attempt>,
)
    requires
        within_budget(Some(n), s),
    ensures
        s.attempts + run(reference, th, Some(n), s, attempts).1 <= n,
    decreases attempts.len(),
{
    if s.outcome is None && attempts.len() > 0 {
        let t = next_state(reference, th, Some(n), s, attempts[0]);
        lemma_run_within_budget(reference, th, n, t, attempts.subrange(1, attempts.len() as int));
    }
}

/// A bounded verification never takes more attempts, and so never makes
/// more captures, than the configured budget, whatever the frames show.
pub proof fn lemma_attempt_bound(
    store: Map<RecordKey, Seq<i16>>,
    identity: Seq<char>,
    config: Config,
    attempts: Seq<Attempt>,
)
    ensures
        verify_spec(store, identity, config, attempts).1 <= config.detection.retries,
{
    let key = (identity, config.video.mode);
    if store.contains_key(key) {
        let th = config.detection.thresholds_spec(config.video.mode);
        lemma_run_within_budget(
            store[key],
            th,
            th.max_attempts,
            initial_state(Some(th.max_attempts)),
            attempts,
        );
    }
}

/// Verifying an identity with no reference in the active mode answers
/// `NotEnrolled` and takes no attempt, whatever the frame source holds.
pub proof fn lemma_not_enrolled_short_circuit(
    store: Map<RecordKey, Seq<i16>>,
    identity: Seq<char>,
    config: Config,
    attempts: Seq<Attempt>,
)
    requires
        !store.contains_key((identity, config.video.mode)),
    ensures
        verify_spec(store, identity, config, attempts).0 == Some(
            Err::<bool, VerifyError>(VerifyError::NotEnrolled),
        ),
        verify_spec(store, identity, config, attempts).1 == 0,
{
}

/// Storing a second reference for the same identity and mode replaces the
/// first: the store is as if only the second had been stored, and a later
/// verification scores against the second alone.
pub proof fn lemma_reenrollment_replaces(
    store: Map<RecordKey, Seq<i16>>,
    identity: Seq<char>,
    config: Config,
    first: Seq<i16>,
    second: Seq<i16>,
    attempts: Seq<Attempt>,
)
    ensures
        ({
            let key = (identity, config.video.mode);
            let twice = store.insert(key, first).insert(key, second);
            let th = config.detection.thresholds_spec(config.video.mode);
            let limit = Some(th.max_attempts);
            let (s, used) = run(second, th, limit, initial_state(limit), attempts);
            &&& twice == store.insert(key, second)
            &&& verify_spec(twice, identity, config, attempts) == (s.outcome, used)
        }),
{
    let key = (identity, config.video.mode);
    assert(store.insert(key, first).insert(key, second) =~= store.insert(key, second));
}

/// The answer an authentication host gives: access only for a run that
/// answered yes; any error or a no denies it.
pub fn grants_access(result: &Result<bool, VerifyError>) -> (r: bool)
    ensures
        r == (result matches Ok(true)),
{
    match result {
        Ok(b) => *b,
        Err(_) => false,
    }
}

} // verus!
