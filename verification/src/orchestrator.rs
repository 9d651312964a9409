//! The test orchestrator: a linear fallback chain over candidate servers.
//!
//! The orchestrator owns every decision of a run — which server and phase to
//! measure next, what a failure does to the chain, when the run is over —
//! while the caller performs the actual transfers. The caller repeatedly
//! asks for the next request, performs it, and reports the outcome; each
//! candidate is attempted exactly once, the first fully successful session
//! wins, and per-candidate failures are logged, not raised.

use vstd::prelude::*;

use crate::error::TestError;
use crate::server::Server;
use crate::speed_test::Direction;
use crate::speed_test::Phase;
use crate::speed_test::SpeedMeasurement;
use crate::speed_test::SpeedTestResult;
use crate::speed_test::wants_download;
use crate::speed_test::wants_upload;

verus! {

/// One logged failure: which server, which phase, and the cause the
/// transfer reported.
#[derive(Debug)]
pub struct AttemptFailure {
    /// The id of the candidate whose session failed.
    pub server_id: u32,
    /// The phase whose transfer failed.
    pub phase: Phase,
    /// The failure message of the transfer.
    pub cause: String,
}

/// The mathematical state of an orchestration run.
#[verifier::ext_equal]
pub struct OrchModel {
    /// The fallback chain, nearest first.
    pub candidates: Seq<Server>,
    /// The direction(s) each session measures.
    pub direction: Direction,
    /// The position of the current candidate; past the end once every
    /// candidate has failed.
    pub index: int,
    /// The download measured so far for the current candidate.
    pub download: Option<SpeedMeasurement>,
    /// The upload measured so far for the current candidate.
    pub upload: Option<SpeedMeasurement>,
    /// Every failure logged so far, in order.
    pub failures: Seq<AttemptFailure>,
    /// The final result, once some candidate's session has fully succeeded.
    pub outcome: Option<SpeedTestResult>,
}

/// A run is still in progress while no session has succeeded and candidates
/// remain.
pub open spec fn spec_running(m: OrchModel) -> bool {
    m.outcome is None && m.index < m.candidates.len()
}

/// The phase the running orchestration asks for next: the download first
/// whenever the direction wants one and none is measured yet, the upload
/// otherwise.
pub open spec fn spec_phase(m: OrchModel) -> Phase {
    if wants_download(m.direction) && m.download is None {
        Phase::Download
    } else {
        Phase::Upload
    }
}

/// The state a run starts in: at the first candidate, nothing measured,
/// nothing logged.
pub open spec fn spec_start(candidates: Seq<Server>, direction: Direction) -> OrchModel {
    OrchModel {
        candidates,
        direction,
        index: 0,
        download: Option::None,
        upload: Option::None,
        failures: Seq::empty(),
        outcome: Option::None,
    }
}

/// The result assembled when the current candidate's session completes.
pub open spec fn spec_result(m: OrchModel) -> SpeedTestResult {
    SpeedTestResult { server: m.candidates[m.index], download: m.download, upload: m.upload }
}

/// How one reported outcome advances a run.
///
/// A successful transfer stores its measurement; the session is complete —
/// and the run with it — once every wanted phase is measured. A failed
/// transfer aborts the whole session: the failure is logged with the
/// current candidate and phase, partial measurements are discarded, and the
/// run moves to the next candidate.
pub open spec fn spec_step(m: OrchModel, outcome: Result<u64, String>) -> OrchModel {
    if !spec_running(m) {
        m
    } else {
        match outcome {
            Result::Ok(bps) => {
                if spec_phase(m) == Phase::Download {
                    let stored = OrchModel {
                        download: Option::Some(SpeedMeasurement { bps }),
                        ..m
                    };
                    if wants_upload(m.direction) {
                        stored
                    } else {
                        OrchModel { outcome: Option::Some(spec_result(stored)), ..stored }
                    }
                } else {
                    let stored = OrchModel { upload: Option::Some(SpeedMeasurement { bps }), ..m };
                    OrchModel { outcome: Option::Some(spec_result(stored)), ..stored }
                }
            },
            Result::Err(cause) => OrchModel {
                index: m.index + 1,
                download: Option::None,
                upload: Option::None,
                failures: m.failures.push(
                    AttemptFailure {
                        server_id: m.candidates[m.index].id,
                        phase: spec_phase(m),
                        cause,
                    },
                ),
                ..m
            },
        }
    }
}

/// A whole run: the state reached after reporting each outcome in turn.
pub open spec fn spec_run(m: OrchModel, events: Seq<Result<u64, String>>) -> OrchModel
    decreases events.len(),
{
    if events.len() == 0 {
        m
    } else {
        spec_run(spec_step(m, events.first()), events.drop_first())
    }
}

/// A linear fallback chain over candidate servers, driven by reported
/// transfer outcomes.
#[derive(Debug)]
pub struct Orchestration {
    candidates: Vec<Server>,
    direction: Direction,
    index: usize,
    download: Option<SpeedMeasurement>,
    upload: Option<SpeedMeasurement>,
    failures: Vec<AttemptFailure>,
    outcome: Option<SpeedTestResult>,
}

impl View for Orchestration {
    type V = OrchModel;

    closed spec fn view(&self) -> OrchModel {
        OrchModel {
            candidates: self.candidates@,
            direction: self.direction,
            index: self.index as int,
            download: self.download,
            upload: self.upload,
            failures: self.failures@,
            outcome: self.outcome,
        }
    }
}

impl Orchestration {
    /// Starts a run over the given fallback chain. An empty chain is the
    /// one terminal failure that needs no attempt: `NoServersAvailable`.
    pub fn start(candidates: Vec<Server>, direction: Direction) -> (r: Result<
        Orchestration,
        TestError,
    >)
        ensures
            candidates@.len() == 0 ==> (r matches Result::Err(e) && e is NoServersAvailable),
            candidates@.len() > 0 ==> (r matches Result::Ok(o) && o@ == spec_start(
                candidates@,
                direction,
            )),
    {
        if candidates.len() == 0 {
            return Result::Err(TestError::NoServersAvailable);
        }
        let o = Orchestration {
            candidates,
            direction,
            index: 0,
            download: Option::None,
            upload: Option::None,
            failures: Vec::new(),
            outcome: Option::None,
        };
        proof {
            assert(o@ =~= spec_start(o.candidates@, direction));
        }
        Result::Ok(o)
    }

    /// Whether the run still waits for transfer outcomes.
    pub fn is_running(&self) -> (r: bool)
        ensures
            r == spec_running(self@),
    {
        self.outcome.is_none() && self.index < self.candidates.len()
    }

    /// The server the next transfer must run against.
    pub fn current_server(&self) -> (r: &Server)
        requires
            spec_running(self@),
        ensures
            *r == self@.candidates[self@.index],
    {
        &self.candidates[self.index]
    }

    /// The phase the next transfer must measure.
    pub fn next_phase(&self) -> (r: Phase)
        requires
            spec_running(self@),
        ensures
            r == spec_phase(self@),
    {
        if (self.direction == Direction::Download || self.direction == Direction::Both)
            && self.download.is_none() {
            Phase::Download
        } else {
            Phase::Upload
        }
    }

    /// Reports the outcome of the requested transfer and advances the run
    /// by exactly one step of `spec_step`.
    pub fn on_outcome(&mut self, outcome: Result<u64, String>)
        requires
            spec_running(old(self)@),
        ensures
            final(self)@ == spec_step(old(self)@, outcome),
    {
        match outcome {
            Result::Ok(bps) => {
                let ph = self.next_phase();
                if ph == Phase::Download {
                    self.download = Option::Some(SpeedMeasurement { bps });
                    if !(self.direction == Direction::Upload || self.direction
                        == Direction::Both) {
                        let server = (&self.candidates[self.index]).clone();
                        self.outcome = Option::Some(
                            SpeedTestResult {
                                server,
                                download: self.download,
                                upload: self.upload,
                            },
                        );
                    }
                } else {
                    self.upload = Option::Some(SpeedMeasurement { bps });
                    let server = (&self.candidates[self.index]).clone();
                    self.outcome = Option::Some(
                        SpeedTestResult { server, download: self.download, upload: self.upload },
                    );
                }
                proof {
                    assert(self@ =~= spec_step(old(self)@, outcome));
                }
            },
            Result::Err(cause) => {
                let ph = self.next_phase();
                let id = self.candidates[self.index].id;
                let len = self.candidates.len();
                self.failures.push(AttemptFailure { server_id: id, phase: ph, cause });
                self.download = Option::None;
                self.upload = Option::None;
                self.index = self.index + 1;
                proof {
                    assert(self.index <= len);
                }
                proof {
                    assert(self@ =~= spec_step(old(self)@, outcome));
                }
            },
        }
    }

    /// The failures logged so far, one per failed session, in order.
    pub fn failures(&self) -> (r: &Vec<AttemptFailure>)
        ensures
            r@ == self@.failures,
    {
        &self.failures
    }

    /// Closes a finished run: the first successful session's result, or
    /// `AllAttemptsFailed` when every candidate was tried in vain.
    pub fn finish(self) -> (r: Result<SpeedTestResult, TestError>)
        requires
            !spec_running(self@),
        ensures
            match self@.outcome {
                Option::Some(res) => r matches Result::Ok(v) && v == res,
                Option::None => r matches Result::Err(e) && e is AllAttemptsFailed,
            },
    {
        match self.outcome {
            Option::Some(res) => Result::Ok(res),
            Option::None => Result::Err(TestError::AllAttemptsFailed),
        }
    }
}

/// The outcomes of one fully successful session: one successful transfer
/// per wanted phase, download first.
pub open spec fn spec_session_success_events(direction: Direction, dl: u64, ul: u64) -> Seq<
    Result<u64, String>,
> {
    match direction {
        Direction::Download => seq![Result::Ok(dl)],
        Direction::Upload => seq![Result::Ok(ul)],
        Direction::Both => seq![Result::Ok(dl), Result::Ok(ul)],
    }
}

/// One failing session, described by how far it got: a download figure is
/// present exactly when the session measured its download and then failed
/// at the upload — which can only happen when both directions are wanted.
pub struct FailedSession {
    /// The successful download transfer, when the failure came at the
    /// upload of a both-directions session.
    pub download: Option<u64>,
    /// The failure message of the failed transfer.
    pub cause: String,
}

/// The outcomes of one failing session: either its very first transfer
/// fails, or — in a both-directions session — the download succeeds and
/// the upload fails.
pub open spec fn spec_session_failure_events(direction: Direction, fs: FailedSession) -> Seq<
    Result<u64, String>,
> {
    if direction == Direction::Both && fs.download is Some {
        seq![Result::Ok(fs.download->0), Result::Err(fs.cause)]
    } else {
        seq![Result::Err(fs.cause)]
    }
}

/// The phase a failing session fails in.
pub open spec fn spec_session_failure_phase(direction: Direction, fs: FailedSession) -> Phase {
    if direction == Direction::Both && fs.download is Some {
        Phase::Upload
    } else if wants_download(direction) {
        Phase::Download
    } else {
        Phase::Upload
    }
}

/// The outcomes of several failing sessions in a row.
pub open spec fn spec_sessions_failure_events(direction: Direction, fss: Seq<FailedSession>) -> Seq<
    Result<u64, String>,
>
    decreases fss.len(),
{
    if fss.len() == 0 {
        Seq::empty()
    } else {
        spec_session_failure_events(direction, fss.first()) + spec_sessions_failure_events(
            direction,
            fss.drop_first(),
        )
    }
}

/// Running a concatenation of outcomes is running one part after the other.
pub proof fn lemma_run_append(
    m: OrchModel,
    left: Seq<Result<u64, String>>,
    right: Seq<Result<u64, String>>,
)
    ensures
        spec_run(m, left + right) == spec_run(spec_run(m, left), right),
    decreases left.len(),
{
    if left.len() == 0 {
        assert(left + right =~= right);
    } else {
        assert((left + right).first() == left.first());
        assert((left + right).drop_first() =~= left.drop_first() + right);
        lemma_run_append(spec_step(m, left.first()), left.drop_first(), right);
    }
}

/// A successful session: from a fresh candidate, one successful transfer
/// per wanted phase completes the run with that candidate's result — its
/// measurements are exactly the reported transfers — and logs nothing.
pub proof fn lemma_successful_session(m: OrchModel, dl: u64, ul: u64)
    requires
        spec_running(m),
        m.download is None,
        m.upload is None,
    ensures
        ({
            let end = spec_run(m, spec_session_success_events(m.direction, dl, ul));
            &&& end.candidates == m.candidates
            &&& end.direction == m.direction
            &&& end.index == m.index
            &&& end.failures == m.failures
            &&& end.outcome matches Option::Some(res) && {
                &&& res.server == m.candidates[m.index]
                &&& res.download == if wants_download(m.direction) {
                    Option::Some(SpeedMeasurement { bps: dl })
                } else {
                    Option::<SpeedMeasurement>::None
                }
                &&& res.upload == if wants_upload(m.direction) {
                    Option::Some(SpeedMeasurement { bps: ul })
                } else {
                    Option::<SpeedMeasurement>::None
                }
            }
        }),
{
    reveal_with_fuel(spec_run, 3);
    let events = spec_session_success_events(m.direction, dl, ul);
    match m.direction {
        Direction::Download => {
            assert(events.drop_first().len() == 0);
        },
        Direction::Upload => {
            assert(events.drop_first().len() == 0);
        },
        Direction::Both => {
            let m1 = spec_step(m, events[0]);
            assert(events.first() == events[0]);
            assert(events.drop_first() =~= seq![Result::<u64, String>::Ok(ul)]);
            assert(spec_run(m, events) == spec_run(m1, events.drop_first()));
            assert(events.drop_first().drop_first().len() == 0);
        },
    }
}

/// A failing session: from a fresh candidate, the session's outcomes log
/// exactly one failure — carrying that candidate's id, the failing phase
/// and the cause — discard any partial measurement, move the run to the
/// next candidate, and decide nothing.
pub proof fn lemma_failed_session(m: OrchModel, fs: FailedSession)
    requires
        spec_running(m),
        m.download is None,
        m.upload is None,
    ensures
        ({
            let end = spec_run(m, spec_session_failure_events(m.direction, fs));
            &&& end.candidates == m.candidates
            &&& end.direction == m.direction
            &&& end.index == m.index + 1
            &&& end.download is None
            &&& end.upload is None
            &&& end.outcome is None
            &&& end.failures == m.failures.push(
                AttemptFailure {
                    server_id: m.candidates[m.index].id,
                    phase: spec_session_failure_phase(m.direction, fs),
                    cause: fs.cause,
                },
            )
        }),
{
    reveal_with_fuel(spec_run, 3);
    let events = spec_session_failure_events(m.direction, fs);
    if m.direction == Direction::Both && fs.download is Some {
        let m1 = spec_step(m, events[0]);
        assert(events.first() == events[0]);
        assert(events.drop_first() =~= seq![Result::<u64, String>::Err(fs.cause)]);
        assert(spec_run(m, events) == spec_run(m1, events.drop_first()));
        assert(events.drop_first().drop_first().len() == 0);
    } else {
        assert(events.drop_first().len() == 0);
    }
}

/// Fallback law: with three candidates, two failing sessions and then a
/// successful one, the run ends with the third candidate's result — its
/// measurements are exactly the successful transfers — while the two
/// failures were logged against the first two candidates, not raised.
pub proof fn lemma_fallback_two_failures_then_success(
    candidates: Seq<Server>,
    direction: Direction,
    fs0: FailedSession,
    fs1: FailedSession,
    dl: u64,
    ul: u64,
)
    requires
        candidates.len() == 3,
    ensures
        ({
            let events = spec_session_failure_events(direction, fs0)
                + spec_session_failure_events(direction, fs1) + spec_session_success_events(
                direction,
                dl,
                ul,
            );
            let end = spec_run(spec_start(candidates, direction), events);
            &&& end.outcome matches Option::Some(res) && {
                &&& res.server == candidates[2]
                &&& res.download == if wants_download(direction) {
                    Option::Some(SpeedMeasurement { bps: dl })
                } else {
                    Option::<SpeedMeasurement>::None
                }
                &&& res.upload == if wants_upload(direction) {
                    Option::Some(SpeedMeasurement { bps: ul })
                } else {
                    Option::<SpeedMeasurement>::None
                }
            }
            &&& end.failures.len() == 2
            &&& end.failures[0] == AttemptFailure {
                server_id: candidates[0].id,
                phase: spec_session_failure_phase(direction, fs0),
                cause: fs0.cause,
            }
            &&& end.failures[1] == AttemptFailure {
                server_id: candidates[1].id,
                phase: spec_session_failure_phase(direction, fs1),
                cause: fs1.cause,
            }
        }),
{
    let e0 = spec_session_failure_events(direction, fs0);
    let e1 = spec_session_failure_events(direction, fs1);
    let e2 = spec_session_success_events(direction, dl, ul);
    let m0 = spec_start(candidates, direction);
    lemma_failed_session(m0, fs0);
    let m1 = spec_run(m0, e0);
    lemma_failed_session(m1, fs1);
    let m2 = spec_run(m1, e1);
    lemma_successful_session(m2, dl, ul);
    lemma_run_append(m0, e0, e1);
    lemma_run_append(m0, e0 + e1, e2);
    assert(e0 + e1 + e2 =~= (e0 + e1) + e2);
    let end = spec_run(m2, e2);
    assert(end.failures == Seq::<AttemptFailure>::empty().push(
        AttemptFailure {
            server_id: candidates[0].id,
            phase: spec_session_failure_phase(direction, fs0),
            cause: fs0.cause,
        },
    ).push(
        AttemptFailure {
            server_id: candidates[1].id,
            phase: spec_session_failure_phase(direction, fs1),
            cause: fs1.cause,
        },
    ));
}

/// Exhaustion law, session by session: from a fresh candidate with
/// `fss.len()` candidates left to try, a run of nothing but failing
/// sessions tries each remaining candidate exactly once, logs exactly one
/// failure per candidate, and decides nothing.
pub proof fn lemma_exhaustion_from(m: OrchModel, fss: Seq<FailedSession>)
    requires
        m.outcome is None,
        m.download is None,
        m.upload is None,
        m.index + fss.len() == m.candidates.len(),
    ensures
        ({
            let end = spec_run(m, spec_sessions_failure_events(m.direction, fss));
            &&& end.outcome is None
            &&& end.candidates == m.candidates
            &&& end.direction == m.direction
            &&& end.index == m.candidates.len()
            &&& end.failures.len() == m.failures.len() + fss.len()
        }),
    decreases fss.len(),
{
    if fss.len() > 0 {
        lemma_failed_session(m, fss.first());
        let e0 = spec_session_failure_events(m.direction, fss.first());
        let m1 = spec_run(m, e0);
        lemma_run_append(m, e0, spec_sessions_failure_events(m.direction, fss.drop_first()));
        lemma_exhaustion_from(m1, fss.drop_first());
    }
}

/// Exhaustion law at the start state: when every one of `n >= 1` candidate
/// sessions fails, the run makes exactly `n` attempts, logs exactly `n`
/// failures, and closes with no result — which `finish` reports as
/// `AllAttemptsFailed`.
pub proof fn lemma_exhaustion(
    candidates: Seq<Server>,
    direction: Direction,
    fss: Seq<FailedSession>,
)
    requires
        candidates.len() >= 1,
        fss.len() == candidates.len(),
    ensures
        ({
            let end = spec_run(
                spec_start(candidates, direction),
                spec_sessions_failure_events(direction, fss),
            );
            &&& end.outcome is None
            &&& !spec_running(end)
            &&& end.index == candidates.len()
            &&& end.failures.len() == candidates.len()
        }),
{
    lemma_exhaustion_from(spec_start(candidates, direction), fss);
}

} // verus!
