//! The wallpaper applier: one pass over the monitors that the desktop
//! wallpaper service knows, as a state machine.
//!
//! A `Session` never touches the system. It says what to ask of the service
//! next (`request`) and takes what the service answered (`advance`). Whoever
//! drives it performs each request and hands the answer back, until the
//! request is `Finish`.

use crate::outcome::{
    decide, decision, outcome_for, outcome_models, plan, target_model, Decision, MonitorOutcome,
    OutcomeModel, SkipReason,
};
use crate::report::{report, report_line};
use vstd::prelude::*;

verus! {

/// A failure of the service, as the result code that it reported.
#[derive(Clone, Copy, Debug, PartialEq, Eq, Structural)]
pub struct OsError {
    pub code: i32,
}

/// What the driver is to do next.
#[derive(Debug, PartialEq, Eq)]
pub enum Request {
    /// Initialise the component runtime for this thread.
    Initialize,
    /// Acquire the desktop-wallpaper service.
    Acquire,
    /// Ask the service how many monitor device paths it knows.
    CountMonitors,
    /// Fetch the device path at this ordinal.
    FetchPath { index: u32 },
    /// Write this line to standard output.
    Print { line: String },
    /// Set the wallpaper of the monitor with this device path.
    SetWallpaper { index: u32, id: String },
    /// Nothing is left to do: the result can be read.
    Finish,
}

/// A `Request` with its text as sequences of characters.
pub enum RequestModel {
    Initialize,
    Acquire,
    CountMonitors,
    FetchPath { index: u32 },
    Print { line: Seq<char> },
    SetWallpaper { index: u32, id: Seq<char> },
    Finish,
}

impl View for Request {
    type V = RequestModel;

    open spec fn view(&self) -> RequestModel {
        match *self {
            Request::Initialize => RequestModel::Initialize,
            Request::Acquire => RequestModel::Acquire,
            Request::CountMonitors => RequestModel::CountMonitors,
            Request::FetchPath { index } => RequestModel::FetchPath { index },
            Request::Print { line } => RequestModel::Print { line: line@ },
            Request::SetWallpaper { index, id } => RequestModel::SetWallpaper { index, id: id@ },
            Request::Finish => RequestModel::Finish,
        }
    }
}

/// What came of a request.
#[derive(Debug, PartialEq, Eq)]
pub enum Reply {
    /// The request was carried out and yields nothing.
    Ready,
    /// The number of monitor device paths.
    Count(u32),
    /// The device path that was asked for.
    Path(String),
    /// The request failed.
    Failed(OsError),
}

/// A `Reply` with its text as a sequence of characters.
pub enum ReplyModel {
    Ready,
    Count(u32),
    Path(Seq<char>),
    Failed(OsError),
}

impl View for Reply {
    type V = ReplyModel;

    open spec fn view(&self) -> ReplyModel {
        match *self {
            Reply::Ready => ReplyModel::Ready,
            Reply::Count(n) => ReplyModel::Count(n),
            Reply::Path(id) => ReplyModel::Path(id@),
            Reply::Failed(e) => ReplyModel::Failed(e),
        }
    }
}

/// Where a session stands.
pub enum StageModel {
    Initializing,
    Acquiring,
    Counting,
    /// Waiting for the device path of the next monitor.
    Fetching,
    /// The path is known; the line that reports the verdict is being written.
    Reporting { id: Seq<char> },
    /// The wallpaper of the monitor with this path is being set.
    Setting { id: Seq<char> },
    Finished,
}

/// The state of a session: the target, the stage, the number of monitors,
/// the outcomes recorded so far, and the failure that ended it, if one did.
/// The ordinal of the monitor in hand is the number of outcomes recorded.
pub struct SessionModel {
    pub target: Option<Seq<char>>,
    pub stage: StageModel,
    pub count: u32,
    pub outcomes: Seq<OutcomeModel>,
    pub failure: Option<OsError>,
}

/// Whether an outcome at place `i` is one that the rule can give under
/// `target`: it carries its own place, an applied identifier is one that the
/// rule applies, and nothing is skipped as no match unless a target is set.
pub open spec fn obeys_rule(target: Option<Seq<char>>, i: int, outcome: OutcomeModel) -> bool {
    match outcome {
        OutcomeModel::Applied { index, id } => index == i && decision(target, id)
            == Decision::Apply,
        OutcomeModel::Skipped { index, reason } => index == i && (reason == SkipReason::NoMatch
            ==> target is Some),
    }
}

impl SessionModel {
    /// A session that has asked for nothing yet.
    pub open spec fn initial(target: Option<Seq<char>>) -> SessionModel {
        SessionModel {
            target,
            stage: StageModel::Initializing,
            count: 0,
            outcomes: Seq::empty(),
            failure: None,
        }
    }

    /// The ordinal of the monitor in hand.
    pub open spec fn index(self) -> u32 {
        self.outcomes.len() as u32
    }

    /// What the session asks for in this state.
    pub open spec fn request(self) -> RequestModel {
        match self.stage {
            StageModel::Initializing => RequestModel::Initialize,
            StageModel::Acquiring => RequestModel::Acquire,
            StageModel::Counting => RequestModel::CountMonitors,
            StageModel::Fetching => RequestModel::FetchPath { index: self.index() },
            StageModel::Reporting { id } => RequestModel::Print {
                line: report(decision(self.target, id), self.index(), id),
            },
            StageModel::Setting { id } => RequestModel::SetWallpaper { index: self.index(), id },
            StageModel::Finished => RequestModel::Finish,
        }
    }

    /// Whether `reply` answers the pending request. A failure answers any
    /// request; a finished session takes no reply.
    pub open spec fn accepts(self, reply: ReplyModel) -> bool {
        match self.stage {
            StageModel::Finished => false,
            StageModel::Counting => reply is Count || reply is Failed,
            StageModel::Fetching => reply is Path || reply is Failed,
            _ => reply is Ready || reply is Failed,
        }
    }

    /// The state after `outcome` is recorded for the monitor in hand: on to
    /// the next monitor, or finished after the last.
    pub open spec fn record(self, outcome: OutcomeModel) -> SessionModel {
        SessionModel {
            stage: if self.outcomes.len() + 1 >= self.count {
                StageModel::Finished
            } else {
                StageModel::Fetching
            },
            outcomes: self.outcomes.push(outcome),
            ..self
        }
    }

    /// The state after `reply`. A reply that does not answer the pending
    /// request changes nothing. A failure ends the session at once. A path is
    /// judged by the rule; its line is written before anything is set, and
    /// the outcome is recorded once the monitor is dealt with.
    pub open spec fn step(self, reply: ReplyModel) -> SessionModel {
        if !self.accepts(reply) {
            self
        } else {
            match reply {
                ReplyModel::Failed(e) => SessionModel {
                    stage: StageModel::Finished,
                    failure: Some(e),
                    ..self
                },
                ReplyModel::Count(n) => SessionModel {
                    stage: if n == 0 {
                        StageModel::Finished
                    } else {
                        StageModel::Fetching
                    },
                    count: n,
                    ..self
                },
                ReplyModel::Path(id) => SessionModel { stage: StageModel::Reporting { id }, ..self },
                ReplyModel::Ready => match self.stage {
                    StageModel::Initializing => SessionModel {
                        stage: StageModel::Acquiring,
                        ..self
                    },
                    StageModel::Acquiring => SessionModel { stage: StageModel::Counting, ..self },
                    StageModel::Reporting { id } => match decision(self.target, id) {
                        Decision::Apply => SessionModel {
                            stage: StageModel::Setting { id },
                            ..self
                        },
                        Decision::Skip(reason) => self.record(
                            OutcomeModel::Skipped { index: self.index(), reason },
                        ),
                    },
                    StageModel::Setting { id } => self.record(
                        OutcomeModel::Applied { index: self.index(), id },
                    ),
                    _ => self,
                },
            }
        }
    }

    /// The result of the pass, once the session is finished: the failure that
    /// ended it, or else the outcomes in the order of the service's list.
    pub open spec fn result(self) -> Option<Result<Seq<OutcomeModel>, OsError>> {
        if self.stage is Finished {
            Some(
                match self.failure {
                    Some(e) => Err(e),
                    None => Ok(self.outcomes),
                },
            )
        } else {
            None
        }
    }

    /// What holds of every state that a session can be in.
    pub open spec fn wf(self) -> bool {
        &&& self.outcomes.len() <= self.count
        &&& (self.stage is Fetching || self.stage is Reporting || self.stage is Setting)
            ==> self.outcomes.len() < self.count
        &&& (self.stage is Initializing || self.stage is Acquiring || self.stage is Counting)
            ==> self.count == 0
        &&& self.failure is Some ==> self.stage is Finished
        &&& (self.stage is Finished && self.failure is None) ==> self.outcomes.len() == self.count
        &&& (self.stage matches StageModel::Setting { id } ==> decision(self.target, id)
            == Decision::Apply)
        &&& forall|i: int|
            0 <= i < self.outcomes.len() ==> obeys_rule(self.target, i, #[trigger] self.outcomes[i])
    }
}

enum Stage {
    Initializing,
    Acquiring,
    Counting,
    Fetching,
    Reporting { id: String },
    Setting { id: String },
    Finished,
}

impl View for Stage {
    type V = StageModel;

    closed spec fn view(&self) -> StageModel {
        match *self {
            Stage::Initializing => StageModel::Initializing,
            Stage::Acquiring => StageModel::Acquiring,
            Stage::Counting => StageModel::Counting,
            Stage::Fetching => StageModel::Fetching,
            Stage::Reporting { id } => StageModel::Reporting { id: id@ },
            Stage::Setting { id } => StageModel::Setting { id: id@ },
            Stage::Finished => StageModel::Finished,
        }
    }
}

/// One pass of the applier over the service's monitors.
pub struct Session {
    target: Option<String>,
    stage: Stage,
    count: u32,
    next: u32,
    outcomes: Vec<MonitorOutcome>,
    failure: Option<OsError>,
}

impl View for Session {
    type V = SessionModel;

    closed spec fn view(&self) -> SessionModel {
        SessionModel {
            target: target_model(self.target),
            stage: self.stage@,
            count: self.count,
            outcomes: outcome_models(self.outcomes@),
            failure: self.failure,
        }
    }
}

impl Session {
    #[verifier::type_invariant]
    spec fn inv(self) -> bool {
        &&& self.next == self.outcomes@.len()
        &&& self@.wf()
    }

    /// A session for `target`: the identifier of the one monitor that is
    /// meant, or `None` for every monitor.
    pub fn new(target: Option<String>) -> (session: Session)
        ensures
            session@ == SessionModel::initial(target_model(target)),
            session@.wf(),
    {
        let session = Session {
            target,
            stage: Stage::Initializing,
            count: 0,
            next: 0,
            outcomes: Vec::new(),
            failure: None,
        };
        assert(session@.outcomes =~= Seq::empty());
        session
    }

    /// What to do next.
    pub fn request(&self) -> (request: Request)
        ensures
            request@ == self@.request(),
    {
        proof {
            use_type_invariant(self);
        }
        match &self.stage {
            Stage::Initializing => Request::Initialize,
            Stage::Acquiring => Request::Acquire,
            Stage::Counting => Request::CountMonitors,
            Stage::Fetching => Request::FetchPath { index: self.next },
            Stage::Reporting { id } => Request::Print {
                line: report_line(decide(&self.target, id), self.next, id.as_str()),
            },
            Stage::Setting { id } => Request::SetWallpaper { index: self.next, id: id.clone() },
            Stage::Finished => Request::Finish,
        }
    }

    /// Whether `reply` answers the pending request.
    pub fn accepts(&self, reply: &Reply) -> (fits: bool)
        ensures
            fits == self@.accepts(reply@),
    {
        let failed = matches!(reply, Reply::Failed(_));
        match &self.stage {
            Stage::Finished => false,
            Stage::Counting => failed || matches!(reply, Reply::Count(_)),
            Stage::Fetching => failed || matches!(reply, Reply::Path(_)),
            _ => failed || matches!(reply, Reply::Ready),
        }
    }

    /// Whether the pass is over.
    pub fn is_finished(&self) -> (finished: bool)
        ensures
            finished == (self@.stage is Finished),
    {
        matches!(&self.stage, Stage::Finished)
    }

    /// Takes the answer to the pending request and moves on.
    pub fn advance(self, reply: Reply) -> (after: Session)
        ensures
            after@ == self@.step(reply@),
            after@.wf(),
    {
        proof {
            use_type_invariant(&self);
        }
        if !self.accepts(&reply) {
            return self;
        }
        let Session { target, stage, count, next, outcomes, failure } = self;
        match reply {
            Reply::Failed(e) => Session {
                target,
                stage: Stage::Finished,
                count,
                next,
                outcomes,
                failure: Some(e),
            },
            Reply::Count(n) => Session {
                target,
                stage: if n == 0 {
                    Stage::Finished
                } else {
                    Stage::Fetching
                },
                count: n,
                next,
                outcomes,
                failure,
            },
            Reply::Path(id) => Session {
                target,
                stage: Stage::Reporting { id },
                count,
                next,
                outcomes,
                failure,
            },
            Reply::Ready => match stage {
                Stage::Initializing => Session {
                    target,
                    stage: Stage::Acquiring,
                    count,
                    next,
                    outcomes,
                    failure,
                },
                Stage::Acquiring => Session {
                    target,
                    stage: Stage::Counting,
                    count,
                    next,
                    outcomes,
                    failure,
                },
                Stage::Reporting { id } => match decide(&target, &id) {
                    Decision::Apply => Session {
                        target,
                        stage: Stage::Setting { id },
                        count,
                        next,
                        outcomes,
                        failure,
                    },
                    Decision::Skip(reason) => Self::recorded(
                        target,
                        count,
                        next,
                        outcomes,
                        MonitorOutcome::Skipped { index: next, reason },
                    ),
                },
                Stage::Setting { id } => Self::recorded(
                    target,
                    count,
                    next,
                    outcomes,
                    MonitorOutcome::Applied { index: next, id },
                ),
                other => Session { target, stage: other, count, next, outcomes, failure },
            },
        }
    }

    fn recorded(
        target: Option<String>,
        count: u32,
        next: u32,
        outcomes: Vec<MonitorOutcome>,
        outcome: MonitorOutcome,
    ) -> (after: Session)
        requires
            next == outcomes@.len(),
            next < count,
            obeys_rule(target_model(target), next as int, outcome@),
            forall|i: int|
                0 <= i < outcomes@.len() ==> obeys_rule(
                    target_model(target),
                    i,
                    #[trigger] outcome_models(outcomes@)[i],
                ),
        ensures
            after@ == (SessionModel {
                target: target_model(target),
                stage: StageModel::Fetching,
                count,
                outcomes: outcome_models(outcomes@),
                failure: None,
            }).record(outcome@),
    {
        let mut outcomes = outcomes;
        let ghost before = outcome_models(outcomes@);
        outcomes.push(outcome);
        assert(outcome_models(outcomes@) =~= before.push(outcome@));
        let last = next + 1 >= count;
        Session {
            target,
            stage: if last {
                Stage::Finished
            } else {
                Stage::Fetching
            },
            count,
            next: next + 1,
            outcomes,
            failure: None,
        }
    }

    /// The outcomes recorded so far, in the order of the service's list.
    pub fn outcomes(&self) -> (outcomes: &Vec<MonitorOutcome>)
        ensures
            outcome_models(outcomes@) == self@.outcomes,
    {
        &self.outcomes
    }

    /// The result of the pass: `None` while the session is not finished, then
    /// the failure that ended it or the outcomes of all monitors.
    pub fn into_result(self) -> (result: Option<Result<Vec<MonitorOutcome>, OsError>>)
        ensures
            result_model(result) == self@.result(),
    {
        match self.stage {
            Stage::Finished => match self.failure {
                Some(e) => Some(Err(e)),
                None => Some(Ok(self.outcomes)),
            },
            _ => None,
        }
    }
}

/// A result with its outcomes by their views.
pub open spec fn result_model(result: Option<Result<Vec<MonitorOutcome>, OsError>>) -> Option<
    Result<Seq<OutcomeModel>, OsError>,
> {
    match result {
        Some(Ok(outcomes)) => Some(Ok(outcome_models(outcomes@))),
        Some(Err(e)) => Some(Err(e)),
        None => None,
    }
}

/// What a service that knows the monitors `ids`, and never fails, answers.
pub open spec fn served(request: RequestModel, ids: Seq<Seq<char>>) -> ReplyModel {
    match request {
        RequestModel::CountMonitors => ReplyModel::Count(ids.len() as u32),
        RequestModel::FetchPath { index } => ReplyModel::Path(ids[index as int]),
        _ => ReplyModel::Ready,
    }
}

impl SessionModel {
    /// The state after `steps` requests, each answered by a service that
    /// knows the monitors `ids` and never fails.
    pub open spec fn run(self, ids: Seq<Seq<char>>, steps: nat) -> SessionModel
        decreases steps,
    {
        if steps == 0 {
            self
        } else {
            self.step(served(self.request(), ids)).run(ids, (steps - 1) as nat)
        }
    }
}

/// A new session is well formed, and every reply leaves a well-formed
/// session well formed: the outcomes recorded at any moment obey the rule.
pub proof fn lemma_step_keeps_wf(target: Option<Seq<char>>, s: SessionModel, reply: ReplyModel)
    ensures
        SessionModel::initial(target).wf(),
        s.wf() ==> s.step(reply).wf(),
{
    if s.wf() && s.accepts(reply) {
        let after = s.step(reply);
        assert forall|i: int| 0 <= i < after.outcomes.len() implies obeys_rule(
            after.target,
            i,
            #[trigger] after.outcomes[i],
        ) by {
            if i < s.outcomes.len() {
                assert(after.outcomes[i] == s.outcomes[i]);
            }
        }
    }
}

/// A failure ends a session that is not finished, whatever it was waiting
/// for: the result is that failure, nothing more is recorded, and nothing
/// more is asked for.
pub proof fn lemma_failure_ends_session(s: SessionModel, e: OsError)
    requires
        !(s.stage is Finished),
    ensures
        s.step(ReplyModel::Failed(e)).result() == Some(
            Err::<Seq<OutcomeModel>, OsError>(e),
        ),
        s.step(ReplyModel::Failed(e)).request() == RequestModel::Finish,
        s.step(ReplyModel::Failed(e)).outcomes == s.outcomes,
{
}

/// A finished session takes no reply: it stays as it is.
pub proof fn lemma_finished_is_final(s: SessionModel, reply: ReplyModel)
    requires
        s.stage is Finished,
    ensures
        s.step(reply) == s,
{
}

proof fn lemma_run_split(s: SessionModel, ids: Seq<Seq<char>>, a: nat, b: nat)
    ensures
        s.run(ids, a + b) == s.run(ids, a).run(ids, b),
    decreases a,
{
    if a > 0 {
        lemma_run_split(s.step(served(s.request(), ids)), ids, (a - 1) as nat, b);
        assert((a + b - 1) as nat == (a - 1) as nat + b);
    }
}

proof fn lemma_run_finished(s: SessionModel, ids: Seq<Seq<char>>, steps: nat)
    requires
        s.stage is Finished,
    ensures
        s.run(ids, steps) == s,
    decreases steps,
{
    if steps > 0 {
        lemma_run_finished(s, ids, (steps - 1) as nat);
    }
}

proof fn lemma_walk(s: SessionModel, ids: Seq<Seq<char>>, k: nat, steps: nat)
    requires
        s.stage is Fetching,
        s.count == ids.len(),
        s.failure is None,
        k < ids.len() <= u32::MAX,
        s.outcomes == plan(s.target, ids).take(k as int),
        steps >= 3 * (ids.len() - k),
    ensures
        s.run(ids, steps).result() == Some(Ok::<Seq<OutcomeModel>, OsError>(plan(s.target, ids))),
    decreases ids.len() - k,
{
    let whole = plan(s.target, ids);
    let id = ids[k as int];
    assert(s.index() == k);
    let told = s.step(served(s.request(), ids));
    assert(told.stage == StageModel::Reporting { id });
    let printed = told.step(served(told.request(), ids));
    let applies = decision(s.target, id) == Decision::Apply;
    let used: nat = if applies {
        3
    } else {
        2
    };
    let after = if applies {
        printed.step(served(printed.request(), ids))
    } else {
        printed
    };
    assert(s.run(ids, used) == after) by {
        reveal_with_fuel(SessionModel::run, 4);
    }
    assert(whole[k as int] == outcome_for(s.target, k as u32, id));
    assert(whole.take(k as int).push(whole[k as int]) =~= whole.take(k as int + 1));
    assert(after.outcomes == whole.take(k as int + 1));
    let rest: nat = (steps - used) as nat;
    lemma_run_split(s, ids, used, rest);
    if k + 1 == ids.len() {
        assert(whole.take(k as int + 1) =~= whole);
        lemma_run_finished(after, ids, rest);
    } else {
        lemma_walk(after, ids, (k + 1) as nat, rest);
    }
}

/// Served by a service that knows the monitors `ids` and never fails, a new
/// session is finished after three requests to open the service and at most
/// three for each monitor, and stays so. Its result is the plan for `ids`:
/// the outcome of every monitor, as the rule gives it, in the order of the
/// list.
pub proof fn lemma_served_run_follows_plan(
    target: Option<Seq<char>>,
    ids: Seq<Seq<char>>,
    steps: nat,
)
    requires
        ids.len() <= u32::MAX,
        steps >= 3 + 3 * ids.len(),
    ensures
        SessionModel::initial(target).run(ids, steps).result() == Some(
            Ok::<Seq<OutcomeModel>, OsError>(plan(target, ids)),
        ),
{
    let s0 = SessionModel::initial(target);
    let s3 = s0.run(ids, 3);
    assert(s3 == (SessionModel {
        stage: if ids.len() == 0 {
            StageModel::Finished
        } else {
            StageModel::Fetching
        },
        count: ids.len() as u32,
        ..s0
    })) by {
        reveal_with_fuel(SessionModel::run, 4);
    }
    let rest: nat = (steps - 3) as nat;
    lemma_run_split(s0, ids, 3, rest);
    assert(s3.outcomes =~= plan(target, ids).take(0));
    if ids.len() == 0 {
        lemma_run_finished(s3, ids, rest);
        assert(plan(target, ids).take(0) =~= plan(target, ids));
    } else {
        lemma_walk(s3, ids, 0, rest);
    }
}

} // verus!
