//! Connector command façade.
//!
//! One [`Operation`] drives one protocol command (`spec`, `discover` or
//! `read`) over one execution unit, as a state machine: the caller asks
//! [`Operation::pending_action`] what to do, performs that one engine or
//! filesystem step, and reports what happened through [`Operation::step`].
//! The machine enforces the mandatory ordering — staging before creation,
//! creation before start, start before scanning — scans the output for the
//! operation's message kind, and guarantees that every unit it created is
//! torn down exactly once on every path to completion, including scan and
//! start failures and an expired caller deadline — a hung connector that
//! never produces the sought marker is abandoned by reporting the expiry,
//! never by leaking its unit. The one exception is `read`: it hands the live output
//! stream to the caller, so teardown becomes the caller's responsibility.

use crate::container::{Container, ContainerView, Phase};
use crate::errors::OpError;
use crate::scanner::{
    find_marker, kind_token, lemma_line_matches_first_pos, lemma_scanner_first_match,
    lemma_scanner_no_match, line_matches, payload_of, scan_spec, MessageKind,
};
use vstd::prelude::*;
use vstd::string::StrSliceExecFns;

verus! {

/// The three protocol operations.
#[derive(Debug, Clone, Copy, PartialEq, Eq, Structural)]
pub enum OpKind {
    /// Harvest the connector's specification.
    Spec,
    /// Discover the schema of the underlying source.
    Discover,
    /// Read records; the output stream is handed to the caller.
    Read,
}

/// The message kind an operation scans its output for.
pub open spec fn sought_kind(op: OpKind) -> MessageKind {
    match op {
        OpKind::Spec => MessageKind::Spec,
        OpKind::Discover => MessageKind::Catalog,
        OpKind::Read => MessageKind::Record,
    }
}

/// The message kind an operation scans its output for, as a value.
pub fn sought_of(op: OpKind) -> (k: MessageKind)
    ensures
        k == sought_kind(op),
{
    match op {
        OpKind::Spec => MessageKind::Spec,
        OpKind::Discover => MessageKind::Catalog,
        OpKind::Read => MessageKind::Record,
    }
}

/// The command line each operation hands to its execution unit.
pub open spec fn command_spec(op: OpKind) -> Seq<Seq<char>> {
    match op {
        OpKind::Spec => seq!["spec"@],
        OpKind::Discover => seq!["discover"@, "--config"@, "/app/config"@],
        OpKind::Read => seq![
            "read"@,
            "--config"@,
            "/app/config"@,
            "--catalog"@,
            "/app/catalog"@,
        ],
    }
}

/// Builds the command line for `op`.
pub fn command_for(op: OpKind) -> (r: Vec<String>)
    ensures
        r.deep_view() == command_spec(op),
{
    let mut v: Vec<String> = Vec::new();
    match op {
        OpKind::Spec => {
            v.push("spec".to_owned());
        },
        OpKind::Discover => {
            v.push("discover".to_owned());
            v.push("--config".to_owned());
            v.push("/app/config".to_owned());
        },
        OpKind::Read => {
            v.push("read".to_owned());
            v.push("--config".to_owned());
            v.push("/app/config".to_owned());
            v.push("--catalog".to_owned());
            v.push("/app/catalog".to_owned());
        },
    }
    proof {
        assert(v.deep_view() =~= command_spec(op));
    }
    v
}

/// The bind mounts each operation hands to its execution unit: none for
/// `spec`, the operation's staging directory otherwise.
pub open spec fn mounts_spec(op: OpKind, mount: Seq<char>) -> Seq<Seq<char>> {
    match op {
        OpKind::Spec => Seq::empty(),
        OpKind::Discover => seq![mount],
        OpKind::Read => seq![mount],
    }
}

/// Builds the bind-mount list for `op` from its staging mount binding.
pub fn mounts_for(op: OpKind, mount: &String) -> (r: Vec<String>)
    ensures
        r.deep_view() == mounts_spec(op, mount@),
{
    let mut v: Vec<String> = Vec::new();
    match op {
        OpKind::Spec => {},
        OpKind::Discover => {
            v.push(mount.clone());
        },
        OpKind::Read => {
            v.push(mount.clone());
        },
    }
    proof {
        assert(v.deep_view() =~= mounts_spec(op, mount@));
    }
    v
}

/// What the driver of an operation must do next.
#[derive(Debug, Clone, Copy, PartialEq, Eq, Structural)]
pub enum OpAction {
    /// Write the operation's staged input files.
    StageInputs,
    /// Pull the connector image.
    PullImage,
    /// Create the execution unit with the operation's command and mounts.
    CreateUnit,
    /// Start the unit with its output attached.
    StartUnit,
    /// Read the next line of the unit's output.
    ReadLine,
    /// Stop and remove the unit.
    Teardown,
    /// Nothing remains; the outcome is final.
    Finish,
}

/// What the driver observed when it performed the pending action.
pub enum OpEvent {
    /// The staged inputs were written.
    StagingDone,
    /// Writing a staged input failed.
    StagingFailed,
    /// The image is present locally.
    PullDone,
    /// The registry was unreachable or the image does not exist.
    PullFailed,
    /// The engine created the unit and assigned it an id.
    CreateDone { unit_id: String },
    /// The engine rejected creation.
    CreateFailed,
    /// The unit runs with its output attached.
    StartDone,
    /// The engine rejected the start.
    StartFailed,
    /// One more line of output arrived.
    LineRead { line: String },
    /// The output stream ended.
    StreamEnded,
    /// The caller's deadline expired while waiting for output.
    DeadlineExpired,
    /// The unit was stopped and removed.
    TeardownDone,
}

/// Progress of one operation.
#[derive(Debug, Clone, Copy, PartialEq, Eq, Structural)]
pub enum OpPhase {
    /// Inputs are being written to the staging directory.
    Staging,
    /// The image is being pulled.
    Pulling,
    /// The unit is being created.
    Creating,
    /// The unit is being started.
    Starting,
    /// Output lines are being scanned for the sought message.
    Scanning,
    /// The unit is being stopped and removed; the outcome is settled.
    CleaningUp,
    /// The operation is complete.
    Done,
}

/// The final result of an operation.
pub enum Outcome {
    /// The sought message's payload: the matching line from its marker on.
    Payload { payload: String },
    /// The unit runs and its output stream now belongs to the caller.
    StreamReady,
    /// The operation failed.
    Failed { error: OpError },
}

/// Mathematical model of an [`Outcome`].
pub enum OutcomeView {
    /// The sought message's payload.
    Payload { payload: Seq<char> },
    /// The live stream was handed to the caller.
    StreamReady,
    /// The operation failed.
    Failed { error: OpError },
}

impl View for Outcome {
    type V = OutcomeView;

    closed spec fn view(&self) -> OutcomeView {
        match self {
            Outcome::Payload { payload } => OutcomeView::Payload { payload: payload@ },
            Outcome::StreamReady => OutcomeView::StreamReady,
            Outcome::Failed { error } => OutcomeView::Failed { error: *error },
        }
    }
}

/// Mathematical model of an [`Operation`].
pub struct OpView {
    /// Which protocol command runs.
    pub op: OpKind,
    /// How far the operation has advanced.
    pub phase: OpPhase,
    /// The lifecycle record of the operation's execution unit.
    pub unit: ContainerView,
    /// The settled result, once there is one.
    pub outcome: Option<OutcomeView>,
    /// Every output line scanned so far, in order.
    pub seen: Seq<Seq<char>>,
}

/// No line scanned so far carries the sought marker.
pub open spec fn no_match_yet(v: OpView) -> bool {
    forall|j: int|
        0 <= j < v.seen.len() ==> !line_matches(
            #[trigger] v.seen[j],
            kind_token(sought_kind(v.op)),
        )
}

/// A settled outcome agrees with scanning the lines seen: a payload is
/// exactly what the scan of the seen lines yields, and a message-not-found
/// failure names the sought kind and means the scan yields nothing.
pub open spec fn outcome_scan_ok(v: OpView, o: OutcomeView) -> bool {
    match o {
        OutcomeView::Payload { payload } => scan_spec(v.seen, kind_token(sought_kind(v.op)))
            == Some(payload),
        OutcomeView::Failed { error } => match error {
            OpError::MessageNotFoundError { kind } => kind == sought_kind(v.op) && scan_spec(
                v.seen,
                kind_token(sought_kind(v.op)),
            ) is None,
            _ => true,
        },
        OutcomeView::StreamReady => true,
    }
}

impl OpView {
    /// The operation's invariant: the unit's lifecycle record is
    /// well-formed and fits the phase; the outcome exists exactly from
    /// cleanup on, agrees with the scanned lines, and once the operation is
    /// done its unit is torn down exactly as often as it was created —
    /// unless a `read` handed the live stream to the caller.
    pub open spec fn inv(self) -> bool {
        &&& self.unit.wf()
        &&& match self.phase {
            OpPhase::Staging => {
                &&& !(self.op is Spec)
                &&& self.unit.phase is Empty
                &&& self.outcome is None
                &&& self.seen.len() == 0
            },
            OpPhase::Pulling => {
                &&& self.unit.phase is Empty
                &&& self.outcome is None
                &&& self.seen.len() == 0
            },
            OpPhase::Creating => {
                &&& self.unit.phase is Prepared
                &&& self.outcome is None
                &&& self.seen.len() == 0
            },
            OpPhase::Starting => {
                &&& self.unit.phase is Created
                &&& self.outcome is None
                &&& self.seen.len() == 0
            },
            OpPhase::Scanning => {
                &&& !(self.op is Read)
                &&& self.unit.phase is Started
                &&& self.outcome is None
                &&& no_match_yet(self)
            },
            OpPhase::CleaningUp => {
                &&& (self.unit.phase is Created || self.unit.phase is Started)
                &&& match self.outcome {
                    Some(o) => !(o is StreamReady) && outcome_scan_ok(self, o),
                    None => false,
                }
            },
            OpPhase::Done => {
                match self.outcome {
                    Some(o) => {
                        &&& (o is StreamReady ==> self.op is Read && self.unit.phase is Started)
                        &&& (!(o is StreamReady) ==> self.unit.torn_down == self.unit.created)
                        &&& outcome_scan_ok(self, o)
                    },
                    None => false,
                }
            },
        }
    }
}

/// Which events can answer the pending action of each phase.
pub open spec fn expects(v: OpView, ev: OpEvent) -> bool {
    match v.phase {
        OpPhase::Staging => ev is StagingDone || ev is StagingFailed,
        OpPhase::Pulling => ev is PullDone || ev is PullFailed,
        OpPhase::Creating => ev is CreateDone || ev is CreateFailed,
        OpPhase::Starting => ev is StartDone || ev is StartFailed,
        OpPhase::Scanning => ev is LineRead || ev is StreamEnded || ev is DeadlineExpired,
        OpPhase::CleaningUp => ev is TeardownDone,
        OpPhase::Done => false,
    }
}

/// The full transition relation of the façade: how one reported event
/// advances an operation.
pub open spec fn step_rel(pre: OpView, ev: OpEvent, post: OpView) -> bool {
    match pre.phase {
        OpPhase::Staging => match ev {
            OpEvent::StagingDone => post == (OpView { phase: OpPhase::Pulling, ..pre }),
            OpEvent::StagingFailed => post == (OpView {
                phase: OpPhase::Done,
                outcome: Some(OutcomeView::Failed { error: OpError::StagingIOError }),
                ..pre
            }),
            _ => false,
        },
        OpPhase::Pulling => match ev {
            OpEvent::PullDone => post == (OpView {
                phase: OpPhase::Creating,
                unit: (ContainerView { phase: Phase::Prepared, ..pre.unit }),
                ..pre
            }),
            OpEvent::PullFailed => post == (OpView {
                phase: OpPhase::Done,
                outcome: Some(OutcomeView::Failed { error: OpError::ImagePullError }),
                ..pre
            }),
            _ => false,
        },
        OpPhase::Creating => match ev {
            OpEvent::CreateDone { unit_id } => post == (OpView {
                phase: OpPhase::Starting,
                unit: (ContainerView {
                    phase: Phase::Created,
                    unit_id: Some(unit_id@),
                    created: (pre.unit.created + 1) as nat,
                    ..pre.unit
                }),
                ..pre
            }),
            OpEvent::CreateFailed => post == (OpView {
                phase: OpPhase::Done,
                outcome: Some(OutcomeView::Failed { error: OpError::CreateError }),
                ..pre
            }),
            _ => false,
        },
        OpPhase::Starting => match ev {
            OpEvent::StartDone => if pre.op is Read {
                post == (OpView {
                    phase: OpPhase::Done,
                    unit: (ContainerView { phase: Phase::Started, ..pre.unit }),
                    outcome: Some(OutcomeView::StreamReady),
                    ..pre
                })
            } else {
                post == (OpView {
                    phase: OpPhase::Scanning,
                    unit: (ContainerView { phase: Phase::Started, ..pre.unit }),
                    ..pre
                })
            },
            OpEvent::StartFailed => post == (OpView {
                phase: OpPhase::CleaningUp,
                outcome: Some(OutcomeView::Failed { error: OpError::CreateError }),
                ..pre
            }),
            _ => false,
        },
        OpPhase::Scanning => match ev {
            OpEvent::LineRead { line } => if line_matches(line@, kind_token(sought_kind(pre.op))) {
                post == (OpView {
                    phase: OpPhase::CleaningUp,
                    outcome: Some(OutcomeView::Payload {
                        payload: payload_of(line@, kind_token(sought_kind(pre.op))),
                    }),
                    seen: pre.seen.push(line@),
                    ..pre
                })
            } else {
                post == (OpView { seen: pre.seen.push(line@), ..pre })
            },
            OpEvent::StreamEnded => post == (OpView {
                phase: OpPhase::CleaningUp,
                outcome: Some(OutcomeView::Failed {
                    error: OpError::MessageNotFoundError { kind: sought_kind(pre.op) },
                }),
                ..pre
            }),
            OpEvent::DeadlineExpired => post == (OpView {
                phase: OpPhase::CleaningUp,
                outcome: Some(OutcomeView::Failed { error: OpError::DeadlineExceededError }),
                ..pre
            }),
            _ => false,
        },
        OpPhase::CleaningUp => match ev {
            OpEvent::TeardownDone => post == (OpView {
                phase: OpPhase::Done,
                unit: (ContainerView {
                    phase: Phase::Removed,
                    torn_down: (pre.unit.torn_down + 1) as nat,
                    ..pre.unit
                }),
                ..pre
            }),
            _ => false,
        },
        OpPhase::Done => false,
    }
}

/// The action a driver owes in each phase.
pub open spec fn action_of(phase: OpPhase) -> OpAction {
    match phase {
        OpPhase::Staging => OpAction::StageInputs,
        OpPhase::Pulling => OpAction::PullImage,
        OpPhase::Creating => OpAction::CreateUnit,
        OpPhase::Starting => OpAction::StartUnit,
        OpPhase::Scanning => OpAction::ReadLine,
        OpPhase::CleaningUp => OpAction::Teardown,
        OpPhase::Done => OpAction::Finish,
    }
}

/// One protocol operation in flight over one execution unit.
pub struct Operation {
    op: OpKind,
    phase: OpPhase,
    unit: Container,
    outcome: Option<Outcome>,
    seen: Ghost<Seq<Seq<char>>>,
}

impl View for Operation {
    type V = OpView;

    closed spec fn view(&self) -> OpView {
        OpView {
            op: self.op,
            phase: self.phase,
            unit: self.unit@,
            outcome: match self.outcome {
                Some(o) => Some(o@),
                None => None,
            },
            seen: self.seen@,
        }
    }
}

impl Operation {
    /// Begins `op` over the (not yet created) unit `unit`. A `spec`
    /// operation stages nothing and starts by pulling; the others stage
    /// their inputs first.
    pub fn new(op: OpKind, unit: Container) -> (r: Operation)
        requires
            unit@.wf(),
            unit@.phase is Empty,
        ensures
            r@.inv(),
            r@.op == op,
            r@.unit == unit@,
            r@.outcome is None,
            r@.seen == Seq::<Seq<char>>::empty(),
            r@.phase == (if op is Spec {
                OpPhase::Pulling
            } else {
                OpPhase::Staging
            }),
    {
        let phase = if matches!(op, OpKind::Spec) {
            OpPhase::Pulling
        } else {
            OpPhase::Staging
        };
        Operation { op, phase, unit, outcome: None, seen: Ghost(Seq::empty()) }
    }

    /// Which protocol command this operation runs.
    pub fn op_kind(&self) -> (k: OpKind)
        ensures
            k == self@.op,
    {
        self.op
    }

    /// How far the operation has advanced.
    pub fn phase(&self) -> (p: OpPhase)
        ensures
            p == self@.phase,
    {
        self.phase
    }

    /// What the driver must do next.
    pub fn pending_action(&self) -> (a: OpAction)
        ensures
            a == action_of(self@.phase),
    {
        match self.phase {
            OpPhase::Staging => OpAction::StageInputs,
            OpPhase::Pulling => OpAction::PullImage,
            OpPhase::Creating => OpAction::CreateUnit,
            OpPhase::Starting => OpAction::StartUnit,
            OpPhase::Scanning => OpAction::ReadLine,
            OpPhase::CleaningUp => OpAction::Teardown,
            OpPhase::Done => OpAction::Finish,
        }
    }

    /// The settled result, once the operation reached cleanup or is done.
    pub fn outcome(&self) -> (o: &Option<Outcome>)
        ensures
            match o {
                Some(oc) => self@.outcome == Some(oc@),
                None => self@.outcome is None,
            },
    {
        &self.outcome
    }

    /// The operation's execution-unit lifecycle record.
    pub fn unit(&self) -> (u: &Container)
        ensures
            u@ == self@.unit,
    {
        &self.unit
    }

    /// Takes the operation apart once it is driven to completion, handing
    /// back the unit record and the settled outcome.
    pub fn finish(self) -> (r: (Container, Option<Outcome>))
        ensures
            r.0@ == self@.unit,
            match r.1 {
                Some(o) => self@.outcome == Some(o@),
                None => self@.outcome is None,
            },
    {
        (self.unit, self.outcome)
    }

    /// Advances the operation by one observed event. The event must answer
    /// the pending action; the transition follows [`step_rel`] and keeps
    /// the invariant.
    pub fn step(&mut self, ev: OpEvent)
        requires
            old(self)@.inv(),
            expects(old(self)@, ev),
        ensures
            final(self)@.inv(),
            step_rel(old(self)@, ev, final(self)@),
    {
        match self.phase {
            OpPhase::Staging => match ev {
                OpEvent::StagingDone => {
                    self.phase = OpPhase::Pulling;
                },
                OpEvent::StagingFailed => {
                    self.outcome = Some(Outcome::Failed { error: OpError::StagingIOError });
                    self.phase = OpPhase::Done;
                },
                _ => {
                    proof {
                        assert(false);
                    }
                },
            },
            OpPhase::Pulling => match ev {
                OpEvent::PullDone => {
                    self.unit.mark_prepared();
                    self.phase = OpPhase::Creating;
                },
                OpEvent::PullFailed => {
                    self.outcome = Some(Outcome::Failed { error: OpError::ImagePullError });
                    self.phase = OpPhase::Done;
                },
                _ => {
                    proof {
                        assert(false);
                    }
                },
            },
            OpPhase::Creating => match ev {
                OpEvent::CreateDone { unit_id } => {
                    self.unit.mark_created(unit_id);
                    self.phase = OpPhase::Starting;
                },
                OpEvent::CreateFailed => {
                    self.outcome = Some(Outcome::Failed { error: OpError::CreateError });
                    self.phase = OpPhase::Done;
                },
                _ => {
                    proof {
                        assert(false);
                    }
                },
            },
            OpPhase::Starting => match ev {
                OpEvent::StartDone => {
                    self.unit.mark_started();
                    if matches!(self.op, OpKind::Read) {
                        self.outcome = Some(Outcome::StreamReady);
                        self.phase = OpPhase::Done;
                    } else {
                        self.phase = OpPhase::Scanning;
                    }
                },
                OpEvent::StartFailed => {
                    self.outcome = Some(Outcome::Failed { error: OpError::CreateError });
                    self.phase = OpPhase::CleaningUp;
                },
                _ => {
                    proof {
                        assert(false);
                    }
                },
            },
            OpPhase::Scanning => match ev {
                OpEvent::LineRead { line } => {
                    let ghost pre_seen = self.seen@;
                    let ghost tok = kind_token(sought_kind(self.op));
                    let tok_str = sought_of(self.op).token();
                    match find_marker(line.as_str(), tok_str) {
                        Some(i) => {
                            let n = line.as_str().unicode_len();
                            let payload = line.as_str().substring_char(i, n).to_owned();
                            proof {
                                lemma_line_matches_first_pos(line@, tok);
                                assert(line_matches(line@, tok));
                                assert(payload@ == payload_of(line@, tok));
                                let post_seen = pre_seen.push(line@);
                                assert(post_seen[pre_seen.len() as int] == line@);
                                assert(no_match_yet(old(self)@));
                                assert(old(self)@.seen == pre_seen);
                                assert forall|j: int| 0 <= j < pre_seen.len()
                                    implies !line_matches(#[trigger] post_seen[j], tok) by {
                                    assert(!line_matches(
                                        old(self)@.seen[j],
                                        kind_token(sought_kind(old(self)@.op)),
                                    ));
                                    assert(post_seen[j] == pre_seen[j]);
                                }
                                lemma_scanner_first_match(post_seen, tok, pre_seen.len() as int);
                            }
                            self.seen = Ghost(pre_seen.push(line@));
                            self.outcome = Some(Outcome::Payload { payload });
                            self.phase = OpPhase::CleaningUp;
                        },
                        None => {
                            proof {
                                let post_seen = pre_seen.push(line@);
                                assert(no_match_yet(old(self)@));
                                assert(old(self)@.seen == pre_seen);
                                assert forall|j: int| 0 <= j < post_seen.len()
                                    implies !line_matches(#[trigger] post_seen[j], tok) by {
                                    if j < pre_seen.len() {
                                        assert(!line_matches(
                                            old(self)@.seen[j],
                                            kind_token(sought_kind(old(self)@.op)),
                                        ));
                                        assert(post_seen[j] == pre_seen[j]);
                                    } else {
                                        assert(post_seen[j] == line@);
                                    }
                                }
                            }
                            self.seen = Ghost(pre_seen.push(line@));
                        },
                    }
                },
                OpEvent::StreamEnded => {
                    proof {
                        assert(no_match_yet(old(self)@));
                        assert forall|j: int| 0 <= j < self.seen@.len() implies !line_matches(
                            #[trigger] self.seen@[j],
                            kind_token(sought_kind(self.op)),
                        ) by {
                            assert(!line_matches(
                                old(self)@.seen[j],
                                kind_token(sought_kind(old(self)@.op)),
                            ));
                        }
                        lemma_scanner_no_match(self.seen@, kind_token(sought_kind(self.op)));
                    }
                    let kind = sought_of(self.op);
                    self.outcome = Some(Outcome::Failed {
                        error: OpError::MessageNotFoundError { kind },
                    });
                    self.phase = OpPhase::CleaningUp;
                },
                OpEvent::DeadlineExpired => {
                    self.outcome = Some(Outcome::Failed {
                        error: OpError::DeadlineExceededError,
                    });
                    self.phase = OpPhase::CleaningUp;
                },
                _ => {
                    proof {
                        assert(false);
                    }
                },
            },
            OpPhase::CleaningUp => match ev {
                OpEvent::TeardownDone => {
                    self.unit.mark_removed();
                    self.phase = OpPhase::Done;
                },
                _ => {
                    proof {
                        assert(false);
                    }
                },
            },
            OpPhase::Done => {
                proof {
                    assert(false);
                }
            },
        }
    }
}

/// Teardown is exactly once per created unit on every completed path: a
/// finished operation either tore its unit down as often as it created one
/// (at most once), or — only for `read`, and only on success — handed the
/// still-running unit to the caller.
pub proof fn lemma_completed_op_released_unit(v: OpView)
    requires
        v.inv(),
        v.phase is Done,
    ensures
        v.outcome is Some,
        match v.outcome {
            Some(o) => if o is StreamReady {
                v.op is Read && v.unit.created == 1 && v.unit.torn_down == 0
            } else {
                v.unit.torn_down == v.unit.created && v.unit.created <= 1
            },
            None => false,
        },
{
}

/// A finished scanning operation's payload is exactly what scanning its
/// output lines yields, and a message-not-found failure means no seen line
/// carried the sought marker.
pub proof fn lemma_completed_op_scan_faithful(v: OpView)
    requires
        v.inv(),
        v.phase is Done,
    ensures
        match v.outcome {
            Some(o) => outcome_scan_ok(v, o),
            None => false,
        },
{
}

} // verus!
