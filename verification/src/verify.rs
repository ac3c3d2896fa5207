//! The verification workflow as a machine. A session stands for one inbound
//! interaction. At every stage it names one request to a collaborator (the
//! roster store, the external roster, the role gateway, the chat surface);
//! the host performs the request and feeds the outcome back, and the session
//! moves to its next stage, until it is closed.

use crate::ea::{find_member, first_named, roster_view, spec_legal_name, Member, MemberView};
use crate::fresher::Fresher;
use crate::notice::{Notice, Path};
use crate::records::{MemberRecord, PendingRecord, PendingView, RecordView};
use crate::roles::{fresher_role, spec_fresher_role, Role};
use crate::token::{Decision, Step};
use vstd::prelude::*;

pub mod login;
pub mod manual;
pub mod membership;

verus! {

/// How a session ended.
#[derive(Clone, Copy, Debug, PartialEq, Eq, Structural)]
pub enum Verdict {
    /// The workflow ran to the end of its path and the person was answered.
    Completed,
    /// A collaborator failed and the rest of the path was given up.
    Failed,
}

/// What the person who acted is told once a session has ended, beyond what
/// the path itself has answered: the general apology where a collaborator
/// failed and the path was given up, nothing more where the path ran to its
/// end.
pub open spec fn spec_closing_notice(verdict: Verdict) -> Option<Notice> {
    match verdict {
        Verdict::Completed => None,
        Verdict::Failed => Some(Notice::Unknown),
    }
}

impl Verdict {
    /// What the person who acted is told once a session has ended with this
    /// verdict, beyond what the path itself has answered.
    pub fn closing_notice(self) -> (notice: Option<Notice>)
        ensures
            notice == spec_closing_notice(self),
    {
        match self {
            Verdict::Completed => None,
            Verdict::Failed => Some(Notice::Unknown),
        }
    }
}

/// A request to a collaborator. The identity it is about is that of the
/// session's candidate; the records and texts that it carries are read from
/// the session.
#[derive(Clone, Copy, Debug, PartialEq, Eq, Structural)]
pub enum Command {
    GetMember,
    GetPending,
    DeletePending,
    DeleteManual,
    MovePendingToMember,
    MoveManualToMember,
    InsertMember,
    InsertManual,
    FetchRoster,
    FindGuildMember,
    Grant(Role),
    Revoke(Role),
    HasRole(Role),
    Respond(Notice),
    PostReview,
    PostAudit(Path),
    Welcome,
    Finish(Verdict),
}

/// What an outcome means to the stage that asked for it.
#[derive(Clone, Copy, Debug, PartialEq, Eq, Structural)]
pub enum Signal {
    /// The collaborator failed, refused, or answered another question.
    Failed,
    Done,
    Found,
    Missing,
    Yes,
    No,
}

/// The steps that give an existing member the roles back.
#[derive(Clone, Copy, Debug, PartialEq, Eq, Structural)]
pub enum RegrantStep {
    ClearNonMember,
    GrantMember,
    GrantFresher(Role),
}

/// The steps that follow the writing of a member record.
#[derive(Clone, Copy, Debug, PartialEq, Eq, Structural)]
pub enum CompleteStep {
    GrantMember,
    GrantFresher(Role),
    Announce,
    Audit,
    ClearNonMember,
    CheckLegacy,
    RevokeLegacy,
    Welcome,
}

/// Where a session stands: the request that is under way.
#[derive(Clone, Copy, Debug, PartialEq, Eq, Structural)]
pub enum Stage {
    /// The path selector looks the person up among the members.
    Select { fresh: bool },
    Regrant(RegrantStep),
    Login(login::LoginStep),
    Membership(membership::MembershipStep),
    Manual(manual::ManualStep),
    Complete(Path, CompleteStep),
    /// The last answer of a path is on its way.
    Answer(Notice),
    Closed(Verdict),
}

/// What a collaborator answered.
#[derive(Debug, PartialEq, Eq)]
pub enum Outcome {
    /// The collaborator reported an error.
    Failed,
    /// The request was carried out and there is nothing to report.
    Done,
    /// A row was deleted (`true`) or there was none (`false`).
    Removed(bool),
    Pending(Option<PendingRecord>),
    Member(Option<MemberRecord>),
    /// The record was moved; this is the new member.
    Moved(MemberRecord),
    /// There was no record to move.
    NotFound,
    /// The identity already has such a record.
    Conflict,
    Roster(Vec<Member>),
    /// Whether the person holds the role asked about.
    Holds(bool),
}

/// An outcome as plain values.
pub enum OutcomeView {
    Failed,
    Done,
    Removed(bool),
    Pending(Option<PendingView>),
    Member(Option<RecordView>),
    Moved(RecordView),
    NotFound,
    Conflict,
    Roster(Seq<MemberView>),
    Holds(bool),
}

impl View for Outcome {
    type V = OutcomeView;

    open spec fn view(&self) -> OutcomeView {
        match *self {
            Outcome::Failed => OutcomeView::Failed,
            Outcome::Done => OutcomeView::Done,
            Outcome::Removed(removed) => OutcomeView::Removed(removed),
            Outcome::Pending(Some(record)) => OutcomeView::Pending(Some(record@)),
            Outcome::Pending(None) => OutcomeView::Pending(None),
            Outcome::Member(Some(record)) => OutcomeView::Member(Some(record@)),
            Outcome::Member(None) => OutcomeView::Member(None),
            Outcome::Moved(record) => OutcomeView::Moved(record@),
            Outcome::NotFound => OutcomeView::NotFound,
            Outcome::Conflict => OutcomeView::Conflict,
            Outcome::Roster(list) => OutcomeView::Roster(roster_view(list@)),
            Outcome::Holds(holds) => OutcomeView::Holds(holds),
        }
    }
}

/// One inbound interaction on its way through the workflow.
#[derive(Debug, PartialEq, Eq)]
pub struct Session {
    /// The request that is under way.
    pub stage: Stage,
    /// Who pressed the button or submitted the form.
    pub actor: u64,
    /// The person being verified, and what is known of them so far.
    pub candidate: MemberRecord,
    /// The order number as a membership form wrote it.
    pub order: String,
    /// The address of the proof that a manual form gave.
    pub proof_url: String,
}

/// A session as plain values.
pub struct SessionView {
    pub stage: Stage,
    pub actor: u64,
    pub candidate: RecordView,
    pub order: Seq<char>,
    pub proof_url: Seq<char>,
}

impl View for Session {
    type V = SessionView;

    open spec fn view(&self) -> SessionView {
        SessionView {
            stage: self.stage,
            actor: self.actor,
            candidate: self.candidate@,
            order: self.order@,
            proof_url: self.proof_url@,
        }
    }
}

/// A candidate of whom only the identity and the fresher category are known.
pub open spec fn bare(identity: u64, fresher: Fresher) -> RecordView {
    RecordView {
        identity,
        shortcode: Seq::empty(),
        preferred_name: Seq::empty(),
        legal_name: Seq::empty(),
        fresher,
    }
}

/// The session of `actor` about themselves at a given stage, with nothing
/// known but the fresher category.
pub open spec fn opened(stage: Stage, actor: u64, fresher: Fresher) -> SessionView {
    SessionView {
        stage,
        actor,
        candidate: bare(actor, fresher),
        order: Seq::empty(),
        proof_url: Seq::empty(),
    }
}

/// The request that a stage has under way. `fresher` is the candidate's
/// category.
pub open spec fn command_of(stage: Stage, fresher: Fresher) -> Command {
    match stage {
        Stage::Select { .. } => Command::GetMember,
        Stage::Regrant(RegrantStep::ClearNonMember) => Command::Revoke(Role::NonMember),
        Stage::Regrant(RegrantStep::GrantMember) => Command::Grant(Role::Member),
        Stage::Regrant(RegrantStep::GrantFresher(role)) => Command::Grant(role),
        Stage::Login(step) => login::login_command(step),
        Stage::Membership(step) => membership::membership_command(step),
        Stage::Manual(step) => manual::manual_command(step),
        Stage::Complete(path, step) => complete_command(path, step, fresher),
        Stage::Answer(notice) => Command::Respond(notice),
        Stage::Closed(verdict) => Command::Finish(verdict),
    }
}

/// The request of a step that follows the writing of a member record.
pub open spec fn complete_command(path: Path, step: CompleteStep, fresher: Fresher) -> Command {
    match step {
        CompleteStep::GrantMember => Command::Grant(Role::Member),
        CompleteStep::GrantFresher(role) => Command::Grant(role),
        CompleteStep::Announce => Command::Respond(
            if path == Path::Manual {
                Notice::ReviewVerified
            } else {
                Notice::Verified(fresher)
            },
        ),
        CompleteStep::Audit => Command::PostAudit(path),
        CompleteStep::ClearNonMember => Command::Revoke(Role::NonMember),
        CompleteStep::CheckLegacy => Command::HasRole(Role::OldMember),
        CompleteStep::RevokeLegacy => Command::Revoke(Role::OldMember),
        CompleteStep::Welcome => Command::Welcome,
    }
}

/// Where the regranting of roles goes after a step.
pub open spec fn regrant_next(step: RegrantStep, signal: Signal, fresher: Fresher) -> Stage {
    if signal != Signal::Done {
        Stage::Closed(Verdict::Failed)
    } else {
        match step {
            RegrantStep::ClearNonMember => Stage::Regrant(RegrantStep::GrantMember),
            RegrantStep::GrantMember => match spec_fresher_role(fresher) {
                Some(role) => Stage::Regrant(RegrantStep::GrantFresher(role)),
                None => Stage::Answer(Notice::AlreadyVerified),
            },
            RegrantStep::GrantFresher(_) => Stage::Answer(Notice::AlreadyVerified),
        }
    }
}

/// Where the completion of a path goes after a step. The member role and
/// the fresher's role are granted and the person is told, on the login and
/// membership paths the committee is told too (on the manual path the
/// announcement is made on the committee's own prompt); then the non-member
/// role is cleared, whatever comes of it, and the person either loses the
/// role of an earlier year or is welcomed in public.
pub open spec fn complete_next(path: Path, step: CompleteStep, signal: Signal, fresher: Fresher)
    -> Stage {
    match step {
        CompleteStep::GrantMember => if signal == Signal::Done {
            match spec_fresher_role(fresher) {
                Some(role) => Stage::Complete(path, CompleteStep::GrantFresher(role)),
                None => Stage::Complete(path, CompleteStep::Announce),
            }
        } else {
            Stage::Closed(Verdict::Failed)
        },
        CompleteStep::GrantFresher(_) => if signal == Signal::Done {
            Stage::Complete(path, CompleteStep::Announce)
        } else {
            Stage::Closed(Verdict::Failed)
        },
        CompleteStep::Announce => if signal == Signal::Done {
            if path == Path::Manual {
                Stage::Complete(path, CompleteStep::ClearNonMember)
            } else {
                Stage::Complete(path, CompleteStep::Audit)
            }
        } else {
            Stage::Closed(Verdict::Failed)
        },
        CompleteStep::Audit => if signal == Signal::Done {
            Stage::Complete(path, CompleteStep::ClearNonMember)
        } else {
            Stage::Closed(Verdict::Failed)
        },
        CompleteStep::ClearNonMember => Stage::Complete(path, CompleteStep::CheckLegacy),
        CompleteStep::CheckLegacy => match signal {
            Signal::Yes => Stage::Complete(path, CompleteStep::RevokeLegacy),
            Signal::No => Stage::Complete(path, CompleteStep::Welcome),
            _ => Stage::Closed(Verdict::Failed),
        },
        CompleteStep::RevokeLegacy | CompleteStep::Welcome => if signal == Signal::Done {
            Stage::Closed(Verdict::Completed)
        } else {
            Stage::Closed(Verdict::Failed)
        },
    }
}

/// The stage that follows `stage` once its request has been answered.
/// `fresher` is the candidate's category after the answer.
pub open spec fn next_stage(stage: Stage, signal: Signal, fresher: Fresher) -> Stage {
    match stage {
        Stage::Select { fresh } => match signal {
            Signal::Found => Stage::Regrant(RegrantStep::ClearNonMember),
            Signal::Missing => Stage::Answer(Notice::PathChoice { fresh }),
            _ => Stage::Closed(Verdict::Failed),
        },
        Stage::Regrant(step) => regrant_next(step, signal, fresher),
        Stage::Login(step) => login::login_next(step, signal),
        Stage::Membership(step) => membership::membership_next(step, signal, fresher),
        Stage::Manual(step) => manual::manual_next(step, signal, fresher),
        Stage::Complete(path, step) => complete_next(path, step, signal, fresher),
        Stage::Answer(_) => if signal == Signal::Done {
            Stage::Closed(Verdict::Completed)
        } else {
            Stage::Closed(Verdict::Failed)
        },
        Stage::Closed(verdict) => Stage::Closed(verdict),
    }
}

/// What an outcome means to a session. An outcome that does not answer the
/// request under way, or that is about another identity, counts as a
/// failure.
pub open spec fn signal_of(s: SessionView, outcome: OutcomeView) -> Signal {
    match (command_of(s.stage, s.candidate.fresher), outcome) {
        (Command::GetMember, OutcomeView::Member(Some(record))) => if record.identity
            == s.candidate.identity {
            Signal::Found
        } else {
            Signal::Failed
        },
        (Command::GetMember, OutcomeView::Member(None)) => Signal::Missing,
        (Command::GetPending, OutcomeView::Pending(Some(record))) => if record.identity
            == s.candidate.identity {
            Signal::Found
        } else {
            Signal::Failed
        },
        (Command::GetPending, OutcomeView::Pending(None)) => Signal::Missing,
        (Command::DeletePending, OutcomeView::Removed(_)) => Signal::Done,
        (Command::DeleteManual, OutcomeView::Removed(_)) => Signal::Done,
        (Command::MovePendingToMember, OutcomeView::Moved(record)) => if record.identity
            == s.candidate.identity {
            Signal::Found
        } else {
            Signal::Failed
        },
        (Command::MovePendingToMember, OutcomeView::NotFound) => Signal::Missing,
        (Command::MoveManualToMember, OutcomeView::Moved(record)) => if record.identity
            == s.candidate.identity {
            Signal::Found
        } else {
            Signal::Failed
        },
        (Command::MoveManualToMember, OutcomeView::NotFound) => Signal::Missing,
        (Command::InsertMember, OutcomeView::Done) => Signal::Done,
        (Command::InsertManual, OutcomeView::Done) => Signal::Done,
        (Command::FetchRoster, OutcomeView::Roster(list)) => if first_named(
            list,
            s.order,
            s.candidate.shortcode,
        ) is Some {
            Signal::Found
        } else {
            Signal::Missing
        },
        (Command::FindGuildMember, OutcomeView::Done) => Signal::Done,
        (Command::Grant(_), OutcomeView::Done) => Signal::Done,
        (Command::Revoke(_), OutcomeView::Done) => Signal::Done,
        (Command::HasRole(_), OutcomeView::Holds(holds)) => if holds {
            Signal::Yes
        } else {
            Signal::No
        },
        (Command::Respond(_), OutcomeView::Done) => Signal::Done,
        (Command::PostReview, OutcomeView::Done) => Signal::Done,
        (Command::PostAudit(_), OutcomeView::Done) => Signal::Done,
        (Command::Welcome, OutcomeView::Done) => Signal::Done,
        _ => Signal::Failed,
    }
}

/// What is known of the candidate once an outcome has come in: a member
/// record that was found or moved replaces what was known, and the roster
/// entry that a membership form names gives the legal name.
pub open spec fn absorbed(s: SessionView, outcome: OutcomeView) -> RecordView {
    if signal_of(s, outcome) != Signal::Found {
        s.candidate
    } else {
        match outcome {
            OutcomeView::Member(Some(record)) => record,
            OutcomeView::Moved(record) => record,
            OutcomeView::Roster(list) => RecordView {
                legal_name: spec_legal_name(
                    list[first_named(list, s.order, s.candidate.shortcode).unwrap()],
                ),
                ..s.candidate
            },
            _ => s.candidate,
        }
    }
}

/// The session after an outcome has been fed to it.
pub open spec fn fed(s: SessionView, outcome: OutcomeView) -> SessionView {
    let candidate = absorbed(s, outcome);
    SessionView {
        stage: next_stage(s.stage, signal_of(s, outcome), candidate.fresher),
        candidate,
        ..s
    }
}

/// An upper bound on the requests that a session still makes from a stage.
pub open spec fn rank(stage: Stage) -> nat {
    match stage {
        Stage::Closed(_) => 0,
        Stage::Answer(_) => 1,
        Stage::Regrant(RegrantStep::GrantFresher(_)) => 2,
        Stage::Regrant(RegrantStep::GrantMember) => 3,
        Stage::Regrant(RegrantStep::ClearNonMember) => 4,
        Stage::Select { .. } => 5,
        Stage::Complete(_, CompleteStep::Welcome) => 1,
        Stage::Complete(_, CompleteStep::RevokeLegacy) => 1,
        Stage::Complete(_, CompleteStep::CheckLegacy) => 2,
        Stage::Complete(_, CompleteStep::ClearNonMember) => 3,
        Stage::Complete(_, CompleteStep::Audit) => 4,
        Stage::Complete(_, CompleteStep::Announce) => 5,
        Stage::Complete(_, CompleteStep::GrantFresher(_)) => 6,
        Stage::Complete(_, CompleteStep::GrantMember) => 7,
        Stage::Login(step) => login::login_rank(step),
        Stage::Membership(step) => membership::membership_rank(step),
        Stage::Manual(step) => manual::manual_rank(step),
    }
}

/// Every answer brings an open session nearer to its end.
pub proof fn lemma_rank_decreases(stage: Stage, signal: Signal, fresher: Fresher)
    requires
        !(stage is Closed),
    ensures
        rank(next_stage(stage, signal, fresher)) < rank(stage),
{
}

/// The request of a step that follows the writing of a member record.
fn complete_request(path: Path, step: CompleteStep, fresher: Fresher) -> (command: Command)
    ensures
        command == complete_command(path, step, fresher),
{
    match step {
        CompleteStep::GrantMember => Command::Grant(Role::Member),
        CompleteStep::GrantFresher(role) => Command::Grant(role),
        CompleteStep::Announce => Command::Respond(
            match path {
                Path::Manual => Notice::ReviewVerified,
                _ => Notice::Verified(fresher),
            },
        ),
        CompleteStep::Audit => Command::PostAudit(path),
        CompleteStep::ClearNonMember => Command::Revoke(Role::NonMember),
        CompleteStep::CheckLegacy => Command::HasRole(Role::OldMember),
        CompleteStep::RevokeLegacy => Command::Revoke(Role::OldMember),
        CompleteStep::Welcome => Command::Welcome,
    }
}

/// The request that a stage has under way.
pub fn request(stage: Stage, fresher: Fresher) -> (command: Command)
    ensures
        command == command_of(stage, fresher),
{
    match stage {
        Stage::Select { .. } => Command::GetMember,
        Stage::Regrant(RegrantStep::ClearNonMember) => Command::Revoke(Role::NonMember),
        Stage::Regrant(RegrantStep::GrantMember) => Command::Grant(Role::Member),
        Stage::Regrant(RegrantStep::GrantFresher(role)) => Command::Grant(role),
        Stage::Login(step) => login::login_request(step),
        Stage::Membership(step) => membership::membership_request(step),
        Stage::Manual(step) => manual::manual_request(step),
        Stage::Complete(path, step) => complete_request(path, step, fresher),
        Stage::Answer(notice) => Command::Respond(notice),
        Stage::Closed(verdict) => Command::Finish(verdict),
    }
}

/// Whether a signal reports that a request was carried out.
fn is_done(signal: Signal) -> (done: bool)
    ensures
        done == (signal == Signal::Done),
{
    match signal {
        Signal::Done => true,
        _ => false,
    }
}

/// Where the regranting of roles goes after a step.
fn regrant_advance(step: RegrantStep, signal: Signal, fresher: Fresher) -> (next: Stage)
    ensures
        next == regrant_next(step, signal, fresher),
{
    if !is_done(signal) {
        Stage::Closed(Verdict::Failed)
    } else {
        match step {
            RegrantStep::ClearNonMember => Stage::Regrant(RegrantStep::GrantMember),
            RegrantStep::GrantMember => match fresher_role(fresher) {
                Some(role) => Stage::Regrant(RegrantStep::GrantFresher(role)),
                None => Stage::Answer(Notice::AlreadyVerified),
            },
            RegrantStep::GrantFresher(_) => Stage::Answer(Notice::AlreadyVerified),
        }
    }
}

/// Where the completion of a path goes after a step.
fn complete_advance(path: Path, step: CompleteStep, signal: Signal, fresher: Fresher) -> (next:
    Stage)
    ensures
        next == complete_next(path, step, signal, fresher),
{
    let done = is_done(signal);
    match step {
        CompleteStep::GrantMember => if done {
            match fresher_role(fresher) {
                Some(role) => Stage::Complete(path, CompleteStep::GrantFresher(role)),
                None => Stage::Complete(path, CompleteStep::Announce),
            }
        } else {
            Stage::Closed(Verdict::Failed)
        },
        CompleteStep::GrantFresher(_) => if done {
            Stage::Complete(path, CompleteStep::Announce)
        } else {
            Stage::Closed(Verdict::Failed)
        },
        CompleteStep::Announce => if done {
            match path {
                Path::Manual => Stage::Complete(path, CompleteStep::ClearNonMember),
                _ => Stage::Complete(path, CompleteStep::Audit),
            }
        } else {
            Stage::Closed(Verdict::Failed)
        },
        CompleteStep::Audit => if done {
            Stage::Complete(path, CompleteStep::ClearNonMember)
        } else {
            Stage::Closed(Verdict::Failed)
        },
        CompleteStep::ClearNonMember => Stage::Complete(path, CompleteStep::CheckLegacy),
        CompleteStep::CheckLegacy => match signal {
            Signal::Yes => Stage::Complete(path, CompleteStep::RevokeLegacy),
            Signal::No => Stage::Complete(path, CompleteStep::Welcome),
            _ => Stage::Closed(Verdict::Failed),
        },
        CompleteStep::RevokeLegacy | CompleteStep::Welcome => if done {
            Stage::Closed(Verdict::Completed)
        } else {
            Stage::Closed(Verdict::Failed)
        },
    }
}

/// The stage that follows `stage` once its request has been answered.
pub fn advance(stage: Stage, signal: Signal, fresher: Fresher) -> (next: Stage)
    ensures
        next == next_stage(stage, signal, fresher),
        !(stage is Closed) ==> rank(next) < rank(stage),
{
    match stage {
        Stage::Select { fresh } => match signal {
            Signal::Found => Stage::Regrant(RegrantStep::ClearNonMember),
            Signal::Missing => Stage::Answer(Notice::PathChoice { fresh }),
            _ => Stage::Closed(Verdict::Failed),
        },
        Stage::Regrant(step) => regrant_advance(step, signal, fresher),
        Stage::Login(step) => login::login_advance(step, signal),
        Stage::Membership(step) => membership::membership_advance(step, signal, fresher),
        Stage::Manual(step) => manual::manual_advance(step, signal, fresher),
        Stage::Complete(path, step) => complete_advance(path, step, signal, fresher),
        Stage::Answer(_) => if is_done(signal) {
            Stage::Closed(Verdict::Completed)
        } else {
            Stage::Closed(Verdict::Failed)
        },
        Stage::Closed(verdict) => Stage::Closed(verdict),
    }
}

impl Session {
    /// The session of `actor` about themselves at a given stage, with
    /// nothing known but the fresher category.
    pub fn open(stage: Stage, actor: u64, fresher: Fresher) -> (session: Session)
        ensures
            session@ == opened(stage, actor, fresher),
    {
        Session {
            stage,
            actor,
            candidate: MemberRecord {
                identity: actor,
                shortcode: String::new(),
                preferred_name: String::new(),
                legal_name: String::new(),
                fresher,
            },
            order: String::new(),
            proof_url: String::new(),
        }
    }

    /// The request that the host is to perform now.
    pub fn command(&self) -> (command: Command)
        ensures
            command == command_of(self@.stage, self@.candidate.fresher),
    {
        request(self.stage, self.candidate.fresher)
    }

    /// The two buttons of the prompt that asks the committee to decide on
    /// the candidate's request: accept, then deny.
    pub fn review_offers(&self) -> (steps: Vec<Step>)
        ensures
            steps@ == seq![
                Step::Review(Decision::Accept, self@.candidate.identity),
                Step::Review(Decision::Deny, self@.candidate.identity),
            ],
    {
        let steps = vec![
            Step::Review(Decision::Accept, self.candidate.identity),
            Step::Review(Decision::Deny, self.candidate.identity),
        ];
        assert(steps@ =~= seq![
            Step::Review(Decision::Accept, self@.candidate.identity),
            Step::Review(Decision::Deny, self@.candidate.identity),
        ]);
        steps
    }

    /// Whether the session has ended, and how.
    pub fn verdict(&self) -> (verdict: Option<Verdict>)
        ensures
            verdict == match self@.stage {
                Stage::Closed(v) => Some(v),
                _ => None,
            },
    {
        match self.stage {
            Stage::Closed(v) => Some(v),
            _ => None,
        }
    }

    /// Takes the outcome of the request under way and moves to the next
    /// stage.
    pub fn feed(self, outcome: Outcome) -> (next: Session)
        ensures
            next@ == fed(self@, outcome@),
            !(self@.stage is Closed) ==> rank(next@.stage) < rank(self@.stage),
    {
        let ghost before = self@;
        let command = self.command();
        let Session { stage, actor, candidate, order, proof_url } = self;
        let (signal, candidate) = match (command, outcome) {
            (Command::GetMember, Outcome::Member(Some(record))) => if record.identity
                == candidate.identity {
                (Signal::Found, record)
            } else {
                (Signal::Failed, candidate)
            },
            (Command::GetMember, Outcome::Member(None)) => (Signal::Missing, candidate),
            (Command::GetPending, Outcome::Pending(Some(record))) => if record.identity
                == candidate.identity {
                (Signal::Found, candidate)
            } else {
                (Signal::Failed, candidate)
            },
            (Command::GetPending, Outcome::Pending(None)) => (Signal::Missing, candidate),
            (Command::DeletePending, Outcome::Removed(_)) => (Signal::Done, candidate),
            (Command::DeleteManual, Outcome::Removed(_)) => (Signal::Done, candidate),
            (Command::MovePendingToMember, Outcome::Moved(record)) => if record.identity
                == candidate.identity {
                (Signal::Found, record)
            } else {
                (Signal::Failed, candidate)
            },
            (Command::MovePendingToMember, Outcome::NotFound) => (Signal::Missing, candidate),
            (Command::MoveManualToMember, Outcome::Moved(record)) => if record.identity
                == candidate.identity {
                (Signal::Found, record)
            } else {
                (Signal::Failed, candidate)
            },
            (Command::MoveManualToMember, Outcome::NotFound) => (Signal::Missing, candidate),
            (Command::InsertMember, Outcome::Done) => (Signal::Done, candidate),
            (Command::InsertManual, Outcome::Done) => (Signal::Done, candidate),
            (Command::FetchRoster, Outcome::Roster(list)) => {
                match find_member(&list, &order, &candidate.shortcode) {
                    Some(at) => {
                        assert(roster_view(list@)[at as int] == list@[at as int]@);
                        let legal_name = list[at].legal_name();
                        (
                            Signal::Found,
                            MemberRecord {
                                identity: candidate.identity,
                                shortcode: candidate.shortcode,
                                preferred_name: candidate.preferred_name,
                                legal_name,
                                fresher: candidate.fresher,
                            },
                        )
                    },
                    None => (Signal::Missing, candidate),
                }
            },
            (Command::FindGuildMember, Outcome::Done) => (Signal::Done, candidate),
            (Command::Grant(_), Outcome::Done) => (Signal::Done, candidate),
            (Command::Revoke(_), Outcome::Done) => (Signal::Done, candidate),
            (Command::HasRole(_), Outcome::Holds(holds)) => (
                if holds {
                    Signal::Yes
                } else {
                    Signal::No
                },
                candidate,
            ),
            (Command::Respond(_), Outcome::Done) => (Signal::Done, candidate),
            (Command::PostReview, Outcome::Done) => (Signal::Done, candidate),
            (Command::PostAudit(_), Outcome::Done) => (Signal::Done, candidate),
            (Command::Welcome, Outcome::Done) => (Signal::Done, candidate),
            _ => (Signal::Failed, candidate),
        };
        assert(signal == signal_of(before, outcome@));
        assert(candidate@ == absorbed(before, outcome@));
        let stage = advance(stage, signal, candidate.fresher);
        Session { stage, actor, candidate, order, proof_url }
    }
}

/// Answers the button that asks what the bot is.
pub fn info(actor: u64) -> (session: Session)
    ensures
        session@ == opened(Stage::Answer(Notice::Info), actor, Fresher::No),
{
    Session::open(Stage::Answer(Notice::Info), actor, Fresher::No)
}

/// Answers a token that names no step.
pub fn unknown(actor: u64) -> (session: Session)
    ensures
        session@ == opened(Stage::Answer(Notice::Unknown), actor, Fresher::No),
{
    Session::open(Stage::Answer(Notice::Unknown), actor, Fresher::No)
}

/// The path selector: a member gets the roles back, anyone else is offered
/// the three paths. `fresh` tells a first contact from a return by the back
/// button.
pub fn start(actor: u64, fresh: bool) -> (session: Session)
    ensures
        session@ == opened(Stage::Select { fresh }, actor, Fresher::No),
{
    Session::open(Stage::Select { fresh }, actor, Fresher::No)
}

} // verus!
