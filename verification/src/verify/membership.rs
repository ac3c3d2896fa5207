//! The membership path: the person gives the order number of this year's
//! membership and a shortcode, and the workflow looks the pair up in the
//! external roster.

use crate::fresher::Fresher;
use crate::notice::{Notice, Path};
use crate::records::{MemberRecord, RecordView};
use crate::verify::{bare, opened, Command, CompleteStep, Session, SessionView, Signal, Stage};
use vstd::prelude::*;

verus! {

/// The steps of the membership path that ask something of a collaborator.
#[derive(Clone, Copy, Debug, PartialEq, Eq, Structural)]
pub enum MembershipStep {
    /// A pending login that the person left behind is deleted.
    PurgePending,
    /// A request for manual review that the person left behind is deleted.
    PurgeManual,
    /// The roster is fetched and searched.
    Fetch,
    /// The member record is written.
    Insert,
}

/// What a membership form holds.
#[derive(Debug, PartialEq, Eq)]
pub struct MembershipForm {
    pub order: String,
    pub shortcode: String,
    pub nickname: String,
}

/// The request of a step of the membership path.
pub open spec fn membership_command(step: MembershipStep) -> Command {
    match step {
        MembershipStep::PurgePending => Command::DeletePending,
        MembershipStep::PurgeManual => Command::DeleteManual,
        MembershipStep::Fetch => Command::FetchRoster,
        MembershipStep::Insert => Command::InsertMember,
    }
}

/// Where the membership path goes after a step. What the person left
/// behind on another path is deleted, whatever comes of the deletions,
/// before the form opens. A roster that cannot be had and an order that is
/// not in it are each reported, and nothing is written; a member record
/// that the store refuses is reported as a passing failure.
pub open spec fn membership_next(step: MembershipStep, signal: Signal, fresher: Fresher)
    -> Stage {
    match step {
        MembershipStep::PurgePending => Stage::Membership(MembershipStep::PurgeManual),
        MembershipStep::PurgeManual => Stage::Answer(Notice::MembershipModal(fresher)),
        MembershipStep::Fetch => match signal {
            Signal::Found => Stage::Membership(MembershipStep::Insert),
            Signal::Missing => Stage::Answer(Notice::OrderNotFound),
            _ => Stage::Answer(Notice::RosterUnavailable),
        },
        MembershipStep::Insert => match signal {
            Signal::Done => Stage::Complete(Path::Membership, CompleteStep::GrantMember),
            _ => Stage::Answer(Notice::Sorry),
        },
    }
}

/// An upper bound on the requests still to come from a step.
pub open spec fn membership_rank(step: MembershipStep) -> nat {
    match step {
        MembershipStep::PurgeManual => 2,
        MembershipStep::PurgePending => 3,
        MembershipStep::Insert => 8,
        MembershipStep::Fetch => 9,
    }
}

/// The session that checks a membership form: the candidate with the
/// shortcode and the preferred name of the form, about to fetch the roster.
pub open spec fn checking(
    actor: u64,
    fresher: Fresher,
    order: Seq<char>,
    shortcode: Seq<char>,
    nickname: Seq<char>,
) -> SessionView {
    SessionView {
        stage: Stage::Membership(MembershipStep::Fetch),
        actor,
        candidate: RecordView { shortcode, preferred_name: nickname, ..bare(actor, fresher) },
        order,
        proof_url: Seq::empty(),
    }
}

/// The request of a step of the membership path.
pub fn membership_request(step: MembershipStep) -> (command: Command)
    ensures
        command == membership_command(step),
{
    match step {
        MembershipStep::PurgePending => Command::DeletePending,
        MembershipStep::PurgeManual => Command::DeleteManual,
        MembershipStep::Fetch => Command::FetchRoster,
        MembershipStep::Insert => Command::InsertMember,
    }
}

/// Where the membership path goes after a step.
pub fn membership_advance(step: MembershipStep, signal: Signal, fresher: Fresher) -> (next: Stage)
    ensures
        next == membership_next(step, signal, fresher),
{
    match step {
        MembershipStep::PurgePending => Stage::Membership(MembershipStep::PurgeManual),
        MembershipStep::PurgeManual => Stage::Answer(Notice::MembershipModal(fresher)),
        MembershipStep::Fetch => match signal {
            Signal::Found => Stage::Membership(MembershipStep::Insert),
            Signal::Missing => Stage::Answer(Notice::OrderNotFound),
            _ => Stage::Answer(Notice::RosterUnavailable),
        },
        MembershipStep::Insert => match signal {
            Signal::Done => Stage::Complete(Path::Membership, CompleteStep::GrantMember),
            _ => Stage::Answer(Notice::Sorry),
        },
    }
}

/// Introduces the membership path and asks for the fresher category.
pub fn membership_1(actor: u64) -> (session: Session)
    ensures
        session@ == opened(Stage::Answer(Notice::MembershipIntro), actor, Fresher::No),
{
    Session::open(Stage::Answer(Notice::MembershipIntro), actor, Fresher::No)
}

/// Clears what the person left behind on another path and opens the form.
pub fn membership_2(actor: u64, fresher: Fresher) -> (session: Session)
    ensures
        session@ == opened(Stage::Membership(MembershipStep::PurgePending), actor, fresher),
{
    Session::open(Stage::Membership(MembershipStep::PurgePending), actor, fresher)
}

/// Checks a submitted membership form against the roster. A form that could
/// not be read is answered with an apology.
pub fn membership_3(actor: u64, fresher: Fresher, form: Option<MembershipForm>) -> (session:
    Session)
    ensures
        session@ == match form {
            Some(f) => checking(actor, fresher, f.order@, f.shortcode@, f.nickname@),
            None => opened(Stage::Answer(Notice::Sorry), actor, fresher),
        },
{
    match form {
        Some(f) => Session {
            stage: Stage::Membership(MembershipStep::Fetch),
            actor,
            candidate: MemberRecord {
                identity: actor,
                shortcode: f.shortcode,
                preferred_name: f.nickname,
                legal_name: String::new(),
                fresher,
            },
            order: f.order,
            proof_url: String::new(),
        },
        None => Session::open(Stage::Answer(Notice::Sorry), actor, fresher),
    }
}

} // verus!
