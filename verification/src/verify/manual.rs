//! The manual path: the person submits details and the address of a proof,
//! and a committee member accepts or denies the request.

use crate::fresher::Fresher;
use crate::notice::{Notice, Path};
use crate::records::{MemberRecord, RecordView};
use crate::token::{parse_review, spec_parse_review, Decision};
use crate::url_check::{is_url, url_parses};
use crate::verify::{bare, opened, Command, CompleteStep, Session, SessionView, Signal, Stage, Verdict};
use vstd::prelude::*;

verus! {

/// The steps of the manual path that ask something of a collaborator.
#[derive(Clone, Copy, Debug, PartialEq, Eq, Structural)]
pub enum ManualStep {
    /// An earlier request of the person is deleted before the form opens.
    Purge,
    /// A pending login that the person left behind is deleted.
    ClearPending,
    /// A request that the person still has on record is deleted, so that
    /// the one submitted now takes its place.
    Replace,
    /// The request is posted to the committee.
    Post,
    /// The request is written to the store; `posted` tells whether the
    /// committee has it.
    Insert { posted: bool },
    /// The person whom the decision is about is looked up on the server.
    Locate(Decision),
    /// The request becomes a member.
    Move,
    /// The request is deleted.
    Discard,
}

/// What a form for manual review holds.
#[derive(Debug, PartialEq, Eq)]
pub struct ManualForm {
    pub shortcode: String,
    pub realname: String,
    pub url: String,
    pub nickname: String,
}

/// The request of a step of the manual path.
pub open spec fn manual_command(step: ManualStep) -> Command {
    match step {
        ManualStep::Purge => Command::DeleteManual,
        ManualStep::ClearPending => Command::DeletePending,
        ManualStep::Replace => Command::DeleteManual,
        ManualStep::Post => Command::PostReview,
        ManualStep::Insert { .. } => Command::InsertManual,
        ManualStep::Locate(_) => Command::FindGuildMember,
        ManualStep::Move => Command::MoveManualToMember,
        ManualStep::Discard => Command::DeleteManual,
    }
}

/// What the person is told once a request has been posted and written, or
/// not.
pub open spec fn spec_submitted_notice(posted: bool, inserted: bool) -> Notice {
    if posted {
        if inserted {
            Notice::RequestSent
        } else {
            Notice::RequestSentWithIssue
        }
    } else {
        Notice::RequestNotSent
    }
}

/// Where the manual path goes after a step. An earlier request is deleted,
/// whatever comes of the deletion, before the form opens. On a submission
/// the pending login is deleted first and a failure to do so ends the
/// session; a request still on record is deleted next, whatever comes of
/// the deletion, so that the last submission is the one that stands; the
/// post to the committee and the write to the store are then each tried,
/// and the answer tells the three outcomes apart. On a decision the person
/// is looked up on the server. An acceptance needs the person found; it
/// moves the request into the members and fails with a message where there
/// is none to move. A denial deletes the request whether or not the person
/// was found, and whether or not there was a request.
pub open spec fn manual_next(step: ManualStep, signal: Signal, fresher: Fresher) -> Stage {
    match step {
        ManualStep::Purge => Stage::Answer(Notice::ManualModal(fresher)),
        ManualStep::ClearPending => match signal {
            Signal::Done => Stage::Manual(ManualStep::Replace),
            _ => Stage::Closed(Verdict::Failed),
        },
        ManualStep::Replace => Stage::Manual(ManualStep::Post),
        ManualStep::Post => Stage::Manual(ManualStep::Insert { posted: signal == Signal::Done }),
        ManualStep::Insert { posted } => Stage::Answer(
            spec_submitted_notice(posted, signal == Signal::Done),
        ),
        ManualStep::Locate(decision) => match decision {
            Decision::Accept => match signal {
                Signal::Done => Stage::Manual(ManualStep::Move),
                _ => Stage::Closed(Verdict::Failed),
            },
            Decision::Deny => Stage::Manual(ManualStep::Discard),
        },
        ManualStep::Move => match signal {
            Signal::Found => Stage::Complete(Path::Manual, CompleteStep::GrantMember),
            _ => Stage::Answer(Notice::ReviewFailed),
        },
        ManualStep::Discard => match signal {
            Signal::Done => Stage::Answer(Notice::ReviewDenied),
            _ => Stage::Closed(Verdict::Failed),
        },
    }
}

/// An upper bound on the requests still to come from a step.
pub open spec fn manual_rank(step: ManualStep) -> nat {
    match step {
        ManualStep::Purge => 2,
        ManualStep::Insert { .. } => 2,
        ManualStep::Post => 3,
        ManualStep::Replace => 4,
        ManualStep::ClearPending => 5,
        ManualStep::Discard => 2,
        ManualStep::Move => 8,
        ManualStep::Locate(_) => 9,
    }
}

/// The session that files a request for manual review: the candidate with
/// the details of the form, about to delete a pending login.
pub open spec fn filing(
    actor: u64,
    fresher: Fresher,
    shortcode: Seq<char>,
    realname: Seq<char>,
    url: Seq<char>,
    nickname: Seq<char>,
) -> SessionView {
    SessionView {
        stage: Stage::Manual(ManualStep::ClearPending),
        actor,
        candidate: RecordView {
            shortcode,
            preferred_name: nickname,
            legal_name: realname,
            ..bare(actor, fresher)
        },
        order: Seq::empty(),
        proof_url: url,
    }
}

/// The session that a submitted form for manual review opens, given whether
/// the address of the proof is well formed: an address that is not is
/// refused at once, before anything is asked of the store.
pub open spec fn spec_manual_3(
    actor: u64,
    fresher: Fresher,
    shortcode: Seq<char>,
    realname: Seq<char>,
    url: Seq<char>,
    nickname: Seq<char>,
    url_ok: bool,
) -> SessionView {
    if url_ok {
        filing(actor, fresher, shortcode, realname, url, nickname)
    } else {
        opened(Stage::Answer(Notice::InvalidUrl), actor, fresher)
    }
}

/// The session of a committee member's decision about `subject`.
pub open spec fn deciding(actor: u64, decision: Decision, subject: u64) -> SessionView {
    SessionView {
        stage: Stage::Manual(ManualStep::Locate(decision)),
        actor,
        candidate: bare(subject, Fresher::No),
        order: Seq::empty(),
        proof_url: Seq::empty(),
    }
}

/// The request of a step of the manual path.
pub fn manual_request(step: ManualStep) -> (command: Command)
    ensures
        command == manual_command(step),
{
    match step {
        ManualStep::Purge => Command::DeleteManual,
        ManualStep::ClearPending => Command::DeletePending,
        ManualStep::Replace => Command::DeleteManual,
        ManualStep::Post => Command::PostReview,
        ManualStep::Insert { .. } => Command::InsertManual,
        ManualStep::Locate(_) => Command::FindGuildMember,
        ManualStep::Move => Command::MoveManualToMember,
        ManualStep::Discard => Command::DeleteManual,
    }
}

/// What the person is told once a request has been posted and written, or
/// not.
pub fn submitted_notice(posted: bool, inserted: bool) -> (notice: Notice)
    ensures
        notice == spec_submitted_notice(posted, inserted),
{
    if posted {
        if inserted {
            Notice::RequestSent
        } else {
            Notice::RequestSentWithIssue
        }
    } else {
        Notice::RequestNotSent
    }
}

/// Where the manual path goes after a step.
pub fn manual_advance(step: ManualStep, signal: Signal, fresher: Fresher) -> (next: Stage)
    ensures
        next == manual_next(step, signal, fresher),
{
    let done = match signal {
        Signal::Done => true,
        _ => false,
    };
    match step {
        ManualStep::Purge => Stage::Answer(Notice::ManualModal(fresher)),
        ManualStep::ClearPending => if done {
            Stage::Manual(ManualStep::Replace)
        } else {
            Stage::Closed(Verdict::Failed)
        },
        ManualStep::Replace => Stage::Manual(ManualStep::Post),
        ManualStep::Post => Stage::Manual(ManualStep::Insert { posted: done }),
        ManualStep::Insert { posted } => Stage::Answer(submitted_notice(posted, done)),
        ManualStep::Locate(decision) => match decision {
            Decision::Accept => if done {
                Stage::Manual(ManualStep::Move)
            } else {
                Stage::Closed(Verdict::Failed)
            },
            Decision::Deny => Stage::Manual(ManualStep::Discard),
        },
        ManualStep::Move => match signal {
            Signal::Found => Stage::Complete(Path::Manual, CompleteStep::GrantMember),
            _ => Stage::Answer(Notice::ReviewFailed),
        },
        ManualStep::Discard => if done {
            Stage::Answer(Notice::ReviewDenied)
        } else {
            Stage::Closed(Verdict::Failed)
        },
    }
}

/// Introduces the manual path and asks for the fresher category.
pub fn manual_1(actor: u64) -> (session: Session)
    ensures
        session@ == opened(Stage::Answer(Notice::ManualIntro), actor, Fresher::No),
{
    Session::open(Stage::Answer(Notice::ManualIntro), actor, Fresher::No)
}

/// Deletes an earlier request of the person and opens the form.
pub fn manual_2(actor: u64, fresher: Fresher) -> (session: Session)
    ensures
        session@ == opened(Stage::Manual(ManualStep::Purge), actor, fresher),
{
    Session::open(Stage::Manual(ManualStep::Purge), actor, fresher)
}

/// Opens the session of a submitted form for manual review, given whether
/// the address of the proof is well formed.
pub fn manual_3_checked(actor: u64, fresher: Fresher, form: ManualForm, url_ok: bool) -> (session:
    Session)
    ensures
        session@ == spec_manual_3(
            actor,
            fresher,
            form.shortcode@,
            form.realname@,
            form.url@,
            form.nickname@,
            url_ok,
        ),
{
    if url_ok {
        Session {
            stage: Stage::Manual(ManualStep::ClearPending),
            actor,
            candidate: MemberRecord {
                identity: actor,
                shortcode: form.shortcode,
                preferred_name: form.nickname,
                legal_name: form.realname,
                fresher,
            },
            order: String::new(),
            proof_url: form.url,
        }
    } else {
        Session::open(Stage::Answer(Notice::InvalidUrl), actor, fresher)
    }
}

/// Opens the session of a submitted form for manual review. The address of
/// the proof must be a well-formed URL. A form that could not be read is
/// answered with an apology.
pub fn manual_3(actor: u64, fresher: Fresher, form: Option<ManualForm>) -> (session: Session)
    ensures
        session@ == match form {
            Some(f) => spec_manual_3(
                actor,
                fresher,
                f.shortcode@,
                f.realname@,
                f.url@,
                f.nickname@,
                url_parses(f.url@),
            ),
            None => opened(Stage::Answer(Notice::Sorry), actor, fresher),
        },
{
    match form {
        Some(f) => {
            let url_ok = is_url(f.url.as_str());
            manual_3_checked(actor, fresher, f, url_ok)
        },
        None => Session::open(Stage::Answer(Notice::Sorry), actor, fresher),
    }
}

/// Opens the session of a committee member's decision about `subject`.
pub fn decide(actor: u64, decision: Decision, subject: u64) -> (session: Session)
    ensures
        session@ == deciding(actor, decision, subject),
{
    Session {
        stage: Stage::Manual(ManualStep::Locate(decision)),
        actor,
        candidate: MemberRecord {
            identity: subject,
            shortcode: String::new(),
            preferred_name: String::new(),
            legal_name: String::new(),
            fresher: Fresher::No,
        },
        order: String::new(),
        proof_url: String::new(),
    }
}

/// Opens the session of a decision from its token. A token that does not
/// name a decision and an identity is answered with the general apology.
pub fn manual_4(actor: u64, token: &str) -> (session: Session)
    ensures
        session@ == match spec_parse_review(token@) {
            Some((decision, subject)) => deciding(actor, decision, subject),
            None => opened(Stage::Answer(Notice::Unknown), actor, Fresher::No),
        },
{
    match parse_review(token) {
        Some((decision, subject)) => decide(actor, decision, subject),
        None => Session::open(Stage::Answer(Notice::Unknown), actor, Fresher::No),
    }
}

} // verus!
