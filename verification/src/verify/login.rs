//! The login path: the person logs in with the identity provider, which
//! leaves a pending record; the workflow then asks for the fresher category
//! and a preferred name and turns the pending record into a member.

use crate::fresher::Fresher;
use crate::notice::{Notice, Path};
use crate::records::{MemberRecord, RecordView};
use crate::verify::{bare, opened, Command, CompleteStep, Session, SessionView, Signal, Stage};
use vstd::prelude::*;

verus! {

/// The steps of the login path that ask something of the store.
#[derive(Clone, Copy, Debug, PartialEq, Eq, Structural)]
pub enum LoginStep {
    /// Has the identity provider confirmed the login yet?
    Lookup,
    /// A request for manual review that the person left behind is deleted.
    Purge,
    /// The pending record becomes a member.
    Move,
}

/// The request of a step of the login path.
pub open spec fn login_command(step: LoginStep) -> Command {
    match step {
        LoginStep::Lookup => Command::GetPending,
        LoginStep::Purge => Command::DeleteManual,
        LoginStep::Move => Command::MovePendingToMember,
    }
}

/// Where the login path goes after a step. A login that is not confirmed
/// yet is reported as such and can be tried again; the old request is
/// deleted before the move, whatever comes of the deletion; a move that
/// finds no pending record sends the person back to log in, and any other
/// failure is reported as a passing one.
pub open spec fn login_next(step: LoginStep, signal: Signal) -> Stage {
    match step {
        LoginStep::Lookup => match signal {
            Signal::Found => Stage::Answer(Notice::LoginForm),
            Signal::Missing => Stage::Answer(Notice::LoginIncomplete),
            _ => Stage::Answer(Notice::Sorry),
        },
        LoginStep::Purge => Stage::Login(LoginStep::Move),
        LoginStep::Move => match signal {
            Signal::Found => Stage::Complete(Path::Login, CompleteStep::GrantMember),
            Signal::Missing => Stage::Answer(Notice::LoginIncomplete),
            _ => Stage::Answer(Notice::Sorry),
        },
    }
}

/// An upper bound on the requests still to come from a step.
pub open spec fn login_rank(step: LoginStep) -> nat {
    match step {
        LoginStep::Lookup => 2,
        LoginStep::Move => 8,
        LoginStep::Purge => 9,
    }
}

/// The session that finalises a login: the candidate with the preferred
/// name and the fresher category, about to delete an old request.
pub open spec fn finalising(actor: u64, fresher: Fresher, preferred_name: Seq<char>)
    -> SessionView {
    SessionView {
        stage: Stage::Login(LoginStep::Purge),
        actor,
        candidate: RecordView { preferred_name, ..bare(actor, fresher) },
        order: Seq::empty(),
        proof_url: Seq::empty(),
    }
}

/// The request of a step of the login path.
pub fn login_request(step: LoginStep) -> (command: Command)
    ensures
        command == login_command(step),
{
    match step {
        LoginStep::Lookup => Command::GetPending,
        LoginStep::Purge => Command::DeleteManual,
        LoginStep::Move => Command::MovePendingToMember,
    }
}

/// Where the login path goes after a step.
pub fn login_advance(step: LoginStep, signal: Signal) -> (next: Stage)
    ensures
        next == login_next(step, signal),
{
    match step {
        LoginStep::Lookup => match signal {
            Signal::Found => Stage::Answer(Notice::LoginForm),
            Signal::Missing => Stage::Answer(Notice::LoginIncomplete),
            _ => Stage::Answer(Notice::Sorry),
        },
        LoginStep::Purge => Stage::Login(LoginStep::Move),
        LoginStep::Move => match signal {
            Signal::Found => Stage::Complete(Path::Login, CompleteStep::GrantMember),
            Signal::Missing => Stage::Answer(Notice::LoginIncomplete),
            _ => Stage::Answer(Notice::Sorry),
        },
    }
}

/// Introduces the login path and gives the link to the identity provider.
pub fn login_1(actor: u64) -> (session: Session)
    ensures
        session@ == opened(Stage::Answer(Notice::LoginIntro), actor, Fresher::No),
{
    Session::open(Stage::Answer(Notice::LoginIntro), actor, Fresher::No)
}

/// Checks whether the identity provider has confirmed the login.
pub fn login_2(actor: u64) -> (session: Session)
    ensures
        session@ == opened(Stage::Login(LoginStep::Lookup), actor, Fresher::No),
{
    Session::open(Stage::Login(LoginStep::Lookup), actor, Fresher::No)
}

/// Asks for the fresher category.
pub fn login_3(actor: u64) -> (session: Session)
    ensures
        session@ == opened(Stage::Answer(Notice::LoginFresher), actor, Fresher::No),
{
    Session::open(Stage::Answer(Notice::LoginFresher), actor, Fresher::No)
}

/// Takes the fresher category and offers the form for the preferred name.
pub fn login_4(actor: u64, fresher: Fresher) -> (session: Session)
    ensures
        session@ == opened(Stage::Answer(Notice::LoginName(fresher)), actor, fresher),
{
    Session::open(Stage::Answer(Notice::LoginName(fresher)), actor, fresher)
}

/// Opens the form for the preferred name.
pub fn login_5(actor: u64, fresher: Fresher) -> (session: Session)
    ensures
        session@ == opened(Stage::Answer(Notice::LoginModal(fresher)), actor, fresher),
{
    Session::open(Stage::Answer(Notice::LoginModal(fresher)), actor, fresher)
}

/// The session that a submitted name opens: a name with at least one
/// character finalises the login, anything else is answered with an apology.
pub open spec fn spec_login_6(actor: u64, fresher: Fresher, nickname: Option<Seq<char>>)
    -> SessionView {
    match nickname {
        Some(name) if name.len() > 0 => finalising(actor, fresher, name),
        _ => opened(Stage::Answer(Notice::Sorry), actor, fresher),
    }
}

/// Finalises the login with the preferred name that the form gave. A form
/// that could not be read, or that gave no name, is answered with an
/// apology.
pub fn login_6(actor: u64, fresher: Fresher, nickname: Option<String>) -> (session: Session)
    ensures
        session@ == spec_login_6(
            actor,
            fresher,
            match nickname {
                Some(name) => Some(name@),
                None => None,
            },
        ),
{
    match nickname {
        Some(name) => {
            if name.as_str().is_empty() {
                Session::open(Stage::Answer(Notice::Sorry), actor, fresher)
            } else {
                Session {
                    stage: Stage::Login(LoginStep::Purge),
                    actor,
                    candidate: MemberRecord {
                        identity: actor,
                        shortcode: String::new(),
                        preferred_name: name,
                        legal_name: String::new(),
                        fresher,
                    },
                    order: String::new(),
                    proof_url: String::new(),
                }
            }
        },
        None => Session::open(Stage::Answer(Notice::Sorry), actor, fresher),
    }
}

} // verus!
