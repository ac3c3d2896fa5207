//! Where an inbound interaction enters the workflow: the token of a button
//! or of a submitted form is read, and the session of the step it names is
//! opened.

use crate::fresher::Fresher;
use crate::notice::Notice;
use crate::token::{
    is_registration, parse_sheet, parse_step, spec_is_registration, spec_parse_sheet,
    spec_parse_step, Sheet, Step,
};
use crate::url_check::url_parses;
use crate::verify::login::{
    login_1, login_2, login_3, login_4, login_5, login_6, spec_login_6, LoginStep,
};
use crate::verify::manual::{
    decide, deciding, manual_1, manual_2, manual_3, spec_manual_3, ManualForm, ManualStep,
};
use crate::verify::membership::{
    checking, membership_1, membership_2, membership_3, MembershipForm, MembershipStep,
};
use crate::verify::{info, opened, start, unknown, Session, SessionView, Stage, Verdict};
use vstd::prelude::*;

verus! {

/// What a submitted form holds.
#[derive(Debug, PartialEq, Eq)]
pub enum Form {
    Nickname(String),
    Membership(MembershipForm),
    Manual(ManualForm),
}

/// The session that a step opens for the person who pressed its button.
pub open spec fn entered(step: Step, actor: u64) -> SessionView {
    match step {
        Step::Info => opened(Stage::Answer(Notice::Info), actor, Fresher::No),
        Step::Start => opened(Stage::Select { fresh: true }, actor, Fresher::No),
        Step::Restart => opened(Stage::Select { fresh: false }, actor, Fresher::No),
        Step::Login1 => opened(Stage::Answer(Notice::LoginIntro), actor, Fresher::No),
        Step::Login2 => opened(Stage::Login(LoginStep::Lookup), actor, Fresher::No),
        Step::Login3 => opened(Stage::Answer(Notice::LoginFresher), actor, Fresher::No),
        Step::Login4(fresher) => opened(Stage::Answer(Notice::LoginName(fresher)), actor, fresher),
        Step::Login5(fresher) => opened(Stage::Answer(Notice::LoginModal(fresher)), actor, fresher),
        Step::Membership1 => opened(Stage::Answer(Notice::MembershipIntro), actor, Fresher::No),
        Step::Membership2(fresher) => opened(
            Stage::Membership(MembershipStep::PurgePending),
            actor,
            fresher,
        ),
        Step::Manual1 => opened(Stage::Answer(Notice::ManualIntro), actor, Fresher::No),
        Step::Manual2(fresher) => opened(Stage::Manual(ManualStep::Purge), actor, fresher),
        Step::Review(decision, subject) => deciding(actor, decision, subject),
    }
}

/// The session that a button's token opens: none of the workflow's business
/// where the token registers commands, the step's session where it names a
/// step, and the general apology otherwise.
pub open spec fn spec_component(token: Seq<char>, actor: u64) -> SessionView {
    if spec_is_registration(token) {
        opened(Stage::Closed(Verdict::Completed), actor, Fresher::No)
    } else {
        match spec_parse_step(token) {
            Some(step) => entered(step, actor),
            None => opened(Stage::Answer(Notice::Unknown), actor, Fresher::No),
        }
    }
}

/// The session that a submitted form opens under a step. A form of another
/// kind than the step asks for counts as one that could not be read.
pub open spec fn submitted(sheet: Sheet, actor: u64, form: Option<Form>) -> SessionView {
    match sheet {
        Sheet::Login6(fresher) => match form {
            Some(Form::Nickname(name)) => spec_login_6(actor, fresher, Some(name@)),
            _ => opened(Stage::Answer(Notice::Sorry), actor, fresher),
        },
        Sheet::Membership3(fresher) => match form {
            Some(Form::Membership(f)) => checking(
                actor,
                fresher,
                f.order@,
                f.shortcode@,
                f.nickname@,
            ),
            _ => opened(Stage::Answer(Notice::Sorry), actor, fresher),
        },
        Sheet::Manual3(fresher) => match form {
            Some(Form::Manual(f)) => spec_manual_3(
                actor,
                fresher,
                f.shortcode@,
                f.realname@,
                f.url@,
                f.nickname@,
                url_parses(f.url@),
            ),
            _ => opened(Stage::Answer(Notice::Sorry), actor, fresher),
        },
    }
}

/// Opens the session of a step for the person who pressed its button.
pub fn enter(step: Step, actor: u64) -> (session: Session)
    ensures
        session@ == entered(step, actor),
{
    match step {
        Step::Info => info(actor),
        Step::Start => start(actor, true),
        Step::Restart => start(actor, false),
        Step::Login1 => login_1(actor),
        Step::Login2 => login_2(actor),
        Step::Login3 => login_3(actor),
        Step::Login4(fresher) => login_4(actor, fresher),
        Step::Login5(fresher) => login_5(actor, fresher),
        Step::Membership1 => membership_1(actor),
        Step::Membership2(fresher) => membership_2(actor, fresher),
        Step::Manual1 => manual_1(actor),
        Step::Manual2(fresher) => manual_2(actor, fresher),
        Step::Review(decision, subject) => decide(actor, decision, subject),
    }
}

/// Opens the session of a pressed button from its token.
pub fn component(token: &str, actor: u64) -> (session: Session)
    ensures
        session@ == spec_component(token@, actor),
{
    if is_registration(token) {
        Session::open(Stage::Closed(Verdict::Completed), actor, Fresher::No)
    } else {
        match parse_step(token) {
            Some(step) => enter(step, actor),
            None => unknown(actor),
        }
    }
}

/// Opens the session of a submitted form under a step.
pub fn submit(sheet: Sheet, actor: u64, form: Option<Form>) -> (session: Session)
    ensures
        session@ == submitted(sheet, actor, form),
{
    match sheet {
        Sheet::Login6(fresher) => match form {
            Some(Form::Nickname(name)) => login_6(actor, fresher, Some(name)),
            _ => login_6(actor, fresher, None),
        },
        Sheet::Membership3(fresher) => match form {
            Some(Form::Membership(f)) => membership_3(actor, fresher, Some(f)),
            _ => membership_3(actor, fresher, None),
        },
        Sheet::Manual3(fresher) => match form {
            Some(Form::Manual(f)) => manual_3(actor, fresher, Some(f)),
            _ => manual_3(actor, fresher, None),
        },
    }
}

/// Opens the session of a submitted form from its token. A token that names
/// no form's step is none of the workflow's business.
pub fn modal(token: &str, actor: u64, form: Option<Form>) -> (session: Session)
    ensures
        session@ == match spec_parse_sheet(token@) {
            Some(sheet) => submitted(sheet, actor, form),
            None => opened(Stage::Closed(Verdict::Completed), actor, Fresher::No),
        },
{
    match parse_sheet(token) {
        Some(sheet) => submit(sheet, actor, form),
        None => Session::open(Stage::Closed(Verdict::Completed), actor, Fresher::No),
    }
}

} // verus!
