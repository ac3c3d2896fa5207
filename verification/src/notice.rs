//! What the workflow answers: each answer as a value of a closed set, with
//! its text, the way it is delivered and the steps it offers next.

use crate::decimal::{digits, render};
use crate::fresher::Fresher;
use crate::token::{Sheet, Step};
use vstd::prelude::*;
use vstd::string::*;

verus! {

/// One of the three ways to be verified.
#[derive(Clone, Copy, Debug, PartialEq, Eq, Structural)]
pub enum Path {
    Login,
    Membership,
    Manual,
}

/// How an answer reaches the person who acted.
#[derive(Clone, Copy, Debug, PartialEq, Eq, Structural)]
pub enum Delivery {
    /// A new message; an ephemeral one is shown to that person alone.
    Message { ephemeral: bool },
    /// The message that carried the button is replaced.
    Update,
    /// A form is opened.
    Modal,
}

/// An answer of the workflow.
#[derive(Clone, Copy, Debug, PartialEq, Eq, Structural)]
pub enum Notice {
    Info,
    Unknown,
    Sorry,
    PathChoice { fresh: bool },
    AlreadyVerified,
    LoginIntro,
    LoginIncomplete,
    LoginForm,
    LoginFresher,
    LoginName(Fresher),
    LoginModal(Fresher),
    MembershipIntro,
    MembershipModal(Fresher),
    RosterUnavailable,
    OrderNotFound,
    ManualIntro,
    ManualModal(Fresher),
    InvalidUrl,
    RequestSent,
    RequestSentWithIssue,
    RequestNotSent,
    Verified(Fresher),
    ReviewVerified,
    ReviewDenied,
    ReviewFailed,
}

/// The kind of trouble that an answer reports.
#[derive(Clone, Copy, Debug, PartialEq, Eq, Structural)]
pub enum Trouble {
    /// A collaborator could not be reached or failed; trying again may help.
    Transient,
    /// What the step needs is not there, or was handled already.
    NotFound,
    /// What the person submitted cannot be right; nothing was written.
    Validation,
    /// The interaction itself makes no sense to the workflow.
    Fatal,
}

/// The kind of trouble that an answer reports, `None` for an answer that
/// reports none.
pub open spec fn spec_trouble(notice: Notice) -> Option<Trouble> {
    match notice {
        Notice::Sorry | Notice::RosterUnavailable | Notice::RequestSentWithIssue
        | Notice::RequestNotSent => Some(Trouble::Transient),
        Notice::LoginIncomplete | Notice::ReviewFailed => Some(Trouble::NotFound),
        Notice::InvalidUrl | Notice::OrderNotFound => Some(Trouble::Validation),
        Notice::Unknown => Some(Trouble::Fatal),
        _ => None,
    }
}

/// The heading of the note that tells the committee of a new member.
pub open spec fn spec_audit_title(path: Path) -> Seq<char> {
    match path {
        Path::Login => "Member verified via login"@,
        Path::Membership => "Member verified via membership"@,
        Path::Manual => "Member verified via manual"@,
    }
}

/// How a person is mentioned in a message.
pub open spec fn spec_mention(identity: u64) -> Seq<char> {
    "<@"@ + digits(identity as nat) + ">"@
}

/// The address at which a person logs in with the identity provider.
pub open spec fn spec_login_link(identity: u64) -> Seq<char> {
    "https://icas.8bitsqu.id/verify?id="@ + digits(identity as nat)
}

/// What follows the greeting in the public welcome.
pub open spec fn spec_welcome_hint(fresher: Fresher) -> Seq<char> {
    match fresher {
        Fresher::No => ""@,
        Fresher::YesPg => ", and look out for other postgraduate freshers in green"@,
        Fresher::YesUg => ", and look out for other freshers in green"@,
    }
}

/// The public welcome of a new member.
pub open spec fn spec_welcome_text(identity: u64, fresher: Fresher) -> Seq<char> {
    "Welcome to ICAS "@ + spec_mention(identity)
        + ", if you have any questions, feel free to ping a committee member"@ + spec_welcome_hint(
        fresher,
    ) + "!"@
}

/// What the bot is.
pub const INFO_MSG: &'static str = "Nano is a Discord bot written with serenity-rs/poise and tokio-rs/axum.\n\n\
It allows members and Imperial students to automatically verify themselves and gain access to the ICAS Discord server.\n\n\
If you have any questions, feel free to ping or message <@99217900254035968>\n";

/// The general apology, with the person to turn to.
pub const UNKNOWN_MSG: &'static str = "Sorry, something went wrong. Please try again \
or message <@99217900254035968> for help";

/// The apology for a passing failure.
pub const SORRY_MSG: &'static str = "Sorry, something went wrong. Please try again";

/// The three paths.
pub const START_MSG: &'static str = "There are 3 available methods for verification.\n\
- \u{1F680} Automatic verification via Imperial Login (Quickest)\n\
- \u{2708}\u{FE0F} Automatic verification via ICAS Membership (Easiest)\n\
- \u{1F697} Manual verification, eg. using College ID Card or Acceptance Letter\n";

/// The confirmation for a member who came back.
pub const ALREADY_VERIFIED_MSG: &'static str =
    "Welcome, you're already verified, re-applied your roles!";

/// How the login path works.
pub const LOGIN_INTRO: &'static str = "To use automatic verification via Imperial Login:\n\
- Open the link provided and login using your shortcode\n\
- Your account will be checked and then the login details immediately discarded\n\
- Your shortcode will then be connected to your Discord Account by Nano\n\n\
You can then complete the remaining details in the next step!\n";

/// The answer to a person who has no confirmed login.
pub const LOGIN_INCOMPLETE_MSG: &'static str =
    "Error, have you completed login verification via the link?";

/// The answer to a person whose login is confirmed.
pub const LOGIN_FORM: &'static str = "Congratulations, your Imperial shortcode has been connected to your Discord Account by Nano!\n\n\
The last step is a short form with some extra details\n";

/// The question for the fresher category.
pub const FRESHER_QUESTION: &'static str = "Are you a fresher?";

/// The request for a preferred name.
pub const NAME_PROMPT: &'static str = "And a preferred name for Nano whois commands";

/// The heading of the form for the preferred name.
pub const NAME_FORM_TITLE: &'static str = "Preferred Name";

/// How the membership path works.
pub const MEMBERSHIP_INTRO: &'static str = "To use automatic verification via Membership:\n\
- Enter your Union order number (from this academic year)\n\
- Enter your Imperial shortcode\n  \
- For Life members, your shortcode will be from when you were a student\n  \
- For Associate members, this is your CID, in the format `AM-12345` or similar\n\
- Enter your preferred name for Nano whois commands\n\
- Your shortcode will then be connected to your Discord Account by Nano\n\n\
First, are you a fresher?\n";

/// The heading of the membership form.
pub const MEMBERSHIP_FORM_TITLE: &'static str = "ICAS Membership Verification";

/// The answer where the roster cannot be had.
pub const ROSTER_UNAVAILABLE_MSG: &'static str =
    "Sorry, getting membership data failed. Please try again";

/// The answer where the roster does not hold the order.
pub const ORDER_NOT_FOUND_MSG: &'static str = "Sorry, your order was not found, please check the \
order number and that it is for your current year's membership";

/// How the manual path works.
pub const MANUAL_INTRO: &'static str = "Submit details to be manually checked by a committee member:\n\
- Your Imperial Shortcode\n\
- Your First and Last Names as on your Imperial record\n\
- Preferred First and Last Names for the Nano whois command\n\
- URL to proof of being an Imperial student, e.g. photo of College ID Card \
or screenshot of College Acceptance Letter, if you need to upload this, \
you can send it in a DM and then copy the image URL\n\n\
We try to respond quickly but this may take a day or two during busy term times :)\n\n\
First, are you a fresher?\n";

/// The heading of the form for manual review.
pub const MANUAL_FORM_TITLE: &'static str = "Manual Verification";

/// The answer to an address that is no URL.
pub const INVALID_URL_MSG: &'static str = "The url provided is invalid, please try again";

/// The answer where the request was posted and written.
pub const REQUEST_SENT_MSG: &'static str =
    "Thanks, your verification request has been sent, we'll try to get back to you quickly!";

/// The answer where the request was posted and not written.
pub const REQUEST_ISSUE_MSG: &'static str =
    "Thanks, your verification request has been sent, but there was an issue, please ask a Committee member to take a look!";

/// The answer where the request was not posted.
pub const REQUEST_FAILED_MSG: &'static str =
    "Sending your verification request failed, please try again.";

/// The congratulation of a member who is no fresher.
pub const VERIFIED_MSG: &'static str = "Congratulations, you have completed verification and now \
have access to the ICAS Discord";

/// The congratulation of a fresher.
pub const VERIFIED_FRESHER_MSG: &'static str = "Congratulations, you have completed verification and now \
have access to the ICAS Discord and freshers thread";

/// The heading of a request that was accepted.
pub const REVIEW_VERIFIED_TITLE: &'static str = "Member verified via manual";

/// The heading of a request that was denied.
pub const REVIEW_DENIED_TITLE: &'static str = "Member denied via manual";

/// The text of an answer that does not depend on the person; for the
/// failure of an acceptance, which names the person, the empty text.
pub open spec fn spec_fixed_text(notice: Notice) -> Seq<char> {
    match notice {
        Notice::Info => INFO_MSG@,
        Notice::Unknown => UNKNOWN_MSG@,
        Notice::Sorry => SORRY_MSG@,
        Notice::PathChoice { .. } => START_MSG@,
        Notice::AlreadyVerified => ALREADY_VERIFIED_MSG@,
        Notice::LoginIntro => LOGIN_INTRO@,
        Notice::LoginIncomplete => LOGIN_INCOMPLETE_MSG@,
        Notice::LoginForm => LOGIN_FORM@,
        Notice::LoginFresher => FRESHER_QUESTION@,
        Notice::LoginName(_) => NAME_PROMPT@,
        Notice::LoginModal(_) => NAME_FORM_TITLE@,
        Notice::MembershipIntro => MEMBERSHIP_INTRO@,
        Notice::MembershipModal(_) => MEMBERSHIP_FORM_TITLE@,
        Notice::RosterUnavailable => ROSTER_UNAVAILABLE_MSG@,
        Notice::OrderNotFound => ORDER_NOT_FOUND_MSG@,
        Notice::ManualIntro => MANUAL_INTRO@,
        Notice::ManualModal(_) => MANUAL_FORM_TITLE@,
        Notice::InvalidUrl => INVALID_URL_MSG@,
        Notice::RequestSent => REQUEST_SENT_MSG@,
        Notice::RequestSentWithIssue => REQUEST_ISSUE_MSG@,
        Notice::RequestNotSent => REQUEST_FAILED_MSG@,
        Notice::Verified(Fresher::No) => VERIFIED_MSG@,
        Notice::Verified(_) => VERIFIED_FRESHER_MSG@,
        Notice::ReviewVerified => REVIEW_VERIFIED_TITLE@,
        Notice::ReviewDenied => REVIEW_DENIED_TITLE@,
        Notice::ReviewFailed => Seq::empty(),
    }
}

/// The text of an answer about the person `subject`.
pub open spec fn spec_text(notice: Notice, subject: u64) -> Seq<char> {
    match notice {
        Notice::ReviewFailed => "Failed to add user "@ + spec_mention(subject)
            + " to member database"@,
        _ => spec_fixed_text(notice),
    }
}

/// How an answer is delivered.
pub open spec fn spec_delivery(notice: Notice) -> Delivery {
    match notice {
        Notice::Info | Notice::Unknown | Notice::Sorry | Notice::AlreadyVerified
        | Notice::LoginIncomplete | Notice::RosterUnavailable | Notice::OrderNotFound
        | Notice::InvalidUrl => Delivery::Message { ephemeral: true },
        Notice::PathChoice { fresh } => if fresh {
            Delivery::Message { ephemeral: true }
        } else {
            Delivery::Update
        },
        Notice::LoginModal(_) | Notice::MembershipModal(_) | Notice::ManualModal(_) => Delivery::Modal,
        _ => Delivery::Update,
    }
}

/// The steps that an answer offers as buttons, in the order shown.
pub open spec fn spec_offers(notice: Notice) -> Seq<Step> {
    match notice {
        Notice::PathChoice { .. } => seq![Step::Login1, Step::Membership1, Step::Manual1],
        Notice::LoginIntro => seq![Step::Restart, Step::Login2],
        Notice::LoginForm => seq![Step::Login1, Step::Login3],
        Notice::LoginFresher => seq![
            Step::Login2,
            Step::Login4(Fresher::YesUg),
            Step::Login4(Fresher::No),
            Step::Login4(Fresher::YesPg),
        ],
        Notice::LoginName(fresher) => seq![Step::Login3, Step::Login5(fresher)],
        Notice::MembershipIntro => seq![
            Step::Restart,
            Step::Membership2(Fresher::YesUg),
            Step::Membership2(Fresher::No),
            Step::Membership2(Fresher::YesPg),
        ],
        Notice::ManualIntro => seq![
            Step::Restart,
            Step::Manual2(Fresher::YesUg),
            Step::Manual2(Fresher::No),
            Step::Manual2(Fresher::YesPg),
        ],
        _ => Seq::empty(),
    }
}

/// The step that the form opened by an answer is submitted under.
pub open spec fn spec_opens(notice: Notice) -> Option<Sheet> {
    match notice {
        Notice::LoginModal(fresher) => Some(Sheet::Login6(fresher)),
        Notice::MembershipModal(fresher) => Some(Sheet::Membership3(fresher)),
        Notice::ManualModal(fresher) => Some(Sheet::Manual3(fresher)),
        _ => None,
    }
}

/// The heading of the note that tells the committee of a new member.
pub fn audit_title(path: Path) -> (title: &'static str)
    ensures
        title@ == spec_audit_title(path),
{
    match path {
        Path::Login => "Member verified via login",
        Path::Membership => "Member verified via membership",
        Path::Manual => "Member verified via manual",
    }
}

/// How a person is mentioned in a message.
pub fn mention(identity: u64) -> (t: String)
    ensures
        t@ == spec_mention(identity),
{
    let mut t = String::from_str("<@");
    let number = render(identity);
    t.append(number.as_str());
    t.append(">");
    t
}

/// The address at which a person logs in with the identity provider.
pub fn login_link(identity: u64) -> (t: String)
    ensures
        t@ == spec_login_link(identity),
{
    let mut t = String::from_str("https://icas.8bitsqu.id/verify?id=");
    let number = render(identity);
    t.append(number.as_str());
    t
}

/// The public welcome of a new member.
pub fn welcome_text(identity: u64, fresher: Fresher) -> (t: String)
    ensures
        t@ == spec_welcome_text(identity, fresher),
{
    let mut t = String::from_str("Welcome to ICAS ");
    let who = mention(identity);
    t.append(who.as_str());
    t.append(", if you have any questions, feel free to ping a committee member");
    t.append(
        match fresher {
            Fresher::No => "",
            Fresher::YesPg => ", and look out for other postgraduate freshers in green",
            Fresher::YesUg => ", and look out for other freshers in green",
        },
    );
    t.append("!");
    t
}

impl Notice {
    /// The text of this answer that does not depend on the person.
    fn fixed_text(self) -> (t: &'static str)
        ensures
            t@ == spec_fixed_text(self),
    {
        match self {
            Notice::Info => INFO_MSG,
            Notice::Unknown => UNKNOWN_MSG,
            Notice::Sorry => SORRY_MSG,
            Notice::PathChoice { .. } => START_MSG,
            Notice::AlreadyVerified => ALREADY_VERIFIED_MSG,
            Notice::LoginIntro => LOGIN_INTRO,
            Notice::LoginIncomplete => LOGIN_INCOMPLETE_MSG,
            Notice::LoginForm => LOGIN_FORM,
            Notice::LoginFresher => FRESHER_QUESTION,
            Notice::LoginName(_) => NAME_PROMPT,
            Notice::LoginModal(_) => NAME_FORM_TITLE,
            Notice::MembershipIntro => MEMBERSHIP_INTRO,
            Notice::MembershipModal(_) => MEMBERSHIP_FORM_TITLE,
            Notice::RosterUnavailable => ROSTER_UNAVAILABLE_MSG,
            Notice::OrderNotFound => ORDER_NOT_FOUND_MSG,
            Notice::ManualIntro => MANUAL_INTRO,
            Notice::ManualModal(_) => MANUAL_FORM_TITLE,
            Notice::InvalidUrl => INVALID_URL_MSG,
            Notice::RequestSent => REQUEST_SENT_MSG,
            Notice::RequestSentWithIssue => REQUEST_ISSUE_MSG,
            Notice::RequestNotSent => REQUEST_FAILED_MSG,
            Notice::Verified(Fresher::No) => VERIFIED_MSG,
            Notice::Verified(_) => VERIFIED_FRESHER_MSG,
            Notice::ReviewVerified => REVIEW_VERIFIED_TITLE,
            Notice::ReviewDenied => REVIEW_DENIED_TITLE,
            Notice::ReviewFailed => {
                proof {
                    reveal_strlit("");
                }
                assert(""@ =~= Seq::<char>::empty());
                ""
            },
        }
    }

    /// The text of this answer about the person `subject`.
    pub fn text(self, subject: u64) -> (t: String)
        ensures
            t@ == spec_text(self, subject),
    {
        match self {
            Notice::ReviewFailed => {
                let mut t = String::from_str("Failed to add user ");
                let who = mention(subject);
                t.append(who.as_str());
                t.append(" to member database");
                t
            },
            _ => String::from_str(self.fixed_text()),
        }
    }

    /// The kind of trouble that this answer reports, if any.
    pub fn trouble(self) -> (kind: Option<Trouble>)
        ensures
            kind == spec_trouble(self),
    {
        match self {
            Notice::Sorry | Notice::RosterUnavailable | Notice::RequestSentWithIssue
            | Notice::RequestNotSent => Some(Trouble::Transient),
            Notice::LoginIncomplete | Notice::ReviewFailed => Some(Trouble::NotFound),
            Notice::InvalidUrl | Notice::OrderNotFound => Some(Trouble::Validation),
            Notice::Unknown => Some(Trouble::Fatal),
            _ => None,
        }
    }

    /// How this answer is delivered.
    pub fn delivery(self) -> (d: Delivery)
        ensures
            d == spec_delivery(self),
    {
        match self {
            Notice::Info | Notice::Unknown | Notice::Sorry | Notice::AlreadyVerified
            | Notice::LoginIncomplete | Notice::RosterUnavailable | Notice::OrderNotFound
            | Notice::InvalidUrl => Delivery::Message { ephemeral: true },
            Notice::PathChoice { fresh } => if fresh {
                Delivery::Message { ephemeral: true }
            } else {
                Delivery::Update
            },
            Notice::LoginModal(_) | Notice::MembershipModal(_) | Notice::ManualModal(_) => Delivery::Modal,
            _ => Delivery::Update,
        }
    }

    /// The steps that this answer offers as buttons, in the order shown.
    pub fn offers(self) -> (steps: Vec<Step>)
        ensures
            steps@ == spec_offers(self),
    {
        let steps = match self {
            Notice::PathChoice { .. } => vec![Step::Login1, Step::Membership1, Step::Manual1],
            Notice::LoginIntro => vec![Step::Restart, Step::Login2],
            Notice::LoginForm => vec![Step::Login1, Step::Login3],
            Notice::LoginFresher => vec![
                Step::Login2,
                Step::Login4(Fresher::YesUg),
                Step::Login4(Fresher::No),
                Step::Login4(Fresher::YesPg),
            ],
            Notice::LoginName(fresher) => vec![Step::Login3, Step::Login5(fresher)],
            Notice::MembershipIntro => vec![
                Step::Restart,
                Step::Membership2(Fresher::YesUg),
                Step::Membership2(Fresher::No),
                Step::Membership2(Fresher::YesPg),
            ],
            Notice::ManualIntro => vec![
                Step::Restart,
                Step::Manual2(Fresher::YesUg),
                Step::Manual2(Fresher::No),
                Step::Manual2(Fresher::YesPg),
            ],
            _ => Vec::new(),
        };
        assert(steps@ =~= spec_offers(self));
        steps
    }

    /// The step that the form opened by this answer is submitted under.
    pub fn opens(self) -> (sheet: Option<Sheet>)
        ensures
            sheet == spec_opens(self),
    {
        match self {
            Notice::LoginModal(fresher) => Some(Sheet::Login6(fresher)),
            Notice::MembershipModal(fresher) => Some(Sheet::Membership3(fresher)),
            Notice::ManualModal(fresher) => Some(Sheet::Manual3(fresher)),
            _ => None,
        }
    }
}

} // verus!
