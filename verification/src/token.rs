//! The tokens that buttons and forms carry: which step of the workflow an
//! interaction names. A token is read into a value of a closed set, and a
//! value is written back as the token that names it.

use crate::decimal::{digits, lemma_parse_of_digits, parse_u64_from, render, spec_parse_u64};
use crate::fresher::Fresher;
use crate::text::same_text;
use vstd::prelude::*;
use vstd::string::*;

verus! {

/// What a committee member decides on a request for manual review.
#[derive(Clone, Copy, Debug, PartialEq, Eq, Structural)]
pub enum Decision {
    Accept,
    Deny,
}

/// A step that a button names.
#[derive(Clone, Copy, Debug, PartialEq, Eq, Structural)]
pub enum Step {
    Info,
    Start,
    Restart,
    Login1,
    Login2,
    Login3,
    Login4(Fresher),
    Login5(Fresher),
    Membership1,
    Membership2(Fresher),
    Manual1,
    Manual2(Fresher),
    /// A committee member's decision on the request of the given identity.
    Review(Decision, u64),
}

/// A step that a submitted form names.
#[derive(Clone, Copy, Debug, PartialEq, Eq, Structural)]
pub enum Sheet {
    Login6(Fresher),
    Membership3(Fresher),
    Manual3(Fresher),
}

/// The token of a step that carries no identity.
pub open spec fn spec_fixed_token(step: Step) -> Seq<char> {
    match step {
        Step::Info => "info"@,
        Step::Start => "start"@,
        Step::Restart => "restart"@,
        Step::Login1 => "login_1"@,
        Step::Login2 => "login_2"@,
        Step::Login3 => "login_3"@,
        Step::Login4(Fresher::No) => "login_4n"@,
        Step::Login4(Fresher::YesPg) => "login_4p"@,
        Step::Login4(Fresher::YesUg) => "login_4u"@,
        Step::Login5(Fresher::No) => "login_5n"@,
        Step::Login5(Fresher::YesPg) => "login_5p"@,
        Step::Login5(Fresher::YesUg) => "login_5u"@,
        Step::Membership1 => "membership_1"@,
        Step::Membership2(Fresher::No) => "membership_2n"@,
        Step::Membership2(Fresher::YesPg) => "membership_2p"@,
        Step::Membership2(Fresher::YesUg) => "membership_2u"@,
        Step::Manual1 => "manual_1"@,
        Step::Manual2(Fresher::No) => "manual_2n"@,
        Step::Manual2(Fresher::YesPg) => "manual_2p"@,
        Step::Manual2(Fresher::YesUg) => "manual_2u"@,
        Step::Review(_, _) => Seq::empty(),
    }
}

/// The token of a decision: `verify-`, then `y` to accept or `n` to deny, a
/// hyphen, and the identity in decimal.
pub open spec fn spec_review_token(decision: Decision, identity: u64) -> Seq<char> {
    match decision {
        Decision::Accept => "verify-y-"@ + digits(identity as nat),
        Decision::Deny => "verify-n-"@ + digits(identity as nat),
    }
}

/// The token that names a step.
pub open spec fn spec_token(step: Step) -> Seq<char> {
    match step {
        Step::Review(decision, identity) => spec_review_token(decision, identity),
        _ => spec_fixed_token(step),
    }
}

/// The decision that a token names: the first seven characters are
/// `verify-`, the eighth is `y` or `n`, the ninth a hyphen, and the rest
/// writes the identity.
pub open spec fn spec_parse_review(token: Seq<char>) -> Option<(Decision, u64)> {
    if token.len() >= 9 && token.take(7) == "verify-"@ && (token[7] == 'y' || token[7] == 'n')
        && token[8] == '-' {
        match spec_parse_u64(token.skip(9)) {
            Some(identity) => Some(
                (
                    if token[7] == 'y' {
                        Decision::Accept
                    } else {
                        Decision::Deny
                    },
                    identity,
                ),
            ),
            None => None,
        }
    } else {
        None
    }
}

/// The step that a button's token names, `None` for any other text.
pub open spec fn spec_parse_step(token: Seq<char>) -> Option<Step> {
    if token == "info"@ {
        Some(Step::Info)
    } else if token == "start"@ {
        Some(Step::Start)
    } else if token == "restart"@ {
        Some(Step::Restart)
    } else if token == "login_1"@ {
        Some(Step::Login1)
    } else if token == "login_2"@ {
        Some(Step::Login2)
    } else if token == "login_3"@ {
        Some(Step::Login3)
    } else if token == "login_4n"@ {
        Some(Step::Login4(Fresher::No))
    } else if token == "login_4p"@ {
        Some(Step::Login4(Fresher::YesPg))
    } else if token == "login_4u"@ {
        Some(Step::Login4(Fresher::YesUg))
    } else if token == "login_5n"@ {
        Some(Step::Login5(Fresher::No))
    } else if token == "login_5p"@ {
        Some(Step::Login5(Fresher::YesPg))
    } else if token == "login_5u"@ {
        Some(Step::Login5(Fresher::YesUg))
    } else if token == "membership_1"@ {
        Some(Step::Membership1)
    } else if token == "membership_2n"@ {
        Some(Step::Membership2(Fresher::No))
    } else if token == "membership_2p"@ {
        Some(Step::Membership2(Fresher::YesPg))
    } else if token == "membership_2u"@ {
        Some(Step::Membership2(Fresher::YesUg))
    } else if token == "manual_1"@ {
        Some(Step::Manual1)
    } else if token == "manual_2n"@ {
        Some(Step::Manual2(Fresher::No))
    } else if token == "manual_2p"@ {
        Some(Step::Manual2(Fresher::YesPg))
    } else if token == "manual_2u"@ {
        Some(Step::Manual2(Fresher::YesUg))
    } else {
        match spec_parse_review(token) {
            Some((decision, identity)) => Some(Step::Review(decision, identity)),
            None => None,
        }
    }
}

/// The token that names a form's step.
pub open spec fn spec_sheet_token(sheet: Sheet) -> Seq<char> {
    match sheet {
        Sheet::Login6(Fresher::No) => "login_6n"@,
        Sheet::Login6(Fresher::YesPg) => "login_6p"@,
        Sheet::Login6(Fresher::YesUg) => "login_6u"@,
        Sheet::Membership3(Fresher::No) => "membership_3n"@,
        Sheet::Membership3(Fresher::YesPg) => "membership_3p"@,
        Sheet::Membership3(Fresher::YesUg) => "membership_3u"@,
        Sheet::Manual3(Fresher::No) => "manual_3n"@,
        Sheet::Manual3(Fresher::YesPg) => "manual_3p"@,
        Sheet::Manual3(Fresher::YesUg) => "manual_3u"@,
    }
}

/// The step that a submitted form's token names, `None` for any other text.
pub open spec fn spec_parse_sheet(token: Seq<char>) -> Option<Sheet> {
    if token == "login_6n"@ {
        Some(Sheet::Login6(Fresher::No))
    } else if token == "login_6p"@ {
        Some(Sheet::Login6(Fresher::YesPg))
    } else if token == "login_6u"@ {
        Some(Sheet::Login6(Fresher::YesUg))
    } else if token == "membership_3n"@ {
        Some(Sheet::Membership3(Fresher::No))
    } else if token == "membership_3p"@ {
        Some(Sheet::Membership3(Fresher::YesPg))
    } else if token == "membership_3u"@ {
        Some(Sheet::Membership3(Fresher::YesUg))
    } else if token == "manual_3n"@ {
        Some(Sheet::Manual3(Fresher::No))
    } else if token == "manual_3p"@ {
        Some(Sheet::Manual3(Fresher::YesPg))
    } else if token == "manual_3u"@ {
        Some(Sheet::Manual3(Fresher::YesUg))
    } else {
        None
    }
}

/// Whether a token belongs to the buttons that register or remove the
/// application's commands, which the workflow leaves alone.
pub open spec fn spec_is_registration(token: Seq<char>) -> bool {
    token == "register.global"@ || token == "unregister.global"@ || token == "register.guild"@
        || token == "unregister.guild"@
}

/// Whether a token belongs to the buttons that register or remove the
/// application's commands.
pub fn is_registration(token: &str) -> (r: bool)
    ensures
        r == spec_is_registration(token@),
{
    same_text(token, "register.global") || same_text(token, "unregister.global") || same_text(
        token,
        "register.guild",
    ) || same_text(token, "unregister.guild")
}

/// Reads the token of a committee member's decision.
pub fn parse_review(token: &str) -> (r: Option<(Decision, u64)>)
    ensures
        r == spec_parse_review(token@),
{
    proof {
        reveal_strlit("verify-");
    }
    let len: usize = token.unicode_len();
    if len < 9 {
        return None;
    }
    let lead = token.get_char(0) == 'v' && token.get_char(1) == 'e' && token.get_char(2) == 'r'
        && token.get_char(3) == 'i' && token.get_char(4) == 'f' && token.get_char(5) == 'y'
        && token.get_char(6) == '-';
    proof {
        let head = token@.take(7);
        assert(head[0] == token@[0] && head[1] == token@[1] && head[2] == token@[2] && head[3]
            == token@[3] && head[4] == token@[4] && head[5] == token@[5] && head[6] == token@[6]);
        if lead {
            assert(head =~= "verify-"@);
        }
    }
    if !lead {
        return None;
    }
    let mark = token.get_char(7);
    if !(mark == 'y' || mark == 'n') || token.get_char(8) != '-' {
        return None;
    }
    match parse_u64_from(token, 9) {
        Some(identity) => Some(
            (
                if mark == 'y' {
                    Decision::Accept
                } else {
                    Decision::Deny
                },
                identity,
            ),
        ),
        None => None,
    }
}

/// Reads the token of a button.
pub fn parse_step(token: &str) -> (r: Option<Step>)
    ensures
        r == spec_parse_step(token@),
{
    if same_text(token, "info") {
        Some(Step::Info)
    } else if same_text(token, "start") {
        Some(Step::Start)
    } else if same_text(token, "restart") {
        Some(Step::Restart)
    } else if same_text(token, "login_1") {
        Some(Step::Login1)
    } else if same_text(token, "login_2") {
        Some(Step::Login2)
    } else if same_text(token, "login_3") {
        Some(Step::Login3)
    } else if same_text(token, "login_4n") {
        Some(Step::Login4(Fresher::No))
    } else if same_text(token, "login_4p") {
        Some(Step::Login4(Fresher::YesPg))
    } else if same_text(token, "login_4u") {
        Some(Step::Login4(Fresher::YesUg))
    } else if same_text(token, "login_5n") {
        Some(Step::Login5(Fresher::No))
    } else if same_text(token, "login_5p") {
        Some(Step::Login5(Fresher::YesPg))
    } else if same_text(token, "login_5u") {
        Some(Step::Login5(Fresher::YesUg))
    } else if same_text(token, "membership_1") {
        Some(Step::Membership1)
    } else if same_text(token, "membership_2n") {
        Some(Step::Membership2(Fresher::No))
    } else if same_text(token, "membership_2p") {
        Some(Step::Membership2(Fresher::YesPg))
    } else if same_text(token, "membership_2u") {
        Some(Step::Membership2(Fresher::YesUg))
    } else if same_text(token, "manual_1") {
        Some(Step::Manual1)
    } else if same_text(token, "manual_2n") {
        Some(Step::Manual2(Fresher::No))
    } else if same_text(token, "manual_2p") {
        Some(Step::Manual2(Fresher::YesPg))
    } else if same_text(token, "manual_2u") {
        Some(Step::Manual2(Fresher::YesUg))
    } else {
        match parse_review(token) {
            Some((decision, identity)) => Some(Step::Review(decision, identity)),
            None => None,
        }
    }
}

/// Reads the token of a submitted form.
pub fn parse_sheet(token: &str) -> (r: Option<Sheet>)
    ensures
        r == spec_parse_sheet(token@),
{
    if same_text(token, "login_6n") {
        Some(Sheet::Login6(Fresher::No))
    } else if same_text(token, "login_6p") {
        Some(Sheet::Login6(Fresher::YesPg))
    } else if same_text(token, "login_6u") {
        Some(Sheet::Login6(Fresher::YesUg))
    } else if same_text(token, "membership_3n") {
        Some(Sheet::Membership3(Fresher::No))
    } else if same_text(token, "membership_3p") {
        Some(Sheet::Membership3(Fresher::YesPg))
    } else if same_text(token, "membership_3u") {
        Some(Sheet::Membership3(Fresher::YesUg))
    } else if same_text(token, "manual_3n") {
        Some(Sheet::Manual3(Fresher::No))
    } else if same_text(token, "manual_3p") {
        Some(Sheet::Manual3(Fresher::YesPg))
    } else if same_text(token, "manual_3u") {
        Some(Sheet::Manual3(Fresher::YesUg))
    } else {
        None
    }
}

impl Step {
    /// Writes the token that names this step.
    pub fn token(&self) -> (t: String)
        ensures
            t@ == spec_token(*self),
    {
        match self {
            Step::Info => String::from_str("info"),
            Step::Start => String::from_str("start"),
            Step::Restart => String::from_str("restart"),
            Step::Login1 => String::from_str("login_1"),
            Step::Login2 => String::from_str("login_2"),
            Step::Login3 => String::from_str("login_3"),
            Step::Login4(Fresher::No) => String::from_str("login_4n"),
            Step::Login4(Fresher::YesPg) => String::from_str("login_4p"),
            Step::Login4(Fresher::YesUg) => String::from_str("login_4u"),
            Step::Login5(Fresher::No) => String::from_str("login_5n"),
            Step::Login5(Fresher::YesPg) => String::from_str("login_5p"),
            Step::Login5(Fresher::YesUg) => String::from_str("login_5u"),
            Step::Membership1 => String::from_str("membership_1"),
            Step::Membership2(Fresher::No) => String::from_str("membership_2n"),
            Step::Membership2(Fresher::YesPg) => String::from_str("membership_2p"),
            Step::Membership2(Fresher::YesUg) => String::from_str("membership_2u"),
            Step::Manual1 => String::from_str("manual_1"),
            Step::Manual2(Fresher::No) => String::from_str("manual_2n"),
            Step::Manual2(Fresher::YesPg) => String::from_str("manual_2p"),
            Step::Manual2(Fresher::YesUg) => String::from_str("manual_2u"),
            Step::Review(decision, identity) => {
                let mut t = match decision {
                    Decision::Accept => String::from_str("verify-y-"),
                    Decision::Deny => String::from_str("verify-n-"),
                };
                let number = render(*identity);
                t.append(number.as_str());
                t
            },
        }
    }
}

impl Sheet {
    /// Writes the token that names this form's step.
    pub fn token(&self) -> (t: String)
        ensures
            t@ == spec_sheet_token(*self),
    {
        match self {
            Sheet::Login6(Fresher::No) => String::from_str("login_6n"),
            Sheet::Login6(Fresher::YesPg) => String::from_str("login_6p"),
            Sheet::Login6(Fresher::YesUg) => String::from_str("login_6u"),
            Sheet::Membership3(Fresher::No) => String::from_str("membership_3n"),
            Sheet::Membership3(Fresher::YesPg) => String::from_str("membership_3p"),
            Sheet::Membership3(Fresher::YesUg) => String::from_str("membership_3u"),
            Sheet::Manual3(Fresher::No) => String::from_str("manual_3n"),
            Sheet::Manual3(Fresher::YesPg) => String::from_str("manual_3p"),
            Sheet::Manual3(Fresher::YesUg) => String::from_str("manual_3u"),
        }
    }
}

/// Makes known what the fixed tokens of buttons hold.
proof fn reveal_step_tokens()
    ensures
        "info"@ == seq!['i', 'n', 'f', 'o'],
        "start"@ == seq!['s', 't', 'a', 'r', 't'],
        "restart"@ == seq!['r', 'e', 's', 't', 'a', 'r', 't'],
        "login_1"@ == seq!['l', 'o', 'g', 'i', 'n', '_', '1'],
        "login_2"@ == seq!['l', 'o', 'g', 'i', 'n', '_', '2'],
        "login_3"@ == seq!['l', 'o', 'g', 'i', 'n', '_', '3'],
        "login_4n"@ == seq!['l', 'o', 'g', 'i', 'n', '_', '4', 'n'],
        "login_4p"@ == seq!['l', 'o', 'g', 'i', 'n', '_', '4', 'p'],
        "login_4u"@ == seq!['l', 'o', 'g', 'i', 'n', '_', '4', 'u'],
        "login_5n"@ == seq!['l', 'o', 'g', 'i', 'n', '_', '5', 'n'],
        "login_5p"@ == seq!['l', 'o', 'g', 'i', 'n', '_', '5', 'p'],
        "login_5u"@ == seq!['l', 'o', 'g', 'i', 'n', '_', '5', 'u'],
        "membership_1"@ == seq!['m', 'e', 'm', 'b', 'e', 'r', 's', 'h', 'i', 'p', '_', '1'],
        "membership_2n"@ == seq!['m', 'e', 'm', 'b', 'e', 'r', 's', 'h', 'i', 'p', '_', '2', 'n'],
        "membership_2p"@ == seq!['m', 'e', 'm', 'b', 'e', 'r', 's', 'h', 'i', 'p', '_', '2', 'p'],
        "membership_2u"@ == seq!['m', 'e', 'm', 'b', 'e', 'r', 's', 'h', 'i', 'p', '_', '2', 'u'],
        "manual_1"@ == seq!['m', 'a', 'n', 'u', 'a', 'l', '_', '1'],
        "manual_2n"@ == seq!['m', 'a', 'n', 'u', 'a', 'l', '_', '2', 'n'],
        "manual_2p"@ == seq!['m', 'a', 'n', 'u', 'a', 'l', '_', '2', 'p'],
        "manual_2u"@ == seq!['m', 'a', 'n', 'u', 'a', 'l', '_', '2', 'u'],
{
    reveal_strlit("info");
    reveal_strlit("start");
    reveal_strlit("restart");
    reveal_strlit("login_1");
    reveal_strlit("login_2");
    reveal_strlit("login_3");
    reveal_strlit("login_4n");
    reveal_strlit("login_4p");
    reveal_strlit("login_4u");
    reveal_strlit("login_5n");
    reveal_strlit("login_5p");
    reveal_strlit("login_5u");
    reveal_strlit("membership_1");
    reveal_strlit("membership_2n");
    reveal_strlit("membership_2p");
    reveal_strlit("membership_2u");
    reveal_strlit("manual_1");
    reveal_strlit("manual_2n");
    reveal_strlit("manual_2p");
    reveal_strlit("manual_2u");
}

/// A decision's token is read back as that decision on that identity.
pub proof fn lemma_review_round_trip(decision: Decision, identity: u64)
    ensures
        spec_parse_review(spec_review_token(decision, identity)) == Some((decision, identity)),
        spec_review_token(decision, identity).len() >= 10,
        spec_review_token(decision, identity)[0] == 'v',
{
    reveal_strlit("verify-");
    reveal_strlit("verify-y-");
    reveal_strlit("verify-n-");
    let token = spec_review_token(decision, identity);
    let number = digits(identity as nat);
    crate::decimal::lemma_number_of_digits(identity as nat);
    lemma_parse_of_digits(identity);
    assert(token.skip(9) =~= number);
    assert(token.take(7) =~= "verify-"@);
}

/// Makes known what the tokens of forms hold.
proof fn reveal_sheet_tokens()
    ensures
        "login_6n"@ == seq!['l', 'o', 'g', 'i', 'n', '_', '6', 'n'],
        "login_6p"@ == seq!['l', 'o', 'g', 'i', 'n', '_', '6', 'p'],
        "login_6u"@ == seq!['l', 'o', 'g', 'i', 'n', '_', '6', 'u'],
        "membership_3n"@ == seq!['m', 'e', 'm', 'b', 'e', 'r', 's', 'h', 'i', 'p', '_', '3', 'n'],
        "membership_3p"@ == seq!['m', 'e', 'm', 'b', 'e', 'r', 's', 'h', 'i', 'p', '_', '3', 'p'],
        "membership_3u"@ == seq!['m', 'e', 'm', 'b', 'e', 'r', 's', 'h', 'i', 'p', '_', '3', 'u'],
        "manual_3n"@ == seq!['m', 'a', 'n', 'u', 'a', 'l', '_', '3', 'n'],
        "manual_3p"@ == seq!['m', 'a', 'n', 'u', 'a', 'l', '_', '3', 'p'],
        "manual_3u"@ == seq!['m', 'a', 'n', 'u', 'a', 'l', '_', '3', 'u'],
{
    reveal_strlit("login_6n");
    reveal_strlit("login_6p");
    reveal_strlit("login_6u");
    reveal_strlit("membership_3n");
    reveal_strlit("membership_3p");
    reveal_strlit("membership_3u");
    reveal_strlit("manual_3n");
    reveal_strlit("manual_3p");
    reveal_strlit("manual_3u");
}

/// Reading the token of a step gives the step back.
pub proof fn lemma_step_round_trip(step: Step)
    ensures
        spec_parse_step(spec_token(step)) == Some(step),
{
    reveal_step_tokens();
    if let Step::Review(decision, identity) = step {
        lemma_review_round_trip(decision, identity);
    }
}

/// Reading the token of a form's step gives the step back.
pub proof fn lemma_sheet_round_trip(sheet: Sheet)
    ensures
        spec_parse_sheet(spec_sheet_token(sheet)) == Some(sheet),
{
    reveal_sheet_tokens();
}

/// No form's token is a button's token, and none registers commands.
pub proof fn lemma_sheet_is_no_step(sheet: Sheet)
    ensures
        spec_parse_step(spec_sheet_token(sheet)) is None,
        !spec_is_registration(spec_sheet_token(sheet)),
{
    reveal_step_tokens();
    reveal_sheet_tokens();
    reveal_strlit("verify-");
    reveal_strlit("register.global");
    reveal_strlit("unregister.global");
    reveal_strlit("register.guild");
    reveal_strlit("unregister.guild");
}

} // verus!
