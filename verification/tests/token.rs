use nano::fresher::Fresher;
use nano::token::{is_registration, parse_review, parse_sheet, parse_step, Decision, Sheet, Step};

fn all_steps() -> Vec<Step> {
    let mut steps = vec![
        Step::Info,
        Step::Start,
        Step::Restart,
        Step::Login1,
        Step::Login2,
        Step::Login3,
        Step::Membership1,
        Step::Manual1,
        Step::Review(Decision::Accept, 99217900254035968),
        Step::Review(Decision::Deny, 0),
        Step::Review(Decision::Accept, u64::MAX),
    ];
    for fresher in [Fresher::No, Fresher::YesPg, Fresher::YesUg] {
        steps.push(Step::Login4(fresher));
        steps.push(Step::Login5(fresher));
        steps.push(Step::Membership2(fresher));
        steps.push(Step::Manual2(fresher));
    }
    steps
}

#[test]
fn step_tokens_are_the_documented_ones() {
    assert_eq!(Step::Info.token(), "info");
    assert_eq!(Step::Start.token(), "start");
    assert_eq!(Step::Restart.token(), "restart");
    assert_eq!(Step::Login1.token(), "login_1");
    assert_eq!(Step::Login2.token(), "login_2");
    assert_eq!(Step::Login3.token(), "login_3");
    assert_eq!(Step::Login4(Fresher::No).token(), "login_4n");
    assert_eq!(Step::Login4(Fresher::YesPg).token(), "login_4p");
    assert_eq!(Step::Login4(Fresher::YesUg).token(), "login_4u");
    assert_eq!(Step::Login5(Fresher::No).token(), "login_5n");
    assert_eq!(Step::Login5(Fresher::YesPg).token(), "login_5p");
    assert_eq!(Step::Login5(Fresher::YesUg).token(), "login_5u");
    assert_eq!(Step::Membership1.token(), "membership_1");
    assert_eq!(Step::Membership2(Fresher::No).token(), "membership_2n");
    assert_eq!(Step::Membership2(Fresher::YesPg).token(), "membership_2p");
    assert_eq!(Step::Membership2(Fresher::YesUg).token(), "membership_2u");
    assert_eq!(Step::Manual1.token(), "manual_1");
    assert_eq!(Step::Manual2(Fresher::No).token(), "manual_2n");
    assert_eq!(Step::Manual2(Fresher::YesPg).token(), "manual_2p");
    assert_eq!(Step::Manual2(Fresher::YesUg).token(), "manual_2u");
    assert_eq!(Step::Review(Decision::Accept, 42).token(), "verify-y-42");
    assert_eq!(Step::Review(Decision::Deny, 42).token(), "verify-n-42");
}

#[test]
fn every_step_token_reads_back() {
    for step in all_steps() {
        assert_eq!(parse_step(&step.token()), Some(step));
    }
}

#[test]
fn every_sheet_token_reads_back() {
    for fresher in [Fresher::No, Fresher::YesPg, Fresher::YesUg] {
        for sheet in [Sheet::Login6(fresher), Sheet::Membership3(fresher), Sheet::Manual3(fresher)] {
            assert_eq!(parse_sheet(&sheet.token()), Some(sheet));
            assert_eq!(parse_step(&sheet.token()), None);
        }
    }
    assert_eq!(Sheet::Login6(Fresher::YesUg).token(), "login_6u");
    assert_eq!(Sheet::Membership3(Fresher::No).token(), "membership_3n");
    assert_eq!(Sheet::Manual3(Fresher::YesPg).token(), "manual_3p");
}

#[test]
fn unknown_tokens_name_no_step() {
    for token in ["", "login_4", "login_4x", "login_7", "Login_1", "manual_2f", "membership_2f", "verify", "start ", "login_6n"] {
        assert_eq!(parse_step(token), None, "{token:?}");
    }
    for token in ["", "login_6", "login_5n", "manual_3f", "membership_3"] {
        assert_eq!(parse_sheet(token), None, "{token:?}");
    }
}

#[test]
fn review_token_is_read_at_fixed_places() {
    assert_eq!(parse_review("verify-y-123"), Some((Decision::Accept, 123)));
    assert_eq!(parse_review("verify-n-123"), Some((Decision::Deny, 123)));
    assert_eq!(parse_review("verify-y-0"), Some((Decision::Accept, 0)));
    assert_eq!(parse_review("verify-n-+7"), Some((Decision::Deny, 7)));
    assert_eq!(parse_review("verify-y-18446744073709551615"), Some((Decision::Accept, u64::MAX)));
}

#[test]
fn malformed_review_token_is_refused_not_denied() {
    for token in [
        "verify-",
        "verify-y",
        "verify-y-",
        "verify-x-123",
        "verify-Y-123",
        "verify-y_123",
        "verify-yy123",
        "verify-y-12a",
        "verify-y- 12",
        "verify-y--12",
        "verify-y-18446744073709551616",
        "verifyXy-123",
        "Verify-y-123",
        "verify-n-",
        "xverify-y-1",
    ] {
        assert_eq!(parse_review(token), None, "{token:?}");
        assert_eq!(parse_step(token), None, "{token:?}");
    }
}

#[test]
fn registration_buttons_are_recognised() {
    for token in ["register.global", "unregister.global", "register.guild", "unregister.guild"] {
        assert!(is_registration(token));
        assert_eq!(parse_step(token), None);
    }
    assert!(!is_registration("register"));
    assert!(!is_registration("start"));
    assert!(!is_registration(""));
}
