use nano::fresher::Fresher;
use nano::notice::{audit_title, login_link, mention, welcome_text, Delivery, Notice, Path, Trouble};
use nano::token::{Sheet, Step};

#[test]
fn mention_wraps_the_identity() {
    assert_eq!(mention(99217900254035968), "<@99217900254035968>");
    assert_eq!(mention(0), "<@0>");
}

#[test]
fn login_link_carries_the_identity() {
    assert_eq!(login_link(123456789), "https://icas.8bitsqu.id/verify?id=123456789");
}

#[test]
fn welcome_depends_on_the_fresher_category() {
    assert_eq!(
        welcome_text(42, Fresher::No),
        "Welcome to ICAS <@42>, if you have any questions, feel free to ping a committee member!"
    );
    assert_eq!(
        welcome_text(42, Fresher::YesPg),
        "Welcome to ICAS <@42>, if you have any questions, feel free to ping a committee member, and look out for other postgraduate freshers in green!"
    );
    assert_eq!(
        welcome_text(42, Fresher::YesUg),
        "Welcome to ICAS <@42>, if you have any questions, feel free to ping a committee member, and look out for other freshers in green!"
    );
}

#[test]
fn short_answers_have_their_exact_text() {
    assert_eq!(Notice::Sorry.text(1), "Sorry, something went wrong. Please try again");
    assert_eq!(
        Notice::Unknown.text(1),
        "Sorry, something went wrong. Please try again or message <@99217900254035968> for help"
    );
    assert_eq!(Notice::AlreadyVerified.text(1), "Welcome, you're already verified, re-applied your roles!");
    assert_eq!(Notice::LoginIncomplete.text(1), "Error, have you completed login verification via the link?");
    assert_eq!(Notice::LoginFresher.text(1), "Are you a fresher?");
    assert_eq!(Notice::LoginName(Fresher::No).text(1), "And a preferred name for Nano whois commands");
    assert_eq!(Notice::RosterUnavailable.text(1), "Sorry, getting membership data failed. Please try again");
    assert_eq!(
        Notice::OrderNotFound.text(1),
        "Sorry, your order was not found, please check the order number and that it is for your current year's membership"
    );
    assert_eq!(Notice::InvalidUrl.text(1), "The url provided is invalid, please try again");
    assert_eq!(Notice::ReviewVerified.text(1), "Member verified via manual");
    assert_eq!(Notice::ReviewDenied.text(1), "Member denied via manual");
    assert_eq!(Notice::ReviewFailed.text(77), "Failed to add user <@77> to member database");
}

#[test]
fn long_answers_keep_their_lines() {
    let choice = Notice::PathChoice { fresh: true }.text(1);
    assert_eq!(choice.lines().count(), 4);
    assert!(choice.starts_with("There are 3 available methods for verification.\n- 🚀 Automatic"));
    assert!(choice.contains("\n- ✈️ Automatic verification via ICAS Membership (Easiest)\n"));
    assert!(choice.ends_with("- 🚗 Manual verification, eg. using College ID Card or Acceptance Letter\n"));
    assert_eq!(Notice::PathChoice { fresh: false }.text(1), choice);
    let info = Notice::Info.text(1);
    assert_eq!(info.lines().count(), 5);
    assert!(info.ends_with("feel free to ping or message <@99217900254035968>\n"));
    let login = Notice::LoginIntro.text(1);
    assert_eq!(login.lines().count(), 6);
    let membership = Notice::MembershipIntro.text(1);
    assert_eq!(membership.lines().count(), 9);
    assert!(membership.contains("\n  - For Life members, your shortcode will be from when you were a student\n"));
    let manual = Notice::ManualIntro.text(1);
    assert_eq!(manual.lines().count(), 9);
    assert!(manual.contains("photo of College ID Card or screenshot of College Acceptance Letter, if you need to upload this, you can send it"));
    assert_eq!(
        Notice::LoginForm.text(1),
        "Congratulations, your Imperial shortcode has been connected to your Discord Account by Nano!\n\nThe last step is a short form with some extra details\n"
    );
}

#[test]
fn the_three_outcomes_of_a_request_read_differently() {
    let sent = Notice::RequestSent.text(1);
    let issue = Notice::RequestSentWithIssue.text(1);
    let failed = Notice::RequestNotSent.text(1);
    assert_eq!(sent, "Thanks, your verification request has been sent, we'll try to get back to you quickly!");
    assert_eq!(
        issue,
        "Thanks, your verification request has been sent, but there was an issue, please ask a Committee member to take a look!"
    );
    assert_eq!(failed, "Sending your verification request failed, please try again.");
}

#[test]
fn congratulations_mention_the_freshers_thread_for_freshers_only() {
    let plain = "Congratulations, you have completed verification and now have access to the ICAS Discord";
    let with_thread =
        "Congratulations, you have completed verification and now have access to the ICAS Discord and freshers thread";
    assert_eq!(Notice::Verified(Fresher::No).text(1), plain);
    assert_eq!(Notice::Verified(Fresher::YesPg).text(1), with_thread);
    assert_eq!(Notice::Verified(Fresher::YesUg).text(1), with_thread);
}

#[test]
fn delivery_follows_the_kind_of_answer() {
    assert_eq!(Notice::Info.delivery(), Delivery::Message { ephemeral: true });
    assert_eq!(Notice::PathChoice { fresh: true }.delivery(), Delivery::Message { ephemeral: true });
    assert_eq!(Notice::PathChoice { fresh: false }.delivery(), Delivery::Update);
    assert_eq!(Notice::LoginIntro.delivery(), Delivery::Update);
    assert_eq!(Notice::LoginIncomplete.delivery(), Delivery::Message { ephemeral: true });
    assert_eq!(Notice::LoginModal(Fresher::No).delivery(), Delivery::Modal);
    assert_eq!(Notice::MembershipModal(Fresher::YesUg).delivery(), Delivery::Modal);
    assert_eq!(Notice::ManualModal(Fresher::YesPg).delivery(), Delivery::Modal);
    assert_eq!(Notice::Verified(Fresher::No).delivery(), Delivery::Update);
    assert_eq!(Notice::RequestNotSent.delivery(), Delivery::Update);
    assert_eq!(Notice::ReviewFailed.delivery(), Delivery::Update);
    assert_eq!(Notice::ReviewDenied.delivery(), Delivery::Update);
    assert_eq!(Notice::Sorry.delivery(), Delivery::Message { ephemeral: true });
}

#[test]
fn answers_offer_the_next_steps() {
    assert_eq!(Notice::PathChoice { fresh: true }.offers(), vec![Step::Login1, Step::Membership1, Step::Manual1]);
    assert_eq!(Notice::LoginIntro.offers(), vec![Step::Restart, Step::Login2]);
    assert_eq!(Notice::LoginForm.offers(), vec![Step::Login1, Step::Login3]);
    assert_eq!(
        Notice::LoginFresher.offers(),
        vec![Step::Login2, Step::Login4(Fresher::YesUg), Step::Login4(Fresher::No), Step::Login4(Fresher::YesPg)]
    );
    assert_eq!(Notice::LoginName(Fresher::YesPg).offers(), vec![Step::Login3, Step::Login5(Fresher::YesPg)]);
    assert_eq!(
        Notice::MembershipIntro.offers(),
        vec![
            Step::Restart,
            Step::Membership2(Fresher::YesUg),
            Step::Membership2(Fresher::No),
            Step::Membership2(Fresher::YesPg)
        ]
    );
    assert_eq!(
        Notice::ManualIntro.offers(),
        vec![Step::Restart, Step::Manual2(Fresher::YesUg), Step::Manual2(Fresher::No), Step::Manual2(Fresher::YesPg)]
    );
    assert_eq!(Notice::Sorry.offers(), Vec::new());
    assert_eq!(Notice::Verified(Fresher::No).offers(), Vec::new());
}

#[test]
fn forms_are_submitted_under_the_next_step() {
    assert_eq!(Notice::LoginModal(Fresher::YesUg).opens(), Some(Sheet::Login6(Fresher::YesUg)));
    assert_eq!(Notice::MembershipModal(Fresher::No).opens(), Some(Sheet::Membership3(Fresher::No)));
    assert_eq!(Notice::ManualModal(Fresher::YesPg).opens(), Some(Sheet::Manual3(Fresher::YesPg)));
    assert_eq!(Notice::LoginName(Fresher::No).opens(), None);
    assert_eq!(Notice::Info.opens(), None);
}

#[test]
fn audit_note_is_headed_by_the_path() {
    assert_eq!(audit_title(Path::Login), "Member verified via login");
    assert_eq!(audit_title(Path::Membership), "Member verified via membership");
    assert_eq!(audit_title(Path::Manual), "Member verified via manual");
}

#[test]
fn troubles_are_told_apart() {
    assert_eq!(Notice::Sorry.trouble(), Some(Trouble::Transient));
    assert_eq!(Notice::RosterUnavailable.trouble(), Some(Trouble::Transient));
    assert_eq!(Notice::RequestNotSent.trouble(), Some(Trouble::Transient));
    assert_eq!(Notice::RequestSentWithIssue.trouble(), Some(Trouble::Transient));
    assert_eq!(Notice::LoginIncomplete.trouble(), Some(Trouble::NotFound));
    assert_eq!(Notice::ReviewFailed.trouble(), Some(Trouble::NotFound));
    assert_eq!(Notice::InvalidUrl.trouble(), Some(Trouble::Validation));
    assert_eq!(Notice::OrderNotFound.trouble(), Some(Trouble::Validation));
    assert_eq!(Notice::Unknown.trouble(), Some(Trouble::Fatal));
    assert_eq!(Notice::RequestSent.trouble(), None);
    assert_eq!(Notice::Verified(Fresher::No).trouble(), None);
    assert_eq!(Notice::PathChoice { fresh: true }.trouble(), None);
    let general = [Notice::Sorry.text(1), Notice::Unknown.text(1)];
    for specific in [Notice::LoginIncomplete, Notice::ReviewFailed, Notice::InvalidUrl, Notice::OrderNotFound] {
        assert!(!general.contains(&specific.text(1)));
    }
}
