use nano::dispatch::{component, modal, Form};
use nano::ea::Member;
use nano::fresher::Fresher;
use nano::notice::{Notice, Path};
use nano::records::{ManualRecord, MemberRecord, PendingRecord};
use nano::roles::Role;
use nano::store::Store;
use nano::token::{Decision, Step};
use nano::verify::login::{login_2, login_6, LoginStep};
use nano::verify::manual::{decide, manual_2, manual_3, manual_3_checked, manual_4, ManualForm, ManualStep};
use nano::verify::membership::{membership_2, membership_3, MembershipForm, MembershipStep};
use nano::verify::{start, Command, CompleteStep, Outcome, Session, Stage, Verdict};
use nano::webhook::{receive, Reply, Verify};
use nano::world::{RoleSet, World};

const ADA: u64 = 99217900254035968;
const REVIEWER: u64 = 31415926535;

fn ada_roster() -> Vec<Member> {
    vec![Member {
        first_name: "Ada".to_string(),
        surname: "Lovelace".to_string(),
        cid: "01234567".to_string(),
        login: "ab1234".to_string(),
        order_no: 1234567,
    }]
}

fn membership_form(order: &str, shortcode: &str, nickname: &str) -> MembershipForm {
    MembershipForm { order: order.to_string(), shortcode: shortcode.to_string(), nickname: nickname.to_string() }
}

fn manual_form(url: &str) -> ManualForm {
    ManualForm {
        shortcode: "ab1234".to_string(),
        realname: "Ada Lovelace".to_string(),
        url: url.to_string(),
        nickname: "Ada".to_string(),
    }
}

fn ada_member(fresher: Fresher) -> MemberRecord {
    MemberRecord {
        identity: ADA,
        shortcode: "ab1234".to_string(),
        preferred_name: "Ada".to_string(),
        legal_name: "Ada Lovelace".to_string(),
        fresher,
    }
}

fn ada_request(fresher: Fresher) -> ManualRecord {
    ada_member(fresher).as_request()
}

fn counts(store: &Store) -> (usize, usize, usize) {
    (store.count_pending(), store.count_manual(), store.count_members())
}

fn is_store_write(command: &Command) -> bool {
    matches!(
        command,
        Command::DeletePending
            | Command::DeleteManual
            | Command::MovePendingToMember
            | Command::MoveManualToMember
            | Command::InsertMember
            | Command::InsertManual
    )
}

fn feed_all(mut session: Session, outcomes: Vec<Outcome>) -> (Session, Vec<Command>) {
    let mut trace = Vec::new();
    for outcome in outcomes {
        trace.push(session.command());
        session = session.feed(outcome);
    }
    (session, trace)
}

#[test]
fn membership_order_happy_path() {
    let mut world = World::new();
    world.roster = Some(ada_roster());
    world.gateway.grant(ADA, Role::NonMember);
    let session = membership_3(ADA, Fresher::No, Some(membership_form("1234567", "ab1234", "Ada")));
    let report = world.run(session);
    assert_eq!(report.session.verdict(), Some(Verdict::Completed));
    assert_eq!(world.store.get_member(ADA), Some(ada_member(Fresher::No)));
    assert!(world.gateway.holds(ADA, Role::Member));
    assert!(!world.gateway.holds(ADA, Role::NonMember));
    assert!(!world.gateway.holds(ADA, Role::FresherPg));
    assert!(!world.gateway.holds(ADA, Role::FresherUg));
    assert_eq!(counts(&world.store), (0, 0, 1));
    assert_eq!(
        report.trace,
        vec![
            Command::FetchRoster,
            Command::InsertMember,
            Command::Grant(Role::Member),
            Command::Respond(Notice::Verified(Fresher::No)),
            Command::PostAudit(Path::Membership),
            Command::Revoke(Role::NonMember),
            Command::HasRole(Role::OldMember),
            Command::Welcome,
        ]
    );
}

#[test]
fn membership_order_mismatch() {
    let mut world = World::new();
    world.roster = Some(ada_roster());
    let session = membership_3(ADA, Fresher::No, Some(membership_form("0000000", "ab1234", "Ada")));
    let report = world.run(session);
    assert_eq!(report.trace, vec![Command::FetchRoster, Command::Respond(Notice::OrderNotFound)]);
    assert!(!report.trace.iter().any(is_store_write));
    assert_eq!(report.session.verdict(), Some(Verdict::Completed));
    assert_eq!(counts(&world.store), (0, 0, 0));
    assert_eq!(world.store.get_member(ADA), None);
    assert_eq!(world.gateway.roles(ADA), RoleSet::none());
}

#[test]
fn membership_shortcode_mismatch() {
    let mut world = World::new();
    world.roster = Some(ada_roster());
    let session = membership_3(ADA, Fresher::YesUg, Some(membership_form("1234567", "zz9999", "Ada")));
    let report = world.run(session);
    assert_eq!(report.trace, vec![Command::FetchRoster, Command::Respond(Notice::OrderNotFound)]);
    assert_eq!(counts(&world.store), (0, 0, 0));
}

#[test]
fn membership_roster_unavailable() {
    let mut world = World::new();
    world.roster = None;
    let session = membership_3(ADA, Fresher::No, Some(membership_form("1234567", "ab1234", "Ada")));
    let report = world.run(session);
    assert_eq!(report.trace, vec![Command::FetchRoster, Command::Respond(Notice::RosterUnavailable)]);
    assert_eq!(counts(&world.store), (0, 0, 0));
}

#[test]
fn membership_of_a_fresher_grants_the_fresher_role() {
    let mut world = World::new();
    world.roster = Some(ada_roster());
    let session = membership_3(ADA, Fresher::YesPg, Some(membership_form("1234567", "ab1234", "Ada")));
    let report = world.run(session);
    assert_eq!(world.store.get_member(ADA), Some(ada_member(Fresher::YesPg)));
    assert!(world.gateway.holds(ADA, Role::Member));
    assert!(world.gateway.holds(ADA, Role::FresherPg));
    assert!(!world.gateway.holds(ADA, Role::FresherUg));
    assert_eq!(report.trace[2], Command::Grant(Role::Member));
    assert_eq!(report.trace[3], Command::Grant(Role::FresherPg));
    assert_eq!(report.trace[4], Command::Respond(Notice::Verified(Fresher::YesPg)));
}

#[test]
fn membership_of_an_existing_member_is_a_passing_failure() {
    let mut world = World::new();
    world.roster = Some(ada_roster());
    let mut earlier = ada_member(Fresher::No);
    earlier.preferred_name = "Countess".to_string();
    assert_eq!(world.store.insert_member(earlier.clone()), Ok(()));
    let session = membership_3(ADA, Fresher::YesUg, Some(membership_form("1234567", "ab1234", "Ada")));
    let report = world.run(session);
    assert_eq!(
        report.trace,
        vec![Command::FetchRoster, Command::InsertMember, Command::Respond(Notice::Sorry)]
    );
    assert_eq!(world.store.get_member(ADA), Some(earlier));
    assert_eq!(world.gateway.roles(ADA), RoleSet::none());
}

#[test]
fn membership_form_opens_after_stale_records_are_purged() {
    let mut world = World::new();
    assert_eq!(Reply::Added, receive(&mut world.store, Some(login_call()), &"secret".to_string()));
    assert_eq!(world.store.insert_manual(ada_request(Fresher::No)), Ok(()));
    let report = world.run(membership_2(ADA, Fresher::YesUg));
    assert_eq!(
        report.trace,
        vec![
            Command::DeletePending,
            Command::DeleteManual,
            Command::Respond(Notice::MembershipModal(Fresher::YesUg)),
        ]
    );
    assert_eq!(counts(&world.store), (0, 0, 0));
}

#[test]
fn unreadable_forms_are_answered_with_an_apology() {
    let mut world = World::new();
    for session in [
        membership_3(ADA, Fresher::No, None),
        manual_3(ADA, Fresher::No, None),
        login_6(ADA, Fresher::No, None),
    ] {
        let report = world.run(session);
        assert_eq!(report.trace, vec![Command::Respond(Notice::Sorry)]);
    }
    assert_eq!(counts(&world.store), (0, 0, 0));
}

fn login_call() -> Verify {
    Verify {
        id: "99217900254035968".to_string(),
        shortcode: "ab1234".to_string(),
        fullname: "Ada Lovelace".to_string(),
        key: "secret".to_string(),
    }
}

#[test]
fn manual_deny() {
    let mut world = World::new();
    let filed = world.run(manual_3(ADA, Fresher::YesUg, Some(manual_form("https://example.org/card.png"))));
    assert_eq!(filed.session.verdict(), Some(Verdict::Completed));
    assert_eq!(world.store.get_manual(ADA), Some(ada_request(Fresher::YesUg)));
    let denied = world.run(manual_4(REVIEWER, "verify-n-99217900254035968"));
    assert_eq!(
        denied.trace,
        vec![Command::FindGuildMember, Command::DeleteManual, Command::Respond(Notice::ReviewDenied)]
    );
    assert_eq!(denied.session.verdict(), Some(Verdict::Completed));
    assert_eq!(world.store.get_manual(ADA), None);
    assert_eq!(world.store.get_member(ADA), None);
    assert_eq!(counts(&world.store), (0, 0, 0));
    assert_eq!(world.gateway.roles(ADA), RoleSet::none());
    let again = world.run(manual_4(REVIEWER, "verify-n-99217900254035968"));
    assert_eq!(again.session.verdict(), Some(Verdict::Completed));
    assert_eq!(again.trace, denied.trace);
    let late_accept = world.run(manual_4(REVIEWER, "verify-y-99217900254035968"));
    assert_eq!(
        late_accept.trace,
        vec![Command::FindGuildMember, Command::MoveManualToMember, Command::Respond(Notice::ReviewFailed)]
    );
    assert_eq!(world.store.get_member(ADA), None);
}

#[test]
fn manual_request_is_filed_and_answered() {
    let mut world = World::new();
    assert_eq!(Reply::Added, receive(&mut world.store, Some(login_call()), &"secret".to_string()));
    let session = manual_3(ADA, Fresher::YesPg, Some(manual_form("https://example.org/card.png")));
    assert_eq!(session.proof_url, "https://example.org/card.png");
    assert_eq!(session.candidate, ada_member(Fresher::YesPg));
    let report = world.run(session);
    assert_eq!(
        report.trace,
        vec![
            Command::DeletePending,
            Command::DeleteManual,
            Command::PostReview,
            Command::InsertManual,
            Command::Respond(Notice::RequestSent),
        ]
    );
    assert_eq!(world.store.get_pending(ADA), None);
    assert_eq!(world.store.get_manual(ADA), Some(ada_request(Fresher::YesPg)));
    assert_eq!(world.gateway.roles(ADA), RoleSet::none());
}

#[test]
fn manual_form_with_a_text_that_is_no_url_writes_nothing() {
    let mut world = World::new();
    assert_eq!(Reply::Added, receive(&mut world.store, Some(login_call()), &"secret".to_string()));
    for url in ["", "not a url", "example.org/card.png", "//example.org", "http://", "card.png"] {
        let session = manual_3(ADA, Fresher::No, Some(manual_form(url)));
        assert_eq!(session.stage, Stage::Answer(Notice::InvalidUrl), "{url:?}");
        let report = world.run(session);
        assert_eq!(report.trace, vec![Command::Respond(Notice::InvalidUrl)]);
        assert_eq!(report.session.verdict(), Some(Verdict::Completed));
    }
    assert_eq!(counts(&world.store), (1, 0, 0));
    assert_eq!(world.store.get_manual(ADA), None);
}

#[test]
fn manual_form_with_a_url_is_accepted() {
    for url in ["https://example.org/card.png", "http://example.org", "ftp://files.example.org/a", "data:text/plain,hi"] {
        let session = manual_3(ADA, Fresher::No, Some(manual_form(url)));
        assert_eq!(session.stage, Stage::Manual(ManualStep::ClearPending), "{url:?}");
    }
}

#[test]
fn manual_form_goes_by_the_check_that_it_is_given() {
    let refused = manual_3_checked(ADA, Fresher::No, manual_form("https://example.org/card.png"), false);
    assert_eq!(refused.stage, Stage::Answer(Notice::InvalidUrl));
    assert_eq!(refused.candidate.shortcode, "");
    let taken = manual_3_checked(ADA, Fresher::No, manual_form("nonsense"), true);
    assert_eq!(taken.stage, Stage::Manual(ManualStep::ClearPending));
    assert_eq!(taken.proof_url, "nonsense");
}

#[test]
fn manual_form_deletes_the_earlier_request_when_it_opens() {
    let mut world = World::new();
    assert_eq!(world.store.insert_manual(ada_request(Fresher::No)), Ok(()));
    let report = world.run(manual_2(ADA, Fresher::YesUg));
    assert_eq!(report.trace, vec![Command::DeleteManual, Command::Respond(Notice::ManualModal(Fresher::YesUg))]);
    assert_eq!(world.store.get_manual(ADA), None);
}

#[test]
fn second_request_replaces_the_first() {
    let mut world = World::new();
    let first = world.run(manual_3(ADA, Fresher::No, Some(manual_form("https://example.org/a.png"))));
    assert_eq!(first.trace[4], Command::Respond(Notice::RequestSent));
    assert_eq!(world.store.get_manual(ADA), Some(ada_request(Fresher::No)));
    let mut other = manual_form("https://example.org/b.png");
    other.nickname = "Countess".to_string();
    other.shortcode = "AL1815".to_string();
    let second = world.run(manual_3(ADA, Fresher::YesUg, Some(other)));
    assert_eq!(
        second.trace,
        vec![
            Command::DeletePending,
            Command::DeleteManual,
            Command::PostReview,
            Command::InsertManual,
            Command::Respond(Notice::RequestSent),
        ]
    );
    let mut expected = ada_request(Fresher::YesUg);
    expected.preferred_name = "Countess".to_string();
    expected.shortcode = "al1815".to_string();
    assert_eq!(world.store.get_manual(ADA), Some(expected));
    assert_eq!(counts(&world.store), (0, 1, 0));
    assert_eq!(world.gateway.roles(ADA), RoleSet::none());
}

#[test]
fn denial_does_not_wait_for_the_person_to_be_found() {
    let (session, trace) = feed_all(manual_4(REVIEWER, "verify-n-99217900254035968"), vec![Outcome::Failed]);
    assert_eq!(trace, vec![Command::FindGuildMember]);
    assert_eq!(session.stage, Stage::Manual(ManualStep::Discard));
    assert_eq!(session.command(), Command::DeleteManual);
    assert_eq!(session.candidate.identity, ADA);
    let (done, rest) = feed_all(session, vec![Outcome::Removed(true), Outcome::Done]);
    assert_eq!(rest, vec![Command::DeleteManual, Command::Respond(Notice::ReviewDenied)]);
    assert_eq!(done.verdict(), Some(Verdict::Completed));
    let (gone, _) = feed_all(
        manual_4(REVIEWER, "verify-n-99217900254035968"),
        vec![Outcome::Failed, Outcome::Removed(false)],
    );
    assert_eq!(gone.stage, Stage::Answer(Notice::ReviewDenied));
    let (broken, _) = feed_all(
        manual_4(REVIEWER, "verify-n-99217900254035968"),
        vec![Outcome::Done, Outcome::Failed],
    );
    assert_eq!(broken.verdict(), Some(Verdict::Failed));
}

#[test]
fn acceptance_needs_the_person_found() {
    let (session, trace) = feed_all(manual_4(REVIEWER, "verify-y-99217900254035968"), vec![Outcome::Failed]);
    assert_eq!(trace, vec![Command::FindGuildMember]);
    assert_eq!(session.verdict(), Some(Verdict::Failed));
    let found = manual_4(REVIEWER, "verify-y-99217900254035968").feed(Outcome::Done);
    assert_eq!(found.stage, Stage::Manual(ManualStep::Move));
}

#[test]
fn failed_session_is_answered_with_the_general_apology() {
    assert_eq!(Verdict::Failed.closing_notice(), Some(Notice::Unknown));
    assert_eq!(Verdict::Completed.closing_notice(), None);
    let (session, trace) = feed_all(
        start(ADA, true),
        vec![Outcome::Member(Some(ada_member(Fresher::YesUg))), Outcome::Failed],
    );
    assert_eq!(trace, vec![Command::GetMember, Command::Revoke(Role::NonMember)]);
    assert!(!trace.iter().any(is_store_write));
    let verdict = session.verdict();
    assert_eq!(verdict, Some(Verdict::Failed));
    assert_eq!(verdict.and_then(Verdict::closing_notice), Some(Notice::Unknown));
    assert_eq!(
        Notice::Unknown.text(ADA),
        "Sorry, something went wrong. Please try again or message <@99217900254035968> for help"
    );
}

#[test]
fn failure_to_delete_the_earlier_request_is_passed_over() {
    let form = manual_3_checked(ADA, Fresher::No, manual_form("https://example.org/card.png"), true);
    let (session, trace) = feed_all(form, vec![Outcome::Removed(true), Outcome::Failed]);
    assert_eq!(trace, vec![Command::DeletePending, Command::DeleteManual]);
    assert_eq!(session.stage, Stage::Manual(ManualStep::Post));
}

#[test]
fn manual_accept_promotes_once() {
    let mut world = World::new();
    world.gateway.grant(ADA, Role::NonMember);
    world.gateway.grant(ADA, Role::OldMember);
    let _ = world.run(manual_3(ADA, Fresher::YesUg, Some(manual_form("https://example.org/card.png"))));
    let first = world.run(manual_4(REVIEWER, "verify-y-99217900254035968"));
    assert_eq!(first.session.verdict(), Some(Verdict::Completed));
    assert_eq!(first.session.candidate, ada_member(Fresher::YesUg));
    assert_eq!(
        first.trace,
        vec![
            Command::FindGuildMember,
            Command::MoveManualToMember,
            Command::Grant(Role::Member),
            Command::Grant(Role::FresherUg),
            Command::Respond(Notice::ReviewVerified),
            Command::Revoke(Role::NonMember),
            Command::HasRole(Role::OldMember),
            Command::Revoke(Role::OldMember),
        ]
    );
    assert_eq!(world.store.get_member(ADA), Some(ada_member(Fresher::YesUg)));
    assert_eq!(world.store.get_manual(ADA), None);
    let roles = world.gateway.roles(ADA);
    assert_eq!(
        roles,
        RoleSet { member: true, non_member: false, old_member: false, fresher_pg: false, fresher_ug: true }
    );
    let second = world.run(manual_4(REVIEWER + 1, "verify-y-99217900254035968"));
    assert_eq!(second.session.verdict(), Some(Verdict::Completed));
    assert_eq!(
        second.trace,
        vec![Command::FindGuildMember, Command::MoveManualToMember, Command::Respond(Notice::ReviewFailed)]
    );
    assert_eq!(counts(&world.store), (0, 0, 1));
    assert_eq!(world.store.get_member(ADA), Some(ada_member(Fresher::YesUg)));
    assert_eq!(world.gateway.roles(ADA), roles);
}

#[test]
fn decision_token_that_cannot_be_read_is_answered_and_decides_nothing() {
    let mut world = World::new();
    assert_eq!(world.store.insert_manual(ada_request(Fresher::No)), Ok(()));
    for token in ["verify-x-99217900254035968", "verify-y-", "verify-y-ada", "verify-"] {
        let session = manual_4(REVIEWER, token);
        assert_eq!(session.stage, Stage::Answer(Notice::Unknown), "{token:?}");
        let report = world.run(session);
        assert_eq!(report.trace, vec![Command::Respond(Notice::Unknown)]);
    }
    assert_eq!(world.store.get_manual(ADA), Some(ada_request(Fresher::No)));
    assert_eq!(counts(&world.store), (0, 1, 0));
}

#[test]
fn decision_is_about_the_person_in_the_token() {
    let session = manual_4(REVIEWER, "verify-y-99217900254035968");
    assert_eq!(session.actor, REVIEWER);
    assert_eq!(session.candidate.identity, ADA);
    assert_eq!(session.stage, Stage::Manual(ManualStep::Locate(Decision::Accept)));
    assert_eq!(session, decide(REVIEWER, Decision::Accept, ADA));
    assert_eq!(
        manual_4(REVIEWER, "verify-n-5").stage,
        Stage::Manual(ManualStep::Locate(Decision::Deny))
    );
}

#[test]
fn path_selector_offers_the_paths_to_a_stranger() {
    let mut world = World::new();
    let first = world.run(start(ADA, true));
    assert_eq!(first.trace, vec![Command::GetMember, Command::Respond(Notice::PathChoice { fresh: true })]);
    let back = world.run(start(ADA, false));
    assert_eq!(back.trace, vec![Command::GetMember, Command::Respond(Notice::PathChoice { fresh: false })]);
    assert_eq!(counts(&world.store), (0, 0, 0));
    assert_eq!(world.gateway.roles(ADA), RoleSet::none());
}

#[test]
fn path_selector_regrants_roles_and_is_idempotent() {
    let mut world = World::new();
    assert_eq!(world.store.insert_member(ada_member(Fresher::YesPg)), Ok(()));
    world.gateway.grant(ADA, Role::NonMember);
    world.gateway.grant(ADA, Role::OldMember);
    let once = world.run(start(ADA, true));
    let expected = vec![
        Command::GetMember,
        Command::Revoke(Role::NonMember),
        Command::Grant(Role::Member),
        Command::Grant(Role::FresherPg),
        Command::Respond(Notice::AlreadyVerified),
    ];
    assert_eq!(once.trace, expected);
    assert_eq!(once.session.verdict(), Some(Verdict::Completed));
    let roles = world.gateway.roles(ADA);
    assert_eq!(
        roles,
        RoleSet { member: true, non_member: false, old_member: true, fresher_pg: true, fresher_ug: false }
    );
    let twice = world.run(start(ADA, false));
    assert_eq!(twice.trace, expected);
    assert_eq!(twice.session.verdict(), Some(Verdict::Completed));
    assert_eq!(world.gateway.roles(ADA), roles);
    assert_eq!(world.store.get_member(ADA), Some(ada_member(Fresher::YesPg)));
    assert_eq!(counts(&world.store), (0, 0, 1));
}

#[test]
fn path_selector_grants_no_fresher_role_to_a_non_fresher() {
    let mut world = World::new();
    assert_eq!(world.store.insert_member(ada_member(Fresher::No)), Ok(()));
    let report = world.run(start(ADA, true));
    assert_eq!(
        report.trace,
        vec![
            Command::GetMember,
            Command::Revoke(Role::NonMember),
            Command::Grant(Role::Member),
            Command::Respond(Notice::AlreadyVerified),
        ]
    );
}

#[test]
fn login_waits_for_the_identity_provider() {
    let mut world = World::new();
    let early = world.run(login_2(ADA));
    assert_eq!(early.trace, vec![Command::GetPending, Command::Respond(Notice::LoginIncomplete)]);
    assert_eq!(Reply::Added, receive(&mut world.store, Some(login_call()), &"secret".to_string()));
    let ready = world.run(login_2(ADA));
    assert_eq!(ready.trace, vec![Command::GetPending, Command::Respond(Notice::LoginForm)]);
    assert_eq!(counts(&world.store), (1, 0, 0));
}

#[test]
fn login_after_a_manual_request_leaves_no_manual_record() {
    let mut world = World::new();
    let _ = world.run(manual_3(ADA, Fresher::No, Some(manual_form("https://example.org/card.png"))));
    assert_eq!(world.store.get_manual(ADA), Some(ada_request(Fresher::No)));
    assert_eq!(Reply::Added, receive(&mut world.store, Some(login_call()), &"secret".to_string()));
    let ready = world.run(login_2(ADA));
    assert_eq!(ready.trace[1], Command::Respond(Notice::LoginForm));
    let done = world.run(login_6(ADA, Fresher::YesUg, Some("Ada".to_string())));
    assert_eq!(done.session.verdict(), Some(Verdict::Completed));
    assert_eq!(done.trace[0], Command::DeleteManual);
    assert_eq!(done.trace[1], Command::MovePendingToMember);
    assert_eq!(
        done.trace[2..],
        [
            Command::Grant(Role::Member),
            Command::Grant(Role::FresherUg),
            Command::Respond(Notice::Verified(Fresher::YesUg)),
            Command::PostAudit(Path::Login),
            Command::Revoke(Role::NonMember),
            Command::HasRole(Role::OldMember),
            Command::Welcome,
        ]
    );
    assert_eq!(world.store.get_manual(ADA), None);
    assert_eq!(world.store.get_pending(ADA), None);
    assert_eq!(world.store.get_member(ADA), Some(ada_member(Fresher::YesUg)));
    assert_eq!(done.session.candidate, ada_member(Fresher::YesUg));
}

#[test]
fn login_without_a_pending_record_asks_to_log_in_again() {
    let mut world = World::new();
    assert_eq!(world.store.insert_manual(ada_request(Fresher::No)), Ok(()));
    let report = world.run(login_6(ADA, Fresher::No, Some("Ada".to_string())));
    assert_eq!(
        report.trace,
        vec![Command::DeleteManual, Command::MovePendingToMember, Command::Respond(Notice::LoginIncomplete)]
    );
    assert_eq!(counts(&world.store), (0, 0, 0));
    assert_eq!(world.gateway.roles(ADA), RoleSet::none());
}

#[test]
fn member_of_an_earlier_year_loses_that_role_and_is_not_welcomed() {
    let mut world = World::new();
    world.gateway.grant(ADA, Role::OldMember);
    assert_eq!(Reply::Added, receive(&mut world.store, Some(login_call()), &"secret".to_string()));
    let report = world.run(login_6(ADA, Fresher::No, Some("Ada".to_string())));
    assert!(report.trace.contains(&Command::Revoke(Role::OldMember)));
    assert!(!report.trace.contains(&Command::Welcome));
    assert!(!world.gateway.holds(ADA, Role::OldMember));
    let mut other = World::new();
    assert_eq!(Reply::Added, receive(&mut other.store, Some(login_call()), &"secret".to_string()));
    let welcomed = other.run(login_6(ADA, Fresher::No, Some("Ada".to_string())));
    assert!(welcomed.trace.contains(&Command::Welcome));
    assert!(!welcomed.trace.contains(&Command::Revoke(Role::OldMember)));
}

#[test]
fn store_failure_at_the_login_lookup_is_a_passing_failure() {
    let (session, trace) = feed_all(login_2(ADA), vec![Outcome::Failed, Outcome::Done]);
    assert_eq!(trace, vec![Command::GetPending, Command::Respond(Notice::Sorry)]);
    assert_eq!(session.verdict(), Some(Verdict::Completed));
}

#[test]
fn store_failure_at_the_move_grants_nothing() {
    let (session, trace) = feed_all(
        login_6(ADA, Fresher::YesUg, Some("Ada".to_string())),
        vec![Outcome::Failed, Outcome::Failed, Outcome::Done],
    );
    assert_eq!(
        trace,
        vec![Command::DeleteManual, Command::MovePendingToMember, Command::Respond(Notice::Sorry)]
    );
    assert_eq!(session.verdict(), Some(Verdict::Completed));
    let (conflict, _) = feed_all(
        login_6(ADA, Fresher::YesUg, Some("Ada".to_string())),
        vec![Outcome::Removed(false), Outcome::Conflict],
    );
    assert_eq!(conflict.stage, Stage::Answer(Notice::Sorry));
}

#[test]
fn gateway_failure_ends_the_session_as_failed() {
    let (session, trace) = feed_all(
        login_6(ADA, Fresher::YesUg, Some("Ada".to_string())),
        vec![Outcome::Removed(true), Outcome::Moved(ada_member(Fresher::YesUg)), Outcome::Done, Outcome::Failed],
    );
    assert_eq!(trace[3], Command::Grant(Role::FresherUg));
    assert_eq!(session.verdict(), Some(Verdict::Failed));
    assert_eq!(session.command(), Command::Finish(Verdict::Failed));
    let stays = session.feed(Outcome::Done);
    assert_eq!(stays.verdict(), Some(Verdict::Failed));
}

#[test]
fn failure_to_clear_the_non_member_role_is_passed_over() {
    let (session, trace) = feed_all(
        login_6(ADA, Fresher::No, Some("Ada".to_string())),
        vec![
            Outcome::Removed(false),
            Outcome::Moved(ada_member(Fresher::No)),
            Outcome::Done,
            Outcome::Done,
            Outcome::Done,
            Outcome::Failed,
            Outcome::Holds(false),
        ],
    );
    assert_eq!(trace[5], Command::Revoke(Role::NonMember));
    assert_eq!(trace[6], Command::HasRole(Role::OldMember));
    assert_eq!(session.stage, Stage::Complete(Path::Login, CompleteStep::Welcome));
    assert_eq!(session.command(), Command::Welcome);
    assert_eq!(session.feed(Outcome::Failed).verdict(), Some(Verdict::Failed));
}

#[test]
fn answer_about_another_person_counts_as_a_failure() {
    let mut stranger = ada_member(Fresher::No);
    stranger.identity = ADA + 1;
    let (session, _) = feed_all(
        login_6(ADA, Fresher::No, Some("Ada".to_string())),
        vec![Outcome::Removed(false), Outcome::Moved(stranger.clone())],
    );
    assert_eq!(session.stage, Stage::Answer(Notice::Sorry));
    let selector = start(ADA, true).feed(Outcome::Member(Some(stranger)));
    assert_eq!(selector.verdict(), Some(Verdict::Failed));
}

#[test]
fn answer_to_another_question_counts_as_a_failure() {
    assert_eq!(start(ADA, true).feed(Outcome::Holds(true)).verdict(), Some(Verdict::Failed));
    assert_eq!(start(ADA, true).feed(Outcome::Pending(None)).verdict(), Some(Verdict::Failed));
    assert_eq!(login_2(ADA).feed(Outcome::Member(None)).stage, Stage::Answer(Notice::Sorry));
    assert_eq!(
        membership_3(ADA, Fresher::No, Some(membership_form("1", "a", "b"))).feed(Outcome::Done).stage,
        Stage::Answer(Notice::RosterUnavailable)
    );
}

#[test]
fn failed_post_and_failed_write_are_told_apart() {
    let form = || manual_3_checked(ADA, Fresher::No, manual_form("https://example.org/card.png"), true);
    let run = |post: Outcome, write: Outcome| {
        feed_all(form(), vec![Outcome::Removed(false), Outcome::Removed(false), post, write]).0.stage
    };
    assert_eq!(run(Outcome::Done, Outcome::Done), Stage::Answer(Notice::RequestSent));
    assert_eq!(run(Outcome::Done, Outcome::Failed), Stage::Answer(Notice::RequestSentWithIssue));
    assert_eq!(run(Outcome::Done, Outcome::Conflict), Stage::Answer(Notice::RequestSentWithIssue));
    assert_eq!(run(Outcome::Failed, Outcome::Done), Stage::Answer(Notice::RequestNotSent));
    assert_eq!(run(Outcome::Failed, Outcome::Failed), Stage::Answer(Notice::RequestNotSent));
    let aborted = form().feed(Outcome::Failed);
    assert_eq!(aborted.verdict(), Some(Verdict::Failed));
}

#[test]
fn tokens_open_the_sessions_of_their_steps() {
    assert_eq!(component("start", ADA), start(ADA, true));
    assert_eq!(component("restart", ADA), start(ADA, false));
    assert_eq!(component("login_2", ADA).stage, Stage::Login(LoginStep::Lookup));
    assert_eq!(component("login_4p", ADA).stage, Stage::Answer(Notice::LoginName(Fresher::YesPg)));
    assert_eq!(component("login_5u", ADA).stage, Stage::Answer(Notice::LoginModal(Fresher::YesUg)));
    assert_eq!(component("membership_2u", ADA), membership_2(ADA, Fresher::YesUg));
    assert_eq!(component("membership_2u", ADA).stage, Stage::Membership(MembershipStep::PurgePending));
    assert_eq!(component("manual_2n", ADA), manual_2(ADA, Fresher::No));
    assert_eq!(component("info", ADA).stage, Stage::Answer(Notice::Info));
    assert_eq!(component("verify-y-7", REVIEWER), decide(REVIEWER, Decision::Accept, 7));
    assert_eq!(component("verify-q-7", REVIEWER).stage, Stage::Answer(Notice::Unknown));
    assert_eq!(component("something else", ADA).stage, Stage::Answer(Notice::Unknown));
    assert_eq!(component("register.guild", ADA).verdict(), Some(Verdict::Completed));
    assert_eq!(component(&Step::Manual1.token(), ADA).stage, Stage::Answer(Notice::ManualIntro));
}

#[test]
fn submitted_forms_open_the_sessions_of_their_steps() {
    assert_eq!(
        modal("login_6u", ADA, Some(Form::Nickname("Ada".to_string()))),
        login_6(ADA, Fresher::YesUg, Some("Ada".to_string()))
    );
    assert_eq!(
        modal("membership_3n", ADA, Some(Form::Membership(membership_form("1234567", "ab1234", "Ada")))),
        membership_3(ADA, Fresher::No, Some(membership_form("1234567", "ab1234", "Ada")))
    );
    assert_eq!(
        modal("manual_3p", ADA, Some(Form::Manual(manual_form("https://example.org/card.png")))),
        manual_3(ADA, Fresher::YesPg, Some(manual_form("https://example.org/card.png")))
    );
    assert_eq!(
        modal("manual_3p", ADA, Some(Form::Manual(manual_form("nope")))).stage,
        Stage::Answer(Notice::InvalidUrl)
    );
    assert_eq!(modal("login_6u", ADA, None).stage, Stage::Answer(Notice::Sorry));
    assert_eq!(
        modal("login_6u", ADA, Some(Form::Manual(manual_form("https://example.org")))).stage,
        Stage::Answer(Notice::Sorry)
    );
    assert_eq!(
        modal("login_7u", ADA, Some(Form::Nickname("Ada".to_string()))).verdict(),
        Some(Verdict::Completed)
    );
    let checking = modal("membership_3u", ADA, Some(Form::Membership(membership_form("1234567", "ab1234", "Ada"))));
    assert_eq!(checking.stage, Stage::Membership(MembershipStep::Fetch));
    assert_eq!(checking.order, "1234567");
    assert_eq!(checking.candidate.shortcode, "ab1234");
    assert_eq!(checking.candidate.fresher, Fresher::YesUg);
}

#[test]
fn login_without_a_name_is_answered_with_an_apology() {
    let session = login_6(ADA, Fresher::YesUg, Some(String::new()));
    assert_eq!(session.stage, Stage::Answer(Notice::Sorry));
    assert_eq!(session.candidate.fresher, Fresher::YesUg);
    let named = login_6(ADA, Fresher::YesUg, Some("A".to_string()));
    assert_eq!(named.stage, Stage::Login(LoginStep::Purge));
    assert_eq!(named.candidate.preferred_name, "A");
    assert_eq!(named.candidate.identity, ADA);
}

#[test]
fn concurrent_decisions_promote_at_most_once() {
    let tokens = ["verify-y-99217900254035968", "verify-n-99217900254035968"];
    for first_token in tokens {
        for second_token in tokens {
            for schedule in 0u32..(1 << 10) {
                let mut world = World::new();
                assert_eq!(world.store.insert_manual(ada_request(Fresher::YesUg)), Ok(()));
                let mut first = manual_4(REVIEWER, first_token);
                let mut second = manual_4(REVIEWER + 1, second_token);
                let mut grants = 0;
                let mut turn = 0;
                while first.verdict().is_none() || second.verdict().is_none() {
                    let first_moves = if turn < 10 { schedule & (1 << turn) != 0 } else { first.verdict().is_none() };
                    turn += 1;
                    let session = if first_moves { &mut first } else { &mut second };
                    if session.verdict().is_some() {
                        continue;
                    }
                    if session.command() == Command::Grant(Role::Member) {
                        grants += 1;
                    }
                    let outcome = world.perform(session);
                    let taken = std::mem::replace(session, start(0, true));
                    *session = taken.feed(outcome);
                }
                assert_eq!(first.verdict(), Some(Verdict::Completed));
                assert_eq!(second.verdict(), Some(Verdict::Completed));
                assert_eq!(world.store.get_manual(ADA), None);
                assert!(grants <= 1);
                assert_eq!(world.store.count_members(), grants);
                if first_token == tokens[0] && second_token == tokens[0] {
                    assert_eq!(grants, 1);
                    assert_eq!(world.store.get_member(ADA), Some(ada_member(Fresher::YesUg)));
                }
                if first_token == tokens[1] && second_token == tokens[1] {
                    assert_eq!(grants, 0);
                }
            }
        }
    }
}

#[test]
fn review_prompt_offers_accept_and_deny_for_the_candidate() {
    let session = manual_3(ADA, Fresher::No, Some(manual_form("https://example.org/card.png")));
    let offers = session.review_offers();
    assert_eq!(offers, vec![Step::Review(Decision::Accept, ADA), Step::Review(Decision::Deny, ADA)]);
    assert_eq!(offers[0].token(), "verify-y-99217900254035968");
    assert_eq!(offers[1].token(), "verify-n-99217900254035968");
    assert_eq!(manual_4(REVIEWER, &offers[0].token()), decide(REVIEWER, Decision::Accept, ADA));
    assert_eq!(manual_4(REVIEWER, &offers[1].token()), decide(REVIEWER, Decision::Deny, ADA));
}

#[test]
fn granting_twice_is_granting_once() {
    let mut world = World::new();
    world.gateway.grant(ADA, Role::Member);
    let once = world.gateway.roles(ADA);
    world.gateway.grant(ADA, Role::Member);
    assert_eq!(world.gateway.roles(ADA), once);
    assert!(once.holds(Role::Member));
    world.gateway.revoke(ADA, Role::NonMember);
    assert_eq!(world.gateway.roles(ADA), once);
    world.gateway.revoke(ADA, Role::Member);
    world.gateway.revoke(ADA, Role::Member);
    assert_eq!(world.gateway.roles(ADA), RoleSet::none());
    assert_eq!(world.gateway.roles(REVIEWER), RoleSet::none());
    assert_eq!(RoleSet::none().with(Role::FresherPg, true).with(Role::FresherPg, false), RoleSet::none());
    assert!(RoleSet::none().with(Role::OldMember, true).holds(Role::OldMember));
    assert!(!RoleSet::none().with(Role::OldMember, true).holds(Role::Member));
}

#[test]
fn closed_session_asks_for_nothing_more() {
    let mut world = World::new();
    let done = world.run(start(ADA, true)).session;
    assert_eq!(done.command(), Command::Finish(Verdict::Completed));
    let report = world.run(done);
    assert_eq!(report.trace, Vec::new());
    assert_eq!(report.session.verdict(), Some(Verdict::Completed));
}
