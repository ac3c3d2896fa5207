//! What holds of the workflow whatever the person, the records and the
//! roles: the laws of the library, each proved from the definitions of the
//! store and of the sessions.

use crate::ea::{first_named, spec_legal_name, MemberView};
use crate::fresher::Fresher;
use crate::notice::{Notice, Path};
use crate::records::{admitted, PendingView, RecordView};
use crate::roles::{spec_fresher_role, Role};
use crate::store::{kept, StoreError, StoreView};
use crate::token::Decision;
use crate::verify::login::{finalising, LoginStep};
use crate::verify::manual::{deciding, filing, spec_manual_3, spec_submitted_notice, ManualStep};
use crate::verify::membership::{checking, MembershipStep};
use crate::verify::{
    command_of, fed, next_stage, opened, rank, signal_of, spec_closing_notice, Command, CompleteStep, OutcomeView, RegrantStep,
    SessionView, Signal, Stage, Verdict,
};
use crate::world::{
    answer_of, handled, lemma_handled_step, roles_of, roles_set, world_after, RoleSet,
    WorldView,
};
use vstd::prelude::*;

verus! {

/// Every operation of the store keeps each row under its own identity.
pub proof fn law_store_stays_well_formed(
    store: StoreView,
    pending: PendingView,
    record: RecordView,
    identity: u64,
    preferred_name: Seq<char>,
    fresher: Fresher,
)
    requires
        store.wf(),
    ensures
        StoreView::empty().wf(),
        store.file_pending(pending).wf(),
        store.file_manual(record).wf(),
        store.file_member(record).wf(),
        store.insert_pending(pending).wf(),
        store.insert_manual(record).wf(),
        store.insert_member(record).wf(),
        store.delete_pending(identity).wf(),
        store.delete_manual(identity).wf(),
        store.delete_member(identity).wf(),
        store.move_pending(identity, preferred_name, fresher).wf(),
        store.move_manual(identity).wf(),
{
}

/// A move is all or nothing. Either it is refused and the store is as it
/// was, or the source row is gone, the member row is there and holds what
/// the source row held, and every other row is as it was.
pub proof fn law_move_is_atomic(
    store: StoreView,
    identity: u64,
    preferred_name: Seq<char>,
    fresher: Fresher,
)
    ensures
        ({
            let after = store.move_pending(identity, preferred_name, fresher);
            if store.move_refusal(store.pending, identity) is Some {
                after == store
            } else {
                &&& !after.pending.contains_key(identity)
                &&& after.members.contains_key(identity)
                &&& after.members[identity] == admitted(
                    store.pending[identity],
                    preferred_name,
                    fresher,
                )
                &&& after.pending == store.pending.remove(identity)
                &&& after.members.remove(identity) == store.members
                &&& after.manual == store.manual
            }
        }),
        ({
            let after = store.move_manual(identity);
            if store.move_refusal(store.manual, identity) is Some {
                after == store
            } else {
                &&& !after.manual.contains_key(identity)
                &&& after.members.contains_key(identity)
                &&& after.members[identity] == store.manual[identity]
                &&& after.manual == store.manual.remove(identity)
                &&& after.members.remove(identity) == store.members
                &&& after.pending == store.pending
            }
        }),
{
    let after = store.move_pending(identity, preferred_name, fresher);
    if store.move_refusal(store.pending, identity) is None {
        assert(after.members.remove(identity) =~= store.members);
    }
    let promoted = store.move_manual(identity);
    if store.move_refusal(store.manual, identity) is None {
        assert(promoted.members.remove(identity) =~= store.members);
    }
}

/// A record is promoted at most once: after a move of an identity, granted
/// or not, a second move of the same identity is refused and changes
/// nothing.
pub proof fn law_move_happens_once(
    store: StoreView,
    identity: u64,
    preferred_name: Seq<char>,
    fresher: Fresher,
    again_name: Seq<char>,
    again_fresher: Fresher,
)
    ensures
        ({
            let after = store.move_manual(identity);
            &&& after.move_refusal(after.manual, identity) is Some
            &&& after.move_manual(identity) == after
            &&& store.move_refusal(store.manual, identity) is None ==> after.move_refusal(
                after.manual,
                identity,
            ) == Some(StoreError::NotFound)
        }),
        ({
            let after = store.move_pending(identity, preferred_name, fresher);
            &&& after.move_refusal(after.pending, identity) is Some
            &&& after.move_pending(identity, again_name, again_fresher) == after
            &&& store.move_refusal(store.pending, identity) is None ==> after.move_refusal(
                after.pending,
                identity,
            ) == Some(StoreError::NotFound)
        }),
{
}

/// Granting and revoking settle: a role that is granted twice is held as
/// if granted once, one that is revoked twice is gone as if revoked once,
/// and the roles of everybody else stay as they are.
pub proof fn law_role_changes_settle(
    roles: Map<u64, RoleSet>,
    identity: u64,
    role: Role,
    held: bool,
    other: u64,
)
    ensures
        roles_set(roles_set(roles, identity, role, held), identity, role, held) == roles_set(
            roles,
            identity,
            role,
            held,
        ),
        roles_of(roles_set(roles, identity, role, held), identity).spec_holds(role) == held,
        other != identity ==> roles_of(roles_set(roles, identity, role, held), other) == roles_of(
            roles,
            other,
        ),
{
    assert(roles_set(roles_set(roles, identity, role, held), identity, role, held) =~= roles_set(
        roles,
        identity,
        role,
        held,
    ));
}

/// Whether a stage lies behind the last request to the store of its path.
pub open spec fn past_the_store(stage: Stage) -> bool {
    stage is Regrant || stage is Complete || stage is Answer || stage is Closed
}

/// Once a path has written its member record it asks nothing more of the
/// store: whatever the roles and the messages come to, the records stay as
/// they are.
pub proof fn law_store_rests_after_the_write(s: SessionView, w: WorldView)
    requires
        past_the_store(s.stage),
    ensures
        handled(s, w).world.store == w.store,
        handled(s, w).world.roster == w.roster,
    decreases rank(s.stage),
{
    lemma_handled_step(s, w);
    if !(s.stage is Closed) {
        let next = fed(s, answer_of(w, s));
        crate::verify::lemma_rank_decreases(
            s.stage,
            signal_of(s, answer_of(w, s)),
            next.candidate.fresher,
        );
        law_store_rests_after_the_write(next, world_after(w, s));
    }
}

/// A form for manual review whose address of the proof is not well formed
/// is refused with that reason and nothing else happens: the one request of
/// the session is the answer, the collaborators are as they were, and
/// whatever a host feeds back the session is closed.
pub proof fn law_bad_url_writes_nothing(
    w: WorldView,
    actor: u64,
    fresher: Fresher,
    shortcode: Seq<char>,
    realname: Seq<char>,
    url: Seq<char>,
    nickname: Seq<char>,
    fed_back: OutcomeView,
)
    ensures
        ({
            let s = spec_manual_3(actor, fresher, shortcode, realname, url, nickname, false);
            &&& command_of(s.stage, s.candidate.fresher) == Command::Respond(Notice::InvalidUrl)
            &&& fed(s, fed_back).stage is Closed
            &&& handled(s, w).world == w
            &&& handled(s, w).trace == seq![Command::Respond(Notice::InvalidUrl)]
            &&& handled(s, w).session.stage == Stage::Closed(Verdict::Completed)
        }),
{
    let s = spec_manual_3(actor, fresher, shortcode, realname, url, nickname, false);
    lemma_handled_step(s, w);
    let next = fed(s, answer_of(w, s));
    lemma_handled_step(next, world_after(w, s));
    assert(handled(s, w).trace =~= seq![Command::Respond(Notice::InvalidUrl)]);
}

/// One request further: an open session goes on from what its request
/// brings.
proof fn lemma_one_request(s: SessionView, w: WorldView) -> (next: (SessionView, WorldView))
    requires
        !(s.stage is Closed),
    ensures
        next.0 == fed(s, answer_of(w, s)),
        next.1 == world_after(w, s),
        handled(s, w).session == handled(next.0, next.1).session,
        handled(s, w).world == handled(next.0, next.1).world,
        handled(s, w).trace == seq![command_of(s.stage, s.candidate.fresher)] + handled(
            next.0,
            next.1,
        ).trace,
{
    lemma_handled_step(s, w);
    (fed(s, answer_of(w, s)), world_after(w, s))
}

/// The roles of a person once a verification is complete: the member role
/// and the fresher's role are held, the non-member role and the role of an
/// earlier year are not, and nothing else has changed.
pub open spec fn verified_roles(before: RoleSet, fresher: Fresher) -> RoleSet {
    let granted = before.spec_with(Role::Member, true);
    let with_fresher = match spec_fresher_role(fresher) {
        Some(role) => granted.spec_with(role, true),
        None => granted,
    };
    with_fresher.spec_with(Role::NonMember, false).spec_with(Role::OldMember, false)
}

/// The requests that complete a verification, in order. `legacy` tells
/// whether the person held the role of an earlier year.
pub open spec fn completion_trace(path: Path, fresher: Fresher, legacy: bool) -> Seq<Command> {
    seq![Command::Grant(Role::Member)] + (match spec_fresher_role(fresher) {
        Some(role) => seq![Command::Grant(role)],
        None => Seq::empty(),
    }) + (if path == Path::Manual {
        seq![Command::Respond(Notice::ReviewVerified)]
    } else {
        seq![Command::Respond(Notice::Verified(fresher)), Command::PostAudit(path)]
    }) + seq![
        Command::Revoke(Role::NonMember),
        Command::HasRole(Role::OldMember),
        if legacy {
            Command::Revoke(Role::OldMember)
        } else {
            Command::Welcome
        },
    ]
}

/// The roles once a completion has run from a step on.
spec fn roles_from(step: CompleteStep, roles: Map<u64, RoleSet>, who: u64, fresher: Fresher) -> Map<
    u64,
    RoleSet,
>
    decreases rank(Stage::Complete(Path::Login, step)),
{
    match step {
        CompleteStep::GrantMember => {
            let granted = roles_set(roles, who, Role::Member, true);
            match spec_fresher_role(fresher) {
                Some(role) => roles_from(CompleteStep::GrantFresher(role), granted, who, fresher),
                None => roles_from(CompleteStep::Announce, granted, who, fresher),
            }
        },
        CompleteStep::GrantFresher(role) => roles_from(
            CompleteStep::Announce,
            roles_set(roles, who, role, true),
            who,
            fresher,
        ),
        CompleteStep::Announce => roles_from(CompleteStep::ClearNonMember, roles, who, fresher),
        CompleteStep::Audit => roles_from(CompleteStep::ClearNonMember, roles, who, fresher),
        CompleteStep::ClearNonMember => roles_from(
            CompleteStep::CheckLegacy,
            roles_set(roles, who, Role::NonMember, false),
            who,
            fresher,
        ),
        CompleteStep::CheckLegacy => if roles_of(roles, who).spec_holds(Role::OldMember) {
            roles_from(CompleteStep::RevokeLegacy, roles, who, fresher)
        } else {
            roles
        },
        CompleteStep::RevokeLegacy => roles_set(roles, who, Role::OldMember, false),
        CompleteStep::Welcome => roles,
    }
}

/// The requests that a completion makes from a step on.
spec fn trace_from(
    path: Path,
    step: CompleteStep,
    roles: Map<u64, RoleSet>,
    who: u64,
    fresher: Fresher,
) -> Seq<Command>
    decreases rank(Stage::Complete(path, step)),
{
    let first = seq![command_of(Stage::Complete(path, step), fresher)];
    match step {
        CompleteStep::GrantMember => first + trace_from(
            path,
            match spec_fresher_role(fresher) {
                Some(role) => CompleteStep::GrantFresher(role),
                None => CompleteStep::Announce,
            },
            roles_set(roles, who, Role::Member, true),
            who,
            fresher,
        ),
        CompleteStep::GrantFresher(role) => first + trace_from(
            path,
            CompleteStep::Announce,
            roles_set(roles, who, role, true),
            who,
            fresher,
        ),
        CompleteStep::Announce => first + (if path == Path::Manual {
            trace_from(path, CompleteStep::ClearNonMember, roles, who, fresher)
        } else {
            trace_from(path, CompleteStep::Audit, roles, who, fresher)
        }),
        CompleteStep::Audit => first + trace_from(
            path,
            CompleteStep::ClearNonMember,
            roles,
            who,
            fresher,
        ),
        CompleteStep::ClearNonMember => first + trace_from(
            path,
            CompleteStep::CheckLegacy,
            roles_set(roles, who, Role::NonMember, false),
            who,
            fresher,
        ),
        CompleteStep::CheckLegacy => first + (if roles_of(roles, who).spec_holds(Role::OldMember) {
            trace_from(path, CompleteStep::RevokeLegacy, roles, who, fresher)
        } else {
            trace_from(path, CompleteStep::Welcome, roles, who, fresher)
        }),
        CompleteStep::RevokeLegacy => first,
        CompleteStep::Welcome => first,
    }
}

/// A completion runs to its end from any of its steps.
proof fn lemma_completion_from(s: SessionView, w: WorldView, path: Path, step: CompleteStep)
    requires
        s.stage == Stage::Complete(path, step),
    ensures
        handled(s, w).session.stage == Stage::Closed(Verdict::Completed),
        handled(s, w).session.candidate == s.candidate,
        handled(s, w).world.roles == roles_from(
            step,
            w.roles,
            s.candidate.identity,
            s.candidate.fresher,
        ),
        handled(s, w).trace == trace_from(
            path,
            step,
            w.roles,
            s.candidate.identity,
            s.candidate.fresher,
        ),
    decreases rank(s.stage),
{
    let (s1, w1) = lemma_one_request(s, w);
    match s1.stage {
        Stage::Complete(path1, step1) => {
            lemma_completion_from(s1, w1, path1, step1);
        },
        _ => {
            lemma_handled_step(s1, w1);
        },
    }
}

/// With collaborators that do not fail, the completion of a path runs to
/// its end: the roles of the person become those of a verified member, the
/// person is told, the committee is told, and then either the role of an
/// earlier year is revoked or the person is welcomed in public, never both.
/// The store is not touched and nobody else's roles change.
pub proof fn law_completion_grants_roles(s: SessionView, w: WorldView, path: Path)
    requires
        s.stage == Stage::Complete(path, CompleteStep::GrantMember),
    ensures
        ({
            let r = handled(s, w);
            let who = s.candidate.identity;
            let before = roles_of(w.roles, who);
            &&& r.session.stage == Stage::Closed(Verdict::Completed)
            &&& r.session.candidate == s.candidate
            &&& r.world.store == w.store
            &&& r.world.roster == w.roster
            &&& r.world.roles == w.roles.insert(who, verified_roles(before, s.candidate.fresher))
            &&& r.trace == completion_trace(
                path,
                s.candidate.fresher,
                before.spec_holds(Role::OldMember),
            )
        }),
{
    let who = s.candidate.identity;
    let fresher = s.candidate.fresher;
    let before = roles_of(w.roles, who);
    law_store_rests_after_the_write(s, w);
    lemma_completion_from(s, w, path, CompleteStep::GrantMember);
    reveal_with_fuel(roles_from, 8);
    reveal_with_fuel(trace_from, 8);
    assert(roles_from(CompleteStep::GrantMember, w.roles, who, fresher) =~= w.roles.insert(
        who,
        verified_roles(before, fresher),
    ));
    assert(trace_from(path, CompleteStep::GrantMember, w.roles, who, fresher)
        =~= completion_trace(path, fresher, before.spec_holds(Role::OldMember)));
}

/// A stranger is offered the three paths and nothing else happens. Where
/// the person is no member, the path selector looks them up, answers with
/// the choice of paths, and leaves the collaborators as they were.
pub proof fn law_stranger_is_offered_the_paths(w: WorldView, actor: u64, fresh: bool)
    requires
        !w.store.members.contains_key(actor),
    ensures
        ({
            let r = handled(opened(Stage::Select { fresh }, actor, Fresher::No), w);
            &&& r.session.stage == Stage::Closed(Verdict::Completed)
            &&& r.world == w
            &&& r.trace == seq![
                Command::GetMember,
                Command::Respond(Notice::PathChoice { fresh }),
            ]
        }),
{
    let s = opened(Stage::Select { fresh }, actor, Fresher::No);
    let (s1, w1) = lemma_one_request(s, w);
    let (s2, w2) = lemma_one_request(s1, w1);
    lemma_handled_step(s2, w2);
    assert(handled(s, w).trace =~= seq![
        Command::GetMember,
        Command::Respond(Notice::PathChoice { fresh }),
    ]);
}

/// The login is confirmed or it is not. Asked whether the identity provider
/// has confirmed the login, the workflow answers with the form where the
/// person has a pending record and with a reminder where not, and changes
/// nothing.
pub proof fn law_login_lookup_changes_nothing(w: WorldView, actor: u64)
    requires
        w.store.wf(),
    ensures
        ({
            let r = handled(opened(Stage::Login(LoginStep::Lookup), actor, Fresher::No), w);
            &&& r.session.stage == Stage::Closed(Verdict::Completed)
            &&& r.world == w
            &&& r.trace == seq![
                Command::GetPending,
                Command::Respond(
                    if w.store.pending.contains_key(actor) {
                        Notice::LoginForm
                    } else {
                        Notice::LoginIncomplete
                    },
                ),
            ]
        }),
{
    let s = opened(Stage::Login(LoginStep::Lookup), actor, Fresher::No);
    let (s1, w1) = lemma_one_request(s, w);
    let (s2, w2) = lemma_one_request(s1, w1);
    lemma_handled_step(s2, w2);
    assert(handled(s, w).trace =~= seq![
        Command::GetPending,
        Command::Respond(
            if w.store.pending.contains_key(actor) {
                Notice::LoginForm
            } else {
                Notice::LoginIncomplete
            },
        ),
    ]);
}

/// Opening a form clears what another path left behind. Before the
/// membership form opens, the pending login and the request for manual
/// review of the person are deleted; before the form for manual review
/// opens, the earlier request is. Members and roles are not touched.
pub proof fn law_forms_open_on_a_clean_slate(w: WorldView, actor: u64, fresher: Fresher)
    ensures
        ({
            let r = handled(
                opened(Stage::Membership(MembershipStep::PurgePending), actor, fresher),
                w,
            );
            &&& r.session.stage == Stage::Closed(Verdict::Completed)
            &&& r.world.store == w.store.delete_pending(actor).delete_manual(actor)
            &&& r.world.roles == w.roles
            &&& r.trace == seq![
                Command::DeletePending,
                Command::DeleteManual,
                Command::Respond(Notice::MembershipModal(fresher)),
            ]
        }),
        ({
            let r = handled(opened(Stage::Manual(ManualStep::Purge), actor, fresher), w);
            &&& r.session.stage == Stage::Closed(Verdict::Completed)
            &&& r.world.store == w.store.delete_manual(actor)
            &&& r.world.roles == w.roles
            &&& r.trace == seq![
                Command::DeleteManual,
                Command::Respond(Notice::ManualModal(fresher)),
            ]
        }),
{
    let s = opened(Stage::Membership(MembershipStep::PurgePending), actor, fresher);
    let (s1, w1) = lemma_one_request(s, w);
    let (s2, w2) = lemma_one_request(s1, w1);
    let (s3, w3) = lemma_one_request(s2, w2);
    lemma_handled_step(s3, w3);
    assert(handled(s, w).trace =~= seq![
        Command::DeletePending,
        Command::DeleteManual,
        Command::Respond(Notice::MembershipModal(fresher)),
    ]);
    let t = opened(Stage::Manual(ManualStep::Purge), actor, fresher);
    let (t1, v1) = lemma_one_request(t, w);
    let (t2, v2) = lemma_one_request(t1, v1);
    lemma_handled_step(t2, v2);
    assert(handled(t, w).trace =~= seq![
        Command::DeleteManual,
        Command::Respond(Notice::ManualModal(fresher)),
    ]);
}

/// The roles of a member who comes back to the path selector: the
/// non-member role is gone, the member role and the fresher's role are
/// held, and nothing else has changed.
pub open spec fn regranted_roles(before: RoleSet, fresher: Fresher) -> RoleSet {
    let granted = before.spec_with(Role::NonMember, false).spec_with(Role::Member, true);
    match spec_fresher_role(fresher) {
        Some(role) => granted.spec_with(role, true),
        None => granted,
    }
}

/// The requests that the path selector makes for a member, in order.
pub open spec fn regrant_trace(fresher: Fresher) -> Seq<Command> {
    seq![Command::GetMember, Command::Revoke(Role::NonMember), Command::Grant(Role::Member)] + (
    match spec_fresher_role(fresher) {
        Some(role) => seq![Command::Grant(role)],
        None => Seq::empty(),
    }) + seq![Command::Respond(Notice::AlreadyVerified)]
}

/// The path selector gives a member the roles back and leaves the store
/// alone.
proof fn lemma_selector_regrants(w: WorldView, actor: u64, fresh: bool)
    requires
        w.store.wf(),
        w.store.members.contains_key(actor),
    ensures
        ({
            let fresher = w.store.members[actor].fresher;
            let r = handled(opened(Stage::Select { fresh }, actor, Fresher::No), w);
            &&& r.session.stage == Stage::Closed(Verdict::Completed)
            &&& r.world.store == w.store
            &&& r.world.roster == w.roster
            &&& r.world.roles == w.roles.insert(
                actor,
                regranted_roles(roles_of(w.roles, actor), fresher),
            )
            &&& r.trace == regrant_trace(fresher)
        }),
{
    let fresher = w.store.members[actor].fresher;
    let s = opened(Stage::Select { fresh }, actor, Fresher::No);
    let (s1, w1) = lemma_one_request(s, w);
    assert(s1.stage == Stage::Regrant(RegrantStep::ClearNonMember));
    assert(s1.candidate == w.store.members[actor]);
    law_store_rests_after_the_write(s1, w1);
    let (s2, w2) = lemma_one_request(s1, w1);
    let (s3, w3) = lemma_one_request(s2, w2);
    let (s4, w4) = if spec_fresher_role(fresher) is Some {
        lemma_one_request(s3, w3)
    } else {
        (s3, w3)
    };
    assert(s4.stage == Stage::Answer(Notice::AlreadyVerified));
    let (s5, w5) = lemma_one_request(s4, w4);
    lemma_handled_step(s5, w5);
    assert(w5.roles =~= w.roles.insert(actor, regranted_roles(roles_of(w.roles, actor), fresher)));
    assert(handled(s, w).trace =~= regrant_trace(fresher));
}

/// Coming back is harmless. For a person who is a member, the path selector
/// ends well, gives the roles back and leaves the store alone; invoked a
/// second time it makes the same requests and changes nothing at all.
pub proof fn law_reentry_is_idempotent(w: WorldView, actor: u64, first: bool, second: bool)
    requires
        w.store.wf(),
        w.store.members.contains_key(actor),
    ensures
        ({
            let fresher = w.store.members[actor].fresher;
            let once = handled(opened(Stage::Select { fresh: first }, actor, Fresher::No), w);
            let twice = handled(
                opened(Stage::Select { fresh: second }, actor, Fresher::No),
                once.world,
            );
            &&& once.session.stage == Stage::Closed(Verdict::Completed)
            &&& once.world.store == w.store
            &&& once.world.roles == w.roles.insert(
                actor,
                regranted_roles(roles_of(w.roles, actor), fresher),
            )
            &&& once.trace == regrant_trace(fresher)
            &&& twice.session.stage == Stage::Closed(Verdict::Completed)
            &&& twice.trace == once.trace
            &&& twice.world == once.world
        }),
{
    let fresher = w.store.members[actor].fresher;
    lemma_selector_regrants(w, actor, first);
    let once = handled(opened(Stage::Select { fresh: first }, actor, Fresher::No), w);
    lemma_selector_regrants(once.world, actor, second);
    let twice = handled(opened(Stage::Select { fresh: second }, actor, Fresher::No), once.world);
    assert(twice.world.roles =~= once.world.roles);
}

/// A request is promoted at most once. Where a person has a request for
/// manual review and is no member yet, a first acceptance makes the request
/// a member record and completes the verification; a second acceptance, by
/// the same or another committee member, finds no request, says so, and
/// changes neither the store nor any role.
pub proof fn law_second_accept_finds_nothing(
    w: WorldView,
    reviewer: u64,
    other_reviewer: u64,
    subject: u64,
)
    requires
        w.store.wf(),
        w.store.manual.contains_key(subject),
        !w.store.members.contains_key(subject),
    ensures
        ({
            let first = handled(deciding(reviewer, Decision::Accept, subject), w);
            let second = handled(deciding(other_reviewer, Decision::Accept, subject), first.world);
            let record = w.store.manual[subject];
            &&& first.session.stage == Stage::Closed(Verdict::Completed)
            &&& first.world.store == w.store.move_manual(subject)
            &&& first.world.store.members == w.store.members.insert(subject, record)
            &&& !first.world.store.manual.contains_key(subject)
            &&& first.world.roles == w.roles.insert(
                subject,
                verified_roles(roles_of(w.roles, subject), record.fresher),
            )
            &&& second.session.stage == Stage::Closed(Verdict::Completed)
            &&& second.trace == seq![
                Command::FindGuildMember,
                Command::MoveManualToMember,
                Command::Respond(Notice::ReviewFailed),
            ]
            &&& second.world == first.world
        }),
{
    let s = deciding(reviewer, Decision::Accept, subject);
    let (s1, w1) = lemma_one_request(s, w);
    let (s2, w2) = lemma_one_request(s1, w1);
    assert(s2.stage == Stage::Complete(Path::Manual, CompleteStep::GrantMember));
    law_completion_grants_roles(s2, w2, Path::Manual);
    let first = handled(s, w);
    let t = deciding(other_reviewer, Decision::Accept, subject);
    let (t1, v1) = lemma_one_request(t, first.world);
    let (t2, v2) = lemma_one_request(t1, v1);
    assert(t2.stage == Stage::Answer(Notice::ReviewFailed));
    let (t3, v3) = lemma_one_request(t2, v2);
    lemma_handled_step(t3, v3);
    assert(handled(t, first.world).trace =~= seq![
        Command::FindGuildMember,
        Command::MoveManualToMember,
        Command::Respond(Notice::ReviewFailed),
    ]);
}

/// A denial deletes the request and makes no member. Whether or not the
/// person has a request, after a denial there is none, the members and the
/// pending logins are as they were, and no role has changed.
pub proof fn law_deny_makes_no_member(w: WorldView, reviewer: u64, subject: u64)
    ensures
        ({
            let r = handled(deciding(reviewer, Decision::Deny, subject), w);
            &&& r.session.stage == Stage::Closed(Verdict::Completed)
            &&& r.world.store == w.store.delete_manual(subject)
            &&& !r.world.store.manual.contains_key(subject)
            &&& r.world.store.members == w.store.members
            &&& r.world.roles == w.roles
            &&& r.trace == seq![
                Command::FindGuildMember,
                Command::DeleteManual,
                Command::Respond(Notice::ReviewDenied),
            ]
        }),
{
    let s = deciding(reviewer, Decision::Deny, subject);
    let (s1, w1) = lemma_one_request(s, w);
    let (s2, w2) = lemma_one_request(s1, w1);
    let (s3, w3) = lemma_one_request(s2, w2);
    lemma_handled_step(s3, w3);
    assert(handled(s, w).trace =~= seq![
        Command::FindGuildMember,
        Command::DeleteManual,
        Command::Respond(Notice::ReviewDenied),
    ]);
}

/// Switching to the login path clears the manual one. Finalising a login
/// asks first for the deletion of the person's request for manual review
/// and only then for the move of the pending login; whatever the store held
/// and however the session ends, no request of the person remains.
pub proof fn law_login_discards_the_manual_request(
    w: WorldView,
    actor: u64,
    fresher: Fresher,
    preferred_name: Seq<char>,
)
    ensures
        ({
            let r = handled(finalising(actor, fresher, preferred_name), w);
            &&& r.trace.len() >= 2
            &&& r.trace[0] == Command::DeleteManual
            &&& r.trace[1] == Command::MovePendingToMember
            &&& !r.world.store.manual.contains_key(actor)
            &&& r.world.store == w.store.delete_manual(actor).move_pending(
                actor,
                preferred_name,
                fresher,
            )
        }),
{
    let s = finalising(actor, fresher, preferred_name);
    let (s1, w1) = lemma_one_request(s, w);
    let (s2, w2) = lemma_one_request(s1, w1);
    law_store_rests_after_the_write(s2, w2);
}

/// A login that is finalised makes a member. Where the person has a pending
/// login and is no member yet, finalising turns the pending record, with
/// the preferred name and the fresher category, into the member record,
/// deletes a request for manual review, and completes the verification.
pub proof fn law_login_makes_a_member(
    w: WorldView,
    actor: u64,
    fresher: Fresher,
    preferred_name: Seq<char>,
)
    requires
        w.store.wf(),
        w.store.pending.contains_key(actor),
        !w.store.members.contains_key(actor),
    ensures
        ({
            let r = handled(finalising(actor, fresher, preferred_name), w);
            let member = admitted(w.store.pending[actor], preferred_name, fresher);
            &&& r.session.stage == Stage::Closed(Verdict::Completed)
            &&& r.world.store.members == w.store.members.insert(actor, member)
            &&& r.world.store.pending == w.store.pending.remove(actor)
            &&& r.world.store.manual == w.store.manual.remove(actor)
            &&& r.world.roles == w.roles.insert(
                actor,
                verified_roles(roles_of(w.roles, actor), fresher),
            )
            &&& r.trace == seq![Command::DeleteManual, Command::MovePendingToMember]
                + completion_trace(
                Path::Login,
                fresher,
                roles_of(w.roles, actor).spec_holds(Role::OldMember),
            )
        }),
{
    let s = finalising(actor, fresher, preferred_name);
    let (s1, w1) = lemma_one_request(s, w);
    let (s2, w2) = lemma_one_request(s1, w1);
    assert(s2.stage == Stage::Complete(Path::Login, CompleteStep::GrantMember));
    law_completion_grants_roles(s2, w2, Path::Login);
    assert(handled(s, w).trace =~= seq![Command::DeleteManual, Command::MovePendingToMember]
        + completion_trace(
        Path::Login,
        fresher,
        roles_of(w.roles, actor).spec_holds(Role::OldMember),
    ));
}

/// A login whose pending record is gone makes nothing. Where the person has
/// no pending login, finalising sends them back to log in, writes no member
/// and grants no role.
pub proof fn law_login_without_pending_is_refused(
    w: WorldView,
    actor: u64,
    fresher: Fresher,
    preferred_name: Seq<char>,
)
    requires
        !w.store.pending.contains_key(actor),
    ensures
        ({
            let r = handled(finalising(actor, fresher, preferred_name), w);
            &&& r.session.stage == Stage::Closed(Verdict::Completed)
            &&& r.world.store == w.store.delete_manual(actor)
            &&& r.world.roles == w.roles
            &&& r.trace == seq![
                Command::DeleteManual,
                Command::MovePendingToMember,
                Command::Respond(Notice::LoginIncomplete),
            ]
        }),
{
    let s = finalising(actor, fresher, preferred_name);
    let (s1, w1) = lemma_one_request(s, w);
    let (s2, w2) = lemma_one_request(s1, w1);
    let (s3, w3) = lemma_one_request(s2, w2);
    lemma_handled_step(s3, w3);
    assert(handled(s, w).trace =~= seq![
        Command::DeleteManual,
        Command::MovePendingToMember,
        Command::Respond(Notice::LoginIncomplete),
    ]);
}

/// The member that a membership form and the roster entry it names make.
pub open spec fn member_of_order(
    actor: u64,
    fresher: Fresher,
    shortcode: Seq<char>,
    nickname: Seq<char>,
    entry: MemberView,
) -> RecordView {
    RecordView {
        identity: actor,
        shortcode,
        preferred_name: nickname,
        legal_name: spec_legal_name(entry),
        fresher,
    }
}

/// An order that the roster holds makes a member. Where the roster can be
/// had, an entry of it is named by the form and the person is no member
/// yet, the path writes the member record, with the legal name of the first
/// such entry, touches no other record, and completes the verification.
pub proof fn law_order_found_makes_a_member(
    w: WorldView,
    actor: u64,
    fresher: Fresher,
    order: Seq<char>,
    shortcode: Seq<char>,
    nickname: Seq<char>,
)
    requires
        w.roster is Some,
        first_named(w.roster.unwrap(), order, shortcode) is Some,
        !w.store.members.contains_key(actor),
    ensures
        ({
            let r = handled(checking(actor, fresher, order, shortcode, nickname), w);
            let entry = w.roster.unwrap()[first_named(w.roster.unwrap(), order, shortcode).unwrap()];
            let member = member_of_order(actor, fresher, shortcode, nickname, entry);
            &&& r.session.stage == Stage::Closed(Verdict::Completed)
            &&& r.world.store == w.store.insert_member(member)
            &&& r.world.store.members == w.store.members.insert(actor, kept(member))
            &&& r.world.roles == w.roles.insert(
                actor,
                verified_roles(roles_of(w.roles, actor), fresher),
            )
            &&& r.trace == seq![Command::FetchRoster, Command::InsertMember] + completion_trace(
                Path::Membership,
                fresher,
                roles_of(w.roles, actor).spec_holds(Role::OldMember),
            )
        }),
{
    let s = checking(actor, fresher, order, shortcode, nickname);
    let (s1, w1) = lemma_one_request(s, w);
    let (s2, w2) = lemma_one_request(s1, w1);
    assert(s2.stage == Stage::Complete(Path::Membership, CompleteStep::GrantMember));
    law_completion_grants_roles(s2, w2, Path::Membership);
    assert(handled(s, w).trace =~= seq![Command::FetchRoster, Command::InsertMember]
        + completion_trace(
        Path::Membership,
        fresher,
        roles_of(w.roles, actor).spec_holds(Role::OldMember),
    ));
}

/// An order that the roster does not hold writes nothing. Where the roster
/// cannot be had, or no entry of it is named by the form, the person is
/// told which of the two it was and the collaborators are as they were.
pub proof fn law_order_not_found_writes_nothing(
    w: WorldView,
    actor: u64,
    fresher: Fresher,
    order: Seq<char>,
    shortcode: Seq<char>,
    nickname: Seq<char>,
)
    requires
        w.roster matches Some(list) ==> first_named(list, order, shortcode) is None,
    ensures
        ({
            let r = handled(checking(actor, fresher, order, shortcode, nickname), w);
            &&& r.session.stage == Stage::Closed(Verdict::Completed)
            &&& r.world == w
            &&& r.trace == seq![
                Command::FetchRoster,
                Command::Respond(
                    if w.roster is Some {
                        Notice::OrderNotFound
                    } else {
                        Notice::RosterUnavailable
                    },
                ),
            ]
        }),
{
    let s = checking(actor, fresher, order, shortcode, nickname);
    let (s1, w1) = lemma_one_request(s, w);
    let (s2, w2) = lemma_one_request(s1, w1);
    lemma_handled_step(s2, w2);
    assert(handled(s, w).trace =~= seq![
        Command::FetchRoster,
        Command::Respond(
            if w.roster is Some {
                Notice::OrderNotFound
            } else {
                Notice::RosterUnavailable
            },
        ),
    ]);
}

/// The last submission wins. A well-formed request for manual review is
/// filed whatever the person had on record: the pending login is deleted,
/// an earlier request is deleted, the request is posted and written, and the
/// person is told that it was sent. Afterwards the store holds exactly the
/// submitted request for the person; members and roles are as they were.
pub proof fn law_request_is_filed(
    w: WorldView,
    actor: u64,
    fresher: Fresher,
    shortcode: Seq<char>,
    realname: Seq<char>,
    url: Seq<char>,
    nickname: Seq<char>,
)
    ensures
        ({
            let s = filing(actor, fresher, shortcode, realname, url, nickname);
            let r = handled(s, w);
            &&& r.session.stage == Stage::Closed(Verdict::Completed)
            &&& r.world.store == w.store.delete_pending(actor).delete_manual(actor).insert_manual(
                s.candidate,
            )
            &&& r.world.store.manual == w.store.manual.insert(actor, kept(s.candidate))
            &&& !r.world.store.pending.contains_key(actor)
            &&& r.world.store.members == w.store.members
            &&& r.world.roles == w.roles
            &&& r.trace == seq![
                Command::DeletePending,
                Command::DeleteManual,
                Command::PostReview,
                Command::InsertManual,
                Command::Respond(Notice::RequestSent),
            ]
        }),
{
    let s = filing(actor, fresher, shortcode, realname, url, nickname);
    let (s1, w1) = lemma_one_request(s, w);
    let (s2, w2) = lemma_one_request(s1, w1);
    let (s3, w3) = lemma_one_request(s2, w2);
    let (s4, w4) = lemma_one_request(s3, w3);
    let (s5, w5) = lemma_one_request(s4, w4);
    lemma_handled_step(s5, w5);
    assert(w5.store.manual =~= w.store.manual.insert(actor, kept(s.candidate)));
    assert(handled(s, w).trace =~= seq![
        Command::DeletePending,
        Command::DeleteManual,
        Command::PostReview,
        Command::InsertManual,
        Command::Respond(Notice::RequestSent),
    ]);
}

/// A denial does not wait for the person to be found. Whatever the lookup
/// on the server comes to, a denial goes on to delete the request; an
/// acceptance goes on only where the person was found.
pub proof fn law_denial_is_unconditional(s: SessionView, lookup: OutcomeView)
    requires
        s.stage == Stage::Manual(ManualStep::Locate(Decision::Deny)),
    ensures
        fed(s, lookup).stage == Stage::Manual(ManualStep::Discard),
        fed(s, lookup).candidate == s.candidate,
        command_of(fed(s, lookup).stage, fed(s, lookup).candidate.fresher)
            == Command::DeleteManual,
{
}

/// A member whose roles cannot be changed is told so and nothing is
/// written. Where the path selector has found the member and the first
/// change of roles fails, for want of the person on the server or for any
/// other reason, the session is given up after two requests, neither of
/// them a write to the store, and the answer is the general apology.
pub proof fn law_selector_gives_up_without_roles(
    actor: u64,
    fresh: bool,
    record: RecordView,
    refusal: OutcomeView,
)
    requires
        record.identity == actor,
        !(refusal is Done),
    ensures
        ({
            let s = opened(Stage::Select { fresh }, actor, Fresher::No);
            let found = fed(s, OutcomeView::Member(Some(record)));
            let given_up = fed(found, refusal);
            &&& command_of(s.stage, s.candidate.fresher) == Command::GetMember
            &&& command_of(found.stage, found.candidate.fresher) == Command::Revoke(
                Role::NonMember,
            )
            &&& given_up.stage == Stage::Closed(Verdict::Failed)
            &&& spec_closing_notice(Verdict::Failed) == Some(Notice::Unknown)
        }),
{
}

/// A session that was given up is answered with the general apology, one
/// that ran to its end with nothing more; and a session is given up only
/// where a collaborator failed or answered another question.
pub proof fn law_failed_sessions_are_answered(s: SessionView, outcome: OutcomeView)
    ensures
        spec_closing_notice(Verdict::Failed) == Some(Notice::Unknown),
        spec_closing_notice(Verdict::Completed) is None,
        !(s.stage is Closed) && fed(s, outcome).stage == Stage::Closed(Verdict::Failed)
            ==> signal_of(s, outcome) != Signal::Done && signal_of(s, outcome) != Signal::Found,
{
}

/// The answer to a submitted request tells three outcomes apart, whatever
/// the host reports of the post and of the write: both done, the post done
/// and the write not, and the post not done.
pub proof fn law_submission_reports_three_outcomes(
    s: SessionView,
    post: OutcomeView,
    write: OutcomeView,
)
    requires
        s.stage == Stage::Manual(ManualStep::Post),
    ensures
        fed(fed(s, post), write).stage == Stage::Answer(
            spec_submitted_notice(post is Done, write is Done),
        ),
        spec_submitted_notice(true, true) != spec_submitted_notice(true, false),
        spec_submitted_notice(true, true) != spec_submitted_notice(false, true),
        spec_submitted_notice(true, false) != spec_submitted_notice(false, false),
        spec_submitted_notice(false, true) == spec_submitted_notice(false, false),
{
}

/// No role without a record. A session starts to grant roles only where the
/// store has just confirmed the member record: the path selector found it,
/// or a path moved or inserted it. From every other stage a failure or a
/// refusal leads to an answer or to the end, never to a grant.
pub proof fn law_roles_follow_the_record(stage: Stage, signal: Signal, fresher: Fresher)
    ensures
        next_stage(stage, signal, fresher) is Complete ==> stage is Complete || (stage
            == Stage::Login(LoginStep::Move) && signal == Signal::Found) || (stage
            == Stage::Membership(MembershipStep::Insert) && signal == Signal::Done) || (stage
            == Stage::Manual(ManualStep::Move) && signal == Signal::Found),
        next_stage(stage, signal, fresher) is Regrant ==> stage is Regrant || (stage is Select
            && signal == Signal::Found),
        (command_of(stage, fresher) is Grant || command_of(stage, fresher) is Revoke
            || command_of(stage, fresher) is HasRole) ==> stage is Complete || stage is Regrant,
{
}

/// Two sessions that take turns at the same collaborators, with the
/// requests that each has made so far.
pub struct Pair {
    pub first: SessionView,
    pub second: SessionView,
    pub world: WorldView,
    pub first_trace: Seq<Command>,
    pub second_trace: Seq<Command>,
}

/// One turn: the session whose turn it is makes its request and takes the
/// answer; a closed session lets its turn pass.
pub open spec fn turn(p: Pair, first_moves: bool) -> Pair {
    if first_moves {
        if p.first.stage is Closed {
            p
        } else {
            Pair {
                first: fed(p.first, answer_of(p.world, p.first)),
                world: world_after(p.world, p.first),
                first_trace: p.first_trace.push(
                    command_of(p.first.stage, p.first.candidate.fresher),
                ),
                ..p
            }
        }
    } else {
        if p.second.stage is Closed {
            p
        } else {
            Pair {
                second: fed(p.second, answer_of(p.world, p.second)),
                world: world_after(p.world, p.second),
                second_trace: p.second_trace.push(
                    command_of(p.second.stage, p.second.candidate.fresher),
                ),
                ..p
            }
        }
    }
}

/// The two sessions after they have taken turns in the order that a
/// schedule gives: `true` for the first session, `false` for the second.
pub open spec fn interleaved(p: Pair, schedule: Seq<bool>) -> Pair
    decreases schedule.len(),
{
    if schedule.len() == 0 {
        p
    } else {
        interleaved(turn(p, schedule[0]), schedule.skip(1))
    }
}

/// The requests of an acceptance that found no request to promote.
pub open spec fn refused_trace() -> Seq<Command> {
    seq![
        Command::FindGuildMember,
        Command::MoveManualToMember,
        Command::Respond(Notice::ReviewFailed),
    ]
}

/// The requests of a denial.
pub open spec fn denied_trace() -> Seq<Command> {
    seq![Command::FindGuildMember, Command::DeleteManual, Command::Respond(Notice::ReviewDenied)]
}

/// Whether the requests are those of an acceptance that promoted a request:
/// after the move, the member role was granted.
pub open spec fn promoted_trace(trace: Seq<Command>) -> bool {
    &&& trace.len() >= 3
    &&& trace[0] == Command::FindGuildMember
    &&& trace[1] == Command::MoveManualToMember
    &&& trace[2] == Command::Grant(Role::Member)
}

/// A decision that has not reached the store yet.
spec fn waiting(s: SessionView, trace: Seq<Command>, subject: u64, decision: Decision) -> bool {
    &&& s.candidate.identity == subject
    &&& (s.stage == Stage::Manual(ManualStep::Locate(decision)) && trace
        == Seq::<Command>::empty()) || (s.stage == Stage::Manual(
        match decision {
            Decision::Accept => ManualStep::Move,
            Decision::Deny => ManualStep::Discard,
        },
    ) && trace == seq![Command::FindGuildMember])
}

/// An acceptance whose move was granted.
spec fn winning(s: SessionView, trace: Seq<Command>, subject: u64, decision: Decision) -> bool {
    &&& decision == Decision::Accept
    &&& s.candidate.identity == subject
    &&& trace.len() >= 2
    &&& trace[0] == Command::FindGuildMember
    &&& trace[1] == Command::MoveManualToMember
    &&& match s.stage {
        Stage::Complete(path, CompleteStep::GrantMember) => path == Path::Manual && trace.len()
            == 2,
        Stage::Complete(path, _) => path == Path::Manual && promoted_trace(trace),
        Stage::Closed(verdict) => verdict == Verdict::Completed && promoted_trace(trace),
        _ => false,
    }
}

/// A decision that has reached the store and promoted nothing: an
/// acceptance whose move was refused, or a denial.
spec fn settled(s: SessionView, trace: Seq<Command>, subject: u64, decision: Decision) -> bool {
    &&& s.candidate.identity == subject
    &&& match decision {
        Decision::Accept => (s.stage == Stage::Answer(Notice::ReviewFailed) && trace == seq![
            Command::FindGuildMember,
            Command::MoveManualToMember,
        ]) || (s.stage == Stage::Closed(Verdict::Completed) && trace == refused_trace()),
        Decision::Deny => (s.stage == Stage::Answer(Notice::ReviewDenied) && trace == seq![
            Command::FindGuildMember,
            Command::DeleteManual,
        ]) || (s.stage == Stage::Closed(Verdict::Completed) && trace == denied_trace()),
    }
}

/// What holds of two decisions on one request at every moment: the store
/// is as it was and neither has reached it; or one acceptance has promoted
/// the request; or a denial has deleted it and nobody has promoted it.
spec fn racing(p: Pair, start: StoreView, subject: u64, d1: Decision, d2: Decision) -> bool {
    let idle1 = waiting(p.first, p.first_trace, subject, d1);
    let idle2 = waiting(p.second, p.second_trace, subject, d2);
    let past1 = settled(p.first, p.first_trace, subject, d1);
    let past2 = settled(p.second, p.second_trace, subject, d2);
    ||| p.world.store == start && idle1 && idle2
    ||| {
        &&& p.world.store == start.move_manual(subject)
        &&& winning(p.first, p.first_trace, subject, d1)
        &&& idle2 || past2
    }
    ||| {
        &&& p.world.store == start.move_manual(subject)
        &&& winning(p.second, p.second_trace, subject, d2)
        &&& idle1 || past1
    }
    ||| {
        &&& p.world.store == start.delete_manual(subject)
        &&& idle1 || past1
        &&& idle2 || past2
        &&& (d1 == Decision::Deny && past1) || (d2 == Decision::Deny && past2)
    }
}

/// A turn keeps what holds of the two decisions.
proof fn lemma_turn_keeps_racing(
    p: Pair,
    start: StoreView,
    subject: u64,
    d1: Decision,
    d2: Decision,
    first_moves: bool,
)
    requires
        start.wf(),
        start.manual.contains_key(subject),
        !start.members.contains_key(subject),
        racing(p, start, subject, d1, d2),
    ensures
        racing(turn(p, first_moves), start, subject, d1, d2),
{
    let q = turn(p, first_moves);
    let s = if first_moves {
        p.first
    } else {
        p.second
    };
    let t = if first_moves {
        p.first_trace
    } else {
        p.second_trace
    };
    let d = if first_moves {
        d1
    } else {
        d2
    };
    let moved = start.move_manual(subject);
    let deleted = start.delete_manual(subject);
    assert(moved.delete_manual(subject).manual =~= moved.manual);
    assert(deleted.delete_manual(subject).manual =~= deleted.manual);
    if !(s.stage is Closed) {
        let pushed = t.push(command_of(s.stage, s.candidate.fresher));
        if waiting(s, t, subject, d) {
            if s.stage == Stage::Manual(ManualStep::Locate(d)) {
                assert(pushed =~= seq![Command::FindGuildMember]);
            } else if d == Decision::Accept {
                assert(pushed =~= seq![Command::FindGuildMember, Command::MoveManualToMember]);
            } else {
                assert(pushed =~= seq![Command::FindGuildMember, Command::DeleteManual]);
            }
        } else if settled(s, t, subject, d) {
            if d == Decision::Accept {
                assert(pushed =~= refused_trace());
            } else {
                assert(pushed =~= denied_trace());
            }
        } else {
            assert(winning(s, t, subject, d));
            assert(pushed[0] == t[0] && pushed[1] == t[1]);
            if t.len() >= 3 {
                assert(pushed[2] == t[2]);
            }
        }
    }
}

/// Every schedule keeps what holds of the two decisions.
proof fn lemma_schedule_keeps_racing(
    p: Pair,
    start: StoreView,
    subject: u64,
    d1: Decision,
    d2: Decision,
    schedule: Seq<bool>,
)
    requires
        start.wf(),
        start.manual.contains_key(subject),
        !start.members.contains_key(subject),
        racing(p, start, subject, d1, d2),
    ensures
        racing(interleaved(p, schedule), start, subject, d1, d2),
    decreases schedule.len(),
{
    if schedule.len() > 0 {
        lemma_turn_keeps_racing(p, start, subject, d1, d2, schedule[0]);
        lemma_schedule_keeps_racing(
            turn(p, schedule[0]),
            start,
            subject,
            d1,
            d2,
            schedule.skip(1),
        );
    }
}

/// The two sessions of two decisions on the request of one person, before
/// either has made a request.
pub open spec fn two_decisions(
    w: WorldView,
    reviewer: u64,
    decision: Decision,
    other_reviewer: u64,
    other_decision: Decision,
    subject: u64,
) -> Pair {
    Pair {
        first: deciding(reviewer, decision, subject),
        second: deciding(other_reviewer, other_decision, subject),
        world: w,
        first_trace: Seq::empty(),
        second_trace: Seq::empty(),
    }
}

/// Two decisions on one request, in whatever order their requests reach the
/// collaborators, never corrupt the store and never fail. At every moment
/// the store is as it was, or holds the one promotion, or has the request
/// deleted. Once both sessions are closed the request is gone; a denial has
/// made the requests of a denial; an acceptance has either promoted the
/// request or reported that it found none; at most one has promoted, and
/// the members have changed by that one record or not at all.
pub proof fn law_concurrent_decisions_are_safe(
    w: WorldView,
    reviewer: u64,
    decision: Decision,
    other_reviewer: u64,
    other_decision: Decision,
    subject: u64,
    schedule: Seq<bool>,
)
    requires
        w.store.wf(),
        w.store.manual.contains_key(subject),
        !w.store.members.contains_key(subject),
    ensures
        ({
            let end = interleaved(
                two_decisions(w, reviewer, decision, other_reviewer, other_decision, subject),
                schedule,
            );
            let promoted = w.store.members.insert(subject, w.store.manual[subject]);
            &&& end.world.store == w.store || end.world.store == w.store.move_manual(subject)
                || end.world.store == w.store.delete_manual(subject)
            &&& end.first.stage != Stage::Closed(Verdict::Failed)
            &&& end.second.stage != Stage::Closed(Verdict::Failed)
            &&& end.first.stage is Closed && end.second.stage is Closed ==> {
                &&& !end.world.store.manual.contains_key(subject)
                &&& !(promoted_trace(end.first_trace) && promoted_trace(end.second_trace))
                &&& end.world.store.members == if promoted_trace(end.first_trace)
                    || promoted_trace(end.second_trace) {
                    promoted
                } else {
                    w.store.members
                }
                &&& match decision {
                    Decision::Accept => promoted_trace(end.first_trace) || end.first_trace
                        == refused_trace(),
                    Decision::Deny => end.first_trace == denied_trace(),
                }
                &&& match other_decision {
                    Decision::Accept => promoted_trace(end.second_trace) || end.second_trace
                        == refused_trace(),
                    Decision::Deny => end.second_trace == denied_trace(),
                }
            }
        }),
{
    let p = two_decisions(w, reviewer, decision, other_reviewer, other_decision, subject);
    lemma_schedule_keeps_racing(p, w.store, subject, decision, other_decision, schedule);
}

/// Two acceptances of one request, in whatever order their requests reach
/// the collaborators, promote it once: once both sessions are closed, the
/// request has become a member, one session has granted the roles and the
/// other has reported that it found no request.
pub proof fn law_concurrent_accepts_promote_once(
    w: WorldView,
    reviewer: u64,
    other_reviewer: u64,
    subject: u64,
    schedule: Seq<bool>,
)
    requires
        w.store.wf(),
        w.store.manual.contains_key(subject),
        !w.store.members.contains_key(subject),
    ensures
        ({
            let end = interleaved(
                two_decisions(
                    w,
                    reviewer,
                    Decision::Accept,
                    other_reviewer,
                    Decision::Accept,
                    subject,
                ),
                schedule,
            );
            end.first.stage is Closed && end.second.stage is Closed ==> {
                &&& end.world.store.members == w.store.members.insert(
                    subject,
                    w.store.manual[subject],
                )
                &&& !end.world.store.manual.contains_key(subject)
                &&& (promoted_trace(end.first_trace) && end.second_trace == refused_trace()) || (
                promoted_trace(end.second_trace) && end.first_trace == refused_trace())
            }
        }),
{
    let p = two_decisions(w, reviewer, Decision::Accept, other_reviewer, Decision::Accept, subject);
    lemma_schedule_keeps_racing(p, w.store, subject, Decision::Accept, Decision::Accept, schedule);
}

} // verus!
