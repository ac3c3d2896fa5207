//! The collaborators of the workflow held in memory: a roster store, a role
//! gateway and an external roster that answer every request at once and
//! without fault. What the workflow does to them is what it asks of any
//! host; the laws of the library are stated over them.

use crate::ea::{copy_roster, roster_view, Member, MemberView};
use crate::records::{admitted, RecordView};
use crate::roles::Role;
use crate::store::{row, Store, StoreError, StoreView};
use crate::verify::{
    command_of, fed, rank, Command, Outcome, OutcomeView, Session, SessionView, Stage,
};
use std::collections::HashMap;
use vstd::prelude::*;

verus! {

broadcast use vstd::std_specs::hash::group_hash_axioms;

/// The roles that one person holds.
#[derive(Clone, Copy, Debug, PartialEq, Eq, Structural)]
pub struct RoleSet {
    pub member: bool,
    pub non_member: bool,
    pub old_member: bool,
    pub fresher_pg: bool,
    pub fresher_ug: bool,
}

impl RoleSet {
    /// No role at all.
    pub open spec fn spec_none() -> RoleSet {
        RoleSet {
            member: false,
            non_member: false,
            old_member: false,
            fresher_pg: false,
            fresher_ug: false,
        }
    }

    /// Whether the role is among those held.
    pub open spec fn spec_holds(self, role: Role) -> bool {
        match role {
            Role::Member => self.member,
            Role::NonMember => self.non_member,
            Role::OldMember => self.old_member,
            Role::FresherPg => self.fresher_pg,
            Role::FresherUg => self.fresher_ug,
        }
    }

    /// The roles held once `role` is granted (`held`) or revoked.
    pub open spec fn spec_with(self, role: Role, held: bool) -> RoleSet {
        match role {
            Role::Member => RoleSet { member: held, ..self },
            Role::NonMember => RoleSet { non_member: held, ..self },
            Role::OldMember => RoleSet { old_member: held, ..self },
            Role::FresherPg => RoleSet { fresher_pg: held, ..self },
            Role::FresherUg => RoleSet { fresher_ug: held, ..self },
        }
    }

    /// No role at all.
    pub fn none() -> (roles: RoleSet)
        ensures
            roles == RoleSet::spec_none(),
    {
        RoleSet {
            member: false,
            non_member: false,
            old_member: false,
            fresher_pg: false,
            fresher_ug: false,
        }
    }

    /// Whether the role is among those held.
    pub fn holds(&self, role: Role) -> (held: bool)
        ensures
            held == self.spec_holds(role),
    {
        match role {
            Role::Member => self.member,
            Role::NonMember => self.non_member,
            Role::OldMember => self.old_member,
            Role::FresherPg => self.fresher_pg,
            Role::FresherUg => self.fresher_ug,
        }
    }

    /// The roles held once `role` is granted (`held`) or revoked.
    pub fn with(&self, role: Role, held: bool) -> (roles: RoleSet)
        ensures
            roles == self.spec_with(role, held),
    {
        let mut roles = *self;
        match role {
            Role::Member => {
                roles.member = held;
            },
            Role::NonMember => {
                roles.non_member = held;
            },
            Role::OldMember => {
                roles.old_member = held;
            },
            Role::FresherPg => {
                roles.fresher_pg = held;
            },
            Role::FresherUg => {
                roles.fresher_ug = held;
            },
        }
        roles
    }
}

/// The roles that a person holds according to a table; none where the table
/// does not know the person.
pub open spec fn roles_of(table: Map<u64, RoleSet>, identity: u64) -> RoleSet {
    if table.contains_key(identity) {
        table[identity]
    } else {
        RoleSet::spec_none()
    }
}

/// The table once a role of a person is granted (`held`) or revoked.
pub open spec fn roles_set(table: Map<u64, RoleSet>, identity: u64, role: Role, held: bool)
    -> Map<u64, RoleSet> {
    table.insert(identity, roles_of(table, identity).spec_with(role, held))
}

/// The role gateway held in memory. Granting a role that is held and
/// revoking one that is not change nothing.
pub struct Gateway {
    roles: HashMap<u64, RoleSet>,
}

impl View for Gateway {
    type V = Map<u64, RoleSet>;

    closed spec fn view(&self) -> Map<u64, RoleSet> {
        self.roles@
    }
}

impl Gateway {
    /// A gateway that knows nobody.
    pub fn new() -> (gateway: Gateway)
        ensures
            gateway@ == Map::<u64, RoleSet>::empty(),
    {
        Gateway { roles: HashMap::new() }
    }

    /// The roles that a person holds.
    pub fn roles(&self, identity: u64) -> (roles: RoleSet)
        ensures
            roles == roles_of(self@, identity),
    {
        match self.roles.get(&identity) {
            Some(roles) => *roles,
            None => RoleSet::none(),
        }
    }

    /// Whether a person holds a role.
    pub fn holds(&self, identity: u64, role: Role) -> (held: bool)
        ensures
            held == roles_of(self@, identity).spec_holds(role),
    {
        self.roles(identity).holds(role)
    }

    /// Grants a role to a person.
    pub fn grant(&mut self, identity: u64, role: Role)
        ensures
            final(self)@ == roles_set(old(self)@, identity, role, true),
    {
        let roles = self.roles(identity).with(role, true);
        self.roles.insert(identity, roles);
    }

    /// Revokes a role of a person.
    pub fn revoke(&mut self, identity: u64, role: Role)
        ensures
            final(self)@ == roles_set(old(self)@, identity, role, false),
    {
        let roles = self.roles(identity).with(role, false);
        self.roles.insert(identity, roles);
    }
}

/// The collaborators, as plain values.
pub struct WorldView {
    pub store: StoreView,
    pub roles: Map<u64, RoleSet>,
    /// The external roster, `None` while it cannot be had.
    pub roster: Option<Seq<MemberView>>,
}

/// The collaborators of the workflow, held in memory.
pub struct World {
    pub store: Store,
    pub gateway: Gateway,
    /// The external roster, `None` while it cannot be had.
    pub roster: Option<Vec<Member>>,
}

impl View for World {
    type V = WorldView;

    open spec fn view(&self) -> WorldView {
        WorldView {
            store: self.store@,
            roles: self.gateway@,
            roster: match self.roster {
                Some(list) => Some(roster_view(list@)),
                None => None,
            },
        }
    }
}

/// What a refused or granted move answers.
pub open spec fn move_outcome(refusal: Option<StoreError>, member: RecordView)
    -> OutcomeView {
    match refusal {
        None => OutcomeView::Moved(member),
        Some(StoreError::NotFound) => OutcomeView::NotFound,
        Some(StoreError::Conflict) => OutcomeView::Conflict,
    }
}

/// The collaborators after they have carried out the request of a session.
pub open spec fn world_after(w: WorldView, s: SessionView) -> WorldView {
    let who = s.candidate.identity;
    match command_of(s.stage, s.candidate.fresher) {
        Command::DeletePending => WorldView { store: w.store.delete_pending(who), ..w },
        Command::DeleteManual => WorldView { store: w.store.delete_manual(who), ..w },
        Command::MovePendingToMember => WorldView {
            store: w.store.move_pending(who, s.candidate.preferred_name, s.candidate.fresher),
            ..w
        },
        Command::MoveManualToMember => WorldView { store: w.store.move_manual(who), ..w },
        Command::InsertMember => WorldView { store: w.store.insert_member(s.candidate), ..w },
        Command::InsertManual => WorldView { store: w.store.insert_manual(s.candidate), ..w },
        Command::Grant(role) => WorldView { roles: roles_set(w.roles, who, role, true), ..w },
        Command::Revoke(role) => WorldView { roles: roles_set(w.roles, who, role, false), ..w },
        _ => w,
    }
}

/// What the collaborators answer to the request of a session.
pub open spec fn answer_of(w: WorldView, s: SessionView) -> OutcomeView {
    let who = s.candidate.identity;
    match command_of(s.stage, s.candidate.fresher) {
        Command::GetMember => OutcomeView::Member(row(w.store.members, who)),
        Command::GetPending => OutcomeView::Pending(row(w.store.pending, who)),
        Command::DeletePending => OutcomeView::Removed(w.store.pending.contains_key(who)),
        Command::DeleteManual => OutcomeView::Removed(w.store.manual.contains_key(who)),
        Command::MovePendingToMember => move_outcome(
            w.store.move_refusal(w.store.pending, who),
            admitted(w.store.pending[who], s.candidate.preferred_name, s.candidate.fresher),
        ),
        Command::MoveManualToMember => move_outcome(
            w.store.move_refusal(w.store.manual, who),
            w.store.manual[who],
        ),
        Command::InsertMember => if w.store.members.contains_key(who) {
            OutcomeView::Conflict
        } else {
            OutcomeView::Done
        },
        Command::InsertManual => if w.store.manual.contains_key(who) {
            OutcomeView::Conflict
        } else {
            OutcomeView::Done
        },
        Command::FetchRoster => match w.roster {
            Some(list) => OutcomeView::Roster(list),
            None => OutcomeView::Failed,
        },
        Command::HasRole(role) => OutcomeView::Holds(roles_of(w.roles, who).spec_holds(role)),
        _ => OutcomeView::Done,
    }
}

/// A session carried to its end: where it stands, what has become of the
/// collaborators, and the requests that were made, in order.
pub struct Ran {
    pub session: SessionView,
    pub world: WorldView,
    pub trace: Seq<Command>,
}

/// A session carried on for at most `fuel` requests.
pub open spec fn ran(s: SessionView, w: WorldView, fuel: nat) -> Ran
    decreases fuel,
{
    if fuel == 0 || s.stage is Closed {
        Ran { session: s, world: w, trace: Seq::empty() }
    } else {
        let rest = ran(fed(s, answer_of(w, s)), world_after(w, s), (fuel - 1) as nat);
        Ran { trace: seq![command_of(s.stage, s.candidate.fresher)] + rest.trace, ..rest }
    }
}

/// A session carried to its end.
pub open spec fn handled(s: SessionView, w: WorldView) -> Ran {
    ran(s, w, rank(s.stage))
}

/// More fuel than a session needs changes nothing.
pub proof fn lemma_enough_fuel(s: SessionView, w: WorldView, fuel: nat)
    requires
        fuel >= rank(s.stage),
    ensures
        ran(s, w, fuel) == handled(s, w),
        handled(s, w).session.stage is Closed,
    decreases fuel,
{
    if !(s.stage is Closed) {
        let next = fed(s, answer_of(w, s));
        let after = world_after(w, s);
        crate::verify::lemma_rank_decreases(
            s.stage,
            crate::verify::signal_of(s, answer_of(w, s)),
            next.candidate.fresher,
        );
        lemma_enough_fuel(next, after, (fuel - 1) as nat);
        lemma_enough_fuel(next, after, (rank(s.stage) - 1) as nat);
    }
}

/// A session that is open goes on from what its request brings; one that is
/// closed stays as it is.
pub proof fn lemma_handled_step(s: SessionView, w: WorldView)
    ensures
        handled(s, w).session.stage is Closed,
        s.stage is Closed ==> handled(s, w) == (Ran {
            session: s,
            world: w,
            trace: Seq::empty(),
        }),
        !(s.stage is Closed) ==> handled(s, w) == ({
            let rest = handled(fed(s, answer_of(w, s)), world_after(w, s));
            Ran { trace: seq![command_of(s.stage, s.candidate.fresher)] + rest.trace, ..rest }
        }),
{
    lemma_enough_fuel(s, w, rank(s.stage));
    if !(s.stage is Closed) {
        let next = fed(s, answer_of(w, s));
        crate::verify::lemma_rank_decreases(
            s.stage,
            crate::verify::signal_of(s, answer_of(w, s)),
            next.candidate.fresher,
        );
        lemma_enough_fuel(next, world_after(w, s), (rank(s.stage) - 1) as nat);
    }
}

/// What a run reports: the closed session and the requests that were made.
pub struct Report {
    pub session: Session,
    pub trace: Vec<Command>,
}

impl World {
    /// Collaborators that hold nothing, with an empty roster.
    pub fn new() -> (world: World)
        ensures
            world@ == (WorldView {
                store: StoreView::empty(),
                roles: Map::empty(),
                roster: Some(Seq::empty()),
            }),
    {
        let world = World { store: Store::new(), gateway: Gateway::new(), roster: Some(Vec::new()) };
        assert(world@.roster == Some(Seq::<MemberView>::empty())) by {
            assert(roster_view(Seq::<Member>::empty()) =~= Seq::<MemberView>::empty());
        }
        world
    }

    /// Carries out the request that a session has under way and answers it.
    pub fn perform(&mut self, session: &Session) -> (outcome: Outcome)
        ensures
            final(self)@ == world_after(old(self)@, session@),
            outcome@ == answer_of(old(self)@, session@),
    {
        let who = session.candidate.identity;
        match session.command() {
            Command::GetMember => Outcome::Member(self.store.get_member(who)),
            Command::GetPending => Outcome::Pending(self.store.get_pending(who)),
            Command::DeletePending => Outcome::Removed(self.store.delete_pending(who)),
            Command::DeleteManual => Outcome::Removed(self.store.delete_manual(who)),
            Command::MovePendingToMember => {
                match self.store.move_pending_to_member(
                    who,
                    session.candidate.preferred_name.clone(),
                    session.candidate.fresher,
                ) {
                    Ok(member) => Outcome::Moved(member),
                    Err(StoreError::NotFound) => Outcome::NotFound,
                    Err(StoreError::Conflict) => Outcome::Conflict,
                }
            },
            Command::MoveManualToMember => {
                match self.store.move_manual_to_member(who) {
                    Ok(member) => Outcome::Moved(member),
                    Err(StoreError::NotFound) => Outcome::NotFound,
                    Err(StoreError::Conflict) => Outcome::Conflict,
                }
            },
            Command::InsertMember => {
                match self.store.insert_member(session.candidate.clone()) {
                    Ok(()) => Outcome::Done,
                    Err(_) => Outcome::Conflict,
                }
            },
            Command::InsertManual => {
                match self.store.insert_manual(session.candidate.as_request()) {
                    Ok(()) => Outcome::Done,
                    Err(_) => Outcome::Conflict,
                }
            },
            Command::FetchRoster => match &self.roster {
                Some(list) => Outcome::Roster(copy_roster(list)),
                None => Outcome::Failed,
            },
            Command::Grant(role) => {
                self.gateway.grant(who, role);
                Outcome::Done
            },
            Command::Revoke(role) => {
                self.gateway.revoke(who, role);
                Outcome::Done
            },
            Command::HasRole(role) => Outcome::Holds(self.gateway.holds(who, role)),
            _ => Outcome::Done,
        }
    }

    /// Carries a session to its end against these collaborators.
    pub fn run(&mut self, session: Session) -> (report: Report)
        ensures
            report.session@ == handled(session@, old(self)@).session,
            final(self)@ == handled(session@, old(self)@).world,
            report.trace@ == handled(session@, old(self)@).trace,
            report.session@.stage is Closed,
    {
        let ghost goal = handled(session@, old(self)@);
        let mut session = session;
        let mut trace: Vec<Command> = Vec::new();
        proof {
            lemma_handled_step(session@, self@);
        }
        while session.verdict().is_none()
            invariant
                goal.session == handled(session@, self@).session,
                goal.world == handled(session@, self@).world,
                goal.trace == trace@ + handled(session@, self@).trace,
                goal.session.stage is Closed,
            decreases rank(session@.stage),
        {
            proof {
                lemma_handled_step(session@, self@);
            }
            let ghost before = session@;
            let ghost world_before = self@;
            trace.push(session.command());
            let outcome = self.perform(&session);
            session = session.feed(outcome);
            proof {
                let rest = handled(session@, self@);
                assert(trace@ + rest.trace =~= trace@.drop_last() + (seq![
                    command_of(before.stage, before.candidate.fresher),
                ] + rest.trace));
            }
        }
        proof {
            lemma_handled_step(session@, self@);
            assert(trace@ + Seq::<Command>::empty() =~= trace@);
        }
        Report { session, trace }
    }
}

} // verus!
