//! The membership record of one user in one community, and its states:
//! `Pending` until a deadline, then `Accepted` or `Rejected` (with a
//! cooldown before the user may join again).

use vstd::prelude::*;
use crate::balance::BalanceMap;
use crate::policy::{Decision, RejectReason};

verus! {

/// The status codes under which records are stored.
#[derive(PartialEq, Eq, Structural, Clone, Copy, Debug)]
pub enum GroupMemberStatus {
    Pending,
    Accepted,
    Rejected,
}

impl GroupMemberStatus {
    /// The stored code: 0, 1 and 2 in declaration order.
    pub fn code(self) -> (r: i16)
        ensures
            r == (match self {
                GroupMemberStatus::Pending => 0i16,
                GroupMemberStatus::Accepted => 1i16,
                GroupMemberStatus::Rejected => 2i16,
            }),
    {
        match self {
            GroupMemberStatus::Pending => 0,
            GroupMemberStatus::Accepted => 1,
            GroupMemberStatus::Rejected => 2,
        }
    }
}

/// Where a record stands; times are seconds since the Unix epoch.
#[derive(PartialEq, Eq, Structural, Clone, Copy, Debug)]
pub enum MemberState {
    Pending { expires_at: i64 },
    Accepted,
    Rejected { cooldown_until: i64 },
}

impl MemberState {
    /// The stored status of this state.
    pub fn status(self) -> (r: GroupMemberStatus)
        ensures
            r == (match self {
                MemberState::Pending { .. } => GroupMemberStatus::Pending,
                MemberState::Accepted => GroupMemberStatus::Accepted,
                MemberState::Rejected { .. } => GroupMemberStatus::Rejected,
            }),
    {
        match self {
            MemberState::Pending { .. } => GroupMemberStatus::Pending,
            MemberState::Accepted => GroupMemberStatus::Accepted,
            MemberState::Rejected { .. } => GroupMemberStatus::Rejected,
        }
    }
}

/// What the chat platform must do for a member.
#[derive(PartialEq, Eq, Structural, Clone, Copy, Debug)]
pub enum Enforcement {
    /// Grant full chat permissions.
    GrantPermissions,
    /// Remove the member, who may not rejoin before `until`.
    Expel { until: i64, reason: RejectReason },
}

/// An enforcement for one member of one community.
pub struct Action {
    pub community_id: String,
    pub user_id: i64,
    pub enforcement: Enforcement,
}

/// An action as plain values.
pub open spec fn action_view(a: Action) -> (Seq<char>, i64, Enforcement) {
    (a.community_id@, a.user_id, a.enforcement)
}

/// One user's membership of one community.
pub struct MembershipRecord {
    pub community_id: String,
    pub user_id: i64,
    pub state: MemberState,
    pub last_known_balances: BalanceMap,
}

/// `t` is a representable time.
pub open spec fn in_time_range(t: int) -> bool {
    i64::MIN <= t <= i64::MAX
}

/// The state a decision leads to, and what the platform must do; only a
/// pending record moves.
pub open spec fn transition(state: MemberState, decision: Decision, now: i64, ban_window: i64) -> (MemberState, Option<Enforcement>) {
    match state {
        MemberState::Pending { .. } => match decision {
            Decision::Accept => (MemberState::Accepted, Some(Enforcement::GrantPermissions)),
            Decision::Reject(reason) => (
                MemberState::Rejected { cooldown_until: (now + ban_window) as i64 },
                Some(Enforcement::Expel { until: (now + ban_window) as i64, reason }),
            ),
        },
        _ => (state, None),
    }
}

/// A pending record whose deadline has passed.
pub open spec fn expired(state: MemberState, now: i64) -> bool {
    match state {
        MemberState::Pending { expires_at } => expires_at < now,
        _ => false,
    }
}

/// The state after a sweep at `now`.
pub open spec fn swept(state: MemberState, now: i64, ban_window: i64) -> MemberState {
    if expired(state, now) {
        MemberState::Rejected { cooldown_until: (now + ban_window) as i64 }
    } else {
        state
    }
}

/// The record after a sweep at `now`.
pub open spec fn swept_record(r: MembershipRecord, now: i64, ban_window: i64) -> MembershipRecord {
    MembershipRecord { state: swept(r.state, now, ban_window), ..r }
}

/// The records after a sweep at `now`.
pub open spec fn swept_records(rs: Seq<MembershipRecord>, now: i64, ban_window: i64) -> Seq<MembershipRecord> {
    rs.map_values(|r: MembershipRecord| swept_record(r, now, ban_window))
}

/// The expulsions that a sweep at `now` orders, in the records' order.
pub open spec fn sweep_expulsions(rs: Seq<MembershipRecord>, now: i64, ban_window: i64) -> Seq<(Seq<char>, i64, Enforcement)>
    decreases rs.len(),
{
    if rs.len() == 0 {
        seq![]
    } else {
        let r = rs.last();
        let before = sweep_expulsions(rs.drop_last(), now, ban_window);
        if expired(r.state, now) {
            before.push((r.community_id@, r.user_id, Enforcement::Expel {
                until: (now + ban_window) as i64,
                reason: RejectReason::VerificationWindowExpired,
            }))
        } else {
            before
        }
    }
}

impl MembershipRecord {
    /// The record of a user who has just joined: pending until
    /// `now + kyc_window`, with no balances known.
    pub fn join(community_id: String, user_id: i64, now: i64, kyc_window: i64) -> (r: MembershipRecord)
        requires
            in_time_range(now + kyc_window),
        ensures
            r.community_id@ == community_id@,
            r.user_id == user_id,
            r.state == (MemberState::Pending { expires_at: (now + kyc_window) as i64 }),
            r.last_known_balances.wf(),
            r.last_known_balances@ == Map::<Seq<char>, crate::balance::Amount>::empty(),
    {
        MembershipRecord {
            community_id,
            user_id,
            state: MemberState::Pending { expires_at: now + kyc_window },
            last_known_balances: BalanceMap::new(),
        }
    }

    /// A fresh pending record for a user who joins again after a rejection,
    /// once the cooldown has elapsed; `None` while it runs, or when the
    /// previous record was not a rejection.
    pub fn rejoin(&self, now: i64, kyc_window: i64) -> (r: Option<MembershipRecord>)
        requires
            in_time_range(now + kyc_window),
        ensures
            r is Some <==> (self.state matches MemberState::Rejected { cooldown_until } && cooldown_until <= now),
            r matches Some(n) ==> n.community_id@ == self.community_id@ && n.user_id == self.user_id
                && n.state == (MemberState::Pending { expires_at: (now + kyc_window) as i64 })
                && n.last_known_balances.wf()
                && n.last_known_balances@ == Map::<Seq<char>, crate::balance::Amount>::empty(),
    {
        match self.state {
            MemberState::Rejected { cooldown_until } => if cooldown_until <= now {
                Some(MembershipRecord::join(self.community_id.clone(), self.user_id, now, kyc_window))
            } else {
                None
            },
            _ => None,
        }
    }

    /// Applies an admission decision to a pending record, keeping the
    /// balances it was made on; a rejection starts a cooldown of
    /// `ban_window`. A record that is not pending does not move.
    pub fn apply_decision(&mut self, decision: Decision, balances: BalanceMap, now: i64, ban_window: i64) -> (r: Option<Action>)
        requires
            in_time_range(now + ban_window),
        ensures
            final(self).state == transition(old(self).state, decision, now, ban_window).0,
            final(self).community_id == old(self).community_id,
            final(self).user_id == old(self).user_id,
            old(self).state is Pending ==> final(self).last_known_balances == balances,
            !(old(self).state is Pending) ==> final(self).last_known_balances == old(self).last_known_balances,
            r is Some <==> transition(old(self).state, decision, now, ban_window).1 is Some,
            r matches Some(a) ==> action_view(a) == (
                old(self).community_id@,
                old(self).user_id,
                transition(old(self).state, decision, now, ban_window).1->0,
            ),
    {
        match self.state {
            MemberState::Pending { .. } => {
                let enforcement = match decision {
                    Decision::Accept => {
                        self.state = MemberState::Accepted;
                        Enforcement::GrantPermissions
                    },
                    Decision::Reject(reason) => {
                        let until = now + ban_window;
                        self.state = MemberState::Rejected { cooldown_until: until };
                        Enforcement::Expel { until, reason }
                    },
                };
                self.last_known_balances = balances;
                Some(Action { community_id: self.community_id.clone(), user_id: self.user_id, enforcement })
            },
            _ => None,
        }
    }
}

/// Rejects every pending record whose deadline is before `now`, with a
/// cooldown until `now + ban_window`, and returns one expulsion per record
/// rejected, in the records' order.
pub fn sweep(records: &mut Vec<MembershipRecord>, now: i64, ban_window: i64) -> (r: Vec<Action>)
    requires
        in_time_range(now + ban_window),
    ensures
        final(records)@ == swept_records(old(records)@, now, ban_window),
        r@.map_values(|a: Action| action_view(a)) == sweep_expulsions(old(records)@, now, ban_window),
{
    let ghost orig = records@;
    let mut actions: Vec<Action> = Vec::new();
    let mut i: usize = 0;
    while i < records.len()
        invariant
            i <= records@.len() == orig.len(),
            forall|j: int| 0 <= j < i ==> records@[j] == swept_record(orig[j], now, ban_window),
            forall|j: int| i <= j < orig.len() ==> records@[j] == orig[j],
            actions@.map_values(|a: Action| action_view(a)) == sweep_expulsions(orig.subrange(0, i as int), now, ban_window),
            in_time_range(now + ban_window),
        decreases orig.len() - i,
    {
        assert(orig.subrange(0, i + 1).drop_last() == orig.subrange(0, i as int));
        let expiring = match records[i].state {
            MemberState::Pending { expires_at } => expires_at < now,
            _ => false,
        };
        if expiring {
            let until = now + ban_window;
            let mut rec = records.remove(i);
            rec.state = MemberState::Rejected { cooldown_until: until };
            let action = Action {
                community_id: rec.community_id.clone(),
                user_id: rec.user_id,
                enforcement: Enforcement::Expel { until, reason: RejectReason::VerificationWindowExpired },
            };
            records.insert(i, rec);
            actions.push(action);
        }
        assert(actions@.map_values(|a: Action| action_view(a)) =~= sweep_expulsions(orig.subrange(0, i + 1), now, ban_window));
        i = i + 1;
    }
    assert(orig.subrange(0, orig.len() as int) == orig);
    assert(records@ =~= swept_records(orig, now, ban_window));
    actions
}

proof fn lemma_no_expulsions_after_sweep(rs: Seq<MembershipRecord>, now: i64, ban_window: i64)
    ensures
        sweep_expulsions(swept_records(rs, now, ban_window), now, ban_window) == Seq::<(Seq<char>, i64, Enforcement)>::empty(),
    decreases rs.len(),
{
    if rs.len() > 0 {
        lemma_no_expulsions_after_sweep(rs.drop_last(), now, ban_window);
        assert(swept_records(rs, now, ban_window).drop_last() =~= swept_records(rs.drop_last(), now, ban_window));
    }
}

/// Sweeping is idempotent: sweeping again at the same time orders no
/// expulsion and leaves every record as the first sweep left it.
pub proof fn sweep_is_idempotent(rs: Seq<MembershipRecord>, now: i64, ban_window: i64)
    ensures
        sweep_expulsions(swept_records(rs, now, ban_window), now, ban_window).len() == 0,
        swept_records(swept_records(rs, now, ban_window), now, ban_window) == swept_records(rs, now, ban_window),
{
    lemma_no_expulsions_after_sweep(rs, now, ban_window);
    assert(swept_records(swept_records(rs, now, ban_window), now, ban_window) =~= swept_records(rs, now, ban_window));
}

} // verus!
