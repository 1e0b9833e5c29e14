//! The whole pipeline for one submission: verify the signature, aggregate
//! the address's cells, decide against the community's policy.

use vstd::prelude::*;
use crate::balance::{aggregate, balances_of, BalanceMap, Cell};
use crate::encoding::same_text;
use crate::membership::{action_view, in_time_range, transition, Action, MembershipRecord};
use crate::ckb::CkbNetwork;
use crate::policy::{age_on, decide, decide_terms, evaluate, fallback_terms, policy_terms, CommunityPolicy, Date, Decision, PolicyTerms, RejectReason};
use crate::membership::MemberState;
use crate::types::SignData;
use crate::verify::{signature_valid, verify_message};

verus! {

/// The decision for a submission: a signature that does not verify is
/// rejected as such; otherwise the policy decides on the cells' balances
/// and the age on `now`.
pub open spec fn gate_decision(
    challenge: Seq<char>,
    data: SignData,
    network: CkbNetwork,
    birth_date: Date,
    policy: CommunityPolicy,
    cells: Seq<Cell>,
    now: Date,
) -> Decision {
    if signature_valid(challenge, data, network) {
        decide(policy, balances_of(cells), age_on(birth_date, now))
    } else {
        Decision::Reject(RejectReason::SignatureMismatch)
    }
}

/// Verifies `data` over `challenge`, then decides admission from the
/// balances of `cells` and the age on `now` of someone born on
/// `birth_date`.
pub fn verify_and_gate(
    challenge: &str,
    data: SignData,
    network: CkbNetwork,
    birth_date: Date,
    policy: &CommunityPolicy,
    cells: &Vec<Cell>,
    now: Date,
) -> (r: Decision)
    ensures
        r == gate_decision(challenge@, data, network, birth_date, *policy, cells@, now),
{
    if !verify_message(challenge, data, network) {
        return Decision::Reject(RejectReason::SignatureMismatch);
    }
    let balances = aggregate(cells);
    evaluate(birth_date, &balances, policy, now)
}

/// What the first policy of community `id` asks; the fallback when there
/// is none.
pub open spec fn terms_for(policies: Seq<CommunityPolicy>, id: Seq<char>) -> PolicyTerms
    decreases policies.len(),
{
    if policies.len() == 0 {
        fallback_terms()
    } else if policies[0].community_id@ == id {
        policy_terms(policies[0])
    } else {
        terms_for(policies.drop_first(), id)
    }
}

/// The decision for record `r` of a member of age `age` holding `balances`.
pub open spec fn record_decision(r: MembershipRecord, policies: Seq<CommunityPolicy>, balances: Map<Seq<char>, crate::balance::Amount>, age: int) -> Decision {
    decide_terms(terms_for(policies, r.community_id@), balances, age)
}

/// The actions that deciding the pending records orders, in order.
pub open spec fn pending_actions(
    rs: Seq<MembershipRecord>,
    policies: Seq<CommunityPolicy>,
    balances: Map<Seq<char>, crate::balance::Amount>,
    age: int,
    now: i64,
    ban_window: i64,
) -> Seq<(Seq<char>, i64, crate::membership::Enforcement)>
    decreases rs.len(),
{
    if rs.len() == 0 {
        seq![]
    } else {
        let r = rs.last();
        let before = pending_actions(rs.drop_last(), policies, balances, age, now, ban_window);
        match transition(r.state, record_decision(r, policies, balances, age), now, ban_window).1 {
            Some(e) => before.push((r.community_id@, r.user_id, e)),
            None => before,
        }
    }
}

fn find_policy(policies: &Vec<CommunityPolicy>, id: &str) -> (r: Option<usize>)
    ensures
        r matches Some(i) ==> i < policies@.len() && terms_for(policies@, id@) == policy_terms(policies@[i as int]),
        r is None ==> terms_for(policies@, id@) == fallback_terms(),
{
    let mut i: usize = 0;
    assert(policies@.subrange(0, policies@.len() as int) == policies@);
    while i < policies.len()
        invariant
            i <= policies@.len(),
            terms_for(policies@, id@) == terms_for(policies@.subrange(i as int, policies@.len() as int), id@),
        decreases policies@.len() - i,
    {
        let ghost rest = policies@.subrange(i as int, policies@.len() as int);
        assert(rest[0] == policies@[i as int]);
        assert(rest.drop_first() == policies@.subrange(i + 1, policies@.len() as int));
        if same_text(policies[i].community_id.as_str(), id) {
            return Some(i);
        }
        i = i + 1;
    }
    None
}

/// Decides every pending record of a member, who was born on
/// `birth_date` and holds `balances`, under the policy of its community
/// (the fallback policy when `policies` has none), as of `today` and time
/// `now`; records that are not pending stay as they are. Returns the
/// enforcement for each record decided, in order.
pub fn decide_pending(
    records: &mut Vec<MembershipRecord>,
    policies: &Vec<CommunityPolicy>,
    balances: &BalanceMap,
    birth_date: Date,
    today: Date,
    now: i64,
    ban_window: i64,
) -> (r: Vec<Action>)
    requires
        balances.wf(),
        in_time_range(now + ban_window),
    ensures
        final(records)@.len() == old(records)@.len(),
        forall|i: int| 0 <= i < old(records)@.len() ==> {
            let o = #[trigger] old(records)@[i];
            let n = final(records)@[i];
            &&& n.state == transition(o.state, record_decision(o, policies@, balances@, age_on(birth_date, today)), now, ban_window).0
            &&& n.community_id == o.community_id
            &&& n.user_id == o.user_id
            &&& o.state is Pending ==> n.last_known_balances@ == balances@
            &&& !(o.state is Pending) ==> n.last_known_balances == o.last_known_balances
        },
        r@.map_values(|a: Action| action_view(a)) == pending_actions(old(records)@, policies@, balances@, age_on(birth_date, today), now, ban_window),
{
    let ghost orig = records@;
    let ghost age = age_on(birth_date, today);
    let mut actions: Vec<Action> = Vec::new();
    let mut i: usize = 0;
    while i < records.len()
        invariant
            i <= records@.len() == orig.len(),
            balances.wf(),
            in_time_range(now + ban_window),
            age == age_on(birth_date, today),
            forall|j: int| 0 <= j < i ==> {
                let o = #[trigger] orig[j];
                let n = records@[j];
                &&& n.state == transition(o.state, record_decision(o, policies@, balances@, age), now, ban_window).0
                &&& n.community_id == o.community_id
                &&& n.user_id == o.user_id
                &&& o.state is Pending ==> n.last_known_balances@ == balances@
                &&& !(o.state is Pending) ==> n.last_known_balances == o.last_known_balances
            },
            forall|j: int| i <= j < orig.len() ==> records@[j] == orig[j],
            actions@.map_values(|a: Action| action_view(a)) == pending_actions(orig.subrange(0, i as int), policies@, balances@, age, now, ban_window),
        decreases orig.len() - i,
    {
        let ghost next = orig.subrange(0, i + 1);
        assert(next.drop_last() == orig.subrange(0, i as int));
        assert(next.last() == orig[i as int]);
        let pending = match records[i].state {
            MemberState::Pending { .. } => true,
            _ => false,
        };
        let ghost before = actions@;
        if pending {
            let mut rec = records.remove(i);
            let decision = match find_policy(policies, rec.community_id.as_str()) {
                Some(k) => evaluate(birth_date, balances, &policies[k], today),
                None => {
                    let fallback = CommunityPolicy::fallback(rec.community_id.clone());
                    evaluate(birth_date, balances, &fallback, today)
                },
            };
            assert(decision == record_decision(orig[i as int], policies@, balances@, age));
            let action = rec.apply_decision(decision, balances.duplicate(), now, ban_window);
            records.insert(i, rec);
            match action {
                Some(a) => {
                    actions.push(a);
                    assert(actions@.map_values(|a: Action| action_view(a)) =~= before.map_values(|a: Action| action_view(a)).push(action_view(a)));
                },
                None => {},
            }
        }
        i = i + 1;
        assert(actions@.map_values(|a: Action| action_view(a)) =~= pending_actions(orig.subrange(0, i as int), policies@, balances@, age, now, ban_window));
    }
    assert(orig.subrange(0, orig.len() as int) == orig);
    actions
}

} // verus!
