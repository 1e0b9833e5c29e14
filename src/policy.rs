//! The admission decision: a member's age (from a declared birth date) and
//! balance of the gated asset against a community's policy.

use vstd::prelude::*;
use crate::balance::{Amount, BalanceMap, NATIVE_ASSET};
use crate::encoding::same_text;
use crate::types::{lower_of, lowercase};

verus! {

/// A calendar date (proleptic Gregorian).
#[derive(PartialEq, Eq, Structural, Clone, Copy, Debug)]
pub struct Date {
    pub year: i32,
    pub month: u8,
    pub day: u8,
}

/// `year` is a leap year.
pub open spec fn is_leap(year: int) -> bool {
    (year % 4 == 0 && year % 100 != 0) || year % 400 == 0
}

/// Days in `month` of `year`.
pub open spec fn days_in_month(year: int, month: int) -> int {
    if month == 2 {
        if is_leap(year) { 29 } else { 28 }
    } else if month == 4 || month == 6 || month == 9 || month == 11 {
        30
    } else {
        31
    }
}

impl Date {
    /// The date names a real day.
    pub open spec fn valid(self) -> bool {
        1 <= self.month <= 12 && 1 <= self.day <= days_in_month(self.year as int, self.month as int)
    }

    /// The date `year-month-day`, if there is such a day.
    pub fn new(year: i32, month: u8, day: u8) -> (r: Option<Date>)
        ensures
            r matches Some(d) ==> d == (Date { year, month, day }) && d.valid(),
            r is None ==> !(Date { year, month, day }).valid(),
    {
        if month < 1 || month > 12 || day < 1 {
            return None;
        }
        let leap = (year % 4 == 0 && year % 100 != 0) || year % 400 == 0;
        let days: u8 = if month == 2 {
            if leap { 29 } else { 28 }
        } else if month == 4 || month == 6 || month == 9 || month == 11 {
            30
        } else {
            31
        };
        if day > days {
            return None;
        }
        Some(Date { year, month, day })
    }
}

/// Whole years from `birth` to `now`: the difference of the years, less one
/// when `now`'s month and day come before the birthday's.
pub open spec fn age_on(birth: Date, now: Date) -> int {
    let years = now.year - birth.year;
    if now.month < birth.month || (now.month == birth.month && now.day < birth.day) {
        years - 1
    } else {
        years
    }
}

/// Age in whole years on `today` of someone born on `dob`.
pub fn calc_age(dob: Date, today: Date) -> (r: i64)
    ensures
        r == age_on(dob, today),
{
    let years: i64 = today.year as i64 - dob.year as i64;
    if today.month < dob.month || (today.month == dob.month && today.day < dob.day) {
        years - 1
    } else {
        years
    }
}

/// A community's admission policy.
pub struct CommunityPolicy {
    pub community_id: String,
    /// The asset whose balance counts; the base coin when `None`.
    pub gated_asset: Option<String>,
    /// Minimum balance, in whole units of the gated asset.
    pub min_balance: u64,
    pub min_age_years: u32,
}

impl CommunityPolicy {
    /// The policy used for a community that has none: no minimum balance,
    /// no minimum age, gated on the base coin.
    pub fn fallback(community_id: String) -> (r: CommunityPolicy)
        ensures
            r.community_id@ == community_id@,
            r.gated_asset is None,
            r.min_balance == 0,
            r.min_age_years == 0,
    {
        CommunityPolicy { community_id, gated_asset: None, min_balance: 0, min_age_years: 0 }
    }
}

/// The asset that a group's token setting gates on: none (the base coin)
/// when unset, empty or `ckb` in any case.
pub open spec fn gated_asset_of(token: Option<Seq<char>>) -> Option<Seq<char>> {
    match token {
        Some(t) => if lower_of(t) == ""@ || lower_of(t) == "ckb"@ {
            None
        } else {
            Some(t)
        },
        None => None,
    }
}

impl CommunityPolicy {
    /// The policy of a group from its stored settings: an unset minimum is
    /// zero, a negative one is zero too, and the token setting gates as
    /// `gated_asset_of` says.
    pub fn from_group(
        chat_id: String,
        token_address: Option<String>,
        min_approve_balance: Option<i64>,
        min_approve_age: Option<i32>,
    ) -> (r: CommunityPolicy)
        ensures
            r.community_id@ == chat_id@,
            crate::types::opt_text(r.gated_asset) == gated_asset_of(crate::types::opt_text(token_address)),
            r.min_balance == (match min_approve_balance {
                Some(b) => if b > 0 { b as u64 } else { 0 },
                None => 0,
            }),
            r.min_age_years == (match min_approve_age {
                Some(a) => if a > 0 { a as u32 } else { 0 },
                None => 0,
            }),
    {
        let gated_asset = match token_address {
            Some(t) => {
                let lowered = lowercase(t.as_str());
                if same_text(lowered.as_str(), "") || same_text(lowered.as_str(), "ckb") {
                    None
                } else {
                    Some(t)
                }
            },
            None => None,
        };
        let min_balance: u64 = match min_approve_balance {
            Some(b) => if b > 0 { b as u64 } else { 0 },
            None => 0,
        };
        let min_age_years: u32 = match min_approve_age {
            Some(a) => if a > 0 { a as u32 } else { 0 },
            None => 0,
        };
        CommunityPolicy { community_id: chat_id, gated_asset, min_balance, min_age_years }
    }
}

/// Why a member was not admitted.
#[derive(PartialEq, Eq, Structural, Clone, Copy, Debug)]
pub enum RejectReason {
    InsufficientAge,
    InsufficientBalance,
    SignatureMismatch,
    VerificationWindowExpired,
}

impl RejectReason {
    /// The reason in words.
    pub fn text(self) -> (r: String)
        ensures
            r@ == self.spec_text(),
    {
        match self {
            RejectReason::InsufficientAge => "insufficient age".to_owned(),
            RejectReason::InsufficientBalance => "insufficient balance".to_owned(),
            RejectReason::SignatureMismatch => "signature not matched".to_owned(),
            RejectReason::VerificationWindowExpired => "verification window expired".to_owned(),
        }
    }

    /// The reason in words.
    pub open spec fn spec_text(self) -> Seq<char> {
        match self {
            RejectReason::InsufficientAge => "insufficient age"@,
            RejectReason::InsufficientBalance => "insufficient balance"@,
            RejectReason::SignatureMismatch => "signature not matched"@,
            RejectReason::VerificationWindowExpired => "verification window expired"@,
        }
    }
}

/// The outcome of evaluating a member against a policy.
#[derive(PartialEq, Eq, Structural, Clone, Copy, Debug)]
pub enum Decision {
    Accept,
    Reject(RejectReason),
}

/// `10^k`.
pub open spec fn pow10(k: nat) -> nat
    decreases k,
{
    if k == 0 {
        1
    } else {
        10 * pow10((k - 1) as nat)
    }
}

/// The key whose balance the policy reads.
pub open spec fn gated_key(policy: CommunityPolicy) -> Seq<char> {
    match policy.gated_asset {
        Some(a) => a@,
        None => NATIVE_ASSET@,
    }
}

/// The balance held of `key`, if any.
pub open spec fn amount_at(balances: Map<Seq<char>, Amount>, key: Seq<char>) -> Option<Amount> {
    if balances.contains_key(key) {
        Some(balances[key])
    } else {
        None
    }
}

/// `amount` is at least `min` whole units; an absent balance counts as zero.
pub open spec fn meets_minimum(amount: Option<Amount>, min: u64) -> bool {
    match amount {
        Some(a) => a.units >= min * pow10(a.decimals as nat),
        None => min == 0,
    }
}

/// What a policy asks: the gated asset (the base coin when `None`), the
/// minimum balance in whole units, the minimum age.
pub type PolicyTerms = (Option<Seq<char>>, u64, u32);

/// What `policy` asks.
pub open spec fn policy_terms(policy: CommunityPolicy) -> PolicyTerms {
    (crate::types::opt_text(policy.gated_asset), policy.min_balance, policy.min_age_years)
}

/// What the fallback policy asks: nothing.
pub open spec fn fallback_terms() -> PolicyTerms {
    (None, 0, 0)
}

/// The decision for a member of age `age` holding `balances` under
/// `terms`: age is checked first, then the balance of the gated asset.
pub open spec fn decide_terms(terms: PolicyTerms, balances: Map<Seq<char>, Amount>, age: int) -> Decision {
    let key = match terms.0 {
        Some(a) => a,
        None => NATIVE_ASSET@,
    };
    if age < terms.2 {
        Decision::Reject(RejectReason::InsufficientAge)
    } else if !meets_minimum(amount_at(balances, key), terms.1) {
        Decision::Reject(RejectReason::InsufficientBalance)
    } else {
        Decision::Accept
    }
}

/// The decision for a member of age `age` holding `balances` under `policy`.
pub open spec fn decide(policy: CommunityPolicy, balances: Map<Seq<char>, Amount>, age: int) -> Decision {
    decide_terms(policy_terms(policy), balances, age)
}

proof fn lemma_pow10_mono(a: nat, b: nat)
    requires
        a <= b,
    ensures
        pow10(a) <= pow10(b),
    decreases b,
{
    if a < b {
        lemma_pow10_mono(a, (b - 1) as nat);
    }
}

/// Whether `amount` reaches `min` whole units.
pub fn reaches(amount: Option<Amount>, min: u64) -> (r: bool)
    ensures
        r == meets_minimum(amount, min),
{
    match amount {
        Some(a) => units_reach(a, min),
        None => min == 0,
    }
}

fn units_reach(a: Amount, min: u64) -> (r: bool)
    ensures
        r == (a.units >= min * pow10(a.decimals as nat)),
{
    let mut threshold: u128 = min as u128;
    let mut j: u32 = 0;
    assert(pow10(0) == 1);
    assert(min * pow10(0) == min);
    while j < a.decimals
        invariant
            j <= a.decimals,
            threshold == min * pow10(j as nat),
        decreases a.decimals - j,
    {
        if threshold > u128::MAX / 10 {
            proof {
                lemma_pow10_mono((j + 1) as nat, a.decimals as nat);
                assert(min * pow10((j + 1) as nat) <= min * pow10(a.decimals as nat)) by (nonlinear_arith)
                    requires
                        pow10((j + 1) as nat) <= pow10(a.decimals as nat),
                ;
                assert(min * pow10((j + 1) as nat) == threshold * 10) by (nonlinear_arith)
                    requires
                        threshold == min * pow10(j as nat),
                        pow10((j + 1) as nat) == 10 * pow10(j as nat),
                ;
                assert(threshold * 10 > u128::MAX) by (nonlinear_arith)
                    requires
                        threshold > u128::MAX / 10,
                ;
                assert(a.units < min * pow10(a.decimals as nat));
            }
            return false;
        }
        proof {
            assert(min * pow10((j + 1) as nat) == threshold * 10) by (nonlinear_arith)
                requires
                    threshold == min * pow10(j as nat),
                    pow10((j + 1) as nat) == 10 * pow10(j as nat),
            ;
        }
        threshold = threshold * 10;
        j = j + 1;
    }
    a.units >= threshold
}

/// Decides admission for a member born on `birth_date`, on `now`, holding
/// `balances`. The caller has already verified the member's signature.
pub fn evaluate(birth_date: Date, balances: &BalanceMap, policy: &CommunityPolicy, now: Date) -> (r: Decision)
    requires
        balances.wf(),
    ensures
        r == decide(*policy, balances@, age_on(birth_date, now)),
{
    let age = calc_age(birth_date, now);
    if age < policy.min_age_years as i64 {
        return Decision::Reject(RejectReason::InsufficientAge);
    }
    let amount = match &policy.gated_asset {
        Some(a) => balances.get(a.as_str()),
        None => balances.get(NATIVE_ASSET),
    };
    if !reaches(amount, policy.min_balance) {
        return Decision::Reject(RejectReason::InsufficientBalance);
    }
    Decision::Accept
}

/// `b` holds at least what `a` holds of one asset: `a` holds none, or both
/// hold it with the same decimals and `b` has as many units or more.
pub open spec fn holds_at_least(b: Option<Amount>, a: Option<Amount>) -> bool {
    match (a, b) {
        (None, _) => true,
        (Some(x), Some(y)) => x.decimals == y.decimals && x.units <= y.units,
        (Some(_), None) => false,
    }
}

/// More balance or more age never turns an admission into a rejection:
/// if a member of age `age1` with `balances1` is accepted, one of age
/// `age2 >= age1` holding at least as much of the gated asset is too.
pub proof fn evaluate_is_monotonic(
    policy: CommunityPolicy,
    balances1: Map<Seq<char>, Amount>,
    balances2: Map<Seq<char>, Amount>,
    age1: int,
    age2: int,
)
    requires
        age1 <= age2,
        holds_at_least(amount_at(balances2, gated_key(policy)), amount_at(balances1, gated_key(policy))),
        decide(policy, balances1, age1) == Decision::Accept,
    ensures
        decide(policy, balances2, age2) == Decision::Accept,
{
}

/// On the birthday itself, `n` years on, the age is exactly `n`, and meets
/// a minimum age of `n`.
pub proof fn age_on_birthday(birth: Date, now: Date, n: int)
    requires
        now.year == birth.year + n,
        now.month == birth.month,
        now.day == birth.day,
    ensures
        age_on(birth, now) == n,
        age_on(birth, now) >= n,
{
}

/// Born one day later in the year than `now`'s month and day, `n` calendar
/// years before, the age is `n - 1`: the birthday has not come yet, so a
/// minimum age of `n` is not met.
pub proof fn age_before_birthday(birth: Date, now: Date, n: int)
    requires
        now.year == birth.year + n,
        now.month == birth.month,
        birth.day == now.day + 1,
    ensures
        age_on(birth, now) == n - 1,
        age_on(birth, now) < n,
{
}

} // verus!
