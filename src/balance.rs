//! Reduces the unspent outputs (cells) of an address to a balance per asset.
//!
//! An amount is exact: `units / 10^decimals`. Sums saturate at the largest
//! `u128`, so that no order of the cells can make them wrap.

use vstd::prelude::*;
use vstd::seq_lib::{to_multiset_build, to_multiset_contains, to_multiset_len, to_multiset_remove};
use crate::encoding::same_text;

verus! {

/// The key of the chain's base coin.
pub const NATIVE_ASSET: &'static str = "native";

/// Decimal places of the base coin (one coin is `10^8` base units).
pub const NATIVE_DECIMALS: u32 = 8;

/// Decimal places of an asset that declares none.
pub const DEFAULT_DECIMALS: u32 = 1;

/// Width, in bytes, of an asset amount on chain (a little-endian `u128`).
pub const AMOUNT_WIDTH: usize = 16;

/// The kinds of asset a community may gate on.
#[derive(PartialEq, Eq, Structural, Clone, Copy, Debug)]
pub enum TokenType {
    /// A fungible token with decimal places.
    Xudt,
    /// A collectible: holding any counts as one.
    Spore,
}

impl TokenType {
    /// The stored code: 0 and 1 in declaration order.
    pub fn code(self) -> (r: i16)
        ensures
            r == (if self == TokenType::Xudt { 0i16 } else { 1i16 }),
    {
        match self {
            TokenType::Xudt => 0,
            TokenType::Spore => 1,
        }
    }

    /// Whether a holding of this kind counts once, whatever its amount.
    pub fn presence_only(self) -> (r: bool)
        ensures
            r == (self == TokenType::Spore),
    {
        match self {
            TokenType::Xudt => false,
            TokenType::Spore => true,
        }
    }
}

/// One unspent output.
pub struct Cell {
    pub owner_lock_fingerprint: String,
    pub native_amount: u64,
    /// The asset's type-script hash; `None` for a plain coin cell.
    pub asset_type_fingerprint: Option<String>,
    /// The raw little-endian amount of a fungible asset.
    pub asset_amount_raw: Option<Vec<u8>>,
    /// The asset is a collectible: holding any of it counts as one.
    pub presence_only: bool,
    /// The asset's declared decimal places.
    pub decimals: Option<u32>,
}

/// An exact amount: `units / 10^decimals`.
#[derive(PartialEq, Eq, Structural, Clone, Copy, Debug)]
pub struct Amount {
    pub units: u128,
    pub decimals: u32,
}

impl Amount {
    /// `n` whole units of an asset with no decimal places.
    pub fn whole(n: u128) -> (r: Amount)
        ensures
            r == (Amount { units: n, decimals: 0 }),
    {
        Amount { units: n, decimals: 0 }
    }
}

/// One asset's balance.
pub struct BalanceEntry {
    pub asset: String,
    pub amount: Amount,
}

/// Balances per asset; each asset appears once.
pub struct BalanceMap {
    entries: Vec<BalanceEntry>,
}

/// The map that a list of entries stands for, later entries winning.
pub open spec fn entries_map(es: Seq<BalanceEntry>) -> Map<Seq<char>, Amount>
    decreases es.len(),
{
    if es.len() == 0 {
        Map::empty()
    } else {
        entries_map(es.drop_last()).insert(es.last().asset@, es.last().amount)
    }
}

/// No asset appears twice.
pub open spec fn keys_unique(es: Seq<BalanceEntry>) -> bool {
    forall|i: int, j: int| 0 <= i < j < es.len() ==> es[i].asset@ != es[j].asset@
}

proof fn lemma_entry_in_map(es: Seq<BalanceEntry>, i: int)
    requires
        keys_unique(es),
        0 <= i < es.len(),
    ensures
        entries_map(es).contains_key(es[i].asset@),
        entries_map(es)[es[i].asset@] == es[i].amount,
    decreases es.len(),
{
    if i < es.len() - 1 {
        lemma_entry_in_map(es.drop_last(), i);
    }
}

proof fn lemma_absent_from_map(es: Seq<BalanceEntry>, k: Seq<char>)
    requires
        forall|i: int| 0 <= i < es.len() ==> es[i].asset@ != k,
    ensures
        !entries_map(es).contains_key(k),
    decreases es.len(),
{
    if es.len() > 0 {
        lemma_absent_from_map(es.drop_last(), k);
    }
}

proof fn lemma_update_map(es: Seq<BalanceEntry>, i: int, e: BalanceEntry)
    requires
        keys_unique(es),
        0 <= i < es.len(),
        e.asset@ == es[i].asset@,
    ensures
        entries_map(es.update(i, e)) == entries_map(es).insert(e.asset@, e.amount),
    decreases es.len(),
{
    let us = es.update(i, e);
    if i == es.len() - 1 {
        assert(us.drop_last() == es.drop_last());
        assert(entries_map(us) =~= entries_map(es).insert(e.asset@, e.amount));
    } else {
        assert(us.drop_last() == es.drop_last().update(i, e));
        lemma_update_map(es.drop_last(), i, e);
        assert(es.last().asset@ != e.asset@);
        assert(entries_map(us) =~= entries_map(es).insert(e.asset@, e.amount));
    }
}

impl View for BalanceMap {
    type V = Map<Seq<char>, Amount>;

    closed spec fn view(&self) -> Map<Seq<char>, Amount> {
        entries_map(self.entries@)
    }
}

impl BalanceMap {
    /// Each asset appears once.
    pub closed spec fn wf(&self) -> bool {
        keys_unique(self.entries@)
    }

    /// An empty map.
    pub fn new() -> (r: BalanceMap)
        ensures
            r.wf(),
            r@ == Map::<Seq<char>, Amount>::empty(),
    {
        BalanceMap { entries: Vec::new() }
    }

    fn find(&self, asset: &str) -> (r: Option<usize>)
        requires
            self.wf(),
        ensures
            r matches Some(i) ==> i < self.entries@.len() && self.entries@[i as int].asset@ == asset@,
            r is None ==> forall|i: int| 0 <= i < self.entries@.len() ==> self.entries@[i].asset@ != asset@,
    {
        let mut i: usize = 0;
        while i < self.entries.len()
            invariant
                i <= self.entries@.len(),
                forall|j: int| 0 <= j < i ==> self.entries@[j].asset@ != asset@,
            decreases self.entries@.len() - i,
        {
            if same_text(self.entries[i].asset.as_str(), asset) {
                return Some(i);
            }
            i = i + 1;
        }
        None
    }

    /// The balance of `asset`, if the map holds one.
    pub fn get(&self, asset: &str) -> (r: Option<Amount>)
        requires
            self.wf(),
        ensures
            r == (if self@.contains_key(asset@) { Some(self@[asset@]) } else { None::<Amount> }),
    {
        match self.find(asset) {
            Some(i) => {
                proof {
                    lemma_entry_in_map(self.entries@, i as int);
                }
                Some(self.entries[i].amount)
            },
            None => {
                proof {
                    lemma_absent_from_map(self.entries@, asset@);
                }
                None
            },
        }
    }

    /// Sets the balance of `asset` to `amount`.
    pub fn insert(&mut self, asset: &str, amount: Amount)
        requires
            old(self).wf(),
        ensures
            final(self).wf(),
            final(self)@ == old(self)@.insert(asset@, amount),
    {
        let entry = BalanceEntry { asset: asset.to_owned(), amount };
        match self.find(asset) {
            Some(i) => {
                proof {
                    lemma_update_map(self.entries@, i as int, entry);
                }
                self.entries.set(i, entry);
            },
            None => {
                let ghost before = self.entries@;
                self.entries.push(entry);
                assert(self.entries@.drop_last() == before);
            },
        }
    }

    /// Number of assets held.
    pub fn len(&self) -> (r: usize)
        requires
            self.wf(),
        ensures
            r == self@.len(),
    {
        proof {
            lemma_map_len(self.entries@);
        }
        self.entries.len()
    }

    /// A copy of the map.
    pub fn duplicate(&self) -> (r: BalanceMap)
        requires
            self.wf(),
        ensures
            r.wf(),
            r@ == self@,
    {
        let mut entries: Vec<BalanceEntry> = Vec::new();
        let mut i: usize = 0;
        while i < self.entries.len()
            invariant
                i <= self.entries@.len(),
                entries@.len() == i,
                forall|j: int| 0 <= j < i ==> (#[trigger] entries@[j]).asset@ == self.entries@[j].asset@
                    && entries@[j].amount == self.entries@[j].amount,
            decreases self.entries@.len() - i,
        {
            entries.push(BalanceEntry { asset: self.entries[i].asset.clone(), amount: self.entries[i].amount });
            i = i + 1;
        }
        proof {
            lemma_same_entries(entries@, self.entries@);
        }
        BalanceMap { entries }
    }

    /// The assets held, each once, in the order they were first added.
    pub fn assets(&self) -> (r: Vec<String>)
        requires
            self.wf(),
        ensures
            r@.len() == self@.len(),
            forall|i: int| 0 <= i < r@.len() ==> self@.contains_key(#[trigger] r@[i]@),
            forall|i: int, j: int| 0 <= i < j < r@.len() ==> r@[i]@ != r@[j]@,
    {
        let mut out: Vec<String> = Vec::new();
        let mut i: usize = 0;
        proof {
            lemma_map_len(self.entries@);
        }
        while i < self.entries.len()
            invariant
                self.wf(),
                i <= self.entries@.len(),
                out@.len() == i,
                forall|j: int| 0 <= j < i ==> out@[j]@ == self.entries@[j].asset@,
            decreases self.entries@.len() - i,
        {
            out.push(self.entries[i].asset.clone());
            i = i + 1;
        }
        assert forall|j: int| 0 <= j < out@.len() implies self@.contains_key(#[trigger] out@[j]@) by {
            lemma_entry_in_map(self.entries@, j);
        }
        out
    }
}

proof fn lemma_same_entries(a: Seq<BalanceEntry>, b: Seq<BalanceEntry>)
    requires
        a.len() == b.len(),
        forall|j: int| 0 <= j < a.len() ==> (#[trigger] a[j]).asset@ == b[j].asset@ && a[j].amount == b[j].amount,
    ensures
        entries_map(a) == entries_map(b),
        keys_unique(a) == keys_unique(b),
    decreases a.len(),
{
    if a.len() > 0 {
        lemma_same_entries(a.drop_last(), b.drop_last());
        assert(a.last().asset@ == b.last().asset@);
    }
    assert forall|i: int| 0 <= i < a.len() implies a[i].asset@ == b[i].asset@ by {
        assert(a[i].asset@ == b[i].asset@);
    }
    if keys_unique(a) {
        assert forall|i: int, j: int| 0 <= i < j < b.len() implies b[i].asset@ != b[j].asset@ by {
            assert(a[i].asset@ == b[i].asset@ && a[j].asset@ == b[j].asset@);
        }
    }
    if keys_unique(b) {
        assert forall|i: int, j: int| 0 <= i < j < a.len() implies a[i].asset@ != a[j].asset@ by {
            assert(a[i].asset@ == b[i].asset@ && a[j].asset@ == b[j].asset@);
        }
    }
}

proof fn lemma_map_len(es: Seq<BalanceEntry>)
    requires
        keys_unique(es),
    ensures
        entries_map(es).len() == es.len(),
        entries_map(es).dom().finite(),
    decreases es.len(),
{
    if es.len() > 0 {
        lemma_map_len(es.drop_last());
        assert forall|i: int| 0 <= i < es.drop_last().len() implies es.drop_last()[i].asset@ != es.last().asset@ by {
            assert(es[i].asset@ != es[es.len() - 1].asset@);
        }
        lemma_absent_from_map(es.drop_last(), es.last().asset@);
    }
}

/// The value of little-endian bytes.
pub open spec fn le_value(b: Seq<u8>) -> nat
    decreases b.len(),
{
    if b.len() == 0 {
        0
    } else {
        (b[0] + 256 * le_value(b.subrange(1, b.len() as int))) as nat
    }
}

/// The raw amount of a fungible asset cell: its bytes read little-endian
/// at the chain's width (longer input truncated, shorter zero-padded);
/// none reads as zero.
pub open spec fn raw_units(raw: Option<Vec<u8>>) -> nat {
    match raw {
        Some(b) => le_value(if b@.len() > AMOUNT_WIDTH { b@.subrange(0, AMOUNT_WIDTH as int) } else { b@ }),
        None => 0,
    }
}

/// `x`, or the largest `u128` if `x` is larger.
pub open spec fn saturate(x: int) -> u128 {
    if x > u128::MAX {
        u128::MAX
    } else {
        x as u128
    }
}

/// The units already held for `key`.
pub open spec fn held(m: Map<Seq<char>, Amount>, key: Seq<char>) -> int {
    if m.contains_key(key) {
        m[key].units as int
    } else {
        0
    }
}

/// The key under which a cell counts.
pub open spec fn cell_key(c: Cell) -> Seq<char> {
    match c.asset_type_fingerprint {
        Some(t) => t@,
        None => NATIVE_ASSET@,
    }
}

/// The decimals of a cell's asset.
pub open spec fn cell_decimals(c: Cell) -> u32 {
    match c.asset_type_fingerprint {
        Some(_) => if c.presence_only {
            0
        } else {
            match c.decimals {
                Some(d) => d,
                None => DEFAULT_DECIMALS,
            }
        },
        None => NATIVE_DECIMALS,
    }
}

/// The balances after counting one more cell.
pub open spec fn add_cell(m: Map<Seq<char>, Amount>, c: Cell) -> Map<Seq<char>, Amount> {
    let key = cell_key(c);
    let units = match c.asset_type_fingerprint {
        Some(_) => if c.presence_only {
            1u128
        } else {
            saturate(held(m, key) + raw_units(c.asset_amount_raw))
        },
        None => saturate(held(m, key) + c.native_amount),
    };
    m.insert(key, Amount { units, decimals: cell_decimals(c) })
}

/// The balances of a sequence of cells, counted in order.
pub open spec fn balances_of(cells: Seq<Cell>) -> Map<Seq<char>, Amount>
    decreases cells.len(),
{
    if cells.len() == 0 {
        Map::empty()
    } else {
        add_cell(balances_of(cells.drop_last()), cells.last())
    }
}

proof fn lemma_le_value_bound(b: Seq<u8>)
    ensures
        le_value(b) < pow256(b.len()),
    decreases b.len(),
{
    if b.len() > 0 {
        lemma_le_value_bound(b.subrange(1, b.len() as int));
        let rest = le_value(b.subrange(1, b.len() as int));
        let p = pow256((b.len() - 1) as nat);
        assert(b[0] + 256 * rest < 256 * p) by (nonlinear_arith)
            requires
                rest < p,
                b[0] < 256,
        ;
    }
}

/// `256^k`.
pub open spec fn pow256(k: nat) -> nat
    decreases k,
{
    if k == 0 {
        1
    } else {
        256 * pow256((k - 1) as nat)
    }
}

/// Reads up to the first sixteen bytes of `b` as a little-endian `u128`.
pub fn read_amount(b: &[u8]) -> (r: u128)
    ensures
        r == le_value(if b@.len() > AMOUNT_WIDTH { b@.subrange(0, AMOUNT_WIDTH as int) } else { b@ }),
{
    let n: usize = if b.len() > AMOUNT_WIDTH { AMOUNT_WIDTH } else { b.len() };
    let ghost s = b@.subrange(0, n as int);
    assert(s == (if b@.len() > AMOUNT_WIDTH { b@.subrange(0, AMOUNT_WIDTH as int) } else { b@ }));
    let mut v: u128 = 0;
    let mut i: usize = n;
    assert(pow256(16) == 0x1_0000_0000_0000_0000_0000_0000_0000_0000) by {
        reveal_with_fuel(pow256, 17);
    }
    while i > 0
        invariant
            i <= n <= AMOUNT_WIDTH,
            n <= b@.len(),
            s == b@.subrange(0, n as int),
            v == le_value(s.subrange(i as int, n as int)),
            pow256(16) == 0x1_0000_0000_0000_0000_0000_0000_0000_0000,
        decreases i,
    {
        let ghost tail = s.subrange(i as int, n as int);
        let ghost longer = s.subrange(i - 1, n as int);
        assert(longer.subrange(1, longer.len() as int) == tail);
        proof {
            lemma_le_value_bound(longer);
            lemma_pow256_mono((n - i + 1) as nat, 16);
        }
        assert(longer.len() == n - i + 1);
        assert(longer[0] == b@[i - 1]);
        assert(le_value(longer) == b@[i - 1] + 256 * v);
        assert(b@[i - 1] + 256 * v < 0x1_0000_0000_0000_0000_0000_0000_0000_0000);
        v = b[i - 1] as u128 + 256 * v;
        i = i - 1;
    }
    assert(s.subrange(0, n as int) == s);
    v
}

proof fn lemma_pow256_mono(a: nat, b: nat)
    requires
        a <= b,
    ensures
        pow256(a) <= pow256(b),
    decreases b,
{
    if a < b {
        lemma_pow256_mono(a, (b - 1) as nat);
    }
}

fn saturating(x: u128, y: u128) -> (r: u128)
    ensures
        r == saturate(x + y),
{
    x.saturating_add(y)
}

/// The balances that `cells` hold, per asset. Coin cells add their native
/// amount under `"native"`; a collectible sets its asset to one; any other
/// asset cell adds its raw amount, with the asset's declared decimals.
pub fn aggregate(cells: &Vec<Cell>) -> (r: BalanceMap)
    ensures
        r.wf(),
        r@ == balances_of(cells@),
{
    let mut m = BalanceMap::new();
    let mut i: usize = 0;
    while i < cells.len()
        invariant
            i <= cells@.len(),
            m.wf(),
            m@ == balances_of(cells@.subrange(0, i as int)),
        decreases cells@.len() - i,
    {
        let c = &cells[i];
        assert(cells@.subrange(0, i + 1).drop_last() == cells@.subrange(0, i as int));
        match &c.asset_type_fingerprint {
            None => {
                let before = m.get(NATIVE_ASSET);
                let held: u128 = match before {
                    Some(a) => a.units,
                    None => 0,
                };
                m.insert(NATIVE_ASSET, Amount { units: saturating(held, c.native_amount as u128), decimals: NATIVE_DECIMALS });
            },
            Some(t) => {
                if c.presence_only {
                    m.insert(t.as_str(), Amount { units: 1, decimals: 0 });
                } else {
                    let before = m.get(t.as_str());
                    let held: u128 = match before {
                        Some(a) => a.units,
                        None => 0,
                    };
                    let raw: u128 = match &c.asset_amount_raw {
                        Some(b) => read_amount(b.as_slice()),
                        None => 0,
                    };
                    let decimals: u32 = match c.decimals {
                        Some(d) => d,
                        None => DEFAULT_DECIMALS,
                    };
                    m.insert(t.as_str(), Amount { units: saturating(held, raw), decimals });
                }
            },
        }
        i = i + 1;
    }
    assert(cells@.subrange(0, cells@.len() as int) == cells@);
    m
}

/// Two cells that count under the same key agree on what the asset is:
/// both coin cells or both asset cells, both collectibles or neither, and
/// the same decimals.
pub open spec fn cells_agree(a: Cell, b: Cell) -> bool {
    cell_key(a) == cell_key(b) ==> {
        &&& (a.asset_type_fingerprint is Some) == (b.asset_type_fingerprint is Some)
        &&& (a.asset_type_fingerprint is Some ==> a.presence_only == b.presence_only)
        &&& cell_decimals(a) == cell_decimals(b)
    }
}

/// Every two cells of the sequence agree on their assets.
pub open spec fn kinds_consistent(cells: Seq<Cell>) -> bool {
    forall|i: int, j: int| 0 <= i < cells.len() && 0 <= j < cells.len() ==> cells_agree(#[trigger] cells[i], #[trigger] cells[j])
}

proof fn lemma_saturate_twice(h: int, x: int, y: int)
    requires
        0 <= h,
        0 <= x,
        0 <= y,
    ensures
        saturate(saturate(h + x) + y) == saturate(h + x + y),
{
}

proof fn lemma_add_cells_commute(m: Map<Seq<char>, Amount>, a: Cell, b: Cell)
    requires
        cells_agree(a, b),
    ensures
        add_cell(add_cell(m, a), b) == add_cell(add_cell(m, b), a),
{
    let ka = cell_key(a);
    let kb = cell_key(b);
    if ka == kb {
        let h = held(m, ka);
        let ra: int = match a.asset_type_fingerprint {
            Some(_) => raw_units(a.asset_amount_raw) as int,
            None => a.native_amount as int,
        };
        let rb: int = match b.asset_type_fingerprint {
            Some(_) => raw_units(b.asset_amount_raw) as int,
            None => b.native_amount as int,
        };
        lemma_saturate_twice(h, ra, rb);
        lemma_saturate_twice(h, rb, ra);
        assert(add_cell(add_cell(m, a), b) =~= add_cell(add_cell(m, b), a));
    } else {
        assert(held(add_cell(m, a), kb) == held(m, kb));
        assert(held(add_cell(m, b), ka) == held(m, ka));
        assert(add_cell(add_cell(m, a), b) =~= add_cell(add_cell(m, b), a));
    }
}

proof fn lemma_consistent_remove(s: Seq<Cell>, i: int)
    requires
        kinds_consistent(s),
        0 <= i < s.len(),
    ensures
        kinds_consistent(s.remove(i)),
{
    let r = s.remove(i);
    s.remove_ensures(i);
    assert forall|p: int, q: int| 0 <= p < r.len() && 0 <= q < r.len() implies cells_agree(#[trigger] r[p], #[trigger] r[q]) by {
        let sp = if p < i { p } else { p + 1 };
        let sq = if q < i { q } else { q + 1 };
        assert(r[p] == s[sp]);
        assert(r[q] == s[sq]);
    }
}

proof fn lemma_move_to_end(s: Seq<Cell>, i: int)
    requires
        kinds_consistent(s),
        0 <= i < s.len(),
    ensures
        balances_of(s) == add_cell(balances_of(s.remove(i)), s[i]),
    decreases s.len(),
{
    if i == s.len() - 1 {
        assert(s.remove(i) == s.drop_last());
    } else {
        let d = s.drop_last();
        assert(kinds_consistent(d)) by {
            assert forall|p: int, q: int| 0 <= p < d.len() && 0 <= q < d.len() implies cells_agree(#[trigger] d[p], #[trigger] d[q]) by {
                assert(d[p] == s[p] && d[q] == s[q]);
            }
        }
        lemma_move_to_end(d, i);
        assert(d[i] == s[i]);
        assert(cells_agree(s[i], s.last()));
        lemma_add_cells_commute(balances_of(d.remove(i)), s[i], s.last());
        assert(d.remove(i).push(s.last()) =~= s.remove(i));
        assert(s.remove(i).drop_last() =~= d.remove(i));
    }
}

/// Counting cells in any order gives the same balances: a sequence and any
/// rearrangement of it (the same multiset of cells) aggregate to the same
/// map, provided cells counted under one key agree on their asset's kind.
pub proof fn aggregate_is_order_independent(a: Seq<Cell>, b: Seq<Cell>)
    requires
        a.to_multiset() == b.to_multiset(),
        kinds_consistent(a),
    ensures
        balances_of(a) == balances_of(b),
    decreases a.len(),
{
    to_multiset_len(a);
    to_multiset_len(b);
    if b.len() > 0 {
        let x = b.last();
        to_multiset_contains(b, x);
        to_multiset_contains(a, x);
        assert(b.contains(x)) by {
            assert(b[b.len() - 1] == x);
        }
        let i = choose|i: int| 0 <= i < a.len() && a[i] == x;
        to_multiset_remove(a, i);
        assert(b.drop_last().push(x) == b);
        to_multiset_build(b.drop_last(), x);
        assert(b.drop_last().to_multiset() =~= b.to_multiset().remove(x));
        lemma_consistent_remove(a, i);
        aggregate_is_order_independent(a.remove(i), b.drop_last());
        lemma_move_to_end(a, i);
    }
}

/// No cells, no balances.
pub proof fn aggregate_of_no_cells_is_empty()
    ensures
        balances_of(Seq::<Cell>::empty()) == Map::<Seq<char>, Amount>::empty(),
{
}

/// A collection counts once: if any cell holds a collectible of key `k`,
/// and the cells agree on their assets, the balance of `k` is exactly one,
/// however many cells hold it.
pub proof fn collectible_counts_once(cells: Seq<Cell>, k: Seq<char>)
    requires
        kinds_consistent(cells),
        exists|i: int| 0 <= i < cells.len() && cell_key(#[trigger] cells[i]) == k && cells[i].asset_type_fingerprint is Some && cells[i].presence_only,
    ensures
        balances_of(cells).contains_key(k),
        balances_of(cells)[k] == (Amount { units: 1, decimals: 0 }),
    decreases cells.len(),
{
    let i = choose|i: int| 0 <= i < cells.len() && cell_key(#[trigger] cells[i]) == k && cells[i].asset_type_fingerprint is Some && cells[i].presence_only;
    let last = cells.last();
    assert(cells_agree(cells[i], last));
    if cell_key(last) != k {
        let d = cells.drop_last();
        assert(d[i] == cells[i]);
        assert(kinds_consistent(d)) by {
            assert forall|p: int, q: int| 0 <= p < d.len() && 0 <= q < d.len() implies cells_agree(#[trigger] d[p], #[trigger] d[q]) by {
                assert(d[p] == cells[p] && d[q] == cells[q]);
            }
        }
        collectible_counts_once(d, k);
    }
}

} // verus!
