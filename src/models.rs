//! Records of the chain explorer's address and token responses, as plain
//! data. Reading them from JSON happens outside the library.

use vstd::prelude::*;
use vstd::utf8::encode_utf8;
use crate::balance::Cell;
use crate::btc::{le_bytes, push_le};
use crate::encoding::{decimal_number, parse_digits, same_text};
use crate::types::opt_text;

verus! {

/// A token's type script.
pub struct UdtTypeScript {
    pub args: Option<String>,
    pub code_hash: Option<String>,
    pub hash_type: Option<String>,
}

/// The collection a collectible belongs to.
pub struct CollectionScript {
    pub type_hash: Option<String>,
}

/// One asset held by an address.
pub struct UdtAccount {
    pub symbol: Option<String>,
    pub decimal: Option<String>,
    pub amount: Option<String>,
    pub type_hash: Option<String>,
    pub udt_type: Option<String>,
    pub collection: Option<CollectionScript>,
    pub udt_type_script: UdtTypeScript,
}

/// What the explorer knows of an address.
pub struct AddressAttributes {
    pub address_hash: Option<String>,
    pub balance: Option<String>,
    pub transactions_count: Option<String>,
    pub live_cells_count: Option<String>,
    pub udt_accounts: Vec<UdtAccount>,
}

/// One address record.
pub struct AddressData {
    pub id: Option<String>,
    pub data_type: Option<String>,
    pub attributes: AddressAttributes,
}

/// The explorer's answer for an address.
pub struct AddressResponse {
    pub data: Vec<AddressData>,
}

/// What the explorer knows of a token.
pub struct TokenInfo {
    pub symbol: Option<String>,
    pub decimal: Option<String>,
    pub description: Option<String>,
    pub full_name: Option<String>,
    pub udt_type: Option<String>,
    pub type_script: Option<UdtTypeScript>,
}

/// One token record.
pub struct TokenData {
    pub id: String,
    pub data_type: String,
    pub attributes: TokenInfo,
}

/// The explorer's answer for a token.
pub struct TokenResponse {
    pub data: TokenData,
}

/// A collection's type script.
pub struct NFTTypeScript {
    pub args: String,
    pub code_hash: String,
    pub hash_type: String,
    pub script_hash: String,
}

/// What the explorer knows of a collection.
pub struct NFTInfo {
    pub name: String,
    pub standard: String,
    pub type_script: NFTTypeScript,
}

/// What a cell carries, its owner aside: the asset's key, the native
/// amount, the raw asset amount, whether the asset is a collectible, and its
/// decimals.
pub type CellContent = (Option<Seq<char>>, u64, Option<Seq<u8>>, bool, Option<u32>);

/// What `c` carries.
pub open spec fn cell_content(c: Cell) -> CellContent {
    (
        opt_text(c.asset_type_fingerprint),
        c.native_amount,
        match c.asset_amount_raw {
            Some(b) => Some(b@),
            None => None,
        },
        c.presence_only,
        c.decimals,
    )
}

/// The number that an optional text spells in decimal, if it is one no
/// larger than `max`.
pub open spec fn number_text(t: Option<String>, max: nat) -> Option<nat> {
    match t {
        Some(s) => decimal_number(encode_utf8(s@), max),
        None => None,
    }
}

/// The explorer's name for collectible accounts.
pub open spec fn collectible_kind() -> Seq<char> {
    "spore_cell"@
}

/// The cell that stands for one asset account: a collectible counts under
/// its collection, a token under its type hash with its amount (raw units,
/// little-endian at sixteen bytes) and decimals; none when the account
/// names no key.
pub open spec fn account_cell(a: UdtAccount) -> Option<CellContent> {
    if opt_text(a.udt_type) == Some(collectible_kind()) {
        match a.collection {
            Some(c) => match c.type_hash {
                Some(h) => Some((Some(h@), 0u64, None, true, None)),
                None => None,
            },
            None => None,
        }
    } else {
        match a.type_hash {
            Some(h) => Some((
                Some(h@),
                0u64,
                match number_text(a.amount, u128::MAX as nat) {
                    Some(v) => Some(le_bytes(v, 16)),
                    None => None,
                },
                false,
                match number_text(a.decimal, u32::MAX as nat) {
                    Some(d) => Some(d as u32),
                    None => None,
                },
            )),
            None => None,
        }
    }
}

/// The cells of a list of asset accounts, in order.
pub open spec fn account_cells(accounts: Seq<UdtAccount>) -> Seq<CellContent>
    decreases accounts.len(),
{
    if accounts.len() == 0 {
        seq![]
    } else {
        account_cells(accounts.drop_last()) + match account_cell(accounts.last()) {
            Some(c) => seq![c],
            None => seq![],
        }
    }
}

/// The native amount that a balance text gives: its number, or zero.
pub open spec fn native_amount_of(balance: Option<String>) -> u64 {
    match number_text(balance, u64::MAX as nat) {
        Some(v) => v as u64,
        None => 0,
    }
}

fn read_number(t: &Option<String>, max: u128) -> (r: Option<u128>)
    ensures
        r matches Some(v) ==> number_text(*t, max as nat) == Some(v as nat) && v <= max,
        r is None ==> number_text(*t, max as nat) is None,
{
    match t {
        Some(s) => match parse_digits(s.as_str().as_bytes()) {
            Some(v) => if v <= max {
                Some(v)
            } else {
                None
            },
            None => None,
        },
        None => None,
    }
}

impl UdtAccount {
    /// The cell that stands for this account, owned by `owner`.
    pub fn to_cell(&self, owner: &String) -> (r: Option<Cell>)
        ensures
            r matches Some(c) ==> account_cell(*self) == Some(cell_content(c)) && c.owner_lock_fingerprint@ == owner@,
            r is None ==> account_cell(*self) is None,
    {
        let collectible = match &self.udt_type {
            Some(t) => same_text(t.as_str(), "spore_cell"),
            None => false,
        };
        if collectible {
            match &self.collection {
                Some(c) => match &c.type_hash {
                    Some(h) => Some(Cell {
                        owner_lock_fingerprint: owner.clone(),
                        native_amount: 0,
                        asset_type_fingerprint: Some(h.clone()),
                        asset_amount_raw: None,
                        presence_only: true,
                        decimals: None,
                    }),
                    None => None,
                },
                None => None,
            }
        } else {
            match &self.type_hash {
                Some(h) => {
                    let raw = match read_number(&self.amount, u128::MAX) {
                        Some(v) => {
                            let mut b: Vec<u8> = Vec::new();
                            push_le(&mut b, v, 16);
                            assert(b@ =~= le_bytes(v as nat, 16));
                            Some(b)
                        },
                        None => None,
                    };
                    let decimals = match read_number(&self.decimal, u32::MAX as u128) {
                        Some(d) => Some(d as u32),
                        None => None,
                    };
                    Some(Cell {
                        owner_lock_fingerprint: owner.clone(),
                        native_amount: 0,
                        asset_type_fingerprint: Some(h.clone()),
                        asset_amount_raw: raw,
                        presence_only: false,
                        decimals,
                    })
                },
                None => None,
            }
        }
    }
}

impl AddressAttributes {
    /// The cells that stand for the address's holdings: a coin cell with the
    /// whole balance (any reserve is left to the caller), then one cell per
    /// asset account that names its key. Text that is not a number reads as
    /// none.
    pub fn cells(&self) -> (r: Vec<Cell>)
        ensures
            r@.map_values(|c: Cell| cell_content(c)) == seq![(None::<Seq<char>>, native_amount_of(self.balance), None::<Seq<u8>>, false, None::<u32>)] + account_cells(self.udt_accounts@),
    {
        let owner: String = match &self.address_hash {
            Some(a) => a.clone(),
            None => String::new(),
        };
        let native: u64 = match read_number(&self.balance, u64::MAX as u128) {
            Some(v) => v as u64,
            None => 0,
        };
        let mut out: Vec<Cell> = Vec::new();
        out.push(Cell {
            owner_lock_fingerprint: owner.clone(),
            native_amount: native,
            asset_type_fingerprint: None,
            asset_amount_raw: None,
            presence_only: false,
            decimals: None,
        });
        let ghost head = seq![(None::<Seq<char>>, native_amount_of(self.balance), None::<Seq<u8>>, false, None::<u32>)];
        assert(out@.map_values(|c: Cell| cell_content(c)) =~= head + account_cells(self.udt_accounts@.subrange(0, 0)));
        let mut i: usize = 0;
        while i < self.udt_accounts.len()
            invariant
                i <= self.udt_accounts@.len(),
                out@.map_values(|c: Cell| cell_content(c)) == head + account_cells(self.udt_accounts@.subrange(0, i as int)),
            decreases self.udt_accounts@.len() - i,
        {
            let ghost next = self.udt_accounts@.subrange(0, i + 1);
            assert(next.drop_last() == self.udt_accounts@.subrange(0, i as int));
            assert(next.last() == self.udt_accounts@[i as int]);
            let ghost before = out@;
            match self.udt_accounts[i].to_cell(&owner) {
                Some(c) => {
                    out.push(c);
                    assert(out@.map_values(|c: Cell| cell_content(c)) =~= before.map_values(|c: Cell| cell_content(c)).push(cell_content(c)));
                    assert(account_cells(next) == account_cells(next.drop_last()) + seq![cell_content(c)]);
                },
                None => {
                    assert(account_cells(next) == account_cells(next.drop_last()) + Seq::<CellContent>::empty());
                },
            }
            i = i + 1;
            assert(out@.map_values(|c: Cell| cell_content(c)) =~= head + account_cells(self.udt_accounts@.subrange(0, i as int)));
        }
        assert(self.udt_accounts@.subrange(0, self.udt_accounts@.len() as int) == self.udt_accounts@);
        out
    }
}

} // verus!
