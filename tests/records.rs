use utxo_gate::balance::{aggregate, Amount};
use utxo_gate::challenge::{challenge_for, verify_member_signature};
use utxo_gate::ckb::CkbNetwork;
use utxo_gate::encoding::parse_digits;
use utxo_gate::models::{AddressAttributes, CollectionScript, UdtAccount, UdtTypeScript};
use utxo_gate::policy::{CommunityPolicy, Date};
use utxo_gate::types::SignData;

fn no_script() -> UdtTypeScript {
    UdtTypeScript { args: None, code_hash: None, hash_type: None }
}

fn account(kind: &str, type_hash: Option<&str>, amount: Option<&str>, decimal: Option<&str>, collection: Option<&str>) -> UdtAccount {
    UdtAccount {
        symbol: None,
        decimal: decimal.map(String::from),
        amount: amount.map(String::from),
        type_hash: type_hash.map(String::from),
        udt_type: Some(kind.to_string()),
        collection: collection.map(|c| CollectionScript { type_hash: Some(c.to_string()) }),
        udt_type_script: no_script(),
    }
}

#[test]
fn challenge_text_matches_the_signed_format() {
    let d = Date::new(2000, 1, 2).unwrap();
    assert_eq!(challenge_for(7, d), "My tgid: 7 - My DoB: 2000-01-02");
    assert_eq!(challenge_for(-1001234, Date::new(1999, 12, 31).unwrap()), "My tgid: -1001234 - My DoB: 1999-12-31");
    assert_eq!(challenge_for(i64::MIN, Date::new(5, 3, 9).unwrap()), format!("My tgid: {} - My DoB: 0005-03-09", i64::MIN));
    for (y, m, dd) in [(10000, 1, 1), (-1, 6, 30), (-12345, 2, 3), (0, 1, 1), (9999, 12, 31)] {
        let ours = challenge_for(1, Date::new(y, m, dd).unwrap());
        let theirs = format!("My tgid: 1 - My DoB: {}", chrono::NaiveDate::from_ymd_opt(y, m as u32, dd as u32).unwrap());
        assert_eq!(ours, theirs);
    }
}

#[test]
fn member_signature_binds_account_and_birth_date() {
    let sk = secp256k1::SecretKey::from_slice(&[11u8; 32]).unwrap();
    let secp = secp256k1::Secp256k1::new();
    let pk = secp256k1::PublicKey::from_secret_key(&secp, &sk).serialize_uncompressed();
    let addr = format!("0x{}", hex::encode(&ethers_core::utils::keccak256(&pk[1..])[12..]));
    let challenge = "My tgid: 42 - My DoB: 2001-09-11";
    let msg = format!("\x19Ethereum Signed Message:\n{}{}", challenge.len(), challenge);
    let digest = ethers_core::utils::keccak256(msg.as_bytes());
    let (recid, compact) = secp.sign_ecdsa_recoverable(&secp256k1::Message::from_digest(digest), &sk).serialize_compact();
    let mut sig = compact.to_vec();
    sig.push(27 + i32::from(recid) as u8);
    let data = || SignData { signature: hex::encode(&sig), identity: addr.clone(), sign_type: "evmpersonal".to_string(), ckb_address: None };
    let dob = Date::new(2001, 9, 11).unwrap();
    assert!(verify_member_signature(42, dob, data(), CkbNetwork::Mainnet));
    assert!(!verify_member_signature(43, dob, data(), CkbNetwork::Mainnet));
    assert!(!verify_member_signature(42, Date::new(2001, 9, 12).unwrap(), data(), CkbNetwork::Mainnet));
}

#[test]
fn digits_parse_exactly() {
    assert_eq!(parse_digits(b"0"), Some(0));
    assert_eq!(parse_digits(b"12345"), Some(12345));
    assert_eq!(parse_digits(b"340282366920938463463374607431768211455"), Some(u128::MAX));
    assert_eq!(parse_digits(b"340282366920938463463374607431768211456"), None);
    assert_eq!(parse_digits(b""), None);
    assert_eq!(parse_digits(b"+1"), None);
    assert_eq!(parse_digits(b"1.5"), None);
    assert_eq!(parse_digits(b"12a"), None);
}

#[test]
fn explorer_record_becomes_cells() {
    let attrs = AddressAttributes {
        address_hash: Some("ckb1qexample".to_string()),
        balance: Some("25000000000".to_string()),
        transactions_count: None,
        live_cells_count: Some("6100000000".to_string()),
        udt_accounts: vec![
            account("xudt", Some("0xaa"), Some("123456"), Some("2"), None),
            account("spore_cell", None, None, None, Some("0xcol")),
            account("spore_cell", None, None, None, Some("0xcol")),
            account("xudt", None, Some("5"), None, None),
            account("xudt", Some("0xbb"), Some("lots"), None, None),
        ],
    };
    let cells = attrs.cells();
    assert_eq!(cells.len(), 5);
    assert_eq!(cells[0].native_amount, 25_000_000_000);
    assert_eq!(cells[0].owner_lock_fingerprint, "ckb1qexample");
    assert!(cells[2].presence_only);
    let mut raw = vec![0u8; 16];
    raw[..3].copy_from_slice(&123456u32.to_le_bytes()[..3]);
    assert_eq!(cells[1].asset_amount_raw, Some(raw));
    assert_eq!(cells[1].decimals, Some(2));
    assert_eq!(cells[4].asset_amount_raw, None);
    let m = aggregate(&cells);
    assert_eq!(m.get("native"), Some(Amount { units: 25_000_000_000, decimals: 8 }));
    assert_eq!(m.get("0xaa"), Some(Amount { units: 123456, decimals: 2 }));
    assert_eq!(m.get("0xcol"), Some(Amount { units: 1, decimals: 0 }));
    assert_eq!(m.get("0xbb"), Some(Amount { units: 0, decimals: 1 }));
    assert_eq!(m.len(), 4);
}

#[test]
fn explorer_record_with_bad_balance_counts_zero() {
    let attrs = AddressAttributes {
        address_hash: None,
        balance: Some("12.5".to_string()),
        transactions_count: None,
        live_cells_count: None,
        udt_accounts: vec![],
    };
    let cells = attrs.cells();
    assert_eq!(cells.len(), 1);
    assert_eq!(cells[0].native_amount, 0);
}

#[test]
fn group_settings_become_a_policy() {
    let p = CommunityPolicy::from_group("-5".to_string(), None, None, None);
    assert_eq!((p.gated_asset.is_none(), p.min_balance, p.min_age_years), (true, 0, 0));
    let p = CommunityPolicy::from_group("-5".to_string(), Some("CKB".to_string()), Some(150), Some(18));
    assert_eq!((p.gated_asset.is_none(), p.min_balance, p.min_age_years), (true, 150, 18));
    let p = CommunityPolicy::from_group("-5".to_string(), Some(String::new()), Some(-3), Some(-1));
    assert_eq!((p.gated_asset.is_none(), p.min_balance, p.min_age_years), (true, 0, 0));
    let p = CommunityPolicy::from_group("-5".to_string(), Some("0xAB".to_string()), Some(1), Some(21));
    assert_eq!(p.gated_asset, Some("0xAB".to_string()));
    assert_eq!(p.community_id, "-5");
}
