use base64::Engine;
use p256::ecdsa::signature::Signer;
use sha2::Digest;
use utxo_gate::ckb::CkbNetwork;
use utxo_gate::joyid::{JoyIdData, JoyIdIdentity, JoyIdSignature, SigningAlg};
use utxo_gate::types::{parse_scheme, SignData, SignatureScheme, VerifyFailure};
use utxo_gate::verify::{check_message, verify_message};

fn secret(seed: u8) -> secp256k1::SecretKey {
    secp256k1::SecretKey::from_slice(&[seed; 32]).unwrap()
}

fn sign_digest(digest: &[u8], sk: &secp256k1::SecretKey) -> (u8, [u8; 64]) {
    let secp = secp256k1::Secp256k1::new();
    let mut d = [0u8; 32];
    d.copy_from_slice(digest);
    let sig = secp.sign_ecdsa_recoverable(&secp256k1::Message::from_digest(d), sk);
    let (recid, compact) = sig.serialize_compact();
    (i32::from(recid) as u8, compact)
}

fn public_key(sk: &secp256k1::SecretKey) -> secp256k1::PublicKey {
    secp256k1::PublicKey::from_secret_key(&secp256k1::Secp256k1::new(), sk)
}

fn data(signature: String, identity: String, sign_type: &str, ckb_address: Option<String>) -> SignData {
    SignData { signature, identity, sign_type: sign_type.to_string(), ckb_address }
}

// ---- Ethereum ----

fn eth_address(sk: &secp256k1::SecretKey) -> String {
    let pk = public_key(sk).serialize_uncompressed();
    let h = ethers_core::utils::keccak256(&pk[1..]);
    format!("0x{}", hex::encode(&h[12..]))
}

fn eth_sign(challenge: &str, sk: &secp256k1::SecretKey) -> String {
    let msg = format!("\x19Ethereum Signed Message:\n{}{}", challenge.len(), challenge);
    let digest = ethers_core::utils::keccak256(msg.as_bytes());
    let (recid, compact) = sign_digest(&digest, sk);
    let mut bytes = compact.to_vec();
    bytes.push(27 + recid);
    format!("0x{}", hex::encode(bytes))
}

#[test]
fn ethereum_known_vector_recovers_its_signer() {
    let d = data(
        "b91467e570a6466aa9e9876cbcd013baba02900b8979d43fe208a4a4f339f5fd6007e74cd82e037b800186422fc2da167c747ef045e5d18a5f5d4300f8e1a0291c".to_string(),
        "0x2c7536E3605D9C16a7a3D7b1898e529396a65c23".to_string(),
        "evmpersonal",
        None,
    );
    assert!(verify_message("Some data", d, CkbNetwork::Mainnet));
}

#[test]
fn ethereum_bind_challenge_is_case_insensitive() {
    let sk = secret(7);
    let addr = eth_address(&sk);
    let sig = eth_sign("bind:42", &sk);
    let upper = format!("0x{}", addr[2..].to_uppercase());
    assert!(verify_message("bind:42", data(sig.clone(), addr.clone(), "evmpersonal", None), CkbNetwork::Mainnet));
    assert!(verify_message("bind:42", data(sig.clone(), upper, "EvmPersonal", None), CkbNetwork::Mainnet));
    let other = eth_address(&secret(8));
    assert!(!verify_message("bind:42", data(sig, other, "evmpersonal", None), CkbNetwork::Mainnet));
}

#[test]
fn ethereum_single_byte_mutations_fail() {
    let sk = secret(9);
    let addr = eth_address(&sk);
    let sig = eth_sign("bind:42", &sk);
    assert!(verify_message("bind:42", data(sig.clone(), addr.clone(), "evmpersonal", None), CkbNetwork::Mainnet));
    let raw = hex::decode(&sig[2..]).unwrap();
    for i in [0usize, 31, 32, 63] {
        let mut m = raw.clone();
        m[i] ^= 0x01;
        let ms = format!("0x{}", hex::encode(m));
        assert!(!verify_message("bind:42", data(ms, addr.clone(), "evmpersonal", None), CkbNetwork::Mainnet));
    }
    assert!(!verify_message("bind:43", data(sig.clone(), addr.clone(), "evmpersonal", None), CkbNetwork::Mainnet));
    let mut a = hex::decode(&addr[2..]).unwrap();
    a[19] ^= 0x01;
    let ma = format!("0x{}", hex::encode(a));
    assert!(!verify_message("bind:42", data(sig, ma, "evmpersonal", None), CkbNetwork::Mainnet));
}

#[test]
fn ethereum_malformed_input_is_rejected() {
    let addr = eth_address(&secret(3));
    assert!(!verify_message("bind:42", data(String::new(), addr.clone(), "evmpersonal", None), CkbNetwork::Mainnet));
    assert!(!verify_message("bind:42", data("0xzz".to_string(), addr.clone(), "evmpersonal", None), CkbNetwork::Mainnet));
    assert!(!verify_message("bind:42", data("0xabcd".to_string(), addr, "evmpersonal", None), CkbNetwork::Mainnet));
}

// ---- Bitcoin and Dogecoin ----

fn compact_size(n: usize) -> Vec<u8> {
    if n < 0xfd {
        vec![n as u8]
    } else {
        let mut v = vec![0xfd];
        v.extend_from_slice(&(n as u16).to_le_bytes());
        v
    }
}

fn message_digest(prefix: &[u8], msg: &str) -> Vec<u8> {
    let mut pre = prefix.to_vec();
    pre.extend(compact_size(msg.len()));
    pre.extend_from_slice(msg.as_bytes());
    let once = sha2::Sha256::digest(&pre);
    sha2::Sha256::digest(once).to_vec()
}

fn p2pkh(version: u8, key: &[u8]) -> String {
    let sha = sha2::Sha256::digest(key);
    let h = <bitcoin::hashes::ripemd160::Hash as bitcoin::hashes::Hash>::hash(&sha);
    let mut payload = vec![version];
    payload.extend_from_slice(bitcoin::hashes::Hash::as_byte_array(&h));
    bs58::encode(payload).with_check().into_string()
}

fn message_signature(header: u8, compact: [u8; 64]) -> String {
    let mut v = vec![header];
    v.extend_from_slice(&compact);
    base64::engine::general_purpose::STANDARD.encode(v)
}

#[test]
fn bitcoin_compressed_key_signature_verifies() {
    let sk = secret(21);
    let addr = p2pkh(0x00, &public_key(&sk).serialize());
    let digest = message_digest(b"\x18Bitcoin Signed Message:\n", "hello");
    let (recid, compact) = sign_digest(&digest, &sk);
    let sig = message_signature(31 + recid, compact);
    assert!(utxo_gate::btc::verify_message("hello", data(sig.clone(), addr.clone(), "btcecdsa", None)));
    assert!(verify_message("hello", data(sig.clone(), addr, "BTCECDSA", None), CkbNetwork::Mainnet));
    let other = p2pkh(0x00, &public_key(&secret(22)).serialize());
    assert!(!verify_message("hello", data(sig, other, "btcecdsa", None), CkbNetwork::Mainnet));
}

#[test]
fn bitcoin_uncompressed_key_signature_verifies() {
    let sk = secret(23);
    let addr = p2pkh(0x00, &public_key(&sk).serialize_uncompressed());
    let digest = message_digest(b"\x18Bitcoin Signed Message:\n", "hello");
    let (recid, compact) = sign_digest(&digest, &sk);
    assert!(verify_message("hello", data(message_signature(27 + recid, compact), addr.clone(), "btcecdsa", None), CkbNetwork::Mainnet));
    assert!(!verify_message("hello", data(message_signature(31 + recid, compact), addr, "btcecdsa", None), CkbNetwork::Mainnet));
}

#[test]
fn bitcoin_bad_header_and_length_fail() {
    let sk = secret(24);
    let addr = p2pkh(0x00, &public_key(&sk).serialize());
    let digest = message_digest(b"\x18Bitcoin Signed Message:\n", "hello");
    let (recid, compact) = sign_digest(&digest, &sk);
    assert!(!verify_message("hello", data(message_signature(recid, compact), addr.clone(), "btcecdsa", None), CkbNetwork::Mainnet));
    let short = base64::engine::general_purpose::STANDARD.encode(&compact[..40]);
    assert!(!verify_message("hello", data(short, addr.clone(), "btcecdsa", None), CkbNetwork::Mainnet));
    assert!(!verify_message("hello", data("not base64!".to_string(), addr, "btcecdsa", None), CkbNetwork::Mainnet));
}

#[test]
fn long_message_uses_three_byte_length() {
    let sk = secret(25);
    let addr = p2pkh(0x00, &public_key(&sk).serialize());
    let msg = "x".repeat(300);
    let digest = message_digest(b"\x18Bitcoin Signed Message:\n", &msg);
    let (recid, compact) = sign_digest(&digest, &sk);
    assert!(verify_message(&msg, data(message_signature(31 + recid, compact), addr, "btcecdsa", None), CkbNetwork::Mainnet));
}

#[test]
fn dogecoin_signature_verifies_and_mutations_fail() {
    let sk = secret(31);
    let addr = p2pkh(0x1e, &public_key(&sk).serialize());
    let digest = message_digest(b"\x19Dogecoin Signed Message:\n", "My tgid: 7 - My DoB: 2000-01-02");
    assert_eq!(utxo_gate::doge::signed_msg_hash("My tgid: 7 - My DoB: 2000-01-02"), digest);
    let (recid, compact) = sign_digest(&digest, &sk);
    let sig = message_signature(31 + recid, compact);
    assert!(utxo_gate::doge::verify_message("My tgid: 7 - My DoB: 2000-01-02", data(sig.clone(), addr.clone(), "dogeecdsa", None)));
    assert!(verify_message("My tgid: 7 - My DoB: 2000-01-02", data(sig.clone(), addr.clone(), "dogeecdsa", None), CkbNetwork::Mainnet));
    assert!(!verify_message("My tgid: 8 - My DoB: 2000-01-02", data(sig.clone(), addr.clone(), "dogeecdsa", None), CkbNetwork::Mainnet));
    let mut raw = base64::engine::general_purpose::STANDARD.decode(&sig).unwrap();
    raw[10] ^= 0x80;
    let bad = base64::engine::general_purpose::STANDARD.encode(raw);
    assert!(!verify_message("My tgid: 7 - My DoB: 2000-01-02", data(bad, addr.clone(), "dogeecdsa", None), CkbNetwork::Mainnet));
    assert!(!verify_message("My tgid: 7 - My DoB: 2000-01-02", data(message_signature(27 + recid, compact), addr, "dogeecdsa", None), CkbNetwork::Mainnet));
    let other = p2pkh(0x1e, &public_key(&secret(32)).serialize());
    assert!(!verify_message("My tgid: 7 - My DoB: 2000-01-02", data(sig, other, "dogeecdsa", None), CkbNetwork::Mainnet));
}

#[test]
fn dogecoin_empty_signature_fails() {
    let addr = p2pkh(0x1e, &public_key(&secret(33)).serialize());
    assert!(!verify_message("hi", data(String::new(), addr, "dogeecdsa", None), CkbNetwork::Mainnet));
}

// ---- CKB ----

fn ckb_address(sk: &secp256k1::SecretKey, network: ckb_sdk::NetworkType) -> String {
    let payload = ckb_sdk::AddressPayload::from_pubkey(&public_key(sk));
    ckb_sdk::Address::new(network, payload, true).to_string()
}

fn ckb_sign(challenge: &str, sk: &secp256k1::SecretKey) -> String {
    let digest = ckb_hash::blake2b_256(format!("Nervos Message:{}", challenge).as_bytes());
    let (recid, compact) = sign_digest(&digest, sk);
    let mut bytes = compact.to_vec();
    bytes.push(recid);
    format!("0x{}", hex::encode(bytes))
}

#[test]
fn ckb_signature_verifies_on_its_network_only() {
    let sk = secret(41);
    let addr = ckb_address(&sk, ckb_sdk::NetworkType::Testnet);
    let sig = ckb_sign("My tgid: 1 - My DoB: 1990-05-06", &sk);
    let d = || data(sig.clone(), String::new(), "ckbsecp256k1", Some(addr.clone()));
    assert!(utxo_gate::ckb::verify_signature("My tgid: 1 - My DoB: 1990-05-06", d(), CkbNetwork::Testnet));
    assert!(verify_message("My tgid: 1 - My DoB: 1990-05-06", d(), CkbNetwork::Testnet));
    assert!(!verify_message("My tgid: 1 - My DoB: 1990-05-06", d(), CkbNetwork::Mainnet));
    assert!(!verify_message("My tgid: 2 - My DoB: 1990-05-06", d(), CkbNetwork::Testnet));
    let other = ckb_address(&secret(42), ckb_sdk::NetworkType::Testnet);
    assert!(!verify_message("My tgid: 1 - My DoB: 1990-05-06", data(sig.clone(), String::new(), "ckbsecp256k1", Some(other)), CkbNetwork::Testnet));
    assert!(!verify_message("My tgid: 1 - My DoB: 1990-05-06", data(sig, String::new(), "ckbsecp256k1", None), CkbNetwork::Testnet));
}

#[test]
fn ckb_truncated_or_bad_recovery_id_fails() {
    let sk = secret(43);
    let addr = ckb_address(&sk, ckb_sdk::NetworkType::Mainnet);
    let sig = ckb_sign("c", &sk);
    let truncated = sig[..sig.len() - 2].to_string();
    assert!(!verify_message("c", data(truncated, String::new(), "ckbsecp256k1", Some(addr.clone())), CkbNetwork::Mainnet));
    let mut raw = hex::decode(&sig[2..]).unwrap();
    raw[64] = 7;
    assert!(!verify_message("c", data(hex::encode(raw), String::new(), "ckbsecp256k1", Some(addr)), CkbNetwork::Mainnet));
}

// ---- JoyID ----

fn b64url(b: &[u8]) -> String {
    base64::engine::general_purpose::URL_SAFE_NO_PAD.encode(b)
}

fn joyid_native(challenge: &str, raw_key: bool, alg: i16) -> (String, String) {
    let sk = p256::ecdsa::SigningKey::from_slice(&[5u8; 32]).unwrap();
    let point = p256::ecdsa::VerifyingKey::from(&sk).to_encoded_point(false);
    let key_bytes = point.as_bytes();
    let key_hex = if raw_key { hex::encode(&key_bytes[1..]) } else { hex::encode(key_bytes) };
    let auth_data = [0x49u8; 37];
    let client = format!("{{\"type\":\"webauthn.get\",\"challenge\":\"{}\"}}", b64url(challenge.as_bytes()));
    let mut message = auth_data.to_vec();
    message.extend_from_slice(client.as_bytes());
    let mut base = auth_data.to_vec();
    base.extend_from_slice(&sha2::Sha256::digest(client.as_bytes()));
    let sig: p256::ecdsa::Signature = sk.sign(&base);
    let identity = format!("{{\"keyType\":\"main_key\",\"publicKey\":\"{}\"}}", key_hex);
    let signature = format!(
        "{{\"signature\":\"{}\",\"message\":\"{}\",\"alg\":{}}}",
        b64url(sig.to_der().as_bytes()),
        b64url(&message),
        alg
    );
    (identity, signature)
}

#[test]
fn joyid_native_key_verifies_with_both_key_encodings() {
    for raw in [false, true] {
        let (identity, signature) = joyid_native("bind:42", raw, -7);
        assert!(utxo_gate::joyid::verify_signature("bind:42", JoyIdData { signature: signature.clone(), identity: identity.clone(), sign_type: "joyid".to_string() }));
        assert!(verify_message("bind:42", data(signature.clone(), identity.clone(), "joyid", None), CkbNetwork::Mainnet));
        assert!(!verify_message("bind:43", data(signature, identity, "joyid", None), CkbNetwork::Mainnet));
    }
}

#[test]
fn joyid_native_key_needs_es256() {
    let (identity, signature) = joyid_native("bind:42", false, -257);
    assert!(!verify_message("bind:42", data(signature, identity, "joyid", None), CkbNetwork::Mainnet));
}

#[test]
fn joyid_malformed_json_fails() {
    assert!(!verify_message("bind:42", data("{}".to_string(), "{}".to_string(), "joyid", None), CkbNetwork::Mainnet));
    assert!(!verify_message("bind:42", data("not json".to_string(), "[1]".to_string(), "joyid", None), CkbNetwork::Mainnet));
    let identity = "{\"keyType\":\"session_key\",\"publicKey\":\"01\"}".to_string();
    let signature = "{\"signature\":\"AA\",\"message\":\"AA\",\"alg\":-257}".to_string();
    assert!(!verify_message("bind:42", data(signature, identity, "joyid", None), CkbNetwork::Mainnet));
}

#[test]
fn joyid_json_fields_are_read() {
    let id = JoyIdIdentity::from("{\"keyType\":\"sub_key\",\"publicKey\":\"abcd\"}").unwrap();
    assert_eq!(id.key_type, "sub_key");
    assert_eq!(id.public_key, "abcd");
    let s = JoyIdSignature::from("{\"signature\":\"s\",\"message\":\"m\",\"alg\":-7}").unwrap();
    assert_eq!((s.signature.as_str(), s.message.as_str(), s.alg), ("s", "m", -7));
    assert!(JoyIdSignature::from("{\"signature\":\"s\",\"message\":\"m\",\"alg\":40000}").is_none());
    let d = JoyIdData::from("{\"signature\":\"a\",\"identity\":\"b\",\"signType\":\"joyid\"}").unwrap();
    assert_eq!((d.signature.as_str(), d.identity.as_str(), d.sign_type.as_str()), ("a", "b", "joyid"));
    assert!(JoyIdIdentity::from("{\"keyType\":\"sub_key\"}").is_none());
}

#[test]
fn signing_alg_codes() {
    assert_eq!(SigningAlg::ES256.code(), -7);
    assert_eq!(SigningAlg::RS256.code(), -257);
    assert_eq!(SigningAlg::from_code(-7), Some(SigningAlg::ES256));
    assert_eq!(SigningAlg::from_code(-257), Some(SigningAlg::RS256));
    assert_eq!(SigningAlg::from_code(0), None);
}

// ---- dispatch ----

#[test]
fn scheme_names_are_case_insensitive() {
    assert_eq!(parse_scheme("BtcEcdsa"), Some(SignatureScheme::BitcoinMessage));
    assert_eq!(parse_scheme("evmpersonal"), Some(SignatureScheme::EthereumPersonalSign));
    assert_eq!(parse_scheme("JOYID"), Some(SignatureScheme::WebAuthnAssertion));
    assert_eq!(parse_scheme("ckbSecp256k1"), Some(SignatureScheme::CkbRecoverable));
    assert_eq!(parse_scheme("DogeEcdsa"), Some(SignatureScheme::DogecoinMessage));
    assert_eq!(parse_scheme("rsa"), None);
    assert_eq!(parse_scheme(""), None);
}

#[test]
fn unknown_scheme_never_verifies() {
    let sk = secret(7);
    let d = data(eth_sign("bind:42", &sk), eth_address(&sk), "evm", None);
    assert!(!verify_message("bind:42", d, CkbNetwork::Mainnet));
}

fn rsa_test_key() -> rsa::RsaPrivateKey {
    let n = rsa::BigUint::parse_bytes(b"9353930466774385905609975137998169297361893554149986716853295022578535724979677252958524466350471210367835187480748268864277464700638583474144061408845077", 10).unwrap();
    let d = rsa::BigUint::parse_bytes(b"7266398431328116344057699379749222532279343923819063639497049039389899328538543087657733766554155839834519529439851673014800261285757759040931985506583861", 10).unwrap();
    let p = rsa::BigUint::parse_bytes(b"98920366548084643601728869055592650835572950932266967461790948584315647051443", 10).unwrap();
    let q = rsa::BigUint::parse_bytes(b"94560208308847015747498523884063394671606671904944666360068158221458669711639", 10).unwrap();
    rsa::RsaPrivateKey::from_components(n, rsa::BigUint::from(65537u32), d, vec![p, q]).unwrap()
}

fn joyid_session(challenge: &str, signed: &str) -> (String, String) {
    let key = rsa_test_key();
    let hashed = sha2::Sha256::digest(signed.as_bytes());
    let sig = key.sign(rsa::Pkcs1v15Sign::new::<sha2::Sha256>(), &hashed).unwrap();
    let mut blob = vec![0x01, 0x00, 0x01];
    blob.extend(rsa::traits::PublicKeyParts::n(&key).to_bytes_be());
    let identity = format!("{{\"keyType\":\"session_key\",\"publicKey\":\"{}\"}}", hex::encode(blob));
    let signature = format!("{{\"signature\":\"{}\",\"message\":\"{}\",\"alg\":-257}}", b64url(&sig), b64url(challenge.as_bytes()));
    (identity, signature)
}

#[test]
fn joyid_session_key_signs_the_challenge() {
    let (identity, signature) = joyid_session("bind:42", "bind:42");
    assert!(verify_message("bind:42", data(signature.clone(), identity.clone(), "joyid", None), CkbNetwork::Mainnet));
    assert!(!verify_message("bind:43", data(signature, identity, "joyid", None), CkbNetwork::Mainnet));
    let (identity, signature) = joyid_session("bind:42", "bind:41");
    assert!(!verify_message("bind:42", data(signature, identity, "joyid", None), CkbNetwork::Mainnet));
}

#[test]
fn submission_json_is_read() {
    let d = SignData::from("{\"signature\":\"0x12\",\"identity\":\"0xab\",\"signType\":\"evmpersonal\"}").unwrap();
    assert_eq!((d.signature.as_str(), d.identity.as_str(), d.sign_type.as_str()), ("0x12", "0xab", "evmpersonal"));
    assert_eq!(d.ckb_address, None);
    let d = SignData::from("{\"signature\":\"s\",\"identity\":\"i\",\"signType\":\"ckbsecp256k1\",\"ckbAddress\":\"ckt1q\"}").unwrap();
    assert_eq!(d.ckb_address, Some("ckt1q".to_string()));
    assert!(SignData::from("{\"signature\":\"s\",\"identity\":\"i\"}").is_none());
    assert!(SignData::from("{\"signature\":1,\"identity\":\"i\",\"signType\":\"t\"}").is_none());
    assert!(SignData::from("garbage").is_none());
}

#[test]
fn failures_are_told_apart() {
    let sk = secret(51);
    let addr = eth_address(&sk);
    let sig = eth_sign("bind:42", &sk);
    let net = CkbNetwork::Mainnet;
    assert_eq!(check_message("bind:42", &data(sig.clone(), addr.clone(), "evmpersonal", None), net), Ok(()));
    assert_eq!(check_message("bind:42", &data(sig.clone(), addr.clone(), "evm", None), net), Err(VerifyFailure::UnsupportedScheme));
    assert_eq!(check_message("bind:42", &data("0xnothex".to_string(), addr.clone(), "evmpersonal", None), net), Err(VerifyFailure::InvalidSignatureEncoding));
    assert_eq!(check_message("bind:42", &data(sig.clone(), "0xqq".to_string(), "evmpersonal", None), net), Err(VerifyFailure::InvalidSignatureEncoding));
    assert_eq!(check_message("bind:42", &data("0x00".to_string(), addr.clone(), "evmpersonal", None), net), Err(VerifyFailure::RecoveryFailure));
    assert_eq!(check_message("bind:42", &data(sig, eth_address(&secret(52)), "evmpersonal", None), net), Err(VerifyFailure::AddressMismatch));

    let bsk = secret(53);
    let baddr = p2pkh(0x00, &public_key(&bsk).serialize());
    let digest = message_digest(b"\x18Bitcoin Signed Message:\n", "hi");
    let (recid, compact) = sign_digest(&digest, &bsk);
    let bsig = message_signature(31 + recid, compact);
    assert_eq!(check_message("hi", &data(bsig.clone(), baddr, "btcecdsa", None), net), Ok(()));
    assert_eq!(check_message("hi", &data(bsig.clone(), "1111".to_string(), "btcecdsa", None), net), Err(VerifyFailure::InvalidSignatureEncoding));
    let other = p2pkh(0x00, &public_key(&secret(54)).serialize());
    assert_eq!(check_message("hi", &data(bsig, other, "btcecdsa", None), net), Err(VerifyFailure::AddressMismatch));

    let (identity, signature) = joyid_native("bind:42", false, -257);
    assert_eq!(check_message("bind:42", &data(signature, identity, "joyid", None), net), Err(VerifyFailure::UnsupportedScheme));
    let (identity, signature) = joyid_native("bind:42", false, -7);
    assert_eq!(check_message("bind:9", &data(signature, identity, "joyid", None), net), Err(VerifyFailure::RecoveryFailure));
    assert_eq!(check_message("c", &data("x".to_string(), String::new(), "ckbsecp256k1", None), net), Err(VerifyFailure::InvalidSignatureEncoding));
}
