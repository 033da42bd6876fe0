use stellar_baselib::account::Account;
use stellar_baselib::asset::Asset;
use stellar_baselib::get_liquidity_pool::LiquidityPool;
use stellar_baselib::hashing::hash;
use stellar_baselib::keypair::Keypair;
use stellar_baselib::memo::Memo;
use stellar_baselib::network::Networks;
use stellar_baselib::operation::Operation;
use stellar_baselib::operation::PaymentOpts;
use stellar_baselib::transaction_builder::TransactionBuilder;
use stellar_baselib::utils::decode_encode_muxed_account::decode_address_to_muxed_account;
use stellar_baselib::utils::decode_encode_muxed_account::decode_address_to_muxed_account_fix_for_g_address;
use stellar_baselib::utils::decode_encode_muxed_account::encode_muxed_account;
use stellar_baselib::utils::decode_encode_muxed_account::encode_muxed_account_to_address;
use stellar_baselib::utils::decode_encode_muxed_account::extract_base_address;
use stellar_baselib::xdr;

const G_ADDR: &str = "GDJJRRMBK4IWLEPJGIE6SXD2LP7REGZODU7WDC3I2D6MR37F4XSHBKX2";

#[test]
fn address_round_trips_both_ways() {
    // decode(encode(address)) gives the address back, and
    // encode(decode(text)) gives the text back, for both variants.
    let decoded = decode_address_to_muxed_account_fix_for_g_address(G_ADDR).unwrap();
    let text = encode_muxed_account_to_address(&decoded);
    assert_eq!(text, G_ADDR);

    let muxed = encode_muxed_account(G_ADDR, "420").unwrap();
    let m_text = encode_muxed_account_to_address(&muxed);
    assert!(m_text.starts_with('M'));
    let round = decode_address_to_muxed_account(&m_text).unwrap();
    assert_eq!(round.id, 420);
    let again = encode_muxed_account_to_address(&xdr::MuxedAccount::MuxedEd25519(round));
    assert_eq!(again, m_text);
}

#[test]
fn extract_base_address_reduces_muxed_to_plain() {
    assert_eq!(extract_base_address(G_ADDR).unwrap(), G_ADDR);
    let muxed = encode_muxed_account(G_ADDR, "1").unwrap();
    let m_text = encode_muxed_account_to_address(&muxed);
    assert_eq!(extract_base_address(&m_text).unwrap(), G_ADDR);
    let err = extract_base_address("garbage").unwrap_err();
    assert_eq!(err, "expected muxed account (M...), got garbage");
}

#[test]
fn encode_muxed_account_validates_inputs() {
    assert_eq!(
        encode_muxed_account("not an address", "1").unwrap_err(),
        "address should be a Stellar account ID (G...)"
    );
    assert_eq!(
        encode_muxed_account(G_ADDR, "12x").unwrap_err(),
        "id should be a string representing a number (uint64)"
    );
    assert_eq!(
        encode_muxed_account(G_ADDR, "18446744073709551616").unwrap_err(),
        "id should be a string representing a number (uint64)"
    );
    let m = encode_muxed_account(G_ADDR, "18446744073709551615").unwrap();
    match m {
        xdr::MuxedAccount::MuxedEd25519(mm) => assert_eq!(mm.id, u64::MAX),
        _ => panic!("expected the muxed variant"),
    }
}

#[test]
fn account_new_validates_inputs() {
    assert_eq!(
        Account::new("MA7QYNF7SOWQ3GLR2BGMZEHXAVIRZA4KVWLTJJFC7MGXUA74P7UJVAAAAAAAAAAAAAJLK", "1")
            .unwrap_err(),
        "accountId is invalid"
    );
    assert_eq!(Account::new(G_ADDR, "12x").unwrap_err(), "sequence is invalid");
    assert_eq!(Account::new(G_ADDR, "").unwrap_err(), "sequence is invalid");
    let account = Account::new(G_ADDR, "0").unwrap();
    assert_eq!(account.account_id(), G_ADDR);
}

#[test]
fn network_id_matches_known_testnet_hash() {
    let id = hash(Networks::testnet().as_bytes());
    assert_eq!(
        to_hex(&id),
        "cee0302d59844d32bdca915c8203dd44b33fbb7edc19051ea37abedf28ecd472"
    );
}

#[test]
fn liquidity_pool_id_is_deterministic_and_validated() {
    let issuer = [9u8; 32];
    let a = Asset::native();
    let b = Asset::CreditAlphanum4 { code: b"USD".to_vec(), issuer };

    let params = || xdr::LiquidityPoolParameters::LiquidityPoolConstantProduct(
        xdr::LiquidityPoolConstantProductParameters {
            asset_a: Asset::native(),
            asset_b: Asset::CreditAlphanum4 { code: b"USD".to_vec(), issuer },
            fee: 30,
        },
    );

    let id1 = LiquidityPool::get_liquidity_pool_id("constant_product", params()).unwrap();
    let id2 = LiquidityPool::get_liquidity_pool_id("constant_product", params()).unwrap();
    assert_eq!(id1, id2);
    assert_eq!(id1.len(), 32);

    // The identifier is the hash of discriminant plus parameter record.
    let mut payload = vec![0u8, 0, 0, 0];
    payload.extend_from_slice(&xdr::enc_asset(&a));
    payload.extend_from_slice(&xdr::enc_asset(&b));
    payload.extend_from_slice(&[0u8, 0, 0, 30]);
    assert_eq!(id1, hash(&payload));

    let bad_type = LiquidityPool::get_liquidity_pool_id("stable", params()).unwrap_err();
    assert_eq!(bad_type, "liquidityPoolType is invalid");

    let bad_fee = xdr::LiquidityPoolParameters::LiquidityPoolConstantProduct(
        xdr::LiquidityPoolConstantProductParameters {
            asset_a: Asset::native(),
            asset_b: Asset::CreditAlphanum4 { code: b"USD".to_vec(), issuer },
            fee: 29,
        },
    );
    assert_eq!(
        LiquidityPool::get_liquidity_pool_id("constant_product", bad_fee).unwrap_err(),
        "fee is invalid"
    );

    let unordered = xdr::LiquidityPoolParameters::LiquidityPoolConstantProduct(
        xdr::LiquidityPoolConstantProductParameters {
            asset_a: Asset::CreditAlphanum4 { code: b"USD".to_vec(), issuer },
            asset_b: Asset::native(),
            fee: 30,
        },
    );
    assert_eq!(
        LiquidityPool::get_liquidity_pool_id("constant_product", unordered).unwrap_err(),
        "Assets are not in lexicographic order"
    );
}

#[test]
fn signing_payload_binds_network_and_rejects_tampering() {
    let source = Account::new("GCEZWKCA5VLDNRLN3RPRJMRZOX3Z6G5CHCGSNFHEYVXM3XOJMDS674JZ", "0")
        .unwrap();
    let signer = Keypair::master(Some(Networks::testnet())).unwrap();
    let mut builder = TransactionBuilder::new(source, Networks::testnet(), None);
    builder.fee(100_u32);
    builder.add_operation(
        Operation::create_account(G_ADDR.to_string(), 25000000, None).unwrap(),
    );
    let mut tx = builder.build().unwrap();
    tx.sign(&[signer.clone()]);
    assert_eq!(tx.signatures.len(), 1);
    assert_eq!(tx.signatures[0].hint.len(), 4);

    // The honest signature verifies against the signing payload.
    assert!(signer.verify(&tx.hash(), &tx.signatures[0].signature));

    // A tampered transaction produces a different payload that the
    // old signature does not verify against.
    let mut tampered = tx.hash();
    tampered[0] ^= 1;
    assert!(!signer.verify(&tampered, &tx.signatures[0].signature));

    // Signing binds the network: the payload differs between networks.
    let source2 = Account::new("GCEZWKCA5VLDNRLN3RPRJMRZOX3Z6G5CHCGSNFHEYVXM3XOJMDS674JZ", "0")
        .unwrap();
    let mut builder2 = TransactionBuilder::new(source2, Networks::public(), None);
    builder2.fee(100_u32);
    builder2.add_operation(
        Operation::create_account(G_ADDR.to_string(), 25000000, None).unwrap(),
    );
    let tx2 = builder2.build().unwrap();
    assert_ne!(tx.hash(), tx2.hash());
}

#[test]
fn resigning_appends_rather_than_replaces() {
    let source = Account::new("GCEZWKCA5VLDNRLN3RPRJMRZOX3Z6G5CHCGSNFHEYVXM3XOJMDS674JZ", "0")
        .unwrap();
    let signer = Keypair::master(Some(Networks::testnet())).unwrap();
    let mut builder = TransactionBuilder::new(source, Networks::testnet(), None);
    builder.fee(100_u32);
    builder.add_operation(
        Operation::create_account(G_ADDR.to_string(), 25000000, None).unwrap(),
    );
    let mut tx = builder.build().unwrap();
    tx.sign(&[signer.clone()]);
    tx.sign(&[signer.clone()]);
    assert_eq!(tx.signatures.len(), 2);
    assert_eq!(tx.signatures[0].signature, tx.signatures[1].signature);
}

#[test]
fn transaction_bytes_match_the_reference_encoder() {
    let source = Account::new("GCEZWKCA5VLDNRLN3RPRJMRZOX3Z6G5CHCGSNFHEYVXM3XOJMDS674JZ", "0")
        .unwrap();
    let source_pk = source.pk;
    let mut builder = TransactionBuilder::new(
        source,
        Networks::testnet(),
        Some(xdr::TimeBounds { min_time: 1455287522, max_time: 1455297545 }),
    );
    builder.fee(100_u32);
    builder.add_operation(
        Operation::payment(PaymentOpts {
            destination: G_ADDR.to_string(),
            asset: Asset::native(),
            amount: "1000".to_string(),
            source: None,
        })
        .unwrap(),
    );
    builder.add_memo("100").unwrap();
    let tx = builder.build().unwrap();
    let our_bytes = tx.tx_xdr();

    // The same transaction through the reference XDR crate.
    let dest_pk = match decode_address_to_muxed_account_fix_for_g_address(G_ADDR).unwrap() {
        xdr::MuxedAccount::Ed25519(k) => k.0,
        _ => panic!("expected a plain key"),
    };
    let ref_tx = stellar_xdr::next::Transaction {
        source_account: stellar_xdr::next::MuxedAccount::Ed25519(stellar_xdr::next::Uint256(
            source_pk,
        )),
        fee: 100,
        seq_num: stellar_xdr::next::SequenceNumber(1),
        cond: stellar_xdr::next::Preconditions::Time(stellar_xdr::next::TimeBounds {
            min_time: stellar_xdr::next::TimePoint(1455287522),
            max_time: stellar_xdr::next::TimePoint(1455297545),
        }),
        memo: stellar_xdr::next::Memo::Text("100".as_bytes().to_vec().try_into().unwrap()),
        operations: vec![stellar_xdr::next::Operation {
            source_account: None,
            body: stellar_xdr::next::OperationBody::Payment(stellar_xdr::next::PaymentOp {
                destination: stellar_xdr::next::MuxedAccount::Ed25519(
                    stellar_xdr::next::Uint256(dest_pk),
                ),
                asset: stellar_xdr::next::Asset::Native,
                amount: 10000000000,
            }),
        }]
        .try_into()
        .unwrap(),
        ext: stellar_xdr::next::TransactionExt::V0,
    };
    let ref_bytes =
        stellar_xdr::next::WriteXdr::to_xdr(&ref_tx, stellar_xdr::next::Limits::none()).unwrap();
    assert_eq!(our_bytes, ref_bytes);

    // The envelope bytes match as well.
    let ref_env = stellar_xdr::next::TransactionEnvelope::Tx(
        stellar_xdr::next::TransactionV1Envelope {
            tx: ref_tx,
            signatures: Vec::new().try_into().unwrap(),
        },
    );
    let ref_env_bytes =
        stellar_xdr::next::WriteXdr::to_xdr(&ref_env, stellar_xdr::next::Limits::none()).unwrap();
    assert_eq!(tx.to_envelope_xdr(), ref_env_bytes);
}

#[test]
fn memo_variants_encode_as_expected() {
    assert_eq!(xdr::enc_memo(&Memo::NoMemo), vec![0, 0, 0, 0]);
    assert_eq!(
        xdr::enc_memo(&Memo::Text(b"hey".to_vec())),
        vec![0, 0, 0, 1, 0, 0, 0, 3, b'h', b'e', b'y', 0]
    );
    assert_eq!(
        xdr::enc_memo(&Memo::Id(258)),
        vec![0, 0, 0, 2, 0, 0, 0, 0, 0, 0, 1, 2]
    );
}

#[test]
fn keypair_signs_deterministically() {
    let signer = Keypair::master(Some(Networks::testnet())).unwrap();
    let other = Keypair::master(Some(Networks::public())).unwrap();
    let msg = b"hello";
    let s1 = signer.sign(msg);
    let s2 = signer.sign(msg);
    assert_eq!(s1, s2);
    assert_eq!(s1.len(), 64);
    assert!(signer.verify(msg, &s1));
    assert!(!other.verify(msg, &s1));
    let hint = signer.signature_hint();
    assert_eq!(hint.len(), 4);

    // The master key's seed is the hash of the passphrase.
    assert_eq!(signer.seed, hash(Networks::testnet().as_bytes()));
}

fn to_hex(bytes: &[u8]) -> String {
    hex::encode(bytes)
}

#[test]
fn corrupted_checksum_is_rejected() {
    // Flip the last character of a valid address: the embedded
    // checksum no longer validates and every decode path refuses it.
    let mut corrupted = String::from(&G_ADDR[..G_ADDR.len() - 1]);
    corrupted.push(if G_ADDR.ends_with('2') { '3' } else { '2' });
    assert!(decode_address_to_muxed_account_fix_for_g_address(&corrupted).is_err());
    assert!(Account::new(&corrupted, "0").is_err());
}

#[test]
fn keypair_constructors_validate() {
    assert_eq!(Keypair::master(None).unwrap_err(), "no network selected");
    assert_eq!(
        Keypair::from_raw_ed25519_seed(&[1u8; 31]).unwrap_err(),
        "seed is invalid"
    );
    let kp = Keypair::from_raw_ed25519_seed(&[1u8; 32]).unwrap();
    let address = kp.public_key();
    assert!(address.starts_with('G'));
    assert_eq!(address.len(), 56);
}
