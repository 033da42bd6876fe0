use stellar_baselib::account::Account;
use stellar_baselib::asset::Asset;
use stellar_baselib::keypair::Keypair;
use stellar_baselib::network::Networks;
use stellar_baselib::operation::Operation;
use stellar_baselib::operation::PaymentOpts;
use stellar_baselib::transaction_builder::TransactionBuilder;
use stellar_baselib::transaction_builder::TIMEOUT_INFINITE;
use stellar_baselib::xdr::TimeBounds;

#[test]
fn test_creates_and_signs() {
    let source = Account::new("GBBM6BKZPEHWYO3E3YKREDPQXMS4VK35YLNU7NFBRI26RAN7GI5POFBB", "20")
        .unwrap();

    let destination = "GDJJRRMBK4IWLEPJGIE6SXD2LP7REGZODU7WDC3I2D6MR37F4XSHBKX2".to_string();
    let signer = Keypair::master(Some(Networks::testnet())).unwrap();
    let mut builder = TransactionBuilder::new(source, Networks::testnet(), None);
    builder.fee(100_u32);
    builder.add_operation(Operation::create_account(destination, 10, None).unwrap());
    let mut tx = builder.build().unwrap();

    tx.sign(&[signer.clone()]);
    let sig = &tx.signatures[0].signature;
    let verified = signer.verify(&tx.hash(), sig);
    assert_eq!(verified, true);
}

#[test]
fn test_constructs_native_payment_transaction() {
    let source = Account::new("GCEZWKCA5VLDNRLN3RPRJMRZOX3Z6G5CHCGSNFHEYVXM3XOJMDS674JZ", "0")
        .unwrap();

    let destination = "GDJJRRMBK4IWLEPJGIE6SXD2LP7REGZODU7WDC3I2D6MR37F4XSHBKX2".to_string();
    let amount = "1000".to_string();
    let asset = Asset::native();
    let mut builder = TransactionBuilder::new(source, Networks::testnet(), None);

    builder.fee(100_u32);
    builder.add_operation(
        Operation::payment(PaymentOpts {
            destination: destination.to_owned(),
            asset,
            amount: amount.to_owned(),
            source: None,
        })
        .unwrap(),
    );
    builder.add_memo("100").unwrap();
    builder.set_timeout(TIMEOUT_INFINITE).unwrap();

    let transaction = builder.build().unwrap();

    assert_eq!(transaction.source, builder.source_account().account_id());
    assert_eq!(transaction.sequence, "1");
    assert_eq!(builder.source_account().sequence_number(), "1");
    assert_eq!(transaction.operations.len(), 1);
    assert_eq!(transaction.fee, 100);
}

#[test]
fn test_constructs_native_payment_transaction_with_two_operations() {
    let source = Account::new("GCEZWKCA5VLDNRLN3RPRJMRZOX3Z6G5CHCGSNFHEYVXM3XOJMDS674JZ", "0")
        .unwrap();

    let destination1 = "GDJJRRMBK4IWLEPJGIE6SXD2LP7REGZODU7WDC3I2D6MR37F4XSHBKX2".to_string();
    let amount1 = "1000".to_string();
    let destination2 = "GC6ACGSA2NJGD6YWUNX2BYBL3VM4MZRSEU2RLIUZZL35NLV5IAHAX2E2".to_string();
    let amount2 = "2000".to_string();

    let asset = Asset::native();
    let asset2 = Asset::native();

    let mut builder = TransactionBuilder::new(source, Networks::testnet(), None);

    builder.fee(100_u32);
    builder.add_operation(
        Operation::payment(PaymentOpts {
            destination: destination1.to_owned(),
            asset,
            amount: amount1.to_owned(),
            source: None,
        })
        .unwrap(),
    );
    builder.add_operation(
        Operation::payment(PaymentOpts {
            destination: destination2.to_owned(),
            asset: asset2,
            amount: amount2.to_owned(),
            source: None,
        })
        .unwrap(),
    );
    builder.set_timeout(TIMEOUT_INFINITE).unwrap();

    let transaction = builder.build().unwrap();

    // Should have the same source account
    assert_eq!(transaction.source, builder.source_account().account_id());

    // Should have the incremented sequence number
    assert_eq!(transaction.sequence, "1");

    // Should increment the account's sequence number
    assert_eq!(builder.source_account().sequence_number(), "1");

    // Should have two payment operations, in submission order
    assert_eq!(transaction.operations.len(), 2);
    assert_eq!(transaction.operations[0].op_type(), "payment");
    assert_eq!(transaction.operations[1].op_type(), "payment");

    // Should have 200 stroops fee (100 per operation)
    assert_eq!(transaction.fee, 200);
}

#[test]
fn constructs_native_payment_transaction_with_custom_base_fee() {
    let source = Account::new("GCEZWKCA5VLDNRLN3RPRJMRZOX3Z6G5CHCGSNFHEYVXM3XOJMDS674JZ", "0")
        .unwrap();

    let destination1 = "GDJJRRMBK4IWLEPJGIE6SXD2LP7REGZODU7WDC3I2D6MR37F4XSHBKX2".to_string();
    let amount1 = "1000".to_string();
    let destination2 = "GC6ACGSA2NJGD6YWUNX2BYBL3VM4MZRSEU2RLIUZZL35NLV5IAHAX2E2".to_string();
    let amount2 = "2000".to_string();

    let mut builder = TransactionBuilder::new(source, Networks::testnet(), None);
    builder.fee(1000_u32);
    builder.add_operation(
        Operation::payment(PaymentOpts {
            destination: destination1,
            asset: Asset::native(),
            amount: amount1,
            source: None,
        })
        .unwrap(),
    );
    builder.add_operation(
        Operation::payment(PaymentOpts {
            destination: destination2,
            asset: Asset::native(),
            amount: amount2,
            source: None,
        })
        .unwrap(),
    );
    builder.set_timeout(TIMEOUT_INFINITE).unwrap();
    let transaction = builder.build().unwrap();

    // The total fee is 2000 stroops (1000 per operation, 2 operations)
    assert_eq!(transaction.fee, 2000);
}

#[test]
fn constructs_native_payment_transaction_with_integer_timebounds() {
    let source = Account::new("GCEZWKCA5VLDNRLN3RPRJMRZOX3Z6G5CHCGSNFHEYVXM3XOJMDS674JZ", "0")
        .unwrap();

    let timebounds = TimeBounds { min_time: 1455287522, max_time: 1455297545 };

    let mut builder = TransactionBuilder::new(source, Networks::testnet(), Some(timebounds));
    builder.fee(100_u32);
    builder.add_operation(
        Operation::payment(PaymentOpts {
            destination: "GDJJRRMBK4IWLEPJGIE6SXD2LP7REGZODU7WDC3I2D6MR37F4XSHBKX2".to_string(),
            asset: Asset::native(),
            amount: "1000".to_string(),
            source: None,
        })
        .unwrap(),
    );

    builder.set_time_bounds(timebounds);

    let transaction = builder.build().unwrap();

    assert_eq!(transaction.time_bounds.as_ref().unwrap().min_time, timebounds.min_time);
    assert_eq!(transaction.time_bounds.as_ref().unwrap().max_time, timebounds.max_time);
}

#[test]
fn build_rejects_fee_overflow() {
    let source = Account::new("GCEZWKCA5VLDNRLN3RPRJMRZOX3Z6G5CHCGSNFHEYVXM3XOJMDS674JZ", "0")
        .unwrap();
    let mut builder = TransactionBuilder::new(source, Networks::testnet(), None);
    builder.fee(u32::MAX);
    for _ in 0..2 {
        builder.add_operation(
            Operation::payment(PaymentOpts {
                destination: "GDJJRRMBK4IWLEPJGIE6SXD2LP7REGZODU7WDC3I2D6MR37F4XSHBKX2"
                    .to_string(),
                asset: Asset::native(),
                amount: "1".to_string(),
                source: None,
            })
            .unwrap(),
        );
    }
    assert_eq!(builder.build().unwrap_err(), "fee overflow");
    // A failed build leaves the account's sequence number unchanged.
    assert_eq!(builder.source_account().sequence_number(), "0");
}

#[test]
fn build_rejects_missing_fee_and_empty_operations() {
    let source = Account::new("GCEZWKCA5VLDNRLN3RPRJMRZOX3Z6G5CHCGSNFHEYVXM3XOJMDS674JZ", "7")
        .unwrap();
    let mut builder = TransactionBuilder::new(source, Networks::testnet(), None);
    assert_eq!(builder.build().unwrap_err(), "fee is not set");
    builder.fee(100_u32);
    assert_eq!(
        builder.build().unwrap_err(),
        "transaction must contain at least one operation"
    );
    assert_eq!(builder.source_account().sequence_number(), "7");
}

#[test]
fn build_rejects_sequence_overflow() {
    let source = Account::new(
        "GCEZWKCA5VLDNRLN3RPRJMRZOX3Z6G5CHCGSNFHEYVXM3XOJMDS674JZ",
        "9223372036854775807",
    )
    .unwrap();
    let mut builder = TransactionBuilder::new(source, Networks::testnet(), None);
    builder.fee(100_u32);
    builder.add_operation(
        Operation::payment(PaymentOpts {
            destination: "GDJJRRMBK4IWLEPJGIE6SXD2LP7REGZODU7WDC3I2D6MR37F4XSHBKX2".to_string(),
            asset: Asset::native(),
            amount: "1".to_string(),
            source: None,
        })
        .unwrap(),
    );
    assert_eq!(builder.build().unwrap_err(), "sequence number overflow");
    assert_eq!(builder.source_account().sequence_number(), "9223372036854775807");
}

#[test]
fn sequence_increment_carries_over_nines() {
    let mut account =
        Account::new("GCEZWKCA5VLDNRLN3RPRJMRZOX3Z6G5CHCGSNFHEYVXM3XOJMDS674JZ", "99").unwrap();
    account.increment_sequence_number();
    assert_eq!(account.sequence_number(), "100");
    let mut account2 = Account::new(
        "GCEZWKCA5VLDNRLN3RPRJMRZOX3Z6G5CHCGSNFHEYVXM3XOJMDS674JZ",
        "123456789012345678901234567889999",
    )
    .unwrap();
    account2.increment_sequence_number();
    assert_eq!(account2.sequence_number(), "123456789012345678901234567890000");
}

#[test]
fn set_timeout_refuses_existing_upper_bound() {
    let source = Account::new("GCEZWKCA5VLDNRLN3RPRJMRZOX3Z6G5CHCGSNFHEYVXM3XOJMDS674JZ", "0")
        .unwrap();
    let timebounds = TimeBounds { min_time: 0, max_time: 1455297545 };
    let mut builder = TransactionBuilder::new(source, Networks::testnet(), Some(timebounds));
    assert_eq!(
        builder.set_timeout(100).unwrap_err(),
        "TimeBounds.max_time has been already set - setting timeout would overwrite it."
    );
    assert_eq!(builder.set_timeout(-5).unwrap_err(), "TimeBounds.max_time has been already set - setting timeout would overwrite it.");
}

#[test]
fn set_timeout_at_sets_exact_expiry() {
    let source = Account::new("GCEZWKCA5VLDNRLN3RPRJMRZOX3Z6G5CHCGSNFHEYVXM3XOJMDS674JZ", "0")
        .unwrap();
    let mut builder = TransactionBuilder::new(
        source,
        Networks::testnet(),
        Some(TimeBounds { min_time: 42, max_time: 0 }),
    );
    assert_eq!(builder.set_timeout_at(-1, 1000).unwrap_err(), "timeout cannot be negative");
    builder.set_timeout_at(300, 1000).unwrap();
    // The lower bound is preserved and the upper bound is exactly
    // current time plus the timeout.
    let mut builder2 = TransactionBuilder::new(
        Account::new("GCEZWKCA5VLDNRLN3RPRJMRZOX3Z6G5CHCGSNFHEYVXM3XOJMDS674JZ", "0").unwrap(),
        Networks::testnet(),
        Some(TimeBounds { min_time: 42, max_time: 0 }),
    );
    builder2.set_timeout_at(300, 1000).unwrap();
    builder2.fee(100_u32);
    builder2.add_operation(
        Operation::payment(PaymentOpts {
            destination: "GDJJRRMBK4IWLEPJGIE6SXD2LP7REGZODU7WDC3I2D6MR37F4XSHBKX2".to_string(),
            asset: Asset::native(),
            amount: "1".to_string(),
            source: None,
        })
        .unwrap(),
    );
    let tx = builder2.build().unwrap();
    assert_eq!(tx.time_bounds.as_ref().unwrap().min_time, 42);
    assert_eq!(tx.time_bounds.as_ref().unwrap().max_time, 1300);
}

#[test]
fn add_memo_rejects_long_text() {
    let source = Account::new("GCEZWKCA5VLDNRLN3RPRJMRZOX3Z6G5CHCGSNFHEYVXM3XOJMDS674JZ", "0")
        .unwrap();
    let mut builder = TransactionBuilder::new(source, Networks::testnet(), None);
    assert_eq!(
        builder.add_memo("this memo text is far too long to fit").unwrap_err(),
        "memo text is too long"
    );
    builder.add_memo("100").unwrap();
}

#[test]
fn build_rejects_more_than_a_hundred_operations() {
    let source = Account::new("GCEZWKCA5VLDNRLN3RPRJMRZOX3Z6G5CHCGSNFHEYVXM3XOJMDS674JZ", "0")
        .unwrap();
    let mut builder = TransactionBuilder::new(source, Networks::testnet(), None);
    builder.fee(100_u32);
    for _ in 0..101 {
        builder.add_operation(
            Operation::new(None)
                .account_merge(
                    "GDJJRRMBK4IWLEPJGIE6SXD2LP7REGZODU7WDC3I2D6MR37F4XSHBKX2".to_string(),
                )
                .unwrap(),
        );
    }
    assert_eq!(builder.build().unwrap_err(), "too many operations");
    assert_eq!(builder.source_account().sequence_number(), "0");
}

#[test]
fn set_timeout_from_clock_sets_an_upper_bound() {
    let source = Account::new("GCEZWKCA5VLDNRLN3RPRJMRZOX3Z6G5CHCGSNFHEYVXM3XOJMDS674JZ", "0")
        .unwrap();
    let mut builder = TransactionBuilder::new(source, Networks::testnet(), None);
    builder.set_timeout(100).unwrap();
    // The upper bound lies at least the timeout past some clock
    // reading; in particular it is non-zero now.
    match builder.build() {
        Err(e) => assert_eq!(e, "fee is not set"),
        Ok(_) => panic!("build without a fee must fail"),
    }
}

#[test]
fn operation_source_override_is_carried_unchanged() {
    let source_addr = "GAQODVWAY3AYAGEAT4CG3YSPM4FBTBB2QSXCYJLM3HVIV5ILTP5BRXCD";
    let op = Operation::new(Some(source_addr.to_string()))
        .account_merge("GDJJRRMBK4IWLEPJGIE6SXD2LP7REGZODU7WDC3I2D6MR37F4XSHBKX2".to_string())
        .unwrap();
    assert!(op.source_account.is_some());
    let bad = Operation::new(Some("nonsense".to_string()))
        .account_merge("GDJJRRMBK4IWLEPJGIE6SXD2LP7REGZODU7WDC3I2D6MR37F4XSHBKX2".to_string());
    assert_eq!(bad.unwrap_err(), "source is invalid");
}
