//! Canonical wire-format records and their byte encodings.
//!
//! Every record the library submits to the network is encoded here. The
//! `spec_enc_*` functions define the exact byte layout — big-endian
//! integers, discriminant-tagged unions, zero-padded opaques — and each
//! executable encoder is proved to produce exactly those bytes.
use vstd::prelude::*;
use vstd::slice::slice_to_vec;

use crate::asset::Asset;
use crate::asset::spec_code;
use crate::asset::spec_issuer;
use crate::asset::wf_asset;
use crate::memo::Memo;
use crate::memo::wf_memo;

verus! {

/// A 32-byte value: an ed25519 public key on the wire.
#[derive(Clone, Copy, Debug)]
pub struct Uint256(pub [u8; 32]);

/// The muxed part of a multiplexed account: a 64-bit sub-account id over
/// an ed25519 key.
#[derive(Clone, Copy, Debug)]
pub struct MuxedAccountMed25519 {
    pub id: u64,
    pub ed25519: Uint256,
}

/// An account field that either names a key directly or multiplexes it
/// with a sub-account id.
#[derive(Clone, Copy, Debug)]
pub enum MuxedAccount {
    Ed25519(Uint256),
    MuxedEd25519(MuxedAccountMed25519),
}

/// An account identifier: always a plain ed25519 key.
#[derive(Clone, Copy, Debug)]
pub struct AccountId(pub Uint256);

/// The closed time interval in which a transaction is valid; a zero
/// upper bound means no expiry.
#[derive(Clone, Copy, Debug)]
pub struct TimeBounds {
    pub min_time: u64,
    pub max_time: u64,
}

/// Creates and funds a new account.
#[derive(Debug)]
pub struct CreateAccountOp {
    pub destination: AccountId,
    pub starting_balance: i64,
}

/// Sends an amount of an asset to a destination account.
#[derive(Debug)]
pub struct PaymentOp {
    pub destination: MuxedAccount,
    pub asset: Asset,
    pub amount: i64,
}

/// The per-kind payload of an operation.
#[derive(Debug)]
pub enum OperationBody {
    CreateAccount(CreateAccountOp),
    Payment(PaymentOp),
    AccountMerge(MuxedAccount),
}

/// One operation record: an optional per-operation source override plus
/// the kind-specific body.
#[derive(Debug)]
pub struct Operation {
    pub source_account: Option<MuxedAccount>,
    pub body: OperationBody,
}

/// The parameters of a constant-product liquidity pool: the asset pair
/// and the pool fee in basis points.
#[derive(Debug)]
pub struct LiquidityPoolConstantProductParameters {
    pub asset_a: Asset,
    pub asset_b: Asset,
    pub fee: i32,
}

/// Liquidity pool parameters; only the constant-product kind exists.
#[derive(Debug)]
pub enum LiquidityPoolParameters {
    LiquidityPoolConstantProduct(LiquidityPoolConstantProductParameters),
}

/// A signature paired with the four-byte hint that names its signer.
#[derive(Debug)]
pub struct DecoratedSignature {
    pub hint: Vec<u8>,
    pub signature: Vec<u8>,
}

impl Operation {
    /// The conventional name of the operation's kind.
    pub fn op_type(&self) -> (r: &'static str)
        ensures
            self.body is CreateAccount ==> r@ == "createAccount"@,
            self.body is Payment ==> r@ == "payment"@,
            self.body is AccountMerge ==> r@ == "accountMerge"@,
    {
        match &self.body {
            OperationBody::CreateAccount(_) => "createAccount",
            OperationBody::Payment(_) => "payment",
            OperationBody::AccountMerge(_) => "accountMerge",
        }
    }
}

// ---------------------------------------------------------------------
// Well-formedness
// ---------------------------------------------------------------------

/// Amounts are positive, balances non-negative, assets well-formed: what
/// the operation builders establish and the encoders rely on.
pub open spec fn wf_operation(op: Operation) -> bool {
    match op.body {
        OperationBody::CreateAccount(c) => c.starting_balance >= 0,
        OperationBody::Payment(p) => p.amount > 0 && wf_asset(p.asset),
        OperationBody::AccountMerge(_) => true,
    }
}

pub open spec fn wf_decorated_signature(ds: DecoratedSignature) -> bool {
    ds.hint@.len() == 4 && ds.signature@.len() <= 64
}

// ---------------------------------------------------------------------
// Byte-layout specification
// ---------------------------------------------------------------------

/// Big-endian bytes of a 32-bit word.
pub open spec fn spec_be32(v: u32) -> Seq<u8> {
    seq![
        ((v as nat / 0x1000000) % 256) as u8,
        ((v as nat / 0x10000) % 256) as u8,
        ((v as nat / 0x100) % 256) as u8,
        ((v as nat) % 256) as u8,
    ]
}

/// Big-endian bytes of a 64-bit word.
pub open spec fn spec_be64(v: u64) -> Seq<u8> {
    seq![
        ((v as nat / 0x100000000000000) % 256) as u8,
        ((v as nat / 0x1000000000000) % 256) as u8,
        ((v as nat / 0x10000000000) % 256) as u8,
        ((v as nat / 0x100000000) % 256) as u8,
        ((v as nat / 0x1000000) % 256) as u8,
        ((v as nat / 0x10000) % 256) as u8,
        ((v as nat / 0x100) % 256) as u8,
        ((v as nat) % 256) as u8,
    ]
}

/// Length of the zero padding that rounds `n` bytes up to a multiple of
/// four, as the wire format demands of variable-length opaques.
pub open spec fn spec_pad_len(n: nat) -> nat {
    (((4 - (n as int % 4)) % 4)) as nat
}

pub open spec fn spec_zeros(n: nat) -> Seq<u8> {
    Seq::new(n, |i: int| 0u8)
}

/// A variable-length opaque: 4-byte length, the bytes, zero padding.
pub open spec fn spec_enc_var_opaque(b: Seq<u8>) -> Seq<u8> {
    spec_be32(b.len() as u32) + b + spec_zeros(spec_pad_len(b.len()))
}

/// A non-negative 32-bit signed value encodes as its unsigned bytes.
pub open spec fn spec_enc_i32(v: i32) -> Seq<u8>
    recommends
        v >= 0,
{
    spec_be32(v as u32)
}

/// A non-negative 64-bit signed value encodes as its unsigned bytes.
pub open spec fn spec_enc_i64(v: i64) -> Seq<u8>
    recommends
        v >= 0,
{
    spec_be64(v as u64)
}

pub open spec fn spec_enc_muxed(m: MuxedAccount) -> Seq<u8> {
    match m {
        MuxedAccount::Ed25519(k) => spec_be32(0) + k.0@,
        MuxedAccount::MuxedEd25519(mm) => spec_be32(0x100) + spec_be64(mm.id) + mm.ed25519.0@,
    }
}

pub open spec fn spec_enc_account_id(a: AccountId) -> Seq<u8> {
    spec_be32(0) + a.0.0@
}

/// An asset code padded with zero bytes to its fixed wire length.
pub open spec fn spec_padded_code(code: Seq<u8>, n: nat) -> Seq<u8> {
    Seq::new(
        n,
        |i: int|
            if i < code.len() {
                code[i]
            } else {
                0u8
            },
    )
}

pub open spec fn spec_enc_asset(a: Asset) -> Seq<u8> {
    match a {
        Asset::Native => spec_be32(0),
        Asset::CreditAlphanum4 { .. } => spec_be32(1) + spec_padded_code(spec_code(a), 4)
            + spec_be32(0) + spec_issuer(a),
        Asset::CreditAlphanum12 { .. } => spec_be32(2) + spec_padded_code(spec_code(a), 12)
            + spec_be32(0) + spec_issuer(a),
    }
}

pub open spec fn spec_enc_memo(m: Memo) -> Seq<u8> {
    match m {
        Memo::NoMemo => spec_be32(0),
        Memo::Text(t) => spec_be32(1) + spec_enc_var_opaque(t@),
        Memo::Id(i) => spec_be32(2) + spec_be64(i),
    }
}

pub open spec fn spec_enc_time_bounds(tb: TimeBounds) -> Seq<u8> {
    spec_be64(tb.min_time) + spec_be64(tb.max_time)
}

/// Preconditions: none, or a time-bounds interval.
pub open spec fn spec_enc_cond(c: Option<TimeBounds>) -> Seq<u8> {
    match c {
        Option::None => spec_be32(0),
        Option::Some(tb) => spec_be32(1) + spec_enc_time_bounds(tb),
    }
}

pub open spec fn spec_enc_op_body(b: OperationBody) -> Seq<u8> {
    match b {
        OperationBody::CreateAccount(c) => spec_be32(0) + spec_enc_account_id(c.destination)
            + spec_enc_i64(c.starting_balance),
        OperationBody::Payment(p) => spec_be32(1) + spec_enc_muxed(p.destination) + spec_enc_asset(
            p.asset,
        ) + spec_enc_i64(p.amount),
        OperationBody::AccountMerge(m) => spec_be32(8) + spec_enc_muxed(m),
    }
}

pub open spec fn spec_enc_operation(op: Operation) -> Seq<u8> {
    (match op.source_account {
        Option::None => spec_be32(0),
        Option::Some(m) => spec_be32(1) + spec_enc_muxed(m),
    }) + spec_enc_op_body(op.body)
}

/// The concatenated encodings of a sequence of operations, in order.
pub open spec fn spec_enc_op_seq(ops: Seq<Operation>) -> Seq<u8>
    decreases ops.len(),
{
    if ops.len() == 0 {
        Seq::empty()
    } else {
        spec_enc_op_seq(ops.drop_last()) + spec_enc_operation(ops.last())
    }
}

pub open spec fn spec_enc_decorated_signature(ds: DecoratedSignature) -> Seq<u8> {
    ds.hint@ + spec_enc_var_opaque(ds.signature@)
}

pub open spec fn spec_enc_sig_seq(sigs: Seq<DecoratedSignature>) -> Seq<u8>
    decreases sigs.len(),
{
    if sigs.len() == 0 {
        Seq::empty()
    } else {
        spec_enc_sig_seq(sigs.drop_last()) + spec_enc_decorated_signature(sigs.last())
    }
}

// ---------------------------------------------------------------------
// Executable encoders
// ---------------------------------------------------------------------

pub fn enc_u32(v: u32) -> (r: Vec<u8>)
    ensures
        r@ == spec_be32(v),
{
    let mut r: Vec<u8> = Vec::new();
    r.push((v / 0x1000000) as u8);
    r.push(((v / 0x10000) % 256) as u8);
    r.push(((v / 0x100) % 256) as u8);
    r.push((v % 256) as u8);
    proof {
        assert(r@ =~= spec_be32(v));
    }
    r
}

pub fn enc_u64(v: u64) -> (r: Vec<u8>)
    ensures
        r@ == spec_be64(v),
{
    let mut r: Vec<u8> = Vec::new();
    r.push((v / 0x100000000000000) as u8);
    r.push(((v / 0x1000000000000) % 256) as u8);
    r.push(((v / 0x10000000000) % 256) as u8);
    r.push(((v / 0x100000000) % 256) as u8);
    r.push(((v / 0x1000000) % 256) as u8);
    r.push(((v / 0x10000) % 256) as u8);
    r.push(((v / 0x100) % 256) as u8);
    r.push((v % 256) as u8);
    proof {
        assert(r@ =~= spec_be64(v));
    }
    r
}

pub fn enc_i32(v: i32) -> (r: Vec<u8>)
    requires
        v >= 0,
    ensures
        r@ == spec_enc_i32(v),
{
    enc_u32(v as u32)
}

pub fn enc_i64(v: i64) -> (r: Vec<u8>)
    requires
        v >= 0,
    ensures
        r@ == spec_enc_i64(v),
{
    enc_u64(v as u64)
}

fn append(dst: &mut Vec<u8>, src: Vec<u8>)
    ensures
        final(dst)@ == old(dst)@ + src@,
{
    let mut s = src;
    dst.append(&mut s);
}

pub fn enc_var_opaque(b: &Vec<u8>) -> (r: Vec<u8>)
    requires
        b@.len() <= 0xFFFFFFFF,
    ensures
        r@ == spec_enc_var_opaque(b@),
{
    let mut r = enc_u32(b.len() as u32);
    let mut copy_idx: usize = 0;
    while copy_idx < b.len()
        invariant
            0 <= copy_idx <= b@.len(),
            r@ == spec_be32(b@.len() as u32) + b@.take(copy_idx as int),
        decreases b@.len() - copy_idx,
    {
        r.push(b[copy_idx]);
        proof {
            assert(r@ =~= spec_be32(b@.len() as u32) + b@.take(copy_idx + 1));
        }
        copy_idx = copy_idx + 1;
    }
    proof {
        assert(b@.take(b@.len() as int) =~= b@);
    }
    let pad: usize = (4 - (b.len() % 4)) % 4;
    let mut pad_idx: usize = 0;
    while pad_idx < pad
        invariant
            0 <= pad_idx <= pad,
            pad == spec_pad_len(b@.len()),
            r@ == spec_be32(b@.len() as u32) + b@ + spec_zeros(pad_idx as nat),
        decreases pad - pad_idx,
    {
        r.push(0);
        proof {
            assert(r@ =~= spec_be32(b@.len() as u32) + b@ + spec_zeros((pad_idx + 1) as nat));
        }
        pad_idx = pad_idx + 1;
    }
    r
}

pub fn enc_muxed(m: &MuxedAccount) -> (r: Vec<u8>)
    ensures
        r@ == spec_enc_muxed(*m),
{
    match m {
        MuxedAccount::Ed25519(k) => {
            let mut r = enc_u32(0);
            let mut key = slice_to_vec(k.0.as_slice());
            r.append(&mut key);
            r
        },
        MuxedAccount::MuxedEd25519(mm) => {
            let mut r = enc_u32(0x100);
            append(&mut r, enc_u64(mm.id));
            let mut key = slice_to_vec(mm.ed25519.0.as_slice());
            r.append(&mut key);
            r
        },
    }
}

pub fn enc_account_id(a: &AccountId) -> (r: Vec<u8>)
    ensures
        r@ == spec_enc_account_id(*a),
{
    let mut r = enc_u32(0);
    let mut key = slice_to_vec(a.0.0.as_slice());
    r.append(&mut key);
    r
}

fn enc_padded_code(code: &Vec<u8>, n: usize) -> (r: Vec<u8>)
    requires
        code@.len() <= n,
    ensures
        r@ == spec_padded_code(code@, n as nat),
{
    let mut r: Vec<u8> = Vec::new();
    let mut i: usize = 0;
    while i < n
        invariant
            0 <= i <= n,
            code@.len() <= n,
            r@ == spec_padded_code(code@, n as nat).take(i as int),
        decreases n - i,
    {
        if i < code.len() {
            r.push(code[i]);
        } else {
            r.push(0);
        }
        proof {
            assert(r@ =~= spec_padded_code(code@, n as nat).take(i + 1));
        }
        i = i + 1;
    }
    proof {
        assert(spec_padded_code(code@, n as nat).take(n as int) =~= spec_padded_code(
            code@,
            n as nat,
        ));
    }
    r
}

pub fn enc_asset(a: &Asset) -> (r: Vec<u8>)
    requires
        wf_asset(*a),
    ensures
        r@ == spec_enc_asset(*a),
{
    match a {
        Asset::Native => enc_u32(0),
        Asset::CreditAlphanum4 { code, issuer } => {
            let mut r = enc_u32(1);
            append(&mut r, enc_padded_code(code, 4));
            append(&mut r, enc_u32(0));
            let mut key = slice_to_vec(issuer.as_slice());
            r.append(&mut key);
            r
        },
        Asset::CreditAlphanum12 { code, issuer } => {
            let mut r = enc_u32(2);
            append(&mut r, enc_padded_code(code, 12));
            append(&mut r, enc_u32(0));
            let mut key = slice_to_vec(issuer.as_slice());
            r.append(&mut key);
            r
        },
    }
}

pub fn enc_memo(m: &Memo) -> (r: Vec<u8>)
    requires
        wf_memo(*m),
    ensures
        r@ == spec_enc_memo(*m),
{
    match m {
        Memo::NoMemo => enc_u32(0),
        Memo::Text(t) => {
            let mut r = enc_u32(1);
            append(&mut r, enc_var_opaque(t));
            r
        },
        Memo::Id(i) => {
            let mut r = enc_u32(2);
            append(&mut r, enc_u64(*i));
            r
        },
    }
}

pub fn enc_time_bounds(tb: &TimeBounds) -> (r: Vec<u8>)
    ensures
        r@ == spec_enc_time_bounds(*tb),
{
    let mut r = enc_u64(tb.min_time);
    append(&mut r, enc_u64(tb.max_time));
    r
}

pub fn enc_cond(c: &Option<TimeBounds>) -> (r: Vec<u8>)
    ensures
        r@ == spec_enc_cond(*c),
{
    match c {
        Option::None => enc_u32(0),
        Option::Some(tb) => {
            let mut r = enc_u32(1);
            append(&mut r, enc_time_bounds(tb));
            r
        },
    }
}

pub fn enc_op_body(b: &OperationBody) -> (r: Vec<u8>)
    requires
        wf_operation(Operation { source_account: Option::None, body: *b }),
    ensures
        r@ == spec_enc_op_body(*b),
{
    match b {
        OperationBody::CreateAccount(c) => {
            let mut r = enc_u32(0);
            append(&mut r, enc_account_id(&c.destination));
            append(&mut r, enc_i64(c.starting_balance));
            r
        },
        OperationBody::Payment(p) => {
            let mut r = enc_u32(1);
            append(&mut r, enc_muxed(&p.destination));
            append(&mut r, enc_asset(&p.asset));
            append(&mut r, enc_i64(p.amount));
            r
        },
        OperationBody::AccountMerge(m) => {
            let mut r = enc_u32(8);
            append(&mut r, enc_muxed(m));
            r
        },
    }
}

pub fn enc_operation(op: &Operation) -> (r: Vec<u8>)
    requires
        wf_operation(*op),
    ensures
        r@ == spec_enc_operation(*op),
{
    let mut r: Vec<u8>;
    match &op.source_account {
        Option::None => {
            r = enc_u32(0);
        },
        Option::Some(m) => {
            r = enc_u32(1);
            append(&mut r, enc_muxed(m));
        },
    }
    append(&mut r, enc_op_body(&op.body));
    r
}

/// Encodes an operation list: a 4-byte count followed by each record, in
/// submission order.
pub fn enc_op_list(ops: &Vec<Operation>) -> (r: Vec<u8>)
    requires
        ops@.len() <= 100,
        forall|i: int| 0 <= i < ops@.len() ==> wf_operation(ops@[i]),
    ensures
        r@ == spec_be32(ops@.len() as u32) + spec_enc_op_seq(ops@),
{
    let mut r = enc_u32(ops.len() as u32);
    let mut i: usize = 0;
    while i < ops.len()
        invariant
            0 <= i <= ops@.len(),
            ops@.len() <= 100,
            forall|j: int| 0 <= j < ops@.len() ==> wf_operation(ops@[j]),
            r@ == spec_be32(ops@.len() as u32) + spec_enc_op_seq(ops@.take(i as int)),
        decreases ops@.len() - i,
    {
        append(&mut r, enc_operation(&ops[i]));
        proof {
            assert(ops@.take(i + 1).drop_last() =~= ops@.take(i as int));
            assert(ops@.take(i + 1).last() == ops@[i as int]);
        }
        i = i + 1;
    }
    proof {
        assert(ops@.take(ops@.len() as int) =~= ops@);
    }
    r
}

pub fn enc_decorated_signature(ds: &DecoratedSignature) -> (r: Vec<u8>)
    requires
        wf_decorated_signature(*ds),
    ensures
        r@ == spec_enc_decorated_signature(*ds),
{
    let mut r: Vec<u8> = Vec::new();
    let mut hint = slice_to_vec(ds.hint.as_slice());
    r.append(&mut hint);
    append(&mut r, enc_var_opaque(&ds.signature));
    r
}

pub fn enc_sig_list(sigs: &Vec<DecoratedSignature>) -> (r: Vec<u8>)
    requires
        sigs@.len() <= 20,
        forall|i: int| 0 <= i < sigs@.len() ==> wf_decorated_signature(sigs@[i]),
    ensures
        r@ == spec_be32(sigs@.len() as u32) + spec_enc_sig_seq(sigs@),
{
    let mut r = enc_u32(sigs.len() as u32);
    let mut i: usize = 0;
    while i < sigs.len()
        invariant
            0 <= i <= sigs@.len(),
            sigs@.len() <= 20,
            forall|j: int| 0 <= j < sigs@.len() ==> wf_decorated_signature(sigs@[j]),
            r@ == spec_be32(sigs@.len() as u32) + spec_enc_sig_seq(sigs@.take(i as int)),
        decreases sigs@.len() - i,
    {
        append(&mut r, enc_decorated_signature(&sigs[i]));
        proof {
            assert(sigs@.take(i + 1).drop_last() =~= sigs@.take(i as int));
            assert(sigs@.take(i + 1).last() == sigs@[i as int]);
        }
        i = i + 1;
    }
    proof {
        assert(sigs@.take(sigs@.len() as int) =~= sigs@);
    }
    r
}

} // verus!
