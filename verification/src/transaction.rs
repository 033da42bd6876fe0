//! The unsigned transaction, its network-scoped signing payload, and
//! signature collection.
use vstd::prelude::*;

use crate::decimal::dec_val;
use crate::decimal::is_dec_string;
use crate::hashing::hash;
use crate::hashing::sha256_of;
use crate::keypair::Keypair;
use crate::keypair::ed25519_sig_of;
use crate::memo::Memo;
use crate::memo::wf_memo;
use crate::xdr::DecoratedSignature;
use crate::xdr::MuxedAccount;
use crate::xdr::Operation;
use crate::xdr::TimeBounds;
use crate::xdr::enc_cond;
use crate::xdr::enc_i64;
use crate::xdr::enc_memo;
use crate::xdr::enc_muxed;
use crate::xdr::enc_op_list;
use crate::xdr::enc_sig_list;
use crate::xdr::enc_u32;
use crate::xdr::spec_be32;
use crate::xdr::spec_enc_cond;
use crate::xdr::spec_enc_i64;
use crate::xdr::spec_enc_memo;
use crate::xdr::spec_enc_muxed;
use crate::xdr::spec_enc_op_seq;
use crate::xdr::spec_enc_sig_seq;
use crate::xdr::wf_decorated_signature;
use crate::xdr::wf_operation;

verus! {

/// An assembled transaction: envelope metadata, the ordered operation
/// list, and the signatures collected so far. The binary source
/// account record and the 64-bit form of the sequence number are kept
/// beside their textual forms so that encoding is total.
#[derive(Debug)]
pub struct Transaction {
    pub network_passphrase: String,
    pub source: String,
    pub source_muxed: MuxedAccount,
    pub fee: u32,
    pub sequence: String,
    pub seq_num: i64,
    pub time_bounds: Option<TimeBounds>,
    pub memo: Memo,
    pub operations: Vec<Operation>,
    pub signatures: Vec<DecoratedSignature>,
}

/// What the builder establishes: the sequence string and its 64-bit
/// form agree, the operation list is a valid envelope payload, and
/// every signature is a valid decorated signature.
pub open spec fn wf_transaction(t: Transaction) -> bool {
    &&& is_dec_string(t.sequence@)
    &&& dec_val(t.sequence@) == t.seq_num
    &&& t.seq_num >= 0
    &&& 1 <= t.operations@.len() <= 100
    &&& (forall|i: int| 0 <= i < t.operations@.len() ==> wf_operation(t.operations@[i]))
    &&& wf_memo(t.memo)
    &&& t.signatures@.len() <= 20
    &&& (forall|i: int|
        0 <= i < t.signatures@.len() ==> wf_decorated_signature(t.signatures@[i]))
}

/// Both transactions agree on everything but their signature lists.
pub open spec fn eq_except_signatures(a: Transaction, b: Transaction) -> bool {
    &&& a.network_passphrase == b.network_passphrase
    &&& a.source == b.source
    &&& a.source_muxed == b.source_muxed
    &&& a.fee == b.fee
    &&& a.sequence == b.sequence
    &&& a.seq_num == b.seq_num
    &&& a.time_bounds == b.time_bounds
    &&& a.memo == b.memo
    &&& a.operations == b.operations
}

/// The canonical bytes of the unsigned transaction body: source
/// account, fee, sequence number, preconditions, memo, the operation
/// list in submission order, and the reserved extension marker.
pub open spec fn spec_enc_tx(t: Transaction) -> Seq<u8> {
    spec_enc_muxed(t.source_muxed) + spec_be32(t.fee) + spec_enc_i64(t.seq_num) + spec_enc_cond(
        t.time_bounds,
    ) + spec_enc_memo(t.memo) + spec_be32(t.operations@.len() as u32) + spec_enc_op_seq(
        t.operations@,
    ) + spec_be32(0)
}

/// The bytes that are hashed and signed: the hash of the network
/// passphrase, the envelope-type discriminant for a transaction, and
/// the canonical transaction body — exactly in this order, binding
/// every signature to one network.
pub open spec fn spec_signature_base(t: Transaction) -> Seq<u8> {
    sha256_of(vstd::utf8::encode_utf8(t.network_passphrase@)) + spec_be32(2) + spec_enc_tx(t)
}

/// The canonical bytes of the signed envelope: the envelope-type
/// discriminant, the transaction body, and the decorated signatures in
/// the order they were appended.
pub open spec fn spec_enc_envelope(t: Transaction) -> Seq<u8> {
    spec_be32(2) + spec_enc_tx(t) + spec_be32(t.signatures@.len() as u32) + spec_enc_sig_seq(
        t.signatures@,
    )
}

impl Transaction {
    /// The canonical bytes of the unsigned transaction body.
    pub fn tx_xdr(&self) -> (r: Vec<u8>)
        requires
            wf_transaction(*self),
        ensures
            r@ == spec_enc_tx(*self),
    {
        let mut r = enc_muxed(&self.source_muxed);
        let mut part = enc_u32(self.fee);
        r.append(&mut part);
        let mut part = enc_i64(self.seq_num);
        r.append(&mut part);
        let mut part = enc_cond(&self.time_bounds);
        r.append(&mut part);
        let mut part = enc_memo(&self.memo);
        r.append(&mut part);
        let mut part = enc_op_list(&self.operations);
        r.append(&mut part);
        let mut part = enc_u32(0);
        r.append(&mut part);
        proof {
            assert(r@ =~= spec_enc_tx(*self));
        }
        r
    }

    /// The signing payload before hashing: network id, envelope-type
    /// discriminant, transaction body.
    pub fn signature_base(&self) -> (r: Vec<u8>)
        requires
            wf_transaction(*self),
        ensures
            r@ == spec_signature_base(*self),
    {
        let mut r = hash(self.network_passphrase.as_str().as_bytes());
        let mut part = enc_u32(2);
        r.append(&mut part);
        let mut part = self.tx_xdr();
        r.append(&mut part);
        proof {
            assert(r@ =~= spec_signature_base(*self));
        }
        r
    }

    /// The 32-byte value that is signed: the hash of the signing
    /// payload.
    pub fn hash(&self) -> (r: Vec<u8>)
        requires
            wf_transaction(*self),
        ensures
            r@ == sha256_of(spec_signature_base(*self)),
            r@.len() == 32,
    {
        let base = self.signature_base();
        hash(base.as_slice())
    }

    /// Signs the transaction hash once per supplied signer, in the
    /// supplied order, appending one decorated signature each —
    /// nothing is deduplicated, replaced or reordered.
    pub fn sign(&mut self, keypairs: &[Keypair])
        requires
            wf_transaction(*old(self)),
            old(self).signatures@.len() + keypairs@.len() <= 20,
            forall|i: int| 0 <= i < keypairs@.len() ==> keypairs@[i].seed@.len() == 32,
        ensures
            wf_transaction(*final(self)),
            eq_except_signatures(*final(self), *old(self)),
            final(self).signatures@.len() == old(self).signatures@.len() + keypairs@.len(),
            forall|i: int|
                0 <= i < old(self).signatures@.len() ==> final(self).signatures@[i] == old(
                    self,
                ).signatures@[i],
            forall|i: int|
                #![trigger keypairs@[i]]
                0 <= i < keypairs@.len() ==> {
                    let ds = final(self).signatures@[old(self).signatures@.len() + i];
                    ds.hint@ == keypairs@[i].public@.subrange(28, 32) && ds.signature@
                        == ed25519_sig_of(
                        keypairs@[i].seed@,
                        sha256_of(spec_signature_base(*old(self))),
                    )
                },
    {
        let payload = self.hash();
        let ghost old_len = self.signatures@.len();
        let mut idx: usize = 0;
        while idx < keypairs.len()
            invariant
                0 <= idx <= keypairs@.len(),
                old_len + keypairs@.len() <= 20,
                old_len == old(self).signatures@.len(),
                forall|i: int| 0 <= i < keypairs@.len() ==> keypairs@[i].seed@.len() == 32,
                wf_transaction(*old(self)),
                payload@ == sha256_of(spec_signature_base(*old(self))),
                eq_except_signatures(*self, *old(self)),
                self.signatures@.len() == old_len + idx,
                forall|i: int|
                    0 <= i < old_len ==> self.signatures@[i] == old(self).signatures@[i],
                forall|i: int|
                    0 <= i < self.signatures@.len() ==> wf_decorated_signature(
                        self.signatures@[i],
                    ),
                forall|i: int|
                    #![trigger keypairs@[i]]
                    0 <= i < idx ==> {
                        let ds = self.signatures@[old_len + i];
                        ds.hint@ == keypairs@[i].public@.subrange(28, 32) && ds.signature@
                            == ed25519_sig_of(
                            keypairs@[i].seed@,
                            sha256_of(spec_signature_base(*old(self))),
                        )
                    },
            decreases keypairs@.len() - idx,
        {
            let kp = &keypairs[idx];
            let signature = kp.sign(payload.as_slice());
            let hint = kp.signature_hint();
            self.signatures.push(DecoratedSignature { hint, signature });
            idx = idx + 1;
        }
    }

    /// The canonical bytes of the version-tagged signed envelope.
    pub fn to_envelope_xdr(&self) -> (r: Vec<u8>)
        requires
            wf_transaction(*self),
        ensures
            r@ == spec_enc_envelope(*self),
    {
        let mut r = enc_u32(2);
        let mut part = self.tx_xdr();
        r.append(&mut part);
        let mut part = enc_sig_list(&self.signatures);
        r.append(&mut part);
        proof {
            assert(r@ =~= spec_enc_envelope(*self));
        }
        r
    }
}

} // verus!
