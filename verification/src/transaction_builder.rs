//! Stateful assembly of a transaction: fee, memo, time bounds, the
//! ordered operation list, and the sequence-number handshake with the
//! source account.
use vstd::prelude::*;
use vstd::string::StrSliceExecFns;
use vstd::string::StringSliceAdditionalSpecFns;

use crate::account::Account;
use crate::decimal::is_dec_string;
use crate::decimal::dec_val;
use crate::decimal::increment_dec_string;
use crate::decimal::parse_u64;
use crate::memo::Memo;
use crate::memo::wf_memo;
use crate::transaction::Transaction;
use crate::transaction::wf_transaction;
use crate::xdr::MuxedAccount;
use crate::xdr::Operation;
use crate::xdr::TimeBounds;
use crate::xdr::Uint256;
use crate::xdr::wf_operation;

verus! {

/// A timeout value meaning "no upper time bound".
pub const TIMEOUT_INFINITE: i64 = 0;

/// The mutable scratch state of one transaction under assembly. The
/// builder owns its source account for the duration; `build` commits
/// the sequence increment into it and the account is read back through
/// `source_account`.
#[derive(Debug)]
pub struct TransactionBuilder {
    pub source: Account,
    pub network_passphrase: String,
    pub fee: Option<u32>,
    pub memo: Memo,
    pub time_bounds: Option<TimeBounds>,
    pub operations: Vec<Operation>,
}

/// The invariant every builder method keeps: a decimal sequence
/// string in the account, a well-formed memo, and only validated
/// operations.
pub open spec fn wf_builder(b: TransactionBuilder) -> bool {
    &&& is_dec_string(b.source.sequence@)
    &&& wf_memo(b.memo)
    &&& (forall|i: int| 0 <= i < b.operations@.len() ==> wf_operation(b.operations@[i]))
}

/// The upper time bound already set on a builder, if any is non-zero.
pub open spec fn has_max_time(tb: Option<TimeBounds>) -> bool {
    match tb {
        Option::Some(t) => t.max_time > 0,
        Option::None => false,
    }
}

/// The lower time bound a timeout keeps: the one already set, or zero.
pub open spec fn spec_min_time(tb: Option<TimeBounds>) -> u64 {
    match tb {
        Option::Some(t) => t.min_time,
        Option::None => 0,
    }
}

/// Relies on the system clock of std::time: seconds since the Unix
/// epoch now, or nothing when the clock reads before the epoch. No
/// value is promised: callers state what holds of every outcome.
#[verifier::external_body]
fn now_unix_secs() -> (r: Option<u64>) {
    std::time::SystemTime::now().duration_since(std::time::UNIX_EPOCH).ok().map(|d| d.as_secs())
}

impl TransactionBuilder {
    /// A fresh builder over the given source account and network
    /// passphrase: no fee, no memo, no operations, and the given time
    /// bounds, if any.
    pub fn new(source_account: Account, network: &str, time_bounds: Option<TimeBounds>) -> (r:
        TransactionBuilder)
        requires
            is_dec_string(source_account.sequence@),
        ensures
            wf_builder(r),
            r.source == source_account,
            r.network_passphrase@ == network@,
            r.fee is None,
            r.memo is NoMemo,
            r.time_bounds == time_bounds,
            r.operations@.len() == 0,
    {
        TransactionBuilder {
            source: source_account,
            network_passphrase: network.to_owned(),
            fee: Option::None,
            memo: Memo::NoMemo,
            time_bounds,
            operations: Vec::new(),
        }
    }

    /// The builder's source account, with whatever sequence number it
    /// has reached.
    pub fn source_account(&self) -> (r: &Account)
        ensures
            *r == self.source,
    {
        &self.source
    }

    /// Sets the per-operation base fee, replacing any earlier value.
    pub fn fee(&mut self, fee: u32)
        requires
            wf_builder(*old(self)),
        ensures
            wf_builder(*final(self)),
            final(self).fee == Some(fee),
            final(self).source == old(self).source,
            final(self).network_passphrase == old(self).network_passphrase,
            final(self).memo == old(self).memo,
            final(self).time_bounds == old(self).time_bounds,
            final(self).operations == old(self).operations,
    {
        self.fee = Some(fee);
    }

    /// Appends one validated operation; order of addition is the order
    /// of the built transaction.
    pub fn add_operation(&mut self, operation: Operation)
        requires
            wf_builder(*old(self)),
            wf_operation(operation),
        ensures
            wf_builder(*final(self)),
            final(self).operations@ == old(self).operations@.push(operation),
            final(self).source == old(self).source,
            final(self).network_passphrase == old(self).network_passphrase,
            final(self).fee == old(self).fee,
            final(self).memo == old(self).memo,
            final(self).time_bounds == old(self).time_bounds,
    {
        self.operations.push(operation);
    }

    /// Sets a text memo; the text must fit the 28-byte wire bound.
    pub fn add_memo(&mut self, memo_text: &str) -> (r: Result<(), String>)
        requires
            wf_builder(*old(self)),
        ensures
            wf_builder(*final(self)),
            memo_text.spec_bytes().len() <= 28 ==> (r is Ok && (final(self).memo matches
            Memo::Text(t) && t@ == memo_text.spec_bytes())),
            memo_text.spec_bytes().len() > 28 ==> (r matches Err(e) && e@
                == "memo text is too long"@ && final(self).memo == old(self).memo),
            final(self).source == old(self).source,
            final(self).network_passphrase == old(self).network_passphrase,
            final(self).fee == old(self).fee,
            final(self).time_bounds == old(self).time_bounds,
            final(self).operations == old(self).operations,
    {
        let bytes = memo_text.as_bytes_vec();
        if bytes.len() > 28 {
            return Err("memo text is too long".to_owned());
        }
        self.memo = Memo::Text(bytes);
        Ok(())
    }

    /// Replaces the time bounds wholesale.
    pub fn set_time_bounds(&mut self, time_bounds: TimeBounds)
        requires
            wf_builder(*old(self)),
        ensures
            wf_builder(*final(self)),
            final(self).time_bounds == Some(time_bounds),
            final(self).source == old(self).source,
            final(self).network_passphrase == old(self).network_passphrase,
            final(self).fee == old(self).fee,
            final(self).memo == old(self).memo,
            final(self).operations == old(self).operations,
    {
        self.time_bounds = Some(time_bounds);
    }

    /// The timeout rule against a caller-supplied reading of the
    /// clock: refuses to overwrite a non-zero upper bound already set
    /// and a negative duration; zero clears both bounds; a positive
    /// duration keeps the lower bound and sets the upper bound to
    /// exactly that many seconds past `current_time`.
    pub fn set_timeout_at(&mut self, timeout_seconds: i64, current_time: u64) -> (r: Result<
        (),
        String,
    >)
        requires
            wf_builder(*old(self)),
        ensures
            wf_builder(*final(self)),
            final(self).source == old(self).source,
            final(self).network_passphrase == old(self).network_passphrase,
            final(self).fee == old(self).fee,
            final(self).memo == old(self).memo,
            final(self).operations == old(self).operations,
            has_max_time(old(self).time_bounds) ==> (r matches Err(e) && e@
                == "TimeBounds.max_time has been already set - setting timeout would overwrite it."@
                && final(self).time_bounds == old(self).time_bounds),
            !has_max_time(old(self).time_bounds) && timeout_seconds < 0 ==> (r matches Err(e) && e@
                == "timeout cannot be negative"@ && final(self).time_bounds == old(
                self,
            ).time_bounds),
            !has_max_time(old(self).time_bounds) && timeout_seconds == 0 ==> (r is Ok
                && final(self).time_bounds == Some(TimeBounds { min_time: 0u64, max_time: 0u64 })),
            !has_max_time(old(self).time_bounds) && timeout_seconds > 0 && current_time
                + timeout_seconds <= u64::MAX ==> (r is Ok && final(self).time_bounds == Some(
                (TimeBounds {
                    min_time: spec_min_time(old(self).time_bounds),
                    max_time: (current_time + timeout_seconds) as u64,
                }),
            )),
            !has_max_time(old(self).time_bounds) && timeout_seconds > 0 && current_time
                + timeout_seconds > u64::MAX ==> (r matches Err(e) && e@
                == "timeout overflows the time representation"@ && final(self).time_bounds == old(
                self,
            ).time_bounds),
    {
        match &self.time_bounds {
            Option::Some(tb) => {
                if tb.max_time > 0 {
                    return Err(
                        "TimeBounds.max_time has been already set - setting timeout would overwrite it.".to_owned(),
                    );
                }
            },
            Option::None => {},
        }
        if timeout_seconds < 0 {
            return Err("timeout cannot be negative".to_owned());
        }
        if timeout_seconds > 0 {
            let add_on = match current_time.checked_add(timeout_seconds as u64) {
                Some(t) => t,
                Option::None => {
                    return Err("timeout overflows the time representation".to_owned());
                },
            };
            let min_time = match &self.time_bounds {
                Option::Some(tb) => tb.min_time,
                Option::None => 0,
            };
            self.time_bounds = Some(TimeBounds { min_time, max_time: add_on });
        } else {
            self.time_bounds = Some(TimeBounds { min_time: 0, max_time: 0 });
        }
        Ok(())
    }

    /// The timeout rule against the system clock: everything
    /// `set_timeout_at` promises, with the current time read from the
    /// clock; fails when the clock cannot be read.
    pub fn set_timeout(&mut self, timeout_seconds: i64) -> (r: Result<(), String>)
        requires
            wf_builder(*old(self)),
        ensures
            wf_builder(*final(self)),
            final(self).source == old(self).source,
            final(self).network_passphrase == old(self).network_passphrase,
            final(self).fee == old(self).fee,
            final(self).memo == old(self).memo,
            final(self).operations == old(self).operations,
            has_max_time(old(self).time_bounds) ==> (r matches Err(e) && e@
                == "TimeBounds.max_time has been already set - setting timeout would overwrite it."@
                && final(self).time_bounds == old(self).time_bounds),
            !has_max_time(old(self).time_bounds) && timeout_seconds < 0 ==> (r matches Err(e) && e@
                == "timeout cannot be negative"@ && final(self).time_bounds == old(
                self,
            ).time_bounds),
            !has_max_time(old(self).time_bounds) && timeout_seconds == 0 && r is Ok
                ==> final(self).time_bounds == Some(TimeBounds { min_time: 0u64, max_time: 0u64 }),
            !has_max_time(old(self).time_bounds) && timeout_seconds > 0 && r is Ok
                ==> (final(self).time_bounds matches Some(tb) && tb.min_time == spec_min_time(
                old(self).time_bounds,
            ) && tb.max_time >= timeout_seconds),
            r is Err ==> final(self).time_bounds == old(self).time_bounds,
    {
        match &self.time_bounds {
            Option::Some(tb) => {
                if tb.max_time > 0 {
                    return Err(
                        "TimeBounds.max_time has been already set - setting timeout would overwrite it.".to_owned(),
                    );
                }
            },
            Option::None => {},
        }
        if timeout_seconds < 0 {
            return Err("timeout cannot be negative".to_owned());
        }
        let now = match now_unix_secs() {
            Some(t) => t,
            Option::None => {
                return Err("could not read the current time".to_owned());
            },
        };
        self.set_timeout_at(timeout_seconds, now)
    }

    /// Assembles the unsigned transaction. The total fee is the base
    /// fee times the number of operations, refused rather than wrapped
    /// on overflow; the sequence number is the account's successor,
    /// computed with arbitrary-precision decimal arithmetic and
    /// committed back into the account only when the build succeeds.
    /// The operations move into the transaction in submission order;
    /// the builder is left drained.
    pub fn build(&mut self) -> (r: Result<Transaction, String>)
        requires
            wf_builder(*old(self)),
        ensures
            wf_builder(*final(self)),
            final(self).network_passphrase == old(self).network_passphrase,
            old(self).fee is None ==> (r matches Err(e) && e@ == "fee is not set"@),
            old(self).fee is Some && old(self).operations@.len() == 0 ==> (r matches Err(e) && e@
                == "transaction must contain at least one operation"@),
            old(self).fee is Some && old(self).operations@.len() > 100 ==> (r matches Err(e) && e@
                == "too many operations"@),
            old(self).fee matches Some(f) ==> (1 <= old(self).operations@.len() <= 100 && f * old(
                self,
            ).operations@.len() > u32::MAX ==> (r matches Err(e) && e@ == "fee overflow"@)),
            old(self).fee matches Some(f) ==> (1 <= old(self).operations@.len() <= 100 && f * old(
                self,
            ).operations@.len() <= u32::MAX && dec_val(old(self).source.sequence@) + 1
                > i64::MAX ==> (r matches Err(e) && e@ == "sequence number overflow"@)),
            r is Err ==> *final(self) == *old(self),
            old(self).fee matches Some(f) ==> (1 <= old(self).operations@.len() <= 100 && f * old(
                self,
            ).operations@.len() <= u32::MAX && dec_val(old(self).source.sequence@) + 1
                <= i64::MAX ==> (r matches Ok(tx) && wf_transaction(tx) && tx.fee == f * old(
                self,
            ).operations@.len() && dec_val(tx.sequence@) == dec_val(old(self).source.sequence@) + 1
                && tx.seq_num == dec_val(tx.sequence@) && tx.operations@ == old(self).operations@
                && tx.memo == old(self).memo && tx.time_bounds == old(self).time_bounds
                && tx.source@ == old(self).source.account_id@ && (tx.source_muxed matches
                MuxedAccount::Ed25519(u) && u.0@ == old(self).source.pk@) && tx.network_passphrase
                == old(self).network_passphrase && tx.signatures@.len() == 0 && dec_val(
                final(self).source.sequence@,
            ) == dec_val(old(self).source.sequence@) + 1 && final(self).source.account_id == old(
                self,
            ).source.account_id && final(self).source.pk == old(self).source.pk
                && final(self).operations@.len() == 0)),
    {
        let base_fee = match &self.fee {
            Option::Some(f) => *f,
            Option::None => {
                return Err("fee is not set".to_owned());
            },
        };
        if self.operations.len() == 0 {
            return Err("transaction must contain at least one operation".to_owned());
        }
        if self.operations.len() > 100 {
            return Err("too many operations".to_owned());
        }
        let total_fee = match base_fee.checked_mul(self.operations.len() as u32) {
            Some(t) => t,
            Option::None => {
                return Err("fee overflow".to_owned());
            },
        };
        let next_sequence = increment_dec_string(self.source.sequence.as_str());
        let seq_num_u64 = match parse_u64(next_sequence.as_str()) {
            Some(v) => v,
            Option::None => {
                return Err("sequence number overflow".to_owned());
            },
        };
        if seq_num_u64 > i64::MAX as u64 {
            return Err("sequence number overflow".to_owned());
        }
        let seq_num = seq_num_u64 as i64;
        let mut operations: Vec<Operation> = Vec::new();
        core::mem::swap(&mut operations, &mut self.operations);
        self.source.sequence = next_sequence.clone();
        Ok(
            Transaction {
                network_passphrase: self.network_passphrase.clone(),
                source: self.source.account_id(),
                source_muxed: MuxedAccount::Ed25519(Uint256(self.source.pk)),
                fee: total_fee,
                sequence: next_sequence,
                seq_num,
                time_bounds: self.time_bounds,
                memo: memo_take(&mut self.memo),
                operations,
                signatures: Vec::new(),
            },
        )
    }
}

/// Moves the memo out of the builder, leaving no memo behind.
fn memo_take(m: &mut Memo) -> (r: Memo)
    ensures
        r == *old(m),
        *final(m) is NoMemo,
{
    let mut taken = Memo::NoMemo;
    core::mem::swap(&mut taken, m);
    taken
}

} // verus!
