//! One signer's on-ledger identity and its sequence counter.
use vstd::prelude::*;

use crate::decimal::check_dec_string;
use crate::decimal::dec_val;
use crate::decimal::increment_dec_string;
use crate::decimal::is_dec_string;
use crate::utils::decode_encode_muxed_account::parsed_pk;
use crate::utils::decode_encode_muxed_account::strkey_pk_from_string;

verus! {

/// An account: its plain (`G...`) address, the 32-byte key that address
/// denotes, and the current sequence number as a decimal string of
/// arbitrary precision.
#[derive(Debug)]
pub struct Account {
    pub account_id: String,
    pub sequence: String,
    pub pk: [u8; 32],
}

/// The invariant `Account::new` establishes and every method keeps: the
/// stored key is what the stored address denotes, and the sequence is a
/// decimal-digit string.
pub open spec fn wf_account(a: Account) -> bool {
    parsed_pk(a.account_id@) == Some(a.pk@) && is_dec_string(a.sequence@)
}

impl Account {
    /// Makes an account from its plain address and current sequence
    /// number; rejects an address that is not a checksummed `G...`
    /// account id and a sequence that is not a decimal number.
    pub fn new(account_id: &str, sequence: &str) -> (r: Result<Account, String>)
        ensures
            parsed_pk(account_id@) matches Some(k) ==> (is_dec_string(sequence@) ==> (r matches Ok(
                a,
            ) && a.account_id@ == account_id@ && a.sequence@ == sequence@ && a.pk@ == k
                && wf_account(a))),
            parsed_pk(account_id@) is None ==> (r matches Err(e) && e@ == "accountId is invalid"@),
            parsed_pk(account_id@) is Some && !is_dec_string(sequence@) ==> (r matches Err(e) && e@
                == "sequence is invalid"@),
    {
        let pk = match strkey_pk_from_string(account_id) {
            Some(k) => k,
            Option::None => {
                return Err("accountId is invalid".to_owned());
            },
        };
        if !check_dec_string(sequence) {
            return Err("sequence is invalid".to_owned());
        }
        Ok(Account { account_id: account_id.to_owned(), sequence: sequence.to_owned(), pk })
    }

    /// The account's plain address.
    pub fn account_id(&self) -> (r: String)
        ensures
            r@ == self.account_id@,
    {
        self.account_id.clone()
    }

    /// The current sequence number, as a decimal string.
    pub fn sequence_number(&self) -> (r: String)
        ensures
            r@ == self.sequence@,
    {
        self.sequence.clone()
    }

    /// Moves the sequence counter forward by exactly one, with
    /// arbitrary-precision decimal arithmetic; nothing else changes.
    pub fn increment_sequence_number(&mut self)
        requires
            is_dec_string(old(self).sequence@),
        ensures
            is_dec_string(final(self).sequence@),
            final(self).account_id == old(self).account_id,
            final(self).pk == old(self).pk,
            dec_val(final(self).sequence@) == dec_val(old(self).sequence@) + 1,
    {
        let next = increment_dec_string(self.sequence.as_str());
        self.sequence = next;
    }
}

} // verus!
