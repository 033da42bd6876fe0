//! The create-account operation.
use vstd::prelude::*;

use crate::operation::Operation;
use crate::utils::decode_encode_muxed_account::decode_address_to_muxed_account_fix_for_g_address;
use crate::utils::decode_encode_muxed_account::parsed_pk;
use crate::utils::decode_encode_muxed_account::source_denotes;
use crate::utils::decode_encode_muxed_account::source_ok;
use crate::utils::decode_encode_muxed_account::strkey_pk_from_string;
use crate::xdr;

verus! {

impl Operation {
    /// Creates and funds a new account with the given starting balance
    /// in stroops. The destination must be a plain (`G...`) address: a
    /// muxed destination is rejected here, and the balance must not be
    /// negative. The source override is carried into the record
    /// unchanged.
    pub fn create_account(
        destination: String,
        starting_balance: i64,
        source: Option<String>,
    ) -> (r: Result<xdr::Operation, String>)
        ensures
            parsed_pk(destination@) is None ==> (r matches Err(e) && e@
                == "destination is invalid"@),
            parsed_pk(destination@) is Some && starting_balance < 0 ==> (r matches Err(e) && e@
                == "startingBalance is invalid"@),
            parsed_pk(destination@) is Some && starting_balance >= 0 && !source_ok(source) ==> (
            r matches Err(e) && e@ == "source is invalid"@),
            parsed_pk(destination@) matches Some(k) ==> (starting_balance >= 0 && source_ok(source)
                ==> (r matches Ok(op) && op.body matches xdr::OperationBody::CreateAccount(c)
                && c.destination.0.0@ == k && c.starting_balance == starting_balance
                && source_denotes(op.source_account, source) && xdr::wf_operation(op))),
    {
        let pk = match strkey_pk_from_string(destination.as_str()) {
            Some(k) => k,
            Option::None => {
                return Err("destination is invalid".to_owned());
            },
        };
        if starting_balance < 0 {
            return Err("startingBalance is invalid".to_owned());
        }
        let source_account = match &source {
            Option::None => Option::None,
            Option::Some(s) => {
                match decode_address_to_muxed_account_fix_for_g_address(s.as_str()) {
                    Ok(m) => Option::Some(m),
                    Err(_) => {
                        return Err("source is invalid".to_owned());
                    },
                }
            },
        };
        Ok(
            xdr::Operation {
                source_account,
                body: xdr::OperationBody::CreateAccount(
                    xdr::CreateAccountOp {
                        destination: xdr::AccountId(xdr::Uint256(pk)),
                        starting_balance,
                    },
                ),
            },
        )
    }
}

} // verus!
