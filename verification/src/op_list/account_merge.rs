//! The account-merge operation.
use vstd::prelude::*;

use crate::operation::Operation;
use crate::utils::decode_encode_muxed_account::addr_ok;
use crate::utils::decode_encode_muxed_account::decode_address_to_muxed_account_fix_for_g_address;
use crate::utils::decode_encode_muxed_account::muxed_denotes;
use crate::utils::decode_encode_muxed_account::source_denotes;
use crate::utils::decode_encode_muxed_account::source_ok;
use crate::xdr;

verus! {

impl Operation {
    /// Transfers the native balance of an account to another account
    /// and removes the source account from the ledger. The destination
    /// may be a plain or a muxed address; the builder's source override
    /// is carried into the record unchanged.
    pub fn account_merge(&self, destination: String) -> (r: Result<xdr::Operation, String>)
        ensures
            !addr_ok(destination@) ==> (r matches Err(e) && e@ == "destination is invalid"@),
            addr_ok(destination@) && !source_ok(self.source) ==> (r matches Err(e) && e@
                == "source is invalid"@),
            addr_ok(destination@) && source_ok(self.source) ==> (r matches Ok(op)
                && op.body matches xdr::OperationBody::AccountMerge(m) && muxed_denotes(
                m,
                destination@,
            ) && source_denotes(op.source_account, self.source) && xdr::wf_operation(op)),
    {
        let muxed = match decode_address_to_muxed_account_fix_for_g_address(destination.as_str()) {
            Ok(m) => m,
            Err(_) => {
                return Err("destination is invalid".to_owned());
            },
        };
        let source_account = match &self.source {
            Option::None => Option::None,
            Option::Some(s) => {
                match decode_address_to_muxed_account_fix_for_g_address(s.as_str()) {
                    Ok(m) => Option::Some(m),
                    Err(_) => {
                        return Err("source is invalid".to_owned());
                    },
                }
            },
        };
        Ok(xdr::Operation { source_account, body: xdr::OperationBody::AccountMerge(muxed) })
    }
}

} // verus!
