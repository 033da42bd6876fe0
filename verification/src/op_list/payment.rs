//! The payment operation.
use vstd::prelude::*;

use crate::asset::wf_asset;
use crate::operation::Operation;
use crate::operation::PaymentOpts;
use crate::operation::amount_ok;
use crate::operation::parse_amount;
use crate::operation::spec_amount_stroops;
use crate::utils::decode_encode_muxed_account::addr_ok;
use crate::utils::decode_encode_muxed_account::decode_address_to_muxed_account_fix_for_g_address;
use crate::utils::decode_encode_muxed_account::muxed_denotes;
use crate::utils::decode_encode_muxed_account::source_denotes;
use crate::utils::decode_encode_muxed_account::source_ok;
use crate::xdr;

verus! {

impl Operation {
    /// Sends an amount of an asset to a destination account, which may
    /// be a plain or a muxed address. The amount is a decimal string
    /// in whole units with at most seven fraction digits; a
    /// non-positive amount, one that loses precision past seven
    /// digits, or one beyond the 64-bit stroop range is rejected. The
    /// per-call source override is carried into the record unchanged.
    pub fn payment(opts: PaymentOpts) -> (r: Result<xdr::Operation, String>)
        requires
            wf_asset(opts.asset),
        ensures
            !addr_ok(opts.destination@) ==> (r matches Err(e) && e@ == "destination is invalid"@),
            addr_ok(opts.destination@) && !amount_ok(opts.amount@) ==> (r matches Err(e) && e@
                == "amount is invalid"@),
            addr_ok(opts.destination@) && amount_ok(opts.amount@) && !source_ok(opts.source) ==> (
            r matches Err(e) && e@ == "source is invalid"@),
            addr_ok(opts.destination@) && amount_ok(opts.amount@) && source_ok(opts.source) ==> (
            r matches Ok(op) && op.body matches xdr::OperationBody::Payment(p) && muxed_denotes(
                p.destination,
                opts.destination@,
            ) && p.asset == opts.asset && p.amount == spec_amount_stroops(opts.amount@)
                && source_denotes(op.source_account, opts.source) && xdr::wf_operation(op)),
    {
        let destination = match decode_address_to_muxed_account_fix_for_g_address(
            opts.destination.as_str(),
        ) {
            Ok(m) => m,
            Err(_) => {
                return Err("destination is invalid".to_owned());
            },
        };
        let amount = match parse_amount(opts.amount.as_str()) {
            Some(v) => v,
            Option::None => {
                return Err("amount is invalid".to_owned());
            },
        };
        let source_account = match &opts.source {
            Option::None => Option::None,
            Option::Some(s) => {
                match decode_address_to_muxed_account_fix_for_g_address(s.as_str()) {
                    Ok(m) => Option::Some(m),
                    Err(_) => {
                        return Err("source is invalid".to_owned());
                    },
                }
            },
        };
        Ok(
            xdr::Operation {
                source_account,
                body: xdr::OperationBody::Payment(
                    xdr::PaymentOp { destination, asset: opts.asset, amount },
                ),
            },
        )
    }
}

} // verus!
