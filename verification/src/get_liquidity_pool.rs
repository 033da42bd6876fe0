//! Content-addressed liquidity-pool identifiers.
use vstd::prelude::*;
use vstd::string::StrSliceExecFns;

use crate::asset::Asset;
use crate::asset::spec_compare;
use crate::asset::wf_asset;
use crate::hashing::hash;
use crate::hashing::sha256_of;
use crate::xdr::LiquidityPoolConstantProductParameters;
use crate::xdr::LiquidityPoolParameters;
use crate::xdr::enc_asset;
use crate::xdr::enc_i32;
use crate::xdr::enc_u32;
use crate::xdr::spec_be32;
use crate::xdr::spec_enc_asset;
use crate::xdr::spec_enc_i32;

verus! {

/// The one pool fee the protocol allows: 30 basis points.
const LIQUIDITY_POOL_FEE_V18: i32 = 30;

/// Both assets of the pool are well-formed descriptors.
pub open spec fn wf_pool_params(p: LiquidityPoolParameters) -> bool {
    wf_asset(params_cp(p).asset_a) && wf_asset(params_cp(p).asset_b)
}

/// The constant-product parameters held by a parameter record.
pub open spec fn params_cp(p: LiquidityPoolParameters) -> LiquidityPoolConstantProductParameters {
    match p {
        LiquidityPoolParameters::LiquidityPoolConstantProduct(cp) => cp,
    }
}

/// The bytes whose hash is the pool identifier: the pool-type
/// discriminant, then the ordered parameter record (asset A, asset B,
/// fee), in exactly this order.
pub open spec fn spec_pool_payload(cp: LiquidityPoolConstantProductParameters) -> Seq<u8> {
    spec_be32(0) + spec_enc_asset(cp.asset_a) + spec_enc_asset(cp.asset_b) + spec_enc_i32(cp.fee)
}

fn str_eq(a: &str, b: &str) -> (r: bool)
    ensures
        r == (a@ == b@),
{
    let la = a.unicode_len();
    let lb = b.unicode_len();
    if la != lb {
        return false;
    }
    let mut i: usize = 0;
    while i < la
        invariant
            0 <= i <= la,
            la == a@.len(),
            lb == b@.len(),
            la == lb,
            forall|j: int| 0 <= j < i ==> a@[j] == b@[j],
        decreases la - i,
    {
        let ca = a.get_char(i);
        let cb = b.get_char(i);
        if ca != cb {
            return false;
        }
        i = i + 1;
    }
    proof {
        assert(a@ =~= b@);
    }
    true
}

pub struct LiquidityPool;

impl LiquidityPool {
    /// Computes the pool identifier for the given pool type and
    /// parameters: the SHA-256 hash of the canonical encoding of the
    /// pool-type discriminant followed by the ordered parameter record.
    /// Rejects, in this order: an unrecognized pool type, a fee other
    /// than the fixed 30 basis points, and an asset pair that is not
    /// strictly ordered by the canonical asset ordering.
    pub fn get_liquidity_pool_id(
        liquidity_pool_type: &str,
        liquidity_pool_parameters: LiquidityPoolParameters,
    ) -> (r: Result<Vec<u8>, String>)
        requires
            wf_pool_params(liquidity_pool_parameters),
        ensures
            liquidity_pool_type@ != "constant_product"@ ==> (r matches Err(e) && e@
                == "liquidityPoolType is invalid"@),
            liquidity_pool_type@ == "constant_product"@ && params_cp(liquidity_pool_parameters).fee
                != 30 ==> (r matches Err(e) && e@ == "fee is invalid"@),
            liquidity_pool_type@ == "constant_product"@ && params_cp(liquidity_pool_parameters).fee
                == 30 && spec_compare(
                params_cp(liquidity_pool_parameters).asset_a,
                params_cp(liquidity_pool_parameters).asset_b,
            ) != -1 ==> (r matches Err(e) && e@ == "Assets are not in lexicographic order"@),
            liquidity_pool_type@ == "constant_product"@ && params_cp(liquidity_pool_parameters).fee
                == 30 && spec_compare(
                params_cp(liquidity_pool_parameters).asset_a,
                params_cp(liquidity_pool_parameters).asset_b,
            ) == -1 ==> (r matches Ok(id) && id@ == sha256_of(
                spec_pool_payload(params_cp(liquidity_pool_parameters)),
            ) && id@.len() == 32),
    {
        if !str_eq(liquidity_pool_type, "constant_product") {
            return Err("liquidityPoolType is invalid".to_owned());
        }
        let cp = match liquidity_pool_parameters {
            LiquidityPoolParameters::LiquidityPoolConstantProduct(x) => x,
        };
        if cp.fee != LIQUIDITY_POOL_FEE_V18 {
            return Err("fee is invalid".to_owned());
        }
        if Asset::compare(&cp.asset_a, &cp.asset_b) != -1 {
            return Err("Assets are not in lexicographic order".to_owned());
        }
        let mut payload = enc_u32(0);
        let mut part_a = enc_asset(&cp.asset_a);
        payload.append(&mut part_a);
        let mut part_b = enc_asset(&cp.asset_b);
        payload.append(&mut part_b);
        let mut part_fee = enc_i32(cp.fee);
        payload.append(&mut part_fee);
        proof {
            assert(payload@ =~= spec_pool_payload(cp));
        }
        Ok(hash(payload.as_slice()))
    }
}

} // verus!
