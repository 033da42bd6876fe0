//! Conversions between checksummed textual addresses and the binary
//! account records of the wire format.
//!
//! The checksummed base-32 text format itself is handled by the
//! stellar-strkey crate behind the trusted wrappers below; every
//! dispatch between plain (`G...`) and muxed (`M...`) forms, and every
//! record conversion, is verified here.
use vstd::prelude::*;
use vstd::string::StringExecFns;

use crate::decimal::dec_val;
use crate::decimal::is_dec_string;
use crate::decimal::parse_u64;
use crate::xdr::MuxedAccount;
use crate::xdr::MuxedAccountMed25519;
use crate::xdr::Uint256;

verus! {

/// The 32-byte key a plain (`G...`) address denotes, if the text is a
/// well-formed checksummed address of that kind; the result depends on
/// the characters alone.
pub uninterp spec fn parsed_pk(s: Seq<char>) -> Option<Seq<u8>>;

/// The canonical plain-address text of a 32-byte key.
pub uninterp spec fn pk_address(k: Seq<u8>) -> Seq<char>;

/// The key and sub-account id a muxed (`M...`) address denotes, if the
/// text is a well-formed checksummed address of that kind.
pub uninterp spec fn parsed_muxed(s: Seq<char>) -> Option<(Seq<u8>, u64)>;

/// The canonical muxed-address text of a key and sub-account id.
pub uninterp spec fn muxed_address(k: Seq<u8>, id: u64) -> Seq<char>;

/// The text denotes an account in either form: plain or muxed.
pub open spec fn addr_ok(s: Seq<char>) -> bool {
    parsed_muxed(s) is Some || parsed_pk(s) is Some
}

/// The account record `m` is what the address text `s` denotes: a muxed
/// address yields the muxed variant with its key and id, a plain
/// address the compact variant with its key.
pub open spec fn muxed_denotes(m: MuxedAccount, s: Seq<char>) -> bool {
    match parsed_muxed(s) {
        Option::Some(p) => match m {
            MuxedAccount::MuxedEd25519(mm) => mm.ed25519.0@ == p.0 && mm.id == p.1,
            _ => false,
        },
        Option::None => match parsed_pk(s) {
            Option::Some(k) => match m {
                MuxedAccount::Ed25519(u) => u.0@ == k,
                _ => false,
            },
            Option::None => false,
        },
    }
}

/// A source override is absent or names an account in either form.
pub open spec fn source_ok(src: Option<String>) -> bool {
    match src {
        Option::None => true,
        Option::Some(s) => addr_ok(s@),
    }
}

/// A source-override field carries exactly what the caller supplied:
/// nothing when no override was given, else the record the supplied
/// address denotes.
pub open spec fn source_denotes(sa: Option<MuxedAccount>, src: Option<String>) -> bool {
    match src {
        Option::None => sa is None,
        Option::Some(s) => match sa {
            Option::Some(m) => muxed_denotes(m, s@),
            Option::None => false,
        },
    }
}

/// Relies on stellar-strkey's `ed25519::PublicKey::from_string`: it
/// accepts exactly the canonical checksummed encodings of 32-byte keys
/// under the public-key version byte (its base-32 decoder rejects
/// non-canonical text), so a successful parse names the one string its
/// key encodes to, and a muxed-version string can never succeed.
#[verifier::external_body]
pub(crate) fn strkey_pk_from_string(s: &str) -> (r: Option<[u8; 32]>)
    ensures
        r matches Some(k) ==> parsed_pk(s@) == Some(k@) && pk_address(k@) == s@ && parsed_muxed(
            s@,
        ) is None,
        r is None ==> parsed_pk(s@) is None,
{
    match stellar_strkey::ed25519::PublicKey::from_string(s) {
        Ok(pk) => Some(pk.0),
        Err(_) => None,
    }
}

/// Relies on stellar-strkey's `ed25519::PublicKey::to_string`: the
/// deterministic canonical encoding of the key, which its own
/// `from_string` parses back to the same key, and which the muxed
/// parser rejects for its version byte.
#[verifier::external_body]
pub(crate) fn strkey_pk_to_string(k: &[u8; 32]) -> (r: String)
    ensures
        r@ == pk_address(k@) && parsed_pk(r@) == Some(k@) && parsed_muxed(r@) is None,
{
    stellar_strkey::ed25519::PublicKey(*k).to_string().as_str().to_owned()
}

/// Relies on stellar-strkey's `ed25519::MuxedAccount::from_string`:
/// the same canonical-decode guarantees as the public-key parser, for
/// the muxed version byte and a 40-byte key-and-id payload.
#[verifier::external_body]
pub(crate) fn strkey_muxed_from_string(s: &str) -> (r: Option<([u8; 32], u64)>)
    ensures
        r matches Some(p) ==> parsed_muxed(s@) == Some((p.0@, p.1)) && muxed_address(p.0@, p.1)
            == s@ && parsed_pk(s@) is None,
        r is None ==> parsed_muxed(s@) is None,
{
    match stellar_strkey::ed25519::MuxedAccount::from_string(s) {
        Ok(m) => Some((m.ed25519, m.id)),
        Err(_) => None,
    }
}

/// Relies on stellar-strkey's `ed25519::MuxedAccount::to_string`: the
/// deterministic canonical encoding of key and id, parsed back to the
/// same pair by its `from_string`, and rejected by the public-key
/// parser for its version byte.
#[verifier::external_body]
pub(crate) fn strkey_muxed_to_string(k: &[u8; 32], id: u64) -> (r: String)
    ensures
        r@ == muxed_address(k@, id) && parsed_muxed(r@) == Some((k@, id)) && parsed_pk(r@) is None,
{
    stellar_strkey::ed25519::MuxedAccount { ed25519: *k, id }.to_string().as_str().to_owned()
}

/// Decodes a muxed (`M...`) address into its key-and-id record;
/// rejects every other input.
pub fn decode_address_to_muxed_account(address: &str) -> (r: Result<MuxedAccountMed25519, String>)
    ensures
        parsed_muxed(address@) matches Some(p) ==> (r matches Ok(mm) && mm.ed25519.0@ == p.0
            && mm.id == p.1),
        parsed_muxed(address@) is None ==> (r matches Err(e) && e@ == "expected muxed account (M...), got "@
            + address@),
{
    match strkey_muxed_from_string(address) {
        Some(p) => Ok(MuxedAccountMed25519 { id: p.1, ed25519: Uint256(p.0) }),
        Option::None => {
            let mut msg = "expected muxed account (M...), got ".to_owned();
            msg.append(address);
            Err(msg)
        },
    }
}

/// Decodes a muxed (`M...`) address straight to the muxed variant of
/// the wire-format account record; rejects every other input.
pub fn decode_address_fully_to_muxed_account(address: &str) -> (r: Result<MuxedAccount, String>)
    ensures
        parsed_muxed(address@) matches Some(p) ==> (r matches Ok(m) && m matches
            MuxedAccount::MuxedEd25519(mm) && mm.ed25519.0@ == p.0 && mm.id == p.1),
        parsed_muxed(address@) is None ==> (r matches Err(e) && e@ == "expected muxed account (M...), got "@
            + address@),
{
    match decode_address_to_muxed_account(address) {
        Ok(mm) => Ok(MuxedAccount::MuxedEd25519(mm)),
        Err(e) => Err(e),
    }
}

/// Decodes either address form into the wire-format account record: a
/// muxed address keeps its sub-account id, a plain address becomes the
/// compact key variant.
pub fn decode_address_to_muxed_account_fix_for_g_address(address: &str) -> (r: Result<
    MuxedAccount,
    String,
>)
    ensures
        parsed_muxed(address@) matches Some(p) ==> (r matches Ok(m) && m matches
            MuxedAccount::MuxedEd25519(mm) && mm.ed25519.0@ == p.0 && mm.id == p.1),
        parsed_muxed(address@) is None ==> (parsed_pk(address@) matches Some(k) ==> (r matches Ok(
            m,
        ) && m matches MuxedAccount::Ed25519(u) && u.0@ == k)),
        parsed_muxed(address@) is None && parsed_pk(address@) is None ==> (r matches Err(e) && e@
            == "address is invalid"@),
{
    match strkey_muxed_from_string(address) {
        Some(p) => Ok(MuxedAccount::MuxedEd25519(MuxedAccountMed25519 {
            id: p.1,
            ed25519: Uint256(p.0),
        })),
        Option::None => {
            match strkey_pk_from_string(address) {
                Some(k) => Ok(MuxedAccount::Ed25519(Uint256(k))),
                Option::None => Err("address is invalid".to_owned()),
            }
        },
    }
}

/// Builds the muxed wire-format record from a plain (`G...`) address
/// and a decimal sub-account id; rejects a non-plain address and an id
/// that is not a decimal number in the unsigned 64-bit range.
pub fn encode_muxed_account(address: &str, id: &str) -> (r: Result<MuxedAccount, String>)
    ensures
        parsed_pk(address@) is None ==> (r matches Err(e) && e@
            == "address should be a Stellar account ID (G...)"@),
        parsed_pk(address@) is Some && !(is_dec_string(id@) && dec_val(id@) <= u64::MAX) ==> (
        r matches Err(e) && e@ == "id should be a string representing a number (uint64)"@),
        parsed_pk(address@) matches Some(k) ==> (is_dec_string(id@) && dec_val(id@) <= u64::MAX
            ==> (r matches Ok(m) && m matches MuxedAccount::MuxedEd25519(mm) && mm.ed25519.0@ == k
            && mm.id == dec_val(id@))),
{
    let key = match strkey_pk_from_string(address) {
        Some(k) => k,
        Option::None => {
            return Err("address should be a Stellar account ID (G...)".to_owned());
        },
    };
    let id_num = match parse_u64(id) {
        Some(v) => v,
        Option::None => {
            return Err("id should be a string representing a number (uint64)".to_owned());
        },
    };
    Ok(MuxedAccount::MuxedEd25519(MuxedAccountMed25519 { id: id_num, ed25519: Uint256(key) }))
}

/// Encodes a wire-format account record back to its textual address:
/// the compact variant to a plain address, the muxed variant to a muxed
/// address. What is returned parses back to the same record.
pub fn encode_muxed_account_to_address(muxed_account: &MuxedAccount) -> (r: String)
    ensures
        *muxed_account matches MuxedAccount::Ed25519(k) ==> r@ == pk_address(k.0@) && parsed_pk(r@)
            == Some(k.0@) && parsed_muxed(r@) is None,
        *muxed_account matches MuxedAccount::MuxedEd25519(mm) ==> r@ == muxed_address(
            mm.ed25519.0@,
            mm.id,
        ) && parsed_muxed(r@) == Some((mm.ed25519.0@, mm.id)) && parsed_pk(r@) is None,
{
    match muxed_account {
        MuxedAccount::Ed25519(k) => strkey_pk_to_string(&k.0),
        MuxedAccount::MuxedEd25519(mm) => strkey_muxed_to_string(&mm.ed25519.0, mm.id),
    }
}

/// Encodes a wire-format account record to text, spelling the muxed
/// variant in its full muxed form; the compact variant falls back to
/// the plain address.
pub fn _encode_muxed_account_fully_to_address(muxed_account: &MuxedAccount) -> (r: String)
    ensures
        *muxed_account matches MuxedAccount::Ed25519(k) ==> r@ == pk_address(k.0@) && parsed_pk(r@)
            == Some(k.0@) && parsed_muxed(r@) is None,
        *muxed_account matches MuxedAccount::MuxedEd25519(mm) ==> r@ == muxed_address(
            mm.ed25519.0@,
            mm.id,
        ) && parsed_muxed(r@) == Some((mm.ed25519.0@, mm.id)) && parsed_pk(r@) is None,
{
    encode_muxed_account_to_address(muxed_account)
}

/// The plain (`G...`) address of the key behind either address form: a
/// plain address is returned unchanged, a muxed address is reduced to
/// the plain address of its base key.
pub fn extract_base_address(address: &str) -> (r: Result<String, String>)
    ensures
        parsed_pk(address@) is Some ==> (r matches Ok(s) && s@ == address@),
        parsed_pk(address@) is None ==> (parsed_muxed(address@) matches Some(p) ==> (r matches Ok(
            s,
        ) && s@ == pk_address(p.0))),
        parsed_pk(address@) is None && parsed_muxed(address@) is None ==> (r matches Err(e) && e@
            == "expected muxed account (M...), got "@ + address@),
{
    match strkey_pk_from_string(address) {
        Some(_) => Ok(address.to_owned()),
        Option::None => {
            match strkey_muxed_from_string(address) {
                Some(p) => Ok(strkey_pk_to_string(&p.0)),
                Option::None => {
                    let mut msg = "expected muxed account (M...), got ".to_owned();
                    msg.append(address);
                    Err(msg)
                },
            }
        },
    }
}

} // verus!
