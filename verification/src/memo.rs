//! Transaction memos: absent, a short text, or a 64-bit id.
use vstd::prelude::*;

verus! {

/// The memo attached to a transaction. A text memo carries at most 28
/// bytes of text.
#[derive(Debug)]
pub enum Memo {
    NoMemo,
    Text(Vec<u8>),
    Id(u64),
}

/// Well-formedness: a text memo fits the 28-byte wire-format bound.
pub open spec fn wf_memo(m: Memo) -> bool {
    match m {
        Memo::NoMemo => true,
        Memo::Text(t) => t@.len() <= 28,
        Memo::Id(_) => true,
    }
}

} // verus!
