//! Removal of PKCS#1 v1.5 encryption padding from the block a token hands
//! back after its raw RSA private-key operation.

use vstd::prelude::*;
use crate::bytes::copy_range;

verus! {

/// Why a block is not a PKCS#1 v1.5 encryption block.
#[derive(Clone, Copy, Debug, PartialEq, Eq, Structural)]
pub enum PaddingFault {
    /// Fewer than 11 bytes.
    BlockTooShort,
    /// The first two bytes are not `00 02`.
    BadHeader,
    /// Fewer than 8 non-zero bytes stand before the separator.
    PaddingTooShort,
    /// No `00` follows the header.
    NoSeparator,
    /// Nothing follows the separator.
    EmptyMessage,
}

/// Smallest well-formed block: header, eight padding bytes, separator.
pub const MIN_BLOCK_LEN: usize = 11;

/// Fewest padding bytes a block may carry.
pub const MIN_PADDING_LEN: usize = 8;

/// `at` is the separator of `block`: the first zero byte after the header.
pub open spec fn is_separator(block: Seq<u8>, at: int) -> bool {
    &&& 2 <= at < block.len()
    &&& block[at] == 0
    &&& forall|i: int| 2 <= i < at ==> block[i] != 0
}

/// The block starts with `00 02`.
pub open spec fn has_header(block: Seq<u8>) -> bool {
    block.len() >= 2 && block[0] == 0 && block[1] == 2
}

/// The block built from a padding string and a message.
pub open spec fn padded(padding: Seq<u8>, message: Seq<u8>) -> Seq<u8> {
    seq![0u8, 2u8] + padding + seq![0u8] + message
}

/// What unpadding a block gives: the message, or the one reason it has none.
pub open spec fn unpadded(block: Seq<u8>) -> Result<Seq<u8>, PaddingFault> {
    if block.len() < 11 {
        Err(PaddingFault::BlockTooShort)
    } else if !has_header(block) {
        Err(PaddingFault::BadHeader)
    } else if !exists|at: int| is_separator(block, at) {
        Err(PaddingFault::NoSeparator)
    } else {
        let at = choose|at: int| is_separator(block, at);
        if at - 2 < 8 {
            Err(PaddingFault::PaddingTooShort)
        } else if at + 1 >= block.len() {
            Err(PaddingFault::EmptyMessage)
        } else {
            Ok(block.subrange(at + 1, block.len() as int))
        }
    }
}

/// A block has at most one separator.
pub proof fn lemma_separator_unique(block: Seq<u8>, a: int, b: int)
    requires
        is_separator(block, a),
        is_separator(block, b),
    ensures
        a == b,
{
    if a < b {
        assert(block[a] != 0);
    } else if b < a {
        assert(block[b] != 0);
    }
}

/// A block made of the header, at least eight non-zero padding bytes, the
/// separator and a non-empty message unpads to exactly that message.
pub proof fn lemma_unpad_padded(padding: Seq<u8>, message: Seq<u8>)
    requires
        padding.len() >= 8,
        forall|i: int| 0 <= i < padding.len() ==> padding[i] != 0,
        message.len() > 0,
    ensures
        unpadded(padded(padding, message)) == Ok::<Seq<u8>, PaddingFault>(message),
{
    let block = padded(padding, message);
    let at = 2 + padding.len() as int;
    assert(is_separator(block, at));
    let chosen = choose|at: int| is_separator(block, at);
    lemma_separator_unique(block, at, chosen);
    assert(block.subrange(at + 1, block.len() as int) == message);
}

/// A block whose padding string is shorter than eight bytes is refused,
/// whatever follows its separator.
pub proof fn lemma_short_padding_refused(padding: Seq<u8>, message: Seq<u8>)
    requires
        padding.len() < 8,
        forall|i: int| 0 <= i < padding.len() ==> padding[i] != 0,
    ensures
        unpadded(padded(padding, message)) is Err,
{
    let block = padded(padding, message);
    if block.len() >= 11 {
        let at = 2 + padding.len() as int;
        assert(is_separator(block, at));
        let chosen = choose|at: int| is_separator(block, at);
        lemma_separator_unique(block, at, chosen);
    }
}

/// Strips PKCS#1 v1.5 encryption padding: `00 02`, at least eight non-zero
/// bytes, `00`, then the message.
pub fn unpad_pkcs1_v15(block: &[u8]) -> (r: Result<Vec<u8>, PaddingFault>)
    ensures
        match r {
            Ok(message) => unpadded(block@) == Ok::<Seq<u8>, PaddingFault>(message@),
            Err(fault) => unpadded(block@) == Err::<Seq<u8>, PaddingFault>(fault),
        },
{
    let block_len: usize = block.len();
    if block_len < MIN_BLOCK_LEN {
        return Err(PaddingFault::BlockTooShort);
    }
    if block[0] != 0x00 || block[1] != 0x02 {
        return Err(PaddingFault::BadHeader);
    }
    let mut at: usize = 2;
    while at < block_len && block[at] != 0x00
        invariant
            2 <= at <= block_len,
            block_len == block@.len(),
            forall|i: int| 2 <= i < at ==> block@[i] != 0,
        decreases block_len - at,
    {
        at = at + 1;
    }
    if at >= block_len {
        assert(!exists|s: int| is_separator(block@, s));
        return Err(PaddingFault::NoSeparator);
    }
    proof {
        assert(is_separator(block@, at as int));
        let chosen = choose|s: int| is_separator(block@, s);
        lemma_separator_unique(block@, at as int, chosen);
    }
    if at - 2 < MIN_PADDING_LEN {
        return Err(PaddingFault::PaddingTooShort);
    }
    if at + 1 >= block_len {
        return Err(PaddingFault::EmptyMessage);
    }
    Ok(copy_range(block, at + 1, block_len))
}

} // verus!
