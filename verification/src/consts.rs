use vstd::prelude::*;

verus! {

/// Maximum length of a single netlink message, in bytes.
pub const MAX_NL_LENGTH: usize = 32768;

/// The smallest multiple of the word size, 4 bytes, that is at least `len`.
pub open spec fn align_up(len: nat) -> nat {
    if len % 4 == 0 {
        len
    } else {
        (len + 4 - len % 4) as nat
    }
}

/// `align_up(len)` is a multiple of the word size, is at least `len`, and
/// no smaller multiple of the word size is.
pub proof fn lemma_align_up_is_least(len: nat, m: nat)
    ensures
        align_up(len) % 4 == 0,
        len <= align_up(len) < len + 4,
        (m % 4 == 0 && len <= m) ==> align_up(len) <= m,
{
}

/// Aligning an aligned length changes nothing.
pub proof fn lemma_align_up_idempotent(len: nat)
    ensures
        align_up(align_up(len)) == align_up(len),
        len % 4 == 0 ==> align_up(len) == len,
{
}

/// Reads `libc::NLA_ALIGNTO`, which the platform headers fix at 4.
#[verifier::external_body]
fn nla_alignto() -> (word: usize)
    ensures
        word == 4,
{
    libc::NLA_ALIGNTO as usize
}

/// Rounds `len` up to the next multiple of the netlink word size.
pub fn alignto(len: usize) -> (aligned: usize)
    requires
        align_up(len as nat) <= usize::MAX,
    ensures
        aligned == align_up(len as nat),
{
    let word: usize = nla_alignto();
    let rem: usize = len % word;
    if rem == 0 {
        len
    } else {
        len - rem + word
    }
}

} // verus!
