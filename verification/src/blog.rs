//! Sample blog content: filler texts and the replies made from them.
use crate::account::JoyBalance;
use crate::merkle::{blake2_256, hash_bytes, H256};
use vstd::prelude::*;

verus! {

/// What a reply answers.
#[derive(Clone, Copy, Debug, PartialEq, Eq, Structural)]
pub enum ParentId {
    /// Another reply.
    Reply(u64),
    /// A post.
    Post(u64),
}

/// A reply to a post or to another reply.
#[derive(Clone, Copy, Debug, PartialEq, Eq)]
pub struct Reply {
    /// The digest of the reply's text.
    pub text_hash: H256,
    /// The participant that wrote the reply.
    pub owner: u64,
    pub parent_id: ParentId,
    /// What the owner gets back when the reply is deleted.
    pub cleanup_pay_off: JoyBalance,
}

/// The filler text of `len` bytes: the letter `x` over and over.
pub open spec fn filler(len: nat) -> Seq<u8> {
    Seq::new(len, |i: int| 120u8)
}

/// A text of `len` bytes.
pub fn generate_text(len: usize) -> (r: Vec<u8>)
    ensures
        r@ == filler(len as nat),
{
    let mut text: Vec<u8> = Vec::new();
    let mut i: usize = 0;
    while i < len
        invariant
            i <= len,
            text@ == filler(i as nat),
        decreases len - i,
    {
        text.push(120u8);
        proof {
            assert(text@ =~= filler((i + 1) as nat));
        }
        i += 1;
    }
    text
}

/// The text of a sample reply: a hundred bytes.
pub fn get_reply_text() -> (r: Vec<u8>)
    ensures
        r@ == filler(100),
{
    generate_text(100)
}

/// The title and the body of a sample post: ten and a hundred bytes.
pub fn generate_post() -> (r: (Vec<u8>, Vec<u8>))
    ensures
        r.0@ == filler(10),
        r.1@ == filler(100),
{
    (generate_text(10), generate_text(100))
}

/// A sample reply by `owner` to `parent_id`, with the deposit
/// `reply_deposit` to pay off.
pub fn get_reply(owner: u64, parent_id: ParentId, reply_deposit: JoyBalance) -> (r: Reply)
    ensures
        r.text_hash@ == blake2_256(filler(100)),
        r.owner == owner,
        r.parent_id == parent_id,
        r.cleanup_pay_off == reply_deposit,
{
    let text = get_reply_text();
    Reply { text_hash: hash_bytes(&text), owner, parent_id, cleanup_pay_off: reply_deposit }
}

} // verus!
