//! The identity record: its fields, its bounds and its stored form.

use crate::address::Address;
use vstd::bytes::{lemma_auto_spec_u32_to_from_le_bytes, spec_u32_to_le_bytes, u32_to_le_bytes};
use vstd::prelude::*;
use vstd::utf8::encode_utf8;

verus! {

/// Bytes of the tag that marks a stored identity record.
pub const DISCRIMINATOR_LEN: usize = 8;

/// Most bytes a username may have.
pub const MAX_USERNAME_LEN: usize = 50;

/// Most bytes a uri may have.
pub const MAX_URI_LEN: usize = 200;

/// Bytes reserved for an identity record: the tag, the authority, the
/// username and the uri each behind a four-byte length, and the bump.
pub const SPACE: usize = 8 + 32 + 4 + 50 + 4 + 200 + 1;

/// The tag that a stored identity record begins with.
pub open spec fn discriminator() -> Seq<u8> {
    seq![194u8, 90u8, 181u8, 160u8, 182u8, 206u8, 116u8, 158u8]
}

/// A string field in its stored form: the number of its bytes as four
/// little-endian bytes, then the bytes.
pub open spec fn encode_string(s: Seq<char>) -> Seq<u8>
    recommends
        encode_utf8(s).len() <= u32::MAX,
{
    spec_u32_to_le_bytes(encode_utf8(s).len() as u32) + encode_utf8(s)
}

/// The mathematical value of an identity record.
pub struct IdentityRecord {
    pub authority: Seq<u8>,
    pub username: Seq<char>,
    pub uri: Seq<char>,
    pub bump: u8,
}

impl IdentityRecord {
    /// Whether both strings are within their bounds, which is when the
    /// record fits the space reserved for it.
    pub open spec fn fits(self) -> bool {
        &&& encode_utf8(self.username).len() <= MAX_USERNAME_LEN
        &&& encode_utf8(self.uri).len() <= MAX_URI_LEN
    }

    /// The record's fields in their stored order, behind the tag.
    pub open spec fn encoding(self) -> Seq<u8> {
        discriminator() + self.authority + encode_string(self.username) + encode_string(self.uri)
            + seq![self.bump]
    }

    /// What the record's account holds: the encoding, filled up with zero
    /// bytes to the reserved space.
    pub open spec fn stored(self) -> Seq<u8>
        recommends
            self.authority.len() == 32,
            self.fits(),
    {
        self.encoding() + Seq::new((SPACE - self.encoding().len()) as nat, |i: int| 0u8)
    }
}

/// The identity record of one authority.
#[derive(Clone, Debug, PartialEq, Eq)]
pub struct IdentityAccount {
    /// The owner of the record.
    pub authority: Address,
    /// Display label.
    pub username: String,
    /// Pointer to the descriptive metadata kept elsewhere.
    pub uri: String,
    /// The bump seed of the record's address.
    pub bump: u8,
}

impl View for IdentityAccount {
    type V = IdentityRecord;

    open spec fn view(&self) -> IdentityRecord {
        IdentityRecord {
            authority: self.authority@,
            username: self.username@,
            uri: self.uri@,
            bump: self.bump,
        }
    }
}

/// Appends the bytes of `tail` to `out`.
fn append(out: &mut Vec<u8>, tail: &[u8])
    ensures
        final(out)@ == old(out)@ + tail@,
{
    let mut i: usize = 0;
    while i < tail.len()
        invariant
            i <= tail@.len(),
            out@ == old(out)@ + tail@.subrange(0, i as int),
        decreases tail@.len() - i,
    {
        out.push(tail[i]);
        i = i + 1;
    }
    assert(tail@.subrange(0, tail@.len() as int) =~= tail@);
}

/// Appends a string field in its stored form to `out`.
fn append_string(out: &mut Vec<u8>, s: &String)
    requires
        encode_utf8(s@).len() <= u32::MAX,
    ensures
        final(out)@ == old(out)@ + encode_string(s@),
{
    let bytes = s.as_str().as_bytes();
    let prefix = u32_to_le_bytes(bytes.len() as u32);
    append(out, prefix.as_slice());
    append(out, bytes);
}

/// The tag that a stored identity record begins with.
pub fn discriminator_bytes() -> (tag: [u8; 8])
    ensures
        tag@ == discriminator(),
{
    let tag: [u8; 8] = [194, 90, 181, 160, 182, 206, 116, 158];
    assert(tag@ =~= discriminator());
    tag
}

impl IdentityAccount {
    /// Whether the record fits the space reserved for it.
    pub fn fits(&self) -> (b: bool)
        ensures
            b == self@.fits(),
    {
        self.username.as_str().as_bytes().len() <= MAX_USERNAME_LEN
            && self.uri.as_str().as_bytes().len() <= MAX_URI_LEN
    }

    /// The contents of the record's account, exactly `SPACE` bytes, or
    /// `None` where the record does not fit.
    pub fn try_serialize(&self) -> (r: Option<Vec<u8>>)
        ensures
            self@.fits() ==> r.is_some() && r.unwrap()@ == self@.stored() && r.unwrap()@.len()
                == SPACE,
            !self@.fits() ==> r.is_none(),
    {
        if !self.fits() {
            return None;
        }
        let mut out: Vec<u8> = Vec::new();
        let tag = discriminator_bytes();
        append(&mut out, tag.as_slice());
        let authority = self.authority.to_vec();
        append(&mut out, authority.as_slice());
        append_string(&mut out, &self.username);
        append_string(&mut out, &self.uri);
        out.push(self.bump);
        assert(out@ =~= self@.encoding());
        proof {
            lemma_auto_spec_u32_to_from_le_bytes();
        }
        let ghost encoded = out@;
        while out.len() < SPACE
            invariant
                encoded.len() <= out@.len() <= SPACE,
                out@ == encoded + Seq::new((out@.len() - encoded.len()) as nat, |i: int| 0u8),
            decreases SPACE - out@.len(),
        {
            out.push(0u8);
        }
        Some(out)
    }
}

/// The reserved space is exact: the stored form of a record takes the fixed
/// part and the bytes of its two strings, so a record within its bounds
/// never needs more than `SPACE` bytes, and one whose strings are as long as
/// they may be needs all of them.
pub proof fn lemma_space_is_exact(record: IdentityRecord)
    requires
        record.authority.len() == 32,
    ensures
        record.encoding().len() == DISCRIMINATOR_LEN + 32 + 4 + encode_utf8(record.username).len()
            + 4 + encode_utf8(record.uri).len() + 1,
        record.fits() ==> record.encoding().len() <= SPACE,
        record.fits() ==> record.stored().len() == SPACE,
        encode_utf8(record.username).len() == MAX_USERNAME_LEN && encode_utf8(record.uri).len()
            == MAX_URI_LEN ==> record.encoding().len() == SPACE,
{
    lemma_auto_spec_u32_to_from_le_bytes();
}

/// The stored form begins with the record's encoding, whose fields stand at
/// fixed places: the tag, then the authority, then the username behind its
/// length.
pub proof fn lemma_stored_layout(record: IdentityRecord)
    requires
        record.authority.len() == 32,
        record.fits(),
    ensures
        record.stored().subrange(0, 8) == discriminator(),
        record.stored().subrange(8, 40) == record.authority,
        record.stored().subrange(40, 44) == spec_u32_to_le_bytes(
            encode_utf8(record.username).len() as u32,
        ),
        record.stored().subrange(44, 44 + encode_utf8(record.username).len() as int)
            == encode_utf8(record.username),
{
    lemma_auto_spec_u32_to_from_le_bytes();
    assert(record.stored().subrange(0, 8) =~= discriminator());
    assert(record.stored().subrange(8, 40) =~= record.authority);
    assert(record.stored().subrange(40, 44) =~= spec_u32_to_le_bytes(
        encode_utf8(record.username).len() as u32,
    ));
    assert(record.stored().subrange(44, 44 + encode_utf8(record.username).len() as int)
        =~= encode_utf8(record.username));
}

} // verus!
