//! The two kinds of record and their stored form: an 8-byte tag that tells
//! the kind, followed by the counter as 8 little-endian bytes.

use vstd::prelude::*;
use vstd::bytes::{
    lemma_auto_spec_u64_to_from_le_bytes, spec_u64_from_le_bytes, spec_u64_to_le_bytes,
    spec_u64_to_le_bytes_to_open, u64_from_le_bytes, u64_to_le_bytes,
};
use vstd::slice::slice_subrange;

verus! {

/// Length of the tag at the start of every record.
pub const DISCRIMINATOR_LEN: usize = 8;

/// Length of a stored record of either kind.
pub const ACCOUNT_SPACE: usize = 16;

/// The tag of a personal counter, as stored.
pub const USER_ACCOUNT_DISCRIMINATOR: [u8; 8] = [211, 33, 136, 16, 186, 110, 242, 127];

/// The tag of the shared counter, as stored.
pub const GLOBAL_ACCOUNT_DISCRIMINATOR: [u8; 8] = [129, 105, 124, 171, 189, 42, 108, 69];

/// The tag of a personal counter.
pub open spec fn user_account_tag() -> Seq<u8> {
    USER_ACCOUNT_DISCRIMINATOR@
}

/// The tag of the shared counter.
pub open spec fn global_account_tag() -> Seq<u8> {
    GLOBAL_ACCOUNT_DISCRIMINATOR@
}

/// The stored form of a record with this tag and counter.
pub open spec fn encode_record(tag: Seq<u8>, counter: u64) -> Seq<u8> {
    tag + spec_u64_to_le_bytes(counter)
}

/// The counter of a stored record, if the bytes are a record with this tag.
pub open spec fn decode_record(tag: Seq<u8>, data: Seq<u8>) -> Option<u64> {
    if data.len() == ACCOUNT_SPACE && data.subrange(0, DISCRIMINATOR_LEN as int) == tag {
        Some(spec_u64_from_le_bytes(data.subrange(DISCRIMINATOR_LEN as int, ACCOUNT_SPACE as int)))
    } else {
        None
    }
}

/// The counter field of bytes that have the length of a record, whatever
/// tag they start with.
pub open spec fn counter_field(data: Seq<u8>) -> Option<u64> {
    if data.len() == ACCOUNT_SPACE {
        Some(spec_u64_from_le_bytes(data.subrange(DISCRIMINATOR_LEN as int, ACCOUNT_SPACE as int)))
    } else {
        None
    }
}

/// The number that eight bytes stand for in little-endian order: the first
/// byte counts ones, and each later byte counts 256 times as much as the
/// byte before it.
pub open spec fn little_endian(bytes: Seq<u8>) -> int {
    bytes[0] + bytes[1] * 0x100 + bytes[2] * 0x1_0000 + bytes[3] * 0x100_0000 + bytes[4]
        * 0x1_0000_0000 + bytes[5] * 0x100_0000_0000 + bytes[6] * 0x1_0000_0000_0000 + bytes[7]
        * 0x100_0000_0000_0000
}

/// The eight bytes after the tag are the counter in little-endian order.
pub proof fn law_counter_is_little_endian(tag: Seq<u8>, counter: u64)
    requires
        tag.len() == DISCRIMINATOR_LEN,
    ensures
        little_endian(
            encode_record(tag, counter).subrange(DISCRIMINATOR_LEN as int, ACCOUNT_SPACE as int),
        ) == counter,
{
    let bytes = spec_u64_to_le_bytes(counter);
    spec_u64_to_le_bytes_to_open(counter);
    assert(encode_record(tag, counter).subrange(8, 16) =~= bytes);
    let x = counter;
    assert({
        &&& x & 0xff < 256
        &&& (x >> 8) & 0xff < 256
        &&& (x >> 16) & 0xff < 256
        &&& (x >> 24) & 0xff < 256
        &&& (x >> 32) & 0xff < 256
        &&& (x >> 40) & 0xff < 256
        &&& (x >> 48) & 0xff < 256
        &&& (x >> 56) & 0xff < 256
    }) by (bit_vector);
    assert(x == (x & 0xff) + ((x >> 8) & 0xff) * 0x100 + ((x >> 16) & 0xff) * 0x1_0000 + ((x >> 24)
        & 0xff) * 0x100_0000 + ((x >> 32) & 0xff) * 0x1_0000_0000 + ((x >> 40) & 0xff)
        * 0x100_0000_0000 + ((x >> 48) & 0xff) * 0x1_0000_0000_0000 + ((x >> 56) & 0xff)
        * 0x100_0000_0000_0000) by (bit_vector);
}

/// Decoding undoes encoding.
pub proof fn lemma_decode_encode(tag: Seq<u8>, counter: u64)
    requires
        tag.len() == DISCRIMINATOR_LEN,
    ensures
        encode_record(tag, counter).len() == ACCOUNT_SPACE,
        decode_record(tag, encode_record(tag, counter)) == Some(counter),
{
    lemma_auto_spec_u64_to_from_le_bytes();
    let data = encode_record(tag, counter);
    assert(data.subrange(0, 8) =~= tag);
    assert(data.subrange(8, 16) =~= spec_u64_to_le_bytes(counter));
}

/// Encoding undoes decoding: a record has one stored form.
pub proof fn law_one_stored_form(tag: Seq<u8>, data: Seq<u8>)
    requires
        decode_record(tag, data) is Some,
    ensures
        encode_record(tag, decode_record(tag, data)->0) == data,
{
    lemma_auto_spec_u64_to_from_le_bytes();
    let tail = data.subrange(8, 16);
    assert(spec_u64_to_le_bytes(spec_u64_from_le_bytes(tail)) == tail);
    assert(data.subrange(0, 8) + tail =~= data);
}

/// A record of one kind never reads as a record of the other kind.
pub proof fn lemma_kinds_differ(data: Seq<u8>)
    ensures
        !(decode_record(user_account_tag(), data) is Some && decode_record(
            global_account_tag(),
            data,
        ) is Some),
{
    if decode_record(user_account_tag(), data) is Some {
        assert(data.subrange(0, 8)[0] == 211u8);
        assert(global_account_tag()[0] == 129u8);
    }
}

/// Writes a record: the tag, then the counter in little-endian order.
fn write_record(tag: &[u8; 8], counter: u64) -> (data: Vec<u8>)
    ensures
        data@ == encode_record(tag@, counter),
{
    let mut data: Vec<u8> = Vec::new();
    let mut i: usize = 0;
    while i < DISCRIMINATOR_LEN
        invariant
            i <= DISCRIMINATOR_LEN,
            data@ == tag@.subrange(0, i as int),
        decreases DISCRIMINATOR_LEN - i,
    {
        data.push(tag[i]);
        assert(data@ =~= tag@.subrange(0, i + 1));
        i += 1;
    }
    assert(data@ =~= tag@);
    let mut tail: Vec<u8> = u64_to_le_bytes(counter);
    data.append(&mut tail);
    data
}

/// Reads a record: `None` unless the bytes have the length of a record and
/// start with the tag.
fn read_record(tag: &[u8; 8], data: &[u8]) -> (counter: Option<u64>)
    ensures
        counter == decode_record(tag@, data@),
{
    if data.len() != ACCOUNT_SPACE {
        return None;
    }
    let mut i: usize = 0;
    while i < DISCRIMINATOR_LEN
        invariant
            i <= DISCRIMINATOR_LEN,
            data@.len() == ACCOUNT_SPACE,
            forall|j: int| 0 <= j < i ==> data@[j] == tag@[j],
        decreases DISCRIMINATOR_LEN - i,
    {
        if data[i] != tag[i] {
            assert(data@.subrange(0, 8)[i as int] != tag@[i as int]);
            return None;
        }
        i += 1;
    }
    assert(data@.subrange(0, 8) =~= tag@);
    Some(u64_from_le_bytes(slice_subrange(data, DISCRIMINATOR_LEN, ACCOUNT_SPACE)))
}

/// Reads the counter field without looking at the tag: `None` unless the
/// bytes have the length of a record.
fn read_counter(data: &[u8]) -> (counter: Option<u64>)
    ensures
        counter == counter_field(data@),
{
    if data.len() != ACCOUNT_SPACE {
        return None;
    }
    Some(u64_from_le_bytes(slice_subrange(data, DISCRIMINATOR_LEN, ACCOUNT_SPACE)))
}

/// The counter of one caller.
#[derive(Clone, Copy, Debug, PartialEq, Eq, Structural)]
pub struct UserAccount {
    pub personal_counter: u64,
}

/// The counter shared by all callers.
#[derive(Clone, Copy, Debug, PartialEq, Eq, Structural)]
pub struct GlobalAccount {
    pub global_counter: u64,
}

impl UserAccount {
    /// The stored form of this record.
    pub open spec fn encoding(self) -> Seq<u8> {
        encode_record(user_account_tag(), self.personal_counter)
    }

    /// The personal counter that these bytes store, if they store one.
    pub open spec fn decoding(data: Seq<u8>) -> Option<UserAccount> {
        match decode_record(user_account_tag(), data) {
            Some(counter) => Some(UserAccount { personal_counter: counter }),
            None => None,
        }
    }

    /// The tag of a personal counter.
    pub fn discriminator() -> (tag: [u8; 8])
        ensures
            tag@ == user_account_tag(),
    {
        USER_ACCOUNT_DISCRIMINATOR
    }

    /// A fresh personal counter, at zero.
    pub fn new() -> (account: UserAccount)
        ensures
            account.personal_counter == 0,
    {
        UserAccount { personal_counter: 0 }
    }

    /// The stored form of this record.
    pub fn to_bytes(&self) -> (data: Vec<u8>)
        ensures
            data@ == self.encoding(),
    {
        write_record(&Self::discriminator(), self.personal_counter)
    }

    /// Reads a personal counter from its stored form.
    pub fn from_bytes(data: &[u8]) -> (account: Option<UserAccount>)
        ensures
            account == Self::decoding(data@),
    {
        match read_record(&Self::discriminator(), data) {
            Some(counter) => Some(UserAccount { personal_counter: counter }),
            None => None,
        }
    }

    /// Reads the counter of storage that was just allocated and has no tag
    /// yet: the tag is not looked at.
    pub fn from_bytes_unchecked(data: &[u8]) -> (account: Option<UserAccount>)
        ensures
            account == match counter_field(data@) {
                Some(counter) => Some(UserAccount { personal_counter: counter }),
                None => None,
            },
    {
        match read_counter(data) {
            Some(counter) => Some(UserAccount { personal_counter: counter }),
            None => None,
        }
    }
}

impl GlobalAccount {
    /// The stored form of this record.
    pub open spec fn encoding(self) -> Seq<u8> {
        encode_record(global_account_tag(), self.global_counter)
    }

    /// The shared counter that these bytes store, if they store one.
    pub open spec fn decoding(data: Seq<u8>) -> Option<GlobalAccount> {
        match decode_record(global_account_tag(), data) {
            Some(counter) => Some(GlobalAccount { global_counter: counter }),
            None => None,
        }
    }

    /// The tag of the shared counter.
    pub fn discriminator() -> (tag: [u8; 8])
        ensures
            tag@ == global_account_tag(),
    {
        GLOBAL_ACCOUNT_DISCRIMINATOR
    }

    /// A fresh shared counter, at zero.
    pub fn new() -> (account: GlobalAccount)
        ensures
            account.global_counter == 0,
    {
        GlobalAccount { global_counter: 0 }
    }

    /// The stored form of this record.
    pub fn to_bytes(&self) -> (data: Vec<u8>)
        ensures
            data@ == self.encoding(),
    {
        write_record(&Self::discriminator(), self.global_counter)
    }

    /// Reads the shared counter from its stored form.
    pub fn from_bytes(data: &[u8]) -> (account: Option<GlobalAccount>)
        ensures
            account == Self::decoding(data@),
    {
        match read_record(&Self::discriminator(), data) {
            Some(counter) => Some(GlobalAccount { global_counter: counter }),
            None => None,
        }
    }

    /// Reads the counter of storage that was just allocated and has no tag
    /// yet: the tag is not looked at.
    pub fn from_bytes_unchecked(data: &[u8]) -> (account: Option<GlobalAccount>)
        ensures
            account == match counter_field(data@) {
                Some(counter) => Some(GlobalAccount { global_counter: counter }),
                None => None,
            },
    {
        match read_counter(data) {
            Some(counter) => Some(GlobalAccount { global_counter: counter }),
            None => None,
        }
    }
}

} // verus!
