//! Sizes of protobuf fields on the wire.
use crate::sums::seq_sum;
use crate::types::{option_view, seq_view};
use vstd::prelude::*;
use vstd::utf8::encode_utf8;

verus! {

/// The largest tag that a protobuf field may have.
pub const MAX_TAG: u32 = 0x1FFF_FFFF;

/// Size of a varint: seven bits of the value in each byte, and at least one byte.
pub open spec fn varint_len(value: nat) -> nat
    decreases value,
{
    if value < 0x80 {
        1
    } else {
        1 + varint_len(value / 0x80)
    }
}

/// Size of a field's key: the tag and three bits of wire type, as a varint.
pub open spec fn key_len(tag: nat) -> nat {
    varint_len(tag * 8)
}

/// Size of a length-delimited field with a payload of `len` bytes.
pub open spec fn delimited_len(tag: nat, len: nat) -> nat {
    key_len(tag) + varint_len(len) + len
}

/// Size of a string in UTF-8.
pub open spec fn utf8_len(s: Seq<char>) -> nat {
    encode_utf8(s).len()
}

/// Size of a `string` field.
pub open spec fn string_len(tag: nat, value: Seq<char>) -> nat {
    delimited_len(tag, utf8_len(value))
}

/// Size of a `bytes` field.
pub open spec fn bytes_len(tag: nat, value: Seq<u8>) -> nat {
    delimited_len(tag, value.len())
}

/// Size of a `uint64` field.
pub open spec fn uint64_len(tag: nat, value: u64) -> nat {
    key_len(tag) + varint_len(value as nat)
}

/// Size of a `bool` field: either value is one byte.
pub open spec fn bool_len(tag: nat) -> nat {
    key_len(tag) + 1
}

/// Size of each entry of a `repeated bytes` field.
pub open spec fn bytes_share(tag: nat) -> spec_fn(Seq<u8>) -> nat {
    |value: Seq<u8>| bytes_len(tag, value)
}

/// Size of a `repeated bytes` field.
pub open spec fn repeated_bytes_len(tag: nat, values: Seq<Seq<u8>>) -> nat {
    seq_sum(values, bytes_share(tag))
}

/// Size of an `optional string` field, which is left out where there is no value.
pub open spec fn optional_string_len(tag: nat, value: Option<Seq<char>>) -> nat {
    match value {
        Some(s) => string_len(tag, s),
        None => 0,
    }
}

/// Size of an `optional bytes` field, which is left out where there is no value.
pub open spec fn optional_bytes_len(tag: nat, value: Option<Seq<u8>>) -> nat {
    match value {
        Some(b) => bytes_len(tag, b),
        None => 0,
    }
}

/// Size of an `optional uint64` field, which is left out where there is no value.
pub open spec fn optional_uint64_len(tag: nat, value: Option<u64>) -> nat {
    match value {
        Some(v) => uint64_len(tag, v),
        None => 0,
    }
}

/// Size of an `optional bool` field, which is left out where there is no value.
pub open spec fn optional_bool_len(tag: nat, value: Option<bool>) -> nat {
    match value {
        Some(_) => bool_len(tag),
        None => 0,
    }
}

/// Size of a length-delimited field whose tag fits in one byte.
pub open spec fn short_delimited_len(len: nat) -> nat {
    1 + varint_len(len) + len
}

/// `prost::encoding::encoded_len_varint` returns the size of the value in LEB128
/// format.
pub assume_specification[ prost::encoding::encoded_len_varint ](value: u64) -> (len: usize)
    ensures
        len == varint_len(value as nat),
;

/// `prost::encoding::key_len` returns the size of the key of a field with the
/// given tag. It shifts the tag left by three bits, so the tag has to be one
/// that protobuf allows.
pub assume_specification[ prost::encoding::key_len ](tag: u32) -> (len: usize)
    requires
        tag <= MAX_TAG,
    ensures
        len == key_len(tag as nat),
;

/// `prost::encoding::string::encoded_len` returns the size of a `string` field:
/// its key, the length of the UTF-8 bytes as a varint, and the bytes.
pub assume_specification[ prost::encoding::string::encoded_len ](tag: u32, value: &String) -> (len:
    usize)
    requires
        tag <= MAX_TAG,
        string_len(tag as nat, value@) <= usize::MAX,
    ensures
        len == string_len(tag as nat, value@),
;

/// `prost::encoding::bool::encoded_len` returns the size of a `bool` field: its
/// key and one byte.
pub assume_specification[ prost::encoding::bool::encoded_len ](tag: u32, value: &bool) -> (len:
    usize)
    requires
        tag <= MAX_TAG,
    ensures
        len == bool_len(tag as nat),
;

/// `prost::encoding::uint64::encoded_len` returns the size of a `uint64` field:
/// its key and the value as a varint.
pub assume_specification[ prost::encoding::uint64::encoded_len ](tag: u32, value: &u64) -> (len:
    usize)
    requires
        tag <= MAX_TAG,
    ensures
        len == uint64_len(tag as nat, *value),
;

/// `prost::encoding::bytes::encoded_len` returns the size of a `bytes` field: its
/// key, the number of bytes as a varint, and the bytes.
#[verifier::external_body]
pub(crate) fn bytes_encoded_len(tag: u32, value: &Vec<u8>) -> (len: usize)
    requires
        tag <= MAX_TAG,
        bytes_len(tag as nat, value@) <= usize::MAX,
    ensures
        len == bytes_len(tag as nat, value@),
{
    prost::encoding::bytes::encoded_len(tag, value)
}

/// `prost::encoding::bytes::encoded_len_repeated` returns the size of a
/// `repeated bytes` field: that of a `bytes` field for each of the values.
#[verifier::external_body]
pub(crate) fn bytes_encoded_len_repeated(tag: u32, values: &Vec<Vec<u8>>) -> (len: usize)
    requires
        tag <= MAX_TAG,
        repeated_bytes_len(tag as nat, seq_view(values@)) <= usize::MAX,
    ensures
        len == repeated_bytes_len(tag as nat, seq_view(values@)),
{
    prost::encoding::bytes::encoded_len_repeated(tag, values)
}

/// Size of an `optional string` field.
pub(crate) fn optional_string_encoded_len(tag: u32, value: &Option<String>) -> (len: usize)
    requires
        tag <= MAX_TAG,
        optional_string_len(tag as nat, option_view(*value)) <= usize::MAX,
    ensures
        len == optional_string_len(tag as nat, option_view(*value)),
{
    match value {
        Some(s) => prost::encoding::string::encoded_len(tag, s),
        None => 0,
    }
}

/// Size of an `optional bytes` field.
pub(crate) fn optional_bytes_encoded_len(tag: u32, value: &Option<Vec<u8>>) -> (len: usize)
    requires
        tag <= MAX_TAG,
        optional_bytes_len(tag as nat, option_view(*value)) <= usize::MAX,
    ensures
        len == optional_bytes_len(tag as nat, option_view(*value)),
{
    match value {
        Some(b) => bytes_encoded_len(tag, b),
        None => 0,
    }
}

/// Size of an `optional uint64` field.
pub(crate) fn optional_uint64_encoded_len(tag: u32, value: &Option<u64>) -> (len: usize)
    requires
        tag <= MAX_TAG,
    ensures
        len == optional_uint64_len(tag as nat, *value),
{
    match value {
        Some(v) => prost::encoding::uint64::encoded_len(tag, v),
        None => 0,
    }
}

/// Size of an `optional bool` field.
pub(crate) fn optional_bool_encoded_len(tag: u32, value: &Option<bool>) -> (len: usize)
    requires
        tag <= MAX_TAG,
    ensures
        len == optional_bool_len(tag as nat, *value),
{
    match value {
        Some(v) => prost::encoding::bool::encoded_len(tag, v),
        None => 0,
    }
}

/// Size of a length-delimited field with a payload of `len` bytes.
pub(crate) fn delimited_encoded_len(tag: u32, len: usize) -> (total: usize)
    requires
        tag <= MAX_TAG,
        delimited_len(tag as nat, len as nat) <= usize::MAX,
    ensures
        total == delimited_len(tag as nat, len as nat),
{
    prost::encoding::key_len(tag) + prost::encoding::encoded_len_varint(len as u64) + len
}

/// Encoded size of a protobuf `bytes` or `string` field: tag, length varint and
/// payload. Used to split a batched control message across topics.
///
/// Every field measured this way sits at a tag of 1 to 15, so the tag is one byte.
pub fn len_delimited_field_len(len: usize) -> (total: usize)
    requires
        short_delimited_len(len as nat) <= usize::MAX,
    ensures
        total == short_delimited_len(len as nat),
        forall|tag: nat|
            1 <= tag <= 15 ==> total == #[trigger] delimited_len(tag, len as nat),
{
    1 + prost::encoding::encoded_len_varint(len as u64) + len
}

/// A tag of at most 15 takes one byte.
pub proof fn lemma_short_tag(tag: nat, len: nat)
    requires
        tag <= 15,
    ensures
        key_len(tag) == 1,
        delimited_len(tag, len) == short_delimited_len(len),
{
}

} // verus!
