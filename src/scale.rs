//! SCALE encoding and decoding, through `parity_scale_codec`.
use vstd::prelude::*;

verus! {

/// The little-endian integer held by the first four bytes of `b`.
pub open spec fn le_u32(b: Seq<u8>) -> u32
    recommends
        b.len() >= 4,
{
    (b[0] as int + 256 * (b[1] as int) + 65536 * (b[2] as int) + 16777216 * (b[3] as int)) as u32
}

/// What a list of byte strings decodes to from `b`, if it decodes.
pub uninterp spec fn decoded_byte_lists(b: Seq<u8>) -> Option<Seq<Seq<u8>>>;

/// Each length in `s`, and the number of items, fits the encoding's 32-bit length prefix.
pub open spec fn lists_bounded(s: Seq<Seq<u8>>) -> bool {
    s.len() <= u32::MAX && forall|i: int| 0 <= i < s.len() ==> #[trigger] s[i].len() <= u32::MAX
}

/// The number of messages, and each payload's length, fit the encoding's 32-bit length prefix.
pub open spec fn messages_bounded(m: Seq<(u32, Seq<u8>)>) -> bool {
    m.len() <= u32::MAX && forall|i: int| 0 <= i < m.len() ==> #[trigger] m[i].1.len() <= u32::MAX
}

/// Whether a list of byte strings can be encoded: see [`lists_bounded`].
pub fn byte_lists_fit(v: &Vec<Vec<u8>>) -> (r: bool)
    ensures
        r == lists_bounded(v.deep_view()),
{
    if v.len() > u32::MAX as usize {
        return false;
    }
    let mut i: usize = 0;
    while i < v.len()
        invariant
            i <= v@.len(),
            v@.len() <= u32::MAX,
            forall|k: int| 0 <= k < i ==> #[trigger] v.deep_view()[k].len() <= u32::MAX,
        decreases v@.len() - i,
    {
        if v[i].len() > u32::MAX as usize {
            assert(v.deep_view()[i as int].len() > u32::MAX);
            return false;
        }
        i = i + 1;
    }
    true
}

/// The `k` low bytes of `v`, least significant first.
pub open spec fn le_bytes(v: nat, k: nat) -> Seq<u8>
    decreases k,
{
    if k == 0 {
        Seq::empty()
    } else {
        seq![(v % 256) as u8] + le_bytes(v / 256, (k - 1) as nat)
    }
}

/// The compact encoding of a length: one byte below 2^6, two below 2^14, four below 2^30,
/// and otherwise the byte 3 followed by the four bytes of the length. The low two bits of
/// the first byte tell the forms apart.
pub open spec fn compact_len(n: nat) -> Seq<u8> {
    if n < 64 {
        seq![(n * 4) as u8]
    } else if n < 16384 {
        le_bytes(n * 4 + 1, 2)
    } else if n < 1073741824 {
        le_bytes(n * 4 + 2, 4)
    } else {
        seq![3u8] + le_bytes(n, 4)
    }
}

/// The encoding of a byte string: its compact length, then the bytes.
pub open spec fn encoded_bytes(b: Seq<u8>) -> Seq<u8> {
    compact_len(b.len()) + b
}

/// The encodings of the byte strings of `s`, one after another.
pub open spec fn concat_encoded_bytes(s: Seq<Seq<u8>>) -> Seq<u8>
    decreases s.len(),
{
    if s.len() == 0 {
        Seq::empty()
    } else {
        concat_encoded_bytes(s.drop_last()) + encoded_bytes(s.last())
    }
}

/// The encoding of a list of byte strings: the compact count, then each string encoded.
pub open spec fn encoded_byte_lists(s: Seq<Seq<u8>>) -> Seq<u8> {
    compact_len(s.len()) + concat_encoded_bytes(s)
}

/// The encodings of the messages of `m`, one after another: each is the four bytes of its
/// block number, then its payload encoded.
pub open spec fn concat_encoded_messages(m: Seq<(u32, Seq<u8>)>) -> Seq<u8>
    decreases m.len(),
{
    if m.len() == 0 {
        Seq::empty()
    } else {
        concat_encoded_messages(m.drop_last()) + le_bytes(m.last().0 as nat, 4) + encoded_bytes(
            m.last().1,
        )
    }
}

/// The encoding of a list of downward messages: the compact count, then each message.
pub open spec fn encoded_message_list(m: Seq<(u32, Seq<u8>)>) -> Seq<u8> {
    compact_len(m.len()) + concat_encoded_messages(m)
}

/// The 32-byte Blake2b digest of `data`.
pub uninterp spec fn blake2_256_of(data: Seq<u8>) -> Seq<u8>;

/// Relies on `<u32 as parity_scale_codec::Decode>::decode` over a byte slice: it reads the
/// first four bytes as a little-endian integer, and fails when fewer than four are given.
/// Bytes after the fourth are left unread.
#[verifier::external_body]
pub(crate) fn decode_u32(b: &Vec<u8>) -> (r: Option<u32>)
    ensures
        b@.len() >= 4 ==> r == Some(le_u32(b@)),
        b@.len() < 4 ==> r is None,
{
    <u32 as parity_scale_codec::Decode>::decode(&mut &b[..]).ok()
}

/// Relies on `<Vec<Vec<u8>> as parity_scale_codec::Decode>::decode` over a byte slice: the
/// result depends on the bytes alone.
#[verifier::external_body]
pub(crate) fn decode_byte_lists(b: &Vec<u8>) -> (r: Option<Vec<Vec<u8>>>)
    ensures
        match r {
            Some(v) => decoded_byte_lists(b@) == Some(v.deep_view()),
            None => decoded_byte_lists(b@) is None,
        },
{
    <Vec<Vec<u8>> as parity_scale_codec::Decode>::decode(&mut &b[..]).ok()
}

/// Relies on `<Vec<Vec<u8>> as parity_scale_codec::Encode>::encode`: the compact count, then
/// each byte string with its compact length. It panics on a length above `u32::MAX`, which is left out.
#[verifier::external_body]
pub(crate) fn encode_byte_lists(v: &Vec<Vec<u8>>) -> (r: Vec<u8>)
    requires
        lists_bounded(v.deep_view()),
    ensures
        r@ == encoded_byte_lists(v.deep_view()),
{
    parity_scale_codec::Encode::encode(v)
}

/// Relies on `<Vec<u8> as parity_scale_codec::Encode>::encode`: the compact length, then the
/// bytes. It panics on a length above `u32::MAX`, which is left out.
#[verifier::external_body]
pub(crate) fn encode_bytes(b: &Vec<u8>) -> (r: Vec<u8>)
    requires
        b@.len() <= u32::MAX,
    ensures
        r@ == encoded_bytes(b@),
{
    parity_scale_codec::Encode::encode(b)
}

/// Relies on `sp_crypto_hashing::blake2_256`: a 32-byte digest that depends on the data alone.
#[verifier::external_body]
pub(crate) fn blake2_256(data: &Vec<u8>) -> (r: Vec<u8>)
    ensures
        r@ == blake2_256_of(data@),
        r@.len() == 32,
{
    sp_crypto_hashing::blake2_256(&data[..]).to_vec()
}

/// Relies on `<Vec<(u32, Vec<u8>)> as parity_scale_codec::Encode>::encode`: the compact
/// count, then each pair as its little-endian `u32` and its byte string with compact length. It panics on a length above `u32::MAX`, which is left out.
#[verifier::external_body]
pub(crate) fn encode_message_list(m: &Vec<(u32, Vec<u8>)>) -> (r: Vec<u8>)
    requires
        messages_bounded(m@.map_values(|p: (u32, Vec<u8>)| (p.0, p.1@))),
    ensures
        r@ == encoded_message_list(m@.map_values(|p: (u32, Vec<u8>)| (p.0, p.1@))),
{
    parity_scale_codec::Encode::encode(m)
}

} // verus!
