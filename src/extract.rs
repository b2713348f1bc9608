//! Packaging a freshly imported block as a candidate, with the outputs read from its state.
use vstd::prelude::*;
use crate::scale::{
    blake2_256, blake2_256_of, byte_lists_fit, decode_byte_lists, lists_bounded, decode_u32, decoded_byte_lists,
    encode_byte_lists, encode_bytes, encoded_byte_lists, encoded_bytes, le_u32,
};

verus! {

/// A built block as the validators replay it: the encoded header, the encoded list of
/// extrinsics, and the trie nodes of the execution proof.
#[derive(Clone, Debug)]
pub struct ParachainBlockData {
    pub header: Vec<u8>,
    pub extrinsics: Vec<u8>,
    pub storage_proof: Vec<Vec<u8>>,
}

/// The mathematical value of a [`ParachainBlockData`].
pub struct BlockDataView {
    pub header: Seq<u8>,
    pub extrinsics: Seq<u8>,
    pub storage_proof: Seq<Seq<u8>>,
}

impl View for ParachainBlockData {
    type V = BlockDataView;

    open spec fn view(&self) -> BlockDataView {
        BlockDataView {
            header: self.header@,
            extrinsics: self.extrinsics@,
            storage_proof: self.storage_proof.deep_view(),
        }
    }
}

/// The encoding of a block: header, extrinsics, then the proof's trie nodes.
pub open spec fn encoded_block(b: BlockDataView) -> Seq<u8> {
    b.header + b.extrinsics + encoded_byte_lists(b.storage_proof)
}

impl ParachainBlockData {
    /// The encoding of the block, which is the proof-of-validity payload.
    pub fn encode(&self) -> (r: Vec<u8>)
        requires
            lists_bounded(self@.storage_proof),
        ensures
            r@ == encoded_block(self@),
    {
        let mut out = self.header.clone();
        assert(out@ =~= self.header@);
        let mut rest = self.extrinsics.clone();
        assert(rest@ =~= self.extrinsics@);
        out.append(&mut rest);
        let mut proof_bytes = encode_byte_lists(&self.storage_proof);
        out.append(&mut proof_bytes);
        out
    }
}

/// The hash of the proof-of-validity payload made of these block data: the Blake2b-256
/// digest of its encoding.
pub open spec fn pov_hash_of(block_data: Seq<u8>) -> Seq<u8> {
    blake2_256_of(encoded_bytes(block_data))
}

/// Hashes the proof-of-validity payload made of `block_data`.
pub fn pov_hash(block_data: &Vec<u8>) -> (r: Vec<u8>)
    requires
        block_data@.len() <= u32::MAX,
    ensures
        r@ == pov_hash_of(block_data@),
        r@.len() == 32,
{
    let encoded = encode_bytes(block_data);
    blake2_256(&encoded)
}

/// State key, as text, of the upward messages a block sends to the parent chain.
pub const UPWARD_MESSAGES_KEY: &'static str = ":cumulus_upward_messages:";

/// State key, as text, of the new validation code a block sets, if any.
pub const NEW_VALIDATION_CODE_KEY: &'static str = ":cumulus_new_validation_code:";

/// State key, as text, of the count of downward messages a block processed.
pub const PROCESSED_DOWNWARD_MESSAGES_KEY: &'static str = ":cumulus_processed_downward_messages:";

/// The values found in a block's post-execution state under the three well-known keys
/// (upward messages, new validation code, count of processed downward messages).
#[derive(Clone, Debug)]
pub struct StateReads {
    pub upward_messages: Option<Vec<u8>>,
    pub new_validation_code: Option<Vec<u8>>,
    pub processed_downward_messages: Option<Vec<u8>>,
}

/// The mathematical value of a [`StateReads`].
pub struct StateReadsView {
    pub upward_messages: Option<Seq<u8>>,
    pub new_validation_code: Option<Seq<u8>>,
    pub processed_downward_messages: Option<Seq<u8>>,
}

/// The view of a value that may be missing.
pub open spec fn opt_bytes(v: Option<Vec<u8>>) -> Option<Seq<u8>> {
    match v {
        Some(x) => Some(x@),
        None => None,
    }
}

impl View for StateReads {
    type V = StateReadsView;

    open spec fn view(&self) -> StateReadsView {
        StateReadsView {
            upward_messages: opt_bytes(self.upward_messages),
            new_validation_code: opt_bytes(self.new_validation_code),
            processed_downward_messages: opt_bytes(self.processed_downward_messages),
        }
    }
}

/// A message to a sibling chain.
#[derive(Clone, Debug)]
pub struct OutboundHrmpMessage {
    pub recipient: u32,
    pub data: Vec<u8>,
}

/// A finished candidate.
#[derive(Clone, Debug)]
pub struct Collation {
    pub upward_messages: Vec<Vec<u8>>,
    pub new_validation_code: Option<Vec<u8>>,
    pub head_data: Vec<u8>,
    pub proof_of_validity: Vec<u8>,
    pub processed_downward_messages: u32,
    pub horizontal_messages: Vec<OutboundHrmpMessage>,
    pub hrmp_watermark: u32,
}

/// The mathematical value of a [`Collation`].
pub struct CollationView {
    pub upward_messages: Seq<Seq<u8>>,
    pub new_validation_code: Option<Seq<u8>>,
    pub head_data: Seq<u8>,
    pub proof_of_validity: Seq<u8>,
    pub processed_downward_messages: u32,
    pub horizontal_messages: Seq<(u32, Seq<u8>)>,
    pub hrmp_watermark: u32,
}

impl View for Collation {
    type V = CollationView;

    open spec fn view(&self) -> CollationView {
        CollationView {
            upward_messages: self.upward_messages.deep_view(),
            new_validation_code: opt_bytes(self.new_validation_code),
            head_data: self.head_data@,
            proof_of_validity: self.proof_of_validity@,
            processed_downward_messages: self.processed_downward_messages,
            horizontal_messages: self.horizontal_messages@.map_values(
                |m: OutboundHrmpMessage| (m.recipient, m.data@),
            ),
            hrmp_watermark: self.hrmp_watermark,
        }
    }
}

/// The upward messages in the state: none when the key is absent, nothing when its value
/// does not decode.
pub open spec fn upward_from(v: Option<Seq<u8>>) -> Option<Seq<Seq<u8>>> {
    match v {
        None => Some(Seq::empty()),
        Some(b) => decoded_byte_lists(b),
    }
}

/// The count of processed downward messages in the state: zero when the key is absent,
/// nothing when its value is shorter than four bytes.
pub open spec fn processed_from(v: Option<Seq<u8>>) -> Option<u32> {
    match v {
        None => Some(0u32),
        Some(b) => if b.len() >= 4 {
            Some(le_u32(b))
        } else {
            None
        },
    }
}

/// The block can be encoded, and its encoding can be encoded as a proof-of-validity payload.
pub open spec fn block_fits(block: BlockDataView) -> bool {
    lists_bounded(block.storage_proof) && encoded_block(block).len() <= u32::MAX
}

/// The candidate made of `block` and the outputs read from its state; the watermark is
/// the relay-chain block number of the request. Nothing where the block is too long to
/// encode, or a value present in the state does not decode.
pub open spec fn extracted(
    block: BlockDataView,
    reads: StateReadsView,
    relay_block_number: u32,
) -> Option<CollationView> {
    match (upward_from(reads.upward_messages), processed_from(reads.processed_downward_messages)) {
        (Some(up), Some(count)) => if !block_fits(block) {
            None
        } else {
            Some(
            CollationView {
                upward_messages: up,
                new_validation_code: reads.new_validation_code,
                head_data: block.header,
                proof_of_validity: encoded_block(block),
                processed_downward_messages: count,
                horizontal_messages: Seq::empty(),
                hrmp_watermark: relay_block_number,
            },
        )
        },
        _ => None,
    }
}

/// Builds the candidate of an imported block from the values read in its post-execution
/// state. Nothing comes back when a value that is present does not decode.
pub fn build_collation(block: &ParachainBlockData, reads: &StateReads, relay_block_number: u32) -> (r:
    Option<Collation>)
    ensures
        match r {
            Some(c) => extracted(block@, reads@, relay_block_number) == Some(c@),
            None => extracted(block@, reads@, relay_block_number) is None,
        },
{
    if !byte_lists_fit(&block.storage_proof) {
        return None;
    }
    let block_data = block.encode();
    if block_data.len() > u32::MAX as usize {
        return None;
    }
    let head_data = block.header.clone();
    assert(head_data@ =~= block.header@);
    let upward_messages: Vec<Vec<u8>> = match &reads.upward_messages {
        Some(v) => match decode_byte_lists(v) {
            Some(msgs) => msgs,
            None => return None,
        },
        None => {
            let empty: Vec<Vec<u8>> = Vec::new();
            assert(empty.deep_view() =~= Seq::<Seq<u8>>::empty());
            empty
        },
    };
    let new_validation_code = match &reads.new_validation_code {
        Some(v) => {
            let code = v.clone();
            assert(code@ =~= v@);
            Some(code)
        },
        None => None,
    };
    let processed_downward_messages: u32 = match &reads.processed_downward_messages {
        Some(v) => match decode_u32(v) {
            Some(n) => n,
            None => return None,
        },
        None => 0,
    };
    let horizontal_messages: Vec<OutboundHrmpMessage> = Vec::new();
    let c = Collation {
        upward_messages,
        new_validation_code,
        head_data,
        proof_of_validity: block_data,
        processed_downward_messages,
        horizontal_messages,
        hrmp_watermark: relay_block_number,
    };
    assert(c@.horizontal_messages =~= Seq::<(u32, Seq<u8>)>::empty());
    Some(c)
}

/// Extraction is a function of the state it reads: run on the same block and the same
/// snapshot twice, it gives the same outputs.
pub proof fn extraction_is_idempotent(
    b1: BlockDataView,
    r1: StateReadsView,
    b2: BlockDataView,
    r2: StateReadsView,
    n: u32,
)
    requires
        b1 == b2,
        r1 == r2,
    ensures
        extracted(b1, r1, n) == extracted(b2, r2, n),
{
}

/// A state without an upward-message entry gives an empty list of upward messages, not a
/// failure, as long as the count of processed downward messages decodes.
pub proof fn missing_upward_messages_give_empty_list(
    block: BlockDataView,
    reads: StateReadsView,
    n: u32,
)
    requires
        reads.upward_messages is None,
        reads.processed_downward_messages matches Some(b) ==> b.len() >= 4,
        block_fits(block),
    ensures
        extracted(block, reads, n) matches Some(c) && c.upward_messages == Seq::<Seq<u8>>::empty(),
{
}

} // verus!
