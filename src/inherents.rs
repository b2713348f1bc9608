//! The inherent data handed to the block builder.
use vstd::prelude::*;
use crate::scale::{encode_message_list, encoded_message_list, messages_bounded};

verus! {

/// Identifier of the validation-data inherent: the bytes `valfunp0` read little-endian.
pub const VALIDATION_DATA_IDENTIFIER: u64 = 0x30706e75666c6176;

/// Identifier of the downward-messages inherent: the bytes `cumdownm` read little-endian.
pub const DOWNWARD_MESSAGES_IDENTIFIER: u64 = 0x6d6e776f646d7563;

/// A message sent down from the parent chain.
#[derive(Clone, Debug)]
pub struct InboundDownwardMessage {
    pub sent_at: u32,
    pub msg: Vec<u8>,
}

impl View for InboundDownwardMessage {
    type V = (u32, Seq<u8>);

    open spec fn view(&self) -> (u32, Seq<u8>) {
        (self.sent_at, self.msg@)
    }
}

/// The views of a list of downward messages.
pub open spec fn messages_view(m: Seq<InboundDownwardMessage>) -> Seq<(u32, Seq<u8>)> {
    m.map_values(|x: InboundDownwardMessage| x@)
}

/// The encoding of a list of downward messages.
pub fn encode_downward_messages(m: &Vec<InboundDownwardMessage>) -> (r: Vec<u8>)
    requires
        messages_bounded(messages_view(m@)),
    ensures
        r@ == encoded_message_list(messages_view(m@)),
{
    let mut pairs: Vec<(u32, Vec<u8>)> = Vec::new();
    let mut i: usize = 0;
    while i < m.len()
        invariant
            i <= m@.len(),
            pairs@.map_values(|p: (u32, Vec<u8>)| (p.0, p.1@)) =~= messages_view(m@.subrange(0, i as int)),
        decreases m@.len() - i,
    {
        let item = &m[i];
        let msg = item.msg.clone();
        assert(msg@ =~= item.msg@);
        let ghost before = pairs@;
        pairs.push((item.sent_at, msg));
        proof {
            assert(m@.subrange(0, i + 1) =~= m@.subrange(0, i as int).push(m@[i as int]));
            assert(pairs@ =~= before.push((item.sent_at, msg)));
            assert(pairs@.map_values(|p: (u32, Vec<u8>)| (p.0, p.1@)) =~= before.map_values(
                |p: (u32, Vec<u8>)| (p.0, p.1@),
            ).push((item.sent_at, item.msg@)));
        }
        i = i + 1;
    }
    proof {
        assert(m@.subrange(0, m@.len() as int) =~= m@);
    }
    encode_message_list(&pairs)
}

/// Whether `entries` holds an entry under `id`.
pub open spec fn has_id(entries: Seq<(u64, Seq<u8>)>, id: u64) -> bool {
    exists|i: int| 0 <= i < entries.len() && #[trigger] entries[i].0 == id
}

/// Every identifier stands at most once.
pub open spec fn ids_unique(entries: Seq<(u64, Seq<u8>)>) -> bool {
    forall|i: int, j: int|
        0 <= i < entries.len() && 0 <= j < entries.len() && #[trigger] entries[i].0 == #[trigger] entries[j].0
            ==> i == j
}

/// Why a value could not be put into an inherent bundle.
#[derive(Clone, Copy, Debug, PartialEq, Eq, Structural)]
pub enum InherentError {
    /// An entry under that identifier is already there.
    DataExists,
}

/// Inherent data: encoded payloads, each under its own identifier, in order of insertion.
#[derive(Clone, Debug)]
pub struct InherentBundle {
    entries: Vec<(u64, Vec<u8>)>,
}

impl View for InherentBundle {
    type V = Seq<(u64, Seq<u8>)>;

    closed spec fn view(&self) -> Seq<(u64, Seq<u8>)> {
        self.entries@.map_values(|p: (u64, Vec<u8>)| (p.0, p.1@))
    }
}

impl InherentBundle {
    /// The bundle is well formed when no identifier stands twice.
    pub open spec fn wf(&self) -> bool {
        ids_unique(self@)
    }

    /// An empty bundle.
    pub fn new() -> (r: InherentBundle)
        ensures
            r@ == Seq::<(u64, Seq<u8>)>::empty(),
            r.wf(),
    {
        InherentBundle { entries: Vec::new() }
    }

    /// Whether an entry stands under `id`.
    pub fn contains(&self, id: u64) -> (r: bool)
        ensures
            r == has_id(self@, id),
    {
        let mut i: usize = 0;
        while i < self.entries.len()
            invariant
                i <= self.entries@.len(),
                forall|k: int| 0 <= k < i ==> #[trigger] self@[k].0 != id,
            decreases self.entries@.len() - i,
        {
            if self.entries[i].0 == id {
                assert(self@[i as int].0 == id);
                return true;
            }
            i = i + 1;
        }
        false
    }

    /// Puts `data` under `id`, unless an entry already stands there.
    pub fn put_data(&mut self, id: u64, data: Vec<u8>) -> (r: Result<(), InherentError>)
        ensures
            has_id(old(self)@, id) ==> r == Err::<(), InherentError>(InherentError::DataExists)
                && final(self)@ == old(self)@,
            !has_id(old(self)@, id) ==> r is Ok && final(self)@ == old(self)@.push((id, data@)),
            old(self).wf() ==> final(self).wf(),
    {
        if self.contains(id) {
            return Err(InherentError::DataExists);
        }
        self.entries.push((id, data));
        proof {
            assert(self@ =~= old(self)@.push((id, data@)));
        }
        Ok(())
    }

    /// The entries, in order of insertion.
    pub fn entries(&self) -> (r: &Vec<(u64, Vec<u8>)>)
        ensures
            r@.map_values(|p: (u64, Vec<u8>)| (p.0, p.1@)) == self@,
    {
        &self.entries
    }
}

/// The view of a bundle that may be missing.
pub open spec fn bundle_view(b: Option<InherentBundle>) -> Option<Seq<(u64, Seq<u8>)>> {
    match b {
        Some(x) => Some(x@),
        None => None,
    }
}

/// The view of the outcome of a downward-message retrieval.
pub open spec fn retrieved_view(d: Option<Vec<InboundDownwardMessage>>) -> Option<Seq<(u32, Seq<u8>)>> {
    match d {
        Some(x) => Some(messages_view(x@)),
        None => None,
    }
}

/// Whether the messages can be encoded: see [`messages_bounded`].
pub fn messages_fit(m: &Vec<InboundDownwardMessage>) -> (r: bool)
    ensures
        r == messages_bounded(messages_view(m@)),
{
    if m.len() > u32::MAX as usize {
        return false;
    }
    let mut i: usize = 0;
    while i < m.len()
        invariant
            i <= m@.len(),
            m@.len() <= u32::MAX,
            forall|k: int| 0 <= k < i ==> #[trigger] messages_view(m@)[k].1.len() <= u32::MAX,
        decreases m@.len() - i,
    {
        if m[i].msg.len() > u32::MAX as usize {
            assert(messages_view(m@)[i as int].1.len() > u32::MAX);
            return false;
        }
        i = i + 1;
    }
    true
}

/// The base bundle with the validation data added; nothing where there is no base, or its
/// validation-data entry is taken already.
pub open spec fn validation_added(base: Option<Seq<(u64, Seq<u8>)>>, validation_data: Seq<u8>) -> Option<
    Seq<(u64, Seq<u8>)>,
> {
    match base {
        Some(b) => if has_id(b, VALIDATION_DATA_IDENTIFIER) {
            None
        } else {
            Some(b.push((VALIDATION_DATA_IDENTIFIER, validation_data)))
        },
        None => None,
    }
}

/// The bundle with the encoded downward messages added; nothing where retrieval failed, the
/// messages are too long to encode, or the entry is taken already. An empty list is added
/// like any other.
pub open spec fn downward_added(b: Seq<(u64, Seq<u8>)>, downward: Option<Seq<(u32, Seq<u8>)>>) -> Option<
    Seq<(u64, Seq<u8>)>,
> {
    match downward {
        Some(d) => if !messages_bounded(d) || has_id(b, DOWNWARD_MESSAGES_IDENTIFIER) {
            None
        } else {
            Some(b.push((DOWNWARD_MESSAGES_IDENTIFIER, encoded_message_list(d))))
        },
        None => None,
    }
}

/// What inherent assembly gives: the validation data added first, then the messages.
pub open spec fn assembled(
    base: Option<Seq<(u64, Seq<u8>)>>,
    validation_data: Seq<u8>,
    downward: Option<Seq<(u32, Seq<u8>)>>,
) -> Option<Seq<(u64, Seq<u8>)>> {
    match validation_added(base, validation_data) {
        Some(b) => downward_added(b, downward),
        None => None,
    }
}

/// Puts the validation data into the bundle the inherent providers made.
pub fn add_validation_data(base: Option<InherentBundle>, validation_data: &Vec<u8>) -> (r: Option<
    InherentBundle,
>)
    ensures
        bundle_view(r) == validation_added(bundle_view(base), validation_data@),
{
    let mut bundle = match base {
        Some(b) => b,
        None => return None,
    };
    if bundle.put_data(VALIDATION_DATA_IDENTIFIER, validation_data.clone()).is_err() {
        return None;
    }
    Some(bundle)
}

/// Puts the downward messages retrieved for the relay parent into the bundle; `None`
/// stands for a failed retrieval.
pub fn add_downward_messages(bundle: InherentBundle, downward: Option<Vec<InboundDownwardMessage>>) -> (r:
    Option<InherentBundle>)
    ensures
        bundle_view(r) == downward_added(bundle@, retrieved_view(downward)),
{
    let mut bundle = bundle;
    let messages = match downward {
        Some(d) => d,
        None => return None,
    };
    if !messages_fit(&messages) {
        return None;
    }
    let encoded = encode_downward_messages(&messages);
    if bundle.put_data(DOWNWARD_MESSAGES_IDENTIFIER, encoded).is_err() {
        return None;
    }
    Some(bundle)
}

/// Assembles the inherent data for one request in one call: the bundle the inherent
/// providers made, the validation data, and the downward messages retrieved for the relay
/// parent. See [`assembled`].
pub fn inherent_data(
    base: Option<InherentBundle>,
    validation_data: &Vec<u8>,
    downward: Option<Vec<InboundDownwardMessage>>,
) -> (r: Option<InherentBundle>)
    ensures
        bundle_view(r) == assembled(bundle_view(base), validation_data@, retrieved_view(downward)),
{
    match add_validation_data(base, validation_data) {
        Some(b) => add_downward_messages(b, downward),
        None => None,
    }
}

} // verus!
