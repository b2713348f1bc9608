//! One request for a candidate, as a state machine: each outside answer is an event, and
//! each step says what to do next.
use vstd::prelude::*;
use crate::extract::{build_collation, extracted, pov_hash, pov_hash_of, BlockDataView, Collation,
    CollationView, ParachainBlockData, StateReads, StateReadsView};
use crate::inherents::{add_downward_messages, add_validation_data, bundle_view, downward_added,
    retrieved_view, validation_added, InboundDownwardMessage, InherentBundle};
use crate::status::{buildable, check_block_status, BlockStatus};

verus! {

/// How long the proposer may take to build a block, in milliseconds.
pub const PROPOSE_DEADLINE_MS: u64 = 500;

/// What the parent chain hands over with a request.
#[derive(Clone, Debug)]
pub struct ValidationInput {
    /// The parent-chain block number the request is relative to.
    pub relay_block_number: u32,
    /// The encoded header of the child chain's last head, as the parent chain sees it.
    pub parent_head: Vec<u8>,
    /// The encoded validation data, handed to the block builder as an inherent.
    pub validation_data: Vec<u8>,
}

/// The mathematical value of a [`ValidationInput`].
pub struct ValidationInputView {
    pub relay_block_number: u32,
    pub parent_head: Seq<u8>,
    pub validation_data: Seq<u8>,
}

impl View for ValidationInput {
    type V = ValidationInputView;

    open spec fn view(&self) -> ValidationInputView {
        ValidationInputView {
            relay_block_number: self.relay_block_number,
            parent_head: self.parent_head@,
            validation_data: self.validation_data@,
        }
    }
}

/// A block the proposer built: its encoded header, its hash, its encoded extrinsics, and
/// the execution proof, if the proposer gave one.
#[derive(Clone, Debug)]
pub struct Proposal {
    pub header: Vec<u8>,
    pub block_hash: Vec<u8>,
    pub extrinsics: Vec<u8>,
    pub proof: Option<Vec<Vec<u8>>>,
}

/// The mathematical value of a [`Proposal`].
pub struct ProposalView {
    pub header: Seq<u8>,
    pub block_hash: Seq<u8>,
    pub extrinsics: Seq<u8>,
    pub proof: Option<Seq<Seq<u8>>>,
}

impl View for Proposal {
    type V = ProposalView;

    open spec fn view(&self) -> ProposalView {
        ProposalView {
            header: self.header@,
            block_hash: self.block_hash@,
            extrinsics: self.extrinsics@,
            proof: match self.proof {
                Some(p) => Some(p.deep_view()),
                None => None,
            },
        }
    }
}

/// An outside answer. `None` and `false` stand for a failure of the service asked.
pub enum Event {
    /// The hash of the decoded parent head; `None` when its bytes do not decode.
    HeadDecoded(Option<Vec<u8>>),
    /// The local status of the parent head.
    Status(Option<BlockStatus>),
    /// Whether the proposer was made ready.
    ProposerInitialized(bool),
    /// The bundle the inherent providers made.
    BaseInherents(Option<InherentBundle>),
    /// The downward messages retrieved for the relay parent.
    Downward(Option<Vec<InboundDownwardMessage>>),
    /// What the proposer built.
    Proposed(Option<Proposal>),
    /// Whether the block was imported.
    Imported(bool),
    /// The values read from the imported block's state; `None` when the state is not there.
    StateRead(Option<StateReads>),
}

/// The mathematical value of an [`Event`].
pub enum EventView {
    HeadDecoded(Option<Seq<u8>>),
    Status(Option<BlockStatus>),
    ProposerInitialized(bool),
    BaseInherents(Option<Seq<(u64, Seq<u8>)>>),
    Downward(Option<Seq<(u32, Seq<u8>)>>),
    Proposed(Option<ProposalView>),
    Imported(bool),
    StateRead(Option<StateReadsView>),
}

impl View for Event {
    type V = EventView;

    open spec fn view(&self) -> EventView {
        match self {
            Event::HeadDecoded(h) => EventView::HeadDecoded(
                match h {
                    Some(x) => Some(x@),
                    None => None,
                },
            ),
            Event::Status(s) => EventView::Status(*s),
            Event::ProposerInitialized(b) => EventView::ProposerInitialized(*b),
            Event::BaseInherents(b) => EventView::BaseInherents(bundle_view(*b)),
            Event::Downward(d) => EventView::Downward(retrieved_view(*d)),
            Event::Proposed(p) => EventView::Proposed(
                match p {
                    Some(x) => Some(x@),
                    None => None,
                },
            ),
            Event::Imported(b) => EventView::Imported(*b),
            Event::StateRead(r) => EventView::StateRead(
                match r {
                    Some(x) => Some(x@),
                    None => None,
                },
            ),
        }
    }
}

/// A block to import: never made best by local fork choice, since the parent chain decides.
/// `parent_hash` is the hash of the head it was built on.
#[derive(Clone, Debug)]
pub struct ImportRequest {
    pub header: Vec<u8>,
    pub parent_hash: Vec<u8>,
    pub extrinsics: Vec<u8>,
    pub fork_choice_best: bool,
}

/// The mathematical value of an [`ImportRequest`].
pub struct ImportRequestView {
    pub header: Seq<u8>,
    pub parent_hash: Seq<u8>,
    pub extrinsics: Seq<u8>,
    pub fork_choice_best: bool,
}

/// What the driver of a request does next.
pub enum Action {
    /// Decode these header bytes and answer with the hash of the header.
    DecodeHead(Vec<u8>),
    /// Query the local status of the block with this hash.
    QueryStatus(Vec<u8>),
    /// Make the proposer ready on the head these header bytes decode to.
    InitProposer(Vec<u8>),
    /// Make the base inherent data from the inherent providers.
    CreateInherents,
    /// Retrieve the downward messages for this relay parent.
    RetrieveDownward(Vec<u8>),
    /// Build a block with these inherents, within the deadline, recording a proof if asked.
    Propose { inherents: InherentBundle, deadline_ms: u64, record_proof: bool },
    /// Import this block.
    Import(ImportRequest),
    /// Read the well-known values in the state of the block with this hash.
    ReadState(Vec<u8>),
    /// Hand the block hash and the hash of its proof-of-validity payload to the
    /// announcement coordinator; the candidate is then ready.
    Announce { block_hash: Vec<u8>, pov_hash: Vec<u8> },
    /// Nothing more: the request is over.
    Stop,
}

/// The mathematical value of an [`Action`].
pub enum ActionView {
    DecodeHead(Seq<u8>),
    QueryStatus(Seq<u8>),
    InitProposer(Seq<u8>),
    CreateInherents,
    RetrieveDownward(Seq<u8>),
    Propose { inherents: Seq<(u64, Seq<u8>)>, deadline_ms: u64, record_proof: bool },
    Import(ImportRequestView),
    ReadState(Seq<u8>),
    Announce { block_hash: Seq<u8>, pov_hash: Seq<u8> },
    Stop,
}

impl View for Action {
    type V = ActionView;

    open spec fn view(&self) -> ActionView {
        match self {
            Action::DecodeHead(b) => ActionView::DecodeHead(b@),
            Action::QueryStatus(h) => ActionView::QueryStatus(h@),
            Action::InitProposer(h) => ActionView::InitProposer(h@),
            Action::CreateInherents => ActionView::CreateInherents,
            Action::RetrieveDownward(h) => ActionView::RetrieveDownward(h@),
            Action::Propose { inherents, deadline_ms, record_proof } => ActionView::Propose {
                inherents: inherents@,
                deadline_ms: *deadline_ms,
                record_proof: *record_proof,
            },
            Action::Import(r) => ActionView::Import(
                ImportRequestView {
                    header: r.header@,
                    parent_hash: r.parent_hash@,
                    extrinsics: r.extrinsics@,
                    fork_choice_best: r.fork_choice_best,
                },
            ),
            Action::ReadState(h) => ActionView::ReadState(h@),
            Action::Announce { block_hash, pov_hash } => ActionView::Announce {
                block_hash: block_hash@,
                pov_hash: pov_hash@,
            },
            Action::Stop => ActionView::Stop,
        }
    }
}

/// Where a request stands.
#[derive(Clone, Copy, Debug, PartialEq, Eq, Structural)]
pub enum Stage {
    DecodingHead,
    CheckingStatus,
    InitializingProposer,
    CreatingInherents,
    RetrievingDownward,
    Proposing,
    Importing,
    ReadingState,
    Done,
    Aborted,
}


/// One request for a candidate on a relay parent.
pub struct Collator {
    stage: Stage,
    relay_parent: Vec<u8>,
    input: ValidationInput,
    head_hash: Vec<u8>,
    inherents: Option<InherentBundle>,
    block: Option<ParachainBlockData>,
    block_hash: Vec<u8>,
    candidate: Option<Collation>,
}

/// The mathematical value of a [`Collator`].
pub struct CollatorView {
    pub stage: Stage,
    pub relay_parent: Seq<u8>,
    pub input: ValidationInputView,
    pub head_hash: Seq<u8>,
    pub inherents: Option<Seq<(u64, Seq<u8>)>>,
    pub block: Option<BlockDataView>,
    pub block_hash: Seq<u8>,
    pub candidate: Option<CollationView>,
}

impl View for Collator {
    type V = CollatorView;

    closed spec fn view(&self) -> CollatorView {
        CollatorView {
            stage: self.stage,
            relay_parent: self.relay_parent@,
            input: self.input@,
            head_hash: self.head_hash@,
            inherents: bundle_view(self.inherents),
            block: match self.block {
                Some(b) => Some(b@),
                None => None,
            },
            block_hash: self.block_hash@,
            candidate: match self.candidate {
                Some(c) => Some(c@),
                None => None,
            },
        }
    }
}

/// A fresh request.
pub open spec fn initial(relay_parent: Seq<u8>, input: ValidationInputView) -> CollatorView {
    CollatorView {
        stage: Stage::DecodingHead,
        relay_parent,
        input,
        head_hash: Seq::empty(),
        inherents: None,
        block: None,
        block_hash: Seq::empty(),
        candidate: None,
    }
}

/// The request is over, with or without a candidate.
pub open spec fn finished(stage: Stage) -> bool {
    stage == Stage::Done || stage == Stage::Aborted
}

/// Moves to `stage`, keeping the rest.
pub open spec fn at(s: CollatorView, stage: Stage) -> CollatorView {
    CollatorView { stage, ..s }
}

/// Gives up the request.
pub open spec fn abort(s: CollatorView) -> (CollatorView, ActionView) {
    (at(s, Stage::Aborted), ActionView::Stop)
}

/// One step of a request: the state after `e` and what to do next. An event that does not
/// answer the stage's question ends the request, as does every failure; a finished request
/// stays as it is.
pub open spec fn transition(s: CollatorView, e: EventView) -> (CollatorView, ActionView) {
    match s.stage {
        Stage::DecodingHead => match e {
            EventView::HeadDecoded(Some(h)) => (
                CollatorView { stage: Stage::CheckingStatus, head_hash: h, ..s },
                ActionView::QueryStatus(h),
            ),
            _ => abort(s),
        },
        Stage::CheckingStatus => match e {
            EventView::Status(st) => if buildable(st) {
                (at(s, Stage::InitializingProposer), ActionView::InitProposer(s.input.parent_head))
            } else {
                abort(s)
            },
            _ => abort(s),
        },
        Stage::InitializingProposer => match e {
            EventView::ProposerInitialized(true) => (at(s, Stage::CreatingInherents), ActionView::CreateInherents),
            _ => abort(s),
        },
        Stage::CreatingInherents => match e {
            EventView::BaseInherents(base) => match validation_added(base, s.input.validation_data) {
                Some(b) => (
                    CollatorView { stage: Stage::RetrievingDownward, inherents: Some(b), ..s },
                    ActionView::RetrieveDownward(s.relay_parent),
                ),
                None => abort(s),
            },
            _ => abort(s),
        },
        Stage::RetrievingDownward => match (e, s.inherents) {
            (EventView::Downward(downward), Some(b0)) => match downward_added(b0, downward) {
                Some(b) => (
                    CollatorView { stage: Stage::Proposing, inherents: None, ..s },
                    ActionView::Propose {
                        inherents: b,
                        deadline_ms: PROPOSE_DEADLINE_MS,
                        record_proof: true,
                    },
                ),
                None => abort(CollatorView { inherents: None, ..s }),
            },
            _ => abort(s),
        },
        Stage::Proposing => match e {
            EventView::Proposed(Some(p)) => match p.proof {
                Some(proof) => (
                    CollatorView {
                        stage: Stage::Importing,
                        block: Some(
                            BlockDataView {
                                header: p.header,
                                extrinsics: p.extrinsics,
                                storage_proof: proof,
                            },
                        ),
                        block_hash: p.block_hash,
                        ..s
                    },
                    ActionView::Import(
                        ImportRequestView {
                            header: p.header,
                            parent_hash: s.head_hash,
                            extrinsics: p.extrinsics,
                            fork_choice_best: false,
                        },
                    ),
                ),
                None => abort(s),
            },
            _ => abort(s),
        },
        Stage::Importing => match e {
            EventView::Imported(true) => (at(s, Stage::ReadingState), ActionView::ReadState(s.block_hash)),
            _ => abort(s),
        },
        Stage::ReadingState => match (e, s.block) {
            (EventView::StateRead(Some(r)), Some(b)) => match extracted(
                b,
                r,
                s.input.relay_block_number,
            ) {
                Some(c) => (
                    CollatorView { stage: Stage::Done, candidate: Some(c), ..s },
                    ActionView::Announce {
                        block_hash: s.block_hash,
                        pov_hash: pov_hash_of(c.proof_of_validity),
                    },
                ),
                None => abort(s),
            },
            _ => abort(s),
        },
        Stage::Done => (s, ActionView::Stop),
        Stage::Aborted => (s, ActionView::Stop),
    }
}

/// The state after a sequence of events, and the actions asked for on the way.
pub open spec fn run(s: CollatorView, es: Seq<EventView>) -> (CollatorView, Seq<ActionView>)
    decreases es.len(),
{
    if es.len() == 0 {
        (s, Seq::empty())
    } else {
        let (t, a) = transition(s, es[0]);
        let (u, acts) = run(t, es.drop_first());
        (u, seq![a] + acts)
    }
}

/// No import is asked for among `acts`.
pub open spec fn no_import(acts: Seq<ActionView>) -> bool {
    forall|i: int| 0 <= i < acts.len() ==> !(#[trigger] acts[i] is Import)
}

impl Collator {
    /// A fresh request on `relay_parent` with the parent chain's `input`.
    pub fn new(relay_parent: Vec<u8>, input: ValidationInput) -> (r: Collator)
        ensures
            r@ == initial(relay_parent@, input@),
    {
        let r = Collator {
            stage: Stage::DecodingHead,
            relay_parent,
            input,
            head_hash: Vec::new(),
            inherents: None,
            block: None,
            block_hash: Vec::new(),
            candidate: None,
        };
        assert(r@.head_hash =~= Seq::<u8>::empty());
        assert(r@.block_hash =~= Seq::<u8>::empty());
        r
    }

    /// The first thing to do: decode the parent head given with the request.
    pub fn start(&self) -> (a: Action)
        ensures
            a@ == ActionView::DecodeHead(self@.input.parent_head),
    {
        let head = self.input.parent_head.clone();
        assert(head@ =~= self.input.parent_head@);
        Action::DecodeHead(head)
    }

    /// Where the request stands.
    pub fn stage(&self) -> (r: Stage)
        ensures
            r == self@.stage,
    {
        self.stage
    }

    /// The candidate, once the request is done.
    pub fn candidate(&self) -> (r: Option<&Collation>)
        ensures
            match r {
                Some(c) => self@.candidate == Some(c@),
                None => self@.candidate is None,
            },
    {
        match &self.candidate {
            Some(c) => Some(c),
            None => None,
        }
    }

    /// Takes the answer to the last action and says what to do next.
    pub fn step(&mut self, event: Event) -> (a: Action)
        ensures
            (final(self)@, a@) == transition(old(self)@, event@),
    {
        match self.stage {
            Stage::DecodingHead => match event {
                Event::HeadDecoded(Some(h)) => {
                    let q = h.clone();
                    assert(q@ =~= h@);
                    self.head_hash = h;
                    self.stage = Stage::CheckingStatus;
                    Action::QueryStatus(q)
                },
                _ => self.abort(),
            },
            Stage::CheckingStatus => match event {
                Event::Status(st) => {
                    if check_block_status(st) {
                        let head = self.input.parent_head.clone();
                        assert(head@ =~= self.input.parent_head@);
                        self.stage = Stage::InitializingProposer;
                        Action::InitProposer(head)
                    } else {
                        self.abort()
                    }
                },
                _ => self.abort(),
            },
            Stage::InitializingProposer => match event {
                Event::ProposerInitialized(true) => {
                    self.stage = Stage::CreatingInherents;
                    Action::CreateInherents
                },
                _ => self.abort(),
            },
            Stage::CreatingInherents => match event {
                Event::BaseInherents(base) => {
                    match add_validation_data(base, &self.input.validation_data) {
                        Some(b) => {
                            let rp = self.relay_parent.clone();
                            assert(rp@ =~= self.relay_parent@);
                            self.inherents = Some(b);
                            self.stage = Stage::RetrievingDownward;
                            Action::RetrieveDownward(rp)
                        },
                        None => self.abort(),
                    }
                },
                _ => self.abort(),
            },
            Stage::RetrievingDownward => match event {
                Event::Downward(downward) => {
                    let b0 = match self.inherents.take() {
                        Some(b) => b,
                        None => {
                            return self.abort();
                        },
                    };
                    match add_downward_messages(b0, downward) {
                        Some(b) => {
                            self.stage = Stage::Proposing;
                            Action::Propose {
                                inherents: b,
                                deadline_ms: PROPOSE_DEADLINE_MS,
                                record_proof: true,
                            }
                        },
                        None => self.abort(),
                    }
                },
                _ => self.abort(),
            },
            Stage::Proposing => match event {
                Event::Proposed(Some(p)) => {
                    let header = p.header;
                    let block_hash = p.block_hash;
                    let extrinsics = p.extrinsics;
                    match p.proof {
                        Some(nodes) => {
                            let h2 = header.clone();
                            assert(h2@ =~= header@);
                            let ph = self.head_hash.clone();
                            assert(ph@ =~= self.head_hash@);
                            let x2 = extrinsics.clone();
                            assert(x2@ =~= extrinsics@);
                            self.block = Some(
                                ParachainBlockData { header, extrinsics, storage_proof: nodes },
                            );
                            self.block_hash = block_hash;
                            self.stage = Stage::Importing;
                            Action::Import(
                                ImportRequest {
                                    header: h2,
                                    parent_hash: ph,
                                    extrinsics: x2,
                                    fork_choice_best: false,
                                },
                            )
                        },
                        None => self.abort(),
                    }
                },
                _ => self.abort(),
            },
            Stage::Importing => match event {
                Event::Imported(true) => {
                    let bh = self.block_hash.clone();
                    assert(bh@ =~= self.block_hash@);
                    self.stage = Stage::ReadingState;
                    Action::ReadState(bh)
                },
                _ => self.abort(),
            },
            Stage::ReadingState => match event {
                Event::StateRead(Some(reads)) => {
                    let built = match &self.block {
                        Some(b) => build_collation(b, &reads, self.input.relay_block_number),
                        None => {
                            return self.abort();
                        },
                    };
                    match built {
                        Some(c) => {
                            let bh = self.block_hash.clone();
                            assert(bh@ =~= self.block_hash@);
                            let h = pov_hash(&c.proof_of_validity);
                            self.candidate = Some(c);
                            self.stage = Stage::Done;
                            Action::Announce { block_hash: bh, pov_hash: h }
                        },
                        None => self.abort(),
                    }
                },
                _ => self.abort(),
            },
            Stage::Done => Action::Stop,
            Stage::Aborted => Action::Stop,
        }
    }

    fn abort(&mut self) -> (a: Action)
        ensures
            (final(self)@, a@) == abort(old(self)@),
    {
        self.stage = Stage::Aborted;
        Action::Stop
    }
}

} // verus!
