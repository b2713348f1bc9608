//! What holds of whole requests, over every sequence of answers.
use vstd::prelude::*;
use crate::collator::{finished, initial, no_import, run, transition, ActionView, CollatorView,
    EventView, ProposalView, Stage, ValidationInputView};
use crate::extract::{extracted, BlockDataView, StateReadsView};
use crate::inherents::{assembled, validation_added};
use crate::status::{buildable, BlockStatus};

verus! {

/// Every action among `acts` is to stop.
pub open spec fn all_stop(acts: Seq<ActionView>) -> bool {
    forall|i: int| 0 <= i < acts.len() ==> #[trigger] acts[i] == ActionView::Stop
}

/// Stopping, followed by actions that all stop, is all stopping; and asks for no import.
proof fn lemma_stop_cons(acts: Seq<ActionView>)
    requires
        all_stop(acts),
    ensures
        all_stop(seq![ActionView::Stop] + acts),
        no_import(acts),
{
    let all = seq![ActionView::Stop] + acts;
    assert forall|i: int| 0 <= i < all.len() implies #[trigger] all[i] == ActionView::Stop by {
        if i > 0 {
            assert(all[i] == acts[i - 1]);
        }
    }
    assert forall|i: int| 0 <= i < acts.len() implies !(#[trigger] acts[i] is Import) by {
        assert(acts[i] == ActionView::Stop);
    }
}

/// A finished request stays as it is and asks for nothing but to stop.
proof fn lemma_finished_run(s: CollatorView, es: Seq<EventView>)
    requires
        finished(s.stage),
    ensures
        run(s, es).0 == s,
        all_stop(run(s, es).1),
    decreases es.len(),
{
    if es.len() > 0 {
        lemma_finished_run(s, es.drop_first());
        lemma_stop_cons(run(s, es.drop_first()).1);
    }
}

/// An action that is no import, followed by actions without an import, holds no import.
proof fn lemma_no_import_cons(a: ActionView, acts: Seq<ActionView>)
    requires
        !(a is Import),
        no_import(acts),
    ensures
        no_import(seq![a] + acts),
{
    let all = seq![a] + acts;
    assert forall|i: int| 0 <= i < all.len() implies !(#[trigger] all[i] is Import) by {
        if i > 0 {
            assert(all[i] == acts[i - 1]);
        }
    }
}

/// A request whose next answer ends it without a candidate asks for no import from there on.
proof fn lemma_aborting_event(s: CollatorView, e: EventView, rest: Seq<EventView>)
    requires
        s.candidate is None,
        transition(s, e).0.stage == Stage::Aborted,
        transition(s, e).0.candidate is None,
        transition(s, e).1 == ActionView::Stop,
    ensures
        run(s, seq![e] + rest).0.candidate is None,
        all_stop(run(s, seq![e] + rest).1),
        no_import(run(s, seq![e] + rest).1),
{
    let es = seq![e] + rest;
    assert(es[0] == e);
    assert(es.drop_first() =~= rest);
    lemma_finished_run(transition(s, e).0, rest);
    lemma_stop_cons(run(transition(s, e).0, rest).1);
    lemma_stop_cons(run(s, es).1);
}

/// A parent head whose local status is anything but "in chain with state", or whose status
/// could not be read, yields no candidate and no import, whatever the other answers are.
pub proof fn unbuildable_parent_gives_no_candidate(
    relay_parent: Seq<u8>,
    input: ValidationInputView,
    es: Seq<EventView>,
)
    requires
        es.len() >= 2,
        es[1] matches EventView::Status(st) && !buildable(st),
    ensures
        run(initial(relay_parent, input), es).0.candidate is None,
        no_import(run(initial(relay_parent, input), es).1),
{
    let s0 = initial(relay_parent, input);
    let (s1, a0) = transition(s0, es[0]);
    let rest = es.drop_first();
    assert(rest =~= seq![es[1]] + rest.drop_first());
    lemma_aborting_event(s1, es[1], rest.drop_first());
    assert(!(a0 is Import));
    lemma_no_import_cons(a0, run(s1, rest).1);
    assert(run(s0, es).1 == seq![a0] + run(s1, rest).1);
}

/// When the downward messages could not be retrieved, the request ends with no candidate
/// and no import.
pub proof fn failed_retrieval_gives_no_candidate(
    s: CollatorView,
    rest: Seq<EventView>,
)
    requires
        s.stage == Stage::RetrievingDownward,
        s.candidate is None,
    ensures
        run(s, seq![EventView::Downward(None)] + rest).0.candidate is None,
        no_import(run(s, seq![EventView::Downward(None)] + rest).1),
{
    lemma_aborting_event(s, EventView::Downward(None), rest);
}

/// When the inherent providers give no bundle, or the validation data cannot be put into
/// it, the request ends there: every action after that is to stop, so the downward
/// messages are never retrieved, nothing is imported, and no candidate comes.
pub proof fn failed_base_stops_before_retrieval(
    s: CollatorView,
    base: Option<Seq<(u64, Seq<u8>)>>,
    rest: Seq<EventView>,
)
    requires
        s.stage == Stage::CreatingInherents,
        s.candidate is None,
        validation_added(base, s.input.validation_data) is None,
    ensures
        run(s, seq![EventView::BaseInherents(base)] + rest).0.candidate is None,
        all_stop(run(s, seq![EventView::BaseInherents(base)] + rest).1),
{
    lemma_aborting_event(s, EventView::BaseInherents(base), rest);
}

/// When the proposer builds a block but gives no proof, the request ends with no candidate
/// and no import.
pub proof fn missing_proof_gives_no_candidate(s: CollatorView, p: ProposalView, rest: Seq<EventView>)
    requires
        s.stage == Stage::Proposing,
        s.candidate is None,
        p.proof is None,
    ensures
        run(s, seq![EventView::Proposed(Some(p))] + rest).0.candidate is None,
        no_import(run(s, seq![EventView::Proposed(Some(p))] + rest).1),
{
    lemma_aborting_event(s, EventView::Proposed(Some(p)), rest);
}

/// Every step keeps the input, and a candidate's watermark is the input's relay-chain block
/// number.
proof fn lemma_watermark_kept(s: CollatorView, es: Seq<EventView>)
    requires
        s.candidate matches Some(c) ==> c.hrmp_watermark == s.input.relay_block_number,
    ensures
        run(s, es).0.input == s.input,
        run(s, es).0.candidate matches Some(c) ==> c.hrmp_watermark == s.input.relay_block_number,
    decreases es.len(),
{
    if es.len() > 0 {
        lemma_watermark_kept(transition(s, es[0]).0, es.drop_first());
    }
}

/// Whatever the answers, a candidate that a request yields carries as watermark the
/// relay-chain block number of the request.
pub proof fn candidate_watermark_is_relay_block_number(
    relay_parent: Seq<u8>,
    input: ValidationInputView,
    es: Seq<EventView>,
)
    ensures
        run(initial(relay_parent, input), es).0.candidate matches Some(c) ==> c.hrmp_watermark
            == input.relay_block_number,
{
    lemma_watermark_kept(initial(relay_parent, input), es);
}

/// A request on a parent head that is in the chain with its state, where every service
/// answers with success, the inherents assemble, the proposer gives a proof, and the state
/// of the imported block decodes, yields a candidate whose watermark is the relay-chain
/// block number of the request.
pub proof fn successful_request_gives_candidate(
    relay_parent: Seq<u8>,
    input: ValidationInputView,
    head_hash: Seq<u8>,
    base: Option<Seq<(u64, Seq<u8>)>>,
    downward: Seq<(u32, Seq<u8>)>,
    p: ProposalView,
    proof: Seq<Seq<u8>>,
    reads: StateReadsView,
)
    requires
        assembled(base, input.validation_data, Some(downward)) is Some,
        p.proof == Some(proof),
        extracted(
            BlockDataView { header: p.header, extrinsics: p.extrinsics, storage_proof: proof },
            reads,
            input.relay_block_number,
        ) is Some,
    ensures
        run(
            initial(relay_parent, input),
            seq![
                EventView::HeadDecoded(Some(head_hash)),
                EventView::Status(Some(BlockStatus::InChainWithState)),
                EventView::ProposerInitialized(true),
                EventView::BaseInherents(base),
                EventView::Downward(Some(downward)),
                EventView::Proposed(Some(p)),
                EventView::Imported(true),
                EventView::StateRead(Some(reads)),
            ],
        ).0.candidate matches Some(c) && c.hrmp_watermark == input.relay_block_number,
{
    let es = seq![
        EventView::HeadDecoded(Some(head_hash)),
        EventView::Status(Some(BlockStatus::InChainWithState)),
        EventView::ProposerInitialized(true),
        EventView::BaseInherents(base),
        EventView::Downward(Some(downward)),
        EventView::Proposed(Some(p)),
        EventView::Imported(true),
        EventView::StateRead(Some(reads)),
    ];
    let s0 = initial(relay_parent, input);
    let s1 = transition(s0, es[0]).0;
    let s2 = transition(s1, es[1]).0;
    let s3 = transition(s2, es[2]).0;
    let s4 = transition(s3, es[3]).0;
    let s5 = transition(s4, es[4]).0;
    let s6 = transition(s5, es[5]).0;
    let s7 = transition(s6, es[6]).0;
    let s8 = transition(s7, es[7]).0;
    assert(s8.candidate matches Some(c) && c.hrmp_watermark == input.relay_block_number);
    lemma_run_unfold(s0, es, 0);
    lemma_run_unfold(s1, es, 1);
    lemma_run_unfold(s2, es, 2);
    lemma_run_unfold(s3, es, 3);
    lemma_run_unfold(s4, es, 4);
    lemma_run_unfold(s5, es, 5);
    lemma_run_unfold(s6, es, 6);
    lemma_run_unfold(s7, es, 7);
    assert(es.subrange(8, 8).len() == 0);
}

/// Running the events from the `k`-th on is one step followed by running those after it.
proof fn lemma_run_unfold(s: CollatorView, es: Seq<EventView>, k: int)
    requires
        0 <= k < es.len(),
    ensures
        run(s, es.subrange(k, es.len() as int)).0 == run(
            transition(s, es[k]).0,
            es.subrange(k + 1, es.len() as int),
        ).0,
{
    let tail = es.subrange(k, es.len() as int);
    assert(tail[0] == es[k]);
    assert(tail.drop_first() =~= es.subrange(k + 1, es.len() as int));
}

} // verus!
