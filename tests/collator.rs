use cumulus_collator::collator::{Action, Collator, Event, Proposal, Stage, ValidationInput};
use cumulus_collator::extract::{build_collation, pov_hash, ParachainBlockData, StateReads};
use cumulus_collator::inherents::{add_downward_messages, add_validation_data, messages_fit};
use cumulus_collator::scale::byte_lists_fit;
use cumulus_collator::inherents::{
    encode_downward_messages, inherent_data, InboundDownwardMessage, InherentBundle, InherentError,
    DOWNWARD_MESSAGES_IDENTIFIER, VALIDATION_DATA_IDENTIFIER,
};
use cumulus_collator::{check_block_status, BlockStatus};

/// An encoded header: parent hash, compact block number (below 64), two roots, empty digest.
fn header_bytes(number: u8) -> Vec<u8> {
    let mut h = vec![0u8; 32];
    h.push(number << 2);
    h.extend(vec![1u8; 32]);
    h.extend(vec![2u8; 32]);
    h.push(0);
    h
}

fn input(block_number: u32) -> ValidationInput {
    ValidationInput {
        relay_block_number: block_number,
        parent_head: header_bytes(0),
        validation_data: vec![7, 7, 7],
    }
}

fn no_reads() -> StateReads {
    StateReads { upward_messages: None, new_validation_code: None, processed_downward_messages: None }
}

fn proposal(proof: Option<Vec<Vec<u8>>>) -> Proposal {
    Proposal { header: header_bytes(1), block_hash: vec![0xbb; 32], extrinsics: vec![4, 3, 1, 2, 3], proof }
}

/// Drives a request up to the point where the proposer is asked to build.
fn to_proposing(c: &mut Collator) {
    assert!(matches!(c.start(), Action::DecodeHead(h) if h == header_bytes(0)));
    assert!(matches!(c.step(Event::HeadDecoded(Some(vec![0xaa; 32]))), Action::QueryStatus(h) if h == vec![0xaa; 32]));
    assert!(matches!(c.step(Event::Status(Some(BlockStatus::InChainWithState))), Action::InitProposer(h) if h == header_bytes(0)));
    assert!(matches!(c.step(Event::ProposerInitialized(true)), Action::CreateInherents));
    assert!(matches!(c.step(Event::BaseInherents(Some(InherentBundle::new()))), Action::RetrieveDownward(r) if r == vec![0x11; 32]));
    match c.step(Event::Downward(Some(Vec::new()))) {
        Action::Propose { inherents, deadline_ms, record_proof } => {
            assert_eq!(deadline_ms, 500);
            assert!(record_proof);
            let e = inherents.entries();
            assert_eq!(e.len(), 2);
            assert_eq!(e[0], (VALIDATION_DATA_IDENTIFIER, vec![7, 7, 7]));
            assert_eq!(e[1], (DOWNWARD_MESSAGES_IDENTIFIER, vec![0]));
        }
        _ => panic!("expected a proposal request"),
    }
    assert_eq!(c.stage(), Stage::Proposing);
}

#[test]
fn collates_produces_a_block() {
    let mut c = Collator::new(vec![0x11; 32], input(1));
    to_proposing(&mut c);
    match c.step(Event::Proposed(Some(proposal(Some(vec![vec![9, 9]]))))) {
        Action::Import(r) => {
            assert_eq!(r.header, header_bytes(1));
            assert_eq!(r.parent_hash, vec![0xaa; 32]);
            assert_eq!(r.extrinsics, vec![4, 3, 1, 2, 3]);
            assert!(!r.fork_choice_best);
        }
        _ => panic!("expected an import"),
    }
    assert!(matches!(c.step(Event::Imported(true)), Action::ReadState(h) if h == vec![0xbb; 32]));
    let mut expected_pov = header_bytes(1);
    expected_pov.extend(vec![4, 3, 1, 2, 3]);
    expected_pov.extend(vec![4, 8, 9, 9]);
    match c.step(Event::StateRead(Some(no_reads()))) {
        Action::Announce { block_hash, pov_hash: h } => {
            assert_eq!(block_hash, vec![0xbb; 32]);
            assert_eq!(h, pov_hash(&expected_pov));
        }
        _ => panic!("expected an announcement"),
    }
    assert_eq!(c.stage(), Stage::Done);
    let cand = c.candidate().expect("a candidate");
    assert_eq!(cand.hrmp_watermark, 1);
    assert_eq!(cand.processed_downward_messages, 0);
    assert!(cand.upward_messages.is_empty());
    assert!(cand.horizontal_messages.is_empty());
    assert_eq!(cand.head_data, header_bytes(1));
    assert_eq!(cand.proof_of_validity, expected_pov);
    // The payload starts with the header, whose compact number decodes to 1.
    assert_eq!(cand.proof_of_validity[32] >> 2, 1);
    assert!(matches!(c.step(Event::Imported(true)), Action::Stop));
    assert_eq!(c.stage(), Stage::Done);
}

#[test]
fn watermark_is_relay_block_number() {
    let mut c = Collator::new(vec![0x11; 32], input(4242));
    to_proposing(&mut c);
    c.step(Event::Proposed(Some(proposal(Some(Vec::new())))));
    c.step(Event::Imported(true));
    c.step(Event::StateRead(Some(no_reads())));
    assert_eq!(c.candidate().expect("a candidate").hrmp_watermark, 4242);
}

#[test]
fn unbuildable_statuses_give_nothing() {
    let statuses = [
        Some(BlockStatus::Queued),
        Some(BlockStatus::InChainPruned),
        Some(BlockStatus::KnownBad),
        Some(BlockStatus::Unknown),
        None,
    ];
    for st in statuses {
        assert!(!check_block_status(st));
        let mut c = Collator::new(vec![0x11; 32], input(1));
        c.step(Event::HeadDecoded(Some(vec![0xaa; 32])));
        assert!(matches!(c.step(Event::Status(st)), Action::Stop));
        assert_eq!(c.stage(), Stage::Aborted);
        assert!(matches!(c.step(Event::ProposerInitialized(true)), Action::Stop));
        assert!(c.candidate().is_none());
    }
    assert!(check_block_status(Some(BlockStatus::InChainWithState)));
}

#[test]
fn undecodable_head_aborts() {
    let mut c = Collator::new(vec![0x11; 32], input(1));
    assert!(matches!(c.step(Event::HeadDecoded(None)), Action::Stop));
    assert_eq!(c.stage(), Stage::Aborted);
}

#[test]
fn failed_retrieval_aborts_before_import() {
    let mut c = Collator::new(vec![0x11; 32], input(1));
    c.step(Event::HeadDecoded(Some(vec![0xaa; 32])));
    c.step(Event::Status(Some(BlockStatus::InChainWithState)));
    c.step(Event::ProposerInitialized(true));
    c.step(Event::BaseInherents(Some(InherentBundle::new())));
    assert!(matches!(c.step(Event::Downward(None)), Action::Stop));
    assert_eq!(c.stage(), Stage::Aborted);
    assert!(matches!(c.step(Event::Proposed(Some(proposal(Some(Vec::new()))))), Action::Stop));
    assert!(c.candidate().is_none());
}

#[test]
fn missing_proof_aborts_before_import() {
    let mut c = Collator::new(vec![0x11; 32], input(1));
    to_proposing(&mut c);
    assert!(matches!(c.step(Event::Proposed(Some(proposal(None)))), Action::Stop));
    assert_eq!(c.stage(), Stage::Aborted);
    assert!(c.candidate().is_none());
}

#[test]
fn failed_proposer_and_import_abort() {
    let mut c = Collator::new(vec![0x11; 32], input(1));
    to_proposing(&mut c);
    assert!(matches!(c.step(Event::Proposed(None)), Action::Stop));
    let mut d = Collator::new(vec![0x11; 32], input(1));
    to_proposing(&mut d);
    d.step(Event::Proposed(Some(proposal(Some(Vec::new())))));
    assert!(matches!(d.step(Event::Imported(false)), Action::Stop));
    assert_eq!(d.stage(), Stage::Aborted);
}

#[test]
fn inherent_assembly() {
    let msgs = vec![InboundDownwardMessage { sent_at: 1, msg: vec![9] }];
    assert_eq!(encode_downward_messages(&msgs), vec![4, 1, 0, 0, 0, 4, 9]);
    let b = inherent_data(Some(InherentBundle::new()), &vec![5], Some(msgs.clone())).expect("assembled");
    assert_eq!(b.entries()[1], (DOWNWARD_MESSAGES_IDENTIFIER, vec![4, 1, 0, 0, 0, 4, 9]));
    assert!(inherent_data(None, &vec![5], Some(msgs.clone())).is_none());
    assert!(inherent_data(Some(InherentBundle::new()), &vec![5], None).is_none());
    let mut taken = InherentBundle::new();
    assert_eq!(taken.put_data(VALIDATION_DATA_IDENTIFIER, vec![1]), Ok(()));
    assert_eq!(taken.put_data(VALIDATION_DATA_IDENTIFIER, vec![2]), Err(InherentError::DataExists));
    assert!(taken.contains(VALIDATION_DATA_IDENTIFIER));
    assert!(inherent_data(Some(taken), &vec![5], Some(msgs)).is_none());
}

fn block() -> ParachainBlockData {
    ParachainBlockData { header: vec![1, 2], extrinsics: vec![0], storage_proof: vec![vec![7]] }
}

#[test]
fn extraction_reads_state() {
    assert_eq!(block().encode(), vec![1, 2, 0, 4, 4, 7]);
    let reads = StateReads {
        upward_messages: Some(vec![4, 8, 1, 2]),
        new_validation_code: Some(vec![0xc0, 0xde]),
        processed_downward_messages: Some(vec![5, 1, 0, 0, 9]),
    };
    let c = build_collation(&block(), &reads, 3).expect("extracted");
    assert_eq!(c.upward_messages, vec![vec![1, 2]]);
    assert_eq!(c.new_validation_code, Some(vec![0xc0, 0xde]));
    assert_eq!(c.processed_downward_messages, 261);
    assert_eq!(c.head_data, vec![1, 2]);
    assert_eq!(c.proof_of_validity, vec![1, 2, 0, 4, 4, 7]);
    assert_eq!(c.hrmp_watermark, 3);
    let again = build_collation(&block(), &reads, 3).expect("extracted");
    assert_eq!(again.upward_messages, c.upward_messages);
    assert_eq!(again.new_validation_code, c.new_validation_code);
    assert_eq!(again.processed_downward_messages, c.processed_downward_messages);
    assert_eq!(again.proof_of_validity, c.proof_of_validity);
}

#[test]
fn missing_upward_messages_are_empty() {
    let c = build_collation(&block(), &no_reads(), 0).expect("extracted");
    assert!(c.upward_messages.is_empty());
    assert_eq!(c.new_validation_code, None);
    assert_eq!(c.processed_downward_messages, 0);
}

#[test]
fn undecodable_state_values_abort() {
    let bad_upward = StateReads { upward_messages: Some(vec![8, 1]), ..no_reads() };
    assert!(build_collation(&block(), &bad_upward, 0).is_none());
    let bad_count = StateReads { processed_downward_messages: Some(vec![1, 2, 3]), ..no_reads() };
    assert!(build_collation(&block(), &bad_count, 0).is_none());
}

#[test]
fn pov_hash_digests_the_encoded_payload() {
    let h = pov_hash(&vec![1, 2]);
    assert_eq!(h.len(), 32);
    assert_eq!(h, sp_crypto_hashing::blake2_256(&[8, 1, 2]).to_vec());
    assert_ne!(h, sp_crypto_hashing::blake2_256(&[1, 2]).to_vec());
}

#[test]
fn failed_base_inherents_stop_before_retrieval() {
    let mut c = Collator::new(vec![0x11; 32], input(1));
    c.step(Event::HeadDecoded(Some(vec![0xaa; 32])));
    c.step(Event::Status(Some(BlockStatus::InChainWithState)));
    c.step(Event::ProposerInitialized(true));
    assert!(matches!(c.step(Event::BaseInherents(None)), Action::Stop));
    assert_eq!(c.stage(), Stage::Aborted);

    let mut taken = InherentBundle::new();
    assert_eq!(taken.put_data(VALIDATION_DATA_IDENTIFIER, vec![1]), Ok(()));
    let mut d = Collator::new(vec![0x11; 32], input(1));
    d.step(Event::HeadDecoded(Some(vec![0xaa; 32])));
    d.step(Event::Status(Some(BlockStatus::InChainWithState)));
    d.step(Event::ProposerInitialized(true));
    assert!(matches!(d.step(Event::BaseInherents(Some(taken))), Action::Stop));
    assert!(matches!(d.step(Event::Downward(Some(Vec::new()))), Action::Stop));
    assert!(d.candidate().is_none());
}

#[test]
fn inherent_steps() {
    let b = add_validation_data(Some(InherentBundle::new()), &vec![5]).expect("added");
    assert_eq!(b.entries().len(), 1);
    assert_eq!(b.entries()[0], (VALIDATION_DATA_IDENTIFIER, vec![5]));
    assert!(add_validation_data(None, &vec![5]).is_none());
    let msgs = vec![InboundDownwardMessage { sent_at: 2, msg: vec![] }];
    assert!(messages_fit(&msgs));
    let full = add_downward_messages(b.clone(), Some(msgs)).expect("added");
    assert_eq!(full.entries()[1], (DOWNWARD_MESSAGES_IDENTIFIER, vec![4, 2, 0, 0, 0, 0]));
    assert!(add_downward_messages(b, None).is_none());
    assert!(byte_lists_fit(&vec![vec![1], vec![]]));
}
