use grandpa_light_client::{
    AuthorityId, AuthoritySetStore, BlockCheckParams, BlockImport, BlockImportParams,
    BlockImportWrapper, BlockOrigin, CacheKeyId, DigestItem, GrandpaVerifier, Header, ImportResult,
    ImportedAux, LightAuthoritySet, NextChangeInAuthority, RecordWrite, ScheduledChange,
    VerifyError, GRANDPA_ENGINE_ID,
};
use std::collections::HashMap;

/// The index of the scheduled-change variant in the wire form of a log.
const SCHEDULED_CHANGE_LOG_INDEX: u8 = 1;

const A: AuthorityId = [0xa1; 32];
const B: AuthorityId = [0xb2; 32];
const C: AuthorityId = [0xc3; 32];

struct Importer {
    answer: Result<ImportResult, String>,
}

impl BlockImport for Importer {
    type Error = String;

    fn check_block(&mut self, _block: BlockCheckParams) -> Result<ImportResult, String> {
        self.answer.clone()
    }

    fn import_block(
        &mut self,
        block: BlockImportParams,
        _cache: HashMap<CacheKeyId, Vec<u8>>,
    ) -> Result<ImportResult, String> {
        assert_eq!(block.staged_change, None);
        self.answer.clone()
    }
}

fn clean() -> Result<ImportResult, String> {
    Ok(ImportResult::Imported(ImportedAux {
        header_only: false,
        clear_justification_requests: false,
        needs_justification: false,
        bad_justification: false,
        needs_finality_proof: false,
        is_new_best: true,
    }))
}

fn change_to_a_and_c() -> ScheduledChange {
    ScheduledChange { next_authorities: vec![(A, 1), (C, 1)], delay: 10 }
}

fn header(number: u32, announced: Option<ScheduledChange>) -> Header {
    let digest = match announced {
        Some(change) => {
            let mut data = vec![SCHEDULED_CHANGE_LOG_INDEX];
            change.encode_to(&mut data);
            vec![DigestItem::Seal(*b"BABE", vec![1]), DigestItem::Consensus(GRANDPA_ENGINE_ID, data)]
        }
        None => vec![DigestItem::Seal(*b"BABE", vec![1])],
    };
    Header {
        parent_hash: [number as u8; 32],
        number,
        state_root: [0x22; 32],
        extrinsics_root: [0x33; 32],
        digest,
    }
}

fn initial_store() -> AuthoritySetStore {
    let mut store = AuthoritySetStore::new();
    store.put_current_authority_set(&LightAuthoritySet::new(0, vec![(A, 1), (B, 1)]));
    store
}

/// One block through both phases, as the application drives them.
fn process(
    store: AuthoritySetStore,
    header: Header,
    answer: Result<ImportResult, String>,
) -> (Result<Result<ImportResult, String>, VerifyError>, AuthoritySetStore) {
    let mut verifier = GrandpaVerifier::new(store);
    assert!(verifier.within_limits(&header));
    let verified = verifier.verify(BlockOrigin::NetworkBroadcast, header, None, None);
    let store = verifier.into_aux_store();
    match verified {
        Err(error) => (Err(error), store),
        Ok((params, _)) => {
            let mut wrapper = BlockImportWrapper::new(Importer { answer }, store);
            let result = wrapper.import_block(params, HashMap::new());
            (Ok(result), wrapper.into_aux_store())
        }
    }
}

#[test]
fn announced_change_is_stored_after_a_clean_import_and_applied_at_its_height() {
    let (result, store) = process(initial_store(), header(100, Some(change_to_a_and_c())), clean());
    assert_eq!(result, Ok(clean()));
    assert_eq!(
        store.get_pending_change(),
        Ok(Some(NextChangeInAuthority::new(110, change_to_a_and_c())))
    );
    assert_eq!(
        store.get_current_authority_set(),
        Ok(Some(LightAuthoritySet::new(0, vec![(A, 1), (B, 1)])))
    );

    let mut store = store;
    for number in 101..110 {
        let before = store.clone();
        let (result, after) = process(store, header(number, None), clean());
        assert_eq!(result, Ok(clean()));
        assert_eq!(after, before);
        store = after;
    }

    let (result, store) = process(store, header(110, None), clean());
    assert_eq!(result, Ok(clean()));
    assert_eq!(
        store.get_current_authority_set(),
        Ok(Some(LightAuthoritySet::new(1, vec![(A, 1), (C, 1)])))
    );
    assert_eq!(store.get_pending_change(), Ok(None));
    assert_eq!(store.pending_change_record(), &None);

    let applied = store.clone();
    let (result, store) = process(store, header(111, None), clean());
    assert_eq!(result, Ok(clean()));
    assert_eq!(store, applied);
}

#[test]
fn failed_import_leaves_no_pending_change_and_the_retry_stages_it_again() {
    let h = header(100, Some(change_to_a_and_c()));
    let (result, store) = process(initial_store(), h.clone(), Err("import failed".to_string()));
    assert_eq!(result, Ok(Err("import failed".to_string())));
    assert_eq!(store.get_pending_change(), Ok(None));
    assert_eq!(store, initial_store());

    let mut verifier = GrandpaVerifier::new(store);
    let (params, _) = verifier.verify(BlockOrigin::NetworkBroadcast, h.clone(), None, None).unwrap();
    assert_eq!(
        params.staged_change,
        Some(NextChangeInAuthority::new(110, change_to_a_and_c()))
    );

    let (result, store) = process(verifier.into_aux_store(), h, clean());
    assert_eq!(result, Ok(clean()));
    assert_eq!(
        store.get_pending_change(),
        Ok(Some(NextChangeInAuthority::new(110, change_to_a_and_c())))
    );
}

#[test]
fn second_announcement_while_one_is_pending_is_rejected_and_nothing_changes() {
    let mut store = initial_store();
    store.put_pending_change(&NextChangeInAuthority::new(110, change_to_a_and_c()));
    let before = store.clone();
    let another = ScheduledChange { next_authorities: vec![(B, 2)], delay: 3 };
    let (result, store) = process(store, header(100, Some(another)), clean());
    assert_eq!(result, Err(VerifyError::ConflictingScheduledChange));
    assert_eq!(store, before);
    let writes = store.writes_since(&before);
    assert_eq!(writes.authority_set, RecordWrite::Unchanged);
    assert_eq!(writes.pending_change, RecordWrite::Unchanged);
}

#[test]
fn retry_after_a_dropped_change_repeats_the_first_attempt() {
    let reserved: Vec<Result<ImportResult, String>> = vec![
        Err("import failed".to_string()),
        Ok(ImportResult::KnownBad),
        Ok(ImportResult::Imported(ImportedAux {
            header_only: false,
            clear_justification_requests: false,
            needs_justification: false,
            bad_justification: true,
            needs_finality_proof: false,
            is_new_best: false,
        })),
        Ok(ImportResult::Imported(ImportedAux {
            header_only: false,
            clear_justification_requests: false,
            needs_justification: false,
            bad_justification: false,
            needs_finality_proof: true,
            is_new_best: false,
        })),
    ];
    let another = ScheduledChange { next_authorities: vec![(B, 2)], delay: 3 };
    let mut with_due_change = initial_store();
    with_due_change.put_pending_change(&NextChangeInAuthority::new(110, change_to_a_and_c()));
    let starts = vec![
        (initial_store(), header(100, Some(change_to_a_and_c()))),
        (initial_store(), header(100, None)),
        (with_due_change.clone(), header(110, Some(another))),
        (with_due_change.clone(), header(110, None)),
        (with_due_change, header(109, None)),
    ];
    for (start, h) in starts {
        for answer in &reserved {
            let mut first = GrandpaVerifier::new(start.clone());
            let first_request = first.verify(BlockOrigin::Own, h.clone(), None, None).unwrap().0;
            let after_verify = first.into_aux_store();
            let mut wrapper =
                BlockImportWrapper::new(Importer { answer: answer.clone() }, after_verify.clone());
            assert_eq!(&wrapper.import_block(first_request.clone(), HashMap::new()), answer);
            let after_import = wrapper.into_aux_store();
            assert_eq!(after_import, after_verify);

            let mut second = GrandpaVerifier::new(after_import.clone());
            assert!(second.within_limits(&h));
            let second_request = second.verify(BlockOrigin::Own, h.clone(), None, None).unwrap().0;
            assert_eq!(second_request, first_request);
            assert_eq!(second.aux_store(), &after_import);
        }
    }
}

#[test]
fn staged_change_is_never_pending_without_a_clean_import() {
    let aux = |bad_justification: bool, needs_finality_proof: bool| ImportedAux {
        header_only: false,
        clear_justification_requests: true,
        needs_justification: false,
        bad_justification,
        needs_finality_proof,
        is_new_best: true,
    };
    let answers: Vec<Result<ImportResult, String>> = vec![
        Ok(ImportResult::Imported(aux(false, false))),
        Ok(ImportResult::Imported(aux(true, false))),
        Ok(ImportResult::Imported(aux(false, true))),
        Ok(ImportResult::Imported(aux(true, true))),
        Ok(ImportResult::AlreadyInChain),
        Ok(ImportResult::KnownBad),
        Ok(ImportResult::UnknownParent),
        Ok(ImportResult::MissingState),
        Err("no".to_string()),
    ];
    for answer in answers {
        let h = header(100, Some(change_to_a_and_c()));
        let (result, store) = process(initial_store(), h, answer.clone());
        let went_through = matches!(
            answer,
            Ok(ImportResult::Imported(ImportedAux {
                bad_justification: false,
                needs_finality_proof: false,
                ..
            }))
        );
        assert_eq!(result, Ok(answer));
        if went_through {
            assert_eq!(
                store.get_pending_change(),
                Ok(Some(NextChangeInAuthority::new(110, change_to_a_and_c())))
            );
        } else {
            assert_eq!(store, initial_store());
        }
    }
}

#[test]
fn flush_writes_exactly_what_a_block_changed() {
    let start = initial_store();
    let (_, after_announcement) =
        process(start.clone(), header(100, Some(change_to_a_and_c())), clean());
    let writes = after_announcement.writes_since(&start);
    assert_eq!(writes.authority_set, RecordWrite::Unchanged);
    assert_eq!(
        writes.pending_change,
        RecordWrite::Put(NextChangeInAuthority::new(110, change_to_a_and_c()).encode())
    );

    let (_, after_change) = process(after_announcement.clone(), header(110, None), clean());
    let writes = after_change.writes_since(&after_announcement);
    assert_eq!(
        writes.authority_set,
        RecordWrite::Put(LightAuthoritySet::new(1, vec![(A, 1), (C, 1)]).encode())
    );
    assert_eq!(writes.pending_change, RecordWrite::Delete);
}
