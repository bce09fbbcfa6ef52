use grandpa_light_client::{
    find_scheduled_change, AuthorityId, DigestItem, Header, ScheduledChange, GRANDPA_ENGINE_ID,
};
use parity_scale_codec::Encode;

/// The index of the scheduled-change variant in the wire form of a log.
const SCHEDULED_CHANGE_LOG_INDEX: u8 = 1;

fn id(tag: u8) -> AuthorityId {
    [tag; 32]
}

fn change(tag: u8, delay: u32) -> ScheduledChange {
    ScheduledChange { next_authorities: vec![(id(tag), 1), (id(tag + 1), 2)], delay }
}

fn announcement(change: &ScheduledChange) -> DigestItem {
    let mut data = vec![SCHEDULED_CHANGE_LOG_INDEX];
    change.encode_to(&mut data);
    DigestItem::Consensus(GRANDPA_ENGINE_ID, data)
}

fn header(number: u32, digest: Vec<DigestItem>) -> Header {
    Header {
        parent_hash: [0x11; 32],
        number,
        state_root: [0x22; 32],
        extrinsics_root: [0x33; 32],
        digest,
    }
}

#[test]
fn engine_tag_is_frnk() {
    assert_eq!(&GRANDPA_ENGINE_ID, b"FRNK");
    assert_eq!(GRANDPA_ENGINE_ID, sp_finality_grandpa::GRANDPA_ENGINE_ID);
}

#[test]
fn empty_digest_announces_nothing() {
    assert_eq!(find_scheduled_change(&header(1, Vec::new())), None);
}

#[test]
fn scheduled_change_log_is_found() {
    let announced = change(1, 10);
    let found = find_scheduled_change(&header(100, vec![announcement(&announced)]));
    assert_eq!(found, Some(announced));
}

#[test]
fn first_announcement_wins() {
    let first = change(1, 10);
    let second = change(5, 20);
    let third = change(9, 30);
    let digest = vec![announcement(&first), announcement(&second), announcement(&third)];
    assert_eq!(find_scheduled_change(&header(7, digest)), Some(first));
}

#[test]
fn entries_of_other_kinds_are_passed_over() {
    let announced = change(3, 4);
    let mut data = vec![SCHEDULED_CHANGE_LOG_INDEX];
    change(7, 7).encode_to(&mut data);
    let digest = vec![
        DigestItem::ChangesTrieRoot([9; 32]),
        DigestItem::PreRuntime(GRANDPA_ENGINE_ID, data.clone()),
        DigestItem::Seal(GRANDPA_ENGINE_ID, data.clone()),
        DigestItem::ChangesTrieSignal(data.clone()),
        DigestItem::Other(data.clone()),
        announcement(&announced),
    ];
    assert_eq!(find_scheduled_change(&header(7, digest)), Some(announced));
    let none = vec![
        DigestItem::ChangesTrieRoot([9; 32]),
        DigestItem::PreRuntime(GRANDPA_ENGINE_ID, data.clone()),
        DigestItem::Seal(GRANDPA_ENGINE_ID, data.clone()),
        DigestItem::ChangesTrieSignal(data.clone()),
        DigestItem::Other(data),
    ];
    assert_eq!(find_scheduled_change(&header(7, none)), None);
}

#[test]
fn entries_of_other_engines_are_passed_over() {
    let mut data = vec![SCHEDULED_CHANGE_LOG_INDEX];
    change(7, 7).encode_to(&mut data);
    let announced = change(1, 2);
    let digest = vec![
        DigestItem::Consensus(*b"BABE", data.clone()),
        DigestItem::Consensus(*b"FRNL", data.clone()),
        DigestItem::Consensus(*b"fRNK", data.clone()),
        DigestItem::Consensus(*b"FRNk", data.clone()),
        announcement(&announced),
    ];
    assert_eq!(find_scheduled_change(&header(7, digest)), Some(announced));
    assert_eq!(
        find_scheduled_change(&header(7, vec![DigestItem::Consensus(*b"BABE", data)])),
        None
    );
}

#[test]
fn logs_of_other_kinds_are_passed_over() {
    let scheduled = change(1, 2).encode();
    // a forced change: median height, then the change
    let mut forced = vec![2u8, 5, 0, 0, 0];
    forced.extend_from_slice(&scheduled);
    // a disabled authority, a pause and a resume
    let disabled = vec![3u8, 1, 0, 0, 0, 0, 0, 0, 0];
    let pause = vec![4u8, 9, 0, 0, 0];
    let resume = vec![5u8, 9, 0, 0, 0];
    let mut unknown = vec![0u8];
    unknown.extend_from_slice(&scheduled);
    let announced = change(4, 6);
    let digest = vec![
        DigestItem::Consensus(GRANDPA_ENGINE_ID, forced.clone()),
        DigestItem::Consensus(GRANDPA_ENGINE_ID, disabled.clone()),
        DigestItem::Consensus(GRANDPA_ENGINE_ID, pause.clone()),
        DigestItem::Consensus(GRANDPA_ENGINE_ID, resume.clone()),
        DigestItem::Consensus(GRANDPA_ENGINE_ID, unknown.clone()),
        announcement(&announced),
    ];
    assert_eq!(find_scheduled_change(&header(7, digest)), Some(announced));
    let none = vec![
        DigestItem::Consensus(GRANDPA_ENGINE_ID, forced),
        DigestItem::Consensus(GRANDPA_ENGINE_ID, disabled),
        DigestItem::Consensus(GRANDPA_ENGINE_ID, pause),
        DigestItem::Consensus(GRANDPA_ENGINE_ID, resume),
        DigestItem::Consensus(GRANDPA_ENGINE_ID, unknown),
    ];
    assert_eq!(find_scheduled_change(&header(7, none)), None);
}

#[test]
fn log_that_does_not_decode_is_passed_over() {
    let announced = change(1, 2);
    let mut cut = vec![SCHEDULED_CHANGE_LOG_INDEX];
    change(8, 8).encode_to(&mut cut);
    cut.pop();
    let digest = vec![
        DigestItem::Consensus(GRANDPA_ENGINE_ID, Vec::new()),
        DigestItem::Consensus(GRANDPA_ENGINE_ID, vec![SCHEDULED_CHANGE_LOG_INDEX]),
        DigestItem::Consensus(GRANDPA_ENGINE_ID, vec![SCHEDULED_CHANGE_LOG_INDEX, 0x05, 0x00]),
        DigestItem::Consensus(GRANDPA_ENGINE_ID, cut),
        announcement(&announced),
    ];
    assert_eq!(find_scheduled_change(&header(7, digest)), Some(announced));
}

#[test]
fn log_may_be_followed_by_more_bytes() {
    let announced = change(1, 2);
    let mut data = vec![SCHEDULED_CHANGE_LOG_INDEX];
    announced.encode_to(&mut data);
    data.extend_from_slice(&[1, 2, 3]);
    let digest = vec![DigestItem::Consensus(GRANDPA_ENGINE_ID, data)];
    assert_eq!(find_scheduled_change(&header(7, digest)), Some(announced));
}

#[test]
fn change_with_no_authorities_is_found() {
    let announced = ScheduledChange { next_authorities: Vec::new(), delay: 0 };
    let digest = vec![DigestItem::Consensus(GRANDPA_ENGINE_ID, vec![1, 0, 0, 0, 0, 0])];
    assert_eq!(find_scheduled_change(&header(7, digest)), Some(announced));
}

#[test]
fn the_height_of_the_header_does_not_matter() {
    let announced = change(1, u32::MAX);
    for number in [0u32, 1, 100, u32::MAX] {
        let found = find_scheduled_change(&header(number, vec![announcement(&announced)]));
        assert_eq!(found, Some(announced.clone()));
    }
}

#[test]
fn log_is_read_as_the_codec_crate_writes_it() {
    // the log as a tagged union: the index of the variant, then its fields
    let authorities = vec![([0x0a_u8; 32], 3u64), ([0x0b; 32], 4)];
    let data = (1u8, authorities.clone(), 0x0102_0304u32).encode();
    let digest = vec![DigestItem::Consensus(GRANDPA_ENGINE_ID, data)];
    assert_eq!(
        find_scheduled_change(&header(7, digest)),
        Some(ScheduledChange { next_authorities: authorities, delay: 0x0102_0304 })
    );
}
