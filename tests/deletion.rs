use sparkle_impostor::delete::{plan_deletion, DeletionPlan};
use sparkle_impostor::later_messages::Info;
use sparkle_impostor::snowflake::{age_boundary, timestamp, BULK_DELETE_AGE_MAX_MS, DISCORD_EPOCH};
use sparkle_impostor::{Error, MessageRecord, MessageSource};

const NOW_MS: u64 = 1_700_000_000_000;
const DAY_MS: u64 = 86_400_000;

fn id_at(ms: u64) -> u64 {
    (ms - DISCORD_EPOCH) << 22
}

fn record_with_id(id: u64) -> MessageRecord {
    MessageRecord {
        id,
        channel_id: 7,
        guild_id: Some(3),
        author_id: 11,
        author_name: "author".to_owned(),
        author_nick: None,
        content: "content".to_owned(),
        kind: 0,
        flags: None,
        has_activity: false,
        has_application: false,
        has_thread: false,
        has_role_subscription: false,
        tts: false,
        has_sticker: false,
        has_attachment: false,
        has_component: false,
        has_invalid_component: false,
        reactions: vec![],
    }
}

fn source_with_later(anchor: u64, later: Vec<u64>) -> MessageSource {
    let mut source = MessageSource::from_message(&record_with_id(anchor)).unwrap();
    source.later_messages = Info::new();
    for id in later {
        source.later_messages.messages.push(record_with_id(id));
    }
    source.later_messages.is_complete = true;
    let _ = source.later_message_sources();
    source
}

#[test]
fn timestamp_of_known_id() {
    assert_eq!(timestamp(105_484_726_235_607_040), 1_445_219_918_546);
    assert_eq!(timestamp(0), DISCORD_EPOCH);
}

#[test]
fn boundary_separates_young_from_old() {
    let boundary = age_boundary(NOW_MS, BULK_DELETE_AGE_MAX_MS).unwrap();
    let threshold = NOW_MS - BULK_DELETE_AGE_MAX_MS;
    assert!(timestamp(boundary) >= threshold);
    assert!(timestamp(boundary - 1) < threshold);
    assert_eq!(boundary, id_at(threshold));
}

#[test]
fn boundary_before_platform_epoch_is_zero() {
    assert_eq!(age_boundary(DISCORD_EPOCH + 5, 10), Ok(0));
}

#[test]
fn boundary_before_unix_epoch_fails() {
    assert_eq!(age_boundary(5, 10), Err(Error::ClockUnrepresentable));
}

#[test]
fn boundary_past_identifier_range_fails() {
    assert_eq!(age_boundary(u64::MAX, 0), Err(Error::ClockUnrepresentable));
}

#[test]
fn one_young_message_is_deleted_alone() {
    let plan = plan_deletion(&vec![id_at(NOW_MS)], id_at(NOW_MS - 10));
    assert_eq!(
        plan,
        DeletionPlan {
            bulk: vec![],
            single: vec![id_at(NOW_MS)],
        }
    );
    assert!(!plan.would_exceed_request_budget(1));
    assert!(plan.would_exceed_request_budget(0));
}

#[test]
fn young_messages_are_deleted_in_bulk() {
    let boundary = id_at(NOW_MS - 10);
    let ids = vec![id_at(NOW_MS), id_at(NOW_MS + 1)];
    let plan = plan_deletion(&ids, boundary);
    assert_eq!(plan.bulk, vec![ids.clone()]);
    assert!(plan.single.is_empty());
}

#[test]
fn anchor_and_later_messages_all_young() {
    let anchor = id_at(NOW_MS - DAY_MS);
    let later: Vec<u64> = (1..150).map(|i| anchor + i).collect();
    let source = source_with_later(anchor, later);
    let plan = source.messages_delete(NOW_MS).unwrap();
    assert_eq!(plan.bulk.len(), 2);
    assert_eq!(plan.bulk[0].len(), 100);
    assert_eq!(plan.bulk[1].len(), 50);
    assert_eq!(plan.bulk[0][0], anchor);
    assert!(plan.single.is_empty());
    assert_eq!(plan.bulk.len() + plan.single.len(), 2);
    assert_eq!(source.check_delete_request_count_in(2, NOW_MS), Ok(()));
    assert_eq!(
        source.check_delete_request_count_in(1, NOW_MS),
        Err(Error::DeleteRequestCountAboveLimit(1))
    );
}

#[test]
fn one_young_among_old_goes_single() {
    let old_base = id_at(NOW_MS - 20 * DAY_MS);
    let mut ids: Vec<u64> = (0..12).map(|i| old_base + i).collect();
    let young = id_at(NOW_MS - DAY_MS);
    ids.push(young);
    let boundary = age_boundary(NOW_MS, BULK_DELETE_AGE_MAX_MS).unwrap();
    let plan = plan_deletion(&ids, boundary);
    assert!(plan.bulk.is_empty());
    assert_eq!(plan.single.len(), 13);
    assert_eq!(plan.single, ids);
}

#[test]
fn young_one_is_moved_after_the_old_ones() {
    let young = id_at(NOW_MS - DAY_MS);
    let old = id_at(NOW_MS - 20 * DAY_MS);
    let boundary = age_boundary(NOW_MS, BULK_DELETE_AGE_MAX_MS).unwrap();
    let plan = plan_deletion(&vec![young, old], boundary);
    assert!(plan.bulk.is_empty());
    assert_eq!(plan.single, vec![old, young]);
}

#[test]
fn lone_last_chunk_goes_single() {
    let base = id_at(NOW_MS - DAY_MS);
    let ids: Vec<u64> = (0..101).map(|i| base + i).collect();
    let plan = plan_deletion(&ids, 0);
    assert_eq!(plan.bulk.len(), 1);
    assert_eq!(plan.bulk[0], ids[..100].to_vec());
    assert_eq!(plan.single, vec![ids[100]]);
}

#[test]
fn every_identifier_deleted_once() {
    let boundary = 1_000;
    let ids: Vec<u64> = (0..350).map(|i| if i % 3 == 0 { i } else { 5_000 + i }).collect();
    let plan = plan_deletion(&ids, boundary);
    let mut all: Vec<u64> = plan.bulk.iter().flatten().copied().collect();
    all.extend(plan.single.iter().copied());
    let mut sorted_all = all.clone();
    sorted_all.sort_unstable();
    let mut sorted_ids = ids.clone();
    sorted_ids.sort_unstable();
    assert_eq!(sorted_all, sorted_ids);
    for chunk in &plan.bulk {
        assert!(chunk.len() >= 2 && chunk.len() <= 100);
    }
}

#[test]
fn only_anchor_without_later_sources() {
    let anchor = id_at(NOW_MS - DAY_MS);
    let mut source = MessageSource::from_message(&record_with_id(anchor)).unwrap();
    source.later_messages.messages.push(record_with_id(anchor + 1));
    assert_eq!(source.deletion_ids(), vec![anchor]);
    assert_eq!(source.check_delete_request_count_in(1, NOW_MS), Ok(()));
}

#[test]
fn deletion_at_unrepresentable_time_fails() {
    let source = MessageSource::from_message(&record_with_id(99)).unwrap();
    assert_eq!(source.messages_delete(5), Err(Error::ClockUnrepresentable));
    assert_eq!(
        source.check_delete_request_count_in(3, 5),
        Err(Error::ClockUnrepresentable)
    );
}
