use url::Url;
use worklog::ipc::{BatchId, Position, PositionId};
use worklog::locator::ProgressAt;

#[test]
fn location_with_item_gets_fragment() {
    let base = Url::parse("https://example.com/api/batch1").unwrap();
    let at = ProgressAt {
        batch_id: BatchId(String::from("batch1")),
        batch_url: Some(base.clone()),
        position_id: Some(PositionId(42)),
    };
    let mut expected = base.clone();
    expected.set_fragment(Some("42"));
    assert_eq!(at.render(), expected.as_str());
    assert_eq!(at.render(), "https://example.com/api/batch1#42");
    assert_ne!(at.render(), base.as_str());
}

#[test]
fn location_without_item_is_rendered_unchanged() {
    let base = Url::parse("https://example.com/api/batch1?x=1").unwrap();
    let at = ProgressAt {
        batch_id: BatchId(String::from("batch1")),
        batch_url: Some(base.clone()),
        position_id: None,
    };
    assert_eq!(at.render(), base.as_str());
}

#[test]
fn location_with_item_replaces_an_existing_fragment() {
    let base = Url::parse("https://example.com/api/batch1#old").unwrap();
    let at = ProgressAt {
        batch_id: BatchId(String::from("batch1")),
        batch_url: Some(base),
        position_id: Some(PositionId(9)),
    };
    assert_eq!(at.render(), "https://example.com/api/batch1#9");
}

#[test]
fn bare_batch_with_item_uses_hash_suffix() {
    let at = ProgressAt {
        batch_id: BatchId(String::from("B1")),
        batch_url: None,
        position_id: Some(PositionId(7)),
    };
    assert_eq!(at.render(), "B1#7");
}

#[test]
fn bare_batch_without_item_is_just_the_id() {
    let at = ProgressAt {
        batch_id: BatchId(String::from("B1")),
        batch_url: None,
        position_id: None,
    };
    assert_eq!(at.render(), "B1");
}

#[test]
fn locator_from_position_carries_everything_over() {
    let base = Url::parse("https://example.com/api/batch2").unwrap();
    let pos = Position {
        batch_id: BatchId(String::from("batch2")),
        url: Some(base),
        position_id: PositionId(3),
    };
    let at = ProgressAt::from(&pos);
    assert_eq!(at.render(), "https://example.com/api/batch2#3");
}

#[test]
fn locator_from_position_without_location_falls_back_to_ids() {
    let pos = Position {
        batch_id: BatchId(String::from("batch3")),
        url: None,
        position_id: PositionId(0),
    };
    let at = ProgressAt::from(&pos);
    assert_eq!(at.render(), "batch3#0");
}
