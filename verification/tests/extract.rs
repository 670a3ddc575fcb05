use thumbnail_pipeline::record::{extract, thumbs_container, NotificationRecord, RejectReason};

fn record(
    event_name: Option<&str>,
    container: Option<&str>,
    key: Option<&str>,
) -> NotificationRecord {
    NotificationRecord {
        event_name: event_name.map(|s| s.to_string()),
        container: container.map(|s| s.to_string()),
        key: key.map(|s| s.to_string()),
    }
}

#[test]
fn deletion_event_is_rejected() {
    let r = record(Some("ObjectRemoved:Delete"), Some("photos"), Some("a.png"));
    assert_eq!(extract(&r).unwrap_err(), RejectReason::WrongEventType);
}

#[test]
fn absent_event_name_is_rejected() {
    let r = record(None, Some("photos"), Some("a.png"));
    assert_eq!(extract(&r).unwrap_err(), RejectReason::WrongEventType);
}

#[test]
fn creation_prefix_is_case_sensitive() {
    let r = record(Some("objectcreated:Put"), Some("photos"), Some("a.png"));
    assert_eq!(extract(&r).unwrap_err(), RejectReason::WrongEventType);
}

#[test]
fn bare_creation_prefix_is_accepted() {
    let r = record(Some("ObjectCreated"), Some("photos"), Some("a.png"));
    assert!(extract(&r).is_ok());
}

#[test]
fn absent_container_is_rejected() {
    let r = record(Some("ObjectCreated:Put"), None, Some("a.png"));
    assert_eq!(extract(&r).unwrap_err(), RejectReason::MissingContainer);
}

#[test]
fn empty_container_is_rejected_like_absent() {
    let empty = record(Some("ObjectCreated:Put"), Some(""), Some("a.png"));
    let absent = record(Some("ObjectCreated:Put"), None, Some("a.png"));
    assert_eq!(extract(&empty).unwrap_err(), RejectReason::MissingContainer);
    assert_eq!(extract(&empty).unwrap_err(), extract(&absent).unwrap_err());
}

#[test]
fn absent_or_empty_key_is_rejected() {
    let absent = record(Some("ObjectCreated:Put"), Some("photos"), None);
    let empty = record(Some("ObjectCreated:Put"), Some("photos"), Some(""));
    assert_eq!(extract(&absent).unwrap_err(), RejectReason::MissingKey);
    assert_eq!(extract(&empty).unwrap_err(), RejectReason::MissingKey);
}

#[test]
fn valid_record_yields_its_reference() {
    let r = record(Some("ObjectCreated:Put"), Some("photos"), Some("a.png"));
    let reference = extract(&r).unwrap();
    assert_eq!(reference.container, "photos");
    assert_eq!(reference.key, "a.png");
}

#[test]
fn destination_container_appends_fixed_suffix() {
    assert_eq!(thumbs_container(&"photos".to_string()), "photos-thumbs");
    assert_eq!(thumbs_container(&"x".to_string()), "x-thumbs");
}
