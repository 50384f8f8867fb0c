use clips_app::failed_uploads::{FailedUpload, FailedUploadsList, ID_TITLE_CHARS};

fn upload(title: &str, game: &str, timestamp: u64) -> FailedUpload {
    FailedUpload::new(
        title.to_string(),
        game.to_string(),
        format!("/done/{title}.mp4"),
        format!("/done/{title}_raw.mp4"),
        timestamp,
    )
}

#[test]
fn identifier_is_time_and_title() {
    let record = upload("Ace", "Quake", 1_700_000_000);
    assert_eq!(record.id, "1700000000-Ace");
    assert_eq!(record.title, "Ace");
    assert_eq!(record.game, "Quake");
    assert_eq!(record.processed_path, "/done/Ace.mp4");
    assert_eq!(record.full_path, "/done/Ace_raw.mp4");
    assert_eq!(record.timestamp, 1_700_000_000);
}

#[test]
fn identifier_takes_twenty_characters_of_the_title() {
    assert_eq!(ID_TITLE_CHARS, 20);
    let record = upload("abcdefghijklmnopqrstuvwxyz", "", 5);
    assert_eq!(record.id, "5-abcdefghijklmnopqrst");
    let exact = upload("abcdefghijklmnopqrst", "", 0);
    assert_eq!(exact.id, "0-abcdefghijklmnopqrst");
    let empty = upload("", "", 12);
    assert_eq!(empty.id, "12-");
}

#[test]
fn identifier_counts_characters_not_bytes() {
    let record = upload("ÄÖÜäöüßÄÖÜäöüßÄÖÜäöüßÄÖÜ", "", 9);
    assert_eq!(record.id, "9-ÄÖÜäöüßÄÖÜäöüßÄÖÜäöü");
}

#[test]
fn display_name_with_and_without_game() {
    assert_eq!(upload("Ace", "Quake", 1).display_name(), "Ace [Quake]");
    assert_eq!(upload("Ace", "", 1).display_name(), "Ace");
    assert_eq!(upload("", " ", 1).display_name(), " [ ]");
}

#[test]
fn list_starts_empty() {
    let list = FailedUploadsList::default();
    assert!(list.uploads.is_empty());
    assert_eq!(list.get("1-Ace"), None);
}

#[test]
fn add_appends() {
    let mut list = FailedUploadsList::default();
    list.add(upload("a", "", 1));
    list.add(upload("b", "", 2));
    assert_eq!(list.uploads, vec![upload("a", "", 1), upload("b", "", 2)]);
}

#[test]
fn get_finds_by_identifier() {
    let mut list = FailedUploadsList::default();
    list.add(upload("a", "", 1));
    list.add(upload("b", "g", 2));
    assert_eq!(list.get("2-b"), Some(&upload("b", "g", 2)));
    assert_eq!(list.get("2-a"), None);
    assert_eq!(list.get(""), None);
}

#[test]
fn remove_takes_the_record_out() {
    let mut list = FailedUploadsList::default();
    list.add(upload("a", "", 1));
    list.add(upload("b", "", 2));
    list.add(upload("c", "", 3));
    assert_eq!(list.remove("2-b"), Some(upload("b", "", 2)));
    assert_eq!(list.uploads, vec![upload("a", "", 1), upload("c", "", 3)]);
    assert_eq!(list.remove("2-b"), None);
    assert_eq!(list.uploads.len(), 2);
}

#[test]
fn remove_takes_the_first_of_equal_identifiers() {
    let mut list = FailedUploadsList::default();
    let mut first = upload("a", "one", 1);
    first.processed_path = "/first".to_string();
    list.add(first.clone());
    list.add(upload("a", "two", 1));
    assert_eq!(list.get("1-a"), Some(&first));
    assert_eq!(list.remove("1-a"), Some(first));
    assert_eq!(list.uploads, vec![upload("a", "two", 1)]);
}
