use clips_app::clip::{
    numbered_file_name, retry_destination, sibling_dir, transformed_file_name, trim_place,
    TrimPlace,
    finalised_names, move_destination, path_candidate, sanitize_text, transformed_path,
    unique_path, upload_destination, Destination, NoUniquePath, MAX_ATTEMPTS,
};
use clips_app::failed_uploads::FailedUpload;
use std::cell::RefCell;

#[test]
fn sanitize_removes_forbidden_characters() {
    assert_eq!(sanitize_text("a/b\\c:d*e?f\"g<h>i|j\0k"), "abcdefghijk");
    assert_eq!(sanitize_text("What? A: \"clip\""), "What A clip");
}

#[test]
fn sanitize_puts_words_one_space_apart() {
    assert_eq!(sanitize_text("  my \t  best\n\nclip  "), "my best clip");
    assert_eq!(sanitize_text("one"), "one");
    assert_eq!(sanitize_text("a\u{00A0}b\u{3000}c"), "a b c");
}

#[test]
fn sanitize_joins_what_a_forbidden_character_separated() {
    assert_eq!(sanitize_text("a/b"), "ab");
    assert_eq!(sanitize_text("a / b"), "a b");
    assert_eq!(sanitize_text("a /b"), "a b");
    assert_eq!(sanitize_text("/ a"), "a");
}

#[test]
fn sanitize_falls_back_to_clip() {
    assert_eq!(sanitize_text(""), "clip");
    assert_eq!(sanitize_text("   "), "clip");
    assert_eq!(sanitize_text("?:*"), "clip");
    assert_eq!(sanitize_text(" / \\ "), "clip");
}

#[test]
fn candidates_are_numbered_siblings() {
    assert_eq!(path_candidate("/done/Ace.mp4", 0), "/done/Ace.mp4");
    assert_eq!(path_candidate("/done/Ace.mp4", 1), "/done/Ace-1.mp4");
    assert_eq!(path_candidate("/done/Ace.mp4", 9999), "/done/Ace-9999.mp4");
    assert_eq!(path_candidate("/done/Ace", 2), "/done/Ace-2");
    assert_eq!(path_candidate("Ace.tar.gz", 3), "Ace.tar-3.gz");
    assert_eq!(path_candidate("dir/.hidden", 4), "dir/.hidden-4");
    assert_eq!(path_candidate("/", 5), "clip-5");
    assert_eq!(path_candidate("..", 1), "clip-1");
}

#[test]
fn unique_path_is_the_path_itself_when_free() {
    assert_eq!(unique_path("/done/Ace.mp4", |_| false), Ok("/done/Ace.mp4".to_string()));
}

#[test]
fn unique_path_takes_the_least_free_number() {
    let taken = ["/done/Ace.mp4", "/done/Ace-1.mp4", "/done/Ace-2.mp4", "/done/Ace-4.mp4"];
    let asked = RefCell::new(Vec::new());
    let found = unique_path("/done/Ace.mp4", |p: &str| {
        asked.borrow_mut().push(p.to_string());
        taken.contains(&p)
    });
    assert_eq!(found, Ok("/done/Ace-3.mp4".to_string()));
    assert_eq!(
        asked.into_inner(),
        vec![
            "/done/Ace.mp4".to_string(),
            "/done/Ace-1.mp4".to_string(),
            "/done/Ace-2.mp4".to_string(),
            "/done/Ace-3.mp4".to_string(),
        ]
    );
}

#[test]
fn unique_path_gives_up_after_the_last_number() {
    let asked = RefCell::new(0u32);
    let found = unique_path("a.mp4", |_| {
        *asked.borrow_mut() += 1;
        true
    });
    assert_eq!(found, Err(NoUniquePath { attempts: 9999 }));
    assert_eq!(found.unwrap_err().message(), "failed to find unique path after 9999 attempts");
    assert_eq!(asked.into_inner(), 10_000);
    assert_eq!(MAX_ATTEMPTS, 9999);
}

#[test]
fn unique_path_can_take_the_last_number() {
    let found = unique_path("a.mp4", |p: &str| p != "a-9999.mp4");
    assert_eq!(found, Ok("a-9999.mp4".to_string()));
}

#[test]
fn transformed_path_lies_beside_the_source() {
    assert_eq!(transformed_path("/raw/Replay_1.mp4"), "/raw/Replay_1_transformed.mp4");
    assert_eq!(transformed_path("/raw/Replay.mkv"), "/raw/Replay_transformed.mkv");
    assert_eq!(transformed_path("/raw/Replay"), "/raw/Replay_transformed.mp4");
    assert_eq!(transformed_path("Replay.mp4"), "Replay_transformed.mp4");
}

#[test]
fn kept_clip_goes_into_a_directory_of_its_name() {
    assert_eq!(
        move_destination("/done", "Ace [Quake]", "Ace"),
        Destination {
            dir: "/done/Ace [Quake]".to_string(),
            processed: "/done/Ace [Quake]/Ace [Quake].mp4".to_string(),
            raw: "/done/Ace [Quake]/Ace_raw.mp4".to_string(),
        }
    );
}

#[test]
fn uploaded_clip_carries_the_video_id() {
    assert_eq!(
        upload_destination("/done", "Ace [Quake]", "Ace", "dQw4w9WgXcQ"),
        Destination {
            dir: "/done/Ace [Quake] [dQw4w9WgXcQ]".to_string(),
            processed: "/done/Ace [Quake] [dQw4w9WgXcQ]/Ace [Quake] [dQw4w9WgXcQ].mp4".to_string(),
            raw: "/done/Ace [Quake] [dQw4w9WgXcQ]/Ace_raw.mp4".to_string(),
        }
    );
}

#[test]
fn finalised_names_of_a_clip() {
    assert_eq!(
        finalised_names("/done", "Ace"),
        ("/done/Ace_full.mp4".to_string(), "/done/Ace.mp4".to_string())
    );
}

#[test]
fn sanitized_text_is_fit_for_a_file_name() {
    let forbidden = ['/', '\\', ':', '*', '?', '"', '<', '>', '|', '\0'];
    for value in ["", "  ", "a", "a/b:c", "\"<>|\"", " x  y ", "\0\0", "C:\\clips\\a?.mp4", "日本 語/ク"] {
        let text = sanitize_text(value);
        assert!(!text.is_empty());
        assert!(!text.chars().any(|c| forbidden.contains(&c)), "{text:?}");
        assert_eq!(text, sanitize_text(&text));
        let expected: String = value.chars().filter(|c| !forbidden.contains(c)).collect();
        let expected = expected.split_whitespace().collect::<Vec<_>>().join(" ");
        assert_eq!(text, if expected.is_empty() { "clip".to_string() } else { expected });
    }
}

fn text(s: &str) -> Option<String> {
    Some(s.to_string())
}

#[test]
fn numbered_names_from_stem_and_extension() {
    assert_eq!(numbered_file_name(text("Ace"), text("mp4"), 1), "Ace-1.mp4");
    assert_eq!(numbered_file_name(text("Ace"), None, 12), "Ace-12");
    assert_eq!(numbered_file_name(None, text("gz"), 9999), "clip-9999.gz");
    assert_eq!(numbered_file_name(None, None, 0), "clip-0");
    assert_eq!(numbered_file_name(text(""), text(""), 3), "-3.");
}

#[test]
fn numbered_names_stand_beside_the_path_or_alone() {
    assert_eq!(sibling_dir(text("/done")), text("/done"));
    assert_eq!(sibling_dir(text("")), None);
    assert_eq!(sibling_dir(None), None);
}

#[test]
fn transformed_names_from_stem_and_extension() {
    assert_eq!(transformed_file_name(text("Replay"), text("mkv")), "Replay_transformed.mkv");
    assert_eq!(transformed_file_name(text("Replay"), None), "Replay_transformed.mp4");
    assert_eq!(transformed_file_name(None, text("mkv")), "clip_transformed.mkv");
    assert_eq!(transformed_file_name(None, None), "clip_transformed.mp4");
}

#[test]
fn cut_clip_has_a_place_beside_the_source() {
    assert_eq!(
        trim_place(text("/raw"), text("Replay")),
        TrimPlace::Beside { dir: "/raw".to_string(), name: "Replay_trimmed.mp4".to_string() }
    );
    assert_eq!(
        trim_place(text(""), text("a.b")),
        TrimPlace::Beside { dir: String::new(), name: "a.b_trimmed.mp4".to_string() }
    );
    assert_eq!(
        trim_place(None, text("Replay")),
        TrimPlace::Nowhere { reason: "source file has no parent directory".to_string() }
    );
    assert_eq!(
        trim_place(None, None),
        TrimPlace::Nowhere { reason: "source file has no parent directory".to_string() }
    );
    assert_eq!(
        trim_place(text("/raw"), None),
        TrimPlace::Nowhere { reason: "source file has no stem".to_string() }
    );
}

#[test]
fn retried_upload_goes_where_uploads_go() {
    let with_game = FailedUpload::new(
        "Ace".to_string(),
        "Quake".to_string(),
        "/done/Ace [Quake]/Ace [Quake].mp4".to_string(),
        "/done/Ace [Quake]/Ace_raw.mp4".to_string(),
        7,
    );
    assert_eq!(
        retry_destination("/done", &with_game, "vid"),
        upload_destination("/done", "Ace [Quake]", "Ace", "vid")
    );
    assert_eq!(
        retry_destination("/done", &with_game, "vid"),
        Destination {
            dir: "/done/Ace [Quake] [vid]".to_string(),
            processed: "/done/Ace [Quake] [vid]/Ace [Quake] [vid].mp4".to_string(),
            raw: "/done/Ace [Quake] [vid]/Ace_raw.mp4".to_string(),
        }
    );
    let without_game =
        FailedUpload::new("Ace".to_string(), String::new(), String::new(), String::new(), 7);
    assert_eq!(
        retry_destination("/done", &without_game, "vid"),
        Destination {
            dir: "/done/Ace [vid]".to_string(),
            processed: "/done/Ace [vid]/Ace [vid].mp4".to_string(),
            raw: "/done/Ace [vid]/Ace_raw.mp4".to_string(),
        }
    );
}
