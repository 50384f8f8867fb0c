use clips_app::steam::{
    detect_game_name, is_process_dir, manifest_game_name, manifest_path, parse_acf_name_line,
    parse_status_uid, status_names_user, steam_app_id, steam_base,
};
use clips_app::text::parse_u32;

fn lines(text: &str) -> Vec<String> {
    text.lines().map(|line| line.to_string()).collect()
}

#[test]
fn name_line_of_a_manifest() {
    assert_eq!(parse_acf_name_line("\t\"name\"\t\t\"Half-Life 2\""), Some("Half-Life 2".to_string()));
    assert_eq!(parse_acf_name_line("\"name\" \"Portal\"  "), Some("Portal".to_string()));
    assert_eq!(parse_acf_name_line("\"name\"\"\""), Some(String::new()));
    assert_eq!(parse_acf_name_line("\"name\" x \"A\" \"B\""), Some("A".to_string()));
    assert_eq!(parse_acf_name_line("\"name\" \"Ünïcödé ✓\""), Some("Ünïcödé ✓".to_string()));
}

#[test]
fn other_lines_of_a_manifest() {
    assert_eq!(parse_acf_name_line("\t\"appid\"\t\t\"220\""), None);
    assert_eq!(parse_acf_name_line("\"Name\" \"Portal\""), None);
    assert_eq!(parse_acf_name_line("name \"Portal\""), None);
    assert_eq!(parse_acf_name_line("\"name\""), None);
    assert_eq!(parse_acf_name_line("\"name\" \"Portal"), None);
    assert_eq!(parse_acf_name_line("x \"name\" \"Portal\""), None);
    assert_eq!(parse_acf_name_line(""), None);
}

#[test]
fn name_of_a_manifest() {
    let manifest = "\"AppState\"\n{\n\t\"appid\"\t\t\"220\"\n\t\"name\"\t\t\"Half-Life 2\"\n\t\"name\"\t\t\"Other\"\n}\n";
    assert_eq!(manifest_game_name(&lines(manifest)), Some("Half-Life 2".to_string()));
    assert_eq!(manifest_game_name(&lines("\"AppState\"\n{\n}\n")), None);
    assert_eq!(manifest_game_name(&Vec::new()), None);
}

#[test]
fn application_id_of_an_environment_entry() {
    assert_eq!(steam_app_id("SteamAppId=220"), Some(220));
    assert_eq!(steam_app_id("SteamGameId=4294967295"), Some(u32::MAX));
    assert_eq!(steam_app_id("SteamAppId=+7"), Some(7));
    assert_eq!(steam_app_id("SteamAppId=007"), Some(7));
    assert_eq!(steam_app_id("SteamAppId=0"), Some(0));
}

#[test]
fn entries_without_application_id() {
    assert_eq!(steam_app_id("SteamAppId="), None);
    assert_eq!(steam_app_id("SteamAppId=4294967296"), None);
    assert_eq!(steam_app_id("SteamAppId=12a"), None);
    assert_eq!(steam_app_id("SteamAppId= 12"), None);
    assert_eq!(steam_app_id("SteamAppId=-1"), None);
    assert_eq!(steam_app_id("SteamGameId=99999999999999999999"), None);
    assert_eq!(steam_app_id("steamappid=220"), None);
    assert_eq!(steam_app_id("XSteamAppId=220"), None);
    assert_eq!(steam_app_id("HOME=/home/u"), None);
    assert_eq!(steam_app_id(""), None);
}

#[test]
fn numerals_as_u32_reads_them() {
    for text in ["0", "1", "+1", "00012", "4294967295", "+4294967295", "", "+", "-0", "1_000",
        "4294967296", "42949672950", " 1", "1 ", "١٢", "++1", "0x10"]
    {
        assert_eq!(parse_u32(text), text.parse::<u32>().ok(), "numeral {text:?}");
    }
}

#[test]
fn manifest_lies_below_the_steam_directory() {
    assert_eq!(
        manifest_path("/home/u/.steam/steam", 220),
        "/home/u/.steam/steam/steamapps/appmanifest_220.acf"
    );
    assert_eq!(manifest_path("", 0), "/steamapps/appmanifest_0.acf");
}

#[test]
fn steam_directory_of_a_user() {
    assert_eq!(steam_base("/home/u", true), "/home/u/.steam/steam");
    assert_eq!(steam_base("/home/u", false), "/home/u/.local/share/Steam");
}

#[test]
fn process_directories_are_numbers() {
    assert!(is_process_dir("1"));
    assert!(is_process_dir("4194304"));
    assert!(is_process_dir(""));
    assert!(!is_process_dir("self"));
    assert!(!is_process_dir("12a"));
    assert!(!is_process_dir("١٢"));
}

#[test]
fn user_id_of_a_status_line() {
    assert_eq!(parse_status_uid("Uid:\t1000\t1000\t1000\t1000"), Some(1000));
    assert_eq!(parse_status_uid("Uid: 0 1 2 3"), Some(0));
    assert_eq!(parse_status_uid("Uid:1000 7"), Some(7));
    assert_eq!(parse_status_uid("Uid:"), None);
    assert_eq!(parse_status_uid("Uid:\t"), None);
    assert_eq!(parse_status_uid("Uid:\tabc"), None);
    assert_eq!(parse_status_uid("Gid:\t1000\t1000"), None);
    assert_eq!(parse_status_uid(" Uid:\t1000"), None);
}

#[test]
fn status_of_a_process_names_its_user() {
    let status = lines("Name:\tgame\nUmask:\t0022\nUid:\t1000\t1000\t1000\t1000\nGid:\t100\t100\n");
    assert!(status_names_user(&status, 1000));
    assert!(!status_names_user(&status, 100));
    assert!(!status_names_user(&status, 0));
    assert!(!status_names_user(&Vec::new(), 1000));
}

#[test]
fn configured_game_goes_before_the_detected_one() {
    assert_eq!(detect_game_name(Some("Doom".to_string()), Some("Quake".to_string())), "Doom");
    assert_eq!(detect_game_name(Some(String::new()), Some("Quake".to_string())), "Quake");
    assert_eq!(detect_game_name(None, Some("Quake".to_string())), "Quake");
    assert_eq!(detect_game_name(None, Some(String::new())), "");
    assert_eq!(detect_game_name(Some(String::new()), None), "");
    assert_eq!(detect_game_name(None, None), "");
}
