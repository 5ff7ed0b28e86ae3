use soundbot::auth::StoredToken;
use soundbot::sound::{find_matching_sound, sound_base_name, sound_file_path};
use soundbot::text::{is_all_digits, str_eq};

#[test]
fn test_token_json_exact_text() {
    let token = StoredToken::new("access123".to_string(), "refresh123".to_string());
    assert_eq!(
        token.to_json(),
        "{\"access_token\":\"access123\",\"refresh_token\":\"refresh123\"}"
    );
}

#[test]
fn test_token_json_round_trip_with_escapes() {
    let token = StoredToken::new("a\"b\\c\nd".to_string(), "tab\there".to_string());
    let text = token.to_json();
    let back = StoredToken::from_json(&text).expect("the rendered form must read back");
    assert_eq!(back.access_token, "a\"b\\c\nd");
    assert_eq!(back.refresh_token, "tab\there");
}

#[test]
fn test_token_from_json_rejects_missing_field() {
    assert!(StoredToken::from_json("{\"access_token\":\"only\"}").is_none());
    assert!(StoredToken::from_json("not json").is_none());
}

#[test]
fn test_find_matching_sound_is_case_insensitive() {
    let names = vec!["AirHorn".to_string(), "CoolSound".to_string()];
    assert_eq!(find_matching_sound(&names, "COOLSOUND"), Some(1));
    assert_eq!(find_matching_sound(&names, "airhorn"), Some(0));
    assert_eq!(find_matching_sound(&names, "unheard of"), None);
}

#[test]
fn test_find_matching_sound_takes_first_match() {
    let names = vec!["Echo".to_string(), "ECHO".to_string()];
    assert_eq!(find_matching_sound(&names, "echo"), Some(0));
}

#[test]
fn test_sound_file_path() {
    assert_eq!(sound_file_path("airhorn"), "sounds/airhorn.mp3");
}

#[test]
fn test_sound_base_name() {
    assert_eq!(sound_base_name("airhorn.mp3"), "airhorn");
    assert_eq!(sound_base_name("archive.tar.gz"), "archive");
    assert_eq!(sound_base_name("noext"), "noext");
    assert_eq!(sound_base_name(".hidden"), "");
}

#[test]
fn test_str_eq() {
    assert!(str_eq("abc", "abc"));
    assert!(!str_eq("abc", "abd"));
    assert!(!str_eq("abc", "ab"));
    assert!(str_eq("", ""));
}

#[test]
fn test_is_all_digits() {
    assert!(is_all_digits("141981764"));
    assert!(is_all_digits(""));
    assert!(!is_all_digits("12a4"));
    assert!(!is_all_digits("-12"));
}
