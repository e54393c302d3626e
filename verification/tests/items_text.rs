use tokimo_media_server_bridge::jellyfin::items::{
    build_jellyfin_etag, capitalize_role, format_jellyfin_key, has_field,
    infer_series_path_from_sample, maybe_strip_season_directory, seconds_to_ticks, slash_parent,
    ticks_to_seconds, tmdb_genre_name,
};
use tokimo_media_server_bridge::jellyfin::session;

#[test]
fn genre_names_follow_tmdb() {
    assert_eq!(tmdb_genre_name(28), "Action");
    assert_eq!(tmdb_genre_name(878), "Science Fiction");
    assert_eq!(tmdb_genre_name(10765), "Sci-Fi & Fantasy");
    assert_eq!(tmdb_genre_name(1), "Unknown");
}

#[test]
fn seconds_become_ticks() {
    assert_eq!(seconds_to_ticks(0), 0);
    assert_eq!(seconds_to_ticks(3), 30_000_000);
    assert_eq!(seconds_to_ticks(-2), -20_000_000);
    assert_eq!(seconds_to_ticks(i32::MAX), 21_474_836_470_000_000);
}

#[test]
fn ticks_become_whole_seconds_toward_zero() {
    assert_eq!(ticks_to_seconds(15_000_000), 1);
    assert_eq!(ticks_to_seconds(-15_000_000), -1);
    assert_eq!(ticks_to_seconds(9_999_999), 0);
    assert_eq!(session::ticks_to_seconds(None), 0);
    assert_eq!(session::ticks_to_seconds(Some(25_000_000)), 2);
}

#[test]
fn ticks_round_trip_on_concrete_seconds() {
    for s in [0, 1, -1, 59, 7_200, i32::MAX, i32::MIN] {
        assert_eq!(ticks_to_seconds(seconds_to_ticks(s)), s);
    }
}

#[test]
fn keys_are_hyphenated_uuids() {
    assert_eq!(
        format_jellyfin_key("0123456789abcdef0123456789abcdef"),
        "01234567-89ab-cdef-0123-456789abcdef"
    );
    let once = format_jellyfin_key("01234567-89ab-cdef-0123-456789abcdef");
    assert_eq!(once, "01234567-89ab-cdef-0123-456789abcdef");
    assert_eq!(format_jellyfin_key(&once), once);
    assert_eq!(format_jellyfin_key("tt1234567"), "tt1234567");
}

#[test]
fn etags_join_present_parts() {
    let parts = vec![Some("a".to_string()), None, Some(String::new()), Some("b".to_string())];
    assert_eq!(build_jellyfin_etag("id", &parts), "id|a|b");
    assert_eq!(build_jellyfin_etag("id", &[]), "id");
}

#[test]
fn slash_parents() {
    assert_eq!(slash_parent("/media/tv/Show/"), Some("/media/tv".to_string()));
    assert_eq!(slash_parent("/file.mkv"), Some("/".to_string()));
    assert_eq!(slash_parent(""), None);
    assert_eq!(slash_parent("///"), None);
    assert_eq!(slash_parent("file.mkv"), None);
}

#[test]
fn season_directories_are_stripped() {
    assert_eq!(maybe_strip_season_directory("/tv/Show/Season 1"), Some("/tv/Show".to_string()));
    assert_eq!(maybe_strip_season_directory("/tv/Show/S02"), Some("/tv/Show".to_string()));
    assert_eq!(maybe_strip_season_directory("/tv/Show/Specials"), Some("/tv/Show".to_string()));
    assert_eq!(maybe_strip_season_directory("/tv/Show"), Some("/tv/Show".to_string()));
    assert_eq!(maybe_strip_season_directory("Season 1"), Some("Season 1".to_string()));
}

#[test]
fn series_paths_come_from_sample_files() {
    assert_eq!(
        infer_series_path_from_sample("/tv/Show/Season 01/Show - S01E01.mkv"),
        Some("/tv/Show".to_string())
    );
    assert_eq!(infer_series_path_from_sample("/tv/Show/ep.mkv"), Some("/tv/Show".to_string()));
    assert_eq!(infer_series_path_from_sample("ep.mkv"), None);
}

#[test]
fn fields_lists_match_names_loosely() {
    assert!(has_field(Some("People, genres ,Overview"), "Genres"));
    assert!(!has_field(Some("People,Overview"), "Genres"));
    assert!(!has_field(None, "Genres"));
    assert!(!has_field(Some("GenresX"), "Genres"));
}

#[test]
fn roles_become_person_types() {
    assert_eq!(capitalize_role("actor"), "Actor");
    assert_eq!(capitalize_role("DIRECTOR"), "Director");
    assert_eq!(capitalize_role("music"), "Composer");
    assert_eq!(capitalize_role("guest_star"), "GuestStar");
    assert_eq!(capitalize_role("editor"), "Editor");
    assert_eq!(capitalize_role(""), "");
    assert_eq!(capitalize_role("élan"), "élan");
}

#[test]
fn ascii_keys_keep_their_hex_and_settle() {
    let id = "ab-cd0123456789abcdef0123456789ab";
    let key = format_jellyfin_key(id);
    assert_eq!(key, "abcd0123-4567-89ab-cdef-0123456789ab");
    assert_eq!(key.replace('-', ""), id.replace('-', ""));
    assert_eq!(format_jellyfin_key(&key), key);
    let odd = "--a-b-";
    assert_eq!(format_jellyfin_key(odd), odd);
}

#[test]
fn person_types_settle() {
    for role in ["actor", "DIRECTOR", "Writer", "producer", "Music", "guest_star", "editor", "", "x"] {
        let once = capitalize_role(role);
        assert_eq!(capitalize_role(&once), once);
    }
}
