use argon2::PasswordHasher;
use tokimo_media_server_bridge::jellyfin::auth::{
    api_key_name, authenticate, parse_mediabrowser_header, parse_mediabrowser_token,
    request_token, stream_token, token_key_prefix, AuthRejection,
};
use tokimo_media_server_bridge::jellyfin::session::{
    played_state, reported_file, started_session, unplayed_state, watch_target,
    watch_upsert_statement, WatchTarget,
};
use tokimo_media_server_bridge::jellyfin::system::public_system_info;
use tokimo_media_server_bridge::jellyfin::users::{
    check_login, compact_uuid, login_client_info, login_device_id, new_access_token, user_dto,
    verify_password, LoginFailure, LoginRow, PlayStateDto, SessionCapabilities,
    UserConfiguration, UserPolicy,
};

const ID: u128 = 0x0123456789abcdef0123456789abcdef;
const ID_TEXT: &str = "01234567-89ab-cdef-0123-456789abcdef";

fn s(x: &str) -> Option<String> {
    Some(x.to_string())
}

#[test]
fn tokens_come_from_mediabrowser_headers() {
    let h = r#"MediaBrowser Client="Infuse", Device="iPhone", DeviceId="d1", Version="7.0", Token="abc123""#;
    assert_eq!(parse_mediabrowser_token(h), Some("abc123".to_string()));
    assert_eq!(parse_mediabrowser_token(r#"  Emby Token="t" "#), Some("t".to_string()));
    assert_eq!(parse_mediabrowser_token(r#"Bearer Token="t""#), None);
    assert_eq!(parse_mediabrowser_token(r#"MediaBrowser Client="x", Token="""#), None);
    assert_eq!(parse_mediabrowser_token(r#"MediaBrowser Token="", Token="second""#), Some("second".to_string()));
}

#[test]
fn client_descriptions_come_from_headers() {
    let h = r#"MediaBrowser Client="Infuse", Device="iPhone", DeviceId="d1", Version="7.0", Token="abc""#;
    let info = parse_mediabrowser_header(h);
    assert_eq!(info.client, "Infuse");
    assert_eq!(info.device, "iPhone");
    assert_eq!(info.device_id, "d1");
    assert_eq!(info.version, "7.0");
    let bare = parse_mediabrowser_header(r#"Client="Kodi""#);
    assert_eq!(bare.client, "Kodi");
    assert_eq!(bare.device, "");
}

#[test]
fn request_token_prefers_the_header() {
    let auth = s(r#"MediaBrowser Token="fromheader""#);
    assert_eq!(request_token(&auth, &s("emby"), &s("query")), s("fromheader"));
    assert_eq!(request_token(&s("Bearer x"), &s("emby"), &s("query")), s("emby"));
    assert_eq!(request_token(&None, &None, &s("query")), s("query"));
    assert_eq!(request_token(&None, &None, &None), None);
}

#[test]
fn stream_token_prefers_the_query() {
    let auth = s(r#"MediaBrowser Token="fromheader""#);
    assert_eq!(stream_token(&s("query"), &auth, &s("emby")), s("query"));
    assert_eq!(stream_token(&None, &auth, &s("emby")), s("fromheader"));
    assert_eq!(stream_token(&None, &None, &s("emby")), s("emby"));
}

#[test]
fn authentication_outcomes() {
    assert_eq!(authenticate(None, Ok(None)).err(), Some(AuthRejection::MissingToken));
    assert_eq!(authenticate(s("t"), Ok(None)).err(), Some(AuthRejection::InvalidToken));
    assert_eq!(authenticate(s("t"), Err(())).err(), Some(AuthRejection::LookupFailed));
    let user = authenticate(s("t"), Ok(Some((ID, "alice".to_string())))).ok().unwrap();
    assert_eq!(user.user_id, ID);
    assert_eq!(user.user_name, "alice");
    assert_eq!(user.access_token, "t");
}

#[test]
fn stored_keys_are_named_and_prefixed() {
    assert_eq!(api_key_name("dev-1"), "jellyfin:dev-1");
    assert_eq!(token_key_prefix("0123456789abcdef"), "01234567");
    assert_eq!(token_key_prefix("abc"), "abc");
    assert_eq!(token_key_prefix(""), "");
}

#[test]
fn playback_reports_name_files_and_sessions() {
    assert_eq!(reported_file(&s(ID_TEXT)), Some(ID));
    assert_eq!(reported_file(&s("nope")), None);
    let auth = s(r#"MediaBrowser Client="Infuse", Token="t""#);
    let session = started_session(7, &s(ID_TEXT), &auth, s("UA/1"), 42).unwrap();
    assert_eq!(session.user_id, 7);
    assert_eq!(session.file_id, ID);
    assert_eq!(session.client_name, s("Infuse"));
    assert_eq!(session.user_agent, s("UA/1"));
    assert_eq!(session.position, 42);
    let anonymous = started_session(7, &s(ID_TEXT), &s(r#"MediaBrowser Token="t""#), None, 0).unwrap();
    assert_eq!(anonymous.client_name, None);
    assert!(started_session(7, &None, &auth, None, 0).is_none());
}

#[test]
fn marked_states_are_played_or_not() {
    let p = played_state(ID);
    assert_eq!(p.played_percentage, Some(100));
    assert!(p.played);
    assert_eq!(p.play_count, 1);
    assert_eq!(p.key, ID_TEXT);
    assert_eq!(p.item_id, ID_TEXT);
    let u = unplayed_state(ID);
    assert_eq!(u.played_percentage, Some(0));
    assert!(!u.played);
    assert_eq!(u.play_count, 0);
    assert_eq!(u.playback_position_ticks, 0);
}

#[test]
fn watch_states_go_to_movies_or_episodes() {
    assert!(watch_target(true, true) == Some(WatchTarget::Movie));
    assert!(watch_target(false, true) == Some(WatchTarget::Episode));
    assert!(watch_target(false, false).is_none());
    let sql = watch_upsert_statement(&WatchTarget::Episode, true);
    assert!(sql.starts_with("INSERT INTO user_media_states (id, user_id, episode_id, "));
    assert!(sql.contains("ON CONFLICT (user_id, episode_id)"));
    assert!(sql.contains("CASE WHEN true THEN true"));
    let movie = watch_upsert_statement(&WatchTarget::Movie, false);
    assert!(movie.contains("video_item_id"));
    assert!(movie.contains("CASE WHEN false THEN true"));
}

#[test]
fn users_have_compact_ids_and_fixed_settings() {
    assert_eq!(compact_uuid(ID), "0123456789abcdef0123456789abcdef");
    let u = user_dto(ID, "alice", s("2024-01-01T00:00:00+00:00"), "srv");
    assert_eq!(u.id, "0123456789abcdef0123456789abcdef");
    assert_eq!(u.name, "alice");
    assert_eq!(u.server_id, "srv");
    assert!(u.has_password && u.has_configured_password);
    assert_eq!(u.last_activity_date, s("2024-01-01T00:00:00+00:00"));
    let c = UserConfiguration::default();
    assert_eq!(c.subtitle_mode, "Default");
    assert_eq!(c.cast_receiver_id, "F007D354");
    let p = UserPolicy::default();
    assert!(p.is_administrator);
    assert_eq!(p.login_attempts_before_lockout, -1);
    assert_eq!(p.sync_play_access, "CreateAndJoinGroups");
    let play = PlayStateDto::default();
    assert_eq!(play.repeat_mode, "RepeatNone");
    let caps = SessionCapabilities::default();
    assert!(caps.supports_persistent_identifier);
}

#[test]
fn passwords_are_checked() {
    assert!(verify_password("secret", "secret"));
    assert!(!verify_password("secret", "Secret"));
    let stored = argon2::Argon2::default().hash_password(b"secret").unwrap().to_string();
    assert!(stored.starts_with("$argon2"));
    assert!(verify_password("secret", &stored));
    assert!(!verify_password("wrong", &stored));
    assert!(!verify_password("$argon2id$broken", "$argon2id$broken"));
}

#[test]
fn logins_are_checked() {
    let row = LoginRow {
        id: ID,
        name: "alice".to_string(),
        password_hash: "pw".to_string(),
        last_login: None,
    };
    assert_eq!(check_login(Err(()), "pw").err(), Some(LoginFailure::LookupFailed));
    assert_eq!(check_login(Ok(None), "pw").err(), Some(LoginFailure::BadCredentials));
    let ok = check_login(Ok(Some(row)), "pw").ok().unwrap();
    assert_eq!(ok.name, "alice");
    let row2 = LoginRow {
        id: ID,
        name: "bob".to_string(),
        password_hash: "pw".to_string(),
        last_login: None,
    };
    assert_eq!(check_login(Ok(Some(row2)), "nope").err(), Some(LoginFailure::BadCredentials));
}

#[test]
fn login_devices_and_tokens() {
    let info = login_client_info(&Some(s(r#"MediaBrowser Client="A", DeviceId="dev""#)), &None);
    assert_eq!(info.client, "A");
    assert_eq!(info.device_id, "dev");
    let fallback = login_client_info(&None, &Some(s(r#"Emby Client="B""#)));
    assert_eq!(fallback.client, "B");
    let opaque = login_client_info(&Some(None), &Some(s(r#"Emby Client="B""#)));
    assert_eq!(opaque.client, "");
    assert_eq!(login_device_id("dev"), "dev");
    let fresh = login_device_id("");
    assert_eq!(fresh.len(), 36);
    let token = new_access_token();
    assert_eq!(token.len(), 32);
    assert!(token.chars().all(|c| c.is_ascii_hexdigit()));
    assert_ne!(new_access_token(), token);
}

#[test]
fn the_public_description() {
    let info = public_system_info("http://host:8096", "Home", "srv-1");
    assert_eq!(info.local_address, "http://host:8096");
    assert_eq!(info.server_name, "Home");
    assert_eq!(info.version, "10.11.8");
    assert_eq!(info.product_name, "Jellyfin Server");
    assert_eq!(info.operating_system, "");
    assert_eq!(info.id, "srv-1");
    assert!(info.startup_wizard_completed);
}
