//! User records: the user description clients receive, its fixed
//! configuration and policy, password checks, and what a successful login
//! answers.

use vstd::prelude::*;
use crate::jellyfin::auth::{
    empty_client_info, mediabrowser_client_info, parse_mediabrowser_header, ClientInfoView,
    MediaBrowserClientInfo,
};
use crate::jellyfin::items::law_uuid_text_is_key;
use crate::numbers::{hex_digits, is_uuid_v4, lemma_hex_digits_ascii, uuid_string, uuid_text};
use crate::outside::{argon2_accepts, argon2_verify, new_uuid_v4};
use crate::text::{
    chars_of, clone_opt, has_prefix, opt_view, owned, remove_char, same_chars,
    starts_with_chars, string_of, without_char,
};

verus! {

/// A user's display preferences, as every user of this server has them.
pub struct UserConfiguration {
    pub play_default_audio_track: bool,
    pub subtitle_language_preference: String,
    pub display_missing_episodes: bool,
    pub grouped_folders: Vec<String>,
    pub subtitle_mode: String,
    pub display_collections_view: bool,
    pub enable_local_password: bool,
    pub ordered_views: Vec<String>,
    pub latest_items_excludes: Vec<String>,
    pub my_media_excludes: Vec<String>,
    pub hide_played_in_latest: bool,
    pub remember_audio_selections: bool,
    pub remember_subtitle_selections: bool,
    pub enable_next_episode_auto_play: bool,
    pub cast_receiver_id: String,
}

impl Default for UserConfiguration {
    /// Play the default audio track, default subtitle mode, hide played
    /// items in "latest", remember audio and subtitle choices, auto-play the
    /// next episode, the stable cast receiver; everything else off or empty.
    fn default() -> (r: Self)
        ensures
            r.play_default_audio_track && !r.display_missing_episodes,
            r.subtitle_language_preference@ == Seq::<char>::empty(),
            r.grouped_folders@.len() == 0 && r.ordered_views@.len() == 0,
            r.latest_items_excludes@.len() == 0 && r.my_media_excludes@.len() == 0,
            r.subtitle_mode@ == "Default"@,
            !r.display_collections_view && !r.enable_local_password,
            r.hide_played_in_latest && r.remember_audio_selections,
            r.remember_subtitle_selections && r.enable_next_episode_auto_play,
            r.cast_receiver_id@ == "F007D354"@,
    {
        UserConfiguration {
            play_default_audio_track: true,
            subtitle_language_preference: String::new(),
            display_missing_episodes: false,
            grouped_folders: Vec::new(),
            subtitle_mode: owned("Default"),
            display_collections_view: false,
            enable_local_password: false,
            ordered_views: Vec::new(),
            latest_items_excludes: Vec::new(),
            my_media_excludes: Vec::new(),
            hide_played_in_latest: true,
            remember_audio_selections: true,
            remember_subtitle_selections: true,
            enable_next_episode_auto_play: true,
            cast_receiver_id: owned("F007D354"),
        }
    }
}

/// What every user of this server may do. Its access schedules are always
/// empty and are added where it is serialized.
pub struct UserPolicy {
    pub is_administrator: bool,
    pub is_hidden: bool,
    pub enable_collection_management: bool,
    pub enable_subtitle_management: bool,
    pub enable_lyric_management: bool,
    pub is_disabled: bool,
    pub blocked_tags: Vec<String>,
    pub allowed_tags: Vec<String>,
    pub enable_user_preference_access: bool,
    pub block_unrated_items: Vec<String>,
    pub enable_remote_control_of_other_users: bool,
    pub enable_shared_device_control: bool,
    pub enable_remote_access: bool,
    pub enable_live_tv_management: bool,
    pub enable_live_tv_access: bool,
    pub enable_media_playback: bool,
    pub enable_audio_playback_transcoding: bool,
    pub enable_video_playback_transcoding: bool,
    pub enable_playback_remuxing: bool,
    pub force_remote_source_transcoding: bool,
    pub enable_content_deletion: bool,
    pub enable_content_deletion_from_folders: Vec<String>,
    pub enable_content_downloading: bool,
    pub enable_sync_transcoding: bool,
    pub enable_media_conversion: bool,
    pub enabled_devices: Vec<String>,
    pub enable_all_devices: bool,
    pub enabled_channels: Vec<String>,
    pub enable_all_channels: bool,
    pub enabled_folders: Vec<String>,
    pub enable_all_folders: bool,
    pub invalid_login_attempt_count: i32,
    pub login_attempts_before_lockout: i32,
    pub max_active_sessions: i32,
    pub enable_public_sharing: bool,
    pub blocked_media_folders: Vec<String>,
    pub blocked_channels: Vec<String>,
    pub remote_client_bitrate_limit: i64,
    pub authentication_provider_id: String,
    pub password_reset_provider_id: String,
    pub sync_play_access: String,
}

impl Default for UserPolicy {
    /// An administrator (hidden) who may play, transcode, remux, download,
    /// delete and control remotely from any device, channel and folder;
    /// no lockout, no session or bitrate limit, the default providers.
    fn default() -> (r: Self)
        ensures
            r.is_administrator && r.is_hidden && !r.is_disabled,
            !r.enable_collection_management && !r.enable_subtitle_management,
            !r.enable_lyric_management && r.enable_user_preference_access,
            r.enable_remote_control_of_other_users && r.enable_shared_device_control,
            r.enable_remote_access && !r.enable_live_tv_management && r.enable_live_tv_access,
            r.enable_media_playback && r.enable_audio_playback_transcoding,
            r.enable_video_playback_transcoding && r.enable_playback_remuxing,
            !r.force_remote_source_transcoding && r.enable_content_deletion,
            r.enable_content_downloading && r.enable_sync_transcoding && r.enable_media_conversion,
            r.enable_all_devices && r.enable_all_channels && r.enable_all_folders,
            r.blocked_tags@.len() == 0 && r.allowed_tags@.len() == 0,
            r.block_unrated_items@.len() == 0 && r.enable_content_deletion_from_folders@.len() == 0,
            r.enabled_devices@.len() == 0 && r.enabled_channels@.len() == 0,
            r.enabled_folders@.len() == 0 && r.blocked_media_folders@.len() == 0,
            r.blocked_channels@.len() == 0,
            r.invalid_login_attempt_count == 0 && r.login_attempts_before_lockout == -1,
            r.max_active_sessions == 0 && r.enable_public_sharing,
            r.remote_client_bitrate_limit == 0,
            r.authentication_provider_id@
                == "Jellyfin.Server.Implementations.Users.DefaultAuthenticationProvider"@,
            r.password_reset_provider_id@
                == "Jellyfin.Server.Implementations.Users.DefaultPasswordResetProvider"@,
            r.sync_play_access@ == "CreateAndJoinGroups"@,
    {
        UserPolicy {
            is_administrator: true,
            is_hidden: true,
            enable_collection_management: false,
            enable_subtitle_management: false,
            enable_lyric_management: false,
            is_disabled: false,
            blocked_tags: Vec::new(),
            allowed_tags: Vec::new(),
            enable_user_preference_access: true,
            block_unrated_items: Vec::new(),
            enable_remote_control_of_other_users: true,
            enable_shared_device_control: true,
            enable_remote_access: true,
            enable_live_tv_management: false,
            enable_live_tv_access: true,
            enable_media_playback: true,
            enable_audio_playback_transcoding: true,
            enable_video_playback_transcoding: true,
            enable_playback_remuxing: true,
            force_remote_source_transcoding: false,
            enable_content_deletion: true,
            enable_content_deletion_from_folders: Vec::new(),
            enable_content_downloading: true,
            enable_sync_transcoding: true,
            enable_media_conversion: true,
            enabled_devices: Vec::new(),
            enable_all_devices: true,
            enabled_channels: Vec::new(),
            enable_all_channels: true,
            enabled_folders: Vec::new(),
            enable_all_folders: true,
            invalid_login_attempt_count: 0,
            login_attempts_before_lockout: -1,
            max_active_sessions: 0,
            enable_public_sharing: true,
            blocked_media_folders: Vec::new(),
            blocked_channels: Vec::new(),
            remote_client_bitrate_limit: 0,
            authentication_provider_id: owned(
                "Jellyfin.Server.Implementations.Users.DefaultAuthenticationProvider",
            ),
            password_reset_provider_id: owned(
                "Jellyfin.Server.Implementations.Users.DefaultPasswordResetProvider",
            ),
            sync_play_access: owned("CreateAndJoinGroups"),
        }
    }
}

/// A user as clients see it.
pub struct UserDto {
    pub name: String,
    pub server_id: String,
    pub id: String,
    pub has_password: bool,
    pub has_configured_password: bool,
    pub has_configured_easy_password: bool,
    pub enable_auto_login: bool,
    pub last_login_date: Option<String>,
    pub last_activity_date: Option<String>,
    pub configuration: UserConfiguration,
    pub policy: UserPolicy,
}

/// A UUID's 32 hexadecimal digits without hyphens (the "simple" form).
pub open spec fn compact_uuid_text(v: u128) -> Seq<char> {
    without_char(uuid_text(v), '-')
}

/// The simple (hyphen-free) text of a UUID.
pub fn compact_uuid(v: u128) -> (r: String)
    ensures
        r@ == compact_uuid_text(v),
{
    let t = uuid_string(v);
    string_of(&remove_char(&chars_of(t.as_str()), '-'))
}

/// A user as clients see it: the id in its simple form, a password
/// configured, the last login (an RFC 3339 time) as both login and
/// activity date, and the fixed configuration and policy.
pub fn user_dto(user_id: u128, name: &str, last_login: Option<String>, server_id: &str) -> (u: UserDto)
    ensures
        u.name@ == name@,
        u.server_id@ == server_id@,
        u.id@ == compact_uuid_text(user_id),
        u.has_password && u.has_configured_password,
        !u.has_configured_easy_password && !u.enable_auto_login,
        u.last_login_date == last_login && u.last_activity_date == last_login,
{
    UserDto {
        name: owned(name),
        server_id: owned(server_id),
        id: compact_uuid(user_id),
        has_password: true,
        has_configured_password: true,
        has_configured_easy_password: false,
        enable_auto_login: false,
        last_login_date: clone_opt(&last_login),
        last_activity_date: last_login,
        configuration: UserConfiguration::default(),
        policy: UserPolicy::default(),
    }
}

/// A login request: a user name (or e-mail address) and a password.
pub struct AuthenticateByNameRequest {
    pub username: String,
    pub pw: String,
}

/// Whether a password matches a stored one: an Argon2 PHC string (one that
/// starts with `$argon2`) is checked by Argon2; anything else is a legacy
/// plaintext password compared as is.
pub open spec fn password_matches(password: Seq<char>, stored: Seq<char>) -> bool {
    if has_prefix(stored, "$argon2"@) {
        argon2_accepts(password, stored)
    } else {
        password == stored
    }
}

/// Checks a password against the stored one.
pub fn verify_password(password: &str, stored: &str) -> (r: bool)
    ensures
        r == password_matches(password@, stored@),
{
    let s = chars_of(stored);
    if starts_with_chars(&s, &chars_of("$argon2")) {
        argon2_verify(password, stored)
    } else {
        same_chars(&chars_of(password), &s)
    }
}

/// The client description a login request carries: its `Authorization`
/// header, or when it has none its `X-Emby-Authorization` header. A header
/// is `Some(None)` when present but not visible ASCII, which describes no
/// client.
pub open spec fn login_client_of(
    authorization: Option<Option<Seq<char>>>,
    emby_authorization: Option<Option<Seq<char>>>,
) -> ClientInfoView {
    let header = match authorization {
        Some(h) => Some(h),
        None => emby_authorization,
    };
    match header {
        Some(Some(h)) => mediabrowser_client_info(h),
        _ => empty_client_info(),
    }
}

/// The client description of a login request.
pub fn login_client_info(
    authorization: &Option<Option<String>>,
    emby_authorization: &Option<Option<String>>,
) -> (info: MediaBrowserClientInfo)
    ensures
        info@ == login_client_of(
            match *authorization {
                Some(h) => Some(opt_view(h)),
                None => None,
            },
            match *emby_authorization {
                Some(h) => Some(opt_view(h)),
                None => None,
            },
        ),
{
    let header = match authorization {
        Some(h) => Some(h),
        None => match emby_authorization {
            Some(h) => Some(h),
            None => None,
        },
    };
    match header {
        Some(Some(h)) => parse_mediabrowser_header(h.as_str()),
        _ => MediaBrowserClientInfo::default(),
    }
}

/// The device id a login is recorded under: the client's own, else a fresh
/// random (version-4) UUID.
pub fn login_device_id(client_device_id: &str) -> (r: String)
    ensures
        client_device_id@.len() > 0 ==> r@ == client_device_id@,
        client_device_id@.len() == 0 ==> exists|v: u128| is_uuid_v4(v) && r@ == uuid_text(v),
{
    if client_device_id.is_empty() {
        let v = new_uuid_v4();
        let r = uuid_string(v);
        assert(is_uuid_v4(v) && r@ == uuid_text(v));
        r
    } else {
        owned(client_device_id)
    }
}

/// A fresh access token (or session id): the simple form of a random
/// (version-4) UUID.
pub fn new_access_token() -> (r: String)
    ensures
        exists|v: u128| is_uuid_v4(v) && r@ == compact_uuid_text(v),
{
    let v = new_uuid_v4();
    let r = compact_uuid(v);
    assert(is_uuid_v4(v) && r@ == compact_uuid_text(v));
    r
}

/// A client's state when it has just logged in.
pub struct PlayStateDto {
    pub can_seek: bool,
    pub is_paused: bool,
    pub is_muted: bool,
    pub repeat_mode: String,
    pub playback_order: String,
}

impl Default for PlayStateDto {
    /// Not seeking, paused or muted; no repeat; default order.
    fn default() -> (r: Self)
        ensures
            !r.can_seek && !r.is_paused && !r.is_muted,
            r.repeat_mode@ == "RepeatNone"@,
            r.playback_order@ == "Default"@,
    {
        PlayStateDto {
            can_seek: false,
            is_paused: false,
            is_muted: false,
            repeat_mode: owned("RepeatNone"),
            playback_order: owned("Default"),
        }
    }
}

/// What a logged-in client can do, as this server records it.
pub struct SessionCapabilities {
    pub playable_media_types: Vec<String>,
    pub supported_commands: Vec<String>,
    pub supports_media_control: bool,
    pub supports_persistent_identifier: bool,
}

impl Default for SessionCapabilities {
    /// No media types or commands, no media control, a persistent
    /// identifier.
    fn default() -> (r: Self)
        ensures
            r.playable_media_types@.len() == 0 && r.supported_commands@.len() == 0,
            !r.supports_media_control && r.supports_persistent_identifier,
    {
        SessionCapabilities {
            playable_media_types: Vec::new(),
            supported_commands: Vec::new(),
            supports_media_control: false,
            supports_persistent_identifier: true,
        }
    }
}

/// The session a login opens. Its lists of additional users and of queued
/// items are always empty and are added where it is serialized.
pub struct SessionInfoDto {
    pub play_state: PlayStateDto,
    pub capabilities: SessionCapabilities,
    pub remote_end_point: String,
    pub playable_media_types: Vec<String>,
    pub id: String,
    pub user_id: String,
    pub user_name: String,
    pub client: String,
    pub last_activity_date: String,
    pub last_playback_check_in: String,
    pub device_name: String,
    pub device_id: String,
    pub application_version: String,
    pub is_active: bool,
    pub supports_media_control: bool,
    pub supports_remote_control: bool,
    pub has_custom_device_name: bool,
    pub server_id: String,
    pub supported_commands: Vec<String>,
}

/// What a successful login answers.
pub struct AuthenticationResult {
    pub user: UserDto,
    pub session_info: SessionInfoDto,
    pub access_token: String,
    pub server_id: String,
}

/// The answer to a successful login: the user, an active session for the
/// client's device (never checked in), the new token and the server.
pub fn authentication_result(
    user: UserDto,
    client: &MediaBrowserClientInfo,
    device_id: String,
    session_id: String,
    access_token: String,
    now: String,
    server_id: &str,
) -> (r: AuthenticationResult)
    ensures
        r.session_info.id == session_id,
        r.session_info.user_id@ == user.id@,
        r.session_info.user_name@ == user.name@,
        r.session_info.client@ == client.client@,
        r.session_info.device_name@ == client.device@,
        r.session_info.application_version@ == client.version@,
        r.session_info.device_id == device_id,
        r.session_info.last_activity_date == now,
        r.session_info.last_playback_check_in@ == "0001-01-01T00:00:00.0000000Z"@,
        r.session_info.remote_end_point@ == Seq::<char>::empty(),
        r.session_info.is_active,
        !r.session_info.supports_media_control && !r.session_info.supports_remote_control,
        !r.session_info.has_custom_device_name,
        r.session_info.playable_media_types@.len() == 0,
        r.session_info.supported_commands@.len() == 0,
        r.session_info.server_id@ == server_id@,
        r.access_token == access_token,
        r.server_id@ == server_id@,
        r.user.id@ == user.id@ && r.user.name@ == user.name@,
{
    let user_id = owned(user.id.as_str());
    let user_name = owned(user.name.as_str());
    let session_info = SessionInfoDto {
        play_state: PlayStateDto::default(),
        capabilities: SessionCapabilities::default(),
        remote_end_point: String::new(),
        playable_media_types: Vec::new(),
        id: session_id,
        user_id: user_id,
        user_name: user_name,
        client: owned(client.client.as_str()),
        last_activity_date: now,
        last_playback_check_in: owned("0001-01-01T00:00:00.0000000Z"),
        device_name: owned(client.device.as_str()),
        device_id: device_id,
        application_version: owned(client.version.as_str()),
        is_active: true,
        supports_media_control: false,
        supports_remote_control: false,
        has_custom_device_name: false,
        server_id: owned(server_id),
        supported_commands: Vec::new(),
    };
    AuthenticationResult {
        user: user,
        session_info: session_info,
        access_token: access_token,
        server_id: owned(server_id),
    }
}

/// Why a login is refused.
#[derive(Debug, Clone, Copy, PartialEq, Eq, Structural)]
pub enum LoginFailure {
    /// No such user, or the wrong password (401, "Invalid username or password").
    BadCredentials,
    /// The user lookup failed (500).
    LookupFailed,
}

/// A user found by name or e-mail address: id, name and stored password.
pub struct LoginRow {
    pub id: u128,
    pub name: String,
    pub password_hash: String,
    pub last_login: Option<String>,
}

/// The user a login request names, when the lookup found one whose
/// password matches; else why the login is refused.
pub fn check_login(lookup: Result<Option<LoginRow>, ()>, password: &str) -> (r: Result<LoginRow, LoginFailure>)
    ensures
        lookup is Err ==> r == Err::<LoginRow, LoginFailure>(LoginFailure::LookupFailed),
        lookup == Ok::<Option<LoginRow>, ()>(None) ==> r == Err::<LoginRow, LoginFailure>(
            LoginFailure::BadCredentials,
        ),
        match lookup {
            Ok(Some(row)) => if password_matches(password@, row.password_hash@) {
                r == Ok::<LoginRow, LoginFailure>(row)
            } else {
                r == Err::<LoginRow, LoginFailure>(LoginFailure::BadCredentials)
            },
            _ => true,
        },
{
    match lookup {
        Err(_) => Err(LoginFailure::LookupFailed),
        Ok(None) => Err(LoginFailure::BadCredentials),
        Ok(Some(row)) => {
            if verify_password(password, row.password_hash.as_str()) {
                Ok(row)
            } else {
                Err(LoginFailure::BadCredentials)
            }
        },
    }
}

/// The simple form of a UUID (user ids, access tokens, session ids) is
/// its 32 lowercase hexadecimal digits.
pub proof fn law_compact_uuid_is_hex(v: u128)
    ensures
        compact_uuid_text(v) == hex_digits(v as nat, 32),
        compact_uuid_text(v).len() == 32,
{
    law_uuid_text_is_key(v);
    lemma_hex_digits_ascii(v as nat, 32);
}


/// A stored password that is not an Argon2 hash is a plaintext password:
/// exactly that password matches it. An Argon2 hash is matched as Argon2
/// decides.
pub proof fn law_plaintext_passwords(password: Seq<char>, stored: Seq<char>)
    ensures
        !has_prefix(stored, "$argon2"@) ==> (password_matches(password, stored) <==> password == stored),
        has_prefix(stored, "$argon2"@) ==> (password_matches(password, stored) <==> argon2_accepts(
            password,
            stored,
        )),
{
}

} // verus!
