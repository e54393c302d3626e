//! Playback reporting: positions, the sessions a report opens, and the
//! played-state records returned when an item is marked played or unplayed.

use vstd::prelude::*;
use crate::jellyfin::auth::{mediabrowser_client_info, parse_mediabrowser_header};
use crate::jellyfin::items::{ticks_per_second, trunc_div};
use crate::jellyfin::models::{UserDataView, UserItemDataDto};
use crate::numbers::{uuid_string, uuid_text};
use crate::outside::{parse_uuid, uuid_parse};
use crate::text::{chars_of, concat_chars, contains_seq, has_prefix, opt_view, string_of};

verus! {

/// A reported position in ticks → whole seconds; no position counts as 0.
pub fn ticks_to_seconds(ticks: Option<i64>) -> (r: i32)
    ensures
        r == match ticks {
            Some(t) => trunc_div(t as int, ticks_per_second()) as i32,
            None => 0,
        },
{
    match ticks {
        Some(t) => crate::jellyfin::items::ticks_to_seconds(t),
        None => 0,
    }
}

/// A playback session a client opened, as the host records it.
pub struct JellyfinPlaybackSession {
    pub user_id: u128,
    pub file_id: u128,
    pub client_name: Option<String>,
    pub user_agent: Option<String>,
    pub position: i32,
}

/// The file a playback report names: its `MediaSourceId`, when that parses.
pub open spec fn reported_file_of(media_source_id: Option<Seq<char>>) -> Option<u128> {
    match media_source_id {
        Some(s) => uuid_parse(s),
        None => None,
    }
}

/// The file a playback report names.
pub fn reported_file(media_source_id: &Option<String>) -> (r: Option<u128>)
    ensures
        r == reported_file_of(opt_view(*media_source_id)),
{
    match media_source_id {
        Some(s) => parse_uuid(s.as_str()),
        None => None,
    }
}

/// The client name a request's `Authorization` header gives, when it gives
/// a non-empty one.
pub open spec fn client_name_of(authorization: Option<Seq<char>>) -> Option<Seq<char>> {
    match authorization {
        Some(h) => {
            let c = mediabrowser_client_info(h).client;
            if c.len() > 0 {
                Some(c)
            } else {
                None
            }
        },
        None => None,
    }
}

/// The session a playback-start report opens: for a report naming a file,
/// the user, that file, the client name and user agent the request gives,
/// and the position; none for a report without a parsable file.
pub fn started_session(
    user_id: u128,
    media_source_id: &Option<String>,
    authorization: &Option<String>,
    user_agent: Option<String>,
    position: i32,
) -> (r: Option<JellyfinPlaybackSession>)
    ensures
        match reported_file_of(opt_view(*media_source_id)) {
            Some(f) => r matches Some(s) && s.user_id == user_id && s.file_id == f
                && opt_view(s.client_name) == client_name_of(opt_view(*authorization))
                && s.user_agent == user_agent && s.position == position,
            None => r is None,
        },
{
    match reported_file(media_source_id) {
        Some(file_id) => {
            let client_name = match authorization {
                Some(h) => {
                    let info = parse_mediabrowser_header(h.as_str());
                    if info.client.as_str().is_empty() {
                        None
                    } else {
                        Some(info.client)
                    }
                },
                None => None,
            };
            Some(JellyfinPlaybackSession {
                user_id,
                file_id,
                client_name,
                user_agent,
                position,
            })
        },
        None => None,
    }
}

/// The user data answered for an item marked played (`played`) or unplayed.
pub open spec fn marked_state(item_id: u128, played: bool) -> UserDataView {
    UserDataView {
        played_percentage: Some(if played { 100 } else { 0 }),
        playback_position_ticks: 0,
        play_count: if played { 1 } else { 0 },
        is_favorite: false,
        played: played,
        last_played_date: None,
        unplayed_item_count: None,
        key: uuid_text(item_id),
        item_id: uuid_text(item_id),
    }
}

/// The user data answered when an item is marked played.
pub fn played_state(item_id: u128) -> (r: UserItemDataDto)
    ensures
        r@ == marked_state(item_id, true),
{
    UserItemDataDto {
        played_percentage: Some(100),
        playback_position_ticks: 0,
        play_count: 1,
        is_favorite: false,
        played: true,
        last_played_date: None,
        unplayed_item_count: None,
        key: uuid_string(item_id),
        item_id: uuid_string(item_id),
    }
}

/// The user data answered when an item is marked unplayed.
pub fn unplayed_state(item_id: u128) -> (r: UserItemDataDto)
    ensures
        r@ == marked_state(item_id, false),
{
    UserItemDataDto {
        played_percentage: Some(0),
        playback_position_ticks: 0,
        play_count: 0,
        is_favorite: false,
        played: false,
        last_played_date: None,
        unplayed_item_count: None,
        key: uuid_string(item_id),
        item_id: uuid_string(item_id),
    }
}

/// What a reported item is, for recording its watch state.
#[derive(PartialEq, Eq, Structural)]
pub enum WatchTarget {
    Movie,
    Episode,
}

/// The kind of a reported item: a movie when the movie lookup found it,
/// else an episode when the episode lookup did (that lookup is made only
/// for non-movies); nothing to record otherwise.
pub fn watch_target(is_movie: bool, is_episode: bool) -> (r: Option<WatchTarget>)
    ensures
        r == (if is_movie {
            Some(WatchTarget::Movie)
        } else if is_episode {
            Some(WatchTarget::Episode)
        } else {
            None
        }),
{
    if is_movie {
        Some(WatchTarget::Movie)
    } else if is_episode {
        Some(WatchTarget::Episode)
    } else {
        None
    }
}

/// The column that ties a watch state to a movie or an episode.
pub open spec fn watch_column(t: WatchTarget) -> Seq<char> {
    match t {
        WatchTarget::Movie => "video_item_id"@,
        WatchTarget::Episode => "episode_id"@,
    }
}

/// The statement recording a playback report: insert the user's state for
/// the item, or update it (position, one more play, watched once marked
/// watched, last watch time). Its parameters are a fresh id, the user, the
/// item, the position in seconds and the time.
pub open spec fn watch_upsert_sql(t: WatchTarget, mark_watched: bool) -> Seq<char> {
    let col = watch_column(t);
    let watched = if mark_watched { "true"@ } else { "false"@ };
    "INSERT INTO user_media_states (id, user_id, "@ + col
        + ", resume_position, play_count, is_watched, last_watch_at, updated_at) VALUES ($1, $2, $3, $4, 1, "@
        + watched + ", $5, $5) ON CONFLICT (user_id, "@ + col
        + ") DO UPDATE SET resume_position = $4, play_count = user_media_states.play_count + 1, is_watched = CASE WHEN "@
        + watched + " THEN true ELSE user_media_states.is_watched END, last_watch_at = $5, updated_at = $5"@
}

/// The statement recording a playback report on an item of kind `t`.
pub fn watch_upsert_statement(t: &WatchTarget, mark_watched: bool) -> (r: String)
    ensures
        r@ == watch_upsert_sql(*t, mark_watched),
{
    let col = match t {
        WatchTarget::Movie => chars_of("video_item_id"),
        WatchTarget::Episode => chars_of("episode_id"),
    };
    let watched = if mark_watched {
        chars_of("true")
    } else {
        chars_of("false")
    };
    let mut s = chars_of("INSERT INTO user_media_states (id, user_id, ");
    s = concat_chars(&s, &col);
    s = concat_chars(&s, &chars_of(", resume_position, play_count, is_watched, last_watch_at, updated_at) VALUES ($1, $2, $3, $4, 1, "));
    s = concat_chars(&s, &watched);
    s = concat_chars(&s, &chars_of(", $5, $5) ON CONFLICT (user_id, "));
    s = concat_chars(&s, &col);
    s = concat_chars(&s, &chars_of(") DO UPDATE SET resume_position = $4, play_count = user_media_states.play_count + 1, is_watched = CASE WHEN "));
    s = concat_chars(&s, &watched);
    s = concat_chars(&s, &chars_of(" THEN true ELSE user_media_states.is_watched END, last_watch_at = $5, updated_at = $5"));
    string_of(&s)
}

/// Marking an item played answers that it is played, fully and once;
/// marking it unplayed answers the opposite, and both key the answer by the
/// item's id.
pub proof fn law_marked_states(item_id: u128)
    ensures
        marked_state(item_id, true).played && marked_state(item_id, true).played_percentage == Some(100u32),
        !marked_state(item_id, false).played && marked_state(item_id, false).played_percentage == Some(0u32),
        marked_state(item_id, true).key == marked_state(item_id, false).key,
        marked_state(item_id, true).item_id == uuid_text(item_id),
{
}


/// A playback report is recorded against the movie column for movies and
/// the episode column for episodes, as an insert or, on conflict for that
/// user and item, an update of the user's state; marking it watched sets it
/// watched, and otherwise the watched flag is left as it was.
pub proof fn law_watch_statement(t: WatchTarget, mark_watched: bool)
    ensures
        has_prefix(
            watch_upsert_sql(t, mark_watched),
            "INSERT INTO user_media_states (id, user_id, "@ + (if t == WatchTarget::Movie {
                "video_item_id"@
            } else {
                "episode_id"@
            }),
        ),
        contains_seq(
            watch_upsert_sql(t, mark_watched),
            ", $5, $5) ON CONFLICT (user_id, "@ + (if t == WatchTarget::Movie {
                "video_item_id"@
            } else {
                "episode_id"@
            }) + ") DO UPDATE SET resume_position = $4, play_count = user_media_states.play_count + 1, is_watched = CASE WHEN "@
                + (if mark_watched {
                "true"@
            } else {
                "false"@
            }) + " THEN true ELSE user_media_states.is_watched END, last_watch_at = $5, updated_at = $5"@,
        ),
{
    let col = watch_column(t);
    let watched = if mark_watched { "true"@ } else { "false"@ };
    let head = "INSERT INTO user_media_states (id, user_id, "@ + col;
    let a = head
        + ", resume_position, play_count, is_watched, last_watch_at, updated_at) VALUES ($1, $2, $3, $4, 1, "@
        + watched;
    let p = ", $5, $5) ON CONFLICT (user_id, "@ + col
        + ") DO UPDATE SET resume_position = $4, play_count = user_media_states.play_count + 1, is_watched = CASE WHEN "@
        + watched + " THEN true ELSE user_media_states.is_watched END, last_watch_at = $5, updated_at = $5"@;
    let sql = watch_upsert_sql(t, mark_watched);
    assert(sql =~= a + p);
    assert(sql.subrange(a.len() as int, (a.len() + p.len()) as int) =~= p);
    assert(sql.take(head.len() as int) =~= head);
}

} // verus!
