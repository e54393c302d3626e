//! Database rows as plain values, and the items built from them: movies,
//! series, seasons, episodes and library folders, each with its user data.

use vstd::prelude::*;
use crate::jellyfin::items::{
    format_jellyfin_key, jellyfin_key, law_uuid_text_is_key, seconds_to_ticks, ticks_per_second,
};
use crate::jellyfin::models::{
    blank_item, blank_user_data, BaseItemDto, ItemView, UserDataView, UserItemDataDto,
};
use crate::numbers::{decimal, decimal_i32, uuid_string, uuid_text};
use crate::outside::{str_to_lowercase};
use crate::text::{lowercase_text, clone_opt, concat_chars, chars_of, opt_view, owned, string_of};

verus! {

/// A calendar date `YYYY-MM-DD` as Jellyfin timestamps spell it.
pub open spec fn jellyfin_date(date: Seq<char>) -> Seq<char> {
    date + "T00:00:00.0000000Z"@
}

/// An optional calendar date as a Jellyfin timestamp.
pub open spec fn opt_jellyfin_date(date: Option<String>) -> Option<Seq<char>> {
    match date {
        Some(d) => Some(jellyfin_date(d@)),
        None => None,
    }
}

/// A calendar date (`YYYY-MM-DD`) as a Jellyfin timestamp at midnight UTC.
pub fn format_jellyfin_date(date: &str) -> (r: String)
    ensures
        r@ == jellyfin_date(date@),
{
    let d = chars_of(date);
    let suffix = chars_of("T00:00:00.0000000Z");
    string_of(&concat_chars(&d, &suffix))
}

fn opt_date(date: &Option<String>) -> (r: Option<String>)
    ensures
        opt_view(r) == opt_jellyfin_date(*date),
{
    match date {
        Some(d) => Some(format_jellyfin_date(d.as_str())),
        None => None,
    }
}

/// The user data of an item: its watch state, resume position in ticks and
/// favorite flag, under the given key.
pub open spec fn user_data_of(
    item_id: Seq<char>,
    key: Seq<char>,
    resume_position: i32,
    play_count: i32,
    is_watched: bool,
    is_favorite: bool,
    last_watch_at: Option<Seq<char>>,
) -> UserDataView {
    UserDataView {
        played_percentage: if is_watched {
            Some(100)
        } else {
            None
        },
        playback_position_ticks: (resume_position * ticks_per_second()) as i64,
        play_count: play_count,
        is_favorite: is_favorite,
        played: is_watched,
        last_played_date: last_watch_at,
        unplayed_item_count: None,
        key: key,
        item_id: item_id,
    }
}

/// User data keyed by the item id itself.
pub fn build_user_data(
    item_id: &str,
    resume_position: i32,
    play_count: i32,
    is_watched: bool,
    is_favorite: bool,
    last_watch_at: Option<String>,
) -> (r: UserItemDataDto)
    ensures
        r@ == user_data_of(
            item_id@,
            item_id@,
            resume_position,
            play_count,
            is_watched,
            is_favorite,
            opt_view(last_watch_at),
        ),
{
    build_user_data_with_key(
        item_id,
        item_id,
        resume_position,
        play_count,
        is_watched,
        is_favorite,
        last_watch_at,
    )
}

/// User data keyed by a provider key (a TMDB id, say) where one is known.
pub fn build_user_data_with_key(
    item_id: &str,
    provider_key: &str,
    resume_position: i32,
    play_count: i32,
    is_watched: bool,
    is_favorite: bool,
    last_watch_at: Option<String>,
) -> (r: UserItemDataDto)
    ensures
        r@ == user_data_of(
            item_id@,
            provider_key@,
            resume_position,
            play_count,
            is_watched,
            is_favorite,
            opt_view(last_watch_at),
        ),
{
    UserItemDataDto {
        played_percentage: if is_watched {
            Some(100)
        } else {
            None
        },
        playback_position_ticks: seconds_to_ticks(resume_position),
        play_count,
        is_favorite,
        played: is_watched,
        last_played_date: last_watch_at,
        unplayed_item_count: None,
        key: owned(provider_key),
        item_id: owned(item_id),
    }
}

} // verus!

verus! {

/// The text of an optional UUID.
pub open spec fn opt_uuid_text(o: Option<u128>) -> Option<Seq<char>> {
    match o {
        Some(v) => Some(uuid_text(v)),
        None => None,
    }
}

fn opt_uuid_string(o: Option<u128>) -> (r: Option<String>)
    ensures
        opt_view(r) == opt_uuid_text(o),
{
    match o {
        Some(v) => Some(uuid_string(v)),
        None => None,
    }
}

/// Runtime in seconds as ticks.
pub open spec fn opt_ticks(o: Option<i32>) -> Option<i64> {
    match o {
        Some(s) => Some((s * ticks_per_second()) as i64),
        None => None,
    }
}

fn opt_seconds_to_ticks(o: Option<i32>) -> (r: Option<i64>)
    ensures
        r == opt_ticks(o),
{
    match o {
        Some(s) => Some(seconds_to_ticks(s)),
        None => None,
    }
}

/// `Primary → id` when the item has a poster, else no image tag.
pub open spec fn primary_tags(has_poster: bool, id: Seq<char>) -> Seq<(Seq<char>, Seq<char>)> {
    if has_poster {
        seq![("Primary"@, id)]
    } else {
        Seq::empty()
    }
}

fn primary_tag_list(has_poster: bool, id: &String) -> (r: Vec<(String, String)>)
    ensures
        crate::jellyfin::models::pairs_view(r) == primary_tags(has_poster, id@),
{
    let mut r: Vec<(String, String)> = Vec::new();
    if has_poster {
        r.push((owned("Primary"), id.clone()));
    }
    assert(crate::jellyfin::models::pairs_view(r) =~= primary_tags(has_poster, id@));
    r
}

/// `[id]` when the item has a backdrop, else empty.
pub open spec fn backdrop_tags(has_backdrop: bool, id: Seq<char>) -> Seq<Seq<char>> {
    if has_backdrop {
        seq![id]
    } else {
        Seq::empty()
    }
}

fn backdrop_tag_list(has_backdrop: bool, id: &String) -> (r: Vec<String>)
    ensures
        crate::jellyfin::models::strings_view(r) == backdrop_tags(has_backdrop, id@),
{
    let mut r: Vec<String> = Vec::new();
    if has_backdrop {
        r.push(id.clone());
    }
    assert(crate::jellyfin::models::strings_view(r) =~= backdrop_tags(has_backdrop, id@));
    r
}

/// Provider ids in the order TMDB, IMDb, TVDB, each where known.
pub open spec fn provider_pairs(
    tmdb: Option<String>,
    imdb: Option<String>,
    tvdb: Option<String>,
) -> Seq<(Seq<char>, Seq<char>)> {
    let a = match tmdb {
        Some(t) => seq![("Tmdb"@, t@)],
        None => Seq::empty(),
    };
    let b = match imdb {
        Some(t) => seq![("Imdb"@, t@)],
        None => Seq::empty(),
    };
    let c = match tvdb {
        Some(t) => seq![("Tvdb"@, t@)],
        None => Seq::empty(),
    };
    a + b + c
}

fn provider_list(tmdb: &Option<String>, imdb: &Option<String>, tvdb: &Option<String>) -> (r: Vec<
    (String, String),
>)
    ensures
        crate::jellyfin::models::pairs_view(r) == provider_pairs(*tmdb, *imdb, *tvdb),
{
    let mut r: Vec<(String, String)> = Vec::new();
    if let Some(t) = tmdb {
        r.push((owned("Tmdb"), t.clone()));
    }
    if let Some(t) = imdb {
        r.push((owned("Imdb"), t.clone()));
    }
    if let Some(t) = tvdb {
        r.push((owned("Tvdb"), t.clone()));
    }
    assert(crate::jellyfin::models::pairs_view(r) =~= provider_pairs(*tmdb, *imdb, *tvdb));
    r
}

/// The sort name of a titled item: its sort title, else its lowercased title.
pub open spec fn sort_name_of(sort_title: Option<String>, title: Seq<char>) -> Seq<char> {
    match sort_title {
        Some(t) => t@,
        None => lowercase_text(title),
    }
}

fn sort_name_from(sort_title: &Option<String>, title: &String) -> (r: String)
    ensures
        r@ == sort_name_of(*sort_title, title@),
{
    match sort_title {
        Some(t) => t.clone(),
        None => str_to_lowercase(title.as_str()),
    }
}

/// A `video_items` row joined with the requesting user's media state.
/// Dates are already rendered: `release_date` as `YYYY-MM-DD`, the
/// timestamps in RFC 3339. Ratings are kept outside the library.
pub struct MovieRow {
    pub id: u128,
    pub title: String,
    pub original_title: Option<String>,
    pub sort_title: Option<String>,
    pub year: Option<i32>,
    pub release_date: Option<String>,
    pub runtime: Option<i32>,
    pub overview: Option<String>,
    pub tagline: Option<String>,
    pub poster_path: Option<String>,
    pub backdrop_path: Option<String>,
    pub content_rating: Option<String>,
    pub is_favorite: bool,
    pub tmdb_id: Option<String>,
    pub imdb_id: Option<String>,
    pub created_at: Option<String>,
    pub video_id: Option<u128>,
    pub resume_position: i32,
    pub play_count: i32,
    pub is_watched: bool,
    pub last_watch_at: Option<String>,
}

/// The movie item a row describes.
pub open spec fn movie_item(r: MovieRow, server_id: Seq<char>) -> ItemView {
    let id = uuid_text(r.id);
    ItemView {
        name: r.title@,
        original_title: opt_view(r.original_title),
        server_id: server_id,
        id: id,
        item_type: "Movie"@,
        sort_name: Some(sort_name_of(r.sort_title, r.title@)),
        production_year: r.year,
        premiere_date: opt_jellyfin_date(r.release_date),
        run_time_ticks: opt_ticks(r.runtime),
        official_rating: opt_view(r.content_rating),
        overview: opt_view(r.overview),
        taglines: match r.tagline {
            Some(t) => seq![t@],
            None => Seq::empty(),
        },
        date_created: opt_view(r.created_at),
        parent_id: opt_uuid_text(r.video_id),
        is_folder: false,
        media_type: "Video"@,
        location_type: "FileSystem"@,
        play_access: "Full"@,
        image_tags: primary_tags(r.poster_path is Some, id),
        backdrop_image_tags: backdrop_tags(r.backdrop_path is Some, id),
        provider_ids: provider_pairs(r.tmdb_id, r.imdb_id, None),
        user_data: Some(
            user_data_of(
                id,
                match r.tmdb_id {
                    Some(t) => t@,
                    None => id,
                },
                r.resume_position,
                r.play_count,
                r.is_watched,
                r.is_favorite,
                opt_view(r.last_watch_at),
            ),
        ),
        ..blank_item()
    }
}

/// Build the movie item for a `video_items` row.
pub fn movie_row_to_dto(r: &MovieRow, server_id: &str) -> (dto: BaseItemDto)
    ensures
        dto@ == movie_item(*r, server_id@),
{
    let id_str = uuid_string(r.id);
    let image_tags = primary_tag_list(r.poster_path.is_some(), &id_str);
    let backdrop_tags = backdrop_tag_list(r.backdrop_path.is_some(), &id_str);
    let provider_ids = provider_list(&r.tmdb_id, &r.imdb_id, &None);
    let mut taglines: Vec<String> = Vec::new();
    if let Some(t) = &r.tagline {
        taglines.push(t.clone());
    }
    let key = match &r.tmdb_id {
        Some(t) => t.clone(),
        None => id_str.clone(),
    };
    let user_data = build_user_data_with_key(
        id_str.as_str(),
        key.as_str(),
        r.resume_position,
        r.play_count,
        r.is_watched,
        r.is_favorite,
        clone_opt(&r.last_watch_at),
    );
    let dto = BaseItemDto {
        name: r.title.clone(),
        original_title: clone_opt(&r.original_title),
        server_id: owned(server_id),
        id: id_str,
        item_type: owned("Movie"),
        sort_name: Some(sort_name_from(&r.sort_title, &r.title)),
        production_year: r.year,
        premiere_date: opt_date(&r.release_date),
        run_time_ticks: opt_seconds_to_ticks(r.runtime),
        official_rating: clone_opt(&r.content_rating),
        overview: clone_opt(&r.overview),
        taglines,
        date_created: clone_opt(&r.created_at),
        parent_id: opt_uuid_string(r.video_id),
        is_folder: false,
        media_type: owned("Video"),
        location_type: owned("FileSystem"),
        play_access: owned("Full"),
        image_tags,
        backdrop_image_tags: backdrop_tags,
        provider_ids,
        user_data: Some(user_data),
        ..BaseItemDto::default()
    };
    assert(crate::jellyfin::models::strings_view(dto.taglines) =~= match r.tagline {
        Some(t) => seq![t@],
        None => Seq::<Seq<char>>::empty(),
    });
    dto
}

} // verus!

verus! {

/// An `i64` count narrowed to 32 bits, wrapping as an `as i32` cast does.
pub open spec fn opt_count(o: Option<i64>) -> Option<i32> {
    match o {
        Some(c) => Some(c as i32),
        None => None,
    }
}

fn opt_narrow(o: Option<i64>) -> (r: Option<i32>)
    ensures
        r == opt_count(o),
{
    match o {
        Some(c) => Some(
            #[verifier::truncate]
            (c as i32),
        ),
        None => None,
    }
}

/// A `tv_shows` row with its season and episode counts. Dates are rendered
/// as in [`MovieRow`]; ratings are kept outside the library.
pub struct ShowRow {
    pub id: u128,
    pub title: String,
    pub original_title: Option<String>,
    pub sort_title: Option<String>,
    pub year: Option<i32>,
    pub first_air_date: Option<String>,
    pub overview: Option<String>,
    pub status: Option<String>,
    pub poster_path: Option<String>,
    pub backdrop_path: Option<String>,
    pub content_rating: Option<String>,
    pub is_favorite: bool,
    pub tmdb_id: Option<String>,
    pub imdb_id: Option<String>,
    pub tvdb_id: Option<String>,
    pub created_at: Option<String>,
    pub video_id: Option<u128>,
    pub season_count: Option<i64>,
    pub episode_count: Option<i64>,
}

/// The key of a series: its TMDB id, else its TVDB id, else its own id.
pub open spec fn series_key(r: ShowRow, id: Seq<char>) -> Seq<char> {
    match r.tmdb_id {
        Some(t) => t@,
        None => match r.tvdb_id {
            Some(t) => t@,
            None => id,
        },
    }
}

/// The series item a row describes.
pub open spec fn series_item(r: ShowRow, server_id: Seq<char>) -> ItemView {
    let id = uuid_text(r.id);
    ItemView {
        name: r.title@,
        original_title: opt_view(r.original_title),
        server_id: server_id,
        id: id,
        item_type: "Series"@,
        sort_name: Some(sort_name_of(r.sort_title, r.title@)),
        production_year: r.year,
        premiere_date: opt_jellyfin_date(r.first_air_date),
        official_rating: opt_view(r.content_rating),
        overview: opt_view(r.overview),
        status: opt_view(r.status),
        date_created: opt_view(r.created_at),
        parent_id: opt_uuid_text(r.video_id),
        is_folder: true,
        media_type: "Unknown"@,
        location_type: "FileSystem"@,
        play_access: "Full"@,
        child_count: opt_count(r.season_count),
        recursive_item_count: opt_count(r.episode_count),
        image_tags: primary_tags(r.poster_path is Some, id),
        backdrop_image_tags: backdrop_tags(r.backdrop_path is Some, id),
        provider_ids: provider_pairs(r.tmdb_id, r.imdb_id, r.tvdb_id),
        air_days: Some(Seq::empty()),
        display_order: Some("aired"@),
        user_data: Some(
            UserDataView {
                is_favorite: r.is_favorite,
                key: series_key(r, id),
                item_id: id,
                ..blank_user_data()
            },
        ),
        ..blank_item()
    }
}

/// Build the series item for a `tv_shows` row.
pub fn tv_show_row_to_dto(r: &ShowRow, server_id: &str) -> (dto: BaseItemDto)
    ensures
        dto@ == series_item(*r, server_id@),
{
    let id_str = uuid_string(r.id);
    let key = match &r.tmdb_id {
        Some(t) => t.clone(),
        None => match &r.tvdb_id {
            Some(t) => t.clone(),
            None => id_str.clone(),
        },
    };
    let user_data = UserItemDataDto {
        is_favorite: r.is_favorite,
        key,
        item_id: id_str.clone(),
        ..UserItemDataDto::default()
    };
    let air_days: Vec<String> = Vec::new();
    let dto = BaseItemDto {
        name: r.title.clone(),
        original_title: clone_opt(&r.original_title),
        server_id: owned(server_id),
        id: id_str.clone(),
        item_type: owned("Series"),
        sort_name: Some(sort_name_from(&r.sort_title, &r.title)),
        production_year: r.year,
        premiere_date: opt_date(&r.first_air_date),
        official_rating: clone_opt(&r.content_rating),
        overview: clone_opt(&r.overview),
        status: clone_opt(&r.status),
        date_created: clone_opt(&r.created_at),
        parent_id: opt_uuid_string(r.video_id),
        is_folder: true,
        media_type: owned("Unknown"),
        location_type: owned("FileSystem"),
        play_access: owned("Full"),
        child_count: opt_narrow(r.season_count),
        recursive_item_count: opt_narrow(r.episode_count),
        image_tags: primary_tag_list(r.poster_path.is_some(), &id_str),
        backdrop_image_tags: backdrop_tag_list(r.backdrop_path.is_some(), &id_str),
        provider_ids: provider_list(&r.tmdb_id, &r.imdb_id, &r.tvdb_id),
        air_days: Some(air_days),
        display_order: Some(owned("aired")),
        user_data: Some(user_data),
        ..BaseItemDto::default()
    };
    assert(crate::jellyfin::models::opt_strings_view(dto.air_days) =~= Some(
        Seq::<Seq<char>>::empty(),
    ));
    dto
}

/// The name of a season: `Specials` for season 0, else `Season <n>`.
pub open spec fn season_label(n: i32) -> Seq<char> {
    if n == 0 {
        "Specials"@
    } else {
        "Season "@ + decimal(n as int)
    }
}

fn season_label_string(n: i32) -> (r: String)
    ensures
        r@ == season_label(n),
{
    if n == 0 {
        owned("Specials")
    } else {
        string_of(&concat_chars(&chars_of("Season "), &decimal_i32(n)))
    }
}

/// A `seasons` row joined with its series.
pub struct SeasonRow {
    pub id: u128,
    pub tv_show_id: u128,
    pub season_number: i32,
    pub title: Option<String>,
    pub overview: Option<String>,
    pub poster_path: Option<String>,
    pub episode_count: Option<i32>,
    pub series_name: Option<String>,
    pub air_date: Option<String>,
    pub series_poster_path: Option<String>,
    pub series_backdrop_path: Option<String>,
}

/// The season item a row describes.
pub open spec fn season_item(r: SeasonRow, server_id: Seq<char>) -> ItemView {
    let id = uuid_text(r.id);
    let tv = uuid_text(r.tv_show_id);
    ItemView {
        name: match r.title {
            Some(t) => t@,
            None => season_label(r.season_number),
        },
        server_id: server_id,
        id: id,
        item_type: "Season"@,
        index_number: Some(r.season_number),
        parent_id: Some(tv),
        series_id: Some(tv),
        series_name: opt_view(r.series_name),
        overview: opt_view(r.overview),
        premiere_date: opt_jellyfin_date(r.air_date),
        is_folder: true,
        child_count: r.episode_count,
        image_tags: primary_tags(r.poster_path is Some, id),
        location_type: "FileSystem"@,
        media_type: "Unknown"@,
        play_access: "Full"@,
        user_data: Some(UserDataView { key: jellyfin_key(id), item_id: id, ..blank_user_data() }),
        parent_backdrop_item_id: Some(tv),
        parent_backdrop_image_tags: if r.series_backdrop_path is Some {
            Some(seq![tv])
        } else {
            None
        },
        series_primary_image_tag: if r.series_poster_path is Some {
            Some(tv)
        } else {
            None
        },
        ..blank_item()
    }
}

/// Build the season item for a `seasons` row.
pub fn season_row_to_dto(r: &SeasonRow, server_id: &str) -> (dto: BaseItemDto)
    ensures
        dto@ == season_item(*r, server_id@),
{
    let id_str = uuid_string(r.id);
    let tv_id = uuid_string(r.tv_show_id);
    proof {
        law_uuid_text_is_key(r.id);
    }
    let name = match &r.title {
        Some(t) => t.clone(),
        None => season_label_string(r.season_number),
    };
    let user_data = UserItemDataDto {
        key: format_jellyfin_key(id_str.as_str()),
        item_id: id_str.clone(),
        ..UserItemDataDto::default()
    };
    let parent_backdrop_image_tags = if r.series_backdrop_path.is_some() {
        let mut v: Vec<String> = Vec::new();
        v.push(tv_id.clone());
        assert(crate::jellyfin::models::strings_view(v) =~= seq![tv_id@]);
        Some(v)
    } else {
        None
    };
    let series_primary_image_tag = if r.series_poster_path.is_some() {
        Some(tv_id.clone())
    } else {
        None
    };
    BaseItemDto {
        name,
        server_id: owned(server_id),
        id: id_str.clone(),
        item_type: owned("Season"),
        index_number: Some(r.season_number),
        parent_id: Some(tv_id.clone()),
        series_id: Some(tv_id.clone()),
        series_name: clone_opt(&r.series_name),
        overview: clone_opt(&r.overview),
        premiere_date: opt_date(&r.air_date),
        is_folder: true,
        child_count: r.episode_count,
        image_tags: primary_tag_list(r.poster_path.is_some(), &id_str),
        location_type: owned("FileSystem"),
        media_type: owned("Unknown"),
        play_access: owned("Full"),
        user_data: Some(user_data),
        parent_backdrop_item_id: Some(tv_id),
        parent_backdrop_image_tags,
        series_primary_image_tag,
        ..BaseItemDto::default()
    }
}

/// An `episodes` row joined with its season, series and the requesting
/// user's media state; `has_file` tells whether a playable file exists.
pub struct EpisodeRow {
    pub id: u128,
    pub tv_show_id: u128,
    pub season_id: u128,
    pub episode_number: i32,
    pub title: Option<String>,
    pub overview: Option<String>,
    pub air_date: Option<String>,
    pub runtime: Option<i32>,
    pub still_path: Option<String>,
    pub season_number: i32,
    pub series_name: Option<String>,
    pub resume_position: i32,
    pub play_count: i32,
    pub is_watched: bool,
    pub last_watch_at: Option<String>,
    pub has_file: bool,
}

/// The name of an untitled episode.
pub open spec fn episode_label(n: i32) -> Seq<char> {
    "Episode "@ + decimal(n as int)
}

/// The episode item a row describes.
pub open spec fn episode_item(r: EpisodeRow, server_id: Seq<char>) -> ItemView {
    let id = uuid_text(r.id);
    let tv = uuid_text(r.tv_show_id);
    let season = uuid_text(r.season_id);
    ItemView {
        name: match r.title {
            Some(t) => t@,
            None => episode_label(r.episode_number),
        },
        server_id: server_id,
        id: id,
        item_type: "Episode"@,
        index_number: Some(r.episode_number),
        parent_index_number: Some(r.season_number),
        parent_id: Some(season),
        series_id: Some(tv),
        season_id: Some(season),
        series_name: opt_view(r.series_name),
        season_name: Some(season_label(r.season_number)),
        overview: opt_view(r.overview),
        premiere_date: opt_jellyfin_date(r.air_date),
        run_time_ticks: opt_ticks(r.runtime),
        is_folder: false,
        media_type: "Video"@,
        location_type: if r.has_file {
            "FileSystem"@
        } else {
            "Virtual"@
        },
        play_access: "Full"@,
        image_tags: primary_tags(r.still_path is Some, id),
        parent_backdrop_item_id: Some(tv),
        user_data: Some(
            user_data_of(
                id,
                id,
                r.resume_position,
                r.play_count,
                r.is_watched,
                false,
                opt_view(r.last_watch_at),
            ),
        ),
        ..blank_item()
    }
}

/// Build the episode item for an `episodes` row.
pub fn episode_row_to_dto(r: &EpisodeRow, server_id: &str) -> (dto: BaseItemDto)
    ensures
        dto@ == episode_item(*r, server_id@),
{
    let id_str = uuid_string(r.id);
    let tv_id = uuid_string(r.tv_show_id);
    let season_id = uuid_string(r.season_id);
    let name = match &r.title {
        Some(t) => t.clone(),
        None => string_of(&concat_chars(&chars_of("Episode "), &decimal_i32(r.episode_number))),
    };
    let location_type = if r.has_file {
        owned("FileSystem")
    } else {
        owned("Virtual")
    };
    let user_data = build_user_data(
        id_str.as_str(),
        r.resume_position,
        r.play_count,
        r.is_watched,
        false,
        clone_opt(&r.last_watch_at),
    );
    BaseItemDto {
        name,
        server_id: owned(server_id),
        id: id_str.clone(),
        item_type: owned("Episode"),
        index_number: Some(r.episode_number),
        parent_index_number: Some(r.season_number),
        parent_id: Some(season_id.clone()),
        series_id: Some(tv_id.clone()),
        season_id: Some(season_id),
        series_name: clone_opt(&r.series_name),
        season_name: Some(season_label_string(r.season_number)),
        overview: clone_opt(&r.overview),
        premiere_date: opt_date(&r.air_date),
        run_time_ticks: opt_seconds_to_ticks(r.runtime),
        is_folder: false,
        media_type: owned("Video"),
        location_type,
        play_access: owned("Full"),
        image_tags: primary_tag_list(r.still_path.is_some(), &id_str),
        parent_backdrop_item_id: Some(tv_id),
        user_data: Some(user_data),
        ..BaseItemDto::default()
    }
}

} // verus!

verus! {

/// A `videos` row naming a media library, with its number of entries.
pub struct CollectionRow {
    pub id: u128,
    pub name: String,
    pub app_type: String,
    pub child_count: i64,
}

/// The Jellyfin collection type of a library type: `movie` → `movies`,
/// `tv` → `tvshows`; other library types have none.
pub open spec fn collection_type_of(app_type: Seq<char>) -> Option<Seq<char>> {
    if app_type == "movie"@ {
        Some("movies"@)
    } else if app_type == "tv"@ {
        Some("tvshows"@)
    } else {
        None
    }
}

/// The Jellyfin collection type of a library type.
pub fn collection_type_for(app_type: &str) -> (r: Option<&'static str>)
    ensures
        match r {
            Some(t) => collection_type_of(app_type@) == Some(t@),
            None => collection_type_of(app_type@) is None,
        },
{
    let v = chars_of(app_type);
    if crate::text::str_is(&v, "movie") {
        Some("movies")
    } else if crate::text::str_is(&v, "tv") {
        Some("tvshows")
    } else {
        None
    }
}

/// The collection folder a library row describes, given its collection type
/// and whether its recursive count is reported.
pub open spec fn folder_item(
    r: CollectionRow,
    server_id: Seq<char>,
    collection_type: Seq<char>,
    with_recursive_count: bool,
) -> ItemView {
    let id = uuid_text(r.id);
    ItemView {
        name: r.name@,
        server_id: server_id,
        id: id,
        item_type: "CollectionFolder"@,
        collection_type: Some(collection_type),
        is_folder: true,
        child_count: Some(r.child_count as i32),
        recursive_item_count: if with_recursive_count {
            Some(r.child_count as i32)
        } else {
            None
        },
        enable_media_source_display: Some(true),
        play_access: "Full"@,
        location_type: "FileSystem"@,
        media_type: "Unknown"@,
        user_data: Some(UserDataView { key: jellyfin_key(id), item_id: id, ..blank_user_data() }),
        display_preferences_id: Some(id),
        ..blank_item()
    }
}

fn folder_dto(r: &CollectionRow, server_id: &str, collection_type: &str, with_recursive_count: bool) -> (dto: BaseItemDto)
    ensures
        dto@ == folder_item(*r, server_id@, collection_type@, with_recursive_count),
{
    let id_str = uuid_string(r.id);
    proof {
        law_uuid_text_is_key(r.id);
    }
    let count = #[verifier::truncate]
    (r.child_count as i32);
    let user_data = UserItemDataDto {
        key: format_jellyfin_key(id_str.as_str()),
        item_id: id_str.clone(),
        ..UserItemDataDto::default()
    };
    BaseItemDto {
        name: r.name.clone(),
        server_id: owned(server_id),
        id: id_str.clone(),
        item_type: owned("CollectionFolder"),
        collection_type: Some(owned(collection_type)),
        is_folder: true,
        child_count: Some(count),
        recursive_item_count: if with_recursive_count {
            Some(count)
        } else {
            None
        },
        enable_media_source_display: Some(true),
        play_access: owned("Full"),
        location_type: owned("FileSystem"),
        media_type: owned("Unknown"),
        user_data: Some(user_data),
        display_preferences_id: Some(id_str),
        ..BaseItemDto::default()
    }
}

/// The folder a library row shows as in the user's views: only movie and
/// TV libraries appear.
pub fn collection_folder_dto(r: &CollectionRow, server_id: &str) -> (dto: Option<BaseItemDto>)
    ensures
        match collection_type_of(r.app_type@) {
            Some(t) => dto matches Some(d) && d@ == folder_item(*r, server_id@, t, false),
            None => dto is None,
        },
{
    match collection_type_for(r.app_type.as_str()) {
        Some(t) => Some(folder_dto(r, server_id, t, false)),
        None => None,
    }
}

/// The folder a library row resolves to when asked for by id; a library
/// type without a collection type shows as `mixed`.
pub fn library_folder_dto(r: &CollectionRow, server_id: &str) -> (dto: BaseItemDto)
    ensures
        dto@ == folder_item(
            *r,
            server_id@,
            match collection_type_of(r.app_type@) {
                Some(t) => t,
                None => "mixed"@,
            },
            true,
        ),
{
    match collection_type_for(r.app_type.as_str()) {
        Some(t) => folder_dto(r, server_id, t, true),
        None => folder_dto(r, server_id, "mixed", true),
    }
}

/// The virtual root folder above all libraries.
pub open spec fn root_item(server_id: Seq<char>) -> ItemView {
    ItemView {
        name: "Media Library"@,
        server_id: server_id,
        id: "root"@,
        item_type: "UserRootFolder"@,
        is_folder: true,
        play_access: "Full"@,
        location_type: "FileSystem"@,
        media_type: "Unknown"@,
        ..blank_item()
    }
}

/// The virtual root folder above all libraries.
pub fn items_root_dto(server_id: &str) -> (dto: BaseItemDto)
    ensures
        dto@ == root_item(server_id@),
{
    BaseItemDto {
        name: owned("Media Library"),
        server_id: owned(server_id),
        id: owned("root"),
        item_type: owned("UserRootFolder"),
        is_folder: true,
        play_access: owned("Full"),
        location_type: owned("FileSystem"),
        media_type: owned("Unknown"),
        ..BaseItemDto::default()
    }
}


/// Only movie and TV libraries have a Jellyfin collection type: a `movie`
/// library is a `movies` collection, a `tv` library a `tvshows` one, and
/// every other library type has none.
pub proof fn law_collection_types(app_type: Seq<char>)
    ensures
        collection_type_of(app_type) == Some("movies"@) <==> app_type == "movie"@,
        collection_type_of(app_type) == Some("tvshows"@) <==> app_type == "tv"@,
        collection_type_of(app_type) is None <==> (app_type != "movie"@ && app_type != "tv"@),
{
    reveal_strlit("movies");
    reveal_strlit("tvshows");
    reveal_strlit("movie");
    reveal_strlit("tv");
    assert("movies"@.len() != "tvshows"@.len());
    assert("movie"@.len() != "tv"@.len());
}

/// Season 0 holds the specials; every other season is named by its number
/// after `Season `, and an untitled episode by its number after `Episode `.
pub proof fn law_season_and_episode_labels(n: i32)
    ensures
        n == 0 ==> season_label(n) == "Specials"@,
        n != 0 ==> season_label(n) == "Season "@ + decimal(n as int),
        episode_label(n) == "Episode "@ + decimal(n as int),
{
}


/// How each kind of row shows as an item, by its own id's text. A movie is
/// a playable video (not a folder) in its library, keyed by its TMDB id
/// when it has one, with a primary image exactly when it has a poster, and
/// sorted by its sort title, else its lowercased title. A series is a
/// folder in its library counting its seasons (and, recursively, its
/// episodes), keyed by its TMDB id, else its TVDB id. A season is a folder
/// under its series. An episode is a playable video under its season and
/// series, virtual exactly when it has no playable file, named `Episode N`
/// when untitled.
pub proof fn law_row_items(m: MovieRow, s: ShowRow, se: SeasonRow, e: EpisodeRow, server_id: Seq<char>)
    ensures
        ({
            let i = movie_item(m, server_id);
            &&& i.id == uuid_text(m.id) && i.name == m.title@ && i.item_type == "Movie"@
            &&& !i.is_folder && i.media_type == "Video"@
            &&& i.parent_id == (match m.video_id {
                Some(v) => Some(uuid_text(v)),
                None => None,
            })
            &&& i.user_data matches Some(u) && u.key == (match m.tmdb_id {
                Some(t) => t@,
                None => uuid_text(m.id),
            }) && u.item_id == uuid_text(m.id) && u.played == m.is_watched
            &&& (i.image_tags.len() > 0 <==> m.poster_path is Some)
            &&& i.sort_name == Some(match m.sort_title {
                Some(t) => t@,
                None => lowercase_text(m.title@),
            })
        }),
        ({
            let i = series_item(s, server_id);
            &&& i.id == uuid_text(s.id) && i.item_type == "Series"@ && i.is_folder
            &&& i.child_count == (match s.season_count {
                Some(c) => Some(c as i32),
                None => None,
            })
            &&& i.recursive_item_count == (match s.episode_count {
                Some(c) => Some(c as i32),
                None => None,
            })
            &&& i.user_data matches Some(u) && u.key == (match s.tmdb_id {
                Some(t) => t@,
                None => match s.tvdb_id {
                    Some(t) => t@,
                    None => uuid_text(s.id),
                },
            }) && u.is_favorite == s.is_favorite
        }),
        ({
            let i = season_item(se, server_id);
            &&& i.id == uuid_text(se.id) && i.item_type == "Season"@ && i.is_folder
            &&& i.parent_id == Some(uuid_text(se.tv_show_id)) && i.series_id == Some(uuid_text(se.tv_show_id))
            &&& i.index_number == Some(se.season_number)
        }),
        ({
            let i = episode_item(e, server_id);
            &&& i.id == uuid_text(e.id) && i.item_type == "Episode"@ && !i.is_folder && i.media_type == "Video"@
            &&& i.parent_id == Some(uuid_text(e.season_id)) && i.season_id == Some(uuid_text(e.season_id))
            &&& i.series_id == Some(uuid_text(e.tv_show_id))
            &&& i.index_number == Some(e.episode_number) && i.parent_index_number == Some(e.season_number)
            &&& (i.location_type == "Virtual"@ <==> !e.has_file)
            &&& e.title is None ==> i.name == "Episode "@ + decimal(e.episode_number as int)
        }),
{
    reveal_strlit("Virtual");
    reveal_strlit("FileSystem");
    assert("Virtual"@.len() != "FileSystem"@.len());
}


/// An item's user data reports it played, at 100 percent, exactly when it
/// is watched (and no percentage otherwise); its resume position in seconds
/// becomes ten million ticks a second; the count, favorite flag, last-played
/// date, key and item id are carried over unchanged.
pub proof fn law_user_data(
    item_id: Seq<char>,
    key: Seq<char>,
    resume_position: i32,
    play_count: i32,
    is_watched: bool,
    is_favorite: bool,
    last_watch_at: Option<Seq<char>>,
)
    ensures
        ({
            let d = user_data_of(item_id, key, resume_position, play_count, is_watched, is_favorite, last_watch_at);
            &&& d.played == is_watched
            &&& d.played_percentage == (if is_watched { Some(100u32) } else { None::<u32> })
            &&& d.playback_position_ticks == resume_position * 10_000_000
            &&& d.play_count == play_count
            &&& d.is_favorite == is_favorite
            &&& d.last_played_date == last_watch_at
            &&& d.unplayed_item_count is None
            &&& d.key == key
            &&& d.item_id == item_id
        }),
{
    assert(resume_position * 10_000_000 <= i64::MAX) by (nonlinear_arith)
        requires resume_position <= i32::MAX;
    assert(resume_position * 10_000_000 >= i64::MIN) by (nonlinear_arith)
        requires resume_position >= i32::MIN;
}

} // verus!
