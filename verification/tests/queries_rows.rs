use tokimo_media_server_bridge::jellyfin::browse::{
    item_detail_ids, latest_target, parent_kind_queries, virtual_folder,
};
use tokimo_media_server_bridge::jellyfin::users::{login_device_id, new_access_token};
use tokimo_media_server_bridge::jellyfin::images::person_queries;
use tokimo_media_server_bridge::jellyfin::queries::{
    episode_listing_query, table_listing_query, ListedTable, ListingFilter, SqlParam,
};
use tokimo_media_server_bridge::jellyfin::rows::{
    build_user_data, build_user_data_with_key, collection_type_for, episode_row_to_dto,
    format_jellyfin_date, season_row_to_dto, tv_show_row_to_dto, EpisodeRow, SeasonRow, ShowRow,
};
use tokimo_media_server_bridge::jellyfin::auth::{
    parse_mediabrowser_header, parse_mediabrowser_token, request_token, stream_token,
};
use tokimo_media_server_bridge::jellyfin::users::{authentication_result, user_dto};

const A: u128 = 0xaaaaaaaa_aaaa_aaaa_aaaa_aaaaaaaaaaaa;
const A_TEXT: &str = "aaaaaaaa-aaaa-aaaa-aaaa-aaaaaaaaaaaa";
const B: u128 = 0xbbbbbbbb_bbbb_bbbb_bbbb_bbbbbbbbbbbb;
const B_TEXT: &str = "bbbbbbbb-bbbb-bbbb-bbbb-bbbbbbbbbbbb";
const C: u128 = 0xcccccccc_cccc_cccc_cccc_cccccccccccc;
const C_TEXT: &str = "cccccccc-cccc-cccc-cccc-cccccccccccc";

const MOVIE_COLUMNS: &str = "m.id, m.title, m.original_title, m.sort_title, m.year, m.release_date, m.runtime, m.tmdb_rating, m.imdb_rating, m.overview, m.tagline, m.poster_path, m.backdrop_path, m.content_rating, m.is_favorite, m.tmdb_id, m.imdb_id, m.created_at, m.video_id, ums.resume_position, ums.play_count, ums.is_watched, ums.last_watch_at";
const SHOW_COLUMNS: &str = "t.id, t.title, t.original_title, t.sort_title, t.year, t.first_air_date, t.tmdb_rating, t.imdb_rating, t.overview, t.status, t.poster_path, t.backdrop_path, t.content_rating, t.is_favorite, t.tmdb_id, t.imdb_id, t.tvdb_id, t.created_at, t.video_id, (SELECT COUNT(*) FROM seasons s WHERE s.tv_show_id = t.id) as season_count, (SELECT COUNT(*) FROM episodes e WHERE e.tv_show_id = t.id) as episode_count";
const EPISODE_COLUMNS: &str = "e.id, e.tv_show_id, e.season_id, e.episode_number, e.title, e.overview, e.air_date, e.runtime, e.still_path, e.tmdb_rating, s.season_number, t.title as series_name, ums.resume_position, ums.play_count, ums.is_watched, ums.last_watch_at, EXISTS(SELECT 1 FROM video_files vf WHERE vf.episode_id = e.id AND vf.is_available = true) as has_file";

fn s(x: &str) -> Option<String> {
    Some(x.to_string())
}

fn shown(params: &[SqlParam]) -> Vec<String> {
    params
        .iter()
        .map(|p| match p {
            SqlParam::Uuid(v) => format!("uuid:{v:x}"),
            SqlParam::Text(t) => format!("text:{t}"),
            SqlParam::Int(i) => format!("int:{i}"),
        })
        .collect()
}

fn filter(library: Option<u128>, search: &str, resumable: bool, sort: &str, dir: &str) -> ListingFilter {
    ListingFilter {
        library,
        search_term: search.to_string(),
        is_resumable: resumable,
        user_id: B,
        sort_field: sort.to_string(),
        sort_dir: dir.to_string(),
        start: 10,
        limit: 20,
    }
}

#[test]
fn movie_listings_filter_by_library_and_title() {
    let q = table_listing_query(&ListedTable::Movies, &filter(Some(A), "dune", false, "DateCreated", "DESC"));
    let w = "WHERE m.video_id = $1 AND (m.title ILIKE $2 OR m.original_title ILIKE $2)";
    assert_eq!(q.count_sql, format!("SELECT COUNT(*) as cnt FROM video_items m {w}"));
    assert_eq!(
        q.select_sql,
        format!(
            "SELECT {MOVIE_COLUMNS} FROM video_items m LEFT JOIN user_media_states ums ON ums.video_item_id = m.id AND ums.user_id = $3 {w} ORDER BY m.created_at DESC LIMIT $4 OFFSET $5"
        )
    );
    let a = format!("uuid:{A:x}");
    let b = format!("uuid:{B:x}");
    assert_eq!(shown(&q.count_params), vec![a.clone(), "text:%dune%".to_string()]);
    assert_eq!(
        shown(&q.select_params),
        vec![a, "text:%dune%".to_string(), b, "int:20".to_string(), "int:10".to_string()]
    );
}

#[test]
fn resumable_movie_listings_ask_for_the_user() {
    let q = table_listing_query(&ListedTable::Movies, &filter(None, "", true, "SortName", "ASC"));
    assert_eq!(
        q.count_sql,
        "SELECT COUNT(*) as cnt FROM video_items m WHERE EXISTS (SELECT 1 FROM user_media_states ums WHERE ums.video_item_id = m.id AND ums.user_id = $1 AND ums.resume_position > 0 AND ums.is_watched = false)"
    );
    assert!(q.select_sql.ends_with("ORDER BY COALESCE(m.sort_title, m.title) ASC LIMIT $3 OFFSET $4"));
    assert_eq!(shown(&q.count_params), vec![format!("uuid:{B:x}")]);
    assert_eq!(q.select_params.len(), 4);
}

#[test]
fn series_listings_ignore_the_resume_filter() {
    let q = table_listing_query(&ListedTable::Shows, &filter(None, "", true, "CommunityRating", "ASC"));
    assert_eq!(q.count_sql, "SELECT COUNT(*) as cnt FROM tv_shows t ");
    assert_eq!(
        q.select_sql,
        format!(
            "SELECT {SHOW_COLUMNS} FROM tv_shows t  ORDER BY COALESCE(t.tmdb_rating, t.imdb_rating, 0) ASC LIMIT $2 OFFSET $3"
        )
    );
    assert!(q.count_params.is_empty());
    assert_eq!(
        shown(&q.select_params),
        vec![format!("uuid:{B:x}"), "int:20".to_string(), "int:10".to_string()]
    );
}

#[test]
fn episode_listings_put_the_user_first() {
    let q = episode_listing_query(&filter(None, "pilot", true, "SortName", "ASC"));
    let w = "AND e.title ILIKE $2 AND ums.resume_position > 0 AND ums.is_watched = false";
    assert_eq!(
        q.count_sql,
        format!(
            "SELECT COUNT(*) as cnt FROM episodes e LEFT JOIN user_media_states ums ON ums.episode_id = e.id AND ums.user_id = $1 WHERE 1=1 {w}"
        )
    );
    assert_eq!(
        q.select_sql,
        format!(
            "SELECT {EPISODE_COLUMNS} FROM episodes e JOIN seasons s ON s.id = e.season_id JOIN tv_shows t ON t.id = e.tv_show_id LEFT JOIN user_media_states ums ON ums.episode_id = e.id AND ums.user_id = $1 WHERE 1=1 {w} ORDER BY t.title, s.season_number, e.episode_number LIMIT $3 OFFSET $4"
        )
    );
    assert_eq!(shown(&q.count_params), vec![format!("uuid:{B:x}"), "text:%pilot%".to_string()]);
    assert_eq!(q.select_params.len(), 4);
    let plain = episode_listing_query(&filter(None, "", false, "SortName", "ASC"));
    assert!(plain.select_sql.contains("WHERE 1=1  ORDER BY"));
    assert!(plain.select_sql.ends_with("LIMIT $2 OFFSET $3"));
}

#[test]
fn lookups_of_parents_people_and_latest_entries() {
    let kinds = parent_kind_queries();
    assert_eq!(kinds.len(), 4);
    assert_eq!(kinds[0], ("SELECT type FROM videos WHERE id = $1".to_string(), None));
    assert_eq!(kinds[2].1.as_deref(), Some("series"));
    assert_eq!(kinds[3].1.as_deref(), Some("season"));
    let people = person_queries();
    assert_eq!(people.len(), 2);
    assert!(people[0].starts_with("SELECT id FROM movie_persons"));
    assert!(people[1].starts_with("SELECT id FROM tv_persons"));
    assert_eq!(latest_target("movie", A_TEXT), (true, A));
    assert_eq!(latest_target("show", B_TEXT), (false, B));
    assert_eq!(latest_target("movie", "junk"), (true, 0));
}

#[test]
fn virtual_folders_for_movie_and_tv_libraries() {
    let f = virtual_folder(A, "Films".to_string(), "movie").unwrap();
    assert_eq!(f.name, "Films");
    assert_eq!(f.collection_type, "movies");
    assert_eq!(f.item_id, A_TEXT);
    assert_eq!(f.primary_image_item_id, A_TEXT);
    assert_eq!(f.refresh_status, "Idle");
    assert_eq!(virtual_folder(B, "Shows".to_string(), "tv").unwrap().collection_type, "tvshows");
    assert!(virtual_folder(C, "Music".to_string(), "music").is_none());
    assert_eq!(collection_type_for("tv"), Some("tvshows"));
    assert_eq!(collection_type_for("photo"), None);
}

#[test]
fn user_data_and_dates() {
    let u = build_user_data("x", 30, 2, true, true, s("2024-01-01T00:00:00+00:00"));
    assert_eq!(u.played_percentage, Some(100));
    assert_eq!(u.playback_position_ticks, 300_000_000);
    assert_eq!(u.play_count, 2);
    assert!(u.played && u.is_favorite);
    assert_eq!(u.key, "x");
    assert_eq!(u.last_played_date.as_deref(), Some("2024-01-01T00:00:00+00:00"));
    let k = build_user_data_with_key("x", "tmdb-9", 0, 0, false, false, None);
    assert_eq!(k.played_percentage, None);
    assert_eq!(k.key, "tmdb-9");
    assert_eq!(k.item_id, "x");
    assert_eq!(format_jellyfin_date("2023-05-17"), "2023-05-17T00:00:00.0000000Z");
}

#[test]
fn series_rows_become_items() {
    let row = ShowRow {
        id: A,
        title: "The Expanse".to_string(),
        original_title: None,
        sort_title: None,
        year: Some(2015),
        first_air_date: s("2015-12-14"),
        overview: None,
        status: s("Ended"),
        poster_path: s("/p.jpg"),
        backdrop_path: None,
        content_rating: None,
        is_favorite: true,
        tmdb_id: None,
        imdb_id: s("tt3230854"),
        tvdb_id: s("280619"),
        created_at: None,
        video_id: Some(B),
        season_count: Some(6),
        episode_count: Some(62),
    };
    let d = tv_show_row_to_dto(&row, "srv");
    assert_eq!(d.item_type, "Series");
    assert_eq!(d.id, A_TEXT);
    assert_eq!(d.sort_name.as_deref(), Some("the expanse"));
    assert_eq!(d.premiere_date.as_deref(), Some("2015-12-14T00:00:00.0000000Z"));
    assert_eq!(d.parent_id.as_deref(), Some(B_TEXT));
    assert!(d.is_folder);
    assert_eq!(d.child_count, Some(6));
    assert_eq!(d.recursive_item_count, Some(62));
    assert_eq!(d.display_order.as_deref(), Some("aired"));
    assert_eq!(d.air_days, Some(vec![]));
    assert!(d.backdrop_image_tags.is_empty());
    assert!(d.image_tags.contains(&("Primary".to_string(), A_TEXT.to_string())));
    assert!(d.provider_ids.contains(&("Tvdb".to_string(), "280619".to_string())));
    assert!(d.provider_ids.contains(&("Imdb".to_string(), "tt3230854".to_string())));
    let u = d.user_data.unwrap();
    assert_eq!(u.key, "280619");
    assert!(u.is_favorite);
}

#[test]
fn season_rows_become_items() {
    let row = SeasonRow {
        id: C,
        tv_show_id: A,
        season_number: 0,
        title: None,
        overview: s("Extras"),
        poster_path: None,
        episode_count: Some(3),
        series_name: s("The Expanse"),
        air_date: s("2016-01-02"),
        series_poster_path: s("/sp.jpg"),
        series_backdrop_path: None,
    };
    let d = season_row_to_dto(&row, "srv");
    assert_eq!(d.name, "Specials");
    assert_eq!(d.item_type, "Season");
    assert_eq!(d.index_number, Some(0));
    assert_eq!(d.series_id.as_deref(), Some(A_TEXT));
    assert_eq!(d.parent_id.as_deref(), Some(A_TEXT));
    assert_eq!(d.child_count, Some(3));
    assert_eq!(d.series_primary_image_tag.as_deref(), Some(A_TEXT));
    assert_eq!(d.parent_backdrop_image_tags, None);
    assert_eq!(d.user_data.unwrap().key, C_TEXT);
    let named = season_row_to_dto(&SeasonRow { season_number: 4, ..row }, "srv");
    assert_eq!(named.name, "Season 4");
}

#[test]
fn episode_rows_become_items() {
    let row = EpisodeRow {
        id: C,
        tv_show_id: A,
        season_id: B,
        episode_number: 7,
        title: None,
        overview: None,
        air_date: None,
        runtime: Some(60),
        still_path: s("/still.jpg"),
        season_number: 2,
        series_name: s("The Expanse"),
        resume_position: 5,
        play_count: 1,
        is_watched: false,
        last_watch_at: None,
        has_file: false,
    };
    let d = episode_row_to_dto(&row, "srv");
    assert_eq!(d.name, "Episode 7");
    assert_eq!(d.item_type, "Episode");
    assert_eq!(d.season_name.as_deref(), Some("Season 2"));
    assert_eq!(d.parent_id.as_deref(), Some(B_TEXT));
    assert_eq!(d.season_id.as_deref(), Some(B_TEXT));
    assert_eq!(d.series_id.as_deref(), Some(A_TEXT));
    assert_eq!(d.run_time_ticks, Some(600_000_000));
    assert_eq!(d.location_type, "Virtual");
    assert_eq!(d.parent_backdrop_item_id.as_deref(), Some(A_TEXT));
    let u = d.user_data.unwrap();
    assert_eq!(u.playback_position_ticks, 50_000_000);
    assert_eq!(u.key, C_TEXT);
    assert!(!u.is_favorite);
}

#[test]
fn logins_answer_the_session() {
    let user = user_dto(A, "alice", None, "srv");
    let client = parse_mediabrowser_header(
        r#"MediaBrowser Client="Infuse", Device="iPhone", DeviceId="dev-1", Version="7.0""#,
    );
    let r = authentication_result(
        user,
        &client,
        "dev-1".to_string(),
        "sess".to_string(),
        "tok".to_string(),
        "2024-01-01T00:00:00+00:00".to_string(),
        "srv",
    );
    assert_eq!(r.access_token, "tok");
    assert_eq!(r.server_id, "srv");
    assert_eq!(r.session_info.id, "sess");
    assert_eq!(r.session_info.user_id, "aaaaaaaaaaaaaaaaaaaaaaaaaaaaaaaa");
    assert_eq!(r.session_info.user_name, "alice");
    assert_eq!(r.session_info.client, "Infuse");
    assert_eq!(r.session_info.device_name, "iPhone");
    assert_eq!(r.session_info.application_version, "7.0");
    assert_eq!(r.session_info.device_id, "dev-1");
    assert_eq!(r.session_info.last_playback_check_in, "0001-01-01T00:00:00.0000000Z");
    assert!(r.session_info.is_active);
    assert!(!r.session_info.supports_remote_control);
    assert_eq!(r.session_info.server_id, "srv");
}

#[test]
fn one_token_source_reads_the_same_everywhere() {
    let header = s(r#"MediaBrowser Client="x", Token="abc""#);
    assert_eq!(request_token(&header, &None, &None), s("abc"));
    assert_eq!(stream_token(&None, &header, &None), s("abc"));
    assert_eq!(request_token(&None, &s("e"), &None), stream_token(&None, &None, &s("e")));
    assert_eq!(request_token(&None, &None, &s("k")), stream_token(&s("k"), &None, &None));
    assert_eq!(request_token(&None, &None, &None), None);
    assert_eq!(parse_mediabrowser_token(r#"MediaBrowser Token="""#), None);
    assert_eq!(parse_mediabrowser_token(r#"Emby Token="", Token="t2""#), s("t2"));
}

#[test]
fn item_details_look_up_uuid_paths_only() {
    assert_eq!(item_detail_ids(A_TEXT), vec![A]);
    assert!(item_detail_ids("root").is_empty());
    assert!(item_detail_ids(&format!("{A_TEXT},{B_TEXT}")).is_empty());
}

#[test]
fn fresh_ids_are_version_four() {
    let token = new_access_token();
    assert_eq!(token.len(), 32);
    assert_eq!(&token[12..13], "4");
    assert!(matches!(&token[16..17], "8" | "9" | "a" | "b"));
    let device = login_device_id("");
    assert_eq!(device.len(), 36);
    assert_eq!(&device[14..15], "4");
    assert_eq!(login_device_id("dev-9"), "dev-9");
}
