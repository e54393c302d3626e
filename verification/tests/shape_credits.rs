use tokimo_media_server_bridge::jellyfin::credits::{
    apply_genres, cast_source, movie_people, person_from_cast, show_people, sort_cast, CastRow,
    CastSource, GenreRow,
};
use tokimo_media_server_bridge::jellyfin::models::{AspectRatio, BaseItemDto};
use tokimo_media_server_bridge::jellyfin::shape::{
    apply_shape_rows, patch_collection, patch_episode, patch_movie, patch_season, patch_series,
    shape_targets, CollectionShapeRow, EpisodeShapeRow, MovieShapeRow, SeasonShapeRow,
    SeriesShapeRow, ShapeRow,
};

const A: u128 = 0xaaaaaaaa_aaaa_aaaa_aaaa_aaaaaaaaaaaa;
const A_TEXT: &str = "aaaaaaaa-aaaa-aaaa-aaaa-aaaaaaaaaaaa";
const B: u128 = 0xbbbbbbbb_bbbb_bbbb_bbbb_bbbbbbbbbbbb;
const B_TEXT: &str = "bbbbbbbb-bbbb-bbbb-bbbb-bbbbbbbbbbbb";

fn s(x: &str) -> Option<String> {
    Some(x.to_string())
}

fn item(id: &str, kind: &str, name: &str) -> BaseItemDto {
    BaseItemDto {
        id: id.to_string(),
        item_type: kind.to_string(),
        name: name.to_string(),
        ..BaseItemDto::default()
    }
}

#[test]
fn library_folders_take_their_rows() {
    let mut it = item(A_TEXT, "CollectionFolder", "Movies");
    it.collection_type = s("movies");
    let row = CollectionShapeRow {
        id: A,
        poster_path: s("/p.jpg"),
        created_at: s("2024-01-01T00:00:00+00:00"),
        updated_at: s("2024-02-01T00:00:00+00:00"),
        root_path: s("/media/movies"),
        date_last_media_added: None,
    };
    patch_collection(&mut it, &row);
    assert_eq!(it.date_created, s("2024-01-01T00:00:00+00:00"));
    assert_eq!(it.date_last_media_added, s("2024-01-01T00:00:00+00:00"));
    assert_eq!(
        it.etag,
        Some(format!("{A_TEXT}|2024-02-01T00:00:00+00:00|/media/movies|movies"))
    );
    assert_eq!(it.parent_id, s("root"));
    assert_eq!(it.path, s("/media/movies"));
    assert_eq!(it.people.as_ref().map(|p| p.len()), Some(0));
    assert_eq!(it.sort_name, s("movies"));
    assert_eq!(it.special_feature_count, Some(0));
    assert_eq!(it.primary_image_aspect_ratio, Some(AspectRatio { width: 2, height: 3 }));
    assert_eq!(it.image_tags, vec![("Primary".to_string(), A_TEXT.to_string())]);
    patch_collection(&mut it, &row);
    assert_eq!(it.image_tags.len(), 1);
}

#[test]
fn movies_keep_what_they_have() {
    let mut it = item(A_TEXT, "Movie", "Film");
    it.path = s("/kept.mkv");
    let row = MovieShapeRow {
        id: A,
        updated_at: s("u"),
        video_path: s("/new.mkv"),
        video_checksum: None,
        video_created_at: None,
        video_updated_at: s("vu"),
    };
    patch_movie(&mut it, &row);
    assert_eq!(it.path, s("/kept.mkv"));
    assert_eq!(it.etag, Some(format!("{A_TEXT}|u|vu|/new.mkv")));
    assert_eq!(it.date_created, s("vu"));
    let mut with_sum = item(A_TEXT, "Movie", "Film");
    let row2 = MovieShapeRow { video_checksum: s("abc"), ..row };
    patch_movie(&mut with_sum, &row2);
    assert_eq!(with_sum.etag, s("abc"));
}

#[test]
fn series_take_runtime_end_and_path() {
    let mut it = item(A_TEXT, "Series", "Show");
    let row = SeriesShapeRow {
        id: A,
        last_air_date: s("2020-05-01"),
        updated_at: None,
        total_runtime: 3600,
        sample_path: s("/tv/Show/Season 1/e1.mkv"),
        sample_checksum: s("sum"),
        sample_updated_at: None,
    };
    patch_series(&mut it, &row);
    assert_eq!(it.end_date, s("2020-05-01T00:00:00.0000000Z"));
    assert_eq!(it.run_time_ticks, Some(36_000_000_000));
    assert_eq!(it.path, s("/tv/Show"));
    assert_eq!(it.etag, s("sum"));
    let mut wide = item(A_TEXT, "Series", "Show");
    let big = SeriesShapeRow { total_runtime: (1i64 << 32) + 5, ..row };
    patch_series(&mut wide, &big);
    assert_eq!(wide.run_time_ticks, Some(50_000_000));
}

#[test]
fn seasons_and_episodes_point_at_their_series() {
    let mut season = item(A_TEXT, "Season", "Season 1");
    season.child_count = Some(8);
    let row = SeasonShapeRow {
        id: A,
        tv_show_id: B,
        air_date: s("2019-03-02"),
        air_year: Some(2019),
        show_year: Some(2018),
        series_poster_path: s("/poster.jpg"),
        sample_path: s("/tv/Show/Season 1/e1.mkv"),
        sample_checksum: None,
        sample_created_at: None,
        sample_updated_at: s("su"),
    };
    patch_season(&mut season, &row);
    assert_eq!(season.date_created, s("2019-03-02T00:00:00.0000000Z"));
    assert_eq!(season.path, s("/tv/Show/Season 1"));
    assert_eq!(season.etag, Some(format!("{A_TEXT}|su|/tv/Show/Season 1/e1.mkv")));
    assert_eq!(season.parent_thumb_item_id, s(B_TEXT));
    assert_eq!(season.parent_thumb_image_tag, s(B_TEXT));
    assert_eq!(season.production_year, Some(2019));
    assert_eq!(season.recursive_item_count, Some(8));
    assert_eq!(season.sort_name, s("season 1"));

    let mut ep = item(A_TEXT, "Episode", "Pilot");
    let erow = EpisodeShapeRow {
        id: A,
        tv_show_id: B,
        air_date: None,
        series_poster_path: None,
        series_backdrop_path: s("/bd.jpg"),
        has_series_logo: true,
        sample_path: s("/tv/Show/e1.mkv"),
        sample_checksum: s("c"),
        sample_created_at: s("created"),
        sample_updated_at: None,
    };
    patch_episode(&mut ep, &erow);
    assert_eq!(ep.date_created, s("created"));
    assert_eq!(ep.path, s("/tv/Show/e1.mkv"));
    assert_eq!(ep.etag, s("c"));
    assert_eq!(ep.parent_backdrop_item_id, s(B_TEXT));
    assert_eq!(ep.parent_backdrop_image_tags, Some(vec![B_TEXT.to_string()]));
    assert_eq!(ep.parent_thumb_image_tag, None);
    assert_eq!(ep.series_primary_image_tag, None);
    assert_eq!(ep.parent_logo_item_id, s(B_TEXT));
    assert_eq!(ep.parent_logo_image_tag, s(B_TEXT));
    assert_eq!(ep.sort_name, s("pilot"));
}

#[test]
fn rows_patch_every_item_with_their_id() {
    let mut items = vec![item(A_TEXT, "Movie", "One"), item(B_TEXT, "Movie", "Two"), item(A_TEXT, "Movie", "Again")];
    let targets = shape_targets(&items);
    assert_eq!(targets.movies, vec![A, B, A]);
    assert!(targets.series.is_empty());
    let row = MovieShapeRow {
        id: A,
        updated_at: None,
        video_path: s("/a.mkv"),
        video_checksum: s("x"),
        video_created_at: None,
        video_updated_at: None,
    };
    apply_shape_rows(&mut items, &vec![ShapeRow::Movie(row)]);
    assert_eq!(items[0].path, s("/a.mkv"));
    assert_eq!(items[2].path, s("/a.mkv"));
    assert_eq!(items[1].path, None);
    assert_eq!(items[1].special_feature_count, None);
}

#[test]
fn genres_go_to_the_first_item_with_rows() {
    let mut items = vec![item(A_TEXT, "Movie", "One"), item(A_TEXT, "Movie", "Dup"), item(B_TEXT, "Series", "Two")];
    let rows = vec![
        GenreRow { item_id: A, genre_id: B, tmdb_genre_id: 28 },
        GenreRow { item_id: B, genre_id: A, tmdb_genre_id: 18 },
        GenreRow { item_id: A, genre_id: A, tmdb_genre_id: 35 },
    ];
    apply_genres(&mut items, &rows);
    assert_eq!(items[0].genres, vec!["Action".to_string(), "Comedy".to_string()]);
    assert_eq!(items[0].genre_items[0].id, B_TEXT);
    assert_eq!(items[0].genre_items[1].name, "Comedy");
    assert!(items[1].genres.is_empty());
    assert_eq!(items[2].genres, vec!["Drama".to_string()]);
}

fn cast(order: i32, name: &str, role: &str) -> CastRow {
    CastRow {
        person_id: A,
        name: name.to_string(),
        profile_path: s("/p.jpg"),
        role: role.to_string(),
        character: s("Hero"),
        sort_order: order,
    }
}

#[test]
fn cast_rows_become_people() {
    let actor = person_from_cast(&cast(0, "Ann", "actor"));
    assert_eq!(actor.person_type, "Actor");
    assert_eq!(actor.role, s("Hero"));
    assert_eq!(actor.id, A_TEXT);
    assert_eq!(actor.primary_image_tag, s(A_TEXT));
    let mut director = cast(1, "Dan", "director");
    director.profile_path = s("");
    let d = person_from_cast(&director);
    assert_eq!(d.role, None);
    assert_eq!(d.primary_image_tag, None);
    let movie = movie_people(&vec![cast(5, "Z", "actor"), cast(1, "Y", "actor")]);
    assert_eq!(movie[0].name, "Z");
}

#[test]
fn cast_sorting_is_stable_by_billing() {
    let rows = vec![cast(2, "c", "actor"), cast(1, "a", "actor"), cast(2, "d", "actor"), cast(1, "b", "actor"), cast(0, "z", "actor")];
    let sorted = sort_cast(rows);
    let names: Vec<&str> = sorted.iter().map(|r| r.name.as_str()).collect();
    assert_eq!(names, vec!["z", "a", "b", "c", "d"]);
    let people = show_people(vec![cast(3, "late", "writer"), cast(-1, "early", "actor")]);
    assert_eq!(people[0].name, "early");
    assert_eq!(people[1].person_type, "Writer");
}

#[test]
fn cast_sources_by_item_type() {
    let movie = item(A_TEXT, "Movie", "m");
    assert!(matches!(cast_source(&movie), CastSource::Movie(x) if x == A));
    let mut ep = item(A_TEXT, "Episode", "e");
    ep.series_id = s(B_TEXT);
    assert!(matches!(cast_source(&ep), CastSource::Show(x) if x == B));
    let orphan = item(A_TEXT, "Season", "s");
    assert!(matches!(cast_source(&orphan), CastSource::Skip));
    let folder = item(A_TEXT, "CollectionFolder", "f");
    assert!(matches!(cast_source(&folder), CastSource::Nobody));
    let bad = item("x", "Movie", "m");
    assert!(matches!(cast_source(&bad), CastSource::Skip));
}
