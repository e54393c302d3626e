use tokimo_media_server_bridge::jellyfin::browse::{
    capped_limit, comma_pieces, episodes_source, listing_omitted_fields, next_lookup,
    pg_uuid_array, plan_items, requested_item_ids, route_browse, BrowseRoute, EpisodeSource,
    EpisodesQuery, ItemLookup, ItemsPlan, ItemsQuery, LatestQuery, NextUpQuery, SeasonsQuery,
};
use tokimo_media_server_bridge::jellyfin::images::{
    art_type_for, art_type_name, checks_person, entity_image_queries, entity_kind_queries,
    image_request, person_thumb_url, thumb_url, ArtType,
};
use tokimo_media_server_bridge::jellyfin::listing::{
    all_media_limit, next_up_window, page, person_order_key, person_window, sort_by_text_key,
};
use tokimo_media_server_bridge::jellyfin::models::BaseItemDto;
use tokimo_media_server_bridge::jellyfin::rows::{
    collection_folder_dto, items_root_dto, library_folder_dto, movie_row_to_dto, CollectionRow,
    MovieRow,
};

const A: u128 = 0xaaaaaaaa_aaaa_aaaa_aaaa_aaaaaaaaaaaa;
const A_TEXT: &str = "aaaaaaaa-aaaa-aaaa-aaaa-aaaaaaaaaaaa";
const B: u128 = 0xbbbbbbbb_bbbb_bbbb_bbbb_bbbbbbbbbbbb;
const B_TEXT: &str = "bbbbbbbb-bbbb-bbbb-bbbb-bbbbbbbbbbbb";

fn s(x: &str) -> Option<String> {
    Some(x.to_string())
}

#[test]
fn id_lists_skip_what_does_not_parse() {
    let ids = requested_item_ids(&format!(" {A_TEXT} , junk,{B_TEXT}"));
    assert_eq!(ids, vec![A, B]);
    assert_eq!(comma_pieces(" a, b ,"), vec!["a".to_string(), "b".to_string(), String::new()]);
}

#[test]
fn items_requests_are_planned() {
    let by_ids = ItemsQuery { ids: s(A_TEXT), person_ids: s(B_TEXT), ..ItemsQuery::default() };
    match plan_items(&by_ids, 9) {
        ItemsPlan::ByIds { ids, user_id } => {
            assert_eq!(ids, vec![A]);
            assert_eq!(user_id, 9);
        }
        _ => panic!("expected a lookup by ids"),
    }
    let by_person = ItemsQuery {
        person_ids: s(&format!("{B_TEXT},{A_TEXT}")),
        user_id: s(A_TEXT),
        fields: s("Genres"),
        ..ItemsQuery::default()
    };
    match plan_items(&by_person, 9) {
        ItemsPlan::ByPerson { person, params } => {
            assert_eq!(person, B);
            assert_eq!(params.user_id, A);
            assert!(params.with_genres);
        }
        _ => panic!("expected a person listing"),
    }
    let browse = ItemsQuery {
        parent_id: s(A_TEXT),
        include_item_types: s("Series, Season"),
        sort_order: s("descending"),
        limit: Some(10_000),
        filters: s("IsFavorite,IsResumable"),
        search_term: s("star"),
        ..ItemsQuery::default()
    };
    match plan_items(&browse, 9) {
        ItemsPlan::Browse { params } => {
            assert_eq!(params.parent, Some(A));
            assert_eq!(params.include_types, vec!["Series".to_string(), "Season".to_string()]);
            assert_eq!(params.sort_dir, "DESC");
            assert_eq!(params.sort_field, "SortName");
            assert_eq!(params.limit, 500);
            assert_eq!(params.start, 0);
            assert!(params.is_resumable);
            assert_eq!(params.search_term, "star");
            assert_eq!(params.user_id, 9);
            assert!(!params.with_genres);
        }
        _ => panic!("expected a browse"),
    }
}

fn browse_params(q: ItemsQuery) -> tokimo_media_server_bridge::jellyfin::browse::BrowseParams {
    match plan_items(&q, 1) {
        ItemsPlan::Browse { params } => params,
        _ => panic!("expected a browse"),
    }
}

#[test]
fn browse_routes() {
    let tv = browse_params(ItemsQuery { parent_id: s(A_TEXT), include_item_types: s("episode"), ..ItemsQuery::default() });
    assert!(route_browse(&tv, &s("tv")) == BrowseRoute::LibraryEpisodes { tv_library: A });
    assert!(route_browse(&tv, &s("movie")) == BrowseRoute::Nothing);
    assert!(route_browse(&tv, &s("season")) == BrowseRoute::SeasonEpisodes { season: A });
    assert!(route_browse(&tv, &s("unknown")) == BrowseRoute::AllEpisodes);
    let shows = browse_params(ItemsQuery { parent_id: s(A_TEXT), ..ItemsQuery::default() });
    assert!(route_browse(&shows, &s("tv")) == BrowseRoute::Shows { library: Some(A) });
    assert!(route_browse(&shows, &s("movie")) == BrowseRoute::Movies { library: Some(A) });
    let none = browse_params(ItemsQuery::default());
    assert!(route_browse(&none, &None) == BrowseRoute::AllMedia);
    let resumable = browse_params(ItemsQuery { filters: s("IsResumable"), ..ItemsQuery::default() });
    assert!(route_browse(&resumable, &None) == BrowseRoute::Resumable);
    let movies = browse_params(ItemsQuery { include_item_types: s("MOVIE"), ..ItemsQuery::default() });
    assert!(route_browse(&movies, &None) == BrowseRoute::Movies { library: None });
}

#[test]
fn limits_are_capped() {
    assert_eq!(capped_limit(None, 50, 500), 50);
    assert_eq!(capped_limit(Some(600), 50, 500), 500);
    assert_eq!(capped_limit(Some(-3), 20, 100), -3);
    assert_eq!(all_media_limit(51), 25);
    assert_eq!(all_media_limit(-5), -2);
}

#[test]
fn windows_page_lists() {
    assert_eq!(page(vec![1, 2, 3, 4, 5], 1, 2), vec![2, 3]);
    assert_eq!(page(vec![1, 2, 3], 2, 10), vec![3]);
    assert_eq!(page(vec![1, 2, 3], 7, 1), Vec::<i32>::new());
    assert_eq!(person_window(-4, 0), (0, 1));
    assert_eq!(person_window(3, 20), (3, 20));
    assert_eq!(next_up_window(2, 5), (2, 5));
    assert_eq!(next_up_window(-1, 5).0, usize::MAX);
}

fn named(name: &str, sort: Option<&str>, created: Option<&str>) -> BaseItemDto {
    BaseItemDto {
        name: name.to_string(),
        sort_name: sort.map(|x| x.to_string()),
        date_created: created.map(|x| x.to_string()),
        ..BaseItemDto::default()
    }
}

#[test]
fn person_titles_sort_stably() {
    let items = vec![named("Beta", None, Some("2021")), named("alpha", None, Some("2020")), named("Zed", Some("aaa"), Some("2021"))];
    let keyed: Vec<(String, BaseItemDto)> = items.into_iter().map(|i| (person_order_key(&i, "SortName", &None), i)).collect();
    assert_eq!(keyed[0].0, "beta");
    assert_eq!(keyed[2].0, "aaa");
    let asc = sort_by_text_key(keyed, false);
    let names: Vec<&str> = asc.iter().map(|e| e.1.name.as_str()).collect();
    assert_eq!(names, vec!["Zed", "alpha", "Beta"]);
    let by_date: Vec<(String, BaseItemDto)> = vec![named("a", None, Some("2021")), named("b", None, Some("2020")), named("c", None, Some("2021"))]
        .into_iter()
        .map(|i| (person_order_key(&i, "DateCreated", &None), i))
        .collect();
    let desc = sort_by_text_key(by_date, true);
    let names: Vec<&str> = desc.iter().map(|e| e.1.name.as_str()).collect();
    assert_eq!(names, vec!["a", "c", "b"]);
    let rated = named("r", None, None);
    assert_eq!(person_order_key(&rated, "CommunityRating", &s("007.500000")), "007.500000");
    assert_eq!(person_order_key(&rated, "PremiereDate", &None), "");
}

#[test]
fn listings_drop_fields_by_type() {
    assert_eq!(listing_omitted_fields("Movie").len(), 10);
    assert!(listing_omitted_fields("Series").contains(&"OriginalTitle"));
    assert!(listing_omitted_fields("Season").contains(&"ParentBackdropItemId"));
    assert!(listing_omitted_fields("Episode").contains(&"HasSubtitles"));
    assert!(listing_omitted_fields("CollectionFolder").is_empty());
}

#[test]
fn uuid_arrays_for_postgres() {
    assert_eq!(pg_uuid_array(&vec![]), "{}");
    assert_eq!(pg_uuid_array(&vec![A, B]), format!("{{{A_TEXT},{B_TEXT}}}"));
}

#[test]
fn lookups_and_episode_sources() {
    assert!(next_lookup(None) == Some(ItemLookup::Movie));
    assert!(next_lookup(Some(ItemLookup::Episode)) == Some(ItemLookup::Library));
    assert!(next_lookup(Some(ItemLookup::Library)).is_none());
    let q = EpisodesQuery { season_id: s(A_TEXT), ..EpisodesQuery::default() };
    assert!(episodes_source(&q, B) == EpisodeSource::Season(A));
    assert!(episodes_source(&EpisodesQuery::default(), B) == EpisodeSource::Series(B));
    assert!(SeasonsQuery::default().fields.is_none());
    assert!(LatestQuery::default().limit.is_none());
    assert!(NextUpQuery::default().series_id.is_none());
}

#[test]
fn images_redirect_to_thumbnails() {
    assert!(art_type_for("Banner") == ArtType::Backdrop);
    assert!(art_type_for("THUMB") == ArtType::Thumb);
    assert!(art_type_for("Primary") == ArtType::Poster);
    assert_eq!(art_type_name(ArtType::Backdrop), "backdrop");
    assert!(checks_person(ArtType::Poster));
    assert!(!checks_person(ArtType::Thumb));
    assert!(image_request("nope", "Primary").is_none());
    assert_eq!(image_request(A_TEXT, "Backdrop").map(|r| r.0), Some(A));
    assert_eq!(person_thumb_url("p1"), "/api/thumb/person/p1?w=400");
    assert_eq!(
        thumb_url(&None, "i1", "/art/a b/é.jpg", ArtType::Backdrop),
        "/api/thumb/movie/i1?source=%2Fart%2Fa%20b%2F%C3%A9.jpg&w=1280"
    );
    assert_eq!(
        thumb_url(&s("season"), "i1", "x-y_z.~", ArtType::Poster),
        "/api/thumb/season/i1?source=x-y_z.~&w=400"
    );
    let backdrop = entity_image_queries(ArtType::Backdrop);
    assert_eq!(backdrop.len(), 3);
    assert_eq!(backdrop[0].0, "SELECT backdrop_path FROM movies WHERE id = $1");
    assert_eq!(entity_image_queries(ArtType::Thumb).len(), 4);
    assert_eq!(entity_kind_queries()[1].1, "tv_show");
}

fn movie_row() -> MovieRow {
    MovieRow {
        id: A,
        title: "Film".to_string(),
        original_title: None,
        sort_title: None,
        year: Some(1999),
        release_date: s("1999-03-31"),
        runtime: Some(136),
        overview: None,
        tagline: s("Free your mind"),
        poster_path: s("/p.jpg"),
        backdrop_path: None,
        content_rating: s("R"),
        is_favorite: true,
        tmdb_id: s("603"),
        imdb_id: s("tt0133093"),
        created_at: None,
        video_id: Some(B),
        resume_position: 60,
        play_count: 2,
        is_watched: false,
        last_watch_at: None,
    }
}

#[test]
fn rows_become_items() {
    let m = movie_row_to_dto(&movie_row(), "srv");
    assert_eq!(m.id, A_TEXT);
    assert_eq!(m.item_type, "Movie");
    assert_eq!(m.premiere_date, s("1999-03-31T00:00:00.0000000Z"));
    assert_eq!(m.run_time_ticks, Some(1_360_000_000));
    assert_eq!(m.parent_id, s(B_TEXT));
    assert_eq!(m.taglines, vec!["Free your mind".to_string()]);
    let ud = m.user_data.unwrap();
    assert_eq!(ud.key, "603");
    assert_eq!(ud.playback_position_ticks, 600_000_000);
    assert!(ud.is_favorite);
    let lib = CollectionRow { id: A, name: "Films".to_string(), app_type: "movie".to_string(), child_count: 4 };
    let f = collection_folder_dto(&lib, "srv").unwrap();
    assert_eq!(f.collection_type, s("movies"));
    assert_eq!(f.recursive_item_count, None);
    let books = CollectionRow { id: A, name: "Books".to_string(), app_type: "book".to_string(), child_count: 1 };
    assert!(collection_folder_dto(&books, "srv").is_none());
    assert_eq!(library_folder_dto(&books, "srv").collection_type, s("mixed"));
    assert_eq!(library_folder_dto(&books, "srv").recursive_item_count, Some(1));
    let root = items_root_dto("srv");
    assert_eq!(root.id, "root");
    assert_eq!(root.item_type, "UserRootFolder");
}
