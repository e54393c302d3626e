//! Item images: which artwork a request asks for, the order in which its
//! sources are consulted, and the thumbnail address it is redirected to.

use vstd::prelude::*;
use crate::numbers::{decimal, decimal_i32};
use crate::outside::{parse_uuid, str_to_lowercase, url_encode, uuid_parse};
use crate::text::{lowercase_text, chars_of, concat_chars, opt_view, owned, percent_encoded, str_is, string_of};

verus! {

/// The kind of artwork an image request asks for.
#[derive(Debug, Clone, Copy, PartialEq, Eq, Structural)]
pub enum ArtType {
    Poster,
    Backdrop,
    Thumb,
}

/// The artwork an image type names: `backdrop` and `banner` a backdrop,
/// `thumb` a thumbnail, anything else (`primary`, `poster`, …) the poster;
/// case does not matter.
pub open spec fn art_type_of(image_type: Seq<char>) -> ArtType {
    let l = lowercase_text(image_type);
    if l == "backdrop"@ || l == "banner"@ {
        ArtType::Backdrop
    } else if l == "thumb"@ {
        ArtType::Thumb
    } else {
        ArtType::Poster
    }
}

/// The artwork an image type names.
pub fn art_type_for(image_type: &str) -> (r: ArtType)
    ensures
        r == art_type_of(image_type@),
{
    let l = chars_of(str_to_lowercase(image_type).as_str());
    if str_is(&l, "backdrop") || str_is(&l, "banner") {
        ArtType::Backdrop
    } else if str_is(&l, "thumb") {
        ArtType::Thumb
    } else {
        ArtType::Poster
    }
}

/// The name stored artwork of this kind is recorded under.
pub open spec fn art_name(a: ArtType) -> Seq<char> {
    match a {
        ArtType::Poster => "poster"@,
        ArtType::Backdrop => "backdrop"@,
        ArtType::Thumb => "thumb"@,
    }
}

/// The name stored artwork of this kind is recorded under.
pub fn art_type_name(a: ArtType) -> (r: &'static str)
    ensures
        r@ == art_name(a),
{
    match a {
        ArtType::Poster => "poster",
        ArtType::Backdrop => "backdrop",
        ArtType::Thumb => "thumb",
    }
}

/// The item and artwork an image request names; `None` (a bad request)
/// when the item id is not a UUID.
pub fn image_request(item_id: &str, image_type: &str) -> (r: Option<(u128, ArtType)>)
    ensures
        match uuid_parse(item_id@) {
            Some(id) => r == Some((id, art_type_of(image_type@))),
            None => r is None,
        },
{
    match parse_uuid(item_id) {
        Some(id) => Some((id, art_type_for(image_type))),
        None => None,
    }
}

/// Whether a request for this artwork first looks for a person's picture
/// (posters only).
pub fn checks_person(a: ArtType) -> (r: bool)
    ensures
        r == (a == ArtType::Poster),
{
    match a {
        ArtType::Poster => true,
        _ => false,
    }
}

/// The thumbnail address of a person's picture, 400 pixels wide.
pub open spec fn person_thumb_of(item_id: Seq<char>) -> Seq<char> {
    "/api/thumb/person/"@ + item_id + "?w=400"@
}

/// The thumbnail address of a person's picture.
pub fn person_thumb_url(item_id: &str) -> (r: String)
    ensures
        r@ == person_thumb_of(item_id@),
{
    let a = concat_chars(&chars_of("/api/thumb/person/"), &chars_of(item_id));
    string_of(&concat_chars(&a, &chars_of("?w=400")))
}

/// The thumbnail width for artwork of this kind: 1280 for backdrops, else
/// 400.
pub open spec fn thumb_width_of(a: ArtType) -> i32 {
    match a {
        ArtType::Backdrop => 1280,
        _ => 400,
    }
}

/// The thumbnail address for stored artwork at `source` of an entity of
/// the given type (`movie` when unknown), the source percent-encoded.
pub open spec fn thumb_url_of(entity_type: Option<Seq<char>>, item_id: Seq<char>, source: Seq<char>, a: ArtType) -> Seq<char> {
    "/api/thumb/"@ + (match entity_type {
        Some(t) => t,
        None => "movie"@,
    }) + "/"@ + item_id + "?source="@ + percent_encoded(source) + "&w="@ + decimal(
        thumb_width_of(a) as int,
    )
}

/// The thumbnail address an image request is redirected to.
pub fn thumb_url(entity_type: &Option<String>, item_id: &str, source: &str, a: ArtType) -> (r: String)
    ensures
        r@ == thumb_url_of(opt_view(*entity_type), item_id@, source@, a),
{
    let kind = match entity_type {
        Some(t) => chars_of(t.as_str()),
        None => chars_of("movie"),
    };
    let width: i32 = match a {
        ArtType::Backdrop => 1280,
        _ => 400,
    };
    let encoded = url_encode(source);
    let mut s = concat_chars(&chars_of("/api/thumb/"), &kind);
    s = concat_chars(&s, &chars_of("/"));
    s = concat_chars(&s, &chars_of(item_id));
    s = concat_chars(&s, &chars_of("?source="));
    s = concat_chars(&s, &chars_of(encoded.as_str()));
    s = concat_chars(&s, &chars_of("&w="));
    s = concat_chars(&s, &decimal_i32(width));
    string_of(&s)
}

/// The stored image paths consulted for an entity, in order, as (query,
/// column): movies and series (backdrop or poster), seasons (posters only,
/// not for backdrops), then episode stills.
pub open spec fn entity_image_lookups(a: ArtType) -> Seq<(Seq<char>, Seq<char>)> {
    let column = match a {
        ArtType::Backdrop => "backdrop_path"@,
        _ => "poster_path"@,
    };
    let shared = seq![
        ("SELECT "@ + column + " FROM movies WHERE id = $1"@, column),
        ("SELECT "@ + column + " FROM tv_shows WHERE id = $1"@, column),
    ];
    let seasons = if a == ArtType::Backdrop {
        Seq::empty()
    } else {
        seq![("SELECT poster_path FROM seasons WHERE id = $1"@, "poster_path"@)]
    };
    shared + seasons + seq![("SELECT still_path FROM episodes WHERE id = $1"@, "still_path"@)]
}

/// The stored image paths consulted for an entity, in order.
pub fn entity_image_queries(a: ArtType) -> (r: Vec<(String, String)>)
    ensures
        r@.map_values(|p: (String, String)| (p.0@, p.1@)) == entity_image_lookups(a),
{
    let column = match a {
        ArtType::Backdrop => chars_of("backdrop_path"),
        _ => chars_of("poster_path"),
    };
    let select = chars_of("SELECT ");
    let movies = concat_chars(&concat_chars(&select, &column), &chars_of(" FROM movies WHERE id = $1"));
    let shows = concat_chars(&concat_chars(&select, &column), &chars_of(" FROM tv_shows WHERE id = $1"));
    let mut r: Vec<(String, String)> = Vec::new();
    r.push((string_of(&movies), string_of(&column)));
    r.push((string_of(&shows), string_of(&column)));
    if a != ArtType::Backdrop {
        r.push((owned("SELECT poster_path FROM seasons WHERE id = $1"), owned("poster_path")));
    }
    r.push((owned("SELECT still_path FROM episodes WHERE id = $1"), owned("still_path")));
    assert(r@.map_values(|p: (String, String)| (p.0@, p.1@)) =~= entity_image_lookups(a));
    r
}

/// The entity kinds an item id is checked against, in order, as (query,
/// kind): movie, series, season, episode.
pub open spec fn entity_kind_lookups() -> Seq<(Seq<char>, Seq<char>)> {
    seq![
        ("SELECT id FROM movies WHERE id = $1"@, "movie"@),
        ("SELECT id FROM tv_shows WHERE id = $1"@, "tv_show"@),
        ("SELECT id FROM seasons WHERE id = $1"@, "season"@),
        ("SELECT id FROM episodes WHERE id = $1"@, "episode"@),
    ]
}

/// The entity kinds an item id is checked against, in order.
pub fn entity_kind_queries() -> (r: Vec<(String, String)>)
    ensures
        r@.map_values(|p: (String, String)| (p.0@, p.1@)) == entity_kind_lookups(),
{
    let mut r: Vec<(String, String)> = Vec::new();
    r.push((owned("SELECT id FROM movies WHERE id = $1"), owned("movie")));
    r.push((owned("SELECT id FROM tv_shows WHERE id = $1"), owned("tv_show")));
    r.push((owned("SELECT id FROM seasons WHERE id = $1"), owned("season")));
    r.push((owned("SELECT id FROM episodes WHERE id = $1"), owned("episode")));
    assert(r@.map_values(|p: (String, String)| (p.0@, p.1@)) =~= entity_kind_lookups());
    r
}

/// The lookups that tell whether an item id is a person with a picture:
/// movie people, then TV people, each with a non-empty profile path.
pub open spec fn person_lookups() -> Seq<Seq<char>> {
    seq![
        "SELECT id FROM movie_persons WHERE id = $1 AND profile_path IS NOT NULL AND profile_path <> ''"@,
        "SELECT id FROM tv_persons WHERE id = $1 AND profile_path IS NOT NULL AND profile_path <> ''"@,
    ]
}

/// The lookups that tell whether an item id is a person with a picture.
pub fn person_queries() -> (r: Vec<String>)
    ensures
        r@.map_values(|q: String| q@) == person_lookups(),
{
    let mut r: Vec<String> = Vec::new();
    r.push(owned("SELECT id FROM movie_persons WHERE id = $1 AND profile_path IS NOT NULL AND profile_path <> ''"));
    r.push(owned("SELECT id FROM tv_persons WHERE id = $1 AND profile_path IS NOT NULL AND profile_path <> ''"));
    assert(r@.map_values(|q: String| q@) =~= person_lookups());
    r
}


/// An image type names a backdrop when it is `backdrop` or `banner` in any
/// case, a thumbnail when it is `thumb`, and the poster otherwise; an image
/// request with a UUID id asks for that artwork of that item.
pub proof fn law_art_types(image_type: Seq<char>)
    ensures
        (lowercase_text(image_type) == "backdrop"@ || lowercase_text(image_type) == "banner"@)
            ==> art_type_of(image_type) == ArtType::Backdrop,
        lowercase_text(image_type) == "thumb"@ ==> art_type_of(image_type) == ArtType::Thumb,
        (lowercase_text(image_type) != "backdrop"@ && lowercase_text(image_type) != "banner"@
            && lowercase_text(image_type) != "thumb"@) ==> art_type_of(image_type) == ArtType::Poster,
{
    reveal_strlit("thumb");
    reveal_strlit("backdrop");
    reveal_strlit("banner");
    assert("thumb"@.len() != "backdrop"@.len() && "thumb"@.len() != "banner"@.len());
}


/// An image request is redirected to the thumbnail of its entity type
/// (`movie` when unknown) and item, with the stored source percent-encoded
/// and a width of 1280 for backdrops and 400 for other artwork; the stored
/// artwork is looked up under its own kind's name.
pub proof fn law_thumb_urls(entity_type: Option<Seq<char>>, item_id: Seq<char>, source: Seq<char>, a: ArtType)
    ensures
        thumb_url_of(entity_type, item_id, source, a) == "/api/thumb/"@ + (match entity_type {
            Some(t) => t,
            None => "movie"@,
        }) + "/"@ + item_id + "?source="@ + percent_encoded(source) + "&w="@ + decimal(
            if a == ArtType::Backdrop {
                1280
            } else {
                400
            },
        ),
        art_name(ArtType::Poster) == "poster"@ && art_name(ArtType::Backdrop) == "backdrop"@ && art_name(
            ArtType::Thumb,
        ) == "thumb"@,
{
}

} // verus!
