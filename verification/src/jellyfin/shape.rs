//! Completing listed items with what their rows in other tables say:
//! creation dates, paths, ETags, parent artwork references and sort names.
//! The rows are fetched elsewhere; here each row patches every item whose id
//! parses to the row's id.

use vstd::prelude::*;
use crate::jellyfin::items::{build_jellyfin_etag, etag_of, infer_series_path_from_sample, opt_views, seconds_to_ticks, series_path_from_sample, slash_parent, slash_parent_of, ticks_per_second};
use crate::jellyfin::models::{pairs_view, strings_view, AspectRatio, BaseItemDto, ItemView, PersonDto, PersonView};
use crate::jellyfin::rows::{format_jellyfin_date, jellyfin_date};
use crate::numbers::{uuid_string, uuid_text};
use crate::outside::{parse_uuid, str_to_lowercase, uuid_parse};
use crate::text::{lowercase_text, chars_of, clone_opt, opt_view, owned, str_is};

verus! {

/// A media library's row: poster, timestamps (RFC 3339), first root path and
/// the newest addition to it.
pub struct CollectionShapeRow {
    pub id: u128,
    pub poster_path: Option<String>,
    pub created_at: Option<String>,
    pub updated_at: Option<String>,
    pub root_path: Option<String>,
    pub date_last_media_added: Option<String>,
}

/// A movie's row with its largest available file. Its rating is a floating
/// point value and is applied outside the library.
pub struct MovieShapeRow {
    pub id: u128,
    pub updated_at: Option<String>,
    pub video_path: Option<String>,
    pub video_checksum: Option<String>,
    pub video_created_at: Option<String>,
    pub video_updated_at: Option<String>,
}

/// A series' row: last air date (`YYYY-MM-DD`), total episode runtime and
/// its largest available episode file.
pub struct SeriesShapeRow {
    pub id: u128,
    pub last_air_date: Option<String>,
    pub updated_at: Option<String>,
    pub total_runtime: i64,
    pub sample_path: Option<String>,
    pub sample_checksum: Option<String>,
    pub sample_updated_at: Option<String>,
}

/// A season's row with its series and its largest available episode file;
/// `air_year` is the year of `air_date`.
pub struct SeasonShapeRow {
    pub id: u128,
    pub tv_show_id: u128,
    pub air_date: Option<String>,
    pub air_year: Option<i32>,
    pub show_year: Option<i32>,
    pub series_poster_path: Option<String>,
    pub sample_path: Option<String>,
    pub sample_checksum: Option<String>,
    pub sample_created_at: Option<String>,
    pub sample_updated_at: Option<String>,
}

/// An episode's row with its series' artwork and its largest available file.
pub struct EpisodeShapeRow {
    pub id: u128,
    pub tv_show_id: u128,
    pub air_date: Option<String>,
    pub series_poster_path: Option<String>,
    pub series_backdrop_path: Option<String>,
    pub has_series_logo: bool,
    pub sample_path: Option<String>,
    pub sample_checksum: Option<String>,
    pub sample_created_at: Option<String>,
    pub sample_updated_at: Option<String>,
}

/// A row of any of the five kinds.
pub enum ShapeRow {
    Collection(CollectionShapeRow),
    Movie(MovieShapeRow),
    Series(SeriesShapeRow),
    Season(SeasonShapeRow),
    Episode(EpisodeShapeRow),
}

pub open spec fn shape_row_id(r: ShapeRow) -> u128 {
    match r {
        ShapeRow::Collection(c) => c.id,
        ShapeRow::Movie(m) => m.id,
        ShapeRow::Series(s) => s.id,
        ShapeRow::Season(s) => s.id,
        ShapeRow::Episode(e) => e.id,
    }
}

/// `o`, or `d` when `o` is empty.
pub open spec fn or_else<T>(o: Option<T>, d: Option<T>) -> Option<T> {
    match o {
        Some(x) => Some(x),
        None => d,
    }
}

/// Whether a key/value list has an entry for `k`.
pub open spec fn has_key(pairs: Seq<(Seq<char>, Seq<char>)>, k: Seq<char>) -> bool {
    exists|i: int| 0 <= i < pairs.len() && #[trigger] pairs[i].0 == k
}

/// The list with an entry `k → v` added when it has none for `k`.
pub open spec fn with_default_entry(
    pairs: Seq<(Seq<char>, Seq<char>)>,
    k: Seq<char>,
    v: Seq<char>,
) -> Seq<(Seq<char>, Seq<char>)> {
    if has_key(pairs, k) {
        pairs
    } else {
        pairs.push((k, v))
    }
}

/// The ETag of an item with a row's checksum: the checksum when there is
/// one, else the id joined with the given parts.
pub open spec fn checksum_etag(
    checksum: Option<String>,
    id: Seq<char>,
    parts: Seq<Option<Seq<char>>>,
) -> Seq<char> {
    match checksum {
        Some(c) => c@,
        None => etag_of(id, parts),
    }
}

/// A library folder completed with its library's row.
pub open spec fn collection_patch(item: ItemView, r: CollectionShapeRow) -> ItemView {
    let with_poster = r.poster_path is Some;
    ItemView {
        date_created: opt_view(r.created_at),
        date_last_media_added: or_else(opt_view(r.date_last_media_added), opt_view(r.created_at)),
        etag: Some(
            etag_of(item.id, seq![opt_view(r.updated_at), opt_view(r.root_path), item.collection_type]),
        ),
        parent_id: or_else(item.parent_id, Some("root"@)),
        path: or_else(item.path, opt_view(r.root_path)),
        people: or_else(item.people, Some(Seq::empty())),
        sort_name: or_else(item.sort_name, Some(lowercase_text(item.name))),
        special_feature_count: Some(0),
        primary_image_aspect_ratio: if with_poster {
            Some(AspectRatio { width: 2, height: 3 })
        } else {
            item.primary_image_aspect_ratio
        },
        image_tags: if with_poster {
            with_default_entry(item.image_tags, "Primary"@, item.id)
        } else {
            item.image_tags
        },
        ..item
    }
}

/// The fields an item takes from its largest video file (creation time,
/// path and ETag), each only where the item has none yet.
pub open spec fn file_patch(
    item: ItemView,
    date_created: Option<Seq<char>>,
    path: Option<Seq<char>>,
    etag: Seq<char>,
) -> ItemView {
    ItemView {
        date_created: or_else(item.date_created, date_created),
        path: or_else(item.path, path),
        etag: or_else(item.etag, Some(etag)),
        ..item
    }
}

/// A calendar date as a Jellyfin timestamp, when there is one.
pub open spec fn opt_timestamp(d: Option<String>) -> Option<Seq<char>> {
    match d {
        Some(x) => Some(jellyfin_date(x@)),
        None => None,
    }
}

/// A movie completed with its row.
pub open spec fn movie_patch(item: ItemView, r: MovieShapeRow) -> ItemView {
    let filled = file_patch(
        item,
        or_else(opt_view(r.video_created_at), opt_view(r.video_updated_at)),
        opt_view(r.video_path),
        checksum_etag(
            r.video_checksum,
            item.id,
            seq![opt_view(r.updated_at), opt_view(r.video_updated_at), opt_view(r.video_path)],
        ),
    );
    ItemView { special_feature_count: Some(0), ..filled }
}

/// A series completed with its row. The total runtime counts when positive,
/// narrowed to 32 bits as an `as i32` cast does.
pub open spec fn series_patch(item: ItemView, r: SeriesShapeRow) -> ItemView {
    let filled = file_patch(
        item,
        None,
        match r.sample_path {
            Some(p) => series_path_from_sample(p@),
            None => None,
        },
        checksum_etag(
            r.sample_checksum,
            item.id,
            seq![opt_view(r.updated_at), opt_view(r.sample_updated_at), opt_view(r.sample_path)],
        ),
    );
    ItemView {
        end_date: or_else(item.end_date, opt_timestamp(r.last_air_date)),
        run_time_ticks: if item.run_time_ticks is None && r.total_runtime > 0 {
            Some(((r.total_runtime as i32) * ticks_per_second()) as i64)
        } else {
            item.run_time_ticks
        },
        special_feature_count: Some(0),
        ..filled
    }
}

/// A season's file fields: the file's creation time (else its air date),
/// the file's directory and the checksum ETag.
pub open spec fn season_file_patch(item: ItemView, r: SeasonShapeRow) -> ItemView {
    file_patch(
        item,
        or_else(opt_view(r.sample_created_at), opt_timestamp(r.air_date)),
        match r.sample_path {
            Some(p) => slash_parent_of(p@),
            None => None,
        },
        checksum_etag(
            r.sample_checksum,
            item.id,
            seq![opt_view(r.sample_updated_at), opt_view(r.sample_path)],
        ),
    )
}

/// A season completed with its row.
pub open spec fn season_patch(item: ItemView, r: SeasonShapeRow) -> ItemView {
    let tv = uuid_text(r.tv_show_id);
    let filled = season_file_patch(item, r);
    ItemView {
        parent_thumb_item_id: or_else(item.parent_thumb_item_id, Some(tv)),
        parent_thumb_image_tag: if item.parent_thumb_image_tag is None
            && r.series_poster_path is Some {
            Some(tv)
        } else {
            item.parent_thumb_image_tag
        },
        production_year: or_else(item.production_year, or_else(r.air_year, r.show_year)),
        recursive_item_count: or_else(item.recursive_item_count, item.child_count),
        sort_name: or_else(item.sort_name, Some(lowercase_text(item.name))),
        special_feature_count: Some(0),
        ..filled
    }
}

/// An episode's file fields: the file's creation time (else its air date),
/// the file's path and the checksum ETag.
pub open spec fn episode_file_patch(item: ItemView, r: EpisodeShapeRow) -> ItemView {
    file_patch(
        item,
        or_else(opt_view(r.sample_created_at), opt_timestamp(r.air_date)),
        opt_view(r.sample_path),
        checksum_etag(
            r.sample_checksum,
            item.id,
            seq![opt_view(r.sample_updated_at), opt_view(r.sample_path)],
        ),
    )
}

/// An episode's references to its series' artwork (backdrop, poster and
/// logo), each only where the item has none and the series has the image.
pub open spec fn episode_art_patch(item: ItemView, r: EpisodeShapeRow) -> ItemView {
    let show = uuid_text(r.tv_show_id);
    ItemView {
        parent_backdrop_item_id: or_else(item.parent_backdrop_item_id, Some(show)),
        parent_backdrop_image_tags: if item.parent_backdrop_image_tags is None
            && r.series_backdrop_path is Some {
            Some(seq![show])
        } else {
            item.parent_backdrop_image_tags
        },
        parent_thumb_item_id: or_else(item.parent_thumb_item_id, Some(show)),
        parent_thumb_image_tag: if item.parent_thumb_image_tag is None
            && r.series_poster_path is Some {
            Some(show)
        } else {
            item.parent_thumb_image_tag
        },
        series_primary_image_tag: if item.series_primary_image_tag is None
            && r.series_poster_path is Some {
            Some(show)
        } else {
            item.series_primary_image_tag
        },
        parent_logo_item_id: if item.parent_logo_item_id is None && r.has_series_logo {
            Some(show)
        } else {
            item.parent_logo_item_id
        },
        parent_logo_image_tag: if item.parent_logo_image_tag is None && r.has_series_logo {
            Some(show)
        } else {
            item.parent_logo_image_tag
        },
        ..item
    }
}

/// An episode completed with its row.
pub open spec fn episode_patch(item: ItemView, r: EpisodeShapeRow) -> ItemView {
    let filled = episode_art_patch(episode_file_patch(item, r), r);
    ItemView {
        sort_name: or_else(item.sort_name, Some(lowercase_text(item.name))),
        special_feature_count: Some(0),
        ..filled
    }
}

/// An item completed with a row of any kind.
pub open spec fn shape_patch(item: ItemView, r: ShapeRow) -> ItemView {
    match r {
        ShapeRow::Collection(c) => collection_patch(item, c),
        ShapeRow::Movie(m) => movie_patch(item, m),
        ShapeRow::Series(s) => series_patch(item, s),
        ShapeRow::Season(s) => season_patch(item, s),
        ShapeRow::Episode(e) => episode_patch(item, e),
    }
}

/// The contents of a list of items.
pub open spec fn items_view(v: Seq<BaseItemDto>) -> Seq<ItemView> {
    v.map_values(|d: BaseItemDto| d@)
}

/// Every item whose id parses to the row's id, completed with the row.
pub open spec fn apply_row(items: Seq<ItemView>, r: ShapeRow) -> Seq<ItemView> {
    Seq::new(
        items.len(),
        |i: int|
            if uuid_parse(items[i].id) == Some(shape_row_id(r)) {
                shape_patch(items[i], r)
            } else {
                items[i]
            },
    )
}

/// The items after applying the rows in order.
pub open spec fn apply_rows(items: Seq<ItemView>, rows: Seq<ShapeRow>) -> Seq<ItemView>
    decreases rows.len(),
{
    if rows.len() == 0 {
        items
    } else {
        apply_row(apply_rows(items, rows.drop_last()), rows.last())
    }
}

/// Adds `Primary → id` to the image tags unless they have a `Primary` entry.
fn ensure_primary_tag(tags: &mut Vec<(String, String)>, id: &String)
    ensures
        pairs_view(*final(tags)) == with_default_entry(pairs_view(*old(tags)), "Primary"@, id@),
{
    let ghost pv = pairs_view(*tags);
    let mut found = false;
    let mut i: usize = 0;
    while i < tags.len()
        invariant
            i <= tags.len(),
            pv == pairs_view(*tags),
            found == (exists|j: int| 0 <= j < i && #[trigger] pv[j].0 == "Primary"@),
        decreases tags.len() - i,
    {
        let k = chars_of(tags[i].0.as_str());
        assert(pv[i as int].0 == k@);
        if str_is(&k, "Primary") {
            found = true;
        }
        i = i + 1;
    }
    if !found {
        tags.push((owned("Primary"), id.clone()));
        assert(pairs_view(*tags) =~= pv.push(("Primary"@, id@)));
    }
}

fn or_insert_root(o: &mut Option<String>)
    ensures
        opt_view(*final(o)) == or_else(opt_view(*old(o)), Some("root"@)),
{
    if o.is_none() {
        *o = Some(owned("root"));
    }
}

/// Completes a library folder with its library's row.
pub fn patch_collection(item: &mut BaseItemDto, r: &CollectionShapeRow)
    ensures
        final(item)@ == collection_patch(old(item)@, *r),
{
    let ghost before = item@;
    let parts = vec![clone_opt(&r.updated_at), clone_opt(&r.root_path), clone_opt(&item.collection_type)];
    assert(opt_views(parts@) =~= seq![opt_view(r.updated_at), opt_view(r.root_path), before.collection_type]);
    let etag = build_jellyfin_etag(item.id.as_str(), parts.as_slice());
    item.date_created = clone_opt(&r.created_at);
    item.date_last_media_added = match &r.date_last_media_added {
        Some(d) => Some(d.clone()),
        None => clone_opt(&r.created_at),
    };
    item.etag = Some(etag);
    or_insert_root(&mut item.parent_id);
    if item.path.is_none() {
        item.path = clone_opt(&r.root_path);
    }
    if item.people.is_none() {
        let empty: Vec<PersonDto> = Vec::new();
        assert(empty@.map_values(|p: PersonDto| p@) =~= Seq::<PersonView>::empty());
        item.people = Some(empty);
    }
    if item.sort_name.is_none() {
        item.sort_name = Some(str_to_lowercase(item.name.as_str()));
    }
    item.special_feature_count = Some(0);
    if r.poster_path.is_some() {
        item.primary_image_aspect_ratio = Some(AspectRatio { width: 2, height: 3 });
        let id = item.id.clone();
        ensure_primary_tag(&mut item.image_tags, &id);
    }
}

/// The row's checksum when it has one, else the ETag built from the id and parts.
fn checksum_or_etag(checksum: &Option<String>, id: &str, parts: &[Option<String>]) -> (r: String)
    ensures
        r@ == checksum_etag(*checksum, id@, opt_views(parts@)),
{
    match checksum {
        Some(c) => c.clone(),
        None => build_jellyfin_etag(id, parts),
    }
}

/// The first of two optional texts that is present.
fn first_present(a: &Option<String>, b: &Option<String>) -> (r: Option<String>)
    ensures
        opt_view(r) == or_else(opt_view(*a), opt_view(*b)),
{
    match a {
        Some(x) => Some(x.clone()),
        None => clone_opt(b),
    }
}

/// A calendar date as a Jellyfin timestamp, when there is one.
fn opt_jellyfin_timestamp(d: &Option<String>) -> (r: Option<String>)
    ensures
        opt_view(r) == opt_timestamp(*d),
{
    match d {
        Some(x) => Some(format_jellyfin_date(x.as_str())),
        None => None,
    }
}

/// The file's creation time, else the air date as a timestamp.
fn created_or_aired(created: &Option<String>, air_date: &Option<String>) -> (r: Option<String>)
    ensures
        opt_view(r) == or_else(opt_view(*created), opt_timestamp(*air_date)),
{
    match created {
        Some(x) => Some(x.clone()),
        None => opt_jellyfin_timestamp(air_date),
    }
}

/// Fills the creation time, path and ETag where the item has none; the ETag
/// is the checksum when there is one, else built from the id and parts.
fn fill_file_fields(
    item: &mut BaseItemDto,
    date_created: Option<String>,
    path: Option<String>,
    checksum: &Option<String>,
    parts: Vec<Option<String>>,
)
    ensures
        final(item)@ == file_patch(
            old(item)@,
            opt_view(date_created),
            opt_view(path),
            checksum_etag(*checksum, old(item)@.id, opt_views(parts@)),
        ),
{
    if item.date_created.is_none() {
        item.date_created = date_created;
    }
    if item.path.is_none() {
        item.path = path;
    }
    if item.etag.is_none() {
        item.etag = Some(checksum_or_etag(checksum, item.id.as_str(), parts.as_slice()));
    }
}

/// Completes a movie with its row.
pub fn patch_movie(item: &mut BaseItemDto, r: &MovieShapeRow)
    ensures
        final(item)@ == movie_patch(old(item)@, *r),
{
    let parts = vec![clone_opt(&r.updated_at), clone_opt(&r.video_updated_at), clone_opt(&r.video_path)];
    assert(opt_views(parts@) =~= seq![opt_view(r.updated_at), opt_view(r.video_updated_at), opt_view(r.video_path)]);
    let created = first_present(&r.video_created_at, &r.video_updated_at);
    fill_file_fields(item, created, clone_opt(&r.video_path), &r.video_checksum, parts);
    item.special_feature_count = Some(0);
}

/// Completes a series with its row.
pub fn patch_series(item: &mut BaseItemDto, r: &SeriesShapeRow)
    ensures
        final(item)@ == series_patch(old(item)@, *r),
{
    let parts = vec![clone_opt(&r.updated_at), clone_opt(&r.sample_updated_at), clone_opt(&r.sample_path)];
    assert(opt_views(parts@) =~= seq![opt_view(r.updated_at), opt_view(r.sample_updated_at), opt_view(r.sample_path)]);
    let path = match &r.sample_path {
        Some(p) => infer_series_path_from_sample(p.as_str()),
        None => None,
    };
    fill_file_fields(item, None, path, &r.sample_checksum, parts);
    if item.end_date.is_none() {
        item.end_date = opt_jellyfin_timestamp(&r.last_air_date);
    }
    if item.run_time_ticks.is_none() && r.total_runtime > 0 {
        let seconds: i32 = #[verifier::truncate] (r.total_runtime as i32);
        item.run_time_ticks = Some(seconds_to_ticks(seconds));
    }
    item.special_feature_count = Some(0);
}

/// Completes a season with its row.
pub fn patch_season(item: &mut BaseItemDto, r: &SeasonShapeRow)
    ensures
        final(item)@ == season_patch(old(item)@, *r),
{
    let parts = vec![clone_opt(&r.sample_updated_at), clone_opt(&r.sample_path)];
    assert(opt_views(parts@) =~= seq![opt_view(r.sample_updated_at), opt_view(r.sample_path)]);
    let created = created_or_aired(&r.sample_created_at, &r.air_date);
    let path = match &r.sample_path {
        Some(p) => slash_parent(p.as_str()),
        None => None,
    };
    fill_file_fields(item, created, path, &r.sample_checksum, parts);
    if item.parent_thumb_item_id.is_none() {
        item.parent_thumb_item_id = Some(uuid_string(r.tv_show_id));
    }
    if item.parent_thumb_image_tag.is_none() && r.series_poster_path.is_some() {
        item.parent_thumb_image_tag = Some(uuid_string(r.tv_show_id));
    }
    if item.production_year.is_none() {
        item.production_year = match r.air_year {
            Some(y) => Some(y),
            None => r.show_year,
        };
    }
    if item.recursive_item_count.is_none() {
        item.recursive_item_count = item.child_count;
    }
    if item.sort_name.is_none() {
        item.sort_name = Some(str_to_lowercase(item.name.as_str()));
    }
    item.special_feature_count = Some(0);
}

/// Points an episode at its series' artwork.
fn fill_episode_art(item: &mut BaseItemDto, r: &EpisodeShapeRow)
    ensures
        final(item)@ == episode_art_patch(old(item)@, *r),
{
    let show_id = uuid_string(r.tv_show_id);
    if item.parent_backdrop_item_id.is_none() {
        item.parent_backdrop_item_id = Some(show_id.clone());
    }
    if item.parent_backdrop_image_tags.is_none() && r.series_backdrop_path.is_some() {
        let tags = vec![show_id.clone()];
        assert(strings_view(tags) =~= seq![show_id@]);
        item.parent_backdrop_image_tags = Some(tags);
    }
    if item.parent_thumb_item_id.is_none() {
        item.parent_thumb_item_id = Some(show_id.clone());
    }
    if item.parent_thumb_image_tag.is_none() && r.series_poster_path.is_some() {
        item.parent_thumb_image_tag = Some(show_id.clone());
    }
    if item.series_primary_image_tag.is_none() && r.series_poster_path.is_some() {
        item.series_primary_image_tag = Some(show_id.clone());
    }
    if item.parent_logo_item_id.is_none() && r.has_series_logo {
        item.parent_logo_item_id = Some(show_id.clone());
    }
    if item.parent_logo_image_tag.is_none() && r.has_series_logo {
        item.parent_logo_image_tag = Some(show_id);
    }
}

/// Completes an episode with its row.
pub fn patch_episode(item: &mut BaseItemDto, r: &EpisodeShapeRow)
    ensures
        final(item)@ == episode_patch(old(item)@, *r),
{
    let parts = vec![clone_opt(&r.sample_updated_at), clone_opt(&r.sample_path)];
    assert(opt_views(parts@) =~= seq![opt_view(r.sample_updated_at), opt_view(r.sample_path)]);
    let created = created_or_aired(&r.sample_created_at, &r.air_date);
    fill_file_fields(item, created, clone_opt(&r.sample_path), &r.sample_checksum, parts);
    fill_episode_art(item, r);
    if item.sort_name.is_none() {
        item.sort_name = Some(str_to_lowercase(item.name.as_str()));
    }
    item.special_feature_count = Some(0);
}

/// Completes an item with a row of any kind.
pub fn patch_item(item: &mut BaseItemDto, r: &ShapeRow)
    ensures
        final(item)@ == shape_patch(old(item)@, *r),
{
    match r {
        ShapeRow::Collection(c) => patch_collection(item, c),
        ShapeRow::Movie(m) => patch_movie(item, m),
        ShapeRow::Series(s) => patch_series(item, s),
        ShapeRow::Season(s) => patch_season(item, s),
        ShapeRow::Episode(e) => patch_episode(item, e),
    }
}

/// The id of a row of any kind.
pub fn row_id(r: &ShapeRow) -> (id: u128)
    ensures
        id == shape_row_id(*r),
{
    match r {
        ShapeRow::Collection(c) => c.id,
        ShapeRow::Movie(m) => m.id,
        ShapeRow::Series(s) => s.id,
        ShapeRow::Season(s) => s.id,
        ShapeRow::Episode(e) => e.id,
    }
}

/// Completes every item whose id parses to the row's id; the others stay as
/// they are.
pub fn apply_shape_row(items: &mut Vec<BaseItemDto>, row: &ShapeRow)
    ensures
        items_view(final(items)@) == apply_row(items_view(old(items)@), *row),
{
    let ghost before = items_view(items@);
    let ghost after = apply_row(before, *row);
    let id = row_id(row);
    let mut i: usize = 0;
    while i < items.len()
        invariant
            i <= items.len(),
            items.len() == before.len(),
            id == shape_row_id(*row),
            before == items_view(old(items)@),
            after == apply_row(before, *row),
            forall|j: int| 0 <= j < i ==> #[trigger] items@[j]@ == after[j],
            forall|j: int| i <= j < items.len() ==> #[trigger] items@[j]@ == before[j],
        decreases items.len() - i,
    {
        let parsed = parse_uuid(items[i].id.as_str());
        let hit = match parsed {
            Some(v) => v == id,
            None => false,
        };
        if hit {
            patch_item(&mut items[i], row);
        }
        i = i + 1;
    }
    assert(items_view(items@) =~= after);
}

/// Completes the items with each row in turn.
pub fn apply_shape_rows(items: &mut Vec<BaseItemDto>, rows: &Vec<ShapeRow>)
    ensures
        items_view(final(items)@) == apply_rows(items_view(old(items)@), rows@),
{
    let ghost before = items_view(items@);
    for k in 0..rows.len()
        invariant
            before == items_view(old(items)@),
            items_view(items@) == apply_rows(before, rows@.take(k as int)),
    {
        assert(rows@.take(k + 1).drop_last() =~= rows@.take(k as int));
        apply_shape_row(items, &rows[k]);
    }
    assert(rows@.take(rows@.len() as int) =~= rows@);
}

/// Whether no row names the id `id` parses to.
pub open spec fn unnamed_by(rows: Seq<ShapeRow>, id: Seq<char>) -> bool {
    forall|k: int| 0 <= k < rows.len() ==> uuid_parse(id) != Some(#[trigger] shape_row_id(rows[k]))
}

/// Completing items with rows keeps the list: as many items, each with its
/// id, type and name; an item that no row names is left as it is.
pub proof fn law_shape_rows_keep_items(items: Seq<ItemView>, rows: Seq<ShapeRow>)
    ensures
        apply_rows(items, rows).len() == items.len(),
        forall|i: int|
            0 <= i < items.len() ==> {
                &&& (#[trigger] apply_rows(items, rows)[i]).id == items[i].id
                &&& apply_rows(items, rows)[i].item_type == items[i].item_type
                &&& apply_rows(items, rows)[i].name == items[i].name
            },
        forall|i: int|
            0 <= i < items.len() && unnamed_by(rows, items[i].id) ==> #[trigger] apply_rows(items, rows)[i]
                == items[i],
    decreases rows.len(),
{
    if rows.len() > 0 {
        let rest = rows.drop_last();
        law_shape_rows_keep_items(items, rest);
        let prev = apply_rows(items, rest);
        let cur = apply_rows(items, rows);
        assert(cur == apply_row(prev, rows.last()));
        assert forall|i: int| 0 <= i < items.len() implies {
            &&& (#[trigger] cur[i]).id == items[i].id
            &&& cur[i].item_type == items[i].item_type
            &&& cur[i].name == items[i].name
        } by {
            assert(prev[i].id == items[i].id);
        }
        assert forall|i: int| 0 <= i < items.len() && unnamed_by(rows, items[i].id) implies #[trigger] cur[i]
            == items[i] by {
            assert forall|k: int| 0 <= k < rest.len() implies uuid_parse(items[i].id) != Some(
                #[trigger] shape_row_id(rest[k]),
            ) by {
                assert(rest[k] == rows[k]);
            }
            assert(unnamed_by(rest, items[i].id));
            assert(prev[i] == items[i]);
            assert(uuid_parse(items[i].id) != Some(shape_row_id(rows[rows.len() - 1])));
        }
    }
}

/// The ids of the items of a type, in order, for the items whose id parses.
pub open spec fn target_ids(items: Seq<ItemView>, item_type: Seq<char>) -> Seq<u128>
    decreases items.len(),
{
    if items.len() == 0 {
        Seq::empty()
    } else {
        let pre = target_ids(items.drop_last(), item_type);
        let last = items.last();
        if last.item_type == item_type && uuid_parse(last.id) is Some {
            pre.push(uuid_parse(last.id)->0)
        } else {
            pre
        }
    }
}

/// The ids to fetch rows for, by kind of row.
pub struct ShapeTargets {
    pub collections: Vec<u128>,
    pub movies: Vec<u128>,
    pub series: Vec<u128>,
    pub seasons: Vec<u128>,
    pub episodes: Vec<u128>,
}

/// The ids whose rows complete the items: library folders, movies, series,
/// seasons and episodes, each list in the items' order.
pub fn shape_targets(items: &Vec<BaseItemDto>) -> (t: ShapeTargets)
    ensures
        t.collections@ == target_ids(items_view(items@), "CollectionFolder"@),
        t.movies@ == target_ids(items_view(items@), "Movie"@),
        t.series@ == target_ids(items_view(items@), "Series"@),
        t.seasons@ == target_ids(items_view(items@), "Season"@),
        t.episodes@ == target_ids(items_view(items@), "Episode"@),
{
    let ghost iv = items_view(items@);
    let mut t = ShapeTargets {
        collections: Vec::new(),
        movies: Vec::new(),
        series: Vec::new(),
        seasons: Vec::new(),
        episodes: Vec::new(),
    };
    for i in 0..items.len()
        invariant
            iv == items_view(items@),
            t.collections@ == target_ids(iv.take(i as int), "CollectionFolder"@),
            t.movies@ == target_ids(iv.take(i as int), "Movie"@),
            t.series@ == target_ids(iv.take(i as int), "Series"@),
            t.seasons@ == target_ids(iv.take(i as int), "Season"@),
            t.episodes@ == target_ids(iv.take(i as int), "Episode"@),
    {
        let ghost pre = iv.take(i as int);
        proof {
            reveal_strlit("CollectionFolder");
            reveal_strlit("Movie");
            reveal_strlit("Series");
            reveal_strlit("Season");
            reveal_strlit("Episode");
            assert("Series"@[2] != "Season"@[2]);
            assert("CollectionFolder"@.len() == 16 && "Movie"@.len() == 5);
            assert("Series"@.len() == 6 && "Season"@.len() == 6 && "Episode"@.len() == 7);
        }
        assert(iv.take(i + 1).drop_last() =~= pre);
        assert(iv.take(i + 1).last() == items@[i as int]@);
        if let Some(id) = parse_uuid(items[i].id.as_str()) {
            let kind = chars_of(items[i].item_type.as_str());
            if str_is(&kind, "CollectionFolder") {
                t.collections.push(id);
            } else if str_is(&kind, "Movie") {
                t.movies.push(id);
            } else if str_is(&kind, "Series") {
                t.series.push(id);
            } else if str_is(&kind, "Season") {
                t.seasons.push(id);
            } else if str_is(&kind, "Episode") {
                t.episodes.push(id);
            }
        }
    }
    assert(iv.take(iv.len() as int) =~= iv);
    t
}


/// Completing a movie, series, season or episode only fills what it lacks:
/// a path, ETag or creation date it already has is kept, and each gets no
/// special features. A movie lacking them takes its largest file's path and
/// its checksum as ETag (else an ETag built from its id); a series lacking
/// a runtime takes its episodes' total when positive. A library folder
/// keeps its parent (else the root), path and sort name (else its
/// lowercased name), and has a primary image tag when its library has a
/// poster.
pub proof fn law_shape_fills_missing(
    item: ItemView,
    c: CollectionShapeRow,
    m: MovieShapeRow,
    s: SeriesShapeRow,
    se: SeasonShapeRow,
    e: EpisodeShapeRow,
)
    ensures
        ({
            let pm = movie_patch(item, m);
            let ps = series_patch(item, s);
            let pse = season_patch(item, se);
            let pe = episode_patch(item, e);
            &&& item.path is Some ==> pm.path == item.path && ps.path == item.path && pse.path == item.path
                && pe.path == item.path
            &&& item.etag is Some ==> pm.etag == item.etag && ps.etag == item.etag && pse.etag == item.etag
                && pe.etag == item.etag
            &&& item.date_created is Some ==> pm.date_created == item.date_created && pse.date_created
                == item.date_created && pe.date_created == item.date_created
            &&& pm.special_feature_count == Some(0i32) && ps.special_feature_count == Some(0i32)
                && pse.special_feature_count == Some(0i32) && pe.special_feature_count == Some(0i32)
            &&& item.path is None ==> pm.path == opt_view(m.video_path)
            &&& (item.etag is None && m.video_checksum matches Some(k)) ==> pm.etag == Some(
                m.video_checksum->0@,
            )
            &&& (item.etag is None && m.video_checksum is None) ==> pm.etag == Some(
                etag_of(item.id, seq![opt_view(m.updated_at), opt_view(m.video_updated_at), opt_view(m.video_path)]),
            )
            &&& item.run_time_ticks is Some ==> ps.run_time_ticks == item.run_time_ticks
            &&& (item.run_time_ticks is None && s.total_runtime <= 0) ==> ps.run_time_ticks is None
        }),
        ({
            let pc = collection_patch(item, c);
            &&& pc.parent_id == (match item.parent_id {
                Some(p) => Some(p),
                None => Some("root"@),
            })
            &&& item.path is Some ==> pc.path == item.path
            &&& pc.sort_name == (match item.sort_name {
                Some(n) => Some(n),
                None => Some(lowercase_text(item.name)),
            })
            &&& c.poster_path is Some ==> has_key(pc.image_tags, "Primary"@)
            &&& c.poster_path is None ==> pc.image_tags == item.image_tags
            &&& pc.special_feature_count == Some(0i32)
        }),
{
    let pc = collection_patch(item, c);
    if c.poster_path is Some {
        if !has_key(item.image_tags, "Primary"@) {
            let t = item.image_tags.push(("Primary"@, item.id));
            assert(t[t.len() - 1].0 == "Primary"@);
        }
    }
}

} // verus!
