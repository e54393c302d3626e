//! Browse requests: the query parameters of the item endpoints, and which
//! lookup answers a request (by ids, by person, or by library and type),
//! with its paging window.

use vstd::prelude::*;
use crate::jellyfin::items::{fields_name, has_field};
use crate::numbers::{uuid_string, uuid_text};
use crate::outside::{parse_uuid, uuid_parse};
use crate::text::{chars_of, concat_chars, contains_chars, contains_seq, eq_ignore_ascii_case, eq_ignore_ascii_case_chars, opt_view, owned, seq_views, split_chars, split_on, str_is, string_of, trim, trim_chars};

verus! {

/// The query of `GET /Items`.
pub struct ItemsQuery {
    pub parent_id: Option<String>,
    pub include_item_types: Option<String>,
    pub recursive: Option<bool>,
    pub sort_by: Option<String>,
    pub sort_order: Option<String>,
    pub start_index: Option<i64>,
    pub limit: Option<i64>,
    pub fields: Option<String>,
    pub search_term: Option<String>,
    pub filters: Option<String>,
    pub user_id: Option<String>,
    pub enable_user_data: Option<bool>,
    pub enable_images: Option<bool>,
    pub ids: Option<String>,
    pub is_favorite: Option<bool>,
    pub person_ids: Option<String>,
}

impl Default for ItemsQuery {
    fn default() -> (r: Self)
        ensures
            r.parent_id is None && r.include_item_types is None && r.recursive is None,
            r.sort_by is None && r.sort_order is None && r.start_index is None,
            r.limit is None && r.fields is None && r.search_term is None,
            r.filters is None && r.user_id is None && r.enable_user_data is None,
            r.enable_images is None && r.ids is None && r.is_favorite is None,
            r.person_ids is None,
    {
        ItemsQuery {
            parent_id: None,
            include_item_types: None,
            recursive: None,
            sort_by: None,
            sort_order: None,
            start_index: None,
            limit: None,
            fields: None,
            search_term: None,
            filters: None,
            user_id: None,
            enable_user_data: None,
            enable_images: None,
            ids: None,
            is_favorite: None,
            person_ids: None,
        }
    }
}

/// The query of `GET /Shows/{id}/Seasons`.
pub struct SeasonsQuery {
    pub user_id: Option<String>,
    pub fields: Option<String>,
    pub enable_images: Option<bool>,
    pub enable_user_data: Option<bool>,
}

impl Default for SeasonsQuery {
    fn default() -> (r: Self)
        ensures
            r.user_id is None && r.fields is None && r.enable_images is None,
            r.enable_user_data is None,
    {
        SeasonsQuery { user_id: None, fields: None, enable_images: None, enable_user_data: None }
    }
}

/// The query of `GET /Shows/{id}/Episodes`.
pub struct EpisodesQuery {
    pub season_id: Option<String>,
    pub user_id: Option<String>,
    pub fields: Option<String>,
    pub season: Option<i32>,
    pub start_index: Option<i64>,
    pub limit: Option<i64>,
    pub enable_images: Option<bool>,
    pub enable_user_data: Option<bool>,
}

impl Default for EpisodesQuery {
    fn default() -> (r: Self)
        ensures
            r.season_id is None && r.user_id is None && r.fields is None && r.season is None,
            r.start_index is None && r.limit is None && r.enable_images is None,
            r.enable_user_data is None,
    {
        EpisodesQuery {
            season_id: None,
            user_id: None,
            fields: None,
            season: None,
            start_index: None,
            limit: None,
            enable_images: None,
            enable_user_data: None,
        }
    }
}

/// The query of `GET /Items/Latest`.
pub struct LatestQuery {
    pub parent_id: Option<String>,
    pub limit: Option<i64>,
    pub fields: Option<String>,
    pub include_item_types: Option<String>,
    pub enable_images: Option<bool>,
    pub enable_user_data: Option<bool>,
}

impl Default for LatestQuery {
    fn default() -> (r: Self)
        ensures
            r.parent_id is None && r.limit is None && r.fields is None,
            r.include_item_types is None && r.enable_images is None && r.enable_user_data is None,
    {
        LatestQuery {
            parent_id: None,
            limit: None,
            fields: None,
            include_item_types: None,
            enable_images: None,
            enable_user_data: None,
        }
    }
}

/// The query of `GET /Shows/NextUp` (and `/Shows/Upcoming`).
pub struct NextUpQuery {
    pub user_id: Option<String>,
    pub series_id: Option<String>,
    pub parent_id: Option<String>,
    pub limit: Option<i64>,
    pub start_index: Option<i64>,
    pub fields: Option<String>,
    pub enable_images: Option<bool>,
    pub enable_user_data: Option<bool>,
    pub enable_resumable: Option<bool>,
}

impl Default for NextUpQuery {
    fn default() -> (r: Self)
        ensures
            r.user_id is None && r.series_id is None && r.parent_id is None && r.limit is None,
            r.start_index is None && r.fields is None && r.enable_images is None,
            r.enable_user_data is None && r.enable_resumable is None,
    {
        NextUpQuery {
            user_id: None,
            series_id: None,
            parent_id: None,
            limit: None,
            start_index: None,
            fields: None,
            enable_images: None,
            enable_user_data: None,
            enable_resumable: None,
        }
    }
}

/// The trimmed pieces of a comma-separated list.
pub open spec fn list_pieces(s: Seq<char>) -> Seq<Seq<char>> {
    split_on(s, ',').map_values(|p: Seq<char>| trim(p))
}

/// The trimmed pieces of a comma-separated list.
pub fn comma_pieces(s: &str) -> (r: Vec<String>)
    ensures
        r@.map_values(|x: String| x@) == list_pieces(s@),
{
    let v = chars_of(s);
    let parts = split_chars(&v, ',');
    let ghost pv = seq_views(parts@);
    let mut r: Vec<String> = Vec::new();
    for i in 0..parts.len()
        invariant
            pv == seq_views(parts@),
            pv == split_on(s@, ','),
            r@.map_values(|x: String| x@) == pv.take(i as int).map_values(|p: Seq<char>| trim(p)),
    {
        let ghost before = r@.map_values(|x: String| x@);
        let t = trim_chars(&parts[i]);
        r.push(string_of(&t));
        assert(pv[i as int] == parts@[i as int]@);
        assert(r@.map_values(|x: String| x@) =~= before.push(trim(pv[i as int])));
        assert(pv.take(i + 1) =~= pv.take(i as int).push(pv[i as int]));
        assert(r@.map_values(|x: String| x@) =~= pv.take(i + 1).map_values(|p: Seq<char>| trim(p)));
    }
    assert(pv.take(pv.len() as int) =~= pv);
    r
}

/// The ids among the pieces that parse as UUIDs, in order.
pub open spec fn parsed_ids(pieces: Seq<Seq<char>>) -> Seq<u128>
    decreases pieces.len(),
{
    if pieces.len() == 0 {
        Seq::empty()
    } else {
        let pre = parsed_ids(pieces.drop_last());
        match uuid_parse(pieces.last()) {
            Some(v) => pre.push(v),
            None => pre,
        }
    }
}

/// The ids named by an `Ids=` list, skipping the ones that do not parse.
pub fn requested_item_ids(ids: &str) -> (r: Vec<u128>)
    ensures
        r@ == parsed_ids(list_pieces(ids@)),
{
    let pieces = comma_pieces(ids);
    let ghost pv = pieces@.map_values(|x: String| x@);
    let mut r: Vec<u128> = Vec::new();
    for i in 0..pieces.len()
        invariant
            pv == pieces@.map_values(|x: String| x@),
            pv == list_pieces(ids@),
            r@ == parsed_ids(pv.take(i as int)),
    {
        assert(pv.take(i + 1).drop_last() =~= pv.take(i as int));
        assert(pv.take(i + 1).last() == pieces@[i as int]@);
        match parse_uuid(pieces[i].as_str()) {
            Some(v) => r.push(v),
            None => {},
        }
    }
    assert(pv.take(pv.len() as int) =~= pv);
    r
}

/// The ids an item-detail request looks up: the path id when it is a UUID,
/// else none (and the request finds nothing).
pub fn item_detail_ids(item_id: &str) -> (r: Vec<u128>)
    ensures
        r@ == match uuid_parse(item_id@) {
            Some(v) => seq![v],
            None => Seq::<u128>::empty(),
        },
{
    let mut r: Vec<u128> = Vec::new();
    match parse_uuid(item_id) {
        Some(v) => {
            r.push(v);
            assert(r@ =~= seq![v]);
        },
        None => {},
    }
    r
}

/// The user a query speaks for: its `UserId` when that parses, else the
/// authenticated user.
pub open spec fn query_user(user_id: Option<String>, auth_user: u128) -> u128 {
    match user_id {
        Some(s) => match uuid_parse(s@) {
            Some(v) => v,
            None => auth_user,
        },
        None => auth_user,
    }
}

fn user_of(user_id: &Option<String>, auth_user: u128) -> (r: u128)
    ensures
        r == query_user(*user_id, auth_user),
{
    match user_id {
        Some(s) => match parse_uuid(s.as_str()) {
            Some(v) => v,
            None => auth_user,
        },
        None => auth_user,
    }
}

/// The person a `PersonIds=` list names: its first piece, trimmed, when it
/// parses.
pub open spec fn query_person(person_ids: Option<String>) -> Option<u128> {
    match person_ids {
        Some(p) => uuid_parse(trim(split_on(p@, ',')[0])),
        None => None,
    }
}

/// A limit: the requested one (else the default), at most `cap`.
pub open spec fn capped(limit: Option<i64>, default: i64, cap: i64) -> i64 {
    let l = match limit {
        Some(x) => x,
        None => default,
    };
    if l < cap {
        l
    } else {
        cap
    }
}

/// The requested limit (else `default`), at most `cap`.
pub fn capped_limit(limit: Option<i64>, default: i64, cap: i64) -> (r: i64)
    ensures
        r == capped(limit, default, cap),
        r <= cap,
{
    let l = match limit {
        Some(x) => x,
        None => default,
    };
    if l < cap {
        l
    } else {
        cap
    }
}

/// What a browse lookup is given.
pub struct BrowseParams {
    pub user_id: u128,
    pub parent: Option<u128>,
    pub include_types: Vec<String>,
    pub search_term: String,
    pub is_resumable: bool,
    pub start: i64,
    pub limit: i64,
    pub sort_field: String,
    pub sort_dir: String,
    pub with_genres: bool,
}

/// The contents of [`BrowseParams`].
pub struct BrowseParamsView {
    pub user_id: u128,
    pub parent: Option<u128>,
    pub include_types: Seq<Seq<char>>,
    pub search_term: Seq<char>,
    pub is_resumable: bool,
    pub start: i64,
    pub limit: i64,
    pub sort_field: Seq<char>,
    pub sort_dir: Seq<char>,
    pub with_genres: bool,
}

impl View for BrowseParams {
    type V = BrowseParamsView;

    open spec fn view(&self) -> BrowseParamsView {
        BrowseParamsView {
            user_id: self.user_id,
            parent: self.parent,
            include_types: self.include_types@.map_values(|x: String| x@),
            search_term: self.search_term@,
            is_resumable: self.is_resumable,
            start: self.start,
            limit: self.limit,
            sort_field: self.sort_field@,
            sort_dir: self.sort_dir@,
            with_genres: self.with_genres,
        }
    }
}

/// The browse parameters of an `/Items` query: the user, the parent
/// library or folder (when its id parses), the requested item types, the
/// search term (empty when none), whether only resumable items are wanted
/// (`Filters` mentions `IsResumable`), the window (start 0 and at most 500
/// items, 50 by default), the sort field (`SortName` by default), the sort
/// direction (`DESC` for a case-insensitive `Descending`, else `ASC`) and
/// whether genres are wanted (`Fields` names `Genres`).
pub open spec fn browse_params_of(q: ItemsQuery, auth_user: u128) -> BrowseParamsView {
    BrowseParamsView {
        user_id: query_user(q.user_id, auth_user),
        parent: match q.parent_id {
            Some(p) => uuid_parse(p@),
            None => None,
        },
        include_types: match q.include_item_types {
            Some(t) => list_pieces(t@),
            None => Seq::empty(),
        },
        search_term: match q.search_term {
            Some(s) => s@,
            None => Seq::empty(),
        },
        is_resumable: match q.filters {
            Some(f) => contains_seq(f@, "IsResumable"@),
            None => false,
        },
        start: match q.start_index {
            Some(s) => s,
            None => 0,
        },
        limit: capped(q.limit, 50, 500),
        sort_field: match q.sort_by {
            Some(s) => s@,
            None => "SortName"@,
        },
        sort_dir: if (match q.sort_order {
            Some(o) => eq_ignore_ascii_case(o@, "Descending"@),
            None => false,
        }) {
            "DESC"@
        } else {
            "ASC"@
        },
        with_genres: match q.fields {
            Some(f) => fields_name(f@, "Genres"@),
            None => false,
        },
    }
}

/// How an `/Items` request is answered.
pub enum ItemsPlan {
    /// The items with these ids, for this user.
    ByIds { ids: Vec<u128>, user_id: u128 },
    /// The movies and series featuring a person.
    ByPerson { person: u128, params: BrowseParams },
    /// A library or type listing.
    Browse { params: BrowseParams },
}

/// Whether `plan` is how an `/Items` request `q` is answered: an `Ids` list is looked
/// up id by id; else a parsable first `PersonIds` entry lists that person's
/// titles; else the library is browsed.
pub open spec fn items_plan_for(plan: ItemsPlan, q: ItemsQuery, auth_user: u128) -> bool {
    match q.ids {
        Some(s) => plan matches ItemsPlan::ByIds { ids, user_id } && ids@ == parsed_ids(
            list_pieces(s@),
        ) && user_id == query_user(q.user_id, auth_user),
        None => match query_person(q.person_ids) {
            Some(p) => plan matches ItemsPlan::ByPerson { person, params } && person == p
                && params@ == browse_params_of(q, auth_user),
            None => plan matches ItemsPlan::Browse { params } && params@ == browse_params_of(
                q,
                auth_user,
            ),
        },
    }
}

fn browse_params(q: &ItemsQuery, auth_user: u128) -> (p: BrowseParams)
    ensures
        p@ == browse_params_of(*q, auth_user),
{
    let include_types: Vec<String> = match &q.include_item_types {
        Some(t) => comma_pieces(t.as_str()),
        None => {
            let v: Vec<String> = Vec::new();
            assert(v@.map_values(|x: String| x@) =~= Seq::<Seq<char>>::empty());
            v
        },
    };
    let is_resumable = match &q.filters {
        Some(f) => contains_chars(&chars_of(f.as_str()), &chars_of("IsResumable")),
        None => false,
    };
    let descending = match &q.sort_order {
        Some(o) => eq_ignore_ascii_case_chars(&chars_of(o.as_str()), &chars_of("Descending")),
        None => false,
    };
    let with_genres = match &q.fields {
        Some(f) => has_field(Some(f.as_str()), "Genres"),
        None => false,
    };
    BrowseParams {
        user_id: user_of(&q.user_id, auth_user),
        parent: match &q.parent_id {
            Some(p) => parse_uuid(p.as_str()),
            None => None,
        },
        include_types: include_types,
        search_term: match &q.search_term {
            Some(s) => s.clone(),
            None => String::new(),
        },
        is_resumable: is_resumable,
        start: match q.start_index {
            Some(s) => s,
            None => 0,
        },
        limit: capped_limit(q.limit, 50, 500),
        sort_field: match &q.sort_by {
            Some(s) => s.clone(),
            None => owned("SortName"),
        },
        sort_dir: if descending {
            owned("DESC")
        } else {
            owned("ASC")
        },
        with_genres: with_genres,
    }
}

/// How to answer an `/Items` request by the authenticated user.
pub fn plan_items(q: &ItemsQuery, auth_user: u128) -> (plan: ItemsPlan)
    ensures
        items_plan_for(plan, *q, auth_user),
{
    if let Some(ids) = &q.ids {
        return ItemsPlan::ByIds {
            ids: requested_item_ids(ids.as_str()),
            user_id: user_of(&q.user_id, auth_user),
        };
    }
    let person = match &q.person_ids {
        Some(p) => {
            let v = chars_of(p.as_str());
            let parts = split_chars(&v, ',');
            proof {
                assert(seq_views(parts@) == split_on(p@, ','));
                lemma_split_nonempty(p@, ',');
                assert(seq_views(parts@)[0] == parts@[0]@);
            }
            let first = trim_chars(&parts[0]);
            parse_uuid(string_of(&first).as_str())
        },
        None => None,
    };
    match person {
        Some(pid) => ItemsPlan::ByPerson { person: pid, params: browse_params(q, auth_user) },
        None => ItemsPlan::Browse { params: browse_params(q, auth_user) },
    }
}

proof fn lemma_split_nonempty(s: Seq<char>, sep: char)
    ensures
        split_on(s, sep).len() >= 1,
    decreases s.len(),
{
    if s.len() > 0 {
        lemma_split_nonempty(s.drop_last(), sep);
    }
}

/// Which lookup lists the items of a browse request.
#[derive(PartialEq, Eq, Structural)]
pub enum BrowseRoute {
    /// Movies, of one library or of all.
    Movies { library: Option<u128> },
    /// Nothing matches.
    Nothing,
    /// All seasons of a TV library.
    LibrarySeasons { tv_library: u128 },
    /// All episodes of a TV library.
    LibraryEpisodes { tv_library: u128 },
    /// Series, of one library or of all.
    Shows { library: Option<u128> },
    /// The seasons of a series.
    SeriesSeasons { series: u128 },
    /// The episodes of a season.
    SeasonEpisodes { season: u128 },
    /// All episodes.
    AllEpisodes,
    /// Movies and episodes in progress.
    Resumable,
    /// Movies and series together.
    AllMedia,
}

/// Whether the requested types name `t` (ignoring ASCII case).
pub open spec fn wants_type(types: Seq<Seq<char>>, t: Seq<char>) -> bool {
    exists|i: int| 0 <= i < types.len() && eq_ignore_ascii_case(#[trigger] types[i], t)
}

/// The lookup for a browse request whose parent has the given kind
/// (`movie` or `tv` library, `series`, `season`; none when there is no
/// parent or it is unknown).
pub open spec fn browse_route_of(p: BrowseParamsView, parent_type: Option<Seq<char>>) -> BrowseRoute {
    let parent = match p.parent {
        Some(v) => v,
        None => 0,
    };
    let kind = match parent_type {
        Some(k) => k,
        None => Seq::empty(),
    };
    if parent_type is Some && kind == "movie"@ {
        if p.include_types.len() == 0 || wants_type(p.include_types, "Movie"@) {
            BrowseRoute::Movies { library: p.parent }
        } else {
            BrowseRoute::Nothing
        }
    } else if parent_type is Some && kind == "tv"@ {
        if wants_type(p.include_types, "Season"@) {
            BrowseRoute::LibrarySeasons { tv_library: parent }
        } else if wants_type(p.include_types, "Episode"@) {
            BrowseRoute::LibraryEpisodes { tv_library: parent }
        } else {
            BrowseRoute::Shows { library: p.parent }
        }
    } else if parent_type is Some && kind == "series"@ {
        BrowseRoute::SeriesSeasons { series: parent }
    } else if parent_type is Some && kind == "season"@ {
        BrowseRoute::SeasonEpisodes { season: parent }
    } else if wants_type(p.include_types, "Movie"@) {
        BrowseRoute::Movies { library: None }
    } else if wants_type(p.include_types, "Series"@) {
        BrowseRoute::Shows { library: None }
    } else if wants_type(p.include_types, "Episode"@) {
        BrowseRoute::AllEpisodes
    } else if p.is_resumable {
        BrowseRoute::Resumable
    } else {
        BrowseRoute::AllMedia
    }
}

fn wants(types: &Vec<String>, t: &str) -> (r: bool)
    ensures
        r == wants_type(types@.map_values(|x: String| x@), t@),
{
    let ghost tv = types@.map_values(|x: String| x@);
    let tc = chars_of(t);
    for i in 0..types.len()
        invariant
            tv == types@.map_values(|x: String| x@),
            tc@ == t@,
            forall|j: int| 0 <= j < i ==> !eq_ignore_ascii_case(#[trigger] tv[j], t@),
    {
        assert(tv[i as int] == types@[i as int]@);
        if eq_ignore_ascii_case_chars(&chars_of(types[i].as_str()), &tc) {
            return true;
        }
    }
    false
}

/// The lookup for a browse request, given the kind of its parent (looked
/// up only when it has one).
pub fn route_browse(p: &BrowseParams, parent_type: &Option<String>) -> (r: BrowseRoute)
    requires
        parent_type is Some ==> p.parent is Some,
    ensures
        r == browse_route_of(p@, opt_view(*parent_type)),
{
    let parent: u128 = match p.parent {
        Some(v) => v,
        None => 0,
    };
    let kind: Vec<char> = match parent_type {
        Some(k) => chars_of(k.as_str()),
        None => Vec::new(),
    };
    let known = parent_type.is_some();
    if known && str_is(&kind, "movie") {
        if p.include_types.len() == 0 || wants(&p.include_types, "Movie") {
            BrowseRoute::Movies { library: p.parent }
        } else {
            BrowseRoute::Nothing
        }
    } else if known && str_is(&kind, "tv") {
        if wants(&p.include_types, "Season") {
            BrowseRoute::LibrarySeasons { tv_library: parent }
        } else if wants(&p.include_types, "Episode") {
            BrowseRoute::LibraryEpisodes { tv_library: parent }
        } else {
            BrowseRoute::Shows { library: p.parent }
        }
    } else if known && str_is(&kind, "series") {
        BrowseRoute::SeriesSeasons { series: parent }
    } else if known && str_is(&kind, "season") {
        BrowseRoute::SeasonEpisodes { season: parent }
    } else if wants(&p.include_types, "Movie") {
        BrowseRoute::Movies { library: None }
    } else if wants(&p.include_types, "Series") {
        BrowseRoute::Shows { library: None }
    } else if wants(&p.include_types, "Episode") {
        BrowseRoute::AllEpisodes
    } else if p.is_resumable {
        BrowseRoute::Resumable
    } else {
        BrowseRoute::AllMedia
    }
}

/// Where the episodes of a series request come from: the season its
/// `SeasonId` names when that parses, else the whole series.
#[derive(PartialEq, Eq, Structural)]
pub enum EpisodeSource {
    Season(u128),
    Series(u128),
}

/// Where the episodes of a series request come from.
pub fn episodes_source(q: &EpisodesQuery, series_id: u128) -> (r: EpisodeSource)
    ensures
        r == match q.season_id {
            Some(s) => match uuid_parse(s@) {
                Some(v) => EpisodeSource::Season(v),
                None => EpisodeSource::Series(series_id),
            },
            None => EpisodeSource::Series(series_id),
        },
{
    match &q.season_id {
        Some(s) => match parse_uuid(s.as_str()) {
            Some(v) => EpisodeSource::Season(v),
            None => EpisodeSource::Series(series_id),
        },
        None => EpisodeSource::Series(series_id),
    }
}

/// The tables an item id is looked up in, in order.
#[derive(PartialEq, Eq, Structural)]
pub enum ItemLookup {
    Movie,
    Series,
    Season,
    Episode,
    Library,
}

/// The lookup after a miss: movies, then series, seasons, episodes and
/// libraries; nothing after libraries. `None` asks for the first.
pub fn next_lookup(after: Option<ItemLookup>) -> (r: Option<ItemLookup>)
    ensures
        r == match after {
            None => Some(ItemLookup::Movie),
            Some(ItemLookup::Movie) => Some(ItemLookup::Series),
            Some(ItemLookup::Series) => Some(ItemLookup::Season),
            Some(ItemLookup::Season) => Some(ItemLookup::Episode),
            Some(ItemLookup::Episode) => Some(ItemLookup::Library),
            Some(ItemLookup::Library) => None,
        },
{
    match after {
        None => Some(ItemLookup::Movie),
        Some(ItemLookup::Movie) => Some(ItemLookup::Series),
        Some(ItemLookup::Series) => Some(ItemLookup::Season),
        Some(ItemLookup::Season) => Some(ItemLookup::Episode),
        Some(ItemLookup::Episode) => Some(ItemLookup::Library),
        Some(ItemLookup::Library) => None,
    }
}

/// The fields a listing leaves out of an item of each type: movies,
/// series, seasons and episodes drop the fields listings never show, and
/// each type a few of its own; other items keep everything.
pub open spec fn omitted_fields_of(item_type: Seq<char>) -> Seq<Seq<char>> {
    let common = seq![
        "CanDelete"@,
        "CanDownload"@,
        "ExternalUrls"@,
        "LockData"@,
        "LockedFields"@,
        "PlayAccess"@,
        "RemoteTrailers"@,
        "Studios"@,
        "Taglines"@,
        "Tags"@,
    ];
    if item_type == "Movie"@ {
        common
    } else if item_type == "Series"@ {
        common.push("OriginalTitle"@)
    } else if item_type == "Season"@ {
        common + seq!["Overview"@, "ParentBackdropImageTags"@, "ParentBackdropItemId"@]
    } else if item_type == "Episode"@ {
        common + seq!["CommunityRating"@, "HasSubtitles"@, "Overview"@, "PremiereDate"@]
    } else {
        Seq::empty()
    }
}

/// The fields a listing leaves out of an item of the given type.
pub fn listing_omitted_fields(item_type: &str) -> (r: Vec<&'static str>)
    ensures
        r@.map_values(|f: &'static str| f@) == omitted_fields_of(item_type@),
{
    let t = chars_of(item_type);
    let mut r: Vec<&'static str> = Vec::new();
    let known = str_is(&t, "Movie") || str_is(&t, "Series") || str_is(&t, "Season") || str_is(&t, "Episode");
    if known {
        r.push("CanDelete");
        r.push("CanDownload");
        r.push("ExternalUrls");
        r.push("LockData");
        r.push("LockedFields");
        r.push("PlayAccess");
        r.push("RemoteTrailers");
        r.push("Studios");
        r.push("Taglines");
        r.push("Tags");
    }
    if str_is(&t, "Movie") {
    } else if str_is(&t, "Series") {
        r.push("OriginalTitle");
    } else if str_is(&t, "Season") {
        r.push("Overview");
        r.push("ParentBackdropImageTags");
        r.push("ParentBackdropItemId");
    } else if str_is(&t, "Episode") {
        r.push("CommunityRating");
        r.push("HasSubtitles");
        r.push("Overview");
        r.push("PremiereDate");
    }
    assert(r@.map_values(|f: &'static str| f@) =~= omitted_fields_of(item_type@));
    r
}

/// A UUID list as a PostgreSQL array literal: `{id,id,…}`.
pub open spec fn pg_uuid_array_of(ids: Seq<u128>) -> Seq<char> {
    pg_uuid_list(ids).push('}')
}

/// `{` and the ids' texts joined by commas.
pub open spec fn pg_uuid_list(ids: Seq<u128>) -> Seq<char>
    decreases ids.len(),
{
    if ids.len() == 0 {
        seq!['{']
    } else if ids.len() == 1 {
        seq!['{'] + uuid_text(ids[0])
    } else {
        pg_uuid_list(ids.drop_last()) + seq![','] + uuid_text(ids.last())
    }
}

/// A UUID list as a PostgreSQL array literal.
pub fn pg_uuid_array(ids: &Vec<u128>) -> (r: String)
    ensures
        r@ == pg_uuid_array_of(ids@),
{
    let mut out: Vec<char> = Vec::new();
    out.push('{');
    for k in 0..ids.len()
        invariant
            out@ == pg_uuid_list(ids@.take(k as int)),
    {
        assert(ids@.take(k + 1).drop_last() =~= ids@.take(k as int));
        assert(ids@.take(k + 1).last() == ids@[k as int]);
        if k > 0 {
            out.push(',');
        } else {
            assert(ids@.take(1)[0] == ids@[0]);
        }
        let t = chars_of(uuid_string(ids[k]).as_str());
        out = concat_chars(&out, &t);
    }
    assert(ids@.take(ids@.len() as int) =~= ids@);
    out.push('}');
    string_of(&out)
}

/// The lookups that tell what a parent id is, in order, as (query, kind):
/// a video library or an app (whose `type` column is the kind), then a
/// series, then a season.
pub open spec fn parent_kind_lookups() -> Seq<(Seq<char>, Option<Seq<char>>)> {
    seq![
        ("SELECT type FROM videos WHERE id = $1"@, None),
        ("SELECT type FROM apps WHERE id = $1"@, None),
        ("SELECT id FROM tv_shows WHERE id = $1"@, Some("series"@)),
        ("SELECT id FROM seasons WHERE id = $1"@, Some("season"@)),
    ]
}

/// The lookups that tell what a parent id is, in order; a kind of `None`
/// means the found row's `type` column is the kind.
pub fn parent_kind_queries() -> (r: Vec<(String, Option<String>)>)
    ensures
        r@.map_values(|p: (String, Option<String>)| (p.0@, opt_view(p.1))) == parent_kind_lookups(),
{
    let mut r: Vec<(String, Option<String>)> = Vec::new();
    r.push((owned("SELECT type FROM videos WHERE id = $1"), None));
    r.push((owned("SELECT type FROM apps WHERE id = $1"), None));
    r.push((owned("SELECT id FROM tv_shows WHERE id = $1"), Some(owned("series"))));
    r.push((owned("SELECT id FROM seasons WHERE id = $1"), Some(owned("season"))));
    assert(r@.map_values(|p: (String, Option<String>)| (p.0@, opt_view(p.1))) =~= parent_kind_lookups());
    r
}

/// What a "latest" entry names: a movie (kind `movie`) or else a series,
/// and its id (the nil UUID when the id does not parse).
pub fn latest_target(kind: &str, id: &str) -> (r: (bool, u128))
    ensures
        r.0 == (kind@ == "movie"@),
        r.1 == match uuid_parse(id@) {
            Some(v) => v,
            None => 0,
        },
{
    let is_movie = str_is(&chars_of(kind), "movie");
    let target = match parse_uuid(id) {
        Some(v) => v,
        None => 0,
    };
    (is_movie, target)
}

/// A media library as the library-management view lists it. Its
/// locations and options are added where it is serialized.
pub struct VirtualFolder {
    pub name: String,
    pub collection_type: String,
    pub item_id: String,
    pub primary_image_item_id: String,
    pub refresh_status: String,
}

/// The listing of a library: movie and TV libraries only, idle, with the
/// library itself as their item and image.
pub fn virtual_folder(id: u128, name: String, app_type: &str) -> (r: Option<VirtualFolder>)
    ensures
        match crate::jellyfin::rows::collection_type_of(app_type@) {
            Some(t) => r matches Some(f) && f.name == name && f.collection_type@ == t
                && f.item_id@ == uuid_text(id) && f.primary_image_item_id@ == uuid_text(id)
                && f.refresh_status@ == "Idle"@,
            None => r is None,
        },
{
    match crate::jellyfin::rows::collection_type_for(app_type) {
        Some(t) => Some(VirtualFolder {
            name: name,
            collection_type: owned(t),
            item_id: uuid_string(id),
            primary_image_item_id: uuid_string(id),
            refresh_status: owned("Idle"),
        }),
        None => None,
    }
}


/// How a browse request is routed. Under a parent: a series lists its
/// seasons and a season its episodes (of that parent); a movie library
/// lists its movies unless other types are asked for (then nothing); a TV
/// library lists its seasons or its episodes when those are asked for,
/// else its series. Without a known parent, the asked-for type decides
/// (movies, then series, then episodes), else in-progress items when
/// asked for, else movies and series together.
pub proof fn law_browse_routes(p: BrowseParamsView, parent_type: Option<Seq<char>>, id: u128)
    requires
        p.parent == Some(id) || parent_type is None,
    ensures
        parent_type == Some("series"@) ==> (browse_route_of(p, parent_type) == (BrowseRoute::SeriesSeasons {
            series: id,
        })),
        parent_type == Some("season"@) ==> (browse_route_of(p, parent_type) == (BrowseRoute::SeasonEpisodes {
            season: id,
        })),
        parent_type == Some("movie"@) && (p.include_types.len() == 0 || wants_type(p.include_types, "Movie"@))
            ==> (browse_route_of(p, parent_type) == (BrowseRoute::Movies { library: Some(id) })),
        parent_type == Some("movie"@) && !(p.include_types.len() == 0 || wants_type(p.include_types, "Movie"@))
            ==> (browse_route_of(p, parent_type) == BrowseRoute::Nothing),
        parent_type == Some("tv"@) && wants_type(p.include_types, "Season"@) ==> (browse_route_of(p, parent_type)
            == (BrowseRoute::LibrarySeasons { tv_library: id })),
        parent_type == Some("tv"@) && !wants_type(p.include_types, "Season"@) && wants_type(
            p.include_types,
            "Episode"@,
        ) ==> (browse_route_of(p, parent_type) == (BrowseRoute::LibraryEpisodes { tv_library: id })),
        parent_type == Some("tv"@) && !wants_type(p.include_types, "Season"@) && !wants_type(
            p.include_types,
            "Episode"@,
        ) ==> (browse_route_of(p, parent_type) == (BrowseRoute::Shows { library: Some(id) })),
        parent_type is None && wants_type(p.include_types, "Movie"@) ==> (browse_route_of(p, parent_type)
            == (BrowseRoute::Movies { library: None })),
        parent_type is None && !wants_type(p.include_types, "Movie"@) && wants_type(p.include_types, "Series"@)
            ==> (browse_route_of(p, parent_type) == (BrowseRoute::Shows { library: None })),
        parent_type is None && !wants_type(p.include_types, "Movie"@) && !wants_type(p.include_types, "Series"@)
            && wants_type(p.include_types, "Episode"@) ==> (browse_route_of(p, parent_type)
            == BrowseRoute::AllEpisodes),
        parent_type is None && !wants_type(p.include_types, "Movie"@) && !wants_type(p.include_types, "Series"@)
            && !wants_type(p.include_types, "Episode"@) ==> (browse_route_of(p, parent_type) == (if p.is_resumable {
            BrowseRoute::Resumable
        } else {
            BrowseRoute::AllMedia
        })),
{
    reveal_strlit("series");
    reveal_strlit("season");
    reveal_strlit("movie");
    reveal_strlit("tv");
    assert("series"@.len() != "movie"@.len() && "series"@.len() != "tv"@.len());
    assert("season"@.len() != "movie"@.len() && "season"@.len() != "tv"@.len());
    assert("series"@[2] != "season"@[2]);
    assert("series"@ != "movie"@ && "series"@ != "tv"@ && "season"@ != "series"@);
    assert("season"@ != "movie"@ && "season"@ != "tv"@ && "movie"@ != "tv"@);
}


/// A capped limit is the requested limit (or the default when none is
/// given) unless that exceeds the cap, in which case it is the cap: it is
/// never above the cap nor above what was asked for, and it is one of the
/// two.
pub proof fn law_capped_limit(limit: Option<i64>, default: i64, cap: i64)
    ensures
        ({
            let asked = match limit {
                Some(x) => x,
                None => default,
            };
            &&& capped(limit, default, cap) <= cap
            &&& capped(limit, default, cap) <= asked
            &&& (capped(limit, default, cap) == asked || capped(limit, default, cap) == cap)
        }),
{
}


/// What an `/Items` query asks for: an `Ids` list is answered id by id
/// whatever else the query holds, and otherwise a parsable person id lists
/// that person's titles. The query speaks for its `UserId` when that is a
/// UUID, else for the authenticated user. Its window starts at the given
/// index (0 by default) and holds the given number of items (50 by
/// default), at most 500; it is sorted by the given field (`SortName` by
/// default), descending exactly for a `Descending` order in any case.
pub proof fn law_items_query(q: ItemsQuery, auth_user: u128, plan: ItemsPlan)
    requires
        items_plan_for(plan, q, auth_user),
    ensures
        q.ids is Some ==> plan is ByIds,
        q.ids is None && query_person(q.person_ids) is Some ==> plan is ByPerson,
        q.ids is None && query_person(q.person_ids) is None ==> plan is Browse,
        ({
            let p = browse_params_of(q, auth_user);
            &&& (q.user_id matches Some(u) && uuid_parse(u@) is Some) ==> p.user_id == uuid_parse(
                q.user_id->0@,
            )->0
            &&& (q.user_id is None || uuid_parse(q.user_id->0@) is None) ==> p.user_id == auth_user
            &&& q.start_index is None ==> p.start == 0
            &&& q.start_index matches Some(s) ==> p.start == s
            &&& p.limit <= 500
            &&& q.limit is None ==> p.limit == 50
            &&& (q.limit matches Some(l) && l <= 500) ==> p.limit == q.limit->0
            &&& q.sort_by is None ==> p.sort_field == "SortName"@
            &&& q.sort_by matches Some(s) ==> p.sort_field == s@
            &&& (p.sort_dir == "DESC"@ <==> (q.sort_order matches Some(o) && eq_ignore_ascii_case(
                o@,
                "Descending"@,
            )))
            &&& (p.sort_dir == "ASC"@ <==> !(q.sort_order matches Some(o) && eq_ignore_ascii_case(
                o@,
                "Descending"@,
            )))
        }),
{
    reveal_strlit("DESC");
    reveal_strlit("ASC");
    assert("DESC"@.len() != "ASC"@.len());
}


/// Listings drop the same ten fields from every movie, series, season and
/// episode (what a list does not show: delete/download rights, external
/// links, locks, play access, trailers, studios, taglines, tags); series
/// also drop their original title, seasons their overview and parent
/// backdrop, and episodes their rating, subtitle flag, overview and
/// premiere date. Other items keep every field.
pub proof fn law_listing_omissions(item_type: Seq<char>)
    ensures
        ({
            let common = seq![
                "CanDelete"@,
                "CanDownload"@,
                "ExternalUrls"@,
                "LockData"@,
                "LockedFields"@,
                "PlayAccess"@,
                "RemoteTrailers"@,
                "Studios"@,
                "Taglines"@,
                "Tags"@,
            ];
            let known = item_type == "Movie"@ || item_type == "Series"@ || item_type == "Season"@
                || item_type == "Episode"@;
            &&& known ==> omitted_fields_of(item_type).take(10) == common
            &&& !known ==> omitted_fields_of(item_type).len() == 0
            &&& item_type == "Movie"@ ==> omitted_fields_of(item_type).len() == 10
            &&& item_type == "Series"@ ==> omitted_fields_of(item_type).skip(10) == seq!["OriginalTitle"@]
            &&& item_type == "Season"@ ==> omitted_fields_of(item_type).skip(10) == seq![
                "Overview"@,
                "ParentBackdropImageTags"@,
                "ParentBackdropItemId"@,
            ]
            &&& item_type == "Episode"@ ==> omitted_fields_of(item_type).skip(10) == seq![
                "CommunityRating"@,
                "HasSubtitles"@,
                "Overview"@,
                "PremiereDate"@,
            ]
        }),
{
    reveal_strlit("Movie");
    reveal_strlit("Series");
    reveal_strlit("Season");
    reveal_strlit("Episode");
    assert("Series"@[2] != "Season"@[2]);
    assert("Movie"@.len() != "Series"@.len() && "Movie"@.len() != "Episode"@.len());
    assert("Series"@.len() != "Episode"@.len() && "Season"@.len() != "Episode"@.len());
    let common = seq![
        "CanDelete"@,
        "CanDownload"@,
        "ExternalUrls"@,
        "LockData"@,
        "LockedFields"@,
        "PlayAccess"@,
        "RemoteTrailers"@,
        "Studios"@,
        "Taglines"@,
        "Tags"@,
    ];
    assert(common.take(10) =~= common);
    assert(common.push("OriginalTitle"@).take(10) =~= common);
    assert(common.push("OriginalTitle"@).skip(10) =~= seq!["OriginalTitle"@]);
    let s3 = seq!["Overview"@, "ParentBackdropImageTags"@, "ParentBackdropItemId"@];
    assert((common + s3).take(10) =~= common);
    assert((common + s3).skip(10) =~= s3);
    let s4 = seq!["CommunityRating"@, "HasSubtitles"@, "Overview"@, "PremiereDate"@];
    assert((common + s4).take(10) =~= common);
    assert((common + s4).skip(10) =~= s4);
}

} // verus!
