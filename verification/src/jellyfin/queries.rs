//! Listing queries: the SQL text and numbered parameters of the movie,
//! series and episode listings, built from what a request filters on.

use vstd::prelude::*;
use crate::numbers::{decimal, decimal_i64};
use crate::text::{chars_of, concat_chars, contains_seq, str_is, string_of};

verus! {

/// A parameter of a query, in the order of its `$n` placeholders.
pub enum SqlParam {
    Uuid(u128),
    Text(String),
    Int(i64),
}

/// The contents of a [`SqlParam`].
pub enum SqlParamView {
    Uuid(u128),
    Text(Seq<char>),
    Int(i64),
}

/// The contents of a parameter.
pub open spec fn param_view(p: SqlParam) -> SqlParamView {
    match p {
        SqlParam::Uuid(v) => SqlParamView::Uuid(v),
        SqlParam::Text(t) => SqlParamView::Text(t@),
        SqlParam::Int(i) => SqlParamView::Int(i),
    }
}

/// The contents of a parameter list.
pub open spec fn params_view(v: Seq<SqlParam>) -> Seq<SqlParamView> {
    v.map_values(|p: SqlParam| param_view(p))
}

/// What a listing filters and orders on.
pub struct ListingFilter {
    pub library: Option<u128>,
    pub search_term: String,
    pub is_resumable: bool,
    pub user_id: u128,
    pub sort_field: String,
    pub sort_dir: String,
    pub start: i64,
    pub limit: i64,
}

/// A paged listing: the count query and the page query, each with its
/// parameters.
pub struct PagedQuery {
    pub count_sql: String,
    pub count_params: Vec<SqlParam>,
    pub select_sql: String,
    pub select_params: Vec<SqlParam>,
}

/// The `$n` placeholder.
pub open spec fn placeholder(n: int) -> Seq<char> {
    seq!['$'] + decimal(n)
}

/// Texts joined by a separator.
pub open spec fn joined(parts: Seq<Seq<char>>, sep: Seq<char>) -> Seq<char>
    decreases parts.len(),
{
    if parts.len() == 0 {
        Seq::empty()
    } else if parts.len() == 1 {
        parts[0]
    } else {
        joined(parts.drop_last(), sep) + sep + parts.last()
    }
}

/// The listed tables.
#[derive(PartialEq, Eq, Structural)]
pub enum ListedTable {
    Movies,
    Shows,
}

/// The conditions and parameters a filter adds, and the next placeholder.
pub struct FilterParts {
    pub conditions: Seq<Seq<char>>,
    pub params: Seq<SqlParamView>,
    pub next: int,
}

/// The filter of a movie or series listing: the library (`$n`), the title
/// search (`ILIKE`, the term wrapped in `%`), and for movies only the items
/// the user has started but not finished.
pub open spec fn table_filter(t: ListedTable, f: ListingFilter) -> FilterParts {
    let alias = if t == ListedTable::Movies { "m"@ } else { "t"@ };
    let a = match f.library {
        Some(v) => FilterParts {
            conditions: seq![alias + ".video_id = "@ + placeholder(1)],
            params: seq![SqlParamView::Uuid(v)],
            next: 2,
        },
        None => FilterParts { conditions: Seq::empty(), params: Seq::empty(), next: 1 },
    };
    let b = if f.search_term@.len() > 0 {
        FilterParts {
            conditions: a.conditions.push(
                "("@ + alias + ".title ILIKE "@ + placeholder(a.next) + " OR "@ + alias
                    + ".original_title ILIKE "@ + placeholder(a.next) + ")"@,
            ),
            params: a.params.push(SqlParamView::Text("%"@ + f.search_term@ + "%"@)),
            next: a.next + 1,
        }
    } else {
        a
    };
    if t == ListedTable::Movies && f.is_resumable {
        FilterParts {
            conditions: b.conditions.push(
                "EXISTS (SELECT 1 FROM user_media_states ums WHERE ums.video_item_id = m.id AND ums.user_id = "@
                    + placeholder(b.next)
                    + " AND ums.resume_position > 0 AND ums.is_watched = false)"@,
            ),
            params: b.params.push(SqlParamView::Uuid(f.user_id)),
            next: b.next + 1,
        }
    } else {
        b
    }
}

/// `WHERE` and the conditions joined by `AND`, or nothing.
pub open spec fn where_clause(conditions: Seq<Seq<char>>) -> Seq<char> {
    if conditions.len() == 0 {
        Seq::empty()
    } else {
        "WHERE "@ + joined(conditions, " AND "@)
    }
}

/// The column a listing is ordered by.
pub open spec fn order_column(t: ListedTable, sort_field: Seq<char>) -> Seq<char> {
    if t == ListedTable::Movies {
        if sort_field == "DateCreated"@ {
            "m.created_at"@
        } else if sort_field == "PremiereDate"@ {
            "COALESCE(m.release_date, m.created_at::date)"@
        } else if sort_field == "CommunityRating"@ {
            "COALESCE(m.tmdb_rating, m.imdb_rating, 0)"@
        } else if sort_field == "ProductionYear"@ {
            "m.year"@
        } else {
            "COALESCE(m.sort_title, m.title)"@
        }
    } else {
        if sort_field == "DateCreated"@ {
            "t.created_at"@
        } else if sort_field == "PremiereDate"@ {
            "COALESCE(t.first_air_date, t.created_at::date)"@
        } else if sort_field == "CommunityRating"@ {
            "COALESCE(t.tmdb_rating, t.imdb_rating, 0)"@
        } else if sort_field == "ProductionYear"@ {
            "t.year"@
        } else {
            "COALESCE(t.sort_title, t.title)"@
        }
    }
}

/// The columns a movie row is read from.
pub open spec fn movie_columns() -> Seq<char> {
    "m.id, m.title, m.original_title, m.sort_title, m.year, m.release_date, m.runtime, m.tmdb_rating, m.imdb_rating, m.overview, m.tagline, m.poster_path, m.backdrop_path, m.content_rating, m.is_favorite, m.tmdb_id, m.imdb_id, m.created_at, m.video_id, ums.resume_position, ums.play_count, ums.is_watched, ums.last_watch_at"@
}

/// The columns a series row is read from.
pub open spec fn show_columns() -> Seq<char> {
    "t.id, t.title, t.original_title, t.sort_title, t.year, t.first_air_date, t.tmdb_rating, t.imdb_rating, t.overview, t.status, t.poster_path, t.backdrop_path, t.content_rating, t.is_favorite, t.tmdb_id, t.imdb_id, t.tvdb_id, t.created_at, t.video_id, (SELECT COUNT(*) FROM seasons s WHERE s.tv_show_id = t.id) as season_count, (SELECT COUNT(*) FROM episodes e WHERE e.tv_show_id = t.id) as episode_count"@
}

/// A movie or series listing: the count of the filtered rows, and the page
/// of them in the requested order, movies with the user's watch state
/// (the user, the limit and the offset are the last three parameters).
pub open spec fn table_listing_sql(t: ListedTable, f: ListingFilter) -> (Seq<char>, Seq<char>) {
    let parts = table_filter(t, f);
    let w = where_clause(parts.conditions);
    let u = parts.next;
    let count = if t == ListedTable::Movies {
        "SELECT COUNT(*) as cnt FROM video_items m "@ + w
    } else {
        "SELECT COUNT(*) as cnt FROM tv_shows t "@ + w
    };
    let from = if t == ListedTable::Movies {
        " FROM video_items m LEFT JOIN user_media_states ums ON ums.video_item_id = m.id AND ums.user_id = "@
            + placeholder(u) + " "@
    } else {
        " FROM tv_shows t "@
    };
    let columns = if t == ListedTable::Movies { movie_columns() } else { show_columns() };
    let select = "SELECT "@ + columns + from + w + " ORDER BY "@ + order_column(t, f.sort_field@) + " "@
        + f.sort_dir@ + " LIMIT "@ + placeholder(u + 1) + " OFFSET "@ + placeholder(u + 2);
    (count, select)
}

/// The parameters of the page query: the filter's, then the user, the
/// limit and the offset.
pub open spec fn table_select_params(t: ListedTable, f: ListingFilter) -> Seq<SqlParamView> {
    table_filter(t, f).params + seq![
        SqlParamView::Uuid(f.user_id),
        SqlParamView::Int(f.limit),
        SqlParamView::Int(f.start),
    ]
}

fn placeholder_text(n: i64) -> (r: Vec<char>)
    ensures
        r@ == placeholder(n as int),
{
    let mut r: Vec<char> = Vec::new();
    r.push('$');
    let d = decimal_i64(n);
    let r = concat_chars(&r, &d);
    assert(r@ =~= placeholder(n as int));
    r
}

fn cat(a: Vec<char>, s: &str) -> (r: Vec<char>)
    ensures
        r@ == a@ + s@,
{
    concat_chars(&a, &chars_of(s))
}

fn cat_chars(a: Vec<char>, b: &Vec<char>) -> (r: Vec<char>)
    ensures
        r@ == a@ + b@,
{
    concat_chars(&a, b)
}

fn text_param(p: &SqlParam) -> (r: SqlParam)
    ensures
        param_view(r) == param_view(*p),
{
    match p {
        SqlParam::Uuid(v) => SqlParam::Uuid(*v),
        SqlParam::Text(t) => SqlParam::Text(t.clone()),
        SqlParam::Int(i) => SqlParam::Int(*i),
    }
}

fn copy_params(v: &Vec<SqlParam>) -> (r: Vec<SqlParam>)
    ensures
        params_view(r@) == params_view(v@),
{
    let mut r: Vec<SqlParam> = Vec::new();
    for k in 0..v.len()
        invariant
            params_view(r@) == params_view(v@.take(k as int)),
    {
        let ghost before = params_view(r@);
        r.push(text_param(&v[k]));
        assert(params_view(r@) =~= before.push(param_view(v@[k as int])));
        assert(params_view(v@.take(k + 1)) =~= params_view(v@.take(k as int)).push(param_view(v@[k as int])));
    }
    assert(v@.take(v@.len() as int) =~= v@);
    r
}

fn join_conditions(conds: &Vec<Vec<char>>) -> (r: Vec<char>)
    ensures
        r@ == joined(conds@.map_values(|c: Vec<char>| c@), " AND "@),
{
    let ghost cv = conds@.map_values(|c: Vec<char>| c@);
    let mut r: Vec<char> = Vec::new();
    for k in 0..conds.len()
        invariant
            cv == conds@.map_values(|c: Vec<char>| c@),
            r@ == joined(cv.take(k as int), " AND "@),
    {
        assert(cv.take(k + 1).drop_last() =~= cv.take(k as int));
        assert(cv.take(k + 1).last() == conds@[k as int]@);
        if k > 0 {
            r = cat(r, " AND ");
        } else {
            assert(cv.take(1)[0] == conds@[0]@);
        }
        r = cat_chars(r, &conds[k]);
    }
    assert(cv.take(cv.len() as int) =~= cv);
    r
}

fn where_text(conds: &Vec<Vec<char>>) -> (r: Vec<char>)
    ensures
        r@ == where_clause(conds@.map_values(|c: Vec<char>| c@)),
{
    if conds.len() == 0 {
        Vec::new()
    } else {
        let j = join_conditions(conds);
        cat_chars(chars_of("WHERE "), &j)
    }
}

fn order_text(t: &ListedTable, sort_field: &str) -> (r: Vec<char>)
    ensures
        r@ == order_column(*t, sort_field@),
{
    let f = chars_of(sort_field);
    match t {
        ListedTable::Movies => {
            if str_is(&f, "DateCreated") {
                chars_of("m.created_at")
            } else if str_is(&f, "PremiereDate") {
                chars_of("COALESCE(m.release_date, m.created_at::date)")
            } else if str_is(&f, "CommunityRating") {
                chars_of("COALESCE(m.tmdb_rating, m.imdb_rating, 0)")
            } else if str_is(&f, "ProductionYear") {
                chars_of("m.year")
            } else {
                chars_of("COALESCE(m.sort_title, m.title)")
            }
        },
        ListedTable::Shows => {
            if str_is(&f, "DateCreated") {
                chars_of("t.created_at")
            } else if str_is(&f, "PremiereDate") {
                chars_of("COALESCE(t.first_air_date, t.created_at::date)")
            } else if str_is(&f, "CommunityRating") {
                chars_of("COALESCE(t.tmdb_rating, t.imdb_rating, 0)")
            } else if str_is(&f, "ProductionYear") {
                chars_of("t.year")
            } else {
                chars_of("COALESCE(t.sort_title, t.title)")
            }
        },
    }
}

/// The conditions, parameters and next placeholder of a listing's filter.
fn filter_parts(t: &ListedTable, f: &ListingFilter) -> (r: (Vec<Vec<char>>, Vec<SqlParam>, i64))
    ensures
        r.0@.map_values(|c: Vec<char>| c@) == table_filter(*t, *f).conditions,
        params_view(r.1@) == table_filter(*t, *f).params,
        r.2 == table_filter(*t, *f).next,
        1 <= r.2 <= 4,
{
    let ghost spec = table_filter(*t, *f);
    let movies = match t {
        ListedTable::Movies => true,
        ListedTable::Shows => false,
    };
    let alias = if movies { chars_of("m") } else { chars_of("t") };
    let mut conds: Vec<Vec<char>> = Vec::new();
    let mut params: Vec<SqlParam> = Vec::new();
    let mut next: i64 = 1;
    if let Some(v) = f.library {
        let c = cat_chars(cat(alias.clone(), ".video_id = "), &placeholder_text(1));
        conds.push(c);
        params.push(SqlParam::Uuid(v));
        next = 2;
    }
    proof {
        let a = match f.library {
            Some(v) => FilterParts {
                conditions: seq![alias@ + ".video_id = "@ + placeholder(1)],
                params: seq![SqlParamView::Uuid(v)],
                next: 2,
            },
            None => FilterParts { conditions: Seq::empty(), params: Seq::empty(), next: 1 },
        };
        assert(conds@.map_values(|c: Vec<char>| c@) =~= a.conditions);
        assert(params_view(params@) =~= a.params);
    }
    if !f.search_term.as_str().is_empty() {
        let p = placeholder_text(next);
        let mut c = chars_of("(");
        c = cat_chars(c, &alias);
        c = cat(c, ".title ILIKE ");
        c = cat_chars(c, &p);
        c = cat(c, " OR ");
        c = cat_chars(c, &alias);
        c = cat(c, ".original_title ILIKE ");
        c = cat_chars(c, &p);
        c = cat(c, ")");
        let ghost before_c = conds@.map_values(|c: Vec<char>| c@);
        let ghost before_p = params_view(params@);
        conds.push(c);
        let term = string_of(&cat(cat(chars_of("%"), f.search_term.as_str()), "%"));
        params.push(SqlParam::Text(term));
        assert(conds@.map_values(|c: Vec<char>| c@) =~= before_c.push(c@));
        assert(params_view(params@) =~= before_p.push(param_view(SqlParam::Text(term))));
        next = next + 1;
    }
    if movies && f.is_resumable {
        let mut c = chars_of("EXISTS (SELECT 1 FROM user_media_states ums WHERE ums.video_item_id = m.id AND ums.user_id = ");
        c = cat_chars(c, &placeholder_text(next));
        c = cat(c, " AND ums.resume_position > 0 AND ums.is_watched = false)");
        let ghost before_c = conds@.map_values(|c: Vec<char>| c@);
        let ghost before_p = params_view(params@);
        conds.push(c);
        params.push(SqlParam::Uuid(f.user_id));
        assert(conds@.map_values(|c: Vec<char>| c@) =~= before_c.push(c@));
        assert(params_view(params@) =~= before_p.push(SqlParamView::Uuid(f.user_id)));
        next = next + 1;
    }
    proof {
        assert(alias@ == (if *t == ListedTable::Movies { "m"@ } else { "t"@ }));
    }
    (conds, params, next)
}

/// The count and page queries of a movie or series listing.
pub fn table_listing_query(t: &ListedTable, f: &ListingFilter) -> (q: PagedQuery)
    ensures
        (q.count_sql@, q.select_sql@) == table_listing_sql(*t, *f),
        params_view(q.count_params@) == table_filter(*t, *f).params,
        params_view(q.select_params@) == table_select_params(*t, *f),
{
    let (conds, params, next) = filter_parts(t, f);
    let w = where_text(&conds);
    let movies = match t {
        ListedTable::Movies => true,
        ListedTable::Shows => false,
    };
    let count = if movies {
        cat_chars(chars_of("SELECT COUNT(*) as cnt FROM video_items m "), &w)
    } else {
        cat_chars(chars_of("SELECT COUNT(*) as cnt FROM tv_shows t "), &w)
    };
    let columns = if movies {
        chars_of("m.id, m.title, m.original_title, m.sort_title, m.year, m.release_date, m.runtime, m.tmdb_rating, m.imdb_rating, m.overview, m.tagline, m.poster_path, m.backdrop_path, m.content_rating, m.is_favorite, m.tmdb_id, m.imdb_id, m.created_at, m.video_id, ums.resume_position, ums.play_count, ums.is_watched, ums.last_watch_at")
    } else {
        chars_of("t.id, t.title, t.original_title, t.sort_title, t.year, t.first_air_date, t.tmdb_rating, t.imdb_rating, t.overview, t.status, t.poster_path, t.backdrop_path, t.content_rating, t.is_favorite, t.tmdb_id, t.imdb_id, t.tvdb_id, t.created_at, t.video_id, (SELECT COUNT(*) FROM seasons s WHERE s.tv_show_id = t.id) as season_count, (SELECT COUNT(*) FROM episodes e WHERE e.tv_show_id = t.id) as episode_count")
    };
    let from = if movies {
        let a = chars_of(" FROM video_items m LEFT JOIN user_media_states ums ON ums.video_item_id = m.id AND ums.user_id = ");
        cat(cat_chars(a, &placeholder_text(next)), " ")
    } else {
        chars_of(" FROM tv_shows t ")
    };
    let mut s = cat_chars(chars_of("SELECT "), &columns);
    s = cat_chars(s, &from);
    s = cat_chars(s, &w);
    s = cat(s, " ORDER BY ");
    s = cat_chars(s, &order_text(t, f.sort_field.as_str()));
    s = cat(s, " ");
    s = cat(s, f.sort_dir.as_str());
    s = cat(s, " LIMIT ");
    s = cat_chars(s, &placeholder_text(next + 1));
    s = cat(s, " OFFSET ");
    s = cat_chars(s, &placeholder_text(next + 2));
    let mut select_params = copy_params(&params);
    let ghost base = params_view(select_params@);
    select_params.push(SqlParam::Uuid(f.user_id));
    select_params.push(SqlParam::Int(f.limit));
    select_params.push(SqlParam::Int(f.start));
    assert(params_view(select_params@) =~= base + seq![
        SqlParamView::Uuid(f.user_id),
        SqlParamView::Int(f.limit),
        SqlParamView::Int(f.start),
    ]);
    PagedQuery {
        count_sql: string_of(&count),
        count_params: params,
        select_sql: string_of(&s),
        select_params: select_params,
    }
}

/// The filter of the episode listing: the title search (`$2`, after the
/// user), and the episodes the user has started but not finished.
pub open spec fn episode_filter(search_term: Seq<char>, is_resumable: bool) -> (Seq<Seq<char>>, Seq<SqlParamView>) {
    let a: (Seq<Seq<char>>, Seq<SqlParamView>) = if search_term.len() > 0 {
        (seq!["e.title ILIKE $2"@], seq![SqlParamView::Text("%"@ + search_term + "%"@)])
    } else {
        (Seq::empty(), Seq::empty())
    };
    if is_resumable {
        (a.0.push("ums.resume_position > 0 AND ums.is_watched = false"@), a.1)
    } else {
        a
    }
}

/// The columns an episode row is read from.
pub open spec fn episode_columns() -> Seq<char> {
    "e.id, e.tv_show_id, e.season_id, e.episode_number, e.title, e.overview, e.air_date, e.runtime, e.still_path, e.tmdb_rating, s.season_number, t.title as series_name, ums.resume_position, ums.play_count, ums.is_watched, ums.last_watch_at, EXISTS(SELECT 1 FROM video_files vf WHERE vf.episode_id = e.id AND vf.is_available = true) as has_file"@
}

/// The episode listing: the count and the page of episodes (ordered by
/// series title, season and episode number) with the user's watch state.
/// The user is `$1`; the limit and offset follow the filter's parameters.
pub open spec fn episode_listing_sql(f: ListingFilter) -> (Seq<char>, Seq<char>) {
    let (conds, params) = episode_filter(f.search_term@, f.is_resumable);
    let w = if conds.len() == 0 {
        Seq::empty()
    } else {
        "AND "@ + joined(conds, " AND "@)
    };
    let next: int = 2 + params.len() as int;
    let count = "SELECT COUNT(*) as cnt FROM episodes e LEFT JOIN user_media_states ums ON ums.episode_id = e.id AND ums.user_id = $1 WHERE 1=1 "@
        + w;
    let select = "SELECT "@ + episode_columns()
        + " FROM episodes e JOIN seasons s ON s.id = e.season_id JOIN tv_shows t ON t.id = e.tv_show_id LEFT JOIN user_media_states ums ON ums.episode_id = e.id AND ums.user_id = $1 WHERE 1=1 "@
        + w + " ORDER BY t.title, s.season_number, e.episode_number LIMIT "@ + placeholder(next)
        + " OFFSET "@ + placeholder(next + 1);
    (count, select)
}

/// The count and page queries of the episode listing.
pub fn episode_listing_query(f: &ListingFilter) -> (q: PagedQuery)
    ensures
        (q.count_sql@, q.select_sql@) == episode_listing_sql(*f),
        params_view(q.count_params@) == seq![SqlParamView::Uuid(f.user_id)] + episode_filter(
            f.search_term@,
            f.is_resumable,
        ).1,
        params_view(q.select_params@) == seq![SqlParamView::Uuid(f.user_id)] + episode_filter(
            f.search_term@,
            f.is_resumable,
        ).1 + seq![SqlParamView::Int(f.limit), SqlParamView::Int(f.start)],
{
    let mut conds: Vec<Vec<char>> = Vec::new();
    let mut params: Vec<SqlParam> = Vec::new();
    params.push(SqlParam::Uuid(f.user_id));
    let mut next: i64 = 2;
    let searching = !f.search_term.as_str().is_empty();
    if searching {
        conds.push(chars_of("e.title ILIKE $2"));
        params.push(SqlParam::Text(string_of(&cat(cat(chars_of("%"), f.search_term.as_str()), "%"))));
        next = 3;
    }
    if f.is_resumable {
        conds.push(chars_of("ums.resume_position > 0 AND ums.is_watched = false"));
    }
    proof {
        reveal_strlit("e.title ILIKE $2");
        let (sc, sp) = episode_filter(f.search_term@, f.is_resumable);
        assert(conds@.map_values(|c: Vec<char>| c@) =~= sc);
        assert(params_view(params@) =~= seq![SqlParamView::Uuid(f.user_id)] + sp);
        assert(next == 2 + sp.len());
    }
    let w = if conds.len() == 0 {
        Vec::new()
    } else {
        cat_chars(chars_of("AND "), &join_conditions(&conds))
    };
    let count = cat_chars(
        chars_of("SELECT COUNT(*) as cnt FROM episodes e LEFT JOIN user_media_states ums ON ums.episode_id = e.id AND ums.user_id = $1 WHERE 1=1 "),
        &w,
    );
    let mut s = chars_of("SELECT ");
    s = cat(s, "e.id, e.tv_show_id, e.season_id, e.episode_number, e.title, e.overview, e.air_date, e.runtime, e.still_path, e.tmdb_rating, s.season_number, t.title as series_name, ums.resume_position, ums.play_count, ums.is_watched, ums.last_watch_at, EXISTS(SELECT 1 FROM video_files vf WHERE vf.episode_id = e.id AND vf.is_available = true) as has_file");
    s = cat(s, " FROM episodes e JOIN seasons s ON s.id = e.season_id JOIN tv_shows t ON t.id = e.tv_show_id LEFT JOIN user_media_states ums ON ums.episode_id = e.id AND ums.user_id = $1 WHERE 1=1 ");
    s = cat_chars(s, &w);
    s = cat(s, " ORDER BY t.title, s.season_number, e.episode_number LIMIT ");
    s = cat_chars(s, &placeholder_text(next));
    s = cat(s, " OFFSET ");
    s = cat_chars(s, &placeholder_text(next + 1));
    let mut select_params = copy_params(&params);
    let ghost base = params_view(select_params@);
    select_params.push(SqlParam::Int(f.limit));
    select_params.push(SqlParam::Int(f.start));
    assert(params_view(select_params@) =~= base + seq![SqlParamView::Int(f.limit), SqlParamView::Int(f.start)]);
    PagedQuery {
        count_sql: string_of(&count),
        count_params: params,
        select_sql: string_of(&s),
        select_params: select_params,
    }
}


/// A movie or series listing is ordered by the column its sort field names,
/// in the requested direction, just before its paging: `DateCreated` by
/// the creation time, `PremiereDate` by the release (or first air) date,
/// falling back to the creation day, `CommunityRating` by the TMDB rating,
/// else the IMDb rating, else 0, `ProductionYear` by the year, and any
/// other field by the sort title, else the title.
pub proof fn law_listing_order(t: ListedTable, f: ListingFilter)
    ensures
        contains_seq(
            table_listing_sql(t, f).1,
            " ORDER BY "@ + order_column(t, f.sort_field@) + " "@ + f.sort_dir@ + " LIMIT "@,
        ),
        t == ListedTable::Movies ==> {
            &&& f.sort_field@ == "DateCreated"@ ==> order_column(t, f.sort_field@) == "m.created_at"@
            &&& f.sort_field@ == "PremiereDate"@ ==> order_column(t, f.sort_field@)
                == "COALESCE(m.release_date, m.created_at::date)"@
            &&& f.sort_field@ == "CommunityRating"@ ==> order_column(t, f.sort_field@)
                == "COALESCE(m.tmdb_rating, m.imdb_rating, 0)"@
            &&& f.sort_field@ == "ProductionYear"@ ==> order_column(t, f.sort_field@) == "m.year"@
            &&& (f.sort_field@ != "DateCreated"@ && f.sort_field@ != "PremiereDate"@ && f.sort_field@
                != "CommunityRating"@ && f.sort_field@ != "ProductionYear"@) ==> order_column(t, f.sort_field@)
                == "COALESCE(m.sort_title, m.title)"@
        },
        t == ListedTable::Shows ==> {
            &&& f.sort_field@ == "DateCreated"@ ==> order_column(t, f.sort_field@) == "t.created_at"@
            &&& f.sort_field@ == "PremiereDate"@ ==> order_column(t, f.sort_field@)
                == "COALESCE(t.first_air_date, t.created_at::date)"@
            &&& f.sort_field@ == "CommunityRating"@ ==> order_column(t, f.sort_field@)
                == "COALESCE(t.tmdb_rating, t.imdb_rating, 0)"@
            &&& f.sort_field@ == "ProductionYear"@ ==> order_column(t, f.sort_field@) == "t.year"@
            &&& (f.sort_field@ != "DateCreated"@ && f.sort_field@ != "PremiereDate"@ && f.sort_field@
                != "CommunityRating"@ && f.sort_field@ != "ProductionYear"@) ==> order_column(t, f.sort_field@)
                == "COALESCE(t.sort_title, t.title)"@
        },
{
    reveal_strlit("DateCreated");
    reveal_strlit("PremiereDate");
    reveal_strlit("CommunityRating");
    reveal_strlit("ProductionYear");
    assert("DateCreated"@.len() == 11 && "PremiereDate"@.len() == 12);
    assert("CommunityRating"@.len() == 15 && "ProductionYear"@.len() == 14);
    let parts = table_filter(t, f);
    let w = where_clause(parts.conditions);
    let u = parts.next;
    let from = if t == ListedTable::Movies {
        " FROM video_items m LEFT JOIN user_media_states ums ON ums.video_item_id = m.id AND ums.user_id = "@
            + placeholder(u) + " "@
    } else {
        " FROM tv_shows t "@
    };
    let columns = if t == ListedTable::Movies { movie_columns() } else { show_columns() };
    let pre = "SELECT "@ + columns + from + w;
    let p = " ORDER BY "@ + order_column(t, f.sort_field@) + " "@ + f.sort_dir@ + " LIMIT "@;
    let post = placeholder(u + 1) + " OFFSET "@ + placeholder(u + 2);
    let sql = table_listing_sql(t, f).1;
    assert(sql =~= pre + p + post);
    assert(sql.subrange(pre.len() as int, (pre.len() + p.len()) as int) =~= p);
}


/// What a listing filters on: the library id first when there is one, then
/// the search term wrapped in `%` for a case-insensitive match when it is
/// not empty, then, for movies in-progress only, the user. Each condition
/// adds exactly one parameter, numbered in order. The episode listing's
/// search term is its one filter parameter, and asking for in-progress
/// episodes adds a condition with no parameter.
pub proof fn law_listing_filters(t: ListedTable, f: ListingFilter)
    ensures
        ({
            let fp = table_filter(t, f);
            let n_lib: int = if f.library is Some { 1 } else { 0 };
            let n_term: int = if f.search_term@.len() > 0 { 1 } else { 0 };
            let n_user: int = if t == ListedTable::Movies && f.is_resumable { 1 } else { 0 };
            &&& fp.conditions.len() == fp.params.len()
            &&& fp.params.len() == n_lib + n_term + n_user
            &&& fp.next == fp.params.len() + 1
            &&& f.library matches Some(l) ==> fp.params[0] == SqlParamView::Uuid(l)
            &&& f.search_term@.len() > 0 ==> fp.params[n_lib] == SqlParamView::Text("%"@ + f.search_term@ + "%"@)
            &&& n_user == 1 ==> fp.params[n_lib + n_term] == SqlParamView::Uuid(f.user_id)
        }),
        ({
            let ef = episode_filter(f.search_term@, f.is_resumable);
            &&& ef.1.len() == (if f.search_term@.len() > 0 { 1int } else { 0int })
            &&& f.search_term@.len() > 0 ==> ef.1[0] == SqlParamView::Text("%"@ + f.search_term@ + "%"@)
            &&& ef.0.len() == (if f.search_term@.len() > 0 { 1int } else { 0int }) + (if f.is_resumable {
                1int
            } else {
                0int
            })
        }),
{
}

} // verus!
