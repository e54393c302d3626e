//! Genres and cast of listed items: the genre rows of movies and series
//! become genre names and links, and cast rows become people ordered by
//! their billing.

use vstd::prelude::*;
use crate::jellyfin::items::{capitalize_role, role_label, tmdb_genre, tmdb_genre_name};
use crate::jellyfin::models::{BaseItemDto, ItemView, NameIdPair, NameIdView, PersonDto, PersonView};
use crate::jellyfin::shape::items_view;
use crate::numbers::{uuid_string, uuid_text};
use crate::outside::{parse_uuid, uuid_parse};
use crate::text::{chars_of, clone_opt, opt_view, owned, str_is};

verus! {

/// A genre of an item: the item, the genre's own id and its TMDB id.
pub struct GenreRow {
    pub item_id: u128,
    pub genre_id: u128,
    pub tmdb_genre_id: i32,
}

/// The genre rows of one item, in row order.
pub open spec fn genres_of(rows: Seq<GenreRow>, id: u128) -> Seq<GenreRow>
    decreases rows.len(),
{
    if rows.len() == 0 {
        Seq::empty()
    } else {
        let pre = genres_of(rows.drop_last(), id);
        if rows.last().item_id == id {
            pre.push(rows.last())
        } else {
            pre
        }
    }
}

/// Whether an earlier item has the same parsed id (and took the genres).
pub open spec fn id_seen_before(items: Seq<ItemView>, i: int, id: u128) -> bool {
    exists|j: int| 0 <= j < i && #[trigger] uuid_parse(items[j].id) == Some(id)
}

/// An item with the given genres: their names, and name/id links.
pub open spec fn with_genres(item: ItemView, genres: Seq<GenreRow>) -> ItemView {
    ItemView {
        genres: genres.map_values(|g: GenreRow| tmdb_genre(g.tmdb_genre_id)),
        genre_items: genres.map_values(
            |g: GenreRow| NameIdView { name: tmdb_genre(g.tmdb_genre_id), id: uuid_text(g.genre_id) },
        ),
        ..item
    }
}

/// The items with their genres: the first item with a given id that has
/// genre rows gets them all; every other item stays as it is.
pub open spec fn genred_items(items: Seq<ItemView>, rows: Seq<GenreRow>) -> Seq<ItemView> {
    Seq::new(
        items.len(),
        |i: int|
            match uuid_parse(items[i].id) {
                Some(id) => if genres_of(rows, id).len() > 0 && !id_seen_before(items, i, id) {
                    with_genres(items[i], genres_of(rows, id))
                } else {
                    items[i]
                },
                None => items[i],
            },
    )
}

/// Giving items their genres keeps the list (as many items, each with its
/// id, type and name), leaves items whose id does not parse as they are,
/// and gives an id's genres to one item only: a later item with the same
/// id stays as it is.
pub proof fn law_genres_keep_items(items: Seq<ItemView>, rows: Seq<GenreRow>)
    ensures
        genred_items(items, rows).len() == items.len(),
        forall|i: int|
            0 <= i < items.len() ==> {
                &&& (#[trigger] genred_items(items, rows)[i]).id == items[i].id
                &&& genred_items(items, rows)[i].item_type == items[i].item_type
                &&& genred_items(items, rows)[i].name == items[i].name
            },
        forall|i: int|
            0 <= i < items.len() && uuid_parse(items[i].id) is None ==> #[trigger] genred_items(items, rows)[i]
                == items[i],
        forall|i: int, j: int|
            #![trigger genred_items(items, rows)[j], uuid_parse(items[i].id)]
            0 <= i < j < items.len() && uuid_parse(items[i].id) is Some && uuid_parse(items[j].id)
                == uuid_parse(items[i].id) ==> genred_items(items, rows)[j] == items[j],
{
    let out = genred_items(items, rows);
    assert forall|i: int, j: int|
        #![trigger out[j], uuid_parse(items[i].id)]
        0 <= i < j < items.len() && uuid_parse(items[i].id) is Some && uuid_parse(items[j].id)
            == uuid_parse(items[i].id) implies out[j] == items[j] by {
        let id = uuid_parse(items[i].id)->0;
        assert(id_seen_before(items, j, id));
    }
}

fn collect_genres(rows: &Vec<GenreRow>, id: u128) -> (r: (Vec<String>, Vec<NameIdPair>))
    ensures
        r.0@.map_values(|s: String| s@) == genres_of(rows@, id).map_values(
            |g: GenreRow| tmdb_genre(g.tmdb_genre_id),
        ),
        r.1@.map_values(|p: NameIdPair| p@) == genres_of(rows@, id).map_values(
            |g: GenreRow| NameIdView { name: tmdb_genre(g.tmdb_genre_id), id: uuid_text(g.genre_id) },
        ),
{
    let mut names: Vec<String> = Vec::new();
    let mut links: Vec<NameIdPair> = Vec::new();
    for k in 0..rows.len()
        invariant
            names@.map_values(|s: String| s@) == genres_of(rows@.take(k as int), id).map_values(
                |g: GenreRow| tmdb_genre(g.tmdb_genre_id),
            ),
            links@.map_values(|p: NameIdPair| p@) == genres_of(rows@.take(k as int), id).map_values(
                |g: GenreRow| NameIdView { name: tmdb_genre(g.tmdb_genre_id), id: uuid_text(g.genre_id) },
            ),
    {
        let ghost pre = genres_of(rows@.take(k as int), id);
        assert(rows@.take(k + 1).drop_last() =~= rows@.take(k as int));
        assert(rows@.take(k + 1).last() == rows@[k as int]);
        let r = &rows[k];
        if r.item_id == id {
            let ghost names_before = names@.map_values(|s: String| s@);
            let ghost links_before = links@.map_values(|p: NameIdPair| p@);
            let name = tmdb_genre_name(r.tmdb_genre_id);
            let entry = NameIdPair { name: owned(name), id: uuid_string(r.genre_id) };
            names.push(owned(name));
            links.push(entry);
            assert(genres_of(rows@.take(k + 1), id) == pre.push(rows@[k as int]));
            assert(names@.map_values(|s: String| s@) =~= names_before.push(tmdb_genre(r.tmdb_genre_id)));
            assert(links@.map_values(|p: NameIdPair| p@) =~= links_before.push(
                NameIdView { name: tmdb_genre(r.tmdb_genre_id), id: uuid_text(r.genre_id) },
            ));
            assert(names@.map_values(|s: String| s@) =~= genres_of(rows@.take(k + 1), id).map_values(
                |g: GenreRow| tmdb_genre(g.tmdb_genre_id),
            ));
            assert(links@.map_values(|p: NameIdPair| p@) =~= genres_of(rows@.take(k + 1), id).map_values(
                |g: GenreRow| NameIdView { name: tmdb_genre(g.tmdb_genre_id), id: uuid_text(g.genre_id) },
            ));
        }
    }
    assert(rows@.take(rows@.len() as int) =~= rows@);
    (names, links)
}

proof fn lemma_seen_step(items: Seq<ItemView>, i: int, id: u128)
    requires
        0 <= i < items.len(),
    ensures
        id_seen_before(items, i + 1, id) <==> (id_seen_before(items, i, id) || uuid_parse(items[i].id) == Some(id)),
{
    if id_seen_before(items, i + 1, id) && uuid_parse(items[i].id) != Some(id) {
        let j = choose|j: int| 0 <= j < i + 1 && #[trigger] uuid_parse(items[j].id) == Some(id);
        assert(j < i);
        assert(id_seen_before(items, i, id));
    }
    if id_seen_before(items, i, id) {
        let j = choose|j: int| 0 <= j < i && #[trigger] uuid_parse(items[j].id) == Some(id);
        assert(0 <= j < i + 1);
    }
    if uuid_parse(items[i].id) == Some(id) {
        assert(0 <= i < i + 1);
    }
}

fn contains_id(ids: &Vec<u128>, id: u128) -> (r: bool)
    ensures
        r == ids@.contains(id),
{
    for k in 0..ids.len()
        invariant
            forall|j: int| 0 <= j < k ==> ids@[j] != id,
    {
        if ids[k] == id {
            return true;
        }
    }
    false
}

/// Gives items the genres their rows name.
pub fn apply_genres(items: &mut Vec<BaseItemDto>, rows: &Vec<GenreRow>)
    ensures
        items_view(final(items)@) == genred_items(items_view(old(items)@), rows@),
{
    let ghost before = items_view(items@);
    let ghost after = genred_items(before, rows@);
    let mut seen: Vec<u128> = Vec::new();
    let mut i: usize = 0;
    while i < items.len()
        invariant
            i <= items.len(),
            items.len() == before.len(),
            before == items_view(old(items)@),
            after == genred_items(before, rows@),
            forall|id: u128| seen@.contains(id) <==> id_seen_before(before, i as int, id),
            forall|j: int| 0 <= j < i ==> #[trigger] items@[j]@ == after[j],
            forall|j: int| i <= j < items.len() ==> #[trigger] items@[j]@ == before[j],
        decreases items.len() - i,
    {
        assert(items@[i as int]@ == before[i as int]);
        let parsed = parse_uuid(items[i].id.as_str());
        let ghost old_seen = seen@;
        match parsed {
            Some(id) => {
                let taken = contains_id(&seen, id);
                if !taken {
                    let (names, links) = collect_genres(rows, id);
                    assert(names@.map_values(|s: String| s@).len() == names@.len());
                    assert(names@.len() == genres_of(rows@, id).len());
                    if names.len() > 0 {
                        items[i].genres = names;
                        items[i].genre_items = links;
                    }
                    seen.push(id);
                }
                assert forall|u: u128| seen@.contains(u) <==> id_seen_before(before, i + 1, u) by {
                    lemma_seen_step(before, i as int, u);
                    if !taken {
                        assert(seen@ == old_seen.push(id));
                        if u == id {
                            assert(seen@[old_seen.len() as int] == u);
                        }
                        if old_seen.contains(u) {
                            let k = choose|k: int| 0 <= k < old_seen.len() && old_seen[k] == u;
                            assert(seen@[k] == u);
                        }
                        if seen@.contains(u) {
                            let k = choose|k: int| 0 <= k < seen@.len() && seen@[k] == u;
                            if k < old_seen.len() {
                                assert(old_seen[k] == u);
                            }
                        }
                    }
                }
            },
            None => {
                assert forall|u: u128| seen@.contains(u) <==> id_seen_before(before, i + 1, u) by {
                    lemma_seen_step(before, i as int, u);
                }
            },
        }
        assert(items@[i as int]@ == after[i as int]);
        i = i + 1;
    }
    assert(items_view(items@) =~= after);
}

/// A cast row of an item: the person, their role (and character, for
/// actors) and their billing position.
pub struct CastRow {
    pub person_id: u128,
    pub name: String,
    pub profile_path: Option<String>,
    pub role: String,
    pub character: Option<String>,
    pub sort_order: i32,
}

/// The person a cast row describes: actors keep their character; the
/// person's id tags their picture when they have a profile image.
pub open spec fn person_of(r: CastRow) -> PersonView {
    let person_type = role_label(r.role@);
    let has_image = match r.profile_path {
        Some(p) => p@.len() > 0,
        None => false,
    };
    PersonView {
        name: r.name@,
        id: uuid_text(r.person_id),
        role: if person_type == "Actor"@ {
            opt_view(r.character)
        } else {
            None
        },
        person_type: person_type,
        primary_image_tag: if has_image {
            Some(uuid_text(r.person_id))
        } else {
            None
        },
    }
}

/// The person of a cast row.
pub fn person_from_cast(r: &CastRow) -> (p: PersonDto)
    ensures
        p@ == person_of(*r),
{
    let person_type = capitalize_role(r.role.as_str());
    let has_image = match &r.profile_path {
        Some(p) => !p.as_str().is_empty(),
        None => false,
    };
    let id = uuid_string(r.person_id);
    let is_actor = str_is(&chars_of(person_type.as_str()), "Actor");
    PersonDto {
        name: r.name.clone(),
        role: if is_actor {
            clone_opt(&r.character)
        } else {
            None
        },
        person_type: person_type,
        primary_image_tag: if has_image {
            Some(id.clone())
        } else {
            None
        },
        id: id,
    }
}

/// Where a row goes when added to rows ordered by billing: after the last
/// row whose position is not later than its own.
pub open spec fn insert_pos(s: Seq<CastRow>, order: i32) -> int
    decreases s.len(),
{
    if s.len() == 0 {
        0
    } else if s.last().sort_order <= order {
        s.len() as int
    } else {
        insert_pos(s.drop_last(), order)
    }
}

/// Rows ordered by billing with `r` added after the rows billed no later.
pub open spec fn insert_by_order(s: Seq<CastRow>, r: CastRow) -> Seq<CastRow>
    decreases s.len(),
{
    if s.len() == 0 {
        seq![r]
    } else if s.last().sort_order <= r.sort_order {
        s.push(r)
    } else {
        insert_by_order(s.drop_last(), r).push(s.last())
    }
}

/// The rows ordered by billing position, rows with the same position in
/// the order they came in (a stable sort, as `sort_by_key` is).
pub open spec fn sorted_by_order(rows: Seq<CastRow>) -> Seq<CastRow>
    decreases rows.len(),
{
    if rows.len() == 0 {
        Seq::empty()
    } else {
        insert_by_order(sorted_by_order(rows.drop_last()), rows.last())
    }
}

/// The rows billed at position `order`, in their order.
pub open spec fn rows_at(s: Seq<CastRow>, order: i32) -> Seq<CastRow>
    decreases s.len(),
{
    if s.len() == 0 {
        Seq::empty()
    } else {
        let pre = rows_at(s.drop_last(), order);
        if s.last().sort_order == order {
            pre.push(s.last())
        } else {
            pre
        }
    }
}

/// Whether rows are ordered by billing position.
pub open spec fn billing_ordered(s: Seq<CastRow>) -> bool {
    forall|i: int, j: int| 0 <= i < j < s.len() ==> s[i].sort_order <= s[j].sort_order
}

proof fn lemma_insert_at(s: Seq<CastRow>, r: CastRow, p: int)
    requires
        0 <= p <= s.len(),
        p > 0 ==> s[p - 1].sort_order <= r.sort_order,
        forall|j: int| p <= j < s.len() ==> s[j].sort_order > r.sort_order,
    ensures
        insert_by_order(s, r) == s.take(p) + seq![r] + s.skip(p),
    decreases s.len(),
{
    if s.len() == 0 {
        assert(s.take(p) + seq![r] + s.skip(p) =~= seq![r]);
    } else if p == s.len() {
        assert(s.take(p) + seq![r] + s.skip(p) =~= s.push(r));
    } else {
        let t = s.drop_last();
        assert(s.last() == s[s.len() - 1]);
        lemma_insert_at(t, r, p);
        assert(s.take(p) + seq![r] + s.skip(p) =~= (t.take(p) + seq![r] + t.skip(p)).push(s.last()));
    }
}

proof fn lemma_insert_pos(s: Seq<CastRow>, order: i32)
    ensures
        0 <= insert_pos(s, order) <= s.len(),
        insert_pos(s, order) > 0 ==> s[insert_pos(s, order) - 1].sort_order <= order,
        forall|j: int| insert_pos(s, order) <= j < s.len() ==> s[j].sort_order > order,
    decreases s.len(),
{
    if s.len() > 0 && s.last().sort_order > order {
        let t = s.drop_last();
        lemma_insert_pos(t, order);
        assert forall|j: int| insert_pos(s, order) <= j < s.len() implies s[j].sort_order > order by {
            if j < s.len() - 1 {
                assert(s[j] == t[j]);
            }
        }
    }
}

proof fn lemma_rows_at_concat(a: Seq<CastRow>, b: Seq<CastRow>, order: i32)
    ensures
        rows_at(a + b, order) == rows_at(a, order) + rows_at(b, order),
    decreases b.len(),
{
    if b.len() == 0 {
        assert(a + b =~= a);
        assert(rows_at(a, order) + rows_at(b, order) =~= rows_at(a, order));
    } else {
        lemma_rows_at_concat(a, b.drop_last(), order);
        assert((a + b).drop_last() =~= a + b.drop_last());
        assert((a + b).last() == b.last());
    }
}

proof fn lemma_rows_at_none(s: Seq<CastRow>, order: i32)
    requires
        forall|j: int| 0 <= j < s.len() ==> s[j].sort_order != order,
    ensures
        rows_at(s, order) == Seq::<CastRow>::empty(),
    decreases s.len(),
{
    if s.len() > 0 {
        lemma_rows_at_none(s.drop_last(), order);
    }
}

proof fn lemma_insert_rows_at(s: Seq<CastRow>, r: CastRow, order: i32)
    ensures
        rows_at(insert_by_order(s, r), order) == if r.sort_order == order {
            rows_at(s, order).push(r)
        } else {
            rows_at(s, order)
        },
{
    let p = insert_pos(s, r.sort_order);
    lemma_insert_pos(s, r.sort_order);
    lemma_insert_at(s, r, p);
    let pre = s.take(p);
    let post = s.skip(p);
    assert(s =~= pre + post);
    lemma_rows_at_concat(pre + seq![r], post, order);
    lemma_rows_at_concat(pre, seq![r], order);
    lemma_rows_at_concat(pre, post, order);
    assert(seq![r].drop_last() =~= Seq::<CastRow>::empty());
    assert(seq![r].last() == r);
    assert(rows_at(Seq::<CastRow>::empty(), order) == Seq::<CastRow>::empty());
    assert(rows_at(seq![r], order) == if r.sort_order == order { seq![r] } else { Seq::<CastRow>::empty() });
    if r.sort_order == order {
        lemma_rows_at_none(post, order);
        assert(rows_at(pre, order) + seq![r] + Seq::<CastRow>::empty() =~= rows_at(pre, order).push(r));
        assert(rows_at(pre, order) + Seq::<CastRow>::empty() =~= rows_at(pre, order));
    } else {
        assert(rows_at(pre, order) + Seq::<CastRow>::empty() =~= rows_at(pre, order));
    }
}

proof fn lemma_insert_ordered(s: Seq<CastRow>, r: CastRow)
    requires
        billing_ordered(s),
    ensures
        billing_ordered(insert_by_order(s, r)),
{
    let p = insert_pos(s, r.sort_order);
    lemma_insert_pos(s, r.sort_order);
    lemma_insert_at(s, r, p);
    let t = insert_by_order(s, r);
    assert forall|i: int, j: int| 0 <= i < j < t.len() implies t[i].sort_order <= t[j].sort_order by {
        if j < p {
        } else if j == p {
            if i < p - 1 {
                assert(s[i].sort_order <= s[p - 1].sort_order);
            }
        } else if i < p {
            assert(s[i].sort_order <= s[p - 1].sort_order);
            assert(t[j] == s[j - 1]);
        } else if i == p {
            assert(t[j] == s[j - 1]);
        } else {
            assert(t[i] == s[i - 1] && t[j] == s[j - 1]);
        }
    }
}

/// Sorting cast rows by billing orders them by position.
pub proof fn law_cast_billing_ordered(rows: Seq<CastRow>)
    ensures
        billing_ordered(sorted_by_order(rows)),
    decreases rows.len(),
{
    if rows.len() > 0 {
        law_cast_billing_ordered(rows.drop_last());
        lemma_insert_ordered(sorted_by_order(rows.drop_last()), rows.last());
    }
}

/// Sorting cast rows by billing keeps, at every position, exactly the rows
/// billed there, in the order they came in: it only reorders the rows, and
/// stably.
pub proof fn law_cast_sort_stable(rows: Seq<CastRow>, order: i32)
    ensures
        rows_at(sorted_by_order(rows), order) == rows_at(rows, order),
    decreases rows.len(),
{
    if rows.len() > 0 {
        law_cast_sort_stable(rows.drop_last(), order);
        lemma_insert_rows_at(sorted_by_order(rows.drop_last()), rows.last(), order);
    }
}

/// The rows ordered by billing position, stably.
pub fn sort_cast(rows: Vec<CastRow>) -> (r: Vec<CastRow>)
    ensures
        r@ == sorted_by_order(rows@),
{
    let ghost all = rows@;
    let mut out: Vec<CastRow> = Vec::new();
    let mut rest = rows;
    let mut k: usize = 0;
    let n = rest.len();
    // Take the rows in order from the back of a reversed copy.
    let mut reversed: Vec<CastRow> = Vec::new();
    while rest.len() > 0
        invariant
            reversed@.len() + rest@.len() == all.len(),
            rest@ == all.take(rest@.len() as int),
            forall|j: int| 0 <= j < reversed@.len() ==> #[trigger] reversed@[j] == all[all.len() - 1 - j],
        decreases rest.len(),
    {
        let x = rest.pop().unwrap();
        reversed.push(x);
    }
    while k < n
        invariant
            n == all.len(),
            k <= n,
            reversed@.len() == n - k,
            forall|j: int| 0 <= j < reversed@.len() ==> #[trigger] reversed@[j] == all[all.len() - 1 - j],
            out@ == sorted_by_order(all.take(k as int)),
        decreases n - k,
    {
        let r = reversed.pop().unwrap();
        assert(r == all[k as int]);
        let mut p = out.len();
        while p > 0 && out[p - 1].sort_order > r.sort_order
            invariant
                p <= out.len(),
                forall|j: int| p <= j < out@.len() ==> out@[j].sort_order > r.sort_order,
            decreases p,
        {
            p = p - 1;
        }
        proof {
            lemma_insert_at(out@, r, p as int);
            assert(all.take(k + 1).drop_last() =~= all.take(k as int));
            assert(all.take(k + 1).last() == r);
        }
        out.insert(p, r);
        assert(out@ =~= sorted_by_order(all.take(k + 1)));
        k = k + 1;
    }
    assert(all.take(n as int) =~= all);
    out
}

/// The people of a movie's cast rows, in row order.
pub fn movie_people(rows: &Vec<CastRow>) -> (r: Vec<PersonDto>)
    ensures
        r@.map_values(|p: PersonDto| p@) == rows@.map_values(|c: CastRow| person_of(c)),
{
    let mut r: Vec<PersonDto> = Vec::new();
    for k in 0..rows.len()
        invariant
            r@.map_values(|p: PersonDto| p@) == rows@.take(k as int).map_values(|c: CastRow| person_of(c)),
    {
        let ghost before = r@.map_values(|p: PersonDto| p@);
        let person = person_from_cast(&rows[k]);
        r.push(person);
        assert(r@.map_values(|p: PersonDto| p@) =~= before.push(person_of(rows@[k as int])));
        assert(rows@.take(k + 1) =~= rows@.take(k as int).push(rows@[k as int]));
        assert(r@.map_values(|p: PersonDto| p@) =~= rows@.take(k + 1).map_values(|c: CastRow| person_of(c)));
    }
    assert(rows@.take(rows@.len() as int) =~= rows@);
    r
}

/// The people of a series' cast rows, ordered by billing position.
pub fn show_people(rows: Vec<CastRow>) -> (r: Vec<PersonDto>)
    ensures
        r@.map_values(|p: PersonDto| p@) == sorted_by_order(rows@).map_values(|c: CastRow| person_of(c)),
{
    let sorted = sort_cast(rows);
    movie_people(&sorted)
}

/// Which cast an item shows.
pub enum CastSource {
    /// The item is left as it is.
    Skip,
    /// The movie's own cast.
    Movie(u128),
    /// The cast of the series with this id.
    Show(u128),
    /// No cast.
    Nobody,
}

/// The cast an item shows: a movie its own, a series its own, a season or
/// an episode that of its series (when the series id parses); items whose
/// id does not parse, and seasons or episodes without a series, are left
/// alone; other items have nobody.
pub open spec fn cast_source_of(item: ItemView) -> CastSource {
    match uuid_parse(item.id) {
        None => CastSource::Skip,
        Some(id) => if item.item_type == "Movie"@ {
            CastSource::Movie(id)
        } else if item.item_type == "Series"@ {
            CastSource::Show(id)
        } else if item.item_type == "Season"@ || item.item_type == "Episode"@ {
            match uuid_parse(
                match item.series_id {
                    Some(s) => s,
                    None => Seq::empty(),
                },
            ) {
                Some(show) => CastSource::Show(show),
                None => CastSource::Skip,
            }
        } else {
            CastSource::Nobody
        },
    }
}

/// The cast an item shows.
pub fn cast_source(item: &BaseItemDto) -> (r: CastSource)
    ensures
        r == cast_source_of(item@),
{
    proof {
        reveal_strlit("Movie");
        reveal_strlit("Series");
        reveal_strlit("Season");
        reveal_strlit("Episode");
        reveal_strlit("");
        assert("Series"@[2] != "Season"@[2]);
        assert("Movie"@.len() == 5 && "Series"@.len() == 6 && "Season"@.len() == 6);
        assert("Episode"@.len() == 7 && ""@ =~= Seq::<char>::empty());
    }
    match parse_uuid(item.id.as_str()) {
        None => CastSource::Skip,
        Some(id) => {
            let kind = chars_of(item.item_type.as_str());
            if str_is(&kind, "Movie") {
                CastSource::Movie(id)
            } else if str_is(&kind, "Series") {
                CastSource::Show(id)
            } else if str_is(&kind, "Season") || str_is(&kind, "Episode") {
                let show = match &item.series_id {
                    Some(s) => parse_uuid(s.as_str()),
                    None => parse_uuid(""),
                };
                match show {
                    Some(s) => CastSource::Show(s),
                    None => CastSource::Skip,
                }
            } else {
                CastSource::Nobody
            }
        },
    }
}


/// A cast member shows by name and by its own id's text, with the person
/// type its role maps to; only actors show the character they play; and it
/// has a primary image exactly when its profile path is not empty.
pub proof fn law_cast_people(r: CastRow)
    ensures
        person_of(r).name == r.name@,
        person_of(r).id == uuid_text(r.person_id),
        person_of(r).person_type == role_label(r.role@),
        role_label(r.role@) == "Actor"@ ==> person_of(r).role == opt_view(r.character),
        role_label(r.role@) != "Actor"@ ==> person_of(r).role is None,
        person_of(r).primary_image_tag is Some <==> (r.profile_path matches Some(p) && p@.len() > 0),
        person_of(r).primary_image_tag is Some ==> person_of(r).primary_image_tag == Some(uuid_text(r.person_id)),
{
}

} // verus!
