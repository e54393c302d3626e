//! Listing windows and in-memory ordering: the paging of result lists, the
//! stable ordering of a person's titles by a text key, and the fields a
//! listing leaves out of each item.

use vstd::prelude::*;
use crate::jellyfin::items::trunc_div;
use crate::jellyfin::models::{BaseItemDto, ItemView};

use crate::outside::{str_to_lowercase};
use crate::text::{lowercase_text, chars_of, opt_view, str_is};

verus! {

/// The part of a list a window shows: `take` items from position `skip`,
/// fewer at the end of the list.
pub open spec fn window<T>(s: Seq<T>, skip: int, take: int) -> Seq<T> {
    let from = if skip < s.len() {
        skip
    } else {
        s.len() as int
    };
    let rest = s.skip(from);
    if take < rest.len() {
        rest.take(take)
    } else {
        rest
    }
}

/// The items of a list in the window (`skip(skip).take(take)`).
pub fn page<T>(v: Vec<T>, skip: usize, take: usize) -> (r: Vec<T>)
    ensures
        r@ == window(v@, skip as int, take as int),
{
    let ghost all = v@;
    let mut v = v;
    let from = if skip < v.len() {
        skip
    } else {
        v.len()
    };
    let mut rest = v.split_off(from);
    assert(rest@ =~= all.skip(from as int));
    rest.truncate(take);
    assert(rest@ =~= window(all, skip as int, take as int));
    rest
}

/// The window of the next-up list: the requested start and limit taken as
/// `usize` (so a negative one wraps, as the `as usize` casts do).
pub fn next_up_window(start: i64, limit: i64) -> (r: (usize, usize))
    ensures
        r.0 == start as usize,
        r.1 == limit as usize,
{
    (#[verifier::truncate] (start as usize), #[verifier::truncate] (limit as usize))
}

/// The window of a person's titles: from the start (at least 0), at least
/// one item.
pub fn person_window(start: i64, limit: i64) -> (r: (usize, usize))
    ensures
        r.0 == (if start < 0 { 0 } else { start }) as usize,
        r.1 == (if limit < 1 { 1 } else { limit }) as usize,
{
    let s: i64 = if start < 0 {
        0
    } else {
        start
    };
    let l: i64 = if limit < 1 {
        1
    } else {
        limit
    };
    (#[verifier::truncate] (s as usize), #[verifier::truncate] (l as usize))
}

/// The per-query limit when movies and series are listed together: half
/// the limit, rounded toward zero.
pub fn all_media_limit(limit: i64) -> (r: i64)
    ensures
        r == trunc_div(limit as int, 2),
{
    limit / 2
}

/// Text order as `String`'s `Ord` compares (byte-wise on UTF-8, which is
/// the order of the characters' code points): `a` is not after `b`.
pub open spec fn key_le(a: Seq<char>, b: Seq<char>) -> bool
    decreases a.len(),
{
    if a.len() == 0 {
        true
    } else if b.len() == 0 {
        false
    } else if a[0] < b[0] {
        true
    } else if a[0] == b[0] {
        key_le(a.drop_first(), b.drop_first())
    } else {
        false
    }
}

/// Any two texts are ordered one way or the other.
pub proof fn lemma_key_le_total(a: Seq<char>, b: Seq<char>)
    ensures
        key_le(a, b) || key_le(b, a),
    decreases a.len(),
{
    if a.len() > 0 && b.len() > 0 {
        if a[0] == b[0] {
            lemma_key_le_total(a.drop_first(), b.drop_first());
        }
    }
}

/// The text order is transitive.
pub proof fn lemma_key_le_trans(a: Seq<char>, b: Seq<char>, c: Seq<char>)
    requires
        key_le(a, b),
        key_le(b, c),
    ensures
        key_le(a, c),
    decreases a.len(),
{
    if a.len() > 0 && b.len() > 0 && c.len() > 0 && a[0] == b[0] && b[0] == c[0] {
        lemma_key_le_trans(a.drop_first(), b.drop_first(), c.drop_first());
    }
}

/// Whether an entry with key `a` may stay before one with key `b` in the
/// chosen direction (ascending, or descending as `Reverse` keys sort).
pub open spec fn stays_before(a: Seq<char>, b: Seq<char>, descending: bool) -> bool {
    if descending {
        key_le(b, a)
    } else {
        key_le(a, b)
    }
}

/// Where an entry goes among entries ordered by key: after the last one it
/// does not come before.
pub open spec fn key_insert_pos<T>(s: Seq<(Seq<char>, T)>, key: Seq<char>, descending: bool) -> int
    decreases s.len(),
{
    if s.len() == 0 {
        0
    } else if stays_before(s.last().0, key, descending) {
        s.len() as int
    } else {
        key_insert_pos(s.drop_last(), key, descending)
    }
}

/// Entries ordered by key with `x` added after those that stay before it.
pub open spec fn insert_by_key<T>(s: Seq<(Seq<char>, T)>, x: (Seq<char>, T), descending: bool) -> Seq<(Seq<char>, T)>
    decreases s.len(),
{
    if s.len() == 0 {
        seq![x]
    } else if stays_before(s.last().0, x.0, descending) {
        s.push(x)
    } else {
        insert_by_key(s.drop_last(), x, descending).push(s.last())
    }
}

/// Entries sorted stably by key (`sort_by_key`), ascending or descending.
pub open spec fn sorted_by_key<T>(s: Seq<(Seq<char>, T)>, descending: bool) -> Seq<(Seq<char>, T)>
    decreases s.len(),
{
    if s.len() == 0 {
        Seq::empty()
    } else {
        insert_by_key(sorted_by_key(s.drop_last(), descending), s.last(), descending)
    }
}

/// Whether entries are in key order.
pub open spec fn key_ordered<T>(s: Seq<(Seq<char>, T)>, descending: bool) -> bool {
    forall|i: int, j: int| 0 <= i < j < s.len() ==> stays_before(#[trigger] s[i].0, #[trigger] s[j].0, descending)
}

/// The entries with key `key`, in order.
pub open spec fn entries_with_key<T>(s: Seq<(Seq<char>, T)>, key: Seq<char>) -> Seq<(Seq<char>, T)>
    decreases s.len(),
{
    if s.len() == 0 {
        Seq::empty()
    } else {
        let pre = entries_with_key(s.drop_last(), key);
        if s.last().0 == key {
            pre.push(s.last())
        } else {
            pre
        }
    }
}

proof fn lemma_key_insert_at<T>(s: Seq<(Seq<char>, T)>, x: (Seq<char>, T), descending: bool, p: int)
    requires
        0 <= p <= s.len(),
        p > 0 ==> stays_before(s[p - 1].0, x.0, descending),
        forall|j: int| p <= j < s.len() ==> !stays_before(#[trigger] s[j].0, x.0, descending),
    ensures
        insert_by_key(s, x, descending) == s.take(p) + seq![x] + s.skip(p),
    decreases s.len(),
{
    if s.len() == 0 {
        assert(s.take(p) + seq![x] + s.skip(p) =~= seq![x]);
    } else if p == s.len() {
        assert(s.take(p) + seq![x] + s.skip(p) =~= s.push(x));
    } else {
        let t = s.drop_last();
        assert(s.last() == s[s.len() - 1]);
        assert forall|j: int| p <= j < t.len() implies !stays_before(#[trigger] t[j].0, x.0, descending) by {
            assert(t[j] == s[j]);
        }
        lemma_key_insert_at(t, x, descending, p);
        assert(s.take(p) + seq![x] + s.skip(p) =~= (t.take(p) + seq![x] + t.skip(p)).push(s.last()));
    }
}

proof fn lemma_key_insert_pos<T>(s: Seq<(Seq<char>, T)>, key: Seq<char>, descending: bool)
    ensures
        0 <= key_insert_pos(s, key, descending) <= s.len(),
        key_insert_pos(s, key, descending) > 0 ==> stays_before(
            s[key_insert_pos(s, key, descending) - 1].0,
            key,
            descending,
        ),
        forall|j: int|
            key_insert_pos(s, key, descending) <= j < s.len() ==> !stays_before(#[trigger] s[j].0, key, descending),
    decreases s.len(),
{
    if s.len() > 0 && !stays_before(s.last().0, key, descending) {
        let t = s.drop_last();
        lemma_key_insert_pos(t, key, descending);
        assert forall|j: int| key_insert_pos(s, key, descending) <= j < s.len() implies !stays_before(
            #[trigger] s[j].0,
            key,
            descending,
        ) by {
            if j < s.len() - 1 {
                assert(s[j] == t[j]);
            }
        }
    }
}

proof fn lemma_stays_total(a: Seq<char>, b: Seq<char>, descending: bool)
    ensures
        !stays_before(a, b, descending) ==> stays_before(b, a, descending),
{
    lemma_key_le_total(a, b);
}

proof fn lemma_stays_trans(a: Seq<char>, b: Seq<char>, c: Seq<char>, descending: bool)
    requires
        stays_before(a, b, descending),
        stays_before(b, c, descending),
    ensures
        stays_before(a, c, descending),
{
    if descending {
        lemma_key_le_trans(c, b, a);
    } else {
        lemma_key_le_trans(a, b, c);
    }
}

proof fn lemma_key_insert_ordered<T>(s: Seq<(Seq<char>, T)>, x: (Seq<char>, T), descending: bool)
    requires
        key_ordered(s, descending),
    ensures
        key_ordered(insert_by_key(s, x, descending), descending),
{
    let p = key_insert_pos(s, x.0, descending);
    lemma_key_insert_pos(s, x.0, descending);
    lemma_key_insert_at(s, x, descending, p);
    let t = insert_by_key(s, x, descending);
    assert forall|i: int, j: int| 0 <= i < j < t.len() implies stays_before(#[trigger] t[i].0, #[trigger] t[j].0, descending) by {
        if j < p {
            assert(t[i] == s[i] && t[j] == s[j]);
        } else if j == p {
            assert(t[j] == x);
            assert(t[i] == s[i]);
            if i < p - 1 {
                assert(stays_before(s[i].0, s[p - 1].0, descending));
                lemma_stays_trans(s[i].0, s[p - 1].0, x.0, descending);
            }
        } else if i < p {
            assert(t[i] == s[i] && t[j] == s[j - 1]);
            lemma_stays_total(s[j - 1].0, x.0, descending);
            if i < p - 1 {
                assert(stays_before(s[i].0, s[p - 1].0, descending));
                lemma_stays_trans(s[i].0, s[p - 1].0, x.0, descending);
            }
            lemma_stays_trans(s[i].0, x.0, s[j - 1].0, descending);
        } else if i == p {
            assert(t[i] == x && t[j] == s[j - 1]);
            lemma_stays_total(s[j - 1].0, x.0, descending);
        } else {
            assert(t[i] == s[i - 1] && t[j] == s[j - 1]);
            assert(stays_before(s[i - 1].0, s[j - 1].0, descending));
        }
    }
}

proof fn lemma_entries_concat<T>(a: Seq<(Seq<char>, T)>, b: Seq<(Seq<char>, T)>, key: Seq<char>)
    ensures
        entries_with_key(a + b, key) == entries_with_key(a, key) + entries_with_key(b, key),
    decreases b.len(),
{
    if b.len() == 0 {
        assert(a + b =~= a);
        assert(entries_with_key(a, key) + entries_with_key(b, key) =~= entries_with_key(a, key));
    } else {
        lemma_entries_concat(a, b.drop_last(), key);
        assert((a + b).drop_last() =~= a + b.drop_last());
        assert((a + b).last() == b.last());
    }
}

proof fn lemma_entries_none<T>(s: Seq<(Seq<char>, T)>, key: Seq<char>)
    requires
        forall|j: int| 0 <= j < s.len() ==> #[trigger] s[j].0 != key,
    ensures
        entries_with_key(s, key) == Seq::<(Seq<char>, T)>::empty(),
    decreases s.len(),
{
    if s.len() > 0 {
        lemma_entries_none(s.drop_last(), key);
    }
}

proof fn lemma_key_le_refl(a: Seq<char>)
    ensures
        key_le(a, a),
    decreases a.len(),
{
    if a.len() > 0 {
        lemma_key_le_refl(a.drop_first());
    }
}

proof fn lemma_insert_entries<T>(s: Seq<(Seq<char>, T)>, x: (Seq<char>, T), descending: bool, key: Seq<char>)
    ensures
        entries_with_key(insert_by_key(s, x, descending), key) == if x.0 == key {
            entries_with_key(s, key).push(x)
        } else {
            entries_with_key(s, key)
        },
{
    let p = key_insert_pos(s, x.0, descending);
    lemma_key_insert_pos(s, x.0, descending);
    lemma_key_insert_at(s, x, descending, p);
    let pre = s.take(p);
    let post = s.skip(p);
    assert(s =~= pre + post);
    lemma_entries_concat(pre + seq![x], post, key);
    lemma_entries_concat(pre, seq![x], key);
    lemma_entries_concat(pre, post, key);
    assert(seq![x].drop_last() =~= Seq::<(Seq<char>, T)>::empty());
    assert(seq![x].last() == x);
    assert(entries_with_key(Seq::<(Seq<char>, T)>::empty(), key) == Seq::<(Seq<char>, T)>::empty());
    if x.0 == key {
        assert forall|j: int| 0 <= j < post.len() implies #[trigger] post[j].0 != key by {
            assert(post[j] == s[p + j]);
            lemma_key_le_refl(key);
        }
        lemma_entries_none(post, key);
        assert(entries_with_key(pre, key) + seq![x] + Seq::<(Seq<char>, T)>::empty()
            =~= entries_with_key(pre, key).push(x));
    } else {
        assert(entries_with_key(pre, key) + Seq::<(Seq<char>, T)>::empty() =~= entries_with_key(pre, key));
    }
}

/// Sorting by key puts the entries in key order (ascending, or
/// descending).
pub proof fn law_sorted_by_key_ordered<T>(s: Seq<(Seq<char>, T)>, descending: bool)
    ensures
        key_ordered(sorted_by_key(s, descending), descending),
    decreases s.len(),
{
    if s.len() > 0 {
        law_sorted_by_key_ordered(s.drop_last(), descending);
        lemma_key_insert_ordered(sorted_by_key(s.drop_last(), descending), s.last(), descending);
    }
}

/// Sorting by key keeps, for every key, exactly the entries with that key
/// in the order they came in: it only reorders, and stably.
pub proof fn law_sorted_by_key_stable<T>(s: Seq<(Seq<char>, T)>, descending: bool, key: Seq<char>)
    ensures
        entries_with_key(sorted_by_key(s, descending), key) == entries_with_key(s, key),
    decreases s.len(),
{
    if s.len() > 0 {
        law_sorted_by_key_stable(s.drop_last(), descending, key);
        lemma_insert_entries(sorted_by_key(s.drop_last(), descending), s.last(), descending, key);
    }
}

fn key_le_chars(a: &[char], b: &[char]) -> (r: bool)
    ensures
        r == key_le(a@, b@),
{
    let mut i: usize = 0;
    assert(a@.skip(0) =~= a@ && b@.skip(0) =~= b@);
    while i < a.len() && i < b.len() && a[i] == b[i]
        invariant
            i <= a.len() && i <= b.len(),
            key_le(a@, b@) == key_le(a@.skip(i as int), b@.skip(i as int)),
        decreases a.len() - i,
    {
        assert(a@.skip(i as int).drop_first() =~= a@.skip(i + 1));
        assert(b@.skip(i as int).drop_first() =~= b@.skip(i + 1));
        i = i + 1;
    }
    let ghost sa = a@.skip(i as int);
    let ghost sb = b@.skip(i as int);
    if i == a.len() {
        assert(sa.len() == 0);
        true
    } else if i == b.len() {
        assert(sb.len() == 0);
        false
    } else {
        assert(sa[0] == a@[i as int] && sb[0] == b@[i as int]);
        a[i] < b[i]
    }
}

fn stays_before_exec(a: &String, b: &String, descending: bool) -> (r: bool)
    ensures
        r == stays_before(a@, b@, descending),
{
    let ac = chars_of(a.as_str());
    let bc = chars_of(b.as_str());
    if descending {
        key_le_chars(&bc, &ac)
    } else {
        key_le_chars(&ac, &bc)
    }
}

/// The contents of keyed entries.
pub open spec fn keyed_view(v: Seq<(String, BaseItemDto)>) -> Seq<(Seq<char>, BaseItemDto)> {
    v.map_values(|p: (String, BaseItemDto)| (p.0@, p.1))
}

/// Entries sorted stably by their keys, ascending or descending.
pub fn sort_by_text_key(entries: Vec<(String, BaseItemDto)>, descending: bool) -> (r: Vec<(String, BaseItemDto)>)
    ensures
        keyed_view(r@) == sorted_by_key(keyed_view(entries@), descending),
{
    let ghost all = keyed_view(entries@);
    let n = entries.len();
    let mut rest = entries;
    let mut reversed: Vec<(String, BaseItemDto)> = Vec::new();
    while rest.len() > 0
        invariant
            reversed@.len() + rest@.len() == all.len(),
            keyed_view(rest@) == all.take(rest@.len() as int),
            forall|j: int| 0 <= j < reversed@.len() ==> (#[trigger] reversed@[j].0@, reversed@[j].1) == all[all.len() - 1 - j],
        decreases rest.len(),
    {
        let ghost before = rest@;
        let x = rest.pop().unwrap();
        assert(keyed_view(before)[before.len() - 1] == (x.0@, x.1));
        assert(keyed_view(rest@) =~= all.take(rest@.len() as int));
        reversed.push(x);
    }
    let mut out: Vec<(String, BaseItemDto)> = Vec::new();
    let mut k: usize = 0;
    while k < n
        invariant
            n == all.len(),
            k <= n,
            reversed@.len() == n - k,
            forall|j: int| 0 <= j < reversed@.len() ==> (#[trigger] reversed@[j].0@, reversed@[j].1) == all[all.len() - 1 - j],
            keyed_view(out@) == sorted_by_key(all.take(k as int), descending),
        decreases n - k,
    {
        let x = reversed.pop().unwrap();
        assert((x.0@, x.1) == all[k as int]);
        let mut p = out.len();
        while p > 0 && !stays_before_exec(&out[p - 1].0, &x.0, descending)
            invariant
                p <= out.len(),
                forall|j: int| p <= j < out@.len() ==> !stays_before(#[trigger] out@[j].0@, x.0@, descending),
            decreases p,
        {
            p = p - 1;
        }
        proof {
            let kv = keyed_view(out@);
            assert forall|j: int| p <= j < kv.len() implies !stays_before(#[trigger] kv[j].0, x.0@, descending) by {
                assert(kv[j].0 == out@[j].0@);
            }
            if p > 0 {
                assert(kv[p - 1].0 == out@[p - 1].0@);
            }
            lemma_key_insert_at(kv, (x.0@, x.1), descending, p as int);
            assert(all.take(k + 1).drop_last() =~= all.take(k as int));
            assert(all.take(k + 1).last() == (x.0@, x.1));
        }
        let ghost kv_before = keyed_view(out@);
        let ghost xv = (x.0@, x.1);
        out.insert(p, x);
        assert(keyed_view(out@) =~= kv_before.take(p as int) + seq![xv] + kv_before.skip(p as int));
        k = k + 1;
    }
    assert(all.take(n as int) =~= all);
    out
}

/// The text a person's titles are ordered by: the creation date, premiere
/// date or formatted community rating (empty when missing), or by default
/// the sort name (else the name), lowercased.
pub open spec fn person_order_key_of(item: ItemView, sort_field: Seq<char>, rating_text: Option<Seq<char>>) -> Seq<char> {
    let raw = if sort_field == "DateCreated"@ {
        match item.date_created {
            Some(d) => d,
            None => Seq::empty(),
        }
    } else if sort_field == "PremiereDate"@ {
        match item.premiere_date {
            Some(d) => d,
            None => Seq::empty(),
        }
    } else if sort_field == "CommunityRating"@ {
        match rating_text {
            Some(r) => r,
            None => Seq::empty(),
        }
    } else {
        match item.sort_name {
            Some(s) => s,
            None => item.name,
        }
    };
    lowercase_text(raw)
}

/// The key a person's title is ordered by; `rating_text` is its community
/// rating as the listing formats it (`{:010.6}`), when it has one.
pub fn person_order_key(item: &BaseItemDto, sort_field: &str, rating_text: &Option<String>) -> (r: String)
    ensures
        r@ == person_order_key_of(item@, sort_field@, opt_view(*rating_text)),
{
    let f = chars_of(sort_field);
    let raw: String = if str_is(&f, "DateCreated") {
        match &item.date_created {
            Some(d) => d.clone(),
            None => String::new(),
        }
    } else if str_is(&f, "PremiereDate") {
        match &item.premiere_date {
            Some(d) => d.clone(),
            None => String::new(),
        }
    } else if str_is(&f, "CommunityRating") {
        match rating_text {
            Some(r) => r.clone(),
            None => String::new(),
        }
    } else {
        match &item.sort_name {
            Some(s) => s.clone(),
            None => item.name.clone(),
        }
    };
    str_to_lowercase(raw.as_str())
}

/// A window shows at most `take` items, and they are the list's items
/// from position `skip` on, in order.
pub proof fn law_window_contiguous<T>(s: Seq<T>, skip: int, take: int)
    requires
        0 <= skip,
        0 <= take,
    ensures
        window(s, skip, take).len() <= take,
        forall|i: int| 0 <= i < window(s, skip, take).len() ==> #[trigger] window(s, skip, take)[i] == s[skip + i],
        skip + take <= s.len() ==> window(s, skip, take).len() == take,
{
}


/// A person's titles are ordered by the lowercase of the field the request
/// sorts by: the creation time for `DateCreated`, the premiere date for
/// `PremiereDate`, the formatted rating for `CommunityRating` (a missing
/// one as empty text), and otherwise the sort name, else the name.
pub proof fn law_person_order_fields(item: ItemView, sort_field: Seq<char>, rating_text: Option<Seq<char>>)
    ensures
        sort_field == "DateCreated"@ ==> person_order_key_of(item, sort_field, rating_text) == lowercase_text(
            match item.date_created {
                Some(d) => d,
                None => Seq::empty(),
            },
        ),
        sort_field == "PremiereDate"@ ==> person_order_key_of(item, sort_field, rating_text) == lowercase_text(
            match item.premiere_date {
                Some(d) => d,
                None => Seq::empty(),
            },
        ),
        sort_field == "CommunityRating"@ ==> person_order_key_of(item, sort_field, rating_text)
            == lowercase_text(
            match rating_text {
                Some(r) => r,
                None => Seq::empty(),
            },
        ),
        (sort_field != "DateCreated"@ && sort_field != "PremiereDate"@ && sort_field != "CommunityRating"@)
            ==> person_order_key_of(item, sort_field, rating_text) == lowercase_text(
            match item.sort_name {
                Some(s) => s,
                None => item.name,
            },
        ),
{
    reveal_strlit("DateCreated");
    reveal_strlit("PremiereDate");
    reveal_strlit("CommunityRating");
    assert("DateCreated"@.len() == 11 && "PremiereDate"@.len() == 12 && "CommunityRating"@.len() == 15);
}

} // verus!
