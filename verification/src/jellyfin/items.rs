//! Library browsing: genre names, tick conversions, Jellyfin keys and
//! ETags, path inference for series and seasons, and the `Fields=` query.

use vstd::prelude::*;
use crate::outside::str_to_lowercase;
use crate::numbers::{hex_digits, lemma_hex_digits_ascii, uuid_text};
use crate::text::{lowercase_text, last_index_of, after_last, ascii_lower, ascii_lower_chars, ascii_lower_seq, ascii_upper, is_ascii_text, byte_slice, char_ascii_upper, char_pos, char_index_at_byte, chars_of, concat_chars, eq_ignore_ascii_case, eq_ignore_ascii_case_chars, has_prefix, is_ascii_digit, is_boundary, lemma_char_pos, opt_view, remove_char, rsplit_once, rsplit_once_chars, rfind_char, split_chars, split_on, starts_with_chars, str_is, string_of, sub_chars, trim, trim_chars, trim_end_char, trim_end_char_chars, utf8_len, utf8_len_of, without_char, all_ascii_digits, seq_views};

verus! {

/// The TMDB genre name for a TMDB genre id.
pub open spec fn tmdb_genre(id: i32) -> Seq<char> {
    if id == 12 { "Adventure"@ }
    else if id == 14 { "Fantasy"@ }
    else if id == 16 { "Animation"@ }
    else if id == 18 { "Drama"@ }
    else if id == 27 { "Horror"@ }
    else if id == 28 { "Action"@ }
    else if id == 35 { "Comedy"@ }
    else if id == 36 { "History"@ }
    else if id == 37 { "Western"@ }
    else if id == 53 { "Thriller"@ }
    else if id == 80 { "Crime"@ }
    else if id == 99 { "Documentary"@ }
    else if id == 878 { "Science Fiction"@ }
    else if id == 9648 { "Mystery"@ }
    else if id == 10402 { "Music"@ }
    else if id == 10749 { "Romance"@ }
    else if id == 10751 { "Family"@ }
    else if id == 10752 { "War"@ }
    else if id == 10759 { "Action & Adventure"@ }
    else if id == 10762 { "Kids"@ }
    else if id == 10763 { "News"@ }
    else if id == 10764 { "Reality"@ }
    else if id == 10765 { "Sci-Fi & Fantasy"@ }
    else if id == 10766 { "Soap"@ }
    else if id == 10767 { "Talk"@ }
    else if id == 10768 { "War & Politics"@ }
    else if id == 10770 { "TV Movie"@ }
    else { "Unknown"@ }
}

/// TMDB genre id → name (`Unknown` for ids TMDB does not define).
pub fn tmdb_genre_name(id: i32) -> (r: &'static str)
    ensures
        r@ == tmdb_genre(id),
{
    match id {
        12 => "Adventure",
        14 => "Fantasy",
        16 => "Animation",
        18 => "Drama",
        27 => "Horror",
        28 => "Action",
        35 => "Comedy",
        36 => "History",
        37 => "Western",
        53 => "Thriller",
        80 => "Crime",
        99 => "Documentary",
        878 => "Science Fiction",
        9648 => "Mystery",
        10402 => "Music",
        10749 => "Romance",
        10751 => "Family",
        10752 => "War",
        10759 => "Action & Adventure",
        10762 => "Kids",
        10763 => "News",
        10764 => "Reality",
        10765 => "Sci-Fi & Fantasy",
        10766 => "Soap",
        10767 => "Talk",
        10768 => "War & Politics",
        10770 => "TV Movie",
        _ => "Unknown",
    }
}

/// Ticks per second in Jellyfin's time unit (100 ns).
pub open spec fn ticks_per_second() -> int {
    10_000_000
}

/// Seconds → Jellyfin ticks.
pub fn seconds_to_ticks(secs: i32) -> (r: i64)
    ensures
        r == secs * ticks_per_second(),
{
    (secs as i64) * 10_000_000
}

/// `a / b` rounded toward zero, as Rust's integer division does.
pub open spec fn trunc_div(a: int, b: int) -> int {
    if a >= 0 {
        a / b
    } else {
        -((-a) / b)
    }
}

/// Jellyfin ticks → whole seconds (toward zero), wrapped to 32 bits as an
/// `as i32` cast wraps.
pub fn ticks_to_seconds(ticks: i64) -> (r: i32)
    ensures
        r == trunc_div(ticks as int, ticks_per_second()) as i32,
{
    let q: i64 = if ticks >= 0 {
        ticks / 10_000_000
    } else {
        let m: i64 = if ticks == i64::MIN { i64::MAX } else { -ticks };
        let d = m / 10_000_000;
        assert(ticks == i64::MIN ==> (-(ticks as int)) / 10_000_000 == (i64::MAX as int) / 10_000_000);
        -d
    };
    #[verifier::truncate]
    (q as i32)
}

} // verus!

verus! {

/// Whether `id` can be formatted as a key without slicing inside a
/// character: when its hyphen-free form is 32 bytes long, the byte offsets
/// 8, 12, 16 and 20 fall between characters.
pub open spec fn key_formattable(id: Seq<char>) -> bool {
    let clean = without_char(id, '-');
    utf8_len(clean) == 32 ==> {
        &&& is_boundary(clean, 8)
        &&& is_boundary(clean, 12)
        &&& is_boundary(clean, 16)
        &&& is_boundary(clean, 20)
    }
}

/// The 8-4-4-4-12 hyphenation (by bytes) of a 32-byte hyphen-free id.
pub open spec fn hyphenated_key(clean: Seq<char>) -> Seq<char> {
    byte_slice(clean, 0, 8) + seq!['-'] + byte_slice(clean, 8, 12) + seq!['-'] + byte_slice(
        clean,
        12,
        16,
    ) + seq!['-'] + byte_slice(clean, 16, 20) + seq!['-'] + byte_slice(clean, 20, 32)
}

/// Jellyfin's hyphenated key of an id: the hyphen-free form split 8-4-4-4-12
/// (by bytes) when it is 32 bytes long, else the id unchanged.
pub open spec fn jellyfin_key(id: Seq<char>) -> Seq<char> {
    let clean = without_char(id, '-');
    if utf8_len(clean) == 32 {
        hyphenated_key(clean)
    } else {
        id
    }
}

/// A text's UTF-8 length is at most four bytes per character.
pub proof fn lemma_utf8_len_le_usize(s: Seq<char>)
    ensures
        utf8_len(s) <= 4 * s.len(),
    decreases s.len(),
{
    if s.len() > 0 {
        lemma_utf8_len_le_usize(s.drop_last());
    }
}

/// Format a UUID string into Jellyfin's hyphenated key format (8-4-4-4-12).
pub fn format_jellyfin_key(id: &str) -> (r: String)
    requires
        key_formattable(id@),
    ensures
        r@ == jellyfin_key(id@),
{
    let v = chars_of(id);
    let clean = remove_char(&v, '-');
    proof {
        lemma_utf8_len_le_usize(clean@);
    }
    if clean.len() > usize::MAX / 4 {
        // More than a quarter of the address space of characters cannot be
        // 32 bytes long.
        proof {
            lemma_utf8_len_ge_len(clean@);
        }
        assert(utf8_len(clean@) != 32);
        return string_of(&v);
    }
    let n = utf8_len_of(&clean);
    if n == 32 {
        let k0 = char_index_at_byte(&clean, 0);
        let k8 = char_index_at_byte(&clean, 8);
        let k12 = char_index_at_byte(&clean, 12);
        let k16 = char_index_at_byte(&clean, 16);
        let k20 = char_index_at_byte(&clean, 20);
        let k32 = char_index_at_byte(&clean, 32);
        assert(clean@.take(0) =~= Seq::<char>::empty());
        assert(clean@.take(clean@.len() as int) == clean@);
        assert(utf8_len(clean@.take(0)) == 0);
        assert(utf8_len(clean@.take(clean@.len() as int)) == 32);
        assert(is_boundary(clean@, 0));
        assert(is_boundary(clean@, 32));
        match (k0, k8, k12, k16, k20, k32) {
            (Some(a), Some(b), Some(c), Some(d), Some(e), Some(f)) => {
                proof {
                    lemma_char_pos(clean@, 0, a as int);
                    lemma_char_pos(clean@, 8, b as int);
                    lemma_char_pos(clean@, 12, c as int);
                    lemma_char_pos(clean@, 16, d as int);
                    lemma_char_pos(clean@, 20, e as int);
                    lemma_char_pos(clean@, 32, f as int);
                    lemma_char_pos(clean@, 0, 0);
                    lemma_char_pos(clean@, 32, clean@.len() as int);
                    lemma_take_order(clean@, a as int, b as int, 0, 8);
                    lemma_take_order(clean@, b as int, c as int, 8, 12);
                    lemma_take_order(clean@, c as int, d as int, 12, 16);
                    lemma_take_order(clean@, d as int, e as int, 16, 20);
                    lemma_take_order(clean@, e as int, f as int, 20, 32);
                }
                let mut out: Vec<char> = sub_chars(&clean, a, b);
                out.push('-');
                let p2 = sub_chars(&clean, b, c);
                let mut out = concat_chars(&out, &p2);
                out.push('-');
                let p3 = sub_chars(&clean, c, d);
                let mut out = concat_chars(&out, &p3);
                out.push('-');
                let p4 = sub_chars(&clean, d, e);
                let mut out = concat_chars(&out, &p4);
                out.push('-');
                let p5 = sub_chars(&clean, e, f);
                let out = concat_chars(&out, &p5);
                assert(out@ =~= jellyfin_key(id@));
                string_of(&out)
            },
            _ => {
                // key_formattable rules this out.
                assert(false);
                string_of(&v)
            },
        }
    } else {
        string_of(&v)
    }
}

/// A text's UTF-8 length is at least one byte per character.
pub proof fn lemma_utf8_len_ge_len(s: Seq<char>)
    ensures
        utf8_len(s) >= s.len(),
    decreases s.len(),
{
    if s.len() > 0 {
        lemma_utf8_len_ge_len(s.drop_last());
    }
}

proof fn lemma_take_order(s: Seq<char>, j: int, k: int, m: int, n: int)
    requires
        0 <= j <= s.len(),
        0 <= k <= s.len(),
        utf8_len(s.take(j)) == m,
        utf8_len(s.take(k)) == n,
        m <= n,
    ensures
        j <= k,
{
    if k < j {
        crate::text::lemma_utf8_len_take_mono(s, k, j);
    }
}

} // verus!

verus! {

/// The non-empty contents of optional strings.
pub open spec fn opt_views(parts: Seq<Option<String>>) -> Seq<Option<Seq<char>>> {
    parts.map_values(|o: Option<String>| opt_view(o))
}

/// An ETag: the id followed by each present, non-empty part, joined by `|`.
pub open spec fn etag_of(id: Seq<char>, parts: Seq<Option<Seq<char>>>) -> Seq<char>
    decreases parts.len(),
{
    if parts.len() == 0 {
        id
    } else {
        let pre = etag_of(id, parts.drop_last());
        match parts.last() {
            Some(v) => if v.len() > 0 {
                pre + seq!['|'] + v
            } else {
                pre
            },
            None => pre,
        }
    }
}

/// Join the id and every present, non-empty part with `|`.
pub fn build_jellyfin_etag(id: &str, parts: &[Option<String>]) -> (r: String)
    ensures
        r@ == etag_of(id@, opt_views(parts@)),
{
    let mut out = chars_of(id);
    let ghost pv = opt_views(parts@);
    for i in 0..parts.len()
        invariant
            pv == opt_views(parts@),
            out@ == etag_of(id@, pv.take(i as int)),
    {
        assert(pv.take(i + 1).drop_last() == pv.take(i as int));
        assert(pv.take(i + 1).last() == opt_view(parts@[i as int]));
        match &parts[i] {
            Some(value) => {
                if !value.as_str().is_empty() {
                    let v = chars_of(value.as_str());
                    out.push('|');
                    out = concat_chars(&out, &v);
                }
            },
            None => {},
        }
    }
    assert(pv.take(pv.len() as int) == pv);
    string_of(&out)
}

/// The parent directory of a slash-separated path: the text before the last
/// `/` once trailing slashes are dropped, `/` for a top-level entry, and
/// nothing for an empty path or one without a slash.
pub open spec fn slash_parent_of(path: Seq<char>) -> Option<Seq<char>> {
    let trimmed = trim_end_char(path, '/');
    if trimmed.len() == 0 {
        None
    } else {
        match rsplit_once(trimmed, '/') {
            Some((parent, _)) => if parent.len() == 0 {
                Some(seq!['/'])
            } else {
                Some(parent)
            },
            None => None,
        }
    }
}

/// The parent directory of a slash-separated path.
pub fn slash_parent(path: &str) -> (r: Option<String>)
    ensures
        opt_view(r) == slash_parent_of(path@),
{
    let v = chars_of(path);
    let trimmed = trim_end_char_chars(&v, '/');
    if trimmed.len() == 0 {
        return None;
    }
    match rsplit_once_chars(&trimmed, '/') {
        Some((parent, _)) => {
            if parent.len() == 0 {
                let slash = vec!['/'];
                assert(slash@ == seq!['/']);
                Some(string_of(&slash))
            } else {
                Some(string_of(&parent))
            }
        },
        None => None,
    }
}

/// Whether a (lowercased) directory name names a season folder: `specials`,
/// `season …` with a space, hyphen or underscore, or `s` followed only by
/// ASCII digits.
pub open spec fn is_season_folder(last: Seq<char>) -> bool {
    ||| last == "specials"@
    ||| has_prefix(last, "season "@)
    ||| has_prefix(last, "season-"@)
    ||| has_prefix(last, "season_"@)
    ||| (last.len() >= 1 && last[0] == 's' && forall|j: int|
        1 <= j < last.len() ==> is_ascii_digit(#[trigger] last[j]))
}

/// A path with a trailing season folder replaced by its parent.
pub open spec fn season_stripped(path: Seq<char>) -> Seq<char> {
    if is_season_folder(ascii_lower_seq(after_last(path, '/'))) {
        match slash_parent_of(path) {
            Some(p) => p,
            None => path,
        }
    } else {
        path
    }
}

/// The last path component of `v` (`rsplit('/').next()`).
fn last_component(v: &[char]) -> (r: Vec<char>)
    ensures
        r@ == after_last(v@, '/'),
{
    match rfind_char(v, '/') {
        Some(i) => {
            let n = v.len();
            sub_chars(v, i + 1, n)
        },
        None => sub_chars(v, 0, v.len()),
    }
}

/// The path itself, or its parent when its last component is a season folder.
pub fn maybe_strip_season_directory(path: &str) -> (r: Option<String>)
    ensures
        opt_view(r) == Some(season_stripped(path@)),
{
    let v = chars_of(path);
    let last_raw = last_component(&v);
    let last = ascii_lower_chars(&last_raw);
    let is_season_folder = str_is(&last, "specials") || starts_with_chars(&last, &chars_of("season "))
        || starts_with_chars(&last, &chars_of("season-")) || starts_with_chars(
        &last,
        &chars_of("season_"),
    ) || (last.len() >= 1 && last[0] == 's' && all_ascii_digits(&sub_chars(&last, 1, last.len())));
    proof {
        if last@.len() >= 1 && last@[0] == 's' {
            let tail = last@.subrange(1, last@.len() as int);
            assert((forall|j: int| 0 <= j < tail.len() ==> is_ascii_digit(#[trigger] tail[j]))
                == (forall|j: int| 1 <= j < last@.len() ==> is_ascii_digit(#[trigger] last@[j]))) by {
                if forall|j: int| 0 <= j < tail.len() ==> is_ascii_digit(#[trigger] tail[j]) {
                    assert forall|j: int| 1 <= j < last@.len() implies is_ascii_digit(
                        #[trigger] last@[j],
                    ) by {
                        assert(tail[j - 1] == last@[j]);
                    }
                }
            }
        }
    }
    assert(is_season_folder == crate::jellyfin::items::is_season_folder(ascii_lower_seq(after_last(path@, '/'))));
    if is_season_folder {
        match slash_parent(path) {
            Some(p) => Some(p),
            None => Some(string_of(&v)),
        }
    } else {
        Some(string_of(&v))
    }
}

/// A series directory guessed from one of its video files: the file's
/// directory, without a trailing season folder.
pub open spec fn series_path_from_sample(sample: Seq<char>) -> Option<Seq<char>> {
    match slash_parent_of(sample) {
        Some(parent) => Some(season_stripped(parent)),
        None => None,
    }
}

/// The series directory guessed from the path of one of its video files.
pub fn infer_series_path_from_sample(sample_path: &str) -> (r: Option<String>)
    ensures
        opt_view(r) == series_path_from_sample(sample_path@),
{
    match slash_parent(sample_path) {
        Some(parent) => maybe_strip_season_directory(parent.as_str()),
        None => None,
    }
}

/// Whether the comma-separated `Fields=` list names `name` (ignoring ASCII
/// case and surrounding whitespace).
pub open spec fn fields_name(fields: Seq<char>, name: Seq<char>) -> bool {
    exists|i: int|
        0 <= i < split_on(fields, ',').len() && eq_ignore_ascii_case(
            trim(#[trigger] split_on(fields, ',')[i]),
            name,
        )
}

/// Whether the optional `Fields=` list names `name`.
pub fn has_field(fields: Option<&str>, name: &str) -> (r: bool)
    ensures
        r == match fields {
            Some(f) => fields_name(f@, name@),
            None => false,
        },
{
    match fields {
        None => false,
        Some(f) => {
            let v = chars_of(f);
            let n = chars_of(name);
            let parts = split_chars(&v, ',');
            let ghost pv = seq_views(parts@);
            let mut i: usize = 0;
            while i < parts.len()
                invariant
                    i <= parts@.len(),
                    pv == seq_views(parts@),
                    pv == split_on(f@, ','),
                    fields == Some(f),
                    n@ == name@,
                    forall|j: int| 0 <= j < i ==> !eq_ignore_ascii_case(trim(#[trigger] pv[j]), name@),
                decreases parts.len() - i,
            {
                let t = trim_chars(&parts[i]);
                if eq_ignore_ascii_case_chars(&t, &n) {
                    assert(pv[i as int] == parts@[i as int]@);
                    assert(eq_ignore_ascii_case(trim(split_on(f@, ',')[i as int]), name@));
                    assert(fields_name(f@, name@));
                    return true;
                }
                i = i + 1;
            }
            false
        },
    }
}

/// `s` with its first character ASCII-uppercased when that character is a
/// single byte (what `get_mut(0..1)` + `make_ascii_uppercase` does).
pub open spec fn capitalize_first_ascii(s: Seq<char>) -> Seq<char> {
    if s.len() > 0 && (s[0] as u32) < 0x80 {
        s.update(0, ascii_upper(s[0]))
    } else {
        s
    }
}

/// The Jellyfin person type for a cast role.
pub open spec fn role_label(role: Seq<char>) -> Seq<char> {
    let l = lowercase_text(role);
    if l == "actor"@ {
        "Actor"@
    } else if l == "director"@ {
        "Director"@
    } else if l == "writer"@ {
        "Writer"@
    } else if l == "producer"@ {
        "Producer"@
    } else if l == "composer"@ || l == "music"@ {
        "Composer"@
    } else if l == "gueststar"@ || l == "guest_star"@ {
        "GuestStar"@
    } else {
        capitalize_first_ascii(role)
    }
}

/// Map a stored cast role to a Jellyfin person type.
pub fn capitalize_role(role: &str) -> (r: String)
    ensures
        r@ == role_label(role@),
{
    let lower_s = str_to_lowercase(role);
    let l = chars_of(lower_s.as_str());
    if str_is(&l, "actor") {
        string_of(&chars_of("Actor"))
    } else if str_is(&l, "director") {
        string_of(&chars_of("Director"))
    } else if str_is(&l, "writer") {
        string_of(&chars_of("Writer"))
    } else if str_is(&l, "producer") {
        string_of(&chars_of("Producer"))
    } else if str_is(&l, "composer") || str_is(&l, "music") {
        string_of(&chars_of("Composer"))
    } else if str_is(&l, "gueststar") || str_is(&l, "guest_star") {
        string_of(&chars_of("GuestStar"))
    } else {
        let mut s = chars_of(role);
        if s.len() > 0 && (s[0] as u32) < 0x80 {
            let c = char_ascii_upper(s[0]);
            s.set(0, c);
        }
        string_of(&s)
    }
}

} // verus!

verus! {

proof fn lemma_without_char_ascii(s: Seq<char>, c: char)
    requires
        is_ascii_text(s),
    ensures
        is_ascii_text(without_char(s, c)),
    decreases s.len(),
{
    if s.len() > 0 {
        let rest = s.drop_last();
        assert(is_ascii_text(rest)) by {
            assert forall|j: int| 0 <= j < rest.len() implies (#[trigger] rest[j] as u32) < 0x80 by {
                assert(rest[j] == s[j]);
            }
        }
        lemma_without_char_ascii(rest, c);
        let w = without_char(rest, c);
        if s.last() != c {
            assert forall|j: int| 0 <= j < w.push(s.last()).len() implies (#[trigger] w.push(s.last())[j] as u32)
                < 0x80 by {
                if j < w.len() {
                    assert(w.push(s.last())[j] == w[j]);
                } else {
                    assert(s.last() == s[s.len() - 1]);
                }
            }
        }
    }
}

/// An ASCII id can always be formatted as a key: its byte offsets are its
/// character positions, so no cut falls inside a character.
pub proof fn law_ascii_ids_key_formattable(id: Seq<char>)
    requires
        is_ascii_text(id),
    ensures
        key_formattable(id),
{
    let clean = without_char(id, '-');
    lemma_without_char_ascii(id, '-');
    crate::text::lemma_utf8_len_ascii(clean);
    if utf8_len(clean) == 32 {
        crate::text::lemma_ascii_char_pos(clean, 8);
        crate::text::lemma_ascii_char_pos(clean, 12);
        crate::text::lemma_ascii_char_pos(clean, 16);
        crate::text::lemma_ascii_char_pos(clean, 20);
    }
}

proof fn lemma_ascii_case(c: char)
    requires
        (c as u32) < 0x80,
    ensures
        (ascii_upper(c) as u32) < 0x80,
        ascii_lower(ascii_upper(c)) == ascii_lower(c),
        ascii_upper(ascii_upper(c)) == ascii_upper(c),
{
}

proof fn lemma_capitalized_ascii(role: Seq<char>)
    requires
        is_ascii_text(role),
    ensures
        is_ascii_text(capitalize_first_ascii(role)),
        ascii_lower_seq(capitalize_first_ascii(role)) == ascii_lower_seq(role),
        capitalize_first_ascii(capitalize_first_ascii(role)) == capitalize_first_ascii(role),
{
    let out = capitalize_first_ascii(role);
    if role.len() > 0 {
        lemma_ascii_case(role[0]);
        assert forall|j: int| 0 <= j < out.len() implies (#[trigger] out[j] as u32) < 0x80 by {
            if j > 0 {
                assert(out[j] == role[j]);
            }
        }
        assert(ascii_lower_seq(out) =~= ascii_lower_seq(role));
        assert(capitalize_first_ascii(out) =~= out);
    }
}

proof fn lemma_label_literal(t: Seq<char>, l: Seq<char>)
    requires
        t.len() == l.len(),
        forall|j: int| 0 <= j < t.len() ==> (#[trigger] t[j] as u32) < 0x80 && ascii_lower(t[j]) == l[j],
    ensures
        is_ascii_text(t),
        ascii_lower_seq(t) == l,
{
    assert(ascii_lower_seq(t) =~= l);
}

/// For an ASCII role, the person type it maps to is a fixed point: mapping
/// that type again gives the same type.
pub proof fn law_role_label_idempotent(role: Seq<char>)
    requires
        is_ascii_text(role),
    ensures
        role_label(role_label(role)) == role_label(role),
{
    reveal_strlit("actor");
    reveal_strlit("director");
    reveal_strlit("writer");
    reveal_strlit("producer");
    reveal_strlit("composer");
    reveal_strlit("music");
    reveal_strlit("gueststar");
    reveal_strlit("guest_star");
    reveal_strlit("Actor");
    reveal_strlit("Director");
    reveal_strlit("Writer");
    reveal_strlit("Producer");
    reveal_strlit("Composer");
    reveal_strlit("GuestStar");
    lemma_label_literal("Actor"@, "actor"@);
    lemma_label_literal("Director"@, "director"@);
    lemma_label_literal("Writer"@, "writer"@);
    lemma_label_literal("Producer"@, "producer"@);
    lemma_label_literal("Composer"@, "composer"@);
    lemma_label_literal("GuestStar"@, "gueststar"@);
    lemma_capitalized_ascii(role);
    assert("actor"@[0] != "music"@[0]);
    assert("director"@[0] != "producer"@[0] && "director"@[0] != "composer"@[0]);
    assert("producer"@[0] != "composer"@[0]);
    assert("gueststar"@.len() != "guest_star"@.len());
    let l = lowercase_text(role);
    if l == "actor"@ {
        assert(role_label(role) == "Actor"@);
    } else if l == "director"@ {
        assert(role_label(role) == "Director"@);
    } else if l == "writer"@ {
        assert(role_label(role) == "Writer"@);
    } else if l == "producer"@ {
        assert(role_label(role) == "Producer"@);
    } else if l == "composer"@ || l == "music"@ {
        assert(role_label(role) == "Composer"@);
    } else if l == "gueststar"@ || l == "guest_star"@ {
        assert(role_label(role) == "GuestStar"@);
    } else {
        assert(role_label(role) == capitalize_first_ascii(role));
        assert(lowercase_text(capitalize_first_ascii(role)) == l);
    }
}

/// Known roles map to their own person types whatever their case: actor →
/// Actor, director → Director, writer → Writer, producer → Producer,
/// composer or music → Composer, gueststar or guest_star → GuestStar. Any
/// other role is kept as it is, except that its first character is
/// ASCII-uppercased when it is ASCII.
pub proof fn law_role_labels(role: Seq<char>)
    ensures
        lowercase_text(role) == "actor"@ ==> role_label(role) == "Actor"@,
        lowercase_text(role) == "director"@ ==> role_label(role) == "Director"@,
        lowercase_text(role) == "writer"@ ==> role_label(role) == "Writer"@,
        lowercase_text(role) == "producer"@ ==> role_label(role) == "Producer"@,
        lowercase_text(role) == "composer"@ ==> role_label(role) == "Composer"@,
        lowercase_text(role) == "music"@ ==> role_label(role) == "Composer"@,
        lowercase_text(role) == "gueststar"@ ==> role_label(role) == "GuestStar"@,
        lowercase_text(role) == "guest_star"@ ==> role_label(role) == "GuestStar"@,
        ({
            let l = lowercase_text(role);
            l != "actor"@ && l != "director"@ && l != "writer"@ && l != "producer"@ && l != "composer"@
                && l != "music"@ && l != "gueststar"@ && l != "guest_star"@
        }) ==> {
            &&& role_label(role).len() == role.len()
            &&& forall|j: int| 1 <= j < role.len() ==> #[trigger] role_label(role)[j] == role[j]
            &&& role.len() > 0 ==> role_label(role)[0] == (if (role[0] as u32) < 0x80 {
                ascii_upper(role[0])
            } else {
                role[0]
            })
        },
{
    reveal_strlit("actor");
    reveal_strlit("director");
    reveal_strlit("writer");
    reveal_strlit("producer");
    reveal_strlit("composer");
    reveal_strlit("music");
    reveal_strlit("gueststar");
    reveal_strlit("guest_star");
    assert("actor"@[0] != "music"@[0]);
    assert("director"@[0] != "producer"@[0] && "director"@[0] != "composer"@[0]);
    assert("producer"@[0] != "composer"@[0]);
    assert("gueststar"@.len() != "guest_star"@.len());
}

proof fn lemma_last_index_of(s: Seq<char>, c: char)
    ensures
        last_index_of(s, c) matches Some(i) ==> 0 <= i < s.len() && s[i] == c && forall|j: int|
            i < j < s.len() ==> #[trigger] s[j] != c,
        last_index_of(s, c) is None ==> forall|j: int| 0 <= j < s.len() ==> #[trigger] s[j] != c,
    decreases s.len(),
{
    if s.len() > 0 {
        lemma_last_index_of(s.drop_last(), c);
        if s.last() != c {
            assert forall|j: int| 0 <= j < s.len() - 1 implies #[trigger] s[j] == s.drop_last()[j] by {}
        }
    }
}

/// The text after the last `c` is the end of the text and holds no `c`;
/// when the text has a `c`, one stands just before it.
pub proof fn law_after_last(s: Seq<char>, c: char)
    ensures
        ({
            let a = after_last(s, c);
            &&& a.len() <= s.len()
            &&& s.skip(s.len() - a.len()) == a
            &&& forall|j: int| 0 <= j < a.len() ==> #[trigger] a[j] != c
            &&& last_index_of(s, c) is Some ==> s[s.len() - a.len() - 1] == c
        }),
{
    lemma_last_index_of(s, c);
    let a = after_last(s, c);
    match last_index_of(s, c) {
        Some(i) => {
            assert(a == s.skip(i + 1));
            assert forall|j: int| 0 <= j < a.len() implies #[trigger] a[j] != c by {
                assert(a[j] == s[i + 1 + j]);
            }
        },
        None => {
            assert(s.skip(0) =~= s);
        },
    }
}

/// The parent of a path (trailing slashes ignored) is everything before its
/// last `/`, the root `/` when that is all there is: the path is its parent,
/// a `/` and a last component without `/`. A path with no `/` (or only
/// slashes) has no parent.
pub proof fn law_slash_parent(path: Seq<char>)
    ensures
        ({
            let t = trim_end_char(path, '/');
            &&& slash_parent_of(path) is None <==> (t.len() == 0 || last_index_of(t, '/') is None)
            &&& slash_parent_of(path) matches Some(q) ==> {
                ||| t == q + seq!['/'] + after_last(t, '/')
                ||| (q == seq!['/'] && t == seq!['/'] + after_last(t, '/'))
            }
            &&& forall|j: int| 0 <= j < after_last(t, '/').len() ==> #[trigger] after_last(t, '/')[j] != '/'
        }),
{
    let t = trim_end_char(path, '/');
    law_after_last(t, '/');
    lemma_last_index_of(t, '/');
    if let Some(i) = last_index_of(t, '/') {
        assert(t =~= t.take(i) + seq!['/'] + t.skip(i + 1));
        if i == 0 {
            assert(t.take(i) =~= Seq::<char>::empty());
            assert(t =~= seq!['/'] + t.skip(1));
        }
    }
}

/// Converting whole seconds to ticks and back gives the same seconds.
pub proof fn law_seconds_ticks_round_trip(secs: i32)
    ensures
        trunc_div(secs * ticks_per_second(), ticks_per_second()) as i32 == secs,
{
    let t = secs * ticks_per_second();
    if secs >= 0 {
        assert((secs * 10_000_000) / 10_000_000 == secs) by (nonlinear_arith);
    } else {
        assert(((-secs) * 10_000_000) / 10_000_000 == -secs) by (nonlinear_arith)
            requires secs < 0;
        assert(-t == (-secs) * 10_000_000) by (nonlinear_arith)
            requires t == secs * 10_000_000;
    }
}

proof fn lemma_dash_split(x: Seq<char>, y: Seq<char>)
    ensures
        without_char(x + seq!['-'] + y, '-') == without_char(x, '-') + without_char(y, '-'),
{
    let dash = seq!['-'];
    assert(without_char(dash, '-') =~= Seq::<char>::empty()) by {
        reveal_with_fuel(without_char, 2);
        assert(dash.drop_last() =~= Seq::<char>::empty());
    }
    crate::text::lemma_without_char_concat(x, dash, '-');
    crate::text::lemma_without_char_concat(x + dash, y, '-');
    assert(without_char(x, '-') + Seq::<char>::empty() == without_char(x, '-'));
}

proof fn lemma_dash_join_removed(
    p1: Seq<char>,
    p2: Seq<char>,
    p3: Seq<char>,
    p4: Seq<char>,
    p5: Seq<char>,
)
    requires
        without_char(p1, '-') == p1,
        without_char(p2, '-') == p2,
        without_char(p3, '-') == p3,
        without_char(p4, '-') == p4,
        without_char(p5, '-') == p5,
    ensures
        without_char(
            p1 + seq!['-'] + p2 + seq!['-'] + p3 + seq!['-'] + p4 + seq!['-'] + p5,
            '-',
        ) == p1 + p2 + p3 + p4 + p5,
{
    let d = seq!['-'];
    lemma_dash_split(p1, p2);
    lemma_dash_split(p1 + d + p2, p3);
    lemma_dash_split(p1 + d + p2 + d + p3, p4);
    lemma_dash_split(p1 + d + p2 + d + p3 + d + p4, p5);
}

#[verifier::rlimit(60)]
proof fn lemma_hyphenated_key_dehyphenates(clean: Seq<char>)
    requires
        utf8_len(clean) == 32,
        is_boundary(clean, 8),
        is_boundary(clean, 12),
        is_boundary(clean, 16),
        is_boundary(clean, 20),
        forall|k: int| 0 <= k < clean.len() ==> #[trigger] clean[k] != '-',
    ensures
        without_char(hyphenated_key(clean), '-') == clean,
{
    let b = char_pos(clean, 8);
    let c = char_pos(clean, 12);
    let d = char_pos(clean, 16);
    let e = char_pos(clean, 20);
    assert(clean.take(0) =~= Seq::<char>::empty());
    assert(clean.take(clean.len() as int) == clean);
    lemma_char_pos(clean, 0, 0);
    lemma_char_pos(clean, 32, clean.len() as int);
    lemma_take_order(clean, 0, b, 0, 8);
    lemma_take_order(clean, b, c, 8, 12);
    lemma_take_order(clean, c, d, 12, 16);
    lemma_take_order(clean, d, e, 16, 20);
    lemma_take_order(clean, e, clean.len() as int, 20, 32);
    let p1 = clean.subrange(0, b);
    let p2 = clean.subrange(b, c);
    let p3 = clean.subrange(c, d);
    let p4 = clean.subrange(d, e);
    let p5 = clean.subrange(e, clean.len() as int);
    crate::text::lemma_subrange_excludes(clean, 0, b, '-');
    crate::text::lemma_subrange_excludes(clean, b, c, '-');
    crate::text::lemma_subrange_excludes(clean, c, d, '-');
    crate::text::lemma_subrange_excludes(clean, d, e, '-');
    crate::text::lemma_subrange_excludes(clean, e, clean.len() as int, '-');
    crate::text::lemma_without_char_absent(p1, '-');
    crate::text::lemma_without_char_absent(p2, '-');
    crate::text::lemma_without_char_absent(p3, '-');
    crate::text::lemma_without_char_absent(p4, '-');
    crate::text::lemma_without_char_absent(p5, '-');
    assert(hyphenated_key(clean) == p1 + seq!['-'] + p2 + seq!['-'] + p3 + seq!['-'] + p4 + seq![
        '-'] + p5);
    lemma_dash_join_removed(p1, p2, p3, p4, p5);
    assert(p1 + p2 + p3 + p4 + p5 =~= clean);
}

/// Formatting a key twice gives the same text as formatting it once: a
/// formatted key is a fixed point; and formatting only places hyphens, so
/// the key without hyphens is the id without hyphens.
pub proof fn law_jellyfin_key_idempotent(id: Seq<char>)
    requires
        key_formattable(id),
    ensures
        key_formattable(jellyfin_key(id)),
        jellyfin_key(jellyfin_key(id)) == jellyfin_key(id),
        without_char(jellyfin_key(id), '-') == without_char(id, '-'),
{
    let clean = without_char(id, '-');
    if utf8_len(clean) == 32 {
        crate::text::lemma_without_char_excludes(id, '-');
        lemma_hyphenated_key_dehyphenates(clean);
    }
}

} // verus!

verus! {

/// A UUID's text is already a Jellyfin key: formatting it changes nothing;
/// without its hyphens it is its 32 hexadecimal digits.
pub proof fn law_uuid_text_is_key(v: u128)
    ensures
        key_formattable(uuid_text(v)),
        jellyfin_key(uuid_text(v)) == uuid_text(v),
        without_char(uuid_text(v), '-') == hex_digits(v as nat, 32),
{
    let h = hex_digits(v as nat, 32);
    lemma_hex_digits_ascii(v as nat, 32);
    let p1 = h.subrange(0, 8);
    let p2 = h.subrange(8, 12);
    let p3 = h.subrange(12, 16);
    let p4 = h.subrange(16, 20);
    let p5 = h.subrange(20, 32);
    assert forall|k: int| 0 <= k < h.len() implies #[trigger] h[k] != '-' by {
        assert(h[k] != '-');
    }
    crate::text::lemma_subrange_excludes(h, 0, 8, '-');
    crate::text::lemma_subrange_excludes(h, 8, 12, '-');
    crate::text::lemma_subrange_excludes(h, 12, 16, '-');
    crate::text::lemma_subrange_excludes(h, 16, 20, '-');
    crate::text::lemma_subrange_excludes(h, 20, 32, '-');
    crate::text::lemma_without_char_absent(p1, '-');
    crate::text::lemma_without_char_absent(p2, '-');
    crate::text::lemma_without_char_absent(p3, '-');
    crate::text::lemma_without_char_absent(p4, '-');
    crate::text::lemma_without_char_absent(p5, '-');
    lemma_dash_join_removed(p1, p2, p3, p4, p5);
    assert(p1 + p2 + p3 + p4 + p5 =~= h);
    let clean = without_char(uuid_text(v), '-');
    assert(clean == h);
    crate::text::lemma_ascii_char_pos(h, 0);
    crate::text::lemma_ascii_char_pos(h, 8);
    crate::text::lemma_ascii_char_pos(h, 12);
    crate::text::lemma_ascii_char_pos(h, 16);
    crate::text::lemma_ascii_char_pos(h, 20);
    crate::text::lemma_ascii_char_pos(h, 32);
    assert(h.take(32) == h);
    assert(hyphenated_key(h) == uuid_text(v));
}


/// Jellyfin ticks are 100-nanosecond units: a second is ten million ticks,
/// so seconds convert to ticks by multiplying by 10,000,000 and ticks back
/// to whole seconds by dividing by it, toward zero.
pub proof fn law_ticks_are_100ns(secs: int, ticks: int)
    ensures
        secs * ticks_per_second() == secs * 10_000_000,
        trunc_div(ticks, ticks_per_second()) == trunc_div(ticks, 10_000_000),
{
}

} // verus!
