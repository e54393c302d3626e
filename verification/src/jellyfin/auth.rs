//! The `Authorization: MediaBrowser …` header: the access token and the
//! client description it carries, and which of a request's credentials is
//! used.

use vstd::prelude::*;
use crate::jellyfin::items::{lemma_utf8_len_ge_len, lemma_utf8_len_le_usize};
use crate::text::{
    char_index_at_byte, char_pos, lemma_char_pos, utf8_len_of, chars_of, clone_opt, concat_chars, is_boundary, opt_view, seq_views,
    split_chars, split_on, split_once, split_once_chars, str_is, string_of, strip_prefix,
    strip_prefix_chars, sub_chars, trim, trim_char, trim_char_chars, trim_chars, utf8_len, is_ascii_text,
    lemma_ascii_char_pos,
};

verus! {

/// What a client says about itself in its `Authorization` header.
#[derive(Debug, Clone)]
pub struct MediaBrowserClientInfo {
    pub client: String,
    pub device: String,
    pub device_id: String,
    pub version: String,
}

/// The four fields of a [`MediaBrowserClientInfo`].
pub struct ClientInfoView {
    pub client: Seq<char>,
    pub device: Seq<char>,
    pub device_id: Seq<char>,
    pub version: Seq<char>,
}

impl View for MediaBrowserClientInfo {
    type V = ClientInfoView;

    open spec fn view(&self) -> ClientInfoView {
        ClientInfoView {
            client: self.client@,
            device: self.device@,
            device_id: self.device_id@,
            version: self.version@,
        }
    }
}

pub open spec fn empty_client_info() -> ClientInfoView {
    ClientInfoView {
        client: Seq::empty(),
        device: Seq::empty(),
        device_id: Seq::empty(),
        version: Seq::empty(),
    }
}

impl Default for MediaBrowserClientInfo {
    fn default() -> (r: Self)
        ensures
            r@ == empty_client_info(),
    {
        MediaBrowserClientInfo {
            client: String::new(),
            device: String::new(),
            device_id: String::new(),
            version: String::new(),
        }
    }
}

/// The header after its `MediaBrowser ` or `Emby ` scheme, once trimmed.
pub open spec fn scheme_body(h: Seq<char>) -> Option<Seq<char>> {
    let t = trim(h);
    match strip_prefix(t, "MediaBrowser "@) {
        Some(b) => Some(b),
        None => strip_prefix(t, "Emby "@),
    }
}

/// The value of a `Token=` field, unquoted, when it is not empty.
pub open spec fn token_field(part: Seq<char>) -> Option<Seq<char>> {
    match strip_prefix(trim(part), "Token="@) {
        Some(rest) => {
            let tok = trim_char(trim(rest), '"');
            if tok.len() > 0 {
                Some(tok)
            } else {
                None
            }
        },
        None => None,
    }
}

/// The first non-empty `Token=` value among the comma-separated fields.
pub open spec fn first_token(parts: Seq<Seq<char>>) -> Option<Seq<char>>
    decreases parts.len(),
{
    if parts.len() == 0 {
        None
    } else {
        match token_field(parts[0]) {
            Some(t) => Some(t),
            None => first_token(parts.drop_first()),
        }
    }
}

/// The access token of a `MediaBrowser`/`Emby` authorization header.
pub open spec fn mediabrowser_token(h: Seq<char>) -> Option<Seq<char>> {
    match scheme_body(h) {
        Some(body) => first_token(split_on(body, ',')),
        None => None,
    }
}

/// Extract the token from a MediaBrowser Authorization header.
///
/// Format: `MediaBrowser Client="…", Device="…", DeviceId="…", Version="…", Token="<token>"`
/// Also: `Emby Client="…", …, Token="<token>"`
pub fn parse_mediabrowser_token(header_value: &str) -> (r: Option<String>)
    ensures
        opt_view(r) == mediabrowser_token(header_value@),
{
    let h = chars_of(header_value);
    let t = trim_chars(&h);
    let mb = chars_of("MediaBrowser ");
    let emby = chars_of("Emby ");
    let body = match strip_prefix_chars(&t, &mb) {
        Some(b) => b,
        None => match strip_prefix_chars(&t, &emby) {
            Some(b) => b,
            None => {
                return None;
            },
        },
    };
    let parts = split_chars(&body, ',');
    let ghost pv = seq_views(parts@);
    let key = chars_of("Token=");
    let mut i: usize = 0;
    assert(pv.skip(0) == pv);
    assert(mediabrowser_token(header_value@) == first_token(pv));
    while i < parts.len()
        invariant
            i <= parts@.len(),
            mediabrowser_token(header_value@) == first_token(pv),
            pv == seq_views(parts@),
            key@ == "Token="@,
            first_token(pv) == first_token(pv.skip(i as int)),
        decreases parts.len() - i,
    {
        assert(pv.skip(i as int).drop_first() == pv.skip(i + 1));
        assert(pv.skip(i as int)[0] == parts@[i as int]@);
        let part = trim_chars(&parts[i]);
        if let Some(rest) = strip_prefix_chars(&part, &key) {
            let rest_t = trim_chars(&rest);
            let tok = trim_char_chars(&rest_t, '"');
            if tok.len() > 0 {
                assert(token_field(pv.skip(i as int)[0]) == Some(tok@));
                assert(first_token(pv.skip(i as int)) == Some(tok@));
                return Some(string_of(&tok));
            }
            assert(token_field(pv.skip(i as int)[0]) is None);
        } else {
            assert(token_field(pv.skip(i as int)[0]) is None);
        }
        i = i + 1;
    }
    assert(pv.skip(i as int).len() == 0);
    None
}

/// The client description after applying one `key=value` field: the value,
/// trimmed and unquoted, replaces the field its trimmed key names.
pub open spec fn apply_header_field(info: ClientInfoView, part: Seq<char>) -> ClientInfoView {
    match split_once(trim(part), '=') {
        Some((key, val)) => {
            let v = trim_char(trim(val), '"');
            let k = trim(key);
            if k == "Client"@ {
                ClientInfoView { client: v, ..info }
            } else if k == "Device"@ {
                ClientInfoView { device: v, ..info }
            } else if k == "DeviceId"@ {
                ClientInfoView { device_id: v, ..info }
            } else if k == "Version"@ {
                ClientInfoView { version: v, ..info }
            } else {
                info
            }
        },
        None => info,
    }
}

/// The client description built from the fields in order, later fields
/// replacing earlier ones.
pub open spec fn apply_header_fields(parts: Seq<Seq<char>>) -> ClientInfoView
    decreases parts.len(),
{
    if parts.len() == 0 {
        empty_client_info()
    } else {
        apply_header_field(apply_header_fields(parts.drop_last()), parts.last())
    }
}

/// The header after its scheme when it has one, else the whole trimmed header.
pub open spec fn header_body(h: Seq<char>) -> Seq<char> {
    match scheme_body(h) {
        Some(b) => b,
        None => trim(h),
    }
}

/// The client description a MediaBrowser header carries.
pub open spec fn mediabrowser_client_info(h: Seq<char>) -> ClientInfoView {
    apply_header_fields(split_on(header_body(h), ','))
}

/// Parse `Client`, `Device`, `DeviceId`, `Version` from the MediaBrowser header.
pub fn parse_mediabrowser_header(header_value: &str) -> (info: MediaBrowserClientInfo)
    ensures
        info@ == mediabrowser_client_info(header_value@),
{
    let mut info = MediaBrowserClientInfo::default();
    let h = chars_of(header_value);
    let t = trim_chars(&h);
    let mb = chars_of("MediaBrowser ");
    let emby = chars_of("Emby ");
    let body = match strip_prefix_chars(&t, &mb) {
        Some(b) => b,
        None => match strip_prefix_chars(&t, &emby) {
            Some(b) => b,
            None => t,
        },
    };
    let parts = split_chars(&body, ',');
    let ghost pv = seq_views(parts@);
    for i in 0..parts.len()
        invariant
            pv == seq_views(parts@),
            info@ == apply_header_fields(pv.take(i as int)),
    {
        assert(pv.take(i + 1).drop_last() == pv.take(i as int));
        assert(pv.take(i + 1).last() == parts@[i as int]@);
        let part = trim_chars(&parts[i]);
        if let Some((key, val)) = split_once_chars(&part, '=') {
            let v = trim_char_chars(&trim_chars(&val), '"');
            let k = trim_chars(&key);
            if str_is(&k, "Client") {
                info.client = string_of(&v);
            } else if str_is(&k, "Device") {
                info.device = string_of(&v);
            } else if str_is(&k, "DeviceId") {
                info.device_id = string_of(&v);
            } else if str_is(&k, "Version") {
                info.version = string_of(&v);
            }
        }
    }
    assert(pv.take(pv.len() as int) == pv);
    info
}

/// The token of a request: from its `Authorization` header, else its
/// `X-Emby-Token` header, else its `api_key` query parameter.
pub open spec fn request_token_of(
    authorization: Option<Seq<char>>,
    emby_token: Option<Seq<char>>,
    api_key: Option<Seq<char>>,
) -> Option<Seq<char>> {
    let from_header = match authorization {
        Some(h) => mediabrowser_token(h),
        None => None,
    };
    match from_header {
        Some(t) => Some(t),
        None => match emby_token {
            Some(t) => Some(t),
            None => api_key,
        },
    }
}

fn header_token(authorization: &Option<String>) -> (r: Option<String>)
    ensures
        opt_view(r) == (match opt_view(*authorization) {
            Some(h) => mediabrowser_token(h),
            None => None,
        }),
{
    match authorization {
        Some(h) => parse_mediabrowser_token(h.as_str()),
        None => None,
    }
}

/// The token a request authenticates with: the `Authorization` header's
/// token, else the `X-Emby-Token` header, else the `api_key` parameter
/// (each header given as text when it is visible ASCII).
pub fn request_token(
    authorization: &Option<String>,
    emby_token: &Option<String>,
    api_key: &Option<String>,
) -> (r: Option<String>)
    ensures
        opt_view(r) == request_token_of(
            opt_view(*authorization),
            opt_view(*emby_token),
            opt_view(*api_key),
        ),
{
    match header_token(authorization) {
        Some(t) => Some(t),
        None => match emby_token {
            Some(t) => Some(t.clone()),
            None => clone_opt(api_key),
        },
    }
}

/// The token a stream request authenticates with: the `api_key` parameter,
/// else the `Authorization` header's token, else the `X-Emby-Token` header.
pub open spec fn stream_token_of(
    api_key: Option<Seq<char>>,
    authorization: Option<Seq<char>>,
    emby_token: Option<Seq<char>>,
) -> Option<Seq<char>> {
    match api_key {
        Some(k) => Some(k),
        None => match (match authorization {
            Some(h) => mediabrowser_token(h),
            None => None,
        }) {
            Some(t) => Some(t),
            None => emby_token,
        },
    }
}

/// The token of a stream request, the query parameter first.
pub fn stream_token(
    api_key: &Option<String>,
    authorization: &Option<String>,
    emby_token: &Option<String>,
) -> (r: Option<String>)
    ensures
        opt_view(r) == stream_token_of(
            opt_view(*api_key),
            opt_view(*authorization),
            opt_view(*emby_token),
        ),
{
    match api_key {
        Some(k) => Some(k.clone()),
        None => match header_token(authorization) {
            Some(t) => Some(t),
            None => clone_opt(emby_token),
        },
    }
}

/// An authenticated user, with the token it presented.
pub struct JellyfinUser {
    pub user_id: u128,
    pub user_name: String,
    pub access_token: String,
}

/// Why a request is refused.
#[derive(Debug, Clone, Copy, PartialEq, Eq, Structural)]
pub enum AuthRejection {
    /// No token in the request (401, "Missing authentication token").
    MissingToken,
    /// No live key has the token (401, "Invalid or expired token").
    InvalidToken,
    /// The key lookup failed (500).
    LookupFailed,
}

/// The user a request's token names, or why the request is refused. The
/// lookup is that of the token among the live keys: a user id and name
/// when one was found, `Err` when the lookup itself failed.
pub fn authenticate(
    token: Option<String>,
    lookup: Result<Option<(u128, String)>, ()>,
) -> (r: Result<JellyfinUser, AuthRejection>)
    ensures
        token is None ==> r == Err::<JellyfinUser, AuthRejection>(AuthRejection::MissingToken),
        token is Some && lookup == Ok::<Option<(u128, String)>, ()>(None) ==> r == Err::<
            JellyfinUser,
            AuthRejection,
        >(AuthRejection::InvalidToken),
        token is Some && lookup is Err ==> r == Err::<JellyfinUser, AuthRejection>(
            AuthRejection::LookupFailed,
        ),
        match (token, lookup) {
            (Some(t), Ok(Some(p))) => r matches Ok(u) && u.user_id == p.0 && u.user_name == p.1
                && u.access_token == t,
            _ => true,
        },
{
    match token {
        None => Err(AuthRejection::MissingToken),
        Some(t) => match lookup {
            Ok(Some((id, name))) => Ok(JellyfinUser { user_id: id, user_name: name, access_token: t }),
            Ok(None) => Err(AuthRejection::InvalidToken),
            Err(_) => Err(AuthRejection::LookupFailed),
        },
    }
}

/// The name an issued token's key is stored under: `jellyfin:` and the
/// client's device id.
pub open spec fn api_key_name_of(device_id: Seq<char>) -> Seq<char> {
    "jellyfin:"@ + device_id
}

/// The key name for a device.
pub fn api_key_name(device_id: &str) -> (r: String)
    ensures
        r@ == api_key_name_of(device_id@),
{
    string_of(&concat_chars(&chars_of("jellyfin:"), &chars_of(device_id)))
}

/// How many bytes of a token are stored as its prefix: 8, or all of them
/// when it is shorter.
pub open spec fn key_prefix_len(token: Seq<char>) -> int {
    if utf8_len(token) < 8 {
        utf8_len(token) as int
    } else {
        8
    }
}

/// The stored prefix of a token: its first [`key_prefix_len`] bytes.
pub open spec fn key_prefix_of(token: Seq<char>) -> Seq<char> {
    token.take(char_pos(token, key_prefix_len(token)))
}

/// The first 8 bytes of a token (all of it when shorter). Slicing a `str`
/// inside a character panics, so the cut must fall between characters.
pub fn token_key_prefix(token: &str) -> (r: String)
    requires
        is_boundary(token@, key_prefix_len(token@)),
    ensures
        r@ == key_prefix_of(token@),
{
    let v = chars_of(token);
    let n: usize = if v.len() > usize::MAX / 4 {
        proof {
            lemma_utf8_len_ge_len(v@);
        }
        8
    } else {
        proof {
            lemma_utf8_len_le_usize(v@);
        }
        let total = utf8_len_of(&v);
        if total < 8 {
            total
        } else {
            8
        }
    };
    assert(n == key_prefix_len(token@));
    match char_index_at_byte(&v, n) {
        Some(k) => {
            proof {
                lemma_char_pos(v@, n as int, k as int);
            }
            assert(v@.subrange(0, k as int) =~= v@.take(k as int));
            string_of(&sub_chars(&v, 0, k))
        },
        None => {
            assert(false);
            string_of(&v)
        },
    }
}


proof fn lemma_first_token_nonempty(parts: Seq<Seq<char>>)
    ensures
        first_token(parts) matches Some(t) ==> t.len() > 0,
    decreases parts.len(),
{
    if parts.len() > 0 {
        lemma_first_token_nonempty(parts.drop_first());
    }
}

/// A token read from an authorization header is never empty.
pub proof fn law_header_token_nonempty(header: Seq<char>)
    ensures
        mediabrowser_token(header) matches Some(t) ==> t.len() > 0,
{
    if let Some(body) = scheme_body(header) {
        lemma_first_token_nonempty(split_on(body, ','));
    }
}

/// Where a request carries its token in one place only, ordinary requests
/// and stream requests read the same token; the two orders differ only
/// when several places carry one.
pub proof fn law_single_token_source_agrees(token: Seq<char>)
    ensures
        request_token_of(Some(token), None, None) == stream_token_of(None, Some(token), None),
        request_token_of(None, Some(token), None) == stream_token_of(None, None, Some(token)),
        request_token_of(None, None, Some(token)) == stream_token_of(Some(token), None, None),
        request_token_of(None, None, None) is None && stream_token_of(None, None, None) is None,
{
}


/// Which token a request authenticates with: a token in its
/// `Authorization` header wins over everything; without one, its
/// `X-Emby-Token` header wins over the `api_key` parameter. Stream
/// requests put the `api_key` parameter first, then the `Authorization`
/// header, then `X-Emby-Token`.
pub proof fn law_token_precedence(
    authorization: Option<Seq<char>>,
    emby_token: Option<Seq<char>>,
    api_key: Option<Seq<char>>,
)
    ensures
        (authorization matches Some(h) && mediabrowser_token(h) is Some) ==> request_token_of(
            authorization,
            emby_token,
            api_key,
        ) == mediabrowser_token(authorization->0),
        (authorization is None || mediabrowser_token(authorization->0) is None) ==> request_token_of(
            authorization,
            emby_token,
            api_key,
        ) == (if emby_token is Some { emby_token } else { api_key }),
        api_key is Some ==> stream_token_of(api_key, authorization, emby_token) == api_key,
        (api_key is None && (authorization matches Some(h) && mediabrowser_token(h) is Some)) ==> stream_token_of(
            api_key,
            authorization,
            emby_token,
        ) == mediabrowser_token(authorization->0),
        (api_key is None && (authorization is None || mediabrowser_token(authorization->0) is None))
            ==> stream_token_of(api_key, authorization, emby_token) == emby_token,
{
}


/// A `key=value` field of a MediaBrowser header sets the client field its
/// key names (`Client`, `Device`, `DeviceId`, `Version`) to the trimmed,
/// unquoted value, and no other; a field with another key, or without `=`,
/// changes nothing. A `Token=` field gives its trimmed, unquoted value as
/// the token when that is not empty.
pub proof fn law_header_fields(info: ClientInfoView, part: Seq<char>)
    ensures
        ({
            let out = apply_header_field(info, part);
            match split_once(trim(part), '=') {
                Some((key, val)) => {
                    let v = trim_char(trim(val), '"');
                    let k = trim(key);
                    &&& k == "Client"@ ==> out == ClientInfoView { client: v, ..info }
                    &&& k == "Device"@ ==> out == ClientInfoView { device: v, ..info }
                    &&& k == "DeviceId"@ ==> out == ClientInfoView { device_id: v, ..info }
                    &&& k == "Version"@ ==> out == ClientInfoView { version: v, ..info }
                    &&& (k != "Client"@ && k != "Device"@ && k != "DeviceId"@ && k != "Version"@) ==> out == info
                },
                None => out == info,
            }
        }),
        ({
            match strip_prefix(trim(part), "Token="@) {
                Some(rest) => {
                    let tok = trim_char(trim(rest), '"');
                    &&& tok.len() > 0 ==> token_field(part) == Some(tok)
                    &&& tok.len() == 0 ==> token_field(part) is None
                },
                None => token_field(part) is None,
            }
        }),
{
    reveal_strlit("Client");
    reveal_strlit("Device");
    reveal_strlit("DeviceId");
    reveal_strlit("Version");
    assert("Client"@[0] != "Device"@[0] && "Client"@[0] != "Version"@[0] && "Device"@[0] != "Version"@[0]);
    assert("Device"@.len() != "DeviceId"@.len() && "Client"@[0] != "DeviceId"@[0] && "Version"@[0]
        != "DeviceId"@[0]);
}


/// A token of ASCII characters (as the issued ones are) can always be cut
/// for its stored prefix, and that prefix is its first eight characters, or
/// the whole token when it is shorter.
pub proof fn law_ascii_key_prefix(token: Seq<char>)
    requires
        is_ascii_text(token),
    ensures
        is_boundary(token, key_prefix_len(token)),
        key_prefix_of(token) == token.take(if token.len() < 8 { token.len() as int } else { 8 }),
{
    let k: int = if token.len() < 8 { token.len() as int } else { 8 };
    lemma_ascii_char_pos(token, token.len() as int);
    assert(token.take(token.len() as int) =~= token);
    lemma_ascii_char_pos(token, k);
}

} // verus!
