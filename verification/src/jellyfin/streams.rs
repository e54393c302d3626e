//! Media streams as ffprobe describes them: the stored probe data of a file
//! (read into plain values), and the video and audio streams built from it.

use vstd::prelude::*;
use crate::jellyfin::items::{ticks_per_second, trunc_div};
use crate::jellyfin::models::{
    blank_stream, strings_view, MediaSourceInfo, MediaSourceView, MediaStream, MediaStreamView,
};
use crate::numbers::{
    decimal, decimal_i32, parsed_i32, parsed_i64, parse_i32_chars, parse_i64_chars, uuid_string,
    uuid_text,
};
use crate::outside::{str_to_lowercase, str_to_uppercase};
use crate::text::{lowercase_text, uppercase_text, 
    after_last, chars_of, clone_opt, concat_chars, contains_chars, contains_seq, has_prefix,
    opt_view, owned, rfind_char, starts_with_chars, str_is, string_of, sub_chars,
};

verus! {

/// A stored probe column as the library reads it: a JSON object, a JSON
/// array of objects, or anything else (missing, null, a scalar).
pub enum ProbeJson<T> {
    Object(T),
    Array(Vec<T>),
    Other,
}

/// What the library reads of one video probe object. Each field is the
/// value under its key when it has the named JSON type, else `None`.
pub struct VideoProbe {
    /// `tags.BPS` as a string.
    pub bps_tag: Option<String>,
    /// `level` as an integer.
    pub level: Option<i64>,
    /// `pix_fmt`, `color_space`, `color_transfer`, `color_primaries`,
    /// `display_aspect_ratio` and `time_base` as strings.
    pub pix_fmt: Option<String>,
    pub color_space: Option<String>,
    pub color_transfer: Option<String>,
    pub color_primaries: Option<String>,
    pub display_aspect_ratio: Option<String>,
    pub time_base: Option<String>,
    /// `codec`, `profile` and `language` as strings.
    pub codec: Option<String>,
    pub profile: Option<String>,
    pub language: Option<String>,
    /// `width`, `height` and `bit_rate` as integers.
    pub width: Option<i64>,
    pub height: Option<i64>,
    pub bit_rate: Option<i64>,
}

/// What the library reads of one audio probe object. Each field is the
/// value under its key when it has the named JSON type, else `None`.
pub struct AudioProbe {
    /// `codec_name` and `codec` as strings.
    pub codec_name: Option<String>,
    pub codec: Option<String>,
    /// `index` as an integer.
    pub index: Option<i64>,
    /// `disposition.default` and `disposition.forced` as integers.
    pub disposition_default: Option<i64>,
    pub disposition_forced: Option<i64>,
    /// `tags.language`, `tags.title` and `tags.BPS` as strings.
    pub tag_language: Option<String>,
    pub tag_title: Option<String>,
    pub tag_bps: Option<String>,
    /// `language` and `title` as strings.
    pub language: Option<String>,
    pub title: Option<String>,
    /// `bit_rate` as a string and as an integer.
    pub bit_rate_text: Option<String>,
    pub bit_rate_number: Option<i64>,
    /// `channels` as an integer.
    pub channels: Option<i64>,
    /// `sample_rate` as a string and as an integer.
    pub sample_rate_text: Option<String>,
    pub sample_rate_number: Option<i64>,
    /// `channel_layout` as a string.
    pub channel_layout: Option<String>,
}

/// `str::parse::<i64>` of an optional text.
pub open spec fn opt_parsed_i64(o: Option<String>) -> Option<i64> {
    match o {
        Some(s) => parsed_i64(s@),
        None => None,
    }
}

fn parse_opt_i64(o: &Option<String>) -> (r: Option<i64>)
    ensures
        r == opt_parsed_i64(*o),
{
    match o {
        Some(s) => parse_i64_chars(&chars_of(s.as_str())),
        None => None,
    }
}

/// `o`, or `d` when `o` is empty.
pub open spec fn first_some<T>(o: Option<T>, d: Option<T>) -> Option<T> {
    match o {
        Some(x) => Some(x),
        None => d,
    }
}

/// An optional 64-bit integer narrowed to 32 bits as `as i32` does.
pub open spec fn narrowed(o: Option<i64>) -> Option<i32> {
    match o {
        Some(v) => Some(v as i32),
        None => None,
    }
}

fn narrow_opt(o: Option<i64>) -> (r: Option<i32>)
    ensures
        r == narrowed(o),
{
    match o {
        Some(v) => Some(#[verifier::truncate] (v as i32)),
        None => None,
    }
}

/// Whether a color transfer names an HDR curve (SMPTE ST 2084 and the like,
/// or hybrid log-gamma).
pub open spec fn hdr_transfer(ct: Option<Seq<char>>) -> bool {
    match ct {
        Some(c) => contains_seq(c, "smpte"@) || c == "arib-std-b67"@,
        None => false,
    }
}

/// The title of a file's main video stream: `CODEC 4K HDR10|SDR` from 2160
/// lines up, `CODEC WxH` when the width is known, else the codec.
pub open spec fn video_title(codec: Seq<char>, width: Option<i32>, height: Option<i32>, hdr: bool) -> Seq<char> {
    let w: int = match width {
        Some(x) => x as int,
        None => 0,
    };
    let h: int = match height {
        Some(x) => x as int,
        None => 0,
    };
    let upper = uppercase_text(codec);
    if h >= 2160 {
        upper + " 4K "@ + (if hdr {
            "HDR10"@
        } else {
            "SDR"@
        })
    } else if w > 0 {
        upper + " "@ + decimal(w) + "x"@ + decimal(h)
    } else {
        upper
    }
}

/// A text field of the probe, when there is a probe.
pub open spec fn probe_text(p: Option<VideoProbe>, f: spec_fn(VideoProbe) -> Option<String>) -> Option<Seq<char>> {
    match p {
        Some(v) => opt_view(f(v)),
        None => None,
    }
}

/// A file's main video stream (index 0, default), described by its codec,
/// dimensions and profile and by its probe object when there is one.
pub open spec fn main_video_stream(
    codec: Seq<char>,
    width: Option<i32>,
    height: Option<i32>,
    profile: Option<Seq<char>>,
    probe: Option<VideoProbe>,
) -> MediaStreamView {
    let transfer = probe_text(probe, |v: VideoProbe| v.color_transfer);
    let hdr = hdr_transfer(transfer);
    MediaStreamView {
        codec: codec,
        stream_type: "Video"@,
        index: 0,
        is_default: true,
        is_forced: false,
        is_external: false,
        display_title: Some(video_title(codec, width, height, hdr)),
        width: width,
        height: height,
        bit_rate: match probe {
            Some(v) => opt_parsed_i64(v.bps_tag),
            None => None,
        },
        profile: profile,
        level: match probe {
            Some(v) => match v.level {
                Some(l) => l as i32,
                None => 0,
            },
            None => 0,
        },
        pixel_format: probe_text(probe, |v: VideoProbe| v.pix_fmt),
        color_space: probe_text(probe, |v: VideoProbe| v.color_space),
        color_transfer: transfer,
        color_primaries: probe_text(probe, |v: VideoProbe| v.color_primaries),
        aspect_ratio: probe_text(probe, |v: VideoProbe| v.display_aspect_ratio),
        time_base: probe_text(probe, |v: VideoProbe| v.time_base),
        video_range: Some(if hdr { "HDR"@ } else { "SDR"@ }),
        video_range_type: Some(if hdr { "HDR10"@ } else { "SDR"@ }),
        is_interlaced: false,
        is_avc: codec == "h264"@,
        is_text_subtitle_stream: false,
        supports_external_stream: false,
        audio_spatial_format: "None"@,
        is_hearing_impaired: false,
        is_anamorphic: Some(false),
        ..blank_stream()
    }
}

fn is_hdr_transfer(ct: &Option<String>) -> (r: bool)
    ensures
        r == hdr_transfer(opt_view(*ct)),
{
    match ct {
        Some(c) => {
            let v = chars_of(c.as_str());
            let smpte = chars_of("smpte");
            contains_chars(&v, &smpte) || str_is(&v, "arib-std-b67")
        },
        None => false,
    }
}

fn main_video_title(codec: &str, width: Option<i32>, height: Option<i32>, hdr: bool) -> (r: String)
    ensures
        r@ == video_title(codec@, width, height, hdr),
{
    let w: i32 = match width {
        Some(x) => x,
        None => 0,
    };
    let h: i32 = match height {
        Some(x) => x,
        None => 0,
    };
    let upper = chars_of(str_to_uppercase(codec).as_str());
    if h >= 2160 {
        let range = if hdr {
            chars_of("HDR10")
        } else {
            chars_of("SDR")
        };
        string_of(&concat_chars(&concat_chars(&upper, &chars_of(" 4K ")), &range))
    } else if w > 0 {
        let a = concat_chars(&upper, &chars_of(" "));
        let b = concat_chars(&a, &decimal_i32(w));
        let c = concat_chars(&b, &chars_of("x"));
        string_of(&concat_chars(&c, &decimal_i32(h)))
    } else {
        string_of(&upper)
    }
}

fn probe_string(p: &ProbeJson<VideoProbe>, which: u8) -> (r: Option<String>)
    requires
        which < 6,
    ensures
        opt_view(r) == (match probe_object(*p) {
            Some(v) => opt_view(
                if which == 0 {
                    v.pix_fmt
                } else if which == 1 {
                    v.color_space
                } else if which == 2 {
                    v.color_transfer
                } else if which == 3 {
                    v.color_primaries
                } else if which == 4 {
                    v.display_aspect_ratio
                } else {
                    v.time_base
                },
            ),
            None => None,
        }),
{
    match p {
        ProbeJson::Object(v) => {
            if which == 0 {
                clone_opt(&v.pix_fmt)
            } else if which == 1 {
                clone_opt(&v.color_space)
            } else if which == 2 {
                clone_opt(&v.color_transfer)
            } else if which == 3 {
                clone_opt(&v.color_primaries)
            } else if which == 4 {
                clone_opt(&v.display_aspect_ratio)
            } else {
                clone_opt(&v.time_base)
            }
        },
        _ => None,
    }
}

/// The probe object of a stored probe column, when it is an object.
pub open spec fn probe_object(json: ProbeJson<VideoProbe>) -> Option<VideoProbe> {
    match json {
        ProbeJson::Object(v) => Some(v),
        _ => None,
    }
}

/// The main video stream of a file from its codec, dimensions, profile and
/// stored video probe (read only when it is an object).
pub fn build_video_stream_from_json(
    codec: &str,
    width: Option<i32>,
    height: Option<i32>,
    profile: Option<String>,
    probe: &ProbeJson<VideoProbe>,
) -> (s: MediaStream)
    ensures
        s@ == main_video_stream(codec@, width, height, opt_view(profile), probe_object(*probe)),
{
    let bit_rate = match probe {
        ProbeJson::Object(v) => parse_opt_i64(&v.bps_tag),
        _ => None,
    };
    let level: i32 = match probe {
        ProbeJson::Object(v) => match v.level {
            Some(l) => #[verifier::truncate] (l as i32),
            None => 0,
        },
        _ => 0,
    };
    let transfer = probe_string(probe, 2);
    let hdr = is_hdr_transfer(&transfer);
    let title = main_video_title(codec, width, height, hdr);
    let codec_chars = chars_of(codec);
    let is_avc = str_is(&codec_chars, "h264");
    let (range, range_type) = if hdr {
        (owned("HDR"), owned("HDR10"))
    } else {
        (owned("SDR"), owned("SDR"))
    };
    let s = MediaStream {
        codec: owned(codec),
        stream_type: owned("Video"),
        index: 0,
        is_default: true,
        is_forced: false,
        is_external: false,
        display_title: Some(title),
        width: width,
        height: height,
        bit_rate: bit_rate,
        profile: profile,
        level: level,
        pixel_format: probe_string(probe, 0),
        color_space: probe_string(probe, 1),
        color_transfer: transfer,
        color_primaries: probe_string(probe, 3),
        aspect_ratio: probe_string(probe, 4),
        time_base: probe_string(probe, 5),
        video_range: Some(range),
        video_range_type: Some(range_type),
        is_interlaced: false,
        is_avc: is_avc,
        is_text_subtitle_stream: false,
        supports_external_stream: false,
        audio_spatial_format: owned("None"),
        is_hearing_impaired: false,
        is_anamorphic: Some(false),
        ..MediaStream::default()
    };
    s
}

/// The channel layout of an audio stream: a known prefix of the probed
/// layout (`7.1`, `5.1`, `stereo`, `mono`), else the one its channel count
/// implies (8, 6, 2, 1), else none.
pub open spec fn channel_layout_of(raw: Seq<char>, channels: Option<i32>) -> Option<Seq<char>> {
    if has_prefix(raw, "7.1"@) {
        Some("7.1"@)
    } else if has_prefix(raw, "5.1"@) {
        Some("5.1"@)
    } else if has_prefix(raw, "stereo"@) {
        Some("stereo"@)
    } else if has_prefix(raw, "mono"@) {
        Some("mono"@)
    } else {
        layout_for_channels(channels)
    }
}

/// The layout a channel count implies: 8 → `7.1`, 6 → `5.1`, 2 → `stereo`,
/// 1 → `mono`.
pub open spec fn layout_for_channels(channels: Option<i32>) -> Option<Seq<char>> {
    match channels {
        Some(c) => if c == 8 {
            Some("7.1"@)
        } else if c == 6 {
            Some("5.1"@)
        } else if c == 2 {
            Some("stereo"@)
        } else if c == 1 {
            Some("mono"@)
        } else {
            None
        },
        None => None,
    }
}

/// The codec of a probed audio stream, `aac` when the probe names none.
pub open spec fn audio_codec(p: AudioProbe) -> Seq<char> {
    match p.codec_name {
        Some(c) => c@,
        None => "aac"@,
    }
}

/// The index of a probed audio stream: its own `index`, narrowed to 32
/// bits, else the next free index.
pub open spec fn audio_index(p: AudioProbe, next: i32) -> i32 {
    match p.index {
        Some(i) => i as i32,
        None => next,
    }
}

/// Whether a disposition flag is set (equal to 1).
pub open spec fn flag_set(o: Option<i64>) -> bool {
    match o {
        Some(v) => v == 1,
        None => false,
    }
}

/// The audio stream a probe object describes, at the given index.
pub open spec fn probed_audio_stream(p: AudioProbe, index: i32) -> MediaStreamView {
    let channels = narrowed(p.channels);
    let raw = match p.channel_layout {
        Some(l) => l@,
        None => Seq::empty(),
    };
    let layout = channel_layout_of(raw, channels);
    let codec = audio_codec(p);
    MediaStreamView {
        codec: codec,
        stream_type: "Audio"@,
        index: index,
        is_default: flag_set(p.disposition_default),
        is_forced: flag_set(p.disposition_forced),
        is_external: false,
        language: opt_view(p.tag_language),
        display_title: match p.tag_title {
            Some(t) => Some(t@),
            None => Some(
                uppercase_text(codec) + " - "@ + match layout {
                    Some(l) => l,
                    None => Seq::empty(),
                },
            ),
        },
        bit_rate: first_some(opt_parsed_i64(p.bit_rate_text), opt_parsed_i64(p.tag_bps)),
        channels: channels,
        channel_layout: layout,
        sample_rate: first_some(
            match p.sample_rate_text {
                Some(t) => parsed_i32(t@),
                None => None,
            },
            narrowed(p.sample_rate_number),
        ),
        level: 0,
        is_interlaced: false,
        is_avc: false,
        is_text_subtitle_stream: false,
        supports_external_stream: false,
        audio_spatial_format: "None"@,
        is_hearing_impaired: false,
        ..blank_stream()
    }
}

/// Whether no probed index reaches `i32::MAX`, so that the next free index
/// after each stream is representable.
pub open spec fn audio_indices_fit(probes: Seq<AudioProbe>, next: i32) -> bool
    decreases probes.len(),
{
    if probes.len() == 0 {
        true
    } else {
        let idx = audio_index(probes[0], next);
        idx < i32::MAX && audio_indices_fit(probes.skip(1), (idx + 1) as i32)
    }
}

/// The audio streams of a probe array, numbered from `next` where a probe
/// has no index of its own.
pub open spec fn probed_audio_streams(probes: Seq<AudioProbe>, next: i32) -> Seq<MediaStreamView>
    decreases probes.len(),
{
    if probes.len() == 0 {
        Seq::empty()
    } else {
        let idx = audio_index(probes[0], next);
        seq![probed_audio_stream(probes[0], idx)] + probed_audio_streams(
            probes.skip(1),
            (idx + 1) as i32,
        )
    }
}

/// The index of the first default stream of a probe array.
pub open spec fn default_audio_index(probes: Seq<AudioProbe>, next: i32) -> Option<i32>
    decreases probes.len(),
{
    if probes.len() == 0 {
        None
    } else {
        let idx = audio_index(probes[0], next);
        if flag_set(probes[0].disposition_default) {
            Some(idx)
        } else {
            default_audio_index(probes.skip(1), (idx + 1) as i32)
        }
    }
}

/// The audio streams of a stored probe column and the index of the first
/// default one: an array gives its streams, anything else none.
pub open spec fn audio_streams_of(json: ProbeJson<AudioProbe>, start: i32) -> (Seq<MediaStreamView>, Option<i32>) {
    match json {
        ProbeJson::Array(v) => (probed_audio_streams(v@, start), default_audio_index(v@, start)),
        _ => (Seq::empty(), None),
    }
}

fn layout_from(raw: &[char], channels: Option<i32>) -> (r: Option<String>)
    ensures
        opt_view(r) == channel_layout_of(raw@, channels),
{
    if starts_with_chars(raw, &chars_of("7.1")) {
        Some(owned("7.1"))
    } else if starts_with_chars(raw, &chars_of("5.1")) {
        Some(owned("5.1"))
    } else if starts_with_chars(raw, &chars_of("stereo")) {
        Some(owned("stereo"))
    } else if starts_with_chars(raw, &chars_of("mono")) {
        Some(owned("mono"))
    } else {
        match channels {
            Some(c) => if c == 8 {
                Some(owned("7.1"))
            } else if c == 6 {
                Some(owned("5.1"))
            } else if c == 2 {
                Some(owned("stereo"))
            } else if c == 1 {
                Some(owned("mono"))
            } else {
                None
            },
            None => None,
        }
    }
}

fn probed_audio(p: &AudioProbe, index: i32) -> (s: MediaStream)
    ensures
        s@ == probed_audio_stream(*p, index),
{
    let channels = narrow_opt(p.channels);
    let raw: Vec<char> = match &p.channel_layout {
        Some(l) => chars_of(l.as_str()),
        None => Vec::new(),
    };
    let layout = layout_from(&raw, channels);
    let codec: String = match &p.codec_name {
        Some(c) => c.clone(),
        None => owned("aac"),
    };
    let title = match &p.tag_title {
        Some(t) => t.clone(),
        None => {
            let upper = chars_of(str_to_uppercase(codec.as_str()).as_str());
            let head = concat_chars(&upper, &chars_of(" - "));
            let tail: Vec<char> = match &layout {
                Some(l) => chars_of(l.as_str()),
                None => Vec::new(),
            };
            string_of(&concat_chars(&head, &tail))
        },
    };
    let bit_rate = match parse_opt_i64(&p.bit_rate_text) {
        Some(b) => Some(b),
        None => parse_opt_i64(&p.tag_bps),
    };
    let parsed_rate = match &p.sample_rate_text {
        Some(t) => parse_i32_chars(&chars_of(t.as_str())),
        None => None,
    };
    let sample_rate = match parsed_rate {
        Some(r) => Some(r),
        None => narrow_opt(p.sample_rate_number),
    };
    MediaStream {
        codec: codec,
        stream_type: owned("Audio"),
        index: index,
        is_default: match p.disposition_default {
            Some(v) => v == 1,
            None => false,
        },
        is_forced: match p.disposition_forced {
            Some(v) => v == 1,
            None => false,
        },
        is_external: false,
        language: clone_opt(&p.tag_language),
        display_title: Some(title),
        bit_rate: bit_rate,
        channels: channels,
        channel_layout: layout,
        sample_rate: sample_rate,
        level: 0,
        is_interlaced: false,
        is_avc: false,
        is_text_subtitle_stream: false,
        supports_external_stream: false,
        audio_spatial_format: owned("None"),
        is_hearing_impaired: false,
        ..MediaStream::default()
    }
}

/// The audio streams of a stored probe column, numbered from `start_idx`
/// where a probe has no index, and the index of the first default one.
pub fn build_audio_streams_from_json(
    json: &ProbeJson<AudioProbe>,
    start_idx: i32,
) -> (r: (Vec<MediaStream>, Option<i32>))
    requires
        json matches ProbeJson::Array(v) ==> audio_indices_fit(v@, start_idx),
    ensures
        r.0@.map_values(|s: MediaStream| s@) == audio_streams_of(*json, start_idx).0,
        r.1 == audio_streams_of(*json, start_idx).1,
{
    let mut streams: Vec<MediaStream> = Vec::new();
    let mut default_idx: Option<i32> = None;
    let probes = match json {
        ProbeJson::Array(v) => v,
        _ => {
            assert(streams@.map_values(|s: MediaStream| s@) =~= Seq::<MediaStreamView>::empty());
            return (streams, default_idx);
        },
    };
    let ghost all = probes@;
    let mut next: i32 = start_idx;
    assert(all.skip(0) =~= all);
    assert(streams@.map_values(|s: MediaStream| s@) + probed_audio_streams(all, start_idx)
        =~= probed_audio_streams(all, start_idx));
    for k in 0..probes.len()
        invariant
            all == probes@,
            audio_indices_fit(all.skip(k as int), next),
            streams@.map_values(|s: MediaStream| s@) + probed_audio_streams(all.skip(k as int), next)
                == probed_audio_streams(all, start_idx),
            default_audio_index(all, start_idx) == (match default_idx {
                Some(d) => Some(d),
                None => default_audio_index(all.skip(k as int), next),
            }),
    {
        let ghost rest = all.skip(k as int);
        assert(rest.skip(1) =~= all.skip(k + 1));
        assert(rest[0] == probes@[k as int]);
        let p = &probes[k];
        let idx: i32 = match p.index {
            Some(i) => #[verifier::truncate] (i as i32),
            None => next,
        };
        let s = probed_audio(p, idx);
        let is_default = match p.disposition_default {
            Some(v) => v == 1,
            None => false,
        };
        if is_default && default_idx.is_none() {
            default_idx = Some(idx);
        }
        let ghost before = streams@.map_values(|s: MediaStream| s@);
        streams.push(s);
        assert(streams@.map_values(|s: MediaStream| s@) =~= before.push(s@));
        assert(before.push(s@) + probed_audio_streams(all.skip(k + 1), (idx + 1) as i32)
            =~= before + probed_audio_streams(rest, next));
        next = idx + 1;
    }
    assert(all.skip(all.len() as int) =~= Seq::<AudioProbe>::empty());
    assert(streams@.map_values(|s: MediaStream| s@) + Seq::<MediaStreamView>::empty()
        =~= streams@.map_values(|s: MediaStream| s@));
    (streams, default_idx)
}

/// An available video file with its stored probe data. `video_item_id` or
/// `episode_id` names the item it belongs to.
pub struct VideoFileRow {
    pub id: u128,
    pub video_item_id: Option<u128>,
    pub episode_id: Option<u128>,
    pub path: String,
    pub filename: String,
    pub size: Option<i64>,
    pub duration: Option<i32>,
    pub video_codec: Option<String>,
    pub video_width: Option<i32>,
    pub video_height: Option<i32>,
    pub video_profile: Option<String>,
    pub video_streams: ProbeJson<VideoProbe>,
    pub audio_streams: ProbeJson<AudioProbe>,
}

/// The container of a file: its extension (the text after the last `.`,
/// or the whole name), lowercased.
pub open spec fn container_of(filename: Seq<char>) -> Seq<char> {
    lowercase_text(after_last(filename, '.'))
}

/// The container of a file named `filename`.
pub fn file_container(filename: &str) -> (r: String)
    ensures
        r@ == container_of(filename@),
{
    let v = chars_of(filename);
    let ext = match rfind_char(&v, '.') {
        Some(i) => {
            assert(i < v.len());
            sub_chars(&v, i + 1, v.len())
        },
        None => v,
    };
    str_to_lowercase(string_of(&ext).as_str())
}

/// The average bitrate of a file in bits per second: size × 8 over the
/// duration (rounded toward zero), 0 for a duration that is not positive,
/// unknown when either is unknown.
pub open spec fn file_bitrate(size: Option<i64>, duration: Option<i32>) -> Option<i64> {
    match size {
        Some(s) => match duration {
            Some(d) => Some(
                if d > 0 {
                    trunc_div(s * 8, d as int) as i64
                } else {
                    0
                },
            ),
            None => None,
        },
        None => None,
    }
}

/// Whether size × 8 fits in 64 bits wherever the bitrate computes it.
pub open spec fn bitrate_fits(size: Option<i64>, duration: Option<i32>) -> bool {
    match size {
        Some(s) => match duration {
            Some(d) => d > 0 ==> i64::MIN <= s * 8 <= i64::MAX,
            None => true,
        },
        None => true,
    }
}

fn bitrate_of(size: Option<i64>, duration: Option<i32>) -> (r: Option<i64>)
    requires
        bitrate_fits(size, duration),
    ensures
        r == file_bitrate(size, duration),
{
    match size {
        Some(s) => match duration {
            Some(d) => {
                if d > 0 {
                    let bits: i64 = s * 8;
                    let q: i128 = if bits >= 0 {
                        (bits as i128) / (d as i128)
                    } else {
                        -((-(bits as i128)) / (d as i128))
                    };
                    assert(q == trunc_div(s * 8, d as int));
                    assert(-(bits as int) <= q <= bits as int || (bits as int) <= q <= -(bits as int))
                        by (nonlinear_arith)
                        requires
                            q == trunc_div(bits as int, d as int),
                            d > 0,
                    ;
                    Some(q as i64)
                } else {
                    Some(0)
                }
            },
            None => None,
        },
        None => None,
    }
}

/// Duration in seconds → ticks, when known.
pub open spec fn duration_ticks(duration: Option<i32>) -> Option<i64> {
    match duration {
        Some(d) => Some((d * ticks_per_second()) as i64),
        None => None,
    }
}

/// A media source describing a file, with the given streams and default
/// audio stream.
pub open spec fn file_source(
    f: VideoFileRow,
    streams: Seq<MediaStreamView>,
    default_audio: Option<i32>,
) -> MediaSourceView {
    MediaSourceView {
        protocol: "File"@,
        id: uuid_text(f.id),
        path: f.path@,
        source_type: "Default"@,
        container: container_of(f.filename@),
        size: f.size,
        name: f.filename@,
        is_remote: false,
        e_tag: None,
        run_time_ticks: duration_ticks(f.duration),
        read_at_native_framerate: false,
        ignore_dts: false,
        ignore_index: false,
        gen_pts_input: false,
        supports_transcoding: true,
        supports_direct_stream: true,
        supports_direct_play: true,
        is_infinite_stream: false,
        use_most_compatible_transcoding_profile: false,
        requires_opening: false,
        requires_closing: false,
        requires_looping: false,
        supports_probing: true,
        video_type: Some("VideoFile"@),
        media_streams: streams,
        formats: Seq::empty(),
        bitrate: file_bitrate(f.size, f.duration),
        default_audio_stream_index: default_audio,
        default_subtitle_stream_index: None,
        transcoding_sub_protocol: Some("http"@),
        has_segments: false,
        direct_stream_url: None,
    }
}

/// The contents of a list of streams.
pub open spec fn stream_views(v: Seq<MediaStream>) -> Seq<MediaStreamView> {
    v.map_values(|s: MediaStream| s@)
}

/// A media source for a file with the given streams and default audio stream.
pub fn build_file_source(f: &VideoFileRow, streams: Vec<MediaStream>, default_audio: Option<i32>) -> (m: MediaSourceInfo)
    requires
        bitrate_fits(f.size, f.duration),
    ensures
        m@ == file_source(*f, stream_views(streams@), default_audio),
{
    let formats: Vec<String> = Vec::new();
    assert(strings_view(formats) =~= Seq::<Seq<char>>::empty());
    let run_time_ticks = match f.duration {
        Some(d) => Some(crate::jellyfin::items::seconds_to_ticks(d)),
        None => None,
    };
    MediaSourceInfo {
        protocol: owned("File"),
        id: uuid_string(f.id),
        path: f.path.clone(),
        source_type: owned("Default"),
        container: file_container(f.filename.as_str()),
        size: f.size,
        name: f.filename.clone(),
        is_remote: false,
        e_tag: None,
        run_time_ticks: run_time_ticks,
        read_at_native_framerate: false,
        ignore_dts: false,
        ignore_index: false,
        gen_pts_input: false,
        supports_transcoding: true,
        supports_direct_stream: true,
        supports_direct_play: true,
        is_infinite_stream: false,
        use_most_compatible_transcoding_profile: false,
        requires_opening: false,
        requires_closing: false,
        requires_looping: false,
        supports_probing: true,
        video_type: Some(owned("VideoFile")),
        media_streams: streams,
        formats: formats,
        bitrate: bitrate_of(f.size, f.duration),
        default_audio_stream_index: default_audio,
        default_subtitle_stream_index: None,
        transcoding_sub_protocol: Some(owned("http")),
        has_segments: false,
        direct_stream_url: None,
    }
}

/// A probe array gives one audio stream per entry, and the default audio
/// index, when there is one, is the index of the first stream marked
/// default; when there is none, no stream is marked default.
pub proof fn law_default_audio_is_first_default(probes: Seq<AudioProbe>, next: i32)
    ensures
        probed_audio_streams(probes, next).len() == probes.len(),
        match default_audio_index(probes, next) {
            Some(d) => exists|k: int|
                0 <= k < probes.len() && (#[trigger] probed_audio_streams(probes, next)[k]).is_default
                    && probed_audio_streams(probes, next)[k].index == d && forall|j: int|
                    0 <= j < k ==> !(#[trigger] probed_audio_streams(probes, next)[j]).is_default,
            None => forall|k: int|
                0 <= k < probes.len() ==> !(#[trigger] probed_audio_streams(probes, next)[k]).is_default,
        },
    decreases probes.len(),
{
    if probes.len() > 0 {
        let idx = audio_index(probes[0], next);
        let rest = probes.skip(1);
        let nxt = (idx + 1) as i32;
        law_default_audio_is_first_default(rest, nxt);
        let all = probed_audio_streams(probes, next);
        let tail = probed_audio_streams(rest, nxt);
        assert(all == seq![probed_audio_stream(probes[0], idx)] + tail);
        assert forall|k: int| 1 <= k < all.len() implies #[trigger] all[k] == tail[k - 1] by {}
        if flag_set(probes[0].disposition_default) {
            assert(all[0].is_default && all[0].index == idx);
        } else {
            assert(!all[0].is_default);
            match default_audio_index(rest, nxt) {
                Some(d) => {
                    let k = choose|k: int|
                        0 <= k < rest.len() && (#[trigger] tail[k]).is_default && tail[k].index == d
                            && forall|j: int| 0 <= j < k ==> !(#[trigger] tail[j]).is_default;
                    assert(all[k + 1] == tail[k]);
                    assert forall|j: int| 0 <= j < k + 1 implies !(#[trigger] all[j]).is_default by {
                        if j > 0 {
                            assert(all[j] == tail[j - 1]);
                        }
                    }
                },
                None => {
                    assert forall|k: int| 0 <= k < probes.len() implies !(#[trigger] all[k]).is_default by {
                        if k > 0 {
                            assert(all[k] == tail[k - 1]);
                        }
                    }
                },
            }
        }
    }
}


/// A file's main video stream is HDR (range `HDR`, type `HDR10`) exactly
/// when its probe object names an SMPTE transfer curve (a transfer that
/// contains `smpte`, such as PQ) or HLG (`arib-std-b67`); otherwise it is
/// SDR. From 2160 lines up its title is the uppercase codec, ` 4K ` and that
/// range type.
pub proof fn law_video_range(
    codec: Seq<char>,
    width: Option<i32>,
    height: Option<i32>,
    profile: Option<Seq<char>>,
    probe: Option<VideoProbe>,
)
    ensures
        ({
            let s = main_video_stream(codec, width, height, profile, probe);
            let hdr = match probe {
                Some(v) => match v.color_transfer {
                    Some(c) => contains_seq(c@, "smpte"@) || c@ == "arib-std-b67"@,
                    None => false,
                },
                None => false,
            };
            &&& s.video_range == Some(if hdr { "HDR"@ } else { "SDR"@ })
            &&& s.video_range_type == Some(if hdr { "HDR10"@ } else { "SDR"@ })
            &&& (height matches Some(h) && h >= 2160) ==> s.display_title == Some(
                uppercase_text(codec) + " 4K "@ + (if hdr { "HDR10"@ } else { "SDR"@ }),
            )
        }),
{
}


/// A channel count implies a layout exactly for the counts that name one:
/// 8 channels is `7.1`, 6 is `5.1`, 2 is `stereo`, 1 is `mono`, and any
/// other count implies none. A probe's own layout text, when it starts
/// with one of these names, wins over the count.
pub proof fn law_channel_layouts(c: i32, raw: Seq<char>, channels: Option<i32>)
    ensures
        layout_for_channels(Some(c)) == Some("7.1"@) <==> c == 8,
        layout_for_channels(Some(c)) == Some("5.1"@) <==> c == 6,
        layout_for_channels(Some(c)) == Some("stereo"@) <==> c == 2,
        layout_for_channels(Some(c)) == Some("mono"@) <==> c == 1,
        layout_for_channels(Some(c)) is None <==> (c != 8 && c != 6 && c != 2 && c != 1),
        layout_for_channels(None) is None,
        has_prefix(raw, "7.1"@) ==> channel_layout_of(raw, channels) == Some("7.1"@),
        has_prefix(raw, "5.1"@) ==> channel_layout_of(raw, channels) == Some("5.1"@),
        has_prefix(raw, "stereo"@) ==> channel_layout_of(raw, channels) == Some("stereo"@),
        has_prefix(raw, "mono"@) ==> channel_layout_of(raw, channels) == Some("mono"@),
        !has_prefix(raw, "7.1"@) && !has_prefix(raw, "5.1"@) && !has_prefix(raw, "stereo"@) && !has_prefix(
            raw,
            "mono"@,
        ) ==> channel_layout_of(raw, channels) == layout_for_channels(channels),
{
    reveal_strlit("7.1");
    reveal_strlit("5.1");
    reveal_strlit("stereo");
    reveal_strlit("mono");
    assert("7.1"@[0] != "5.1"@[0] && "7.1"@[0] != "stereo"@[0] && "7.1"@[0] != "mono"@[0]);
    assert("5.1"@[0] != "stereo"@[0] && "5.1"@[0] != "mono"@[0] && "stereo"@[0] != "mono"@[0]);
    assert("7.1"@.len() != "stereo"@.len() && "7.1"@.len() != "mono"@.len());
    assert("5.1"@.len() != "stereo"@.len() && "5.1"@.len() != "mono"@.len());
    assert("stereo"@.len() != "mono"@.len());
    if has_prefix(raw, "5.1"@) {
        assert(raw[0] == raw.take(3)[0] && raw.take(3)[0] == "5.1"@[0]);
        assert(!has_prefix(raw, "7.1"@));
    }
    if has_prefix(raw, "stereo"@) {
        assert(raw[0] == raw.take(6)[0] && raw.take(6)[0] == "stereo"@[0]);
        assert(!has_prefix(raw, "7.1"@) && !has_prefix(raw, "5.1"@));
    }
    if has_prefix(raw, "mono"@) {
        assert(raw[0] == raw.take(4)[0] && raw.take(4)[0] == "mono"@[0]);
        assert(!has_prefix(raw, "7.1"@) && !has_prefix(raw, "5.1"@) && !has_prefix(raw, "stereo"@));
    }
}


/// A probed audio stream sits at the given index; it is the default (or
/// forced) exactly when its disposition flag is 1; its codec is the probe's
/// `codec_name`, else `aac`; and without a title tag it is titled by its
/// uppercase codec, ` - ` and its channel layout.
pub proof fn law_audio_stream(p: AudioProbe, index: i32)
    ensures
        ({
            let s = probed_audio_stream(p, index);
            &&& s.index == index
            &&& s.stream_type == "Audio"@
            &&& (s.is_default <==> p.disposition_default == Some(1i64))
            &&& (s.is_forced <==> p.disposition_forced == Some(1i64))
            &&& s.codec == (match p.codec_name {
                Some(c) => c@,
                None => "aac"@,
            })
            &&& p.tag_title matches Some(t) ==> s.display_title == Some(t@)
            &&& p.tag_title is None ==> s.display_title == Some(
                uppercase_text(s.codec) + " - "@ + (match s.channel_layout {
                    Some(l) => l,
                    None => Seq::empty(),
                }),
            )
        }),
{
}

/// A file's bitrate is its size in bits per second of duration, rounded
/// toward zero; a file without a positive duration has bitrate 0, and one
/// whose size or duration is unknown has none.
pub proof fn law_file_bitrate(size: Option<i64>, duration: Option<i32>)
    ensures
        (size is Some && duration is Some && duration->0 > 0 && size->0 >= 0) ==> file_bitrate(size, duration)
            == Some(((size->0 * 8) / (duration->0 as int)) as i64),
        (size is Some && (duration matches Some(d) && d <= 0)) ==> file_bitrate(size, duration) == Some(0i64),
        (size is None || duration is None) ==> file_bitrate(size, duration) is None,
{
}

/// Below 2160 lines, a main video stream of known width is titled by its
/// uppercase codec and its dimensions (`WxH`, a missing height as 0);
/// without a width, by its uppercase codec alone.
pub proof fn law_video_titles(codec: Seq<char>, width: Option<i32>, height: Option<i32>, hdr: bool)
    ensures
        ({
            let h: int = match height {
                Some(x) => x as int,
                None => 0,
            };
            &&& (h < 2160 && (width matches Some(w) && w > 0)) ==> video_title(codec, width, height, hdr)
                == uppercase_text(codec) + " "@ + decimal(width->0 as int) + "x"@ + decimal(h)
            &&& (h < 2160 && (width is None || width->0 <= 0)) ==> video_title(codec, width, height, hdr)
                == uppercase_text(codec)
        }),
{
}


/// Every file is described as a local file played as it is: protocol
/// `File`, playable directly, streamable directly and transcodable, named
/// and identified by the file (its id's text, its path, its name and the
/// container its extension names), with its size, its duration in ticks
/// and its bitrate.
pub proof fn law_file_sources(f: VideoFileRow, streams: Seq<MediaStreamView>, default_audio: Option<i32>)
    ensures
        ({
            let m = file_source(f, streams, default_audio);
            &&& m.protocol == "File"@
            &&& m.supports_direct_play && m.supports_direct_stream && m.supports_transcoding
            &&& !m.is_remote && !m.is_infinite_stream
            &&& m.id == uuid_text(f.id) && m.path == f.path@ && m.name == f.filename@
            &&& m.container == lowercase_text(after_last(f.filename@, '.'))
            &&& m.size == f.size
            &&& m.run_time_ticks == (match f.duration {
                Some(d) => Some((d * 10_000_000) as i64),
                None => None,
            })
            &&& m.bitrate == file_bitrate(f.size, f.duration)
            &&& m.media_streams == streams && m.default_audio_stream_index == default_audio
        }),
{
}

} // verus!
