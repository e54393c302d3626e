//! Playback descriptions: media streams, media sources and the
//! `PlaybackInfo` answer, and which file a stream request names.

use vstd::prelude::*;
use crate::jellyfin::items::{ticks_per_second};
use crate::jellyfin::models::{blank_stream, MediaSourceInfo, MediaSourceView, MediaStream, MediaStreamView};
use crate::jellyfin::streams::{bitrate_fits, build_file_source, file_source, layout_for_channels, narrowed, stream_views, AudioProbe, ProbeJson, VideoFileRow, VideoProbe};
use crate::numbers::{decimal, decimal_i32, is_uuid_v4, uuid_string, uuid_text};
use crate::outside::{new_uuid_v4, parse_uuid, str_to_uppercase, uuid_parse};
use crate::text::{uppercase_text, chars_of, clone_opt, concat_chars, opt_view, owned, str_is, string_of};

verus! {

/// Seconds → Jellyfin ticks.
pub fn seconds_to_ticks(secs: i32) -> (r: i64)
    ensures
        r == secs * ticks_per_second(),
{
    crate::jellyfin::items::seconds_to_ticks(secs)
}

/// A video stream as a playback description lists it. HD (1280 wide or 720
/// high) streams are marked SDR; for others the range is left unknown.
pub open spec fn video_stream_view(
    codec: Seq<char>,
    index: i32,
    is_default: bool,
    width: Option<i32>,
    height: Option<i32>,
    profile: Option<Seq<char>>,
    language: Option<Seq<char>>,
    display_title: Option<Seq<char>>,
    bit_rate: Option<i64>,
) -> MediaStreamView {
    let is_hd = (match width {
        Some(w) => w >= 1280,
        None => false,
    }) || (match height {
        Some(h) => h >= 720,
        None => false,
    });
    MediaStreamView {
        codec: codec,
        stream_type: "Video"@,
        index: index,
        is_default: is_default,
        is_forced: false,
        is_external: false,
        display_title: display_title,
        width: width,
        height: height,
        bit_rate: bit_rate,
        profile: profile,
        level: 0,
        is_interlaced: false,
        is_avc: codec == "h264"@,
        is_text_subtitle_stream: false,
        supports_external_stream: false,
        audio_spatial_format: "None"@,
        is_hearing_impaired: false,
        language: language,
        video_range: if is_hd { Some("SDR"@) } else { None },
        video_range_type: if is_hd { Some("SDR"@) } else { None },
        ..blank_stream()
    }
}

/// A video stream for a playback description.
pub fn build_video_stream(
    codec: &str,
    index: i32,
    is_default: bool,
    width: Option<i32>,
    height: Option<i32>,
    profile: Option<String>,
    language: Option<String>,
    display_title: Option<String>,
    bit_rate: Option<i64>,
) -> (s: MediaStream)
    ensures
        s@ == video_stream_view(
            codec@,
            index,
            is_default,
            width,
            height,
            opt_view(profile),
            opt_view(language),
            opt_view(display_title),
            bit_rate,
        ),
{
    let w: i32 = match width {
        Some(x) => x,
        None => 0,
    };
    let h: i32 = match height {
        Some(x) => x,
        None => 0,
    };
    let is_hd = w >= 1280 || h >= 720;
    let is_avc = str_is(&chars_of(codec), "h264");
    MediaStream {
        codec: owned(codec),
        stream_type: owned("Video"),
        index: index,
        is_default: is_default,
        is_forced: false,
        is_external: false,
        display_title: display_title,
        width: width,
        height: height,
        bit_rate: bit_rate,
        profile: profile,
        level: 0,
        is_interlaced: false,
        is_avc: is_avc,
        is_text_subtitle_stream: false,
        supports_external_stream: false,
        audio_spatial_format: owned("None"),
        is_hearing_impaired: false,
        language: language,
        video_range: if is_hd { Some(owned("SDR")) } else { None },
        video_range_type: if is_hd { Some(owned("SDR")) } else { None },
        ..MediaStream::default()
    }
}

/// An audio stream as a playback description lists it; the channel layout
/// follows from the channel count.
pub open spec fn audio_stream_view(
    codec: Seq<char>,
    index: i32,
    is_default: bool,
    language: Option<Seq<char>>,
    display_title: Option<Seq<char>>,
    bit_rate: Option<i64>,
    channels: Option<i32>,
    sample_rate: Option<i32>,
) -> MediaStreamView {
    MediaStreamView {
        codec: codec,
        stream_type: "Audio"@,
        index: index,
        is_default: is_default,
        is_forced: false,
        is_external: false,
        language: language,
        display_title: display_title,
        bit_rate: bit_rate,
        channels: channels,
        channel_layout: layout_for_channels(channels),
        sample_rate: sample_rate,
        level: 0,
        is_interlaced: false,
        is_avc: false,
        is_text_subtitle_stream: false,
        supports_external_stream: false,
        audio_spatial_format: "None"@,
        is_hearing_impaired: false,
        ..blank_stream()
    }
}

/// An audio stream for a playback description.
pub fn build_audio_stream(
    codec: &str,
    index: i32,
    is_default: bool,
    language: Option<String>,
    display_title: Option<String>,
    bit_rate: Option<i64>,
    channels: Option<i32>,
    sample_rate: Option<i32>,
) -> (s: MediaStream)
    ensures
        s@ == audio_stream_view(
            codec@,
            index,
            is_default,
            opt_view(language),
            opt_view(display_title),
            bit_rate,
            channels,
            sample_rate,
        ),
{
    let channel_layout = match channels {
        Some(c) => if c == 8 {
            Some(owned("7.1"))
        } else if c == 6 {
            Some(owned("5.1"))
        } else if c == 2 {
            Some(owned("stereo"))
        } else if c == 1 {
            Some(owned("mono"))
        } else {
            None
        },
        None => None,
    };
    MediaStream {
        codec: owned(codec),
        stream_type: owned("Audio"),
        index: index,
        is_default: is_default,
        is_forced: false,
        is_external: false,
        language: language,
        display_title: display_title,
        bit_rate: bit_rate,
        channels: channels,
        channel_layout: channel_layout,
        sample_rate: sample_rate,
        level: 0,
        is_interlaced: false,
        is_avc: false,
        is_text_subtitle_stream: false,
        supports_external_stream: false,
        audio_spatial_format: owned("None"),
        is_hearing_impaired: false,
        ..MediaStream::default()
    }
}

/// The title of a file's main stream in a playback description: the
/// uppercased codec, followed by ` WxH` when the width is known.
pub open spec fn playback_video_title(codec: Seq<char>, width: Option<i32>, height: Option<i32>) -> Seq<char> {
    uppercase_text(codec) + match width {
        Some(w) => " "@ + decimal(w as int) + "x"@ + decimal(
            match height {
                Some(h) => h as int,
                None => 0,
            },
        ),
        None => Seq::empty(),
    }
}

/// The main video stream of a file, when its codec is known.
pub open spec fn playback_main_streams(f: VideoFileRow) -> Seq<MediaStreamView> {
    match f.video_codec {
        Some(c) => seq![
            video_stream_view(
                c@,
                0,
                true,
                f.video_width,
                f.video_height,
                opt_view(f.video_profile),
                None,
                Some(playback_video_title(c@, f.video_width, f.video_height)),
                None,
            ),
        ],
        None => Seq::empty(),
    }
}

/// The probe entries after the first of an array column, which describe the
/// file's further video streams.
pub open spec fn extra_video_probes(json: ProbeJson<VideoProbe>) -> Seq<VideoProbe> {
    match json {
        ProbeJson::Array(v) => if v@.len() > 0 {
            v@.skip(1)
        } else {
            Seq::empty()
        },
        _ => Seq::empty(),
    }
}

/// The probe entries of an array column.
pub open spec fn audio_probes(json: ProbeJson<AudioProbe>) -> Seq<AudioProbe> {
    match json {
        ProbeJson::Array(v) => v@,
        _ => Seq::empty(),
    }
}

/// A further video stream, numbered `index`.
pub open spec fn extra_video_stream(v: VideoProbe, index: int) -> MediaStreamView {
    video_stream_view(
        match v.codec {
            Some(c) => c@,
            None => "unknown"@,
        },
        index as i32,
        false,
        narrowed(v.width),
        narrowed(v.height),
        opt_view(v.profile),
        opt_view(v.language),
        None,
        v.bit_rate,
    )
}

/// An audio stream of a playback description, numbered `index`; the first
/// one is the default.
pub open spec fn playback_audio_stream(a: AudioProbe, index: int, first: bool) -> MediaStreamView {
    audio_stream_view(
        match a.codec {
            Some(c) => c@,
            None => "aac"@,
        },
        index as i32,
        first,
        opt_view(a.language),
        opt_view(a.title),
        a.bit_rate_number,
        narrowed(a.channels),
        narrowed(a.sample_rate_number),
    )
}

/// The streams of a file in a playback description, numbered in order: the
/// main video stream, the further video streams, then the audio streams.
pub open spec fn playback_streams(f: VideoFileRow) -> Seq<MediaStreamView> {
    let main = playback_main_streams(f);
    let extra = extra_video_probes(f.video_streams);
    let audio = audio_probes(f.audio_streams);
    let videos = main + Seq::new(extra.len(), |j: int| extra_video_stream(extra[j], main.len() + j));
    videos + Seq::new(audio.len(), |j: int| playback_audio_stream(audio[j], videos.len() + j, j == 0))
}

/// How many streams a playback description lists for a file.
pub open spec fn playback_stream_count(f: VideoFileRow) -> int {
    (playback_main_streams(f).len() + extra_video_probes(f.video_streams).len() + audio_probes(
        f.audio_streams,
    ).len()) as int
}

/// A file's media source in a playback description; its default audio
/// stream is always index 1.
pub open spec fn playback_source(f: VideoFileRow) -> MediaSourceView {
    file_source(f, playback_streams(f), Some(1))
}

fn main_title(codec: &str, width: Option<i32>, height: Option<i32>) -> (r: String)
    ensures
        r@ == playback_video_title(codec@, width, height),
{
    let upper = chars_of(str_to_uppercase(codec).as_str());
    match width {
        Some(w) => {
            let h: i32 = match height {
                Some(x) => x,
                None => 0,
            };
            let a = concat_chars(&chars_of(" "), &decimal_i32(w));
            let b = concat_chars(&a, &chars_of("x"));
            let c = concat_chars(&b, &decimal_i32(h));
            let r = string_of(&concat_chars(&upper, &c));
            assert(r@ =~= playback_video_title(codec@, width, height));
            r
        },
        None => {
            assert(upper@ + Seq::<char>::empty() =~= upper@);
            string_of(&upper)
        },
    }
}

/// The streams of a file for a playback description.
pub fn build_playback_streams(f: &VideoFileRow) -> (r: Vec<MediaStream>)
    requires
        playback_stream_count(*f) <= i32::MAX,
    ensures
        stream_views(r@) == playback_streams(*f),
{
    let ghost main = playback_main_streams(*f);
    let ghost extra = extra_video_probes(f.video_streams);
    let ghost audio = audio_probes(f.audio_streams);
    let mut streams: Vec<MediaStream> = Vec::new();
    let mut stream_idx: i32 = 0;
    if let Some(codec) = &f.video_codec {
        let title = main_title(codec.as_str(), f.video_width, f.video_height);
        streams.push(build_video_stream(
            codec.as_str(),
            stream_idx,
            true,
            f.video_width,
            f.video_height,
            clone_opt(&f.video_profile),
            None,
            Some(title),
            None,
        ));
        stream_idx = stream_idx + 1;
    }
    assert(stream_views(streams@) =~= main);
    if let ProbeJson::Array(vs) = &f.video_streams {
        let mut i: usize = 1;
        while i < vs.len()
            invariant
                1 <= i,
                i <= vs.len() || (vs.len() == 0 && i == 1),
                extra == extra_video_probes(f.video_streams),
                f.video_streams == ProbeJson::Array(*vs),
                stream_idx == main.len() + (i - 1),
                main.len() + extra.len() + audio.len() <= i32::MAX,
                stream_views(streams@) == main + Seq::new(
                    (i - 1) as nat,
                    |j: int| extra_video_stream(extra[j], main.len() + j),
                ),
            decreases vs.len() - i,
        {
            let v = &vs[i];
            assert(extra[i - 1] == vs@[i as int]);
            let codec: String = match &v.codec {
                Some(c) => c.clone(),
                None => owned("unknown"),
            };
            let ghost before = stream_views(streams@);
            streams.push(build_video_stream(
                codec.as_str(),
                stream_idx,
                false,
                narrow_width(v.width),
                narrow_width(v.height),
                clone_opt(&v.profile),
                clone_opt(&v.language),
                None,
                v.bit_rate,
            ));
            assert(stream_views(streams@) =~= before.push(extra_video_stream(extra[i - 1], main.len() + (i - 1))));
            assert(stream_views(streams@) =~= main + Seq::new(
                i as nat,
                |j: int| extra_video_stream(extra[j], main.len() + j),
            ));
            stream_idx = stream_idx + 1;
            i = i + 1;
        }
        assert(i - 1 == extra.len());
    }
    assert(stream_idx == main.len() + extra.len());
    let ghost videos = main + Seq::new(extra.len(), |j: int| extra_video_stream(extra[j], main.len() + j));
    assert(stream_views(streams@) =~= videos);
    if let ProbeJson::Array(audio_list) = &f.audio_streams {
        let mut i: usize = 0;
        while i < audio_list.len()
            invariant
                i <= audio_list.len(),
                audio == audio_list@,
                stream_idx == videos.len() + i,
                videos.len() + audio.len() <= i32::MAX,
                stream_views(streams@) == videos + Seq::new(
                    i as nat,
                    |j: int| playback_audio_stream(audio[j], videos.len() + j, j == 0),
                ),
            decreases audio_list.len() - i,
        {
            let a = &audio_list[i];
            let codec: String = match &a.codec {
                Some(c) => c.clone(),
                None => owned("aac"),
            };
            let ghost before = stream_views(streams@);
            assert(audio[i as int] == audio_list@[i as int]);
            streams.push(build_audio_stream(
                codec.as_str(),
                stream_idx,
                i == 0,
                clone_opt(&a.language),
                clone_opt(&a.title),
                a.bit_rate_number,
                narrow_width(a.channels),
                narrow_width(a.sample_rate_number),
            ));
            assert(stream_views(streams@) =~= before.push(
                playback_audio_stream(audio[i as int], videos.len() + i, i == 0),
            ));
            assert(stream_views(streams@) =~= videos + Seq::new(
                (i + 1) as nat,
                |j: int| playback_audio_stream(audio[j], videos.len() + j, j == 0),
            ));
            stream_idx = stream_idx + 1;
            i = i + 1;
        }
    }
    assert(stream_views(streams@) =~= playback_streams(*f));
    streams
}

fn narrow_width(o: Option<i64>) -> (r: Option<i32>)
    ensures
        r == narrowed(o),
{
    match o {
        Some(v) => Some(#[verifier::truncate] (v as i32)),
        None => None,
    }
}

/// A file's media source for a playback description.
pub fn build_playback_source(f: &VideoFileRow) -> (m: MediaSourceInfo)
    requires
        playback_stream_count(*f) <= i32::MAX,
        bitrate_fits(f.size, f.duration),
    ensures
        m@ == playback_source(*f),
{
    let streams = build_playback_streams(f);
    build_file_source(f, streams, Some(1))
}

/// The answer to a `PlaybackInfo` request.
pub struct PlaybackInfoResponse {
    pub media_sources: Vec<MediaSourceInfo>,
    pub play_session_id: String,
    pub error_code: Option<String>,
}

/// The contents of a [`PlaybackInfoResponse`].
pub struct PlaybackInfoView {
    pub media_sources: Seq<MediaSourceView>,
    pub play_session_id: Seq<char>,
    pub error_code: Option<Seq<char>>,
}

impl View for PlaybackInfoResponse {
    type V = PlaybackInfoView;

    open spec fn view(&self) -> PlaybackInfoView {
        PlaybackInfoView {
            media_sources: self.media_sources@.map_values(|m: MediaSourceInfo| m@),
            play_session_id: self.play_session_id@,
            error_code: opt_view(self.error_code),
        }
    }
}

/// Whether every file's streams can be numbered in 32 bits and its bitrate
/// computed in 64.
pub open spec fn files_describable(files: Seq<VideoFileRow>) -> bool {
    forall|k: int|
        0 <= k < files.len() ==> playback_stream_count(#[trigger] files[k]) <= i32::MAX
            && bitrate_fits(files[k].size, files[k].duration)
}

/// The playback answer for an item's available files (largest first): one
/// media source per file, or `NotFound` with no source when there is none.
pub open spec fn playback_info_of(files: Seq<VideoFileRow>, play_session_id: Seq<char>) -> PlaybackInfoView {
    PlaybackInfoView {
        media_sources: files.map_values(|f: VideoFileRow| playback_source(f)),
        play_session_id: play_session_id,
        error_code: if files.len() == 0 {
            Some("NotFound"@)
        } else {
            None
        },
    }
}

/// The playback answer for an item's files under the given session id.
pub fn playback_info_for(files: &Vec<VideoFileRow>, play_session_id: String) -> (r: PlaybackInfoResponse)
    requires
        files_describable(files@),
    ensures
        r@ == playback_info_of(files@, play_session_id@),
{
    let mut sources: Vec<MediaSourceInfo> = Vec::new();
    for k in 0..files.len()
        invariant
            files_describable(files@),
            sources@.map_values(|m: MediaSourceInfo| m@)
                == files@.take(k as int).map_values(|f: VideoFileRow| playback_source(f)),
    {
        let m = build_playback_source(&files[k]);
        let ghost before = sources@.map_values(|m: MediaSourceInfo| m@);
        sources.push(m);
        assert(files@.take(k + 1) =~= files@.take(k as int).push(files@[k as int]));
        assert(sources@.map_values(|m: MediaSourceInfo| m@) =~= before.push(m@));
        assert(files@.take(k + 1).map_values(|f: VideoFileRow| playback_source(f))
            =~= files@.take(k as int).map_values(|f: VideoFileRow| playback_source(f)).push(
            playback_source(files@[k as int]),
        ));
    }
    assert(files@.take(files@.len() as int) =~= files@);
    let error_code = if files.len() == 0 {
        Some(owned("NotFound"))
    } else {
        None
    };
    PlaybackInfoResponse { media_sources: sources, play_session_id, error_code }
}

/// The playback answer for an item's files under a fresh random session id
/// (the hyphenated text of a version-4 UUID).
pub fn build_playback_info(files: &Vec<VideoFileRow>) -> (r: PlaybackInfoResponse)
    requires
        files_describable(files@),
    ensures
        exists|v: u128| is_uuid_v4(v) && r@ == playback_info_of(files@, uuid_text(v)),
{
    let session = new_uuid_v4();
    let r = playback_info_for(files, uuid_string(session));
    assert(is_uuid_v4(session) && r@ == playback_info_of(files@, uuid_text(session)));
    r
}

/// The file a stream request names: its `MediaSourceId` when that is a
/// UUID, else the id in its path.
pub open spec fn stream_file_of(media_source_id: Option<Seq<char>>, item_id: u128) -> u128 {
    match media_source_id {
        Some(s) => match uuid_parse(s) {
            Some(v) => v,
            None => item_id,
        },
        None => item_id,
    }
}

/// The file to stream for a request on `item_id` with the given
/// `MediaSourceId` parameter.
pub fn stream_file_id(media_source_id: &Option<String>, item_id: u128) -> (r: u128)
    ensures
        r == stream_file_of(opt_view(*media_source_id), item_id),
{
    match media_source_id {
        Some(s) => match parse_uuid(s.as_str()) {
            Some(v) => v,
            None => item_id,
        },
        None => item_id,
    }
}

/// The query of a `PlaybackInfo` request.
pub struct PlaybackInfoQuery {
    pub user_id: Option<String>,
}

impl Default for PlaybackInfoQuery {
    fn default() -> (r: Self)
        ensures
            r.user_id is None,
    {
        PlaybackInfoQuery { user_id: None }
    }
}

/// The query of a stream request: a token, whether the client wants the
/// file as is, and the media source (file) to stream.
pub struct StreamQuery {
    pub api_key: Option<String>,
    pub is_static: Option<bool>,
    pub media_source_id: Option<String>,
}

impl Default for StreamQuery {
    fn default() -> (r: Self)
        ensures
            r.api_key is None && r.is_static is None && r.media_source_id is None,
    {
        StreamQuery { api_key: None, is_static: None, media_source_id: None }
    }
}


/// The streams of a playback description are numbered by their position:
/// the main video stream (the default video) first, then the further video
/// streams, then the audio streams, of which only the first is the
/// default.
pub proof fn law_playback_streams_numbered(f: VideoFileRow)
    requires
        playback_stream_count(f) <= i32::MAX,
    ensures
        playback_streams(f).len() == playback_stream_count(f),
        forall|k: int| 0 <= k < playback_streams(f).len() ==> (#[trigger] playback_streams(f)[k]).index == k,
        forall|k: int|
            0 <= k < playback_streams(f).len() && (#[trigger] playback_streams(f)[k]).stream_type == "Audio"@
                ==> (playback_streams(f)[k].is_default <==> k == playback_main_streams(f).len()
                + extra_video_probes(f.video_streams).len()),
{
    let main = playback_main_streams(f);
    let extra = extra_video_probes(f.video_streams);
    let audio = audio_probes(f.audio_streams);
    let videos = main + Seq::new(extra.len(), |j: int| extra_video_stream(extra[j], main.len() + j));
    let all = playback_streams(f);
    assert(all == videos + Seq::new(audio.len(), |j: int| playback_audio_stream(audio[j], videos.len() + j, j == 0)));
    reveal_strlit("Audio");
    reveal_strlit("Video");
    assert forall|k: int| 0 <= k < all.len() implies (#[trigger] all[k]).index == k && (all[k].stream_type
        == "Audio"@ ==> (all[k].is_default <==> k == main.len() + extra.len())) by {
        assert("Video"@[0] != "Audio"@[0]);
        if k < main.len() {
            assert(all[k] == main[k]);
            assert(all[k].index == k);
            assert(all[k].stream_type == "Video"@);
        } else if k < videos.len() {
            assert(all[k] == extra_video_stream(extra[k - main.len()], k));
            assert(all[k].index == k);
            assert(all[k].stream_type == "Video"@);
        } else {
            assert(all[k] == playback_audio_stream(audio[k - videos.len()], k, k - videos.len() == 0));
            assert(all[k].index == k);
        }
    }
}


/// A playback answer describes the item's files in order, one source per
/// file identified by the file's id, each with audio stream 1 as default;
/// it answers `NotFound` exactly when there is no file, under the given
/// session id.
pub proof fn law_playback_answer(files: Seq<VideoFileRow>, play_session_id: Seq<char>)
    ensures
        ({
            let a = playback_info_of(files, play_session_id);
            &&& a.media_sources.len() == files.len()
            &&& forall|k: int|
                0 <= k < files.len() ==> (#[trigger] a.media_sources[k]).id == uuid_text(files[k].id)
                    && a.media_sources[k].default_audio_stream_index == Some(1i32)
                    && a.media_sources[k].media_streams == playback_streams(files[k])
            &&& (a.error_code == Some("NotFound"@) <==> files.len() == 0)
            &&& (a.error_code is None <==> files.len() > 0)
            &&& a.play_session_id == play_session_id
        }),
{
}

} // verus!
