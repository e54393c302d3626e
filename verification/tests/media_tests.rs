use tokimo_media_server_bridge::jellyfin::models::{BaseItemDto, MediaStream};
use tokimo_media_server_bridge::jellyfin::playback::{
    build_audio_stream, build_playback_info, build_playback_source, build_video_stream,
    playback_info_for, stream_file_id, PlaybackInfoQuery, StreamQuery,
};
use tokimo_media_server_bridge::jellyfin::sources::{apply_media_sources, build_listing_source};
use tokimo_media_server_bridge::jellyfin::streams::{
    build_audio_streams_from_json, build_video_stream_from_json, file_container, AudioProbe,
    ProbeJson, VideoFileRow, VideoProbe,
};

const MOVIE: u128 = 0x11111111111111111111111111111111;
const MOVIE_TEXT: &str = "11111111-1111-1111-1111-111111111111";
const FILE: u128 = 0x22222222222222222222222222222222;
const FILE_TEXT: &str = "22222222-2222-2222-2222-222222222222";

fn s(x: &str) -> Option<String> {
    Some(x.to_string())
}

fn video_probe() -> VideoProbe {
    VideoProbe {
        bps_tag: s("8000000"),
        level: Some(51),
        pix_fmt: s("yuv420p10le"),
        color_space: s("bt2020nc"),
        color_transfer: s("smpte2084"),
        color_primaries: s("bt2020"),
        display_aspect_ratio: s("16:9"),
        time_base: s("1/1000"),
        codec: None,
        profile: None,
        language: None,
        width: None,
        height: None,
        bit_rate: None,
    }
}

fn audio_probe(index: Option<i64>, default: bool, layout: Option<&str>, channels: Option<i64>) -> AudioProbe {
    AudioProbe {
        codec_name: s("eac3"),
        codec: s("eac3"),
        index,
        disposition_default: Some(if default { 1 } else { 0 }),
        disposition_forced: None,
        tag_language: s("eng"),
        tag_title: None,
        tag_bps: s("640000"),
        language: s("eng"),
        title: None,
        bit_rate_text: None,
        bit_rate_number: Some(640000),
        channels,
        sample_rate_text: s("48000"),
        sample_rate_number: None,
        channel_layout: layout.map(|l| l.to_string()),
    }
}

fn file_row() -> VideoFileRow {
    VideoFileRow {
        id: FILE,
        video_item_id: Some(MOVIE),
        episode_id: None,
        path: "/movies/Film.MKV".to_string(),
        filename: "Film.MKV".to_string(),
        size: Some(1_000_000),
        duration: Some(100),
        video_codec: s("hevc"),
        video_width: Some(3840),
        video_height: Some(2160),
        video_profile: s("Main 10"),
        video_streams: ProbeJson::Object(video_probe()),
        audio_streams: ProbeJson::Array(vec![
            audio_probe(Some(1), false, Some("5.1(side)"), Some(6)),
            audio_probe(None, true, None, Some(2)),
        ]),
    }
}

#[test]
fn main_video_streams_describe_hdr() {
    let v = build_video_stream_from_json("hevc", Some(3840), Some(2160), s("Main 10"), &ProbeJson::Object(video_probe()));
    assert_eq!(v.display_title, s("HEVC 4K HDR10"));
    assert_eq!(v.video_range, s("HDR"));
    assert_eq!(v.video_range_type, s("HDR10"));
    assert_eq!(v.bit_rate, Some(8_000_000));
    assert_eq!(v.level, 51);
    assert_eq!(v.index, 0);
    assert!(v.is_default);
    assert!(!v.is_avc);
    let sdr = build_video_stream_from_json("h264", Some(1920), Some(1080), None, &ProbeJson::Other);
    assert_eq!(sdr.display_title, s("H264 1920x1080"));
    assert_eq!(sdr.video_range, s("SDR"));
    assert!(sdr.is_avc);
    assert_eq!(sdr.level, 0);
    let bare = build_video_stream_from_json("av1", None, None, None, &ProbeJson::Array(vec![]));
    assert_eq!(bare.display_title, s("AV1"));
}

#[test]
fn audio_streams_are_numbered_and_defaulted() {
    let json = ProbeJson::Array(vec![
        audio_probe(Some(1), false, Some("5.1(side)"), Some(6)),
        audio_probe(None, true, None, Some(2)),
        audio_probe(None, true, Some("mono"), Some(1)),
    ]);
    let (streams, default) = build_audio_streams_from_json(&json, 1);
    assert_eq!(streams.len(), 3);
    assert_eq!(streams[0].index, 1);
    assert_eq!(streams[1].index, 2);
    assert_eq!(streams[2].index, 3);
    assert_eq!(default, Some(2));
    assert_eq!(streams[0].channel_layout, s("5.1"));
    assert_eq!(streams[1].channel_layout, s("stereo"));
    assert_eq!(streams[0].display_title, s("EAC3 - 5.1"));
    assert_eq!(streams[0].bit_rate, Some(640000));
    assert_eq!(streams[0].sample_rate, Some(48000));
    assert_eq!(streams[0].language, s("eng"));
    let (none, no_default) = build_audio_streams_from_json(&ProbeJson::Other, 0);
    assert!(none.is_empty());
    assert_eq!(no_default, None);
}

#[test]
fn containers_are_lowercased_extensions() {
    assert_eq!(file_container("Film.MKV"), "mkv");
    assert_eq!(file_container("archive.tar.GZ"), "gz");
    assert_eq!(file_container("README"), "readme");
}

#[test]
fn listing_sources_describe_files() {
    let src = build_listing_source(&file_row());
    assert_eq!(src.id, FILE_TEXT);
    assert_eq!(src.container, "mkv");
    assert_eq!(src.protocol, "File");
    assert_eq!(src.bitrate, Some(80_000));
    assert_eq!(src.run_time_ticks, Some(1_000_000_000));
    assert_eq!(src.media_streams.len(), 3);
    assert_eq!(src.default_audio_stream_index, Some(2));
    assert_eq!(src.transcoding_sub_protocol, s("http"));
}

#[test]
fn playback_descriptions() {
    let empty = build_playback_info(&vec![]);
    assert!(empty.media_sources.is_empty());
    assert_eq!(empty.error_code, s("NotFound"));
    assert_eq!(empty.play_session_id.len(), 36);
    let info = playback_info_for(&vec![file_row()], "session".to_string());
    assert_eq!(info.error_code, None);
    assert_eq!(info.play_session_id, "session");
    let src = &info.media_sources[0];
    assert_eq!(src.default_audio_stream_index, Some(1));
    let streams: &Vec<MediaStream> = &src.media_streams;
    assert_eq!(streams.len(), 3);
    assert_eq!(streams[0].display_title, s("HEVC 3840x2160"));
    assert_eq!(streams[0].video_range, s("SDR"));
    assert_eq!(streams[1].index, 1);
    assert!(streams[1].is_default);
    assert_eq!(streams[2].index, 2);
    assert!(!streams[2].is_default);
    assert_eq!(streams[1].channel_layout, s("5.1"));
}

#[test]
fn playback_sources_list_extra_video_streams() {
    let mut row = file_row();
    let mut extra = video_probe();
    extra.codec = s("h264");
    extra.width = Some(1280);
    extra.height = Some(720);
    row.video_streams = ProbeJson::Array(vec![video_probe(), extra]);
    let src = build_playback_source(&row);
    assert_eq!(src.media_streams.len(), 4);
    assert_eq!(src.media_streams[1].codec, "h264");
    assert_eq!(src.media_streams[1].index, 1);
    assert!(!src.media_streams[1].is_default);
    assert_eq!(src.media_streams[2].index, 2);
}

#[test]
fn single_streams() {
    let v = build_video_stream("h264", 3, false, Some(640), Some(480), None, s("eng"), None, Some(1));
    assert_eq!(v.video_range, None);
    assert!(v.is_avc);
    assert_eq!(v.index, 3);
    let a = build_audio_stream("aac", 4, true, None, None, None, Some(8), None);
    assert_eq!(a.channel_layout, s("7.1"));
    let odd = build_audio_stream("aac", 4, true, None, None, None, Some(3), None);
    assert_eq!(odd.channel_layout, None);
}

#[test]
fn stream_requests_name_files() {
    assert_eq!(stream_file_id(&s(FILE_TEXT), MOVIE), FILE);
    assert_eq!(stream_file_id(&s("junk"), MOVIE), MOVIE);
    assert_eq!(stream_file_id(&None, MOVIE), MOVIE);
    assert!(PlaybackInfoQuery::default().user_id.is_none());
    assert!(StreamQuery::default().media_source_id.is_none());
}

fn movie_item(id: &str) -> BaseItemDto {
    BaseItemDto {
        id: id.to_string(),
        item_type: "Movie".to_string(),
        name: "Film".to_string(),
        ..BaseItemDto::default()
    }
}

#[test]
fn media_sources_go_to_the_first_item_with_the_id() {
    let mut items = vec![movie_item(MOVIE_TEXT), movie_item(MOVIE_TEXT), movie_item("not-a-uuid")];
    items.push(BaseItemDto { item_type: "Series".to_string(), id: MOVIE_TEXT.to_string(), ..BaseItemDto::default() });
    apply_media_sources(&mut items, &vec![file_row()]);
    let first = items[0].media_sources.as_ref().unwrap();
    assert_eq!(first.len(), 1);
    assert_eq!(items[0].container, s("mkv"));
    assert_eq!(items[0].path, s("/movies/Film.MKV"));
    assert_eq!(items[0].video_type, s("VideoFile"));
    assert_eq!(items[0].run_time_ticks, Some(1_000_000_000));
    assert_eq!(items[0].has_subtitles, Some(false));
    assert_eq!(items[1].media_sources.as_ref().map(|v| v.len()), Some(0));
    assert_eq!(items[1].container, None);
    assert!(items[2].media_sources.is_none());
    assert!(items[3].media_sources.is_none());
}
