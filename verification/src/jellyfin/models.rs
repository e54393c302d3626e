//! Jellyfin-compatible records as the library builds them, each with the
//! mathematical contents its contracts speak of.

use vstd::prelude::*;
use crate::text::opt_view;

verus! {

/// An aspect ratio as a fraction (width over height).
#[derive(Debug, Clone, Copy, PartialEq, Eq)]
pub struct AspectRatio {
    pub width: u32,
    pub height: u32,
}

/// The contents of a list of strings.
pub open spec fn strings_view(v: Vec<String>) -> Seq<Seq<char>> {
    v@.map_values(|s: String| s@)
}

/// The contents of an optional list of strings.
pub open spec fn opt_strings_view(v: Option<Vec<String>>) -> Option<Seq<Seq<char>>> {
    match v {
        Some(l) => Some(strings_view(l)),
        None => None,
    }
}

/// The contents of a key/value list.
pub open spec fn pairs_view(v: Vec<(String, String)>) -> Seq<(Seq<char>, Seq<char>)> {
    v@.map_values(|p: (String, String)| (p.0@, p.1@))
}

pub open spec fn people_view(v: Option<Vec<PersonDto>>) -> Option<Seq<PersonView>> {
    match v {
        Some(l) => Some(l@.map_values(|p: PersonDto| p@)),
        None => None,
    }
}

pub open spec fn streams_view(v: Vec<MediaStream>) -> Seq<MediaStreamView> {
    v@.map_values(|s: MediaStream| s@)
}

pub open spec fn opt_streams_view(v: Option<Vec<MediaStream>>) -> Option<Seq<MediaStreamView>> {
    match v {
        Some(l) => Some(streams_view(l)),
        None => None,
    }
}

pub open spec fn sources_view(v: Option<Vec<MediaSourceInfo>>) -> Option<Seq<MediaSourceView>> {
    match v {
        Some(l) => Some(l@.map_values(|s: MediaSourceInfo| s@)),
        None => None,
    }
}

pub open spec fn user_data_view(v: Option<UserItemDataDto>) -> Option<UserDataView> {
    match v {
        Some(d) => Some(d@),
        None => None,
    }
}

/// A link to the item on an outside site.
#[derive(Debug, Clone)]
pub struct ExternalUrl {
    pub name: String,
    pub url: String,
}

/// The contents of a [`ExternalUrl`].
pub struct ExternalUrlView {
    pub name: Seq<char>,
    pub url: Seq<char>,
}

impl View for ExternalUrl {
    type V = ExternalUrlView;

    open spec fn view(&self) -> ExternalUrlView {
        ExternalUrlView {
            name: self.name@,
            url: self.url@,
        }
    }
}

/// The contents of a default [`ExternalUrl`].
pub open spec fn blank_external_url() -> ExternalUrlView {
    ExternalUrlView {
        name: Seq::empty(),
        url: Seq::empty(),
    }
}

impl Default for ExternalUrl {
    fn default() -> (r: Self)
        ensures
            r@ == blank_external_url(),
    {
        let r = ExternalUrl {
            name: String::new(),
            url: String::new(),
        };
        r
    }
}

/// A name with the id it refers to (genres, studios).
#[derive(Debug, Clone)]
pub struct NameIdPair {
    pub name: String,
    pub id: String,
}

/// The contents of a [`NameIdPair`].
pub struct NameIdView {
    pub name: Seq<char>,
    pub id: Seq<char>,
}

impl View for NameIdPair {
    type V = NameIdView;

    open spec fn view(&self) -> NameIdView {
        NameIdView {
            name: self.name@,
            id: self.id@,
        }
    }
}

/// The contents of a default [`NameIdPair`].
pub open spec fn blank_name_id() -> NameIdView {
    NameIdView {
        name: Seq::empty(),
        id: Seq::empty(),
    }
}

impl Default for NameIdPair {
    fn default() -> (r: Self)
        ensures
            r@ == blank_name_id(),
    {
        let r = NameIdPair {
            name: String::new(),
            id: String::new(),
        };
        r
    }
}

/// A cast or crew member of an item.
#[derive(Debug, Clone)]
pub struct PersonDto {
    pub name: String,
    pub id: String,
    pub role: Option<String>,
    pub person_type: String,
    pub primary_image_tag: Option<String>,
}

/// The contents of a [`PersonDto`].
pub struct PersonView {
    pub name: Seq<char>,
    pub id: Seq<char>,
    pub role: Option<Seq<char>>,
    pub person_type: Seq<char>,
    pub primary_image_tag: Option<Seq<char>>,
}

impl View for PersonDto {
    type V = PersonView;

    open spec fn view(&self) -> PersonView {
        PersonView {
            name: self.name@,
            id: self.id@,
            role: opt_view(self.role),
            person_type: self.person_type@,
            primary_image_tag: opt_view(self.primary_image_tag),
        }
    }
}

/// The contents of a default [`PersonDto`].
pub open spec fn blank_person() -> PersonView {
    PersonView {
        name: Seq::empty(),
        id: Seq::empty(),
        role: None,
        person_type: Seq::empty(),
        primary_image_tag: None,
    }
}

impl Default for PersonDto {
    fn default() -> (r: Self)
        ensures
            r@ == blank_person(),
    {
        let r = PersonDto {
            name: String::new(),
            id: String::new(),
            role: None,
            person_type: String::new(),
            primary_image_tag: None,
        };
        r
    }
}

/// What a user has done with an item. The played percentage is a whole percent.
#[derive(Debug, Clone)]
pub struct UserItemDataDto {
    pub played_percentage: Option<u32>,
    pub playback_position_ticks: i64,
    pub play_count: i32,
    pub is_favorite: bool,
    pub played: bool,
    pub last_played_date: Option<String>,
    pub unplayed_item_count: Option<i32>,
    pub key: String,
    pub item_id: String,
}

/// The contents of a [`UserItemDataDto`].
pub struct UserDataView {
    pub played_percentage: Option<u32>,
    pub playback_position_ticks: i64,
    pub play_count: i32,
    pub is_favorite: bool,
    pub played: bool,
    pub last_played_date: Option<Seq<char>>,
    pub unplayed_item_count: Option<i32>,
    pub key: Seq<char>,
    pub item_id: Seq<char>,
}

impl View for UserItemDataDto {
    type V = UserDataView;

    open spec fn view(&self) -> UserDataView {
        UserDataView {
            played_percentage: self.played_percentage,
            playback_position_ticks: self.playback_position_ticks,
            play_count: self.play_count,
            is_favorite: self.is_favorite,
            played: self.played,
            last_played_date: opt_view(self.last_played_date),
            unplayed_item_count: self.unplayed_item_count,
            key: self.key@,
            item_id: self.item_id@,
        }
    }
}

/// The contents of a default [`UserItemDataDto`].
pub open spec fn blank_user_data() -> UserDataView {
    UserDataView {
        played_percentage: None,
        playback_position_ticks: 0,
        play_count: 0,
        is_favorite: false,
        played: false,
        last_played_date: None,
        unplayed_item_count: None,
        key: Seq::empty(),
        item_id: Seq::empty(),
    }
}

impl Default for UserItemDataDto {
    fn default() -> (r: Self)
        ensures
            r@ == blank_user_data(),
    {
        let r = UserItemDataDto {
            played_percentage: None,
            playback_position_ticks: 0,
            play_count: 0,
            is_favorite: false,
            played: false,
            last_played_date: None,
            unplayed_item_count: None,
            key: String::new(),
            item_id: String::new(),
        };
        r
    }
}

/// One video, audio or subtitle stream of a media file. Frame rates, which are floating point, are kept outside the library.
#[derive(Debug, Clone)]
pub struct MediaStream {
    pub codec: String,
    pub color_space: Option<String>,
    pub color_transfer: Option<String>,
    pub color_primaries: Option<String>,
    pub time_base: Option<String>,
    pub video_range: Option<String>,
    pub video_range_type: Option<String>,
    pub audio_spatial_format: String,
    pub display_title: Option<String>,
    pub is_interlaced: bool,
    pub is_avc: bool,
    pub channel_layout: Option<String>,
    pub bit_rate: Option<i64>,
    pub bit_depth: Option<i32>,
    pub ref_frames: Option<i32>,
    pub is_default: bool,
    pub is_forced: bool,
    pub is_hearing_impaired: bool,
    pub height: Option<i32>,
    pub width: Option<i32>,
    pub profile: Option<String>,
    pub stream_type: String,
    pub aspect_ratio: Option<String>,
    pub index: i32,
    pub is_external: bool,
    pub is_text_subtitle_stream: bool,
    pub supports_external_stream: bool,
    pub pixel_format: Option<String>,
    pub level: i32,
    pub is_anamorphic: Option<bool>,
    pub language: Option<String>,
    pub channels: Option<i32>,
    pub sample_rate: Option<i32>,
    pub localized_default: Option<String>,
    pub localized_external: Option<String>,
}

/// The contents of a [`MediaStream`].
pub struct MediaStreamView {
    pub codec: Seq<char>,
    pub color_space: Option<Seq<char>>,
    pub color_transfer: Option<Seq<char>>,
    pub color_primaries: Option<Seq<char>>,
    pub time_base: Option<Seq<char>>,
    pub video_range: Option<Seq<char>>,
    pub video_range_type: Option<Seq<char>>,
    pub audio_spatial_format: Seq<char>,
    pub display_title: Option<Seq<char>>,
    pub is_interlaced: bool,
    pub is_avc: bool,
    pub channel_layout: Option<Seq<char>>,
    pub bit_rate: Option<i64>,
    pub bit_depth: Option<i32>,
    pub ref_frames: Option<i32>,
    pub is_default: bool,
    pub is_forced: bool,
    pub is_hearing_impaired: bool,
    pub height: Option<i32>,
    pub width: Option<i32>,
    pub profile: Option<Seq<char>>,
    pub stream_type: Seq<char>,
    pub aspect_ratio: Option<Seq<char>>,
    pub index: i32,
    pub is_external: bool,
    pub is_text_subtitle_stream: bool,
    pub supports_external_stream: bool,
    pub pixel_format: Option<Seq<char>>,
    pub level: i32,
    pub is_anamorphic: Option<bool>,
    pub language: Option<Seq<char>>,
    pub channels: Option<i32>,
    pub sample_rate: Option<i32>,
    pub localized_default: Option<Seq<char>>,
    pub localized_external: Option<Seq<char>>,
}

impl View for MediaStream {
    type V = MediaStreamView;

    open spec fn view(&self) -> MediaStreamView {
        MediaStreamView {
            codec: self.codec@,
            color_space: opt_view(self.color_space),
            color_transfer: opt_view(self.color_transfer),
            color_primaries: opt_view(self.color_primaries),
            time_base: opt_view(self.time_base),
            video_range: opt_view(self.video_range),
            video_range_type: opt_view(self.video_range_type),
            audio_spatial_format: self.audio_spatial_format@,
            display_title: opt_view(self.display_title),
            is_interlaced: self.is_interlaced,
            is_avc: self.is_avc,
            channel_layout: opt_view(self.channel_layout),
            bit_rate: self.bit_rate,
            bit_depth: self.bit_depth,
            ref_frames: self.ref_frames,
            is_default: self.is_default,
            is_forced: self.is_forced,
            is_hearing_impaired: self.is_hearing_impaired,
            height: self.height,
            width: self.width,
            profile: opt_view(self.profile),
            stream_type: self.stream_type@,
            aspect_ratio: opt_view(self.aspect_ratio),
            index: self.index,
            is_external: self.is_external,
            is_text_subtitle_stream: self.is_text_subtitle_stream,
            supports_external_stream: self.supports_external_stream,
            pixel_format: opt_view(self.pixel_format),
            level: self.level,
            is_anamorphic: self.is_anamorphic,
            language: opt_view(self.language),
            channels: self.channels,
            sample_rate: self.sample_rate,
            localized_default: opt_view(self.localized_default),
            localized_external: opt_view(self.localized_external),
        }
    }
}

/// The contents of a default [`MediaStream`].
pub open spec fn blank_stream() -> MediaStreamView {
    MediaStreamView {
        codec: Seq::empty(),
        color_space: None,
        color_transfer: None,
        color_primaries: None,
        time_base: None,
        video_range: None,
        video_range_type: None,
        audio_spatial_format: Seq::empty(),
        display_title: None,
        is_interlaced: false,
        is_avc: false,
        channel_layout: None,
        bit_rate: None,
        bit_depth: None,
        ref_frames: None,
        is_default: false,
        is_forced: false,
        is_hearing_impaired: false,
        height: None,
        width: None,
        profile: None,
        stream_type: Seq::empty(),
        aspect_ratio: None,
        index: 0,
        is_external: false,
        is_text_subtitle_stream: false,
        supports_external_stream: false,
        pixel_format: None,
        level: 0,
        is_anamorphic: None,
        language: None,
        channels: None,
        sample_rate: None,
        localized_default: None,
        localized_external: None,
    }
}

impl Default for MediaStream {
    fn default() -> (r: Self)
        ensures
            r@ == blank_stream(),
    {
        let r = MediaStream {
            codec: String::new(),
            color_space: None,
            color_transfer: None,
            color_primaries: None,
            time_base: None,
            video_range: None,
            video_range_type: None,
            audio_spatial_format: String::new(),
            display_title: None,
            is_interlaced: false,
            is_avc: false,
            channel_layout: None,
            bit_rate: None,
            bit_depth: None,
            ref_frames: None,
            is_default: false,
            is_forced: false,
            is_hearing_impaired: false,
            height: None,
            width: None,
            profile: None,
            stream_type: String::new(),
            aspect_ratio: None,
            index: 0,
            is_external: false,
            is_text_subtitle_stream: false,
            supports_external_stream: false,
            pixel_format: None,
            level: 0,
            is_anamorphic: None,
            language: None,
            channels: None,
            sample_rate: None,
            localized_default: None,
            localized_external: None,
        };
        r
    }
}

/// A playable file of an item. Its attachment list and required HTTP headers are always empty and are added where it is serialized.
#[derive(Debug, Clone)]
pub struct MediaSourceInfo {
    pub protocol: String,
    pub id: String,
    pub path: String,
    pub source_type: String,
    pub container: String,
    pub size: Option<i64>,
    pub name: String,
    pub is_remote: bool,
    pub e_tag: Option<String>,
    pub run_time_ticks: Option<i64>,
    pub read_at_native_framerate: bool,
    pub ignore_dts: bool,
    pub ignore_index: bool,
    pub gen_pts_input: bool,
    pub supports_transcoding: bool,
    pub supports_direct_stream: bool,
    pub supports_direct_play: bool,
    pub is_infinite_stream: bool,
    pub use_most_compatible_transcoding_profile: bool,
    pub requires_opening: bool,
    pub requires_closing: bool,
    pub requires_looping: bool,
    pub supports_probing: bool,
    pub video_type: Option<String>,
    pub media_streams: Vec<MediaStream>,
    pub formats: Vec<String>,
    pub bitrate: Option<i64>,
    pub default_audio_stream_index: Option<i32>,
    pub default_subtitle_stream_index: Option<i32>,
    pub transcoding_sub_protocol: Option<String>,
    pub has_segments: bool,
    pub direct_stream_url: Option<String>,
}

/// The contents of a [`MediaSourceInfo`].
pub struct MediaSourceView {
    pub protocol: Seq<char>,
    pub id: Seq<char>,
    pub path: Seq<char>,
    pub source_type: Seq<char>,
    pub container: Seq<char>,
    pub size: Option<i64>,
    pub name: Seq<char>,
    pub is_remote: bool,
    pub e_tag: Option<Seq<char>>,
    pub run_time_ticks: Option<i64>,
    pub read_at_native_framerate: bool,
    pub ignore_dts: bool,
    pub ignore_index: bool,
    pub gen_pts_input: bool,
    pub supports_transcoding: bool,
    pub supports_direct_stream: bool,
    pub supports_direct_play: bool,
    pub is_infinite_stream: bool,
    pub use_most_compatible_transcoding_profile: bool,
    pub requires_opening: bool,
    pub requires_closing: bool,
    pub requires_looping: bool,
    pub supports_probing: bool,
    pub video_type: Option<Seq<char>>,
    pub media_streams: Seq<MediaStreamView>,
    pub formats: Seq<Seq<char>>,
    pub bitrate: Option<i64>,
    pub default_audio_stream_index: Option<i32>,
    pub default_subtitle_stream_index: Option<i32>,
    pub transcoding_sub_protocol: Option<Seq<char>>,
    pub has_segments: bool,
    pub direct_stream_url: Option<Seq<char>>,
}

impl View for MediaSourceInfo {
    type V = MediaSourceView;

    open spec fn view(&self) -> MediaSourceView {
        MediaSourceView {
            protocol: self.protocol@,
            id: self.id@,
            path: self.path@,
            source_type: self.source_type@,
            container: self.container@,
            size: self.size,
            name: self.name@,
            is_remote: self.is_remote,
            e_tag: opt_view(self.e_tag),
            run_time_ticks: self.run_time_ticks,
            read_at_native_framerate: self.read_at_native_framerate,
            ignore_dts: self.ignore_dts,
            ignore_index: self.ignore_index,
            gen_pts_input: self.gen_pts_input,
            supports_transcoding: self.supports_transcoding,
            supports_direct_stream: self.supports_direct_stream,
            supports_direct_play: self.supports_direct_play,
            is_infinite_stream: self.is_infinite_stream,
            use_most_compatible_transcoding_profile: self.use_most_compatible_transcoding_profile,
            requires_opening: self.requires_opening,
            requires_closing: self.requires_closing,
            requires_looping: self.requires_looping,
            supports_probing: self.supports_probing,
            video_type: opt_view(self.video_type),
            media_streams: streams_view(self.media_streams),
            formats: strings_view(self.formats),
            bitrate: self.bitrate,
            default_audio_stream_index: self.default_audio_stream_index,
            default_subtitle_stream_index: self.default_subtitle_stream_index,
            transcoding_sub_protocol: opt_view(self.transcoding_sub_protocol),
            has_segments: self.has_segments,
            direct_stream_url: opt_view(self.direct_stream_url),
        }
    }
}

/// A library item as Jellyfin clients receive it (movie, series, season, episode or folder). Ratings and other floating-point fields, and fields that always hold empty JSON, are kept outside the library; image tags and provider ids are key/value lists.
#[derive(Debug, Clone)]
pub struct BaseItemDto {
    pub name: String,
    pub original_title: Option<String>,
    pub server_id: String,
    pub id: String,
    pub etag: Option<String>,
    pub date_created: Option<String>,
    pub date_last_media_added: Option<String>,
    pub can_delete: bool,
    pub can_download: bool,
    pub has_subtitles: Option<bool>,
    pub container: Option<String>,
    pub sort_name: Option<String>,
    pub forced_sort_name: Option<String>,
    pub premiere_date: Option<String>,
    pub external_urls: Vec<ExternalUrl>,
    pub media_sources: Option<Vec<MediaSourceInfo>>,
    pub production_locations: Option<Vec<String>>,
    pub path: Option<String>,
    pub enable_media_source_display: Option<bool>,
    pub channel_id: Option<String>,
    pub overview: Option<String>,
    pub taglines: Vec<String>,
    pub genres: Vec<String>,
    pub run_time_ticks: Option<i64>,
    pub play_access: String,
    pub production_year: Option<i32>,
    pub provider_ids: Vec<(String, String)>,
    pub is_h_d: Option<bool>,
    pub is_folder: bool,
    pub parent_id: Option<String>,
    pub item_type: String,
    pub people: Option<Vec<PersonDto>>,
    pub studios: Vec<NameIdPair>,
    pub genre_items: Vec<NameIdPair>,
    pub local_trailer_count: i32,
    pub user_data: Option<UserItemDataDto>,
    pub special_feature_count: Option<i32>,
    pub display_preferences_id: Option<String>,
    pub tags: Vec<String>,
    pub primary_image_aspect_ratio: Option<AspectRatio>,
    pub collection_type: Option<String>,
    pub image_tags: Vec<(String, String)>,
    pub backdrop_image_tags: Vec<String>,
    pub media_streams: Option<Vec<MediaStream>>,
    pub location_type: String,
    pub media_type: String,
    pub locked_fields: Vec<String>,
    pub lock_data: bool,
    pub official_rating: Option<String>,
    pub video_type: Option<String>,
    pub width: Option<i32>,
    pub height: Option<i32>,
    pub index_number: Option<i32>,
    pub parent_index_number: Option<i32>,
    pub child_count: Option<i32>,
    pub recursive_item_count: Option<i32>,
    pub status: Option<String>,
    pub air_days: Option<Vec<String>>,
    pub end_date: Option<String>,
    pub display_order: Option<String>,
    pub series_name: Option<String>,
    pub series_id: Option<String>,
    pub season_id: Option<String>,
    pub season_name: Option<String>,
    pub series_primary_image_tag: Option<String>,
    pub parent_backdrop_item_id: Option<String>,
    pub parent_backdrop_image_tags: Option<Vec<String>>,
    pub parent_logo_item_id: Option<String>,
    pub parent_logo_image_tag: Option<String>,
    pub parent_thumb_item_id: Option<String>,
    pub parent_thumb_image_tag: Option<String>,
    pub iso_type: Option<String>,
}

/// The contents of a [`BaseItemDto`].
pub struct ItemView {
    pub name: Seq<char>,
    pub original_title: Option<Seq<char>>,
    pub server_id: Seq<char>,
    pub id: Seq<char>,
    pub etag: Option<Seq<char>>,
    pub date_created: Option<Seq<char>>,
    pub date_last_media_added: Option<Seq<char>>,
    pub can_delete: bool,
    pub can_download: bool,
    pub has_subtitles: Option<bool>,
    pub container: Option<Seq<char>>,
    pub sort_name: Option<Seq<char>>,
    pub forced_sort_name: Option<Seq<char>>,
    pub premiere_date: Option<Seq<char>>,
    pub external_urls: Seq<ExternalUrlView>,
    pub media_sources: Option<Seq<MediaSourceView>>,
    pub production_locations: Option<Seq<Seq<char>>>,
    pub path: Option<Seq<char>>,
    pub enable_media_source_display: Option<bool>,
    pub channel_id: Option<Seq<char>>,
    pub overview: Option<Seq<char>>,
    pub taglines: Seq<Seq<char>>,
    pub genres: Seq<Seq<char>>,
    pub run_time_ticks: Option<i64>,
    pub play_access: Seq<char>,
    pub production_year: Option<i32>,
    pub provider_ids: Seq<(Seq<char>, Seq<char>)>,
    pub is_h_d: Option<bool>,
    pub is_folder: bool,
    pub parent_id: Option<Seq<char>>,
    pub item_type: Seq<char>,
    pub people: Option<Seq<PersonView>>,
    pub studios: Seq<NameIdView>,
    pub genre_items: Seq<NameIdView>,
    pub local_trailer_count: i32,
    pub user_data: Option<UserDataView>,
    pub special_feature_count: Option<i32>,
    pub display_preferences_id: Option<Seq<char>>,
    pub tags: Seq<Seq<char>>,
    pub primary_image_aspect_ratio: Option<AspectRatio>,
    pub collection_type: Option<Seq<char>>,
    pub image_tags: Seq<(Seq<char>, Seq<char>)>,
    pub backdrop_image_tags: Seq<Seq<char>>,
    pub media_streams: Option<Seq<MediaStreamView>>,
    pub location_type: Seq<char>,
    pub media_type: Seq<char>,
    pub locked_fields: Seq<Seq<char>>,
    pub lock_data: bool,
    pub official_rating: Option<Seq<char>>,
    pub video_type: Option<Seq<char>>,
    pub width: Option<i32>,
    pub height: Option<i32>,
    pub index_number: Option<i32>,
    pub parent_index_number: Option<i32>,
    pub child_count: Option<i32>,
    pub recursive_item_count: Option<i32>,
    pub status: Option<Seq<char>>,
    pub air_days: Option<Seq<Seq<char>>>,
    pub end_date: Option<Seq<char>>,
    pub display_order: Option<Seq<char>>,
    pub series_name: Option<Seq<char>>,
    pub series_id: Option<Seq<char>>,
    pub season_id: Option<Seq<char>>,
    pub season_name: Option<Seq<char>>,
    pub series_primary_image_tag: Option<Seq<char>>,
    pub parent_backdrop_item_id: Option<Seq<char>>,
    pub parent_backdrop_image_tags: Option<Seq<Seq<char>>>,
    pub parent_logo_item_id: Option<Seq<char>>,
    pub parent_logo_image_tag: Option<Seq<char>>,
    pub parent_thumb_item_id: Option<Seq<char>>,
    pub parent_thumb_image_tag: Option<Seq<char>>,
    pub iso_type: Option<Seq<char>>,
}

impl View for BaseItemDto {
    type V = ItemView;

    open spec fn view(&self) -> ItemView {
        ItemView {
            name: self.name@,
            original_title: opt_view(self.original_title),
            server_id: self.server_id@,
            id: self.id@,
            etag: opt_view(self.etag),
            date_created: opt_view(self.date_created),
            date_last_media_added: opt_view(self.date_last_media_added),
            can_delete: self.can_delete,
            can_download: self.can_download,
            has_subtitles: self.has_subtitles,
            container: opt_view(self.container),
            sort_name: opt_view(self.sort_name),
            forced_sort_name: opt_view(self.forced_sort_name),
            premiere_date: opt_view(self.premiere_date),
            external_urls: self.external_urls@.map_values(|e: ExternalUrl| e@),
            media_sources: sources_view(self.media_sources),
            production_locations: opt_strings_view(self.production_locations),
            path: opt_view(self.path),
            enable_media_source_display: self.enable_media_source_display,
            channel_id: opt_view(self.channel_id),
            overview: opt_view(self.overview),
            taglines: strings_view(self.taglines),
            genres: strings_view(self.genres),
            run_time_ticks: self.run_time_ticks,
            play_access: self.play_access@,
            production_year: self.production_year,
            provider_ids: pairs_view(self.provider_ids),
            is_h_d: self.is_h_d,
            is_folder: self.is_folder,
            parent_id: opt_view(self.parent_id),
            item_type: self.item_type@,
            people: people_view(self.people),
            studios: self.studios@.map_values(|e: NameIdPair| e@),
            genre_items: self.genre_items@.map_values(|e: NameIdPair| e@),
            local_trailer_count: self.local_trailer_count,
            user_data: user_data_view(self.user_data),
            special_feature_count: self.special_feature_count,
            display_preferences_id: opt_view(self.display_preferences_id),
            tags: strings_view(self.tags),
            primary_image_aspect_ratio: self.primary_image_aspect_ratio,
            collection_type: opt_view(self.collection_type),
            image_tags: pairs_view(self.image_tags),
            backdrop_image_tags: strings_view(self.backdrop_image_tags),
            media_streams: opt_streams_view(self.media_streams),
            location_type: self.location_type@,
            media_type: self.media_type@,
            locked_fields: strings_view(self.locked_fields),
            lock_data: self.lock_data,
            official_rating: opt_view(self.official_rating),
            video_type: opt_view(self.video_type),
            width: self.width,
            height: self.height,
            index_number: self.index_number,
            parent_index_number: self.parent_index_number,
            child_count: self.child_count,
            recursive_item_count: self.recursive_item_count,
            status: opt_view(self.status),
            air_days: opt_strings_view(self.air_days),
            end_date: opt_view(self.end_date),
            display_order: opt_view(self.display_order),
            series_name: opt_view(self.series_name),
            series_id: opt_view(self.series_id),
            season_id: opt_view(self.season_id),
            season_name: opt_view(self.season_name),
            series_primary_image_tag: opt_view(self.series_primary_image_tag),
            parent_backdrop_item_id: opt_view(self.parent_backdrop_item_id),
            parent_backdrop_image_tags: opt_strings_view(self.parent_backdrop_image_tags),
            parent_logo_item_id: opt_view(self.parent_logo_item_id),
            parent_logo_image_tag: opt_view(self.parent_logo_image_tag),
            parent_thumb_item_id: opt_view(self.parent_thumb_item_id),
            parent_thumb_image_tag: opt_view(self.parent_thumb_image_tag),
            iso_type: opt_view(self.iso_type),
        }
    }
}

/// The contents of a default [`BaseItemDto`].
pub open spec fn blank_item() -> ItemView {
    ItemView {
        name: Seq::empty(),
        original_title: None,
        server_id: Seq::empty(),
        id: Seq::empty(),
        etag: None,
        date_created: None,
        date_last_media_added: None,
        can_delete: false,
        can_download: false,
        has_subtitles: None,
        container: None,
        sort_name: None,
        forced_sort_name: None,
        premiere_date: None,
        external_urls: Seq::empty(),
        media_sources: None,
        production_locations: None,
        path: None,
        enable_media_source_display: None,
        channel_id: None,
        overview: None,
        taglines: Seq::empty(),
        genres: Seq::empty(),
        run_time_ticks: None,
        play_access: Seq::empty(),
        production_year: None,
        provider_ids: Seq::empty(),
        is_h_d: None,
        is_folder: false,
        parent_id: None,
        item_type: Seq::empty(),
        people: None,
        studios: Seq::empty(),
        genre_items: Seq::empty(),
        local_trailer_count: 0,
        user_data: None,
        special_feature_count: None,
        display_preferences_id: None,
        tags: Seq::empty(),
        primary_image_aspect_ratio: None,
        collection_type: None,
        image_tags: Seq::empty(),
        backdrop_image_tags: Seq::empty(),
        media_streams: None,
        location_type: Seq::empty(),
        media_type: Seq::empty(),
        locked_fields: Seq::empty(),
        lock_data: false,
        official_rating: None,
        video_type: None,
        width: None,
        height: None,
        index_number: None,
        parent_index_number: None,
        child_count: None,
        recursive_item_count: None,
        status: None,
        air_days: None,
        end_date: None,
        display_order: None,
        series_name: None,
        series_id: None,
        season_id: None,
        season_name: None,
        series_primary_image_tag: None,
        parent_backdrop_item_id: None,
        parent_backdrop_image_tags: None,
        parent_logo_item_id: None,
        parent_logo_image_tag: None,
        parent_thumb_item_id: None,
        parent_thumb_image_tag: None,
        iso_type: None,
    }
}

impl Default for BaseItemDto {
    fn default() -> (r: Self)
        ensures
            r@ == blank_item(),
    {
        let r = BaseItemDto {
            name: String::new(),
            original_title: None,
            server_id: String::new(),
            id: String::new(),
            etag: None,
            date_created: None,
            date_last_media_added: None,
            can_delete: false,
            can_download: false,
            has_subtitles: None,
            container: None,
            sort_name: None,
            forced_sort_name: None,
            premiere_date: None,
            external_urls: Vec::new(),
            media_sources: None,
            production_locations: None,
            path: None,
            enable_media_source_display: None,
            channel_id: None,
            overview: None,
            taglines: Vec::new(),
            genres: Vec::new(),
            run_time_ticks: None,
            play_access: String::new(),
            production_year: None,
            provider_ids: Vec::new(),
            is_h_d: None,
            is_folder: false,
            parent_id: None,
            item_type: String::new(),
            people: None,
            studios: Vec::new(),
            genre_items: Vec::new(),
            local_trailer_count: 0,
            user_data: None,
            special_feature_count: None,
            display_preferences_id: None,
            tags: Vec::new(),
            primary_image_aspect_ratio: None,
            collection_type: None,
            image_tags: Vec::new(),
            backdrop_image_tags: Vec::new(),
            media_streams: None,
            location_type: String::new(),
            media_type: String::new(),
            locked_fields: Vec::new(),
            lock_data: false,
            official_rating: None,
            video_type: None,
            width: None,
            height: None,
            index_number: None,
            parent_index_number: None,
            child_count: None,
            recursive_item_count: None,
            status: None,
            air_days: None,
            end_date: None,
            display_order: None,
            series_name: None,
            series_id: None,
            season_id: None,
            season_name: None,
            series_primary_image_tag: None,
            parent_backdrop_item_id: None,
            parent_backdrop_image_tags: None,
            parent_logo_item_id: None,
            parent_logo_image_tag: None,
            parent_thumb_item_id: None,
            parent_thumb_image_tag: None,
            iso_type: None,
        };
        assert(r.external_urls@.map_values(|e: ExternalUrl| e@) =~= Seq::empty());
        assert(strings_view(r.taglines) =~= Seq::empty());
        assert(strings_view(r.genres) =~= Seq::empty());
        assert(pairs_view(r.provider_ids) =~= Seq::empty());
        assert(r.studios@.map_values(|e: NameIdPair| e@) =~= Seq::empty());
        assert(r.genre_items@.map_values(|e: NameIdPair| e@) =~= Seq::empty());
        assert(strings_view(r.tags) =~= Seq::empty());
        assert(pairs_view(r.image_tags) =~= Seq::empty());
        assert(strings_view(r.backdrop_image_tags) =~= Seq::empty());
        assert(strings_view(r.locked_fields) =~= Seq::empty());
        r
    }
}

} // verus!
