//! Media sources of listed movies and episodes: each available file becomes
//! a source with its probed streams, and each playable item takes the
//! sources of the files that belong to it.

use vstd::prelude::*;
use crate::jellyfin::models::{BaseItemDto, ItemView, MediaSourceInfo, MediaSourceView, MediaStream, MediaStreamView};
use crate::numbers::uuid_text;
use crate::jellyfin::shape::{items_view, or_else};
use crate::jellyfin::streams::{
    audio_indices_fit, audio_streams_of, bitrate_fits, build_audio_streams_from_json, container_of,
    build_file_source, build_video_stream_from_json, file_source, main_video_stream,
    probe_object, stream_views, ProbeJson, VideoFileRow,
};
use crate::outside::{parse_uuid, uuid_parse};
use crate::text::{chars_of, clone_opt, opt_view, owned, str_is};

verus! {

/// Where a file's audio streams are numbered from: after its main video
/// stream when it has one.
pub open spec fn listing_start(f: VideoFileRow) -> i32 {
    if f.video_codec is Some {
        1
    } else {
        0
    }
}

/// A file's main video stream, when its codec is known.
pub open spec fn listing_main(f: VideoFileRow) -> Seq<MediaStreamView> {
    match f.video_codec {
        Some(c) => seq![
            main_video_stream(
                c@,
                f.video_width,
                f.video_height,
                opt_view(f.video_profile),
                probe_object(f.video_streams),
            ),
        ],
        None => Seq::empty(),
    }
}

/// A file's media source in a listing: its main video stream and its probed
/// audio streams, with the first default audio stream.
pub open spec fn listing_source(f: VideoFileRow) -> MediaSourceView {
    let audio = audio_streams_of(f.audio_streams, listing_start(f));
    file_source(f, listing_main(f) + audio.0, audio.1)
}

/// Whether a file's bitrate and audio stream numbers are representable.
pub open spec fn listing_ok(f: VideoFileRow) -> bool {
    &&& bitrate_fits(f.size, f.duration)
    &&& (f.audio_streams matches ProbeJson::Array(v) ==> audio_indices_fit(v@, listing_start(f)))
}

/// A file's media source for a listing.
pub fn build_listing_source(f: &VideoFileRow) -> (m: MediaSourceInfo)
    requires
        listing_ok(*f),
    ensures
        m@ == listing_source(*f),
{
    let mut streams: Vec<MediaStream> = Vec::new();
    let mut start: i32 = 0;
    if let Some(codec) = &f.video_codec {
        streams.push(build_video_stream_from_json(
            codec.as_str(),
            f.video_width,
            f.video_height,
            clone_opt(&f.video_profile),
            &f.video_streams,
        ));
        start = 1;
    }
    assert(stream_views(streams@) =~= listing_main(*f));
    let (mut audio, default_audio) = build_audio_streams_from_json(&f.audio_streams, start);
    let ghost main_part = stream_views(streams@);
    let ghost audio_part = stream_views(audio@);
    streams.append(&mut audio);
    assert(stream_views(streams@) =~= main_part + audio_part);
    build_file_source(f, streams, default_audio)
}

/// The item a file belongs to: its movie, else its episode, else the file
/// itself.
pub open spec fn file_owner(f: VideoFileRow) -> u128 {
    match f.video_item_id {
        Some(v) => v,
        None => match f.episode_id {
            Some(e) => e,
            None => f.id,
        },
    }
}

fn owner_of(f: &VideoFileRow) -> (r: u128)
    ensures
        r == file_owner(*f),
{
    match f.video_item_id {
        Some(v) => v,
        None => match f.episode_id {
            Some(e) => e,
            None => f.id,
        },
    }
}

/// The listing sources of the files that belong to `owner`, in file order.
pub open spec fn owned_sources(files: Seq<VideoFileRow>, owner: u128) -> Seq<MediaSourceView>
    decreases files.len(),
{
    if files.len() == 0 {
        Seq::empty()
    } else {
        let pre = owned_sources(files.drop_last(), owner);
        if file_owner(files.last()) == owner {
            pre.push(listing_source(files.last()))
        } else {
            pre
        }
    }
}

/// Whether every file can be described in a listing.
pub open spec fn files_listable(files: Seq<VideoFileRow>) -> bool {
    forall|k: int| 0 <= k < files.len() ==> listing_ok(#[trigger] files[k])
}

/// The sources of the files that belong to `owner`.
pub fn collect_sources(files: &Vec<VideoFileRow>, owner: u128) -> (r: Vec<MediaSourceInfo>)
    requires
        files_listable(files@),
    ensures
        r@.map_values(|m: MediaSourceInfo| m@) == owned_sources(files@, owner),
{
    let mut r: Vec<MediaSourceInfo> = Vec::new();
    for k in 0..files.len()
        invariant
            files_listable(files@),
            r@.map_values(|m: MediaSourceInfo| m@) == owned_sources(files@.take(k as int), owner),
    {
        assert(files@.take(k + 1).drop_last() =~= files@.take(k as int));
        assert(files@.take(k + 1).last() == files@[k as int]);
        if owner_of(&files[k]) == owner {
            let m = build_listing_source(&files[k]);
            let ghost before = r@.map_values(|m: MediaSourceInfo| m@);
            r.push(m);
            assert(r@.map_values(|m: MediaSourceInfo| m@) =~= before.push(m@));
        }
    }
    assert(files@.take(files@.len() as int) =~= files@);
    r
}

/// The id of a movie or episode whose id parses; `None` for other items.
pub open spec fn playable_id(item: ItemView) -> Option<u128> {
    if item.item_type == "Movie"@ || item.item_type == "Episode"@ {
        uuid_parse(item.id)
    } else {
        None
    }
}

/// Whether an earlier playable item has the same id (and took its sources).
pub open spec fn claimed_before(items: Seq<ItemView>, i: int, id: u128) -> bool {
    exists|j: int| 0 <= j < i && #[trigger] playable_id(items[j]) == Some(id)
}

/// Whether a source has a subtitle stream.
pub open spec fn has_subtitle_stream(s: MediaSourceView) -> bool {
    exists|k: int| 0 <= k < s.media_streams.len() && #[trigger] s.media_streams[k].stream_type == "Subtitle"@
}

/// A playable item with its sources; the first source (the largest file)
/// gives its container, path, video type, subtitle flag and, where the item
/// has none, its runtime.
pub open spec fn with_sources(item: ItemView, sources: Seq<MediaSourceView>) -> ItemView {
    if sources.len() == 0 {
        ItemView { media_sources: Some(sources), ..item }
    } else {
        let first = sources[0];
        ItemView {
            container: Some(first.container),
            video_type: Some("VideoFile"@),
            path: Some(first.path),
            run_time_ticks: or_else(item.run_time_ticks, first.run_time_ticks),
            has_subtitles: Some(has_subtitle_stream(first)),
            media_sources: Some(sources),
            ..item
        }
    }
}

/// The items with their media sources: every playable item gets the
/// sources of its files (none when an earlier item with the same id took
/// them); other items stay as they are.
pub open spec fn sourced_items(items: Seq<ItemView>, files: Seq<VideoFileRow>) -> Seq<ItemView> {
    Seq::new(
        items.len(),
        |i: int|
            match playable_id(items[i]) {
                Some(id) => with_sources(
                    items[i],
                    if claimed_before(items, i, id) {
                        Seq::empty()
                    } else {
                        owned_sources(files, id)
                    },
                ),
                None => items[i],
            },
    )
}

proof fn lemma_claimed_step(items: Seq<ItemView>, i: int, id: u128)
    requires
        0 <= i < items.len(),
    ensures
        claimed_before(items, i + 1, id) <==> (claimed_before(items, i, id) || playable_id(items[i]) == Some(id)),
{
    if claimed_before(items, i + 1, id) && playable_id(items[i]) != Some(id) {
        let j = choose|j: int| 0 <= j < i + 1 && #[trigger] playable_id(items[j]) == Some(id);
        assert(j < i);
        assert(claimed_before(items, i, id));
    }
    if claimed_before(items, i, id) {
        let j = choose|j: int| 0 <= j < i && #[trigger] playable_id(items[j]) == Some(id);
        assert(0 <= j < i + 1);
    }
    if playable_id(items[i]) == Some(id) {
        assert(0 <= i < i + 1);
    }
}

/// Giving items their media sources keeps the list (as many items, each
/// with its id, type and name), leaves items other than movies and
/// episodes with a parsable id as they are, and hands an id's files to one
/// item only: a later item with the same id gets no source.
pub proof fn law_media_sources_keep_items(items: Seq<ItemView>, files: Seq<VideoFileRow>)
    ensures
        sourced_items(items, files).len() == items.len(),
        forall|i: int|
            0 <= i < items.len() ==> {
                &&& (#[trigger] sourced_items(items, files)[i]).id == items[i].id
                &&& sourced_items(items, files)[i].item_type == items[i].item_type
                &&& sourced_items(items, files)[i].name == items[i].name
            },
        forall|i: int|
            0 <= i < items.len() && playable_id(items[i]) is None ==> #[trigger] sourced_items(items, files)[i]
                == items[i],
        forall|i: int, j: int|
            #![trigger sourced_items(items, files)[j], playable_id(items[i])]
            0 <= i < j < items.len() && playable_id(items[i]) is Some && playable_id(items[j])
                == playable_id(items[i]) ==> sourced_items(items, files)[j].media_sources == Some(
                Seq::<MediaSourceView>::empty(),
            ),
{
    let out = sourced_items(items, files);
    assert forall|i: int, j: int|
        #![trigger out[j], playable_id(items[i])]
        0 <= i < j < items.len() && playable_id(items[i]) is Some && playable_id(items[j])
            == playable_id(items[i]) implies out[j].media_sources == Some(Seq::<MediaSourceView>::empty()) by {
        let id = playable_id(items[i])->0;
        assert(claimed_before(items, j, id));
    }
}

fn any_subtitle(s: &MediaSourceInfo) -> (r: bool)
    ensures
        r == has_subtitle_stream(s@),
{
    let mut i: usize = 0;
    while i < s.media_streams.len()
        invariant
            i <= s.media_streams.len(),
            forall|k: int| 0 <= k < i ==> #[trigger] s@.media_streams[k].stream_type != "Subtitle"@,
        decreases s.media_streams.len() - i,
    {
        assert(s@.media_streams[i as int] == s.media_streams@[i as int]@);
        if str_is(&chars_of(s.media_streams[i].stream_type.as_str()), "Subtitle") {
            assert(s@.media_streams[i as int].stream_type == "Subtitle"@);
            return true;
        }
        i = i + 1;
    }
    false
}

/// Gives an item its sources.
fn attach_sources(item: &mut BaseItemDto, sources: Vec<MediaSourceInfo>)
    ensures
        final(item)@ == with_sources(old(item)@, sources@.map_values(|m: MediaSourceInfo| m@)),
{
    if sources.len() > 0 {
        let first = &sources[0];
        item.container = Some(first.container.clone());
        item.video_type = Some(owned("VideoFile"));
        item.path = Some(first.path.clone());
        if item.run_time_ticks.is_none() {
            item.run_time_ticks = first.run_time_ticks;
        }
        item.has_subtitles = Some(any_subtitle(first));
    }
    item.media_sources = Some(sources);
}

fn contains_id(ids: &Vec<u128>, id: u128) -> (r: bool)
    ensures
        r == ids@.contains(id),
{
    for k in 0..ids.len()
        invariant
            forall|j: int| 0 <= j < k ==> ids@[j] != id,
    {
        if ids[k] == id {
            return true;
        }
    }
    false
}

fn is_playable_type(kind: &String) -> (r: bool)
    ensures
        r == (kind@ == "Movie"@ || kind@ == "Episode"@),
{
    let v = chars_of(kind.as_str());
    str_is(&v, "Movie") || str_is(&v, "Episode")
}

/// Gives every listed movie and episode the sources of its files.
pub fn apply_media_sources(items: &mut Vec<BaseItemDto>, files: &Vec<VideoFileRow>)
    requires
        files_listable(files@),
    ensures
        items_view(final(items)@) == sourced_items(items_view(old(items)@), files@),
{
    let ghost before = items_view(items@);
    let ghost after = sourced_items(before, files@);
    let mut claimed: Vec<u128> = Vec::new();
    let mut i: usize = 0;
    while i < items.len()
        invariant
            i <= items.len(),
            items.len() == before.len(),
            before == items_view(old(items)@),
            after == sourced_items(before, files@),
            files_listable(files@),
            forall|id: u128| claimed@.contains(id) <==> claimed_before(before, i as int, id),
            forall|j: int| 0 <= j < i ==> #[trigger] items@[j]@ == after[j],
            forall|j: int| i <= j < items.len() ==> #[trigger] items@[j]@ == before[j],
        decreases items.len() - i,
    {
        let ghost cur = before[i as int];
        assert(items@[i as int]@ == cur);
        let playable = is_playable_type(&items[i].item_type);
        let parsed = if playable {
            parse_uuid(items[i].id.as_str())
        } else {
            None
        };
        assert(parsed == playable_id(cur));
        match parsed {
            Some(id) => {
                let taken = contains_id(&claimed, id);
                let sources = if taken {
                    let empty: Vec<MediaSourceInfo> = Vec::new();
                    assert(empty@.map_values(|m: MediaSourceInfo| m@) =~= Seq::<MediaSourceView>::empty());
                    empty
                } else {
                    collect_sources(files, id)
                };
                let ghost old_claimed = claimed@;
                if !taken {
                    claimed.push(id);
                }
                attach_sources(&mut items[i], sources);
                assert forall|u: u128| claimed@.contains(u) <==> claimed_before(before, i + 1, u) by {
                    lemma_claimed_step(before, i as int, u);
                    if !taken {
                        assert(claimed@ == old_claimed.push(id));
                        if u == id {
                            assert(claimed@[old_claimed.len() as int] == u);
                        }
                        if old_claimed.contains(u) {
                            let k = choose|k: int| 0 <= k < old_claimed.len() && old_claimed[k] == u;
                            assert(claimed@[k] == u);
                        }
                        if claimed@.contains(u) {
                            let k = choose|k: int| 0 <= k < claimed@.len() && claimed@[k] == u;
                            if k < old_claimed.len() {
                                assert(old_claimed[k] == u);
                            }
                        }
                    }
                }
            },
            None => {
                assert forall|u: u128| claimed@.contains(u) <==> claimed_before(before, i + 1, u) by {
                    lemma_claimed_step(before, i as int, u);
                }
            },
        }
        i = i + 1;
    }
    assert(items_view(items@) =~= after);
}


/// Whether a file belongs to the item `owner`.
pub open spec fn owned_by(owner: u128) -> spec_fn(VideoFileRow) -> bool {
    |f: VideoFileRow| file_owner(f) == owner
}

/// The sources an item gets are those of exactly the files that belong to
/// it (a movie's by its movie id, else an episode's by its episode id), one
/// per file and in the files' order.
pub proof fn law_owned_sources(files: Seq<VideoFileRow>, owner: u128)
    ensures
        owned_sources(files, owner).len() == files.filter(owned_by(owner)).len(),
        forall|k: int|
            0 <= k < owned_sources(files, owner).len() ==> #[trigger] owned_sources(files, owner)[k]
                == listing_source(files.filter(owned_by(owner))[k]),
        forall|k: int|
            0 <= k < owned_sources(files, owner).len() ==> (#[trigger] owned_sources(files, owner)[k]).id
                == uuid_text(files.filter(owned_by(owner))[k].id),
    decreases files.len(),
{
    if files.len() > 0 {
        law_owned_sources(files.drop_last(), owner);
        let sub = files.drop_last().filter(owned_by(owner));
        reveal(Seq::filter);
        assert(files.filter(owned_by(owner)) == if owned_by(owner)(files.last()) {
            sub.push(files.last())
        } else {
            sub
        });
    }
}

/// A movie or episode with files (and no earlier item with its id) takes
/// its path and container from its first, largest file, and lists all its
/// files' sources.
pub proof fn law_sourced_item_from_first_file(items: Seq<ItemView>, files: Seq<VideoFileRow>, i: int, id: u128)
    requires
        0 <= i < items.len(),
        playable_id(items[i]) == Some(id),
        !claimed_before(items, i, id),
        files.filter(owned_by(id)).len() > 0,
    ensures
        ({
            let first = files.filter(owned_by(id))[0];
            let out = sourced_items(items, files)[i];
            &&& out.path == Some(first.path@)
            &&& out.container == Some(container_of(first.filename@))
            &&& out.video_type == Some("VideoFile"@)
            &&& out.media_sources == Some(owned_sources(files, id))
        }),
{
    law_owned_sources(files, id);
    assert(owned_sources(files, id)[0] == listing_source(files.filter(owned_by(id))[0]));
}

} // verus!
