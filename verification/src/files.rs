//! Which directory entries the player lists, and the track records built
//! from a raw directory listing.
//!
//! The directory scan itself happens outside the library; it hands over
//! the entries as plain path strings, in the order the listing yielded
//! them. A track's `id` is the entry's position in that raw listing, taken
//! before any entry is filtered out.

use crate::paths::{extension_of, path_extension, path_file_stem, stem_of};
use vstd::prelude::*;

verus! {

/// The path's extension equals `ext`.
pub open spec fn has_extension(p: Seq<char>, ext: Seq<char>) -> bool {
    extension_of(p) == Some(ext)
}

/// An entry the desktop track list keeps: extension `mp3` or `ogg`.
pub open spec fn is_music_path(p: Seq<char>) -> bool {
    has_extension(p, "mp3"@) || has_extension(p, "ogg"@)
}

/// An entry the bridge listing keeps: extension `mp4` or `ogg`.
pub open spec fn is_bridge_music_path(p: Seq<char>) -> bool {
    has_extension(p, "mp4"@) || has_extension(p, "ogg"@)
}

/// Whether the path's extension equals `ext`.
pub fn path_has_extension(path: &str, ext: &String) -> (r: bool)
    ensures
        r == has_extension(path@, ext@),
{
    match path_extension(path) {
        Some(e) => e == *ext,
        None => false,
    }
}

/// Whether the desktop track list keeps this entry.
pub fn is_music_file(path: &str) -> (r: bool)
    ensures
        r == is_music_path(path@),
{
    let mp3 = String::from_str("mp3");
    let ogg = String::from_str("ogg");
    path_has_extension(path, &mp3) || path_has_extension(path, &ogg)
}

/// Whether the bridge listing keeps this entry.
pub fn is_bridge_music_file(path: &str) -> (r: bool)
    ensures
        r == is_bridge_music_path(path@),
{
    let mp4 = String::from_str("mp4");
    let ogg = String::from_str("ogg");
    path_has_extension(path, &mp4) || path_has_extension(path, &ogg)
}

/// The entries of a raw listing that the desktop track list keeps, in
/// order.
pub open spec fn music_paths(entries: Seq<Seq<char>>) -> Seq<Seq<char>>
    decreases entries.len(),
{
    if entries.len() == 0 {
        Seq::empty()
    } else if is_music_path(entries.last()) {
        music_paths(entries.drop_last()).push(entries.last())
    } else {
        music_paths(entries.drop_last())
    }
}

/// The entries of a raw listing that the bridge listing keeps, in order.
pub open spec fn bridge_music_paths_of(entries: Seq<Seq<char>>) -> Seq<Seq<char>>
    decreases entries.len(),
{
    if entries.len() == 0 {
        Seq::empty()
    } else if is_bridge_music_path(entries.last()) {
        bridge_music_paths_of(entries.drop_last()).push(entries.last())
    } else {
        bridge_music_paths_of(entries.drop_last())
    }
}

/// Keeps the entries whose extension is `mp3` or `ogg`: the track list of
/// the desktop player.
pub fn music_list_paths(entries: &Vec<String>) -> (r: Vec<String>)
    ensures
        r.deep_view() == music_paths(entries.deep_view()),
{
    let n = entries.len();
    let mut r: Vec<String> = Vec::new();
    let mut i: usize = 0;
    while i < n
        invariant
            n == entries@.len(),
            0 <= i <= n,
            r.deep_view() == music_paths(entries.deep_view().take(i as int)),
        decreases n - i,
    {
        let ghost prefix = entries.deep_view().take(i as int);
        let ghost old_r = r.deep_view();
        if is_music_file(entries[i].as_str()) {
            r.push(entries[i].clone());
            proof {
                assert(r.deep_view() =~= old_r.push(entries.deep_view()[i as int]));
            }
        }
        i = i + 1;
        proof {
            assert(entries.deep_view().take(i as int).drop_last() =~= prefix);
        }
    }
    proof {
        assert(entries.deep_view().take(n as int) =~= entries.deep_view());
    }
    r
}

/// Keeps the entries whose extension is `mp4` or `ogg`: the listing the
/// bridge hands to the mobile front-end.
pub fn bridge_music_paths(entries: &Vec<String>) -> (r: Vec<String>)
    ensures
        r.deep_view() == bridge_music_paths_of(entries.deep_view()),
{
    let n = entries.len();
    let mut r: Vec<String> = Vec::new();
    let mut i: usize = 0;
    while i < n
        invariant
            n == entries@.len(),
            0 <= i <= n,
            r.deep_view() == bridge_music_paths_of(entries.deep_view().take(i as int)),
        decreases n - i,
    {
        let ghost prefix = entries.deep_view().take(i as int);
        let ghost old_r = r.deep_view();
        if is_bridge_music_file(entries[i].as_str()) {
            r.push(entries[i].clone());
            proof {
                assert(r.deep_view() =~= old_r.push(entries.deep_view()[i as int]));
            }
        }
        i = i + 1;
        proof {
            assert(entries.deep_view().take(i as int).drop_last() =~= prefix);
        }
    }
    proof {
        assert(entries.deep_view().take(n as int) =~= entries.deep_view());
    }
    r
}

/// One entry of the track list the bridge's file scan builds.
pub struct Track {
    pub name: String,
    pub path: String,
    pub id: Option<usize>,
}

/// The mathematical content of a [`Track`].
pub struct TrackModel {
    pub name: Seq<char>,
    pub path: Seq<char>,
    pub id: Option<usize>,
}

impl View for Track {
    type V = TrackModel;

    open spec fn view(&self) -> TrackModel {
        TrackModel { name: self.name@, path: self.path@, id: self.id }
    }
}

impl DeepView for Track {
    type V = TrackModel;

    open spec fn deep_view(&self) -> TrackModel {
        self.view()
    }
}

/// A raw listing entry becomes a track when it is a music path whose stem
/// exists; its id is the entry's position in the raw listing.
pub open spec fn entry_keeps_track(p: Seq<char>) -> bool {
    is_music_path(p) && stem_of(p) is Some
}

/// The track built from the raw listing entry at position `i`.
pub open spec fn track_at(p: Seq<char>, i: usize) -> TrackModel {
    TrackModel { name: stem_of(p)->Some_0, path: p, id: Some(i) }
}

/// The tracks a raw listing yields, in order.
pub open spec fn tracks_of(entries: Seq<Seq<char>>) -> Seq<TrackModel>
    decreases entries.len(),
{
    if entries.len() == 0 {
        Seq::empty()
    } else if entry_keeps_track(entries.last()) {
        tracks_of(entries.drop_last()).push(track_at(entries.last(), (entries.len() - 1) as usize))
    } else {
        tracks_of(entries.drop_last())
    }
}

/// Builds the track records of a raw directory listing: one per entry
/// whose extension is `mp3` or `ogg` and whose stem exists, named by the
/// stem, carrying the full path and the entry's position in the listing.
pub fn music_tracks(entries: &Vec<String>) -> (r: Vec<Track>)
    ensures
        r.deep_view() == tracks_of(entries.deep_view()),
{
    let n = entries.len();
    let mut r: Vec<Track> = Vec::new();
    let mut i: usize = 0;
    while i < n
        invariant
            n == entries@.len(),
            0 <= i <= n,
            r.deep_view() == tracks_of(entries.deep_view().take(i as int)),
        decreases n - i,
    {
        let ghost prefix = entries.deep_view().take(i as int);
        let ghost old_r = r.deep_view();
        if is_music_file(entries[i].as_str()) {
            match path_file_stem(entries[i].as_str()) {
                Some(stem) => {
                    let track = Track { name: stem, path: entries[i].clone(), id: Some(i) };
                    proof {
                        assert(track@ == track_at(entries.deep_view()[i as int], i));
                    }
                    r.push(track);
                    proof {
                        assert(r.deep_view() =~= old_r.push(
                            track_at(entries.deep_view()[i as int], i),
                        ));
                    }
                },
                None => {},
            }
        }
        i = i + 1;
        proof {
            assert(entries.deep_view().take(i as int).drop_last() =~= prefix);
        }
    }
    proof {
        assert(entries.deep_view().take(n as int) =~= entries.deep_view());
    }
    r
}

} // verus!
