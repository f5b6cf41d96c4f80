//! The playback state machine and the player model behind the front end.
//!
//! The library decides every transition; the audio engine itself is
//! driven outside it. A method that needs an engine call returns an
//! [`AudioCommand`] naming that call, and the outcomes the engine reports
//! (whether a sound loaded, its duration, whether a seek was accepted,
//! the current position) are handed back in as plain values.
//!
//! Volume is in hundredths of full scale (0 to 100); positions and
//! durations are in milliseconds.

use crate::search::matches_query;
use crate::search::path_matches_query;
use vstd::prelude::*;

verus! {

/// The volume a fresh player starts with: half of full scale.
pub const DEFAULT_VOLUME: u64 = 50;

/// The playback state of the one active track. `has_handle` says whether
/// a loaded sound is held by the engine on the library's behalf.
pub struct CurrentTrack {
    pub index: Option<usize>,
    pub is_playing: bool,
    pub volume: u64,
    pub duration_millis: u64,
    pub has_handle: bool,
}

/// One call the player asks the audio engine to make.
pub enum AudioCommand {
    /// Load the file at `path` and play it, stopping the held sound
    /// first when `stop_current` says so.
    LoadAndPlay { index: usize, path: String, stop_current: bool },
    /// Pause the held sound.
    Pause,
    /// Resume the held sound.
    Resume,
    /// Set the held sound's volume.
    SetVolume { volume: u64 },
    /// Move the held sound to the given position.
    SeekTo { position_millis: u64 },
}

/// How a request to play a track starts.
pub enum PlayBegin {
    /// The state claims to be playing but holds no sound: the request is
    /// dropped.
    Abort,
    /// A playing sound is held: it is stopped before the new one loads.
    StopCurrent,
    /// Nothing is playing: the new sound loads at once.
    Fresh,
}

/// What toggling playback does to the state, and the engine call it asks
/// for.
pub open spec fn toggle_transition(t: CurrentTrack) -> (CurrentTrack, Option<AudioCommand>) {
    if !t.has_handle {
        (t, None)
    } else if t.is_playing {
        (CurrentTrack { is_playing: false, ..t }, Some(AudioCommand::Pause))
    } else {
        (CurrentTrack { is_playing: true, ..t }, Some(AudioCommand::Resume))
    }
}

/// What a volume change does to the state, and the engine call it asks
/// for.
pub open spec fn set_volume_transition(t: CurrentTrack, volume: u64) -> (
    CurrentTrack,
    Option<AudioCommand>,
) {
    if !t.has_handle {
        (t, None)
    } else {
        (CurrentTrack { volume: volume, ..t }, Some(AudioCommand::SetVolume { volume }))
    }
}

/// How a play request starts, and the state it leaves meanwhile.
pub open spec fn begin_play_transition(t: CurrentTrack) -> (CurrentTrack, PlayBegin) {
    if t.is_playing && !t.has_handle {
        (t, PlayBegin::Abort)
    } else if t.is_playing {
        (CurrentTrack { is_playing: false, ..t }, PlayBegin::StopCurrent)
    } else {
        (t, PlayBegin::Fresh)
    }
}

/// The state after a chosen track finished loading, given what the
/// engine reported: whether a sound is now held, and its duration.
pub open spec fn finish_play_state(
    t: CurrentTrack,
    index: usize,
    got_handle: bool,
    duration_millis: u64,
) -> CurrentTrack {
    CurrentTrack {
        index: Some(index),
        is_playing: true,
        volume: t.volume,
        duration_millis: duration_millis,
        has_handle: got_handle,
    }
}

impl CurrentTrack {
    /// The state is well formed: the volume stays on the slider's scale.
    pub open spec fn wf(self) -> bool {
        self.volume <= 100
    }

    /// Pauses a playing track and resumes a paused one; without a held
    /// sound nothing changes and no call is asked for.
    pub fn toggle(&mut self) -> (cmd: Option<AudioCommand>)
        ensures
            (*final(self), cmd) == toggle_transition(*old(self)),
    {
        if !self.has_handle {
            return None;
        }
        if self.is_playing {
            self.is_playing = false;
            Some(AudioCommand::Pause)
        } else {
            self.is_playing = true;
            Some(AudioCommand::Resume)
        }
    }

    /// Records the chosen volume and asks the engine to match it;
    /// without a held sound nothing changes and no call is asked for.
    pub fn set_volume(&mut self, volume: u64) -> (cmd: Option<AudioCommand>)
        requires
            volume <= 100,
        ensures
            (*final(self), cmd) == set_volume_transition(*old(self), volume),
    {
        if !self.has_handle {
            return None;
        }
        self.volume = volume;
        Some(AudioCommand::SetVolume { volume })
    }

    /// Starts a play request: a playing sound is stopped first, and a
    /// playing state without a sound drops the request.
    pub fn begin_play(&mut self) -> (r: PlayBegin)
        ensures
            (*final(self), r) == begin_play_transition(*old(self)),
    {
        if self.is_playing && !self.has_handle {
            return PlayBegin::Abort;
        }
        if self.is_playing {
            self.is_playing = false;
            PlayBegin::StopCurrent
        } else {
            PlayBegin::Fresh
        }
    }

    /// Completes a play request with what the engine reported: the track
    /// index is recorded, playback is on, and the duration and the held
    /// sound are whatever the load yielded.
    pub fn finish_play(&mut self, index: usize, got_handle: bool, duration_millis: u64)
        ensures
            *final(self) == finish_play_state(*old(self), index, got_handle, duration_millis),
    {
        self.index = Some(index);
        self.is_playing = true;
        self.duration_millis = duration_millis;
        self.has_handle = got_handle;
    }

    /// The engine call a seek request asks for: only a held sound can
    /// seek.
    pub fn seek_request(&self, position_millis: u64) -> (cmd: Option<AudioCommand>)
        ensures
            cmd == if self.has_handle {
                Some(AudioCommand::SeekTo { position_millis })
            } else {
                Option::<AudioCommand>::None
            },
    {
        if self.has_handle {
            Some(AudioCommand::SeekTo { position_millis })
        } else {
            None
        }
    }
}

impl Default for CurrentTrack {
    /// The initial state: no track chosen, paused, half volume, nothing
    /// held.
    fn default() -> (r: Self)
        ensures
            r == (CurrentTrack {
                index: None,
                is_playing: false,
                volume: DEFAULT_VOLUME as u64,
                duration_millis: 0,
                has_handle: false,
            }),
            r.wf(),
    {
        CurrentTrack {
            index: None,
            is_playing: false,
            volume: DEFAULT_VOLUME,
            duration_millis: 0,
            has_handle: false,
        }
    }
}

/// Moves the shown position where the engine accepted a seek, and leaves
/// it where the engine refused.
pub fn seek_commit(current_position: &mut u64, position_millis: u64, accepted: bool)
    ensures
        accepted ==> *final(current_position) == position_millis,
        !accepted ==> *final(current_position) == *old(current_position),
{
    if accepted {
        *current_position = position_millis;
    }
}

/// One user event of the player's front end. `UpdatePosition` carries
/// the engine's reading of the held sound's position, or nothing when no
/// sound is held.
pub enum Message {
    TogglePlay,
    PlayTrack(usize),
    ChangeVolume(u64),
    ChangePosition(u64),
    UpdatePosition(Option<u64>),
    SearchMusic(String),
}

/// The player model behind the front end: the scanned track list, the
/// playback state, the shown position, and the search query.
pub struct Player {
    pub music_list: Vec<String>,
    pub current_track: CurrentTrack,
    pub position_millis: u64,
    pub search_query: String,
}

/// The positions of the track list entries a search query keeps, in
/// order.
pub open spec fn visible_indices(paths: Seq<Seq<char>>, query: Seq<char>) -> Seq<usize>
    decreases paths.len(),
{
    if paths.len() == 0 {
        Seq::empty()
    } else if matches_query(paths.last(), query) {
        visible_indices(paths.drop_last(), query).push((paths.len() - 1) as usize)
    } else {
        visible_indices(paths.drop_last(), query)
    }
}

impl Player {
    /// The player is well formed: its playback state is.
    pub open spec fn wf(self) -> bool {
        self.current_track.wf()
    }

    /// A fresh player over a scanned track list.
    pub fn new(music_list: Vec<String>) -> (r: Player)
        ensures
            r.music_list == music_list,
            r.current_track == (CurrentTrack {
                index: None,
                is_playing: false,
                volume: DEFAULT_VOLUME as u64,
                duration_millis: 0,
                has_handle: false,
            }),
            r.position_millis == 0,
            r.search_query@ == Seq::<char>::empty(),
            r.wf(),
    {
        Player {
            music_list,
            current_track: CurrentTrack::default(),
            position_millis: 0,
            search_query: String::new(),
        }
    }

    /// One step of the event loop: the state changes as the message
    /// asks, and the result names the one engine call to make, if any.
    /// A play request also hands out the chosen file's path.
    pub fn update(&mut self, message: Message) -> (cmd: Option<AudioCommand>)
        requires
            old(self).wf(),
            message matches Message::PlayTrack(index) ==> index < old(self).music_list@.len(),
            message matches Message::ChangeVolume(v) ==> v <= 100,
        ensures
            final(self).wf(),
            final(self).music_list == old(self).music_list,
            message == Message::TogglePlay ==> {
                &&& *final(self) == (Player {
                    current_track: toggle_transition(old(self).current_track).0,
                    ..*old(self)
                })
                &&& cmd == toggle_transition(old(self).current_track).1
            },
            message matches Message::PlayTrack(index) ==> {
                &&& *final(self) == (Player {
                    current_track: begin_play_transition(old(self).current_track).0,
                    ..*old(self)
                })
                &&& (begin_play_transition(old(self).current_track).1 is Abort ==> cmd is None)
                &&& (!(begin_play_transition(old(self).current_track).1 is Abort) ==> {
                    cmd matches Some(AudioCommand::LoadAndPlay { index: i, path, stop_current })
                        && i == index && path@ == old(self).music_list@[index as int]@
                        && stop_current == (begin_play_transition(old(self).current_track).1
                        is StopCurrent)
                })
            },
            message matches Message::ChangeVolume(volume) ==> {
                &&& *final(self) == (Player {
                    current_track: set_volume_transition(old(self).current_track, volume).0,
                    ..*old(self)
                })
                &&& cmd == set_volume_transition(old(self).current_track, volume).1
            },
            message matches Message::ChangePosition(position_millis) ==> {
                &&& *final(self) == *old(self)
                &&& cmd == if old(self).current_track.has_handle {
                    Some(AudioCommand::SeekTo { position_millis })
                } else {
                    Option::<AudioCommand>::None
                }
            },
            message matches Message::UpdatePosition(reading) ==> {
                &&& *final(self) == (Player {
                    position_millis: (match reading {
                        Some(p) => p,
                        None => 0,
                    }),
                    ..*old(self)
                })
                &&& cmd is None
            },
            message matches Message::SearchMusic(query) ==> {
                &&& *final(self) == (Player { search_query: query, ..*old(self) })
                &&& cmd is None
            },
    {
        match message {
            Message::TogglePlay => self.current_track.toggle(),
            Message::PlayTrack(index) => {
                match self.current_track.begin_play() {
                    PlayBegin::Abort => None,
                    PlayBegin::StopCurrent => Some(AudioCommand::LoadAndPlay {
                        index,
                        path: self.music_list[index].clone(),
                        stop_current: true,
                    }),
                    PlayBegin::Fresh => Some(AudioCommand::LoadAndPlay {
                        index,
                        path: self.music_list[index].clone(),
                        stop_current: false,
                    }),
                }
            },
            Message::ChangeVolume(volume) => self.current_track.set_volume(volume),
            Message::ChangePosition(position_millis) => self.current_track.seek_request(
                position_millis,
            ),
            Message::UpdatePosition(reading) => {
                self.position_millis = match reading {
                    Some(p) => p,
                    None => 0,
                };
                None
            },
            Message::SearchMusic(query) => {
                self.search_query = query;
                None
            },
        }
    }

    /// Completes a play request with what the engine reported.
    pub fn finish_play(&mut self, index: usize, got_handle: bool, duration_millis: u64)
        ensures
            *final(self) == (Player {
                current_track: finish_play_state(
                    old(self).current_track,
                    index,
                    got_handle,
                    duration_millis,
                ),
                ..*old(self)
            }),
    {
        self.current_track.finish_play(index, got_handle, duration_millis);
    }

    /// Applies the engine's answer to a seek request: the shown position
    /// moves only when the seek was accepted.
    pub fn confirm_seek(&mut self, position_millis: u64, accepted: bool)
        ensures
            accepted ==> *final(self) == (Player { position_millis, ..*old(self) }),
            !accepted ==> *final(self) == *old(self),
    {
        seek_commit(&mut self.position_millis, position_millis, accepted);
    }

    /// The track list positions the search query keeps: those whose path
    /// holds the query, comparing case-insensitively.
    pub fn visible_tracks(&self) -> (r: Vec<usize>)
        ensures
            r@ == visible_indices(self.music_list.deep_view(), self.search_query@),
    {
        let n = self.music_list.len();
        let mut r: Vec<usize> = Vec::new();
        let mut i: usize = 0;
        while i < n
            invariant
                n == self.music_list@.len(),
                0 <= i <= n,
                r@ == visible_indices(
                    self.music_list.deep_view().take(i as int),
                    self.search_query@,
                ),
            decreases n - i,
        {
            let ghost prefix = self.music_list.deep_view().take(i as int);
            if path_matches_query(self.music_list[i].as_str(), self.search_query.as_str()) {
                r.push(i);
            }
            i = i + 1;
            proof {
                assert(self.music_list.deep_view().take(i as int).drop_last() =~= prefix);
            }
        }
        proof {
            assert(self.music_list.deep_view().take(n as int) =~= self.music_list.deep_view());
        }
        r
    }

    /// The label of the play button: pause bars while a track plays, a
    /// play arrow otherwise.
    pub fn play_button_label(&self) -> (r: &'static str)
        ensures
            self.current_track.is_playing ==> r@ == "||"@,
            !self.current_track.is_playing ==> r@ == "|>"@,
    {
        if self.current_track.is_playing {
            "||"
        } else {
            "|>"
        }
    }

    /// Whether the front end should keep polling the engine for the
    /// position: only while a track is playing.
    pub fn polls_position(&self) -> (r: bool)
        ensures
            r == self.current_track.is_playing,
    {
        self.current_track.is_playing
    }
}

} // verus!
