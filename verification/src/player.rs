//! The controller-side player: it mirrors the transport state the user
//! sees, remembers the selected track, and decides which transport command
//! to send to the engine. The returned command, if any, is handed to the
//! command channel by the caller.

use vstd::prelude::*;

use crate::commands::AudioCommand;
use crate::commands::TrackState;
use crate::library::LibraryItem;
use crate::playlist::Playlist;

verus! {

/// The controller-side player state.
#[derive(Debug)]
pub struct Player {
    pub track_state: TrackState,
    pub selected_track: Option<LibraryItem>,
    /// Output gain in hundredths of full scale.
    pub volume: u32,
    /// The last seek target, in whole seconds.
    pub seek_in_seconds: u32,
}

impl Player {
    /// The player after a `play` request, and the command it sends: loading
    /// the selected track afresh, or resuming when paused. Without a
    /// selected track nothing happens.
    pub open spec fn spec_play(self) -> (Player, Option<AudioCommand>) {
        match self.selected_track {
            None => (self, None::<AudioCommand>),
            Some(t) => {
                if self.track_state is Paused {
                    (
                        Player { track_state: TrackState::Playing, ..self },
                        Some(AudioCommand::Play),
                    )
                } else {
                    (
                        Player { track_state: TrackState::Playing, ..self },
                        Some(AudioCommand::LoadFile(t.path)),
                    )
                }
            },
        }
    }

    /// The player after a `stop` request, and the command it sends: only a
    /// playing or paused player stops.
    pub open spec fn spec_stop(self) -> (Player, Option<AudioCommand>) {
        match self.track_state {
            TrackState::Playing => (
                Player { track_state: TrackState::Stopped, ..self },
                Some(AudioCommand::Stop),
            ),
            TrackState::Paused => (
                Player { track_state: TrackState::Stopped, ..self },
                Some(AudioCommand::Stop),
            ),
            _ => (self, None::<AudioCommand>),
        }
    }

    /// The player after a `pause` request, and the command it sends: a
    /// playing player pauses, a paused one resumes, anything else ignores
    /// the request.
    pub open spec fn spec_pause(self) -> (Player, Option<AudioCommand>) {
        match self.track_state {
            TrackState::Playing => (
                Player { track_state: TrackState::Paused, ..self },
                Some(AudioCommand::Pause),
            ),
            TrackState::Paused => (
                Player { track_state: TrackState::Playing, ..self },
                Some(AudioCommand::Play),
            ),
            _ => (self, None::<AudioCommand>),
        }
    }

    /// A fresh player: unstarted, nothing selected, unity gain.
    pub fn new() -> (r: Player)
        ensures
            r == (Player {
                track_state: TrackState::Unstarted,
                selected_track: None,
                volume: 100,
                seek_in_seconds: 0,
            }),
    {
        Player {
            track_state: TrackState::Unstarted,
            selected_track: None,
            volume: 100,
            seek_in_seconds: 0,
        }
    }

    /// Whether the player is stopped.
    pub fn is_stopped(&self) -> (r: bool)
        ensures
            r == (self.track_state is Stopped),
    {
        match self.track_state {
            TrackState::Stopped => true,
            _ => false,
        }
    }

    /// Select the track the next `play` will load.
    pub fn select_track(&mut self, track: Option<LibraryItem>)
        ensures
            *final(self) == (Player { selected_track: track, ..*old(self) }),
    {
        self.selected_track = track;
    }

    /// Remember the seek target and return the seek command to send.
    pub fn seek_to(&mut self, seconds: u32) -> (cmd: AudioCommand)
        ensures
            *final(self) == (Player { seek_in_seconds: seconds, ..*old(self) }),
            cmd == AudioCommand::Seek(seconds as u64),
    {
        self.seek_in_seconds = seconds;
        AudioCommand::Seek(seconds as u64)
    }

    /// Stop playback: meaningful only while playing or paused.
    pub fn stop(&mut self) -> (cmd: Option<AudioCommand>)
        ensures
            *final(self) == old(self).spec_stop().0,
            cmd == old(self).spec_stop().1,
    {
        match self.track_state {
            TrackState::Playing => {
                self.track_state = TrackState::Stopped;
                Some(AudioCommand::Stop)
            },
            TrackState::Paused => {
                self.track_state = TrackState::Stopped;
                Some(AudioCommand::Stop)
            },
            _ => None,
        }
    }

    /// Start or resume playback of the selected track: paused playback
    /// resumes in place, anything else loads the track afresh.
    pub fn play(&mut self) -> (cmd: Option<AudioCommand>)
        ensures
            *final(self) == old(self).spec_play().0,
            cmd == old(self).spec_play().1,
    {
        let path = match &self.selected_track {
            None => {
                return None;
            },
            Some(t) => t.path.clone(),
        };
        match self.track_state {
            TrackState::Paused => {
                self.track_state = TrackState::Playing;
                Some(AudioCommand::Play)
            },
            _ => {
                self.track_state = TrackState::Playing;
                Some(AudioCommand::LoadFile(path))
            },
        }
    }

    /// Pause playing audio, or resume paused audio.
    pub fn pause(&mut self) -> (cmd: Option<AudioCommand>)
        ensures
            *final(self) == old(self).spec_pause().0,
            cmd == old(self).spec_pause().1,
    {
        match self.track_state {
            TrackState::Playing => {
                self.track_state = TrackState::Paused;
                Some(AudioCommand::Pause)
            },
            TrackState::Paused => {
                self.track_state = TrackState::Playing;
                Some(AudioCommand::Play)
            },
            _ => None,
        }
    }

    /// Step to the previous playlist entry, when the selected track is in
    /// the playlist and not its first entry, and play it.
    pub fn previous(&mut self, playlist: &Playlist) -> (cmd: Option<AudioCommand>)
        ensures
            ({
                match old(self).selected_track {
                    None => *final(self) == *old(self) && cmd is None,
                    Some(t) => (match Playlist::spec_pos(playlist.tracks@, t) {
                        Some(p) => {
                            if p > 0 {
                                let stepped = (Player {
                                    selected_track: Some(playlist.tracks@[p - 1]),
                                    ..*old(self)
                                });
                                *final(self) == stepped.spec_play().0 && cmd
                                    == stepped.spec_play().1
                            } else {
                                *final(self) == *old(self) && cmd is None
                            }
                        },
                        None => *final(self) == *old(self) && cmd is None,
                    }),
                }
            }),
    {
        proof {
            assert(playlist.tracks@.len() == playlist.tracks.len());
            match &self.selected_track {
                Some(t) => crate::playlist::lemma_pos_bounds(playlist.tracks@, *t),
                None => {},
            }
        }
        let pos = match &self.selected_track {
            Some(t) => playlist.get_pos(t),
            None => None,
        };
        match pos {
            Some(p) => {
                if p > 0 {
                    let prev = playlist.tracks[p - 1].clone();
                    self.selected_track = Some(prev);
                    self.play()
                } else {
                    None
                }
            },
            None => None,
        }
    }

    /// Step to the next playlist entry, when the selected track is in the
    /// playlist and not its last entry, and play it.
    pub fn next(&mut self, playlist: &Playlist) -> (cmd: Option<AudioCommand>)
        ensures
            ({
                match old(self).selected_track {
                    None => *final(self) == *old(self) && cmd is None,
                    Some(t) => (match Playlist::spec_pos(playlist.tracks@, t) {
                        Some(p) => {
                            if p + 1 < playlist.tracks@.len() {
                                let stepped = (Player {
                                    selected_track: Some(playlist.tracks@[p + 1]),
                                    ..*old(self)
                                });
                                *final(self) == stepped.spec_play().0 && cmd
                                    == stepped.spec_play().1
                            } else {
                                *final(self) == *old(self) && cmd is None
                            }
                        },
                        None => *final(self) == *old(self) && cmd is None,
                    }),
                }
            }),
    {
        proof {
            assert(playlist.tracks@.len() == playlist.tracks.len());
            match &self.selected_track {
                Some(t) => crate::playlist::lemma_pos_bounds(playlist.tracks@, *t),
                None => {},
            }
        }
        let pos = match &self.selected_track {
            Some(t) => playlist.get_pos(t),
            None => None,
        };
        match pos {
            Some(p) => {
                if p + 1 < playlist.tracks.len() {
                    let next_track = playlist.tracks[p + 1].clone();
                    self.selected_track = Some(next_track);
                    self.play()
                } else {
                    None
                }
            },
            None => None,
        }
    }

    /// Set the output gain, in hundredths of full scale.
    pub fn set_volume(&mut self, volume: u32)
        ensures
            *final(self) == (Player { volume, ..*old(self) }),
    {
        self.volume = volume;
    }

    /// Record the seek target without sending a command.
    pub fn set_seek_in_seconds(&mut self, seek_in_seconds: u32)
        ensures
            *final(self) == (Player { seek_in_seconds, ..*old(self) }),
    {
        self.seek_in_seconds = seek_in_seconds;
    }
}

} // verus!
