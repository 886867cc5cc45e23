//! Transport state machine: Stopped / Playing / Paused / Buffering / Error.
//!
//! The player records every state it has occupied in a ghost log whose
//! adjacent entries are always legal transitions, so "every published
//! StateChanged matches a legal transition" holds by construction.
//! Events pile up in an internal queue; the host drains them with
//! `take_events` and forwards them to its notification channel.
use vstd::prelude::*;
use crate::errors::AudioError;
use crate::format::AudioFormat;

verus! {

#[derive(Debug, Clone, Copy, PartialEq, Eq, Structural)]
pub enum PlayerState {
    Stopped,
    Playing,
    Paused,
    Buffering,
    Error,
}

/// Notifications the transport publishes. Positions are in milliseconds.
#[derive(Debug, Clone)]
pub enum PlayerEvent {
    StateChanged(PlayerState),
    TrackChanged(String),
    PositionChanged(u64),
    BufferUnderrun,
    Error(String),
}

/// The transition relation of the transport:
/// - loading a track or stopping reaches Stopped from anywhere (Stop also
///   clears the Error state);
/// - Play starts from Stopped or Paused, and Buffering returns to Playing
///   once the ring refills;
/// - Pause leaves Playing;
/// - a persistent underrun moves Playing to Buffering;
/// - a fatal error reaches Error from anywhere;
/// - staying in place is always legal.
pub open spec fn legal_transition(from: PlayerState, to: PlayerState) -> bool {
    ||| from == to
    ||| to == PlayerState::Stopped
    ||| to == PlayerState::Error
    ||| (from == PlayerState::Stopped && to == PlayerState::Playing)
    ||| (from == PlayerState::Paused && to == PlayerState::Playing)
    ||| (from == PlayerState::Buffering && to == PlayerState::Playing)
    ||| (from == PlayerState::Playing && to == PlayerState::Paused)
    ||| (from == PlayerState::Playing && to == PlayerState::Buffering)
}

pub struct Player {
    pub state: PlayerState,
    pub current_format: Option<AudioFormat>,
    pub position_ms: u64,
    pub events: Vec<PlayerEvent>,
    /// Every state this player has occupied, oldest first.
    pub state_log: Ghost<Seq<PlayerState>>,
}

impl Player {
    pub open spec fn wf(self) -> bool {
        &&& self.state_log@.len() >= 1
        &&& self.state_log@.last() == self.state
        &&& forall|i: int| 0 <= i < self.state_log@.len() - 1
            ==> legal_transition(#[trigger] self.state_log@[i], self.state_log@[i + 1])
    }

    pub fn new() -> (r: Self)
        ensures
            r.wf(),
            r.state == PlayerState::Stopped,
            r.current_format is None,
            r.position_ms == 0,
            r.events@ == Seq::<PlayerEvent>::empty(),
            r.state_log@ == seq![PlayerState::Stopped],
    {
        Self {
            state: PlayerState::Stopped,
            current_format: None,
            position_ms: 0,
            events: Vec::new(),
            state_log: Ghost(Seq::<PlayerState>::empty().push(PlayerState::Stopped)),
        }
    }

    pub fn state(&self) -> (r: PlayerState)
        ensures
            r == self.state,
    {
        self.state
    }

    /// Move to `new_state` and publish StateChanged, unless the state would
    /// not change, in which case nothing happens. Only legal transitions
    /// may be requested.
    pub fn set_state(&mut self, new_state: PlayerState)
        requires
            old(self).wf(),
            legal_transition(old(self).state, new_state),
        ensures
            final(self).wf(),
            final(self).state == new_state,
            final(self).current_format == old(self).current_format,
            final(self).position_ms == old(self).position_ms,
            old(self).state != new_state ==> {
                &&& final(self).events@ == old(self).events@.push(
                    PlayerEvent::StateChanged(new_state),
                )
                &&& final(self).state_log@ == old(self).state_log@.push(new_state)
            },
            old(self).state == new_state ==> {
                &&& final(self).events@ == old(self).events@
                &&& final(self).state_log@ == old(self).state_log@
            },
    {
        if self.state != new_state {
            self.state = new_state;
            proof {
                self.state_log@ = self.state_log@.push(new_state);
            }
            self.events.push(PlayerEvent::StateChanged(new_state));
        }
    }

    /// Hand the queued events to the host, oldest first, emptying the queue.
    pub fn take_events(&mut self) -> (r: Vec<PlayerEvent>)
        requires
            old(self).wf(),
        ensures
            final(self).wf(),
            r@ == old(self).events@,
            final(self).events@ == Seq::<PlayerEvent>::empty(),
            final(self).state == old(self).state,
            final(self).current_format == old(self).current_format,
            final(self).position_ms == old(self).position_ms,
            final(self).state_log == old(self).state_log,
    {
        let mut drained: Vec<PlayerEvent> = Vec::new();
        std::mem::swap(&mut drained, &mut self.events);
        drained
    }

    pub fn current_format(&self) -> (r: Option<AudioFormat>)
        ensures
            r == self.current_format,
    {
        self.current_format
    }

    pub fn set_format(&mut self, format: AudioFormat)
        requires
            old(self).wf(),
        ensures
            final(self).wf(),
            final(self).current_format == Some(format),
            final(self).state == old(self).state,
            final(self).position_ms == old(self).position_ms,
            final(self).events@ == old(self).events@,
            final(self).state_log == old(self).state_log,
    {
        self.current_format = Some(format);
    }

    pub fn position(&self) -> (r: u64)
        ensures
            r == self.position_ms,
    {
        self.position_ms
    }

    /// Move the position and publish PositionChanged.
    pub fn set_position(&mut self, pos_ms: u64)
        requires
            old(self).wf(),
        ensures
            final(self).wf(),
            final(self).position_ms == pos_ms,
            final(self).state == old(self).state,
            final(self).current_format == old(self).current_format,
            final(self).events@ == old(self).events@.push(PlayerEvent::PositionChanged(pos_ms)),
            final(self).state_log == old(self).state_log,
    {
        self.position_ms = pos_ms;
        self.events.push(PlayerEvent::PositionChanged(pos_ms));
    }

    /// Start playback. From Stopped or Paused the transport enters Playing;
    /// from Playing nothing changes. From Buffering the call succeeds and
    /// the transport stays put: Buffering returns to Playing once the ring
    /// reaches its target level, a judgement the engine makes with the ring
    /// in view. Only Error refuses, with InvalidState and nothing changed.
    pub fn play(&mut self) -> (r: Result<(), AudioError>)
        requires
            old(self).wf(),
        ensures
            final(self).wf(),
            final(self).current_format == old(self).current_format,
            final(self).position_ms == old(self).position_ms,
            r is Ok <==> old(self).state != PlayerState::Error,
            r is Err ==> r->Err_0 is InvalidState && *final(self) == *old(self),
            old(self).state == PlayerState::Stopped || old(self).state == PlayerState::Paused ==> {
                &&& final(self).state == PlayerState::Playing
                &&& final(self).events@ == old(self).events@.push(
                    PlayerEvent::StateChanged(PlayerState::Playing),
                )
            },
            old(self).state == PlayerState::Playing || old(self).state == PlayerState::Buffering
                ==> *final(self) == *old(self),
    {
        match self.state {
            PlayerState::Stopped | PlayerState::Paused => {
                self.set_state(PlayerState::Playing);
                Ok(())
            }
            PlayerState::Playing | PlayerState::Buffering => Ok(()),
            PlayerState::Error => Err(
                AudioError::InvalidState("Cannot play in current state".to_owned()),
            ),
        }
    }

    /// Pause playback. Succeeds exactly from Playing (entering Paused) or
    /// Paused (no effect); elsewhere refuses with InvalidState, publishing
    /// nothing.
    pub fn pause(&mut self) -> (r: Result<(), AudioError>)
        requires
            old(self).wf(),
        ensures
            final(self).wf(),
            final(self).current_format == old(self).current_format,
            final(self).position_ms == old(self).position_ms,
            r is Ok <==> old(self).state == PlayerState::Playing
                || old(self).state == PlayerState::Paused,
            r is Err ==> r->Err_0 is InvalidState && *final(self) == *old(self),
            old(self).state == PlayerState::Playing ==> {
                &&& final(self).state == PlayerState::Paused
                &&& final(self).events@ == old(self).events@.push(
                    PlayerEvent::StateChanged(PlayerState::Paused),
                )
            },
            old(self).state == PlayerState::Paused ==> *final(self) == *old(self),
    {
        match self.state {
            PlayerState::Playing => {
                self.set_state(PlayerState::Paused);
                Ok(())
            }
            PlayerState::Paused => Ok(()),
            _ => Err(AudioError::InvalidState("Cannot pause in current state".to_owned())),
        }
    }

    /// Stop playback: enter Stopped and rewind the position to zero,
    /// publishing StateChanged(Stopped) then PositionChanged(0). Stopping
    /// while already Stopped does nothing. Stop always succeeds; it also
    /// clears the Error state.
    pub fn stop(&mut self) -> (r: Result<(), AudioError>)
        requires
            old(self).wf(),
        ensures
            final(self).wf(),
            final(self).current_format == old(self).current_format,
            r is Ok,
            final(self).state == PlayerState::Stopped,
            old(self).state == PlayerState::Stopped ==> *final(self) == *old(self),
            old(self).state != PlayerState::Stopped ==> {
                &&& final(self).position_ms == 0
                &&& final(self).events@ == old(self).events@.push(
                    PlayerEvent::StateChanged(PlayerState::Stopped),
                ).push(PlayerEvent::PositionChanged(0))
            },
    {
        match self.state {
            PlayerState::Stopped => Ok(()),
            _ => {
                self.set_state(PlayerState::Stopped);
                self.set_position(0);
                Ok(())
            }
        }
    }

    /// Store a new position and publish PositionChanged. The decoder's own
    /// repositioning is the engine's task.
    pub fn seek(&mut self, pos_ms: u64) -> (r: Result<(), AudioError>)
        requires
            old(self).wf(),
        ensures
            final(self).wf(),
            r is Ok,
            final(self).position_ms == pos_ms,
            final(self).state == old(self).state,
            final(self).current_format == old(self).current_format,
            final(self).events@ == old(self).events@.push(PlayerEvent::PositionChanged(pos_ms)),
            final(self).state_log == old(self).state_log,
    {
        self.set_position(pos_ms);
        Ok(())
    }

    /// A fatal error: enter Error from anywhere, publishing Error(message)
    /// and then StateChanged(Error) when the state actually changes.
    pub fn report_error(&mut self, message: String)
        requires
            old(self).wf(),
        ensures
            final(self).wf(),
            final(self).state == PlayerState::Error,
            final(self).current_format == old(self).current_format,
            final(self).position_ms == old(self).position_ms,
            old(self).state != PlayerState::Error ==> final(self).events@ == old(self).events@.push(
                PlayerEvent::Error(message),
            ).push(PlayerEvent::StateChanged(PlayerState::Error)),
            old(self).state == PlayerState::Error ==> final(self).events@ == old(self).events@.push(
                PlayerEvent::Error(message),
            ),
    {
        self.events.push(PlayerEvent::Error(message));
        self.set_state(PlayerState::Error);
    }

    pub fn is_playing(&self) -> (r: bool)
        ensures
            r == (self.state == PlayerState::Playing),
    {
        matches!(self.state, PlayerState::Playing)
    }

    pub fn is_paused(&self) -> (r: bool)
        ensures
            r == (self.state == PlayerState::Paused),
    {
        matches!(self.state, PlayerState::Paused)
    }

    pub fn is_stopped(&self) -> (r: bool)
        ensures
            r == (self.state == PlayerState::Stopped),
    {
        matches!(self.state, PlayerState::Stopped)
    }
}

impl Default for Player {
    fn default() -> (r: Self)
        ensures
            r.wf(),
            r.state == PlayerState::Stopped,
            r.position_ms == 0,
            r.events@ == Seq::<PlayerEvent>::empty(),
    {
        Player::new()
    }
}

/// Law: the transport occupies exactly one state at a time (it is a single
/// enum value), and every state change it has ever made — each adjacent pair
/// in its log, which is exactly the sequence of published StateChanged
/// events — was a legal transition.
pub proof fn lemma_every_occupied_transition_legal(p: Player)
    requires
        p.wf(),
    ensures
        forall|i: int| 0 <= i < p.state_log@.len() - 1
            ==> legal_transition(#[trigger] p.state_log@[i], p.state_log@[i + 1]),
        p.state_log@.last() == p.state,
{
}

/// Law: the transition table of §4.10, spelled out: what each command may
/// and may not do.
pub proof fn lemma_transition_table()
    ensures
        forall|s: PlayerState| legal_transition(s, PlayerState::Stopped),
        forall|s: PlayerState| legal_transition(s, PlayerState::Error),
        forall|s: PlayerState| legal_transition(s, s),
        legal_transition(PlayerState::Stopped, PlayerState::Playing),
        legal_transition(PlayerState::Paused, PlayerState::Playing),
        legal_transition(PlayerState::Buffering, PlayerState::Playing),
        legal_transition(PlayerState::Playing, PlayerState::Paused),
        legal_transition(PlayerState::Playing, PlayerState::Buffering),
        !legal_transition(PlayerState::Stopped, PlayerState::Paused),
        !legal_transition(PlayerState::Stopped, PlayerState::Buffering),
        !legal_transition(PlayerState::Paused, PlayerState::Buffering),
        !legal_transition(PlayerState::Error, PlayerState::Playing),
        !legal_transition(PlayerState::Error, PlayerState::Paused),
        !legal_transition(PlayerState::Error, PlayerState::Buffering),
        !legal_transition(PlayerState::Buffering, PlayerState::Paused),
{
}

} // verus!
