//! The replayer: the driver that plays a recorded round back to a
//! simulation, tick by tick, without any network.

use crate::action::{
    joyflags_register, link_cable_actions, skip_call, spec_joyflags_register,
    spec_link_cable_actions, spec_skip_call, Action, Trap, TrapInput,
};
use crate::lockstep::{InputPair, Packet};
use crate::round::{BattleResult, RoundPhase, Snapshot, SyncError};
use vstd::prelude::*;

verus! {

/// What a [`ReplayerState`] holds.
pub struct ReplayerView {
    pub local_player_index: u8,
    /// The recorded pairs that are still to be played, in order.
    pub input_pairs: Seq<InputPair>,
    pub current_tick: u32,
    pub commit_tick: u32,
    pub dirty_tick: u32,
    pub committed_state: Option<Snapshot>,
    pub dirty_state: Option<Snapshot>,
    pub last_result: BattleResult,
    pub phase: RoundPhase,
    pub local_packet: Option<Packet>,
    pub disable_bgm: bool,
    pub error: Option<SyncError>,
}

/// What happens to a replayer from outside: the simulation stops at a trap,
/// or a snapshot that the replayer asked for is handed in.
#[derive(Debug, PartialEq, Eq)]
pub enum ReplayerEvent {
    Trap { trap: Trap, input: TrapInput },
    CommittedStateSaved { state: Snapshot },
    DirtyStateSaved { state: Snapshot },
}

impl ReplayerView {
    /// The index of the remote player.
    pub open spec fn remote_player_index(self) -> u8 {
        (1 - self.local_player_index) as u8
    }

    /// The invariant of the replayer.
    pub open spec fn wf(self) -> bool {
        self.local_player_index <= 1
    }

    /// Whether the round is concluding or has concluded.
    pub open spec fn is_round_ending(self) -> bool {
        self.phase == RoundPhase::Ending || self.phase == RoundPhase::Ended
    }

    /// The replayer with `error` recorded.
    pub open spec fn failed(self, error: SyncError) -> ReplayerView {
        ReplayerView { error: Some(error), ..self }
    }

    /// The replayer with whatever `found` holds recorded.
    pub open spec fn noting(self, found: Option<SyncError>) -> ReplayerView {
        match found {
            Some(e) => self.failed(e),
            None => self,
        }
    }

    /// What is wrong with `pair` as the pair of the current tick.
    pub open spec fn pair_error(self, pair: InputPair) -> Option<SyncError> {
        if pair.local.local_tick != pair.remote.local_tick {
            Some(
                SyncError::TickMismatch {
                    current_tick: self.current_tick,
                    local_tick: pair.local.local_tick,
                    remote_tick: pair.remote.local_tick,
                },
            )
        } else if pair.local.local_tick != self.current_tick {
            Some(
                SyncError::InputTickMismatch {
                    input_tick: pair.local.local_tick,
                    current_tick: self.current_tick,
                },
            )
        } else {
            None
        }
    }

    /// What is wrong with the packet kept last as the local packet of the
    /// current tick.
    pub open spec fn packet_error(self) -> Option<SyncError> {
        match self.local_packet {
            None => Some(SyncError::MissingPacket { current_tick: self.current_tick }),
            Some(packet) => if packet.tick != self.current_tick {
                Some(
                    SyncError::PacketTickMismatch {
                        packet_tick: packet.tick,
                        current_tick: self.current_tick,
                    },
                )
            } else {
                None
            },
        }
    }

    /// What is wrong when the game reads the buttons: the recording has run
    /// out while the round is running, or its next pair is not that of the
    /// current tick.
    pub open spec fn read_error(self) -> Option<SyncError> {
        if self.input_pairs.len() == 0 {
            if self.is_round_ending() {
                None
            } else {
                Some(SyncError::InputExhausted { current_tick: self.current_tick })
            }
        } else {
            self.pair_error(self.input_pairs[0])
        }
    }

    /// The replayer after the game has read the buttons.
    pub open spec fn after_read_joyflags(self) -> ReplayerView {
        self.noting(self.read_error())
    }

    /// What the replayer asks for when the game reads the buttons: a
    /// snapshot at the commit tick before anything else; then, where the next
    /// recorded pair is that of the current tick, the local buttons in the
    /// register, and after that a snapshot at the dirty tick.
    pub open spec fn read_joyflags_actions(self) -> Seq<Action> {
        (if self.current_tick == self.commit_tick {
            seq![Action::SaveCommittedState]
        } else {
            Seq::<Action>::empty()
        }) + (if self.input_pairs.len() > 0 && self.read_error() is None {
            seq![
                Action::SetGpr {
                    index: 4,
                    value: spec_joyflags_register(self.input_pairs[0].local.joyflags),
                },
            ] + (if self.current_tick == self.dirty_tick {
                seq![Action::SaveDirtyState]
            } else {
                Seq::<Action>::empty()
            })
        } else {
            Seq::<Action>::empty()
        })
    }

    /// What is wrong when the game copies its link input in a running round.
    pub open spec fn copy_error(self) -> Option<SyncError> {
        if self.input_pairs.len() == 0 {
            Some(SyncError::InputExhausted { current_tick: self.current_tick })
        } else if self.pair_error(self.input_pairs[0]) is Some {
            self.pair_error(self.input_pairs[0])
        } else {
            self.packet_error()
        }
    }

    /// The replayer after the game has copied its link input: in a running
    /// round the next recorded pair is used up.
    pub open spec fn after_copy_input_data_entry(self) -> ReplayerView {
        if self.is_round_ending() {
            self
        } else if self.input_pairs.len() == 0 {
            self.noting(self.copy_error())
        } else {
            (ReplayerView {
                input_pairs: self.input_pairs.subrange(1, self.input_pairs.len() as int),
                ..self
            }).noting(self.copy_error())
        }
    }

    /// Whether `actions` is what the replayer asks for when the game copies
    /// its link input: nothing unless the next pair and the local packet are
    /// those of the current tick; else the local packet is written as the
    /// one received for the local player, and the shadow is asked for the
    /// remote player's.
    pub open spec fn copy_input_data_actions(self, actions: Seq<Action>) -> bool {
        if self.is_round_ending() || self.copy_error() is Some {
            actions.len() == 0
        } else {
            &&& actions.len() == 2
            &&& actions[0] matches Action::SetRxPacket { player, payload }
            &&& player == self.local_player_index
            &&& payload@ == self.local_packet.unwrap().payload@
            &&& actions[1] matches Action::ApplyShadowInput { player, pair, local_payload }
            &&& player == self.remote_player_index()
            &&& pair == self.input_pairs[0]
            &&& local_payload@ == self.local_packet.unwrap().payload@
        }
    }

    /// The replayer after the game has copied its link input and written
    /// `payload` for the link.
    pub open spec fn after_copy_input_data_ret(self, payload: Vec<u8>) -> ReplayerView {
        if self.is_round_ending() {
            self
        } else if self.current_tick == u32::MAX {
            self.failed(SyncError::TickLimit)
        } else {
            ReplayerView {
                local_packet: Some(Packet { tick: (self.current_tick + 1) as u32, payload }),
                ..self
            }
        }
    }

    /// The replayer after the simulation has finished a tick.
    pub open spec fn after_tick_end(self) -> ReplayerView {
        if self.current_tick == u32::MAX {
            self.failed(SyncError::TickLimit)
        } else {
            ReplayerView { current_tick: (self.current_tick + 1) as u32, ..self }
        }
    }

    /// The replayer after the simulation has signalled that the round is
    /// concluding.
    pub open spec fn after_round_set_ending(self) -> ReplayerView {
        if self.phase == RoundPhase::Ended {
            self
        } else {
            ReplayerView { phase: RoundPhase::Ending, ..self }
        }
    }

    /// The replayer after the simulation has stopped at `trap`.
    pub open spec fn after_trap(self, trap: Trap, input: TrapInput) -> ReplayerView {
        match trap {
            Trap::RoundSetEnding => self.after_round_set_ending(),
            Trap::RoundEndEntry => ReplayerView { phase: RoundPhase::Ended, ..self },
            Trap::MainReadJoyflags => self.after_read_joyflags(),
            Trap::CopyInputDataEntry => self.after_copy_input_data_entry(),
            Trap::CopyInputDataRet => self.after_copy_input_data_ret(input.tx_packet),
            Trap::RoundCallJumpTableRet => self.after_tick_end(),
            Trap::RoundEndSetWin => ReplayerView { last_result: BattleResult::Win, ..self },
            Trap::RoundEndSetLoss => ReplayerView { last_result: BattleResult::Loss, ..self },
            Trap::RoundEndDamageJudgeSetWin => ReplayerView {
                last_result: BattleResult::Win,
                ..self
            },
            Trap::RoundEndDamageJudgeSetLoss => ReplayerView {
                last_result: BattleResult::Loss,
                ..self
            },
            Trap::RoundEndDamageJudgeSetDraw => ReplayerView {
                last_result: BattleResult::Draw,
                ..self
            },
            _ => self,
        }
    }

    /// Whether `actions` is what the replayer asks for at `trap`.
    pub open spec fn trap_actions(
        self,
        trap: Trap,
        input: TrapInput,
        actions: Seq<Action>,
    ) -> bool {
        match trap {
            Trap::BattleStartPlayMusicCall => actions == (if self.disable_bgm {
                seq![Action::SetThumbPc { pc: spec_skip_call(input.pc) }]
            } else {
                Seq::<Action>::empty()
            }),
            Trap::BattleIsP2Tst => actions == seq![
                Action::SetGpr { index: 0, value: self.local_player_index as i32 },
            ],
            Trap::LinkIsP2Ret => actions == seq![
                Action::SetGpr { index: 0, value: self.local_player_index as i32 },
            ],
            Trap::InBattleCallHandleLinkCableInput => actions == spec_link_cable_actions(
                input.pc,
                2,
            ),
            Trap::MainReadJoyflags => actions == self.read_joyflags_actions(),
            Trap::CopyInputDataEntry => self.copy_input_data_actions(actions),
            _ => actions.len() == 0,
        }
    }

    /// The replayer after `event`.
    pub open spec fn after_event(self, event: ReplayerEvent) -> ReplayerView {
        match event {
            ReplayerEvent::Trap { trap, input } => self.after_trap(trap, input),
            ReplayerEvent::CommittedStateSaved { state } => ReplayerView {
                committed_state: Some(state),
                ..self
            },
            ReplayerEvent::DirtyStateSaved { state } => ReplayerView {
                dirty_state: Some(state),
                ..self
            },
        }
    }

    /// Whether `actions` is what the replayer asks for at `event`: what the
    /// trap asks for, and nothing when a snapshot is handed in.
    pub open spec fn event_actions(self, event: ReplayerEvent, actions: Seq<Action>) -> bool {
        match event {
            ReplayerEvent::Trap { trap, input } => self.trap_actions(trap, input, actions),
            _ => actions.len() == 0,
        }
    }

    /// Whether `actions` is what the replayer asks for over a run of events:
    /// what it asks for at the first event, then at the second from the state
    /// that the first left, and so on, in that order and with nothing else.
    pub open spec fn events_actions(self, events: Seq<ReplayerEvent>, actions: Seq<Action>) -> bool
        decreases events.len(),
    {
        if events.len() == 0 {
            actions.len() == 0
        } else {
            exists|split: int|
                0 <= split <= actions.len() && self.events_actions(
                    events.drop_last(),
                    #[trigger] actions.take(split),
                ) && self.after_events(events.drop_last()).event_actions(
                    events.last(),
                    actions.skip(split),
                )
        }
    }

    /// The replayer after a run of events.
    pub open spec fn after_events(self, events: Seq<ReplayerEvent>) -> ReplayerView
        decreases events.len(),
    {
        if events.len() == 0 {
            self
        } else {
            self.after_events(events.drop_last()).after_event(events.last())
        }
    }
}

/// The state of a replay.
pub struct ReplayerState {
    local_player_index: u8,
    input_pairs: Vec<InputPair>,
    cursor: usize,
    current_tick: u32,
    commit_tick: u32,
    dirty_tick: u32,
    committed_state: Option<Snapshot>,
    dirty_state: Option<Snapshot>,
    last_result: BattleResult,
    phase: RoundPhase,
    local_packet: Option<Packet>,
    disable_bgm: bool,
    error: Option<SyncError>,
}

impl View for ReplayerState {
    type V = ReplayerView;

    closed spec fn view(&self) -> ReplayerView {
        ReplayerView {
            local_player_index: self.local_player_index,
            input_pairs: self.input_pairs@.subrange(
                self.cursor as int,
                self.input_pairs@.len() as int,
            ),
            current_tick: self.current_tick,
            commit_tick: self.commit_tick,
            dirty_tick: self.dirty_tick,
            committed_state: self.committed_state,
            dirty_state: self.dirty_state,
            last_result: self.last_result,
            phase: self.phase,
            local_packet: self.local_packet,
            disable_bgm: self.disable_bgm,
            error: self.error,
        }
    }
}

impl ReplayerState {
    /// The invariant of the replayer.
    pub closed spec fn wf(&self) -> bool {
        &&& self@.wf()
        &&& self.cursor <= self.input_pairs@.len()
    }

    /// Makes a replayer at tick 0 of a running round, with the recorded
    /// pairs still to be played.
    pub fn new(
        local_player_index: u8,
        input_pairs: Vec<InputPair>,
        commit_tick: u32,
        dirty_tick: u32,
        disable_bgm: bool,
    ) -> (made: Result<ReplayerState, SyncError>)
        ensures
            made is Ok <==> local_player_index <= 1,
            made matches Err(e) ==> e == SyncError::InvalidConfig,
            made matches Ok(replayer) ==> replayer.wf() && replayer@ == (ReplayerView {
                local_player_index,
                input_pairs: input_pairs@,
                current_tick: 0,
                commit_tick,
                dirty_tick,
                committed_state: None,
                dirty_state: None,
                last_result: BattleResult::Unknown,
                phase: RoundPhase::Running,
                local_packet: None,
                disable_bgm,
                error: None,
            }),
    {
        if local_player_index > 1 {
            return Err(SyncError::InvalidConfig);
        }
        let replayer = ReplayerState {
            local_player_index,
            input_pairs,
            cursor: 0,
            current_tick: 0,
            commit_tick,
            dirty_tick,
            committed_state: None,
            dirty_state: None,
            last_result: BattleResult::Unknown,
            phase: RoundPhase::Running,
            local_packet: None,
            disable_bgm,
            error: None,
        };
        assert(replayer@.input_pairs =~= input_pairs@);
        Ok(replayer)
    }

    /// The tick that the simulation is at.
    pub fn current_tick(&self) -> (tick: u32)
        ensures
            tick == self@.current_tick,
    {
        self.current_tick
    }

    /// The tick at which the first snapshot is taken.
    pub fn commit_tick(&self) -> (tick: u32)
        ensures
            tick == self@.commit_tick,
    {
        self.commit_tick
    }

    /// The tick at which the later snapshot is taken.
    pub fn dirty_tick(&self) -> (tick: u32)
        ensures
            tick == self@.dirty_tick,
    {
        self.dirty_tick
    }

    /// The index of the local player.
    pub fn local_player_index(&self) -> (index: u8)
        ensures
            index == self@.local_player_index,
    {
        self.local_player_index
    }

    /// The index of the remote player.
    pub fn remote_player_index(&self) -> (index: u8)
        requires
            self.wf(),
        ensures
            index == self@.remote_player_index(),
    {
        1 - self.local_player_index
    }

    /// Whether the music of the battle is left out.
    pub fn disable_bgm(&self) -> (disabled: bool)
        ensures
            disabled == self@.disable_bgm,
    {
        self.disable_bgm
    }

    /// Whether the round is concluding or has concluded.
    pub fn is_round_ending(&self) -> (ending: bool)
        ensures
            ending == self@.is_round_ending(),
    {
        match self.phase {
            RoundPhase::Ending => true,
            RoundPhase::Ended => true,
            _ => false,
        }
    }

    /// Whether the round has concluded.
    pub fn is_round_ended(&self) -> (ended: bool)
        ensures
            ended == (self@.phase == RoundPhase::Ended),
    {
        match self.phase {
            RoundPhase::Ended => true,
            _ => false,
        }
    }

    /// The last result seen.
    pub fn last_result(&self) -> (result: BattleResult)
        ensures
            result == self@.last_result,
    {
        self.last_result
    }

    /// The error recorded last.
    pub fn error(&self) -> (error: Option<SyncError>)
        ensures
            error == self@.error,
    {
        self.error
    }

    /// The snapshot taken at the commit tick.
    pub fn committed_state(&self) -> (state: &Option<Snapshot>)
        ensures
            *state == self@.committed_state,
    {
        &self.committed_state
    }

    /// The snapshot taken at the dirty tick.
    pub fn dirty_state(&self) -> (state: &Option<Snapshot>)
        ensures
            *state == self@.dirty_state,
    {
        &self.dirty_state
    }

    /// The packet that the simulation wrote last.
    pub fn peek_local_packet(&self) -> (packet: &Option<Packet>)
        ensures
            *packet == self@.local_packet,
    {
        &self.local_packet
    }

    /// Records `error`.
    pub fn set_error(&mut self, error: SyncError)
        ensures
            final(self)@ == old(self)@.failed(error),
            old(self).wf() ==> final(self).wf(),
    {
        self.error = Some(error);
    }

    /// Notes that the round is concluding. A concluded round stays concluded.
    pub fn set_round_ending(&mut self)
        ensures
            final(self)@ == old(self)@.after_round_set_ending(),
            old(self).wf() ==> final(self).wf(),
    {
        match self.phase {
            RoundPhase::Ended => {},
            _ => {
                self.phase = RoundPhase::Ending;
            },
        }
    }

    /// Notes that the round has concluded.
    pub fn set_round_ended(&mut self)
        ensures
            final(self)@ == (ReplayerView { phase: RoundPhase::Ended, ..old(self)@ }),
            old(self).wf() ==> final(self).wf(),
    {
        self.phase = RoundPhase::Ended;
    }

    /// Records a result of the round.
    pub fn set_round_result(&mut self, result: BattleResult)
        ensures
            final(self)@ == (ReplayerView { last_result: result, ..old(self)@ }),
            old(self).wf() ==> final(self).wf(),
    {
        self.last_result = result;
    }

    /// Keeps the snapshot taken at the commit tick.
    pub fn set_committed_state(&mut self, state: Snapshot)
        ensures
            final(self)@ == (ReplayerView { committed_state: Some(state), ..old(self)@ }),
            old(self).wf() ==> final(self).wf(),
    {
        self.committed_state = Some(state);
    }

    /// Keeps the snapshot taken at the dirty tick.
    pub fn set_dirty_state(&mut self, state: Snapshot)
        ensures
            final(self)@ == (ReplayerView { dirty_state: Some(state), ..old(self)@ }),
            old(self).wf() ==> final(self).wf(),
    {
        self.dirty_state = Some(state);
    }

    /// Keeps the packet that the simulation has written for `tick`.
    pub fn set_local_packet(&mut self, tick: u32, payload: Vec<u8>)
        ensures
            final(self)@ == (ReplayerView {
                local_packet: Some(Packet { tick, payload }),
                ..old(self)@
            }),
            old(self).wf() ==> final(self).wf(),
    {
        self.local_packet = Some(Packet { tick, payload });
    }

    /// Moves on to the next tick.
    pub fn increment_current_tick(&mut self)
        requires
            old(self)@.current_tick < u32::MAX,
        ensures
            final(self)@ == (ReplayerView {
                current_tick: (old(self)@.current_tick + 1) as u32,
                ..old(self)@
            }),
            old(self).wf() ==> final(self).wf(),
    {
        self.current_tick = self.current_tick + 1;
    }

    /// The next recorded pair.
    pub fn peek_input_pair(&self) -> (pair: Option<InputPair>)
        requires
            self.wf(),
        ensures
            pair == (if self@.input_pairs.len() > 0 {
                Some(self@.input_pairs[0])
            } else {
                None
            }),
    {
        if self.cursor < self.input_pairs.len() {
            Some(self.input_pairs[self.cursor])
        } else {
            None
        }
    }

    /// Takes the next recorded pair.
    pub fn pop_input_pair(&mut self) -> (pair: Option<InputPair>)
        requires
            old(self).wf(),
        ensures
            final(self).wf(),
            pair == (if old(self)@.input_pairs.len() > 0 {
                Some(old(self)@.input_pairs[0])
            } else {
                None
            }),
            pair is Some ==> final(self)@ == (ReplayerView {
                input_pairs: old(self)@.input_pairs.subrange(
                    1,
                    old(self)@.input_pairs.len() as int,
                ),
                ..old(self)@
            }),
            pair is None ==> final(self)@ == old(self)@,
    {
        if self.cursor < self.input_pairs.len() {
            let pair = self.input_pairs[self.cursor];
            self.cursor = self.cursor + 1;
            assert(final(self)@.input_pairs =~= old(self)@.input_pairs.subrange(
                1,
                old(self)@.input_pairs.len() as int,
            ));
            Some(pair)
        } else {
            None
        }
    }

    /// Tells what is wrong with `pair` as the pair of the current tick.
    fn check_pair(&self, pair: InputPair) -> (found: Option<SyncError>)
        ensures
            found == self@.pair_error(pair),
    {
        if pair.local.local_tick != pair.remote.local_tick {
            Some(
                SyncError::TickMismatch {
                    current_tick: self.current_tick,
                    local_tick: pair.local.local_tick,
                    remote_tick: pair.remote.local_tick,
                },
            )
        } else if pair.local.local_tick != self.current_tick {
            Some(
                SyncError::InputTickMismatch {
                    input_tick: pair.local.local_tick,
                    current_tick: self.current_tick,
                },
            )
        } else {
            None
        }
    }

    /// The game reads the buttons: the local buttons of the next recorded
    /// pair are handed to it, and snapshots are asked for at the commit tick
    /// and at the dirty tick. A recording that has run out while the round is
    /// running, or whose next pair is not that of the current tick, is in
    /// error; the error is recorded.
    pub fn on_read_joyflags(&mut self) -> (actions: Vec<Action>)
        requires
            old(self).wf(),
        ensures
            final(self).wf(),
            final(self)@ == old(self)@.after_read_joyflags(),
            actions@ == old(self)@.read_joyflags_actions(),
    {
        let mut actions: Vec<Action> = Vec::new();
        if self.current_tick == self.commit_tick {
            actions.push(Action::SaveCommittedState);
        }
        match self.peek_input_pair() {
            None => {
                if !self.is_round_ending() {
                    self.error = Some(
                        SyncError::InputExhausted { current_tick: self.current_tick },
                    );
                }
            },
            Some(pair) => {
                match self.check_pair(pair) {
                    Some(e) => {
                        self.error = Some(e);
                    },
                    None => {
                        actions.push(
                            Action::SetGpr {
                                index: 4,
                                value: joyflags_register(pair.local.joyflags),
                            },
                        );
                        if self.current_tick == self.dirty_tick {
                            actions.push(Action::SaveDirtyState);
                        }
                    },
                }
            },
        }
        actions
    }

    /// The game copies its link input: in a running round the next recorded
    /// pair is used up, the local packet kept last is written as the one
    /// received for the local player, and the shadow is asked for the remote
    /// player's. A recording that has run out, a pair or a packet that is not
    /// that of the current tick, or no packet kept, is in error; the error is
    /// recorded and nothing is written.
    pub fn on_copy_input_data_entry(&mut self) -> (actions: Vec<Action>)
        requires
            old(self).wf(),
        ensures
            final(self).wf(),
            final(self)@ == old(self)@.after_copy_input_data_entry(),
            old(self)@.copy_input_data_actions(actions@),
    {
        let mut actions: Vec<Action> = Vec::new();
        if self.is_round_ending() {
            return actions;
        }
        let popped = self.pop_input_pair();
        match popped {
            None => {
                self.error = Some(SyncError::InputExhausted { current_tick: self.current_tick });
            },
            Some(pair) => {
                match self.check_pair(pair) {
                    Some(e) => {
                        self.error = Some(e);
                    },
                    None => {
                        match &self.local_packet {
                            None => {
                                self.error = Some(
                                    SyncError::MissingPacket { current_tick: self.current_tick },
                                );
                            },
                            Some(packet) => {
                                if packet.tick != self.current_tick {
                                    self.error = Some(
                                        SyncError::PacketTickMismatch {
                                            packet_tick: packet.tick,
                                            current_tick: self.current_tick,
                                        },
                                    );
                                } else {
                                    let received = packet.payload.clone();
                                    let sent = packet.payload.clone();
                                    actions.push(
                                        Action::SetRxPacket {
                                            player: self.local_player_index,
                                            payload: received,
                                        },
                                    );
                                    actions.push(
                                        Action::ApplyShadowInput {
                                            player: 1 - self.local_player_index,
                                            pair,
                                            local_payload: sent,
                                        },
                                    );
                                }
                            },
                        }
                    },
                }
            },
        }
        actions
    }

    /// The game has copied its link input: in a running round the packet
    /// that the simulation wrote is kept as the local packet of the next
    /// tick.
    pub fn on_copy_input_data_ret(&mut self, payload: Vec<u8>)
        requires
            old(self).wf(),
        ensures
            final(self).wf(),
            final(self)@ == old(self)@.after_copy_input_data_ret(payload),
    {
        if self.is_round_ending() {
            return ;
        }
        if self.current_tick == u32::MAX {
            self.error = Some(SyncError::TickLimit);
            return ;
        }
        self.local_packet = Some(Packet { tick: self.current_tick + 1, payload });
    }

    /// The simulation finished a tick: the replayer moves on to the next.
    pub fn on_tick_end(&mut self)
        requires
            old(self).wf(),
        ensures
            final(self).wf(),
            final(self)@ == old(self)@.after_tick_end(),
    {
        if self.current_tick == u32::MAX {
            self.error = Some(SyncError::TickLimit);
            return ;
        }
        self.current_tick = self.current_tick + 1;
    }

    /// Answers a trap of the simulation that plays the recording back.
    pub fn on_trap(&mut self, trap: Trap, input: TrapInput) -> (actions: Vec<Action>)
        requires
            old(self).wf(),
        ensures
            final(self).wf(),
            final(self)@ == old(self)@.after_trap(trap, input),
            old(self)@.trap_actions(trap, input, actions@),
    {
        match trap {
            Trap::BattleStartPlayMusicCall => {
                let mut actions: Vec<Action> = Vec::new();
                if self.disable_bgm {
                    actions.push(Action::SetThumbPc { pc: skip_call(input.pc) });
                }
                actions
            },
            Trap::BattleIsP2Tst => {
                let mut actions: Vec<Action> = Vec::new();
                actions.push(Action::SetGpr { index: 0, value: self.local_player_index as i32 });
                actions
            },
            Trap::LinkIsP2Ret => {
                let mut actions: Vec<Action> = Vec::new();
                actions.push(Action::SetGpr { index: 0, value: self.local_player_index as i32 });
                actions
            },
            Trap::InBattleCallHandleLinkCableInput => link_cable_actions(input.pc, 2),
            Trap::RoundSetEnding => {
                self.set_round_ending();
                Vec::new()
            },
            Trap::RoundEndEntry => {
                self.set_round_ended();
                Vec::new()
            },
            Trap::MainReadJoyflags => self.on_read_joyflags(),
            Trap::CopyInputDataEntry => self.on_copy_input_data_entry(),
            Trap::CopyInputDataRet => {
                self.on_copy_input_data_ret(input.tx_packet);
                Vec::new()
            },
            Trap::RoundCallJumpTableRet => {
                self.on_tick_end();
                Vec::new()
            },
            Trap::RoundEndSetWin => {
                self.set_round_result(BattleResult::Win);
                Vec::new()
            },
            Trap::RoundEndSetLoss => {
                self.set_round_result(BattleResult::Loss);
                Vec::new()
            },
            Trap::RoundEndDamageJudgeSetWin => {
                self.set_round_result(BattleResult::Win);
                Vec::new()
            },
            Trap::RoundEndDamageJudgeSetLoss => {
                self.set_round_result(BattleResult::Loss);
                Vec::new()
            },
            Trap::RoundEndDamageJudgeSetDraw => {
                self.set_round_result(BattleResult::Draw);
                Vec::new()
            },
            _ => Vec::new(),
        }
    }

    /// Takes in an event: a trap is answered, a snapshot is kept.
    pub fn on_event(&mut self, event: ReplayerEvent) -> (actions: Vec<Action>)
        requires
            old(self).wf(),
        ensures
            final(self).wf(),
            final(self)@ == old(self)@.after_event(event),
            old(self)@.event_actions(event, actions@),
    {
        match event {
            ReplayerEvent::Trap { trap, input } => self.on_trap(trap, input),
            ReplayerEvent::CommittedStateSaved { state } => {
                self.set_committed_state(state);
                Vec::new()
            },
            ReplayerEvent::DirtyStateSaved { state } => {
                self.set_dirty_state(state);
                Vec::new()
            },
        }
    }
}

impl ReplayerState {
    /// Takes in a run of events, one after the other, and gives all that
    /// was asked for on the way, in order.
    pub fn on_events(&mut self, events: Vec<ReplayerEvent>) -> (actions: Vec<Action>)
        requires
            old(self).wf(),
        ensures
            final(self).wf(),
            final(self)@ == old(self)@.after_events(events@),
            old(self)@.events_actions(events@, actions@),
    {
        let mut actions: Vec<Action> = Vec::new();
        let ghost start = self@;
        let ghost all = events@;
        for event in it: events
            invariant
                self.wf(),
                it.seq() == all,
                self@ == start.after_events(all.take(it.index())),
                start.events_actions(all.take(it.index()), actions@),
        {
            let ghost done = it.index();
            let ghost before = actions@;
            let mut asked = self.on_event(event);
            let ghost answer = asked@;
            actions.append(&mut asked);
            proof {
                assert(all.take(done + 1).drop_last() =~= all.take(done));
                assert(actions@.take(before.len() as int) =~= before);
                assert(actions@.skip(before.len() as int) =~= answer);
            }
        }
        assert(all.take(all.len() as int) =~= all);
        actions
    }
}

/// Replaying is deterministic: two replayers that hold the same recording
/// and are given the same events end alike, with the same result, the same
/// snapshots at the commit tick and at the dirty tick, and the same error.
pub proof fn lemma_replay_deterministic(
    first: ReplayerState,
    second: ReplayerState,
    events: Seq<ReplayerEvent>,
)
    requires
        first@ == second@,
    ensures
        first@.after_events(events) == second@.after_events(events),
        first@.after_events(events).last_result == second@.after_events(events).last_result,
        first@.after_events(events).committed_state == second@.after_events(
            events,
        ).committed_state,
        first@.after_events(events).dirty_state == second@.after_events(events).dirty_state,
        first@.after_events(events).error == second@.after_events(events).error,
{
}

} // verus!
