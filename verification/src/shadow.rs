//! The shadow: the state of the second simulation instance, which plays the
//! remote player ahead of the network, and what its traps decide.

use crate::action::{
    common_trap_actions, link_cable_actions, spec_common_trap_actions, spec_link_cable_actions,
    Action, Trap, TrapInput,
};
use crate::battle::{make_seed_actions, seed_actions};
use crate::lockstep::{InputPair, JoyInput, Packet, QueueView, RemoteInput};
use crate::rng::{
    draw_round_seeds, is_round_seeds, random_battle_settings_and_background, rng_from_seed,
    spec_after_battle_settings_and_background, spec_after_round_seeds,
    spec_battle_settings_and_background, spec_draw_round_seeds, spec_rng_from_seed,
};
use crate::round::{
    BattleResult, CommittedState, Role, Round, RoundConfig, RoundPhase, RoundView, Snapshot,
    SyncError,
};
use rand_pcg::Mcg128Xsl64;
use vstd::prelude::*;

verus! {

/// A snapshot of the shadow with the tick that it was taken at.
#[derive(Debug, PartialEq, Eq)]
pub struct AppliedState {
    pub state: Snapshot,
    pub tick: u32,
}

/// How far the shadow is to be run.
#[derive(Clone, Copy, Debug, PartialEq, Eq, Structural)]
pub enum AdvanceGoal {
    /// Until its round holds its first snapshot.
    FirstCommittedState,
    /// Until its round has ended.
    RoundEnd,
    /// Until a snapshot of the given tick, or of a later one, is applied.
    AppliedTick { tick: u32 },
}

/// What a [`ShadowState`] holds.
pub struct ShadowView {
    pub rng: Mcg128Xsl64,
    pub is_offerer: bool,
    pub match_type: (u8, u8),
    pub config: RoundConfig,
    pub round: Option<RoundView>,
    pub applied_state: Option<AppliedState>,
    pub error: Option<SyncError>,
}

impl ShadowView {
    /// The index of the player that the shadow plays: the remote player.
    pub open spec fn shadow_player_index(self) -> u8 {
        if self.is_offerer {
            1
        } else {
            0
        }
    }

    /// The round is a shadow round of the remote player.
    pub open spec fn wf(self) -> bool {
        &&& self.config.valid()
        &&& self.round matches Some(r) ==> {
            &&& r.wf()
            &&& r.role == Role::Shadow
            &&& r.local_player_index == self.shadow_player_index()
        }
    }

    /// The round that the traps act on: none once the shadow is in error or
    /// the round has ended.
    pub open spec fn live_round(self) -> Option<RoundView> {
        if self.error is Some {
            None
        } else {
            match self.round {
                Some(r) => if r.phase == RoundPhase::Ended {
                    None
                } else {
                    Some(r)
                },
                None => None,
            }
        }
    }

    /// Whether the shadow has been run as far as `goal` asks.
    pub open spec fn has_reached(self, goal: AdvanceGoal) -> bool {
        match goal {
            AdvanceGoal::FirstCommittedState => self.round matches Some(r)
                && r.committed_state is Some,
            AdvanceGoal::RoundEnd => match self.round {
                Some(r) => r.phase == RoundPhase::Ended,
                None => true,
            },
            AdvanceGoal::AppliedTick { tick } => self.applied_state matches Some(applied)
                && applied.tick >= tick,
        }
    }

    /// What `advance` answers.
    pub open spec fn advance_result(self, goal: AdvanceGoal) -> Result<bool, SyncError> {
        match self.error {
            Some(e) => Err(e),
            None => Ok(self.has_reached(goal)),
        }
    }

    /// Whether `after` is this shadow with a new round in place of its round.
    pub open spec fn starts_round(self, after: ShadowView) -> bool {
        &&& after.round matches Some(r)
        &&& r.is_new(Role::Shadow, self.shadow_player_index(), self.config)
        &&& after == self.with_round(r)
    }

    /// The shadow with `round` in place of its round.
    pub open spec fn with_round(self, round: RoundView) -> ShadowView {
        ShadowView { round: Some(round), ..self }
    }

    /// The shadow after it halted for `error`.
    pub open spec fn failed(self, error: SyncError) -> ShadowView {
        ShadowView { error: Some(error), ..self }
    }

    /// The shadow after a method of its live round `r` left the round as
    /// `after` and answered `answer`: an error halts the shadow.
    pub open spec fn settled<T>(
        self,
        after: RoundView,
        answer: Result<T, SyncError>,
    ) -> ShadowView {
        match answer {
            Ok(_) => self.with_round(after),
            Err(e) => self.with_round(after).failed(e),
        }
    }
}

impl ShadowView {
    /// How `on_comm_menu_init` leaves the shadow, and what it asks for.
    pub open spec fn comm_menu_init_post(
        self,
        after: ShadowView,
        total_settings: u8,
        total_backgrounds: u8,
        actions: Seq<Action>,
    ) -> bool {
        if self.error is Some || total_settings == 0 || total_backgrounds == 0 {
            &&& after == self
            &&& actions.len() == 0
        } else {
            let picked = spec_battle_settings_and_background(
                self.rng,
                total_settings,
                total_backgrounds,
            );
            &&& after == (ShadowView {
                rng: spec_after_battle_settings_and_background(
                    self.rng,
                    total_settings,
                    total_backgrounds,
                ),
                ..self
            })
            &&& actions == seq![
                Action::StartBattleFromCommMenu {
                    match_type: self.match_type.0,
                    battle_settings: picked.0,
                    background: picked.1,
                },
            ]
            &&& picked.0 < total_settings
            &&& picked.1 < total_backgrounds
        }
    }

    /// How `on_round_result` leaves the shadow.
    pub open spec fn round_result_post(self, after: ShadowView, reported: BattleResult) -> bool {
        match self.live_round() {
            Some(r) => after == self.with_round(
                RoundView { last_result: r.recorded_result(reported), ..r },
            ),
            None => after == self,
        }
    }

    /// How `on_round_start` leaves the shadow.
    pub open spec fn round_start_post(self, after: ShadowView) -> bool {
        if self.error is Some {
            after == self
        } else if self.live_round() is Some {
            after == self.failed(SyncError::RoundAlreadyActive)
        } else {
            self.starts_round(after)
        }
    }

    /// How `on_round_end_entry` leaves the shadow, and what it asks for.
    pub open spec fn round_end_entry_post(self, after: ShadowView, actions: Seq<Action>) -> bool {
        match self.live_round() {
            Some(r) => {
                &&& after == self.settled(
                    RoundView { phase: RoundPhase::Ended, ..r },
                    r.finish_result(),
                )
                &&& actions == seq![Action::SaveAppliedState { tick: 0 }]
            },
            None => after == self && actions.len() == 0,
        }
    }

    /// What `on_is_p2` asks for.
    pub open spec fn is_p2_post(self, actions: Seq<Action>) -> bool {
        match self.live_round() {
            Some(r) => actions == seq![
                Action::SetGpr { index: 0, value: r.local_player_index as i32 },
            ],
            None => actions.len() == 0,
        }
    }

    /// How `on_read_joyflags` leaves the shadow, and what it asks for.
    pub open spec fn read_joyflags_post(self, after: ShadowView, actions: Seq<Action>) -> bool {
        match self.live_round() {
            None => after == self && actions.len() == 0,
            Some(r) => if r.committed_state is None {
                match r.seeds {
                    Some(seeds) => after == self && actions == seed_actions(
                        seeds,
                    ),
                    None => {
                        let seeds = spec_draw_round_seeds(
                            self.rng,
                            Role::Shadow.spec_plays_offerer(self.is_offerer),
                        );
                        &&& after == (ShadowView {
                            rng: spec_after_round_seeds(self.rng),
                            round: Some(RoundView { seeds: Some(seeds), ..r }),
                            ..self
                        })
                        &&& actions == seed_actions(seeds)
                        &&& is_round_seeds(seeds)
                    },
                }
            } else if r.queue.paired() > 0 && r.head_error() is Some {
                &&& after == self.failed(r.head_error().unwrap())
                &&& actions.len() == 0
            } else {
                &&& after == self.with_round(
                    RoundView { input_injected: false, ..r },
                )
                &&& actions == r.inject_actions()
            },
        }
    }

    /// How `on_copy_input_data_entry` leaves the shadow, and what it asks for.
    pub open spec fn copy_input_data_entry_post(
        self,
        after: ShadowView,
        actions: Vec<Action>,
    ) -> bool {
        match self.live_round() {
            None => after == self && actions.len() == 0,
            Some(r) => {
                &&& after.round matches Some(left)
                &&& after == (ShadowView {
                    round: Some(left),
                    error: after.error,
                    ..self
                })
                &&& match after.error {
                    Some(e) => r.exchange_post(left, Err(e)) && actions.len() == 0,
                    None => r.exchange_post(left, Ok(actions)),
                }
            },
        }
    }

    /// How `on_copy_input_data_ret` leaves the shadow.
    pub open spec fn copy_input_data_ret_post(self, after: ShadowView, tx_packet: Vec<u8>) -> bool {
        match self.live_round() {
            None => after == self,
            Some(r) => {
                &&& after.round matches Some(left)
                &&& after == (ShadowView {
                    round: Some(left),
                    error: after.error,
                    ..self
                })
                &&& match after.error {
                    Some(e) => r.keep_post(left, tx_packet, Err(e)),
                    None => r.keep_post(left, tx_packet, Ok(())),
                }
            },
        }
    }

    /// How `on_tick_end` leaves the shadow.
    pub open spec fn tick_end_post(self, after: ShadowView) -> bool {
        match self.live_round() {
            None => after == self,
            Some(r) => {
                &&& after.round matches Some(left)
                &&& after == (ShadowView {
                    round: Some(left),
                    error: after.error,
                    ..self
                })
                &&& match after.error {
                    Some(e) => r.end_tick_post(left, Err(e)),
                    None => r.end_tick_post(left, Ok(())),
                }
            },
        }
    }
}

impl ShadowView {
    /// How the trap `trap` of the shadow instance leaves the shadow, and
    /// what it asks for.
    pub open spec fn trap_post(
        self,
        after: ShadowView,
        trap: Trap,
        input: TrapInput,
        actions: Vec<Action>,
    ) -> bool {
        match trap {
            Trap::CommMenuInitRet => self.comm_menu_init_post(
                after,
                input.total_settings,
                input.total_backgrounds,
                actions@,
            ),
            Trap::RoundEndSetWin => self.round_result_post(after, BattleResult::Win)
                && actions@.len() == 0,
            Trap::RoundEndSetLoss => self.round_result_post(after, BattleResult::Loss)
                && actions@.len() == 0,
            Trap::RoundEndDamageJudgeSetWin => self.round_result_post(after, BattleResult::Win)
                && actions@.len() == 0,
            Trap::RoundEndDamageJudgeSetLoss => self.round_result_post(after, BattleResult::Loss)
                && actions@.len() == 0,
            Trap::RoundEndDamageJudgeSetDraw => self.round_result_post(after, BattleResult::Draw)
                && actions@.len() == 0,
            Trap::RoundStartRet => self.round_start_post(after) && actions@.len() == 0,
            Trap::RoundEndEntry => self.round_end_entry_post(after, actions@),
            Trap::BattleIsP2Tst => after == self && self.is_p2_post(actions@),
            Trap::LinkIsP2Ret => after == self && self.is_p2_post(actions@),
            Trap::InBattleCallHandleLinkCableInput => after == self && actions@
                == spec_link_cable_actions(input.pc, 2),
            Trap::MainReadJoyflags => self.read_joyflags_post(after, actions@),
            Trap::CopyInputDataEntry => self.copy_input_data_entry_post(after, actions),
            Trap::CopyInputDataRet => self.copy_input_data_ret_post(after, input.tx_packet)
                && actions@.len() == 0,
            Trap::RoundCallJumpTableRet => self.tick_end_post(after) && actions@.len() == 0,
            Trap::MatchEndRet => after == self && actions@.len() == 0,
            Trap::RoundSetEnding => after == self && actions@.len() == 0,
            _ => after == self && actions@ == spec_common_trap_actions(trap, input.pc),
        }
    }
}

/// The state of the shadow instance.
pub struct ShadowState {
    rng: Mcg128Xsl64,
    is_offerer: bool,
    match_type: (u8, u8),
    config: RoundConfig,
    round: Option<Round>,
    applied_state: Option<AppliedState>,
    error: Option<SyncError>,
}

impl View for ShadowState {
    type V = ShadowView;

    closed spec fn view(&self) -> ShadowView {
        ShadowView {
            rng: self.rng,
            is_offerer: self.is_offerer,
            match_type: self.match_type,
            config: self.config,
            round: match self.round {
                Some(r) => Some(r@),
                None => None,
            },
            applied_state: self.applied_state,
            error: self.error,
        }
    }
}

impl ShadowState {
    /// The invariant of the shadow.
    pub open spec fn wf(&self) -> bool {
        self@.wf()
    }

    /// Makes a shadow without a round. Its generator is seeded like that of
    /// the match, and its queue is configured as the remote player has it.
    pub fn new(
        seed: [u8; 16],
        is_offerer: bool,
        match_type: (u8, u8),
        config: RoundConfig,
    ) -> (made: Result<ShadowState, SyncError>)
        ensures
            made is Ok <==> config.valid(),
            made matches Err(e) ==> e == SyncError::InvalidConfig,
            made matches Ok(shadow) ==> shadow.wf() && shadow@ == (ShadowView {
                rng: spec_rng_from_seed(seed@),
                is_offerer,
                match_type,
                config: config.spec_mirrored(),
                round: None,
                applied_state: None,
                error: None,
            }),
    {
        if !config.is_valid() {
            return Err(SyncError::InvalidConfig);
        }
        let rng = rng_from_seed(seed);
        Ok(
            ShadowState {
                rng,
                is_offerer,
                match_type,
                config: config.mirrored(),
                round: None,
                applied_state: None,
                error: None,
            },
        )
    }

    /// Whether the local peer made the offer.
    pub fn is_offerer(&self) -> (is_offerer: bool)
        ensures
            is_offerer == self@.is_offerer,
    {
        self.is_offerer
    }

    /// The kind of match that the peers agreed on.
    pub fn match_type(&self) -> (match_type: (u8, u8))
        ensures
            match_type == self@.match_type,
    {
        self.match_type
    }

    /// The error that the shadow halted for.
    pub fn error(&self) -> (error: Option<SyncError>)
        ensures
            error == self@.error,
    {
        self.error
    }

    /// Halts the shadow for `error`.
    pub fn set_error(&mut self, error: SyncError)
        ensures
            final(self)@ == old(self)@.failed(error),
    {
        self.error = Some(error);
    }

    /// The current round, or the last one once it has ended.
    pub fn round(&self) -> (round: &Option<Round>)
        ensures
            match *round {
                Some(r) => self@.round == Some(r@),
                None => self@.round is None,
            },
    {
        &self.round
    }

    /// The snapshot applied last.
    pub fn applied_state(&self) -> (applied: &Option<AppliedState>)
        ensures
            *applied == self@.applied_state,
    {
        &self.applied_state
    }

    /// Keeps a snapshot of the shadow with the tick that it was taken at.
    pub fn set_applied_state(&mut self, state: Snapshot, tick: u32)
        ensures
            final(self)@ == (ShadowView {
                applied_state: Some(AppliedState { state, tick }),
                ..old(self)@
            }),
    {
        self.applied_state = Some(AppliedState { state, tick });
    }

    /// Whether the traps have a round to act on.
    fn has_live_round(&self) -> (live: bool)
        ensures
            live == (self@.live_round() is Some),
    {
        if self.error.is_some() {
            return false;
        }
        match &self.round {
            Some(r) => !r.is_ended(),
            None => false,
        }
    }

    /// Starts a round in which the shadow plays the remote player. It fails
    /// while a round is active.
    pub fn start_round(&mut self) -> (started: Result<(), SyncError>)
        requires
            old(self).wf(),
        ensures
            final(self).wf(),
            started is Err <==> (old(self)@.round matches Some(r) && r.phase
                != RoundPhase::Ended),
            started matches Err(e) ==> e == SyncError::RoundAlreadyActive && final(self)@ == old(
                self,
            )@,
            started is Ok ==> old(self)@.starts_round(final(self)@),
    {
        let active = match &self.round {
            Some(r) => !r.is_ended(),
            None => false,
        };
        if active {
            return Err(SyncError::RoundAlreadyActive);
        }
        let index: u8 = if self.is_offerer {
            1
        } else {
            0
        };
        match Round::new(Role::Shadow, index, self.config) {
            Ok(round) => {
                self.round = Some(round);
                Ok(())
            },
            Err(_) => {
                proof {
                    assert(false);
                }
                Err(SyncError::RoundAlreadyActive)
            },
        }
    }

    /// Commits the live round with the snapshot taken after the generators
    /// were seeded. Nothing happens unless the round is live, seeded and not
    /// yet committed.
    pub fn commit_round(&mut self, state: Snapshot, first_packet: Vec<u8>) -> (committed: bool)
        requires
            old(self).wf(),
        ensures
            final(self).wf(),
            committed == (old(self)@.live_round() matches Some(r) && r.phase
                == RoundPhase::Uncommitted && r.seeds is Some),
            committed ==> final(self)@ == old(self)@.with_round(
                RoundView {
                    committed_state: Some(CommittedState { state, shadow_state: None }),
                    phase: RoundPhase::Committed,
                    tx_packet: Some(
                        Packet {
                            tick: old(self)@.round.unwrap().current_tick,
                            payload: first_packet,
                        },
                    ),
                    ..old(self)@.round.unwrap()
                },
            ),
            !committed ==> final(self)@ == old(self)@,
    {
        if !self.has_live_round() {
            return false;
        }
        let taken = self.round.take();
        match taken {
            Some(mut round) => {
                let committed = if round.seeds().is_some() {
                    round.set_first_committed_state(state, None, first_packet)
                } else {
                    false
                };
                self.round = Some(round);
                committed
            },
            None => false,
        }
    }

    /// Takes in the two inputs of a tick, told from the local player's side,
    /// with the packet of the local player. The shadow queues them swapped:
    /// the remote input is the input of the player that it plays. An input
    /// that the queue refuses halts the shadow.
    pub fn add_input(&mut self, local: JoyInput, local_packet: Packet, remote: JoyInput) -> (added:
        Result<(), SyncError>)
        requires
            old(self).wf(),
        ensures
            final(self).wf(),
            match old(self)@.live_round() {
                None => added is Ok && final(self)@ == old(self)@,
                Some(r) => match r.queue.push_local_result(remote) {
                    Err(e) => {
                        &&& added == Err::<(), SyncError>(SyncError::RemoteInputRejected(e))
                        &&& final(self)@ == old(self)@.failed(SyncError::RemoteInputRejected(e))
                    },
                    Ok(()) => {
                        let queued = QueueView { local: r.queue.local.push(remote), ..r.queue };
                        match queued.push_remote_result(local, local_packet.tick) {
                            Err(e) => {
                                &&& added == Err::<(), SyncError>(
                                    SyncError::LocalInputRejected(e),
                                )
                                &&& final(self)@ == old(self)@.with_round(
                                    RoundView { queue: queued, ..r },
                                ).failed(SyncError::LocalInputRejected(e))
                            },
                            Ok(()) => {
                                &&& added is Ok
                                &&& final(self)@ == old(self)@.with_round(
                                    RoundView {
                                        queue: QueueView {
                                            remote: queued.remote.push(
                                                RemoteInput { input: local, packet: local_packet },
                                            ),
                                            ..queued
                                        },
                                        ..r
                                    },
                                )
                            },
                        }
                    },
                },
            },
    {
        if !self.has_live_round() {
            return Ok(());
        }
        let taken = self.round.take();
        match taken {
            Some(mut round) => {
                match round.add_mirrored_input(remote) {
                    Err(e) => {
                        self.round = Some(round);
                        let error = SyncError::RemoteInputRejected(e);
                        self.error = Some(error);
                        Err(error)
                    },
                    Ok(()) => {
                        let pushed = round.add_remote_input(local, local_packet);
                        self.round = Some(round);
                        match pushed {
                            Ok(()) => Ok(()),
                            Err(SyncError::RemoteInputRejected(e)) => {
                                let error = SyncError::LocalInputRejected(e);
                                self.error = Some(error);
                                Err(error)
                            },
                            Err(other) => {
                                proof {
                                    assert(false);
                                }
                                Err(other)
                            },
                        }
                    },
                }
            },
            None => Ok(()),
        }
    }

    /// The pair that the shadow is fed next, told from the side of the player
    /// that it plays.
    pub fn peek_shadow_input(&self) -> (pair: Option<InputPair>)
        requires
            self.wf(),
        ensures
            match self@.round {
                Some(r) => pair == r.queue.pair_at(r.queue.next_tick),
                None => pair is None,
            },
    {
        match &self.round {
            Some(round) => round.peek_input(),
            None => None,
        }
    }

    /// Takes the pair that the shadow is fed next, with the packet of the
    /// local player.
    pub fn take_shadow_input(&mut self) -> (taken: Option<(InputPair, Packet)>)
        requires
            old(self).wf(),
        ensures
            final(self).wf(),
            match old(self)@.round {
                None => taken is None && final(self)@ == old(self)@,
                Some(r) => {
                    &&& taken is Some <==> r.queue.paired() > 0
                    &&& taken matches Some(p) ==> {
                        &&& Some(p.0) == r.queue.pair_at(r.queue.next_tick)
                        &&& p.1 == r.queue.remote[0].packet
                        &&& final(self)@ == old(self)@.with_round(
                            RoundView { queue: r.queue.after_pop(), ..r },
                        )
                    }
                    &&& taken is None ==> final(self)@ == old(self)@
                },
            },
    {
        let held = self.round.take();
        match held {
            Some(mut round) => {
                let taken = round.take_input();
                self.round = Some(round);
                taken
            },
            None => None,
        }
    }

    /// The communication menu is up: the battle settings and the background
    /// are drawn from the shadow's generator and the battle is started.
    /// Nothing is drawn where there is nothing to draw from.
    pub fn on_comm_menu_init(&mut self, total_settings: u8, total_backgrounds: u8) -> (actions: Vec<
        Action,
    >)
        requires
            old(self).wf(),
        ensures
            final(self).wf(),
            old(self)@.comm_menu_init_post(
                final(self)@,
                total_settings,
                total_backgrounds,
                actions@,
            ),
    {
        let mut actions: Vec<Action> = Vec::new();
        if self.error.is_some() || total_settings == 0 || total_backgrounds == 0 {
            return actions;
        }
        let picked = random_battle_settings_and_background(
            &mut self.rng,
            total_settings,
            total_backgrounds,
        );
        actions.push(
            Action::StartBattleFromCommMenu {
                match_type: self.match_type.0,
                battle_settings: picked.0,
                background: picked.1,
            },
        );
        actions
    }

    /// The simulation reported a result for the player that the shadow
    /// plays: it is recorded as the local player perceives it.
    pub fn on_round_result(&mut self, reported: BattleResult)
        requires
            old(self).wf(),
        ensures
            final(self).wf(),
            old(self)@.round_result_post(final(self)@, reported),
    {
        if !self.has_live_round() {
            return ;
        }
        let taken = self.round.take();
        match taken {
            Some(mut round) => {
                round.record_result(reported);
                self.round = Some(round);
            },
            None => {},
        }
    }

    /// The simulation entered a round: a round is started, unless the shadow
    /// is in error. Where a round is active already, the shadow halts.
    pub fn on_round_start(&mut self)
        requires
            old(self).wf(),
        ensures
            final(self).wf(),
            old(self)@.round_start_post(final(self)@),
    {
        if self.error.is_some() {
            return ;
        }
        match self.start_round() {
            Ok(()) => {},
            Err(e) => {
                self.error = Some(e);
            },
        }
    }

    /// The simulation left the round: the round ends, and a snapshot is asked
    /// for, to be kept as the state applied at tick 0. A round that ends
    /// without a result halts the shadow.
    pub fn on_round_end_entry(&mut self) -> (actions: Vec<Action>)
        requires
            old(self).wf(),
        ensures
            final(self).wf(),
            old(self)@.round_end_entry_post(final(self)@, actions@),
    {
        let mut actions: Vec<Action> = Vec::new();
        if !self.has_live_round() {
            return actions;
        }
        let taken = self.round.take();
        match taken {
            Some(mut round) => {
                round.begin_ending();
                let finished = round.finish();
                self.round = Some(round);
                match finished {
                    Ok(_) => {},
                    Err(e) => {
                        self.error = Some(e);
                    },
                }
                actions.push(Action::SaveAppliedState { tick: 0 });
            },
            None => {},
        }
        actions
    }

    /// The game asks which player it plays: the remote player.
    pub fn on_is_p2(&self) -> (actions: Vec<Action>)
        requires
            self.wf(),
        ensures
            self@.is_p2_post(actions@),
    {
        let mut actions: Vec<Action> = Vec::new();
        if self.error.is_some() {
            return actions;
        }
        match &self.round {
            Some(round) => {
                if !round.is_ended() {
                    actions.push(
                        Action::SetGpr { index: 0, value: round.local_player_index() as i32 },
                    );
                }
            },
            None => {},
        }
        actions
    }

    /// The game reads the buttons. A round without its first snapshot has
    /// its generators seeded, from states that are drawn once, and asks to
    /// be committed. A committed round hands the buttons of the remote
    /// player to the game; a pair of another tick than the current one halts
    /// the shadow.
    pub fn on_read_joyflags(&mut self) -> (actions: Vec<Action>)
        requires
            old(self).wf(),
        ensures
            final(self).wf(),
            old(self)@.read_joyflags_post(final(self)@, actions@),
    {
        if !self.has_live_round() {
            return Vec::new();
        }
        let taken = self.round.take();
        match taken {
            Some(mut round) => {
                if !round.has_committed_state() {
                    let seeds = match round.seeds() {
                        Some(seeds) => seeds,
                        None => {
                            let plays_offerer = Role::Shadow.plays_offerer(self.is_offerer);
                            let seeds = draw_round_seeds(&mut self.rng, plays_offerer);
                            round.set_seeds(seeds);
                            seeds
                        },
                    };
                    self.round = Some(round);
                    return make_seed_actions(seeds);
                }
                let injected = round.inject_joyflags();
                self.round = Some(round);
                match injected {
                    Ok(actions) => actions,
                    Err(e) => {
                        self.error = Some(e);
                        Vec::new()
                    },
                }
            },
            None => Vec::new(),
        }
    }

    /// The game copies its link input: the pair that the shadow is fed
    /// leaves the queue and the game receives the packets of both players.
    /// A pair or a packet of another tick than the current one halts the
    /// shadow, but for a pair of the tick before, which is let pass.
    pub fn on_copy_input_data_entry(&mut self) -> (actions: Vec<Action>)
        requires
            old(self).wf(),
        ensures
            final(self).wf(),
            old(self)@.copy_input_data_entry_post(final(self)@, actions),
    {
        if !self.has_live_round() {
            return Vec::new();
        }
        let taken = self.round.take();
        match taken {
            Some(mut round) => {
                let exchanged = round.exchange_packets();
                self.round = Some(round);
                match exchanged {
                    Ok(actions) => actions,
                    Err(e) => {
                        self.error = Some(e);
                        Vec::new()
                    },
                }
            },
            None => Vec::new(),
        }
    }

    /// The game has copied its link input: the packet that the shadow wrote
    /// is kept as the remote player's packet of the next tick.
    pub fn on_copy_input_data_ret(&mut self, tx_packet: Vec<u8>)
        requires
            old(self).wf(),
        ensures
            final(self).wf(),
            old(self)@.copy_input_data_ret_post(final(self)@, tx_packet),
    {
        if !self.has_live_round() {
            return ;
        }
        let taken = self.round.take();
        match taken {
            Some(mut round) => {
                let kept = round.keep_tx_packet(tx_packet);
                self.round = Some(round);
                match kept {
                    Ok(()) => {},
                    Err(e) => {
                        self.error = Some(e);
                    },
                }
            },
            None => {},
        }
    }

    /// The simulation finished a tick: a round that holds its first snapshot
    /// moves on to the next tick.
    pub fn on_tick_end(&mut self)
        requires
            old(self).wf(),
        ensures
            final(self).wf(),
            old(self)@.tick_end_post(final(self)@),
    {
        if !self.has_live_round() {
            return ;
        }
        let taken = self.round.take();
        match taken {
            Some(mut round) => {
                let ended = round.end_tick();
                self.round = Some(round);
                match ended {
                    Ok(()) => {},
                    Err(e) => {
                        self.error = Some(e);
                    },
                }
            },
            None => {},
        }
    }

    /// Tells whether the shadow has been run as far as `goal` asks, so that
    /// whoever runs it runs another frame or stops. A shadow in error is not
    /// run any further: its error is the answer.
    pub fn advance(&self, goal: AdvanceGoal) -> (reached: Result<bool, SyncError>)
        requires
            self.wf(),
        ensures
            reached == self@.advance_result(goal),
    {
        match self.error {
            Some(e) => Err(e),
            None => match goal {
                AdvanceGoal::FirstCommittedState => match &self.round {
                    Some(round) => Ok(round.has_committed_state()),
                    None => Ok(false),
                },
                AdvanceGoal::RoundEnd => match &self.round {
                    Some(round) => Ok(round.is_ended()),
                    None => Ok(true),
                },
                AdvanceGoal::AppliedTick { tick } => match &self.applied_state {
                    Some(applied) => Ok(applied.tick >= tick),
                    None => Ok(false),
                },
            },
        }
    }

    /// Answers a trap of the shadow instance.
    pub fn on_trap(&mut self, trap: Trap, input: TrapInput) -> (actions: Vec<Action>)
        requires
            old(self).wf(),
        ensures
            final(self).wf(),
            old(self)@.trap_post(final(self)@, trap, input, actions),
    {
        match trap {
            Trap::CommMenuInitRet => self.on_comm_menu_init(
                input.total_settings,
                input.total_backgrounds,
            ),
            Trap::RoundEndSetWin => {
                self.on_round_result(BattleResult::Win);
                Vec::new()
            },
            Trap::RoundEndSetLoss => {
                self.on_round_result(BattleResult::Loss);
                Vec::new()
            },
            Trap::RoundEndDamageJudgeSetWin => {
                self.on_round_result(BattleResult::Win);
                Vec::new()
            },
            Trap::RoundEndDamageJudgeSetLoss => {
                self.on_round_result(BattleResult::Loss);
                Vec::new()
            },
            Trap::RoundEndDamageJudgeSetDraw => {
                self.on_round_result(BattleResult::Draw);
                Vec::new()
            },
            Trap::RoundStartRet => {
                self.on_round_start();
                Vec::new()
            },
            Trap::RoundEndEntry => self.on_round_end_entry(),
            Trap::BattleIsP2Tst => self.on_is_p2(),
            Trap::LinkIsP2Ret => self.on_is_p2(),
            Trap::InBattleCallHandleLinkCableInput => link_cable_actions(input.pc, 2),
            Trap::MainReadJoyflags => self.on_read_joyflags(),
            Trap::CopyInputDataEntry => self.on_copy_input_data_entry(),
            Trap::CopyInputDataRet => {
                self.on_copy_input_data_ret(input.tx_packet);
                Vec::new()
            },
            Trap::RoundCallJumpTableRet => {
                self.on_tick_end();
                Vec::new()
            },
            Trap::MatchEndRet => Vec::new(),
            Trap::RoundSetEnding => Vec::new(),
            _ => common_trap_actions(trap, input.pc),
        }
    }
}

} // verus!
