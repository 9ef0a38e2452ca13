//! A match: the generator that both peers share, the role of the local peer,
//! the current round, and what the primary instance's traps decide.

use crate::action::{
    common_trap_actions, link_cable_actions, spec_common_trap_actions, spec_link_cable_actions,
    Action, Trap, TrapInput,
};
use crate::lockstep::{JoyInput, Packet};
use crate::rng::{
    draw_round_seeds, is_round_seeds, random_battle_settings_and_background, rng_from_seed,
    spec_after_battle_settings_and_background, spec_after_round_seeds,
    spec_battle_settings_and_background, spec_draw_round_seeds, spec_rng_from_seed,
    RngSeeds,
};
use crate::round::{
    BattleResult, Role, Round, RoundConfig, RoundPhase, RoundView, Snapshot, SyncError,
};
use rand_pcg::Mcg128Xsl64;
use vstd::prelude::*;

verus! {

/// What a [`Match`] holds.
pub struct MatchView {
    pub rng: Mcg128Xsl64,
    pub is_offerer: bool,
    pub match_type: (u8, u8),
    pub config: RoundConfig,
    pub round: Option<RoundView>,
    pub cancelled: bool,
    pub error: Option<SyncError>,
}

/// What a diagnostic display reads of the current round.
#[derive(Clone, Copy, Debug, PartialEq, Eq, Structural)]
pub struct Diagnostics {
    pub current_tick: u32,
    pub local_player_index: u8,
    pub local_queue_length: usize,
    pub local_delay: u32,
    pub remote_queue_length: usize,
    pub remote_delay: u32,
    pub tps_adjustment: i32,
    pub last_result: BattleResult,
}

/// What a diagnostic display reads of a round.
pub open spec fn spec_diagnostics(r: RoundView) -> Diagnostics {
    Diagnostics {
        current_tick: r.current_tick,
        local_player_index: r.local_player_index,
        local_queue_length: r.queue.local.len() as usize,
        local_delay: r.queue.local_delay as u32,
        remote_queue_length: r.queue.remote.len() as usize,
        remote_delay: r.queue.remote_delay as u32,
        tps_adjustment: r.queue.tps_adjustment() as i32,
        last_result: r.last_result,
    }
}

/// What the traps of a round without its first snapshot ask for: the three
/// generators are seeded, then the round is committed.
pub open spec fn seed_actions(seeds: RngSeeds) -> Seq<Action> {
    seq![
        Action::SetRng1State { state: seeds.rng1 },
        Action::SetRng2State { state: seeds.rng2 },
        Action::SetRng3State { state: seeds.rng2 },
        Action::SaveFirstCommittedState,
    ]
}

/// The actions of `seed_actions`, as a vector.
pub fn make_seed_actions(seeds: RngSeeds) -> (actions: Vec<Action>)
    ensures
        actions@ == seed_actions(seeds),
{
    let mut actions: Vec<Action> = Vec::new();
    actions.push(Action::SetRng1State { state: seeds.rng1 });
    actions.push(Action::SetRng2State { state: seeds.rng2 });
    actions.push(Action::SetRng3State { state: seeds.rng2 });
    actions.push(Action::SaveFirstCommittedState);
    actions
}

impl MatchView {
    /// The index of the local player: the offerer is the first player.
    pub open spec fn local_player_index(self) -> u8 {
        if self.is_offerer {
            0
        } else {
            1
        }
    }

    /// The round is a primary round of the local player, and a match in
    /// error is cancelled.
    pub open spec fn wf(self) -> bool {
        &&& self.config.valid()
        &&& self.error is Some ==> self.cancelled
        &&& self.round matches Some(r) ==> {
            &&& r.wf()
            &&& r.role == Role::Primary
            &&& r.local_player_index == self.local_player_index()
        }
    }

    /// The round that the traps act on: none once the match is cancelled or
    /// the round has ended.
    pub open spec fn live_round(self) -> Option<RoundView> {
        if self.cancelled {
            None
        } else {
            match self.round {
                Some(r) => if r.phase == RoundPhase::Ended {
                    None
                } else {
                    Some(r)
                },
                None => None,
            }
        }
    }

    /// Whether `after` is this match with a new round in place of its round.
    pub open spec fn starts_round(self, after: MatchView) -> bool {
        &&& after.round matches Some(r)
        &&& r.is_new(Role::Primary, self.local_player_index(), self.config)
        &&& after == self.with_round(r)
    }

    /// The match with `round` in place of its round.
    pub open spec fn with_round(self, round: RoundView) -> MatchView {
        MatchView { round: Some(round), ..self }
    }

    /// The match after it gave up for `error`.
    pub open spec fn failed(self, error: SyncError) -> MatchView {
        MatchView { error: Some(error), cancelled: true, ..self }
    }

    /// What supplying the input of the current tick does to a match with a
    /// live, committed round, and what it asks for.
    pub open spec fn supply_outcome(self) -> (MatchView, Seq<Action>) {
        let r = self.round.unwrap();
        if r.input_injected {
            (self, Seq::<Action>::empty())
        } else if r.queue.paired() == 0 {
            (self, seq![Action::AwaitRemoteInput { tick: r.current_tick }])
        } else if r.queue.next_tick != r.current_tick {
            (
                self.failed(
                    SyncError::InputTickMismatch {
                        input_tick: r.queue.next_tick as u32,
                        current_tick: r.current_tick,
                    },
                ),
                Seq::<Action>::empty(),
            )
        } else {
            (
                self.with_round(
                    RoundView { queue: r.queue.after_pop(), input_injected: true, ..r },
                ),
                seq![
                    Action::SupplyInput {
                        pair: r.queue.pair_at(r.queue.next_tick).unwrap(),
                        payload: r.queue.remote[0].packet.payload,
                    },
                ],
            )
        }
    }

    /// What the end of a tick does to a match with a live, committed round.
    pub open spec fn tick_end_outcome(self) -> MatchView {
        let r = self.round.unwrap();
        if !r.input_injected {
            self.failed(SyncError::InputNotSupplied { current_tick: r.current_tick })
        } else if r.current_tick == u32::MAX {
            self.failed(SyncError::TickLimit)
        } else {
            self.with_round(
                RoundView {
                    current_tick: (r.current_tick + 1) as u32,
                    phase: r.phase_after_tick(),
                    input_injected: false,
                    ..r
                },
            )
        }
    }
}

impl MatchView {
    /// How `on_comm_menu_init` leaves the match, and what it asks for.
    pub open spec fn comm_menu_init_post(
        self,
        after: MatchView,
        total_settings: u8,
        total_backgrounds: u8,
        actions: Seq<Action>,
    ) -> bool {
        if self.cancelled || total_settings == 0 || total_backgrounds == 0 {
            &&& after == self
            &&& actions.len() == 0
        } else {
            let picked = spec_battle_settings_and_background(
                self.rng,
                total_settings,
                total_backgrounds,
            );
            &&& after == (MatchView {
                rng: spec_after_battle_settings_and_background(
                    self.rng,
                    total_settings,
                    total_backgrounds,
                ),
                ..self
            })
            &&& actions == seq![
                Action::StartBattleFromCommMenu {
                    match_type: self.match_type.0,
                    battle_settings: picked.0,
                    background: picked.1,
                },
            ]
            &&& picked.0 < total_settings
            &&& picked.1 < total_backgrounds
        }
    }

    /// How `on_round_result` leaves the match.
    pub open spec fn round_result_post(self, after: MatchView, reported: BattleResult) -> bool {
        match self.live_round() {
            Some(r) => after == self.with_round(
                RoundView { last_result: r.recorded_result(reported), ..r },
            ),
            None => after == self,
        }
    }

    /// How `on_round_set_ending` leaves the match, and what it asks for.
    pub open spec fn round_set_ending_post(self, after: MatchView, actions: Seq<Action>) -> bool {
        match self.live_round() {
            Some(r) => {
                let ended = self.with_round(RoundView { phase: RoundPhase::Ended, ..r });
                if r.last_result == BattleResult::Unknown {
                    &&& after == ended.failed(SyncError::ResultUnknown)
                    &&& actions.len() == 0
                } else {
                    &&& after == ended
                    &&& actions == seq![Action::AdvanceShadowUntilRoundEnd]
                }
            },
            None => after == self && actions.len() == 0,
        }
    }

    /// How `on_round_start` leaves the match.
    pub open spec fn round_start_post(self, after: MatchView) -> bool {
        if self.cancelled {
            after == self
        } else if self.live_round() is Some {
            after == self.failed(SyncError::RoundAlreadyActive)
        } else {
            self.starts_round(after)
        }
    }

    /// What `on_is_p2` asks for.
    pub open spec fn is_p2_post(self, actions: Seq<Action>) -> bool {
        match self.live_round() {
            Some(r) => actions == seq![
                Action::SetGpr { index: 0, value: r.local_player_index as i32 },
            ],
            None => actions.len() == 0,
        }
    }

    /// How `supply_input` leaves the match, and what it asks for.
    pub open spec fn supply_input_post(self, after: MatchView, actions: Seq<Action>) -> bool {
        match self.live_round() {
            Some(r) => if r.committed_state is Some {
                (after, actions) == self.supply_outcome()
            } else {
                after == self && actions.len() == 0
            },
            None => after == self && actions.len() == 0,
        }
    }

    /// How `on_read_joyflags` leaves the match, and what it asks for.
    pub open spec fn read_joyflags_post(
        self,
        after: MatchView,
        joyflags: u16,
        tx_packet: Vec<u8>,
        actions: Seq<Action>,
    ) -> bool {
        match self.live_round() {
            None => after == self && actions.len() == 0,
            Some(r) => if r.committed_state is None {
                match r.seeds {
                    Some(seeds) => after == self && actions == seed_actions(
                        seeds,
                    ),
                    None => {
                        let seeds = spec_draw_round_seeds(
                            self.rng,
                            Role::Primary.spec_plays_offerer(self.is_offerer),
                        );
                        &&& after == (MatchView {
                            rng: spec_after_round_seeds(self.rng),
                            round: Some(RoundView { seeds: Some(seeds), ..r }),
                            ..self
                        })
                        &&& actions == seed_actions(seeds)
                        &&& is_round_seeds(seeds)
                    },
                }
            } else {
                match r.add_local_input_result(joyflags) {
                    Err(e) => after == self.failed(e) && actions.len() == 0,
                    Ok(input) => {
                        let queued = self.with_round(
                            RoundView {
                                queue: crate::lockstep::QueueView {
                                    local: r.queue.local.push(input),
                                    ..r.queue
                                },
                                ..r
                            },
                        );
                        &&& after == queued.supply_outcome().0
                        &&& actions == seq![Action::SendInput { input, payload: tx_packet }]
                            + queued.supply_outcome().1
                    },
                }
            },
        }
    }

    /// How `on_tick_end` leaves the match.
    pub open spec fn tick_end_post(self, after: MatchView) -> bool {
        match self.live_round() {
            Some(r) => if r.committed_state is Some {
                after == self.tick_end_outcome()
            } else {
                after == self
            },
            None => after == self,
        }
    }
}

impl MatchView {
    /// How the trap `trap` of the primary instance leaves the match, and
    /// what it asks for.
    pub open spec fn trap_post(
        self,
        after: MatchView,
        trap: Trap,
        input: TrapInput,
        actions: Seq<Action>,
    ) -> bool {
        match trap {
            Trap::CommMenuInitRet => self.comm_menu_init_post(
                after,
                input.total_settings,
                input.total_backgrounds,
                actions,
            ),
            Trap::MatchEndRet => after == self && actions == seq![Action::CompleteMatch],
            Trap::RoundEndSetWin => self.round_result_post(after, BattleResult::Win)
                && actions.len() == 0,
            Trap::RoundEndSetLoss => self.round_result_post(after, BattleResult::Loss)
                && actions.len() == 0,
            Trap::RoundEndDamageJudgeSetWin => self.round_result_post(after, BattleResult::Win)
                && actions.len() == 0,
            Trap::RoundEndDamageJudgeSetLoss => self.round_result_post(after, BattleResult::Loss)
                && actions.len() == 0,
            Trap::RoundEndDamageJudgeSetDraw => self.round_result_post(after, BattleResult::Draw)
                && actions.len() == 0,
            Trap::RoundSetEnding => self.round_set_ending_post(after, actions),
            Trap::RoundStartRet => self.round_start_post(after) && actions.len() == 0,
            Trap::BattleIsP2Tst => after == self && self.is_p2_post(actions),
            Trap::LinkIsP2Ret => after == self && self.is_p2_post(actions),
            Trap::InBattleCallHandleLinkCableInput => after == self && actions
                == spec_link_cable_actions(input.pc, 2),
            Trap::MainReadJoyflags => self.read_joyflags_post(
                after,
                input.joyflags,
                input.tx_packet,
                actions,
            ),
            Trap::RoundCallJumpTableRet => self.tick_end_post(after) && actions.len() == 0,
            _ => after == self && actions == spec_common_trap_actions(trap, input.pc),
        }
    }
}

/// What a trap of the primary instance asks for while there is no match.
pub open spec fn spec_unmatched_trap_actions(trap: Trap, pc: u32) -> Seq<Action> {
    match trap {
        Trap::MatchEndRet => seq![Action::CompleteMatch],
        Trap::InBattleCallHandleLinkCableInput => spec_link_cable_actions(pc, 4),
        _ => spec_common_trap_actions(trap, pc),
    }
}

/// A cancelled match is left as it is by every trap of the primary
/// instance.
pub proof fn lemma_cancelled_match_is_not_advanced(
    before: MatchView,
    after: MatchView,
    trap: Trap,
    input: TrapInput,
    actions: Seq<Action>,
)
    requires
        before.cancelled,
        before.trap_post(after, trap, input, actions),
    ensures
        after == before,
{
}

/// The state of a match on the local peer.
pub struct Match {
    rng: Mcg128Xsl64,
    is_offerer: bool,
    match_type: (u8, u8),
    config: RoundConfig,
    round: Option<Round>,
    cancelled: bool,
    error: Option<SyncError>,
}

impl View for Match {
    type V = MatchView;

    closed spec fn view(&self) -> MatchView {
        MatchView {
            rng: self.rng,
            is_offerer: self.is_offerer,
            match_type: self.match_type,
            config: self.config,
            round: match self.round {
                Some(r) => Some(r@),
                None => None,
            },
            cancelled: self.cancelled,
            error: self.error,
        }
    }
}

impl Match {
    /// The invariant of the match.
    pub open spec fn wf(&self) -> bool {
        self@.wf()
    }

    /// Makes a match without a round, with the shared generator seeded from
    /// the negotiated seed: one seed gives one generator, on either peer.
    pub fn new(
        seed: [u8; 16],
        is_offerer: bool,
        match_type: (u8, u8),
        config: RoundConfig,
    ) -> (made: Result<Match, SyncError>)
        ensures
            made is Ok <==> config.valid(),
            made matches Err(e) ==> e == SyncError::InvalidConfig,
            made matches Ok(m) ==> m.wf() && m@ == (MatchView {
                rng: spec_rng_from_seed(seed@),
                is_offerer,
                match_type,
                config,
                round: None,
                cancelled: false,
                error: None,
            }),
    {
        if !config.is_valid() {
            return Err(SyncError::InvalidConfig);
        }
        let rng = rng_from_seed(seed);
        Ok(
            Match {
                rng,
                is_offerer,
                match_type,
                config,
                round: None,
                cancelled: false,
                error: None,
            },
        )
    }

    /// Whether the local peer made the offer.
    pub fn is_offerer(&self) -> (is_offerer: bool)
        ensures
            is_offerer == self@.is_offerer,
    {
        self.is_offerer
    }

    /// The kind of match that the peers agreed on.
    pub fn match_type(&self) -> (match_type: (u8, u8))
        ensures
            match_type == self@.match_type,
    {
        self.match_type
    }

    /// The index of the local player.
    pub fn local_player_index(&self) -> (index: u8)
        ensures
            index == self@.local_player_index(),
    {
        if self.is_offerer {
            0
        } else {
            1
        }
    }

    /// Whether the match is cancelled.
    pub fn is_cancelled(&self) -> (cancelled: bool)
        ensures
            cancelled == self@.cancelled,
    {
        self.cancelled
    }

    /// The error that the match gave up for.
    pub fn error(&self) -> (error: Option<SyncError>)
        ensures
            error == self@.error,
    {
        self.error
    }

    /// The current round, or the last one once it has ended.
    pub fn round(&self) -> (round: &Option<Round>)
        ensures
            match *round {
                Some(r) => self@.round == Some(r@),
                None => self@.round is None,
            },
    {
        &self.round
    }

    /// Cancels the match. A cancelled match stays cancelled.
    pub fn cancel(&mut self)
        ensures
            final(self)@ == (MatchView { cancelled: true, ..old(self)@ }),
    {
        self.cancelled = true;
    }

    /// Gives up for `error`: the error is kept and the match is cancelled.
    fn fail(&mut self, error: SyncError)
        ensures
            final(self)@ == old(self)@.failed(error),
    {
        self.error = Some(error);
        self.cancelled = true;
    }

    /// Whether the traps have a round to act on.
    fn has_live_round(&self) -> (live: bool)
        ensures
            live == (self@.live_round() is Some),
    {
        if self.cancelled {
            return false;
        }
        match &self.round {
            Some(r) => !r.is_ended(),
            None => false,
        }
    }

    /// Starts a round with the player indices that the role gives. It fails
    /// while a round is active.
    pub fn start_round(&mut self) -> (started: Result<(), SyncError>)
        requires
            old(self).wf(),
        ensures
            final(self).wf(),
            started is Err <==> (old(self)@.round matches Some(r) && r.phase
                != RoundPhase::Ended),
            started matches Err(e) ==> e == SyncError::RoundAlreadyActive && final(self)@ == old(
                self,
            )@,
            started is Ok ==> old(self)@.starts_round(final(self)@),
    {
        let active = match &self.round {
            Some(r) => !r.is_ended(),
            None => false,
        };
        if active {
            return Err(SyncError::RoundAlreadyActive);
        }
        let index = self.local_player_index();
        match Round::new(Role::Primary, index, self.config) {
            Ok(round) => {
                self.round = Some(round);
                Ok(())
            },
            Err(_) => {
                proof {
                    assert(false);
                }
                Err(SyncError::RoundAlreadyActive)
            },
        }
    }

    /// Commits the live round with the snapshots taken after the generators
    /// were seeded. Nothing happens unless the round is live, seeded and not
    /// yet committed.
    pub fn commit_round(
        &mut self,
        state: Snapshot,
        shadow_state: Snapshot,
        first_packet: Vec<u8>,
    ) -> (committed: bool)
        requires
            old(self).wf(),
        ensures
            final(self).wf(),
            committed == (old(self)@.live_round() matches Some(r) && r.phase
                == RoundPhase::Uncommitted && r.seeds is Some),
            committed ==> final(self)@ == old(self)@.with_round(
                RoundView {
                    committed_state: Some(
                        crate::round::CommittedState { state, shadow_state: Some(shadow_state) },
                    ),
                    phase: RoundPhase::Committed,
                    tx_packet: Some(
                        Packet {
                            tick: old(self)@.round.unwrap().current_tick,
                            payload: first_packet,
                        },
                    ),
                    ..old(self)@.round.unwrap()
                },
            ),
            !committed ==> final(self)@ == old(self)@,
    {
        if !self.has_live_round() {
            return false;
        }
        let taken = self.round.take();
        match taken {
            Some(mut round) => {
                let committed = if round.seeds().is_some() {
                    round.set_first_committed_state(state, Some(shadow_state), first_packet)
                } else {
                    false
                };
                self.round = Some(round);
                committed
            },
            None => false,
        }
    }

    /// Takes in an input of the remote player with its packet. An input that
    /// the queue refuses is a desync: the match gives up.
    pub fn receive_remote_input(&mut self, input: JoyInput, packet: Packet) -> (received: Result<
        (),
        SyncError,
    >)
        requires
            old(self).wf(),
        ensures
            final(self).wf(),
            match old(self)@.live_round() {
                Some(r) => {
                    &&& received == r.add_remote_input_result(input, packet.tick)
                    &&& received is Ok ==> final(self)@ == old(self)@.with_round(
                        RoundView {
                            queue: crate::lockstep::QueueView {
                                remote: r.queue.remote.push(
                                    crate::lockstep::RemoteInput { input, packet },
                                ),
                                ..r.queue
                            },
                            ..r
                        },
                    )
                    &&& received matches Err(e) ==> final(self)@ == old(self)@.failed(e)
                },
                None => received is Ok && final(self)@ == old(self)@,
            },
    {
        if !self.has_live_round() {
            return Ok(());
        }
        let taken = self.round.take();
        match taken {
            Some(mut round) => {
                let added = round.add_remote_input(input, packet);
                self.round = Some(round);
                match added {
                    Ok(()) => Ok(()),
                    Err(e) => {
                        self.fail(e);
                        Err(e)
                    },
                }
            },
            None => Ok(()),
        }
    }

    /// The communication menu is up: the battle settings and the background
    /// are drawn from the shared generator and the battle is started. Nothing
    /// is drawn where there is nothing to draw from.
    pub fn on_comm_menu_init(&mut self, total_settings: u8, total_backgrounds: u8) -> (actions: Vec<
        Action,
    >)
        requires
            old(self).wf(),
        ensures
            final(self).wf(),
            old(self)@.comm_menu_init_post(
                final(self)@,
                total_settings,
                total_backgrounds,
                actions@,
            ),
    {
        let mut actions: Vec<Action> = Vec::new();
        if self.cancelled || total_settings == 0 || total_backgrounds == 0 {
            return actions;
        }
        let picked = random_battle_settings_and_background(
            &mut self.rng,
            total_settings,
            total_backgrounds,
        );
        actions.push(
            Action::StartBattleFromCommMenu {
                match_type: self.match_type.0,
                battle_settings: picked.0,
                background: picked.1,
            },
        );
        actions
    }

    /// The simulation reported a result for the local player.
    pub fn on_round_result(&mut self, reported: BattleResult)
        requires
            old(self).wf(),
        ensures
            final(self).wf(),
            old(self)@.round_result_post(final(self)@, reported),
    {
        if !self.has_live_round() {
            return ;
        }
        let taken = self.round.take();
        match taken {
            Some(mut round) => {
                round.record_result(reported);
                self.round = Some(round);
            },
            None => {},
        }
    }

    /// The simulation signalled that the round is over: the round ends, and
    /// the shadow is asked to catch up. A round that ends without a result is
    /// in error, and the match gives up.
    pub fn on_round_set_ending(&mut self) -> (actions: Vec<Action>)
        requires
            old(self).wf(),
        ensures
            final(self).wf(),
            old(self)@.round_set_ending_post(final(self)@, actions@),
    {
        let mut actions: Vec<Action> = Vec::new();
        if !self.has_live_round() {
            return actions;
        }
        let taken = self.round.take();
        match taken {
            Some(mut round) => {
                round.begin_ending();
                let finished = round.finish();
                self.round = Some(round);
                match finished {
                    Ok(_) => {
                        actions.push(Action::AdvanceShadowUntilRoundEnd);
                    },
                    Err(e) => {
                        self.fail(e);
                    },
                }
            },
            None => {},
        }
        actions
    }

    /// The simulation entered a round: a round is started, unless the match
    /// is cancelled. Where a round is active already, the match gives up.
    pub fn on_round_start(&mut self)
        requires
            old(self).wf(),
        ensures
            final(self).wf(),
            old(self)@.round_start_post(final(self)@),
    {
        if self.cancelled {
            return ;
        }
        match self.start_round() {
            Ok(()) => {},
            Err(e) => {
                self.fail(e);
            },
        }
    }

    /// The game asks which player it plays: the local player.
    pub fn on_is_p2(&self) -> (actions: Vec<Action>)
        requires
            self.wf(),
        ensures
            self@.is_p2_post(actions@),
    {
        let mut actions: Vec<Action> = Vec::new();
        if self.cancelled {
            return actions;
        }
        match &self.round {
            Some(round) => {
                if !round.is_ended() {
                    actions.push(
                        Action::SetGpr { index: 0, value: round.local_player_index() as i32 },
                    );
                }
            },
            None => {},
        }
        actions
    }

    /// Hands the pair of the current tick to the simulation, or asks to wait
    /// for the remote input where it has not arrived. A pair stamped with
    /// another tick than the current one is a desync.
    pub fn supply_input(&mut self) -> (actions: Vec<Action>)
        requires
            old(self).wf(),
        ensures
            final(self).wf(),
            old(self)@.supply_input_post(final(self)@, actions@),
    {
        let mut actions: Vec<Action> = Vec::new();
        if !self.has_live_round() {
            return actions;
        }
        let taken = self.round.take();
        match taken {
            Some(mut round) => {
                if !round.has_committed_state() || round.input_injected() {
                    self.round = Some(round);
                    return actions;
                }
                match round.peek_input() {
                    None => {
                        actions.push(Action::AwaitRemoteInput { tick: round.current_tick() });
                        self.round = Some(round);
                    },
                    Some(pair) => {
                        if pair.local.local_tick != round.current_tick() {
                            let error = SyncError::InputTickMismatch {
                                input_tick: pair.local.local_tick,
                                current_tick: round.current_tick(),
                            };
                            self.round = Some(round);
                            self.fail(error);
                        } else {
                            let popped = round.take_input();
                            round.set_input_injected();
                            self.round = Some(round);
                            match popped {
                                Some(p) => {
                                    actions.push(
                                        Action::SupplyInput { pair: p.0, payload: p.1.payload },
                                    );
                                },
                                None => {},
                            }
                        }
                    },
                }
            },
            None => {},
        }
        actions
    }

    /// The game reads the buttons. A round without its first snapshot has
    /// its generators seeded, from states that are drawn once, and asks to
    /// be committed. A committed round queues the local input, sends it to
    /// the peer and supplies the input of the current tick. A local input
    /// that the queue refuses is a desync.
    pub fn on_read_joyflags(&mut self, joyflags: u16, tx_packet: Vec<u8>) -> (actions: Vec<Action>)
        requires
            old(self).wf(),
        ensures
            final(self).wf(),
            old(self)@.read_joyflags_post(final(self)@, joyflags, tx_packet, actions@),
    {
        if !self.has_live_round() {
            return Vec::new();
        }
        let taken = self.round.take();
        match taken {
            Some(mut round) => {
                if !round.has_committed_state() {
                    let seeds = match round.seeds() {
                        Some(seeds) => seeds,
                        None => {
                            let plays_offerer = Role::Primary.plays_offerer(self.is_offerer);
                            let seeds = draw_round_seeds(&mut self.rng, plays_offerer);
                            round.set_seeds(seeds);
                            seeds
                        },
                    };
                    self.round = Some(round);
                    return make_seed_actions(seeds);
                }
                let added = round.add_local_input(joyflags);
                self.round = Some(round);
                match added {
                    Err(e) => {
                        self.fail(e);
                        Vec::new()
                    },
                    Ok(input) => {
                        let mut actions: Vec<Action> = Vec::new();
                        actions.push(Action::SendInput { input, payload: tx_packet });
                        let mut supplied = self.supply_input();
                        actions.append(&mut supplied);
                        actions
                    },
                }
            },
            None => Vec::new(),
        }
    }

    /// The simulation finished a tick: the round moves on to the next tick.
    /// A tick that ends before its input was supplied is a desync.
    pub fn on_tick_end(&mut self)
        requires
            old(self).wf(),
        ensures
            final(self).wf(),
            old(self)@.tick_end_post(final(self)@),
    {
        if !self.has_live_round() {
            return ;
        }
        let taken = self.round.take();
        match taken {
            Some(mut round) => {
                if !round.has_committed_state() {
                    self.round = Some(round);
                    return ;
                }
                if !round.input_injected() {
                    let error = SyncError::InputNotSupplied { current_tick: round.current_tick() };
                    self.round = Some(round);
                    self.fail(error);
                } else if round.current_tick() == u32::MAX {
                    self.round = Some(round);
                    self.fail(SyncError::TickLimit);
                } else {
                    round.increment_current_tick();
                    let _ = round.take_input_injected();
                    self.round = Some(round);
                }
            },
            None => {},
        }
    }

    /// What a diagnostic display reads of the current round.
    pub fn diagnostics(&self) -> (diagnostics: Option<Diagnostics>)
        requires
            self.wf(),
        ensures
            diagnostics == (match self@.round {
                Some(r) => Some(spec_diagnostics(r)),
                None => None,
            }),
    {
        match &self.round {
            Some(round) => Some(
                Diagnostics {
                    current_tick: round.current_tick(),
                    local_player_index: round.local_player_index(),
                    local_queue_length: round.local_queue_length(),
                    local_delay: round.local_delay(),
                    remote_queue_length: round.remote_queue_length(),
                    remote_delay: round.remote_delay(),
                    tps_adjustment: round.tps_adjustment(),
                    last_result: round.last_result(),
                },
            ),
            None => None,
        }
    }

    /// The adjustment of the pace, in ticks per second: that of the current
    /// round, and none without a round.
    pub fn tps_adjustment(&self) -> (adjustment: i32)
        requires
            self.wf(),
        ensures
            adjustment == (match self@.round {
                Some(r) => r.queue.tps_adjustment(),
                None => 0,
            }),
    {
        match &self.round {
            Some(round) => round.tps_adjustment(),
            None => 0,
        }
    }

    /// Answers a trap of the primary instance.
    pub fn on_trap(&mut self, trap: Trap, input: TrapInput) -> (actions: Vec<Action>)
        requires
            old(self).wf(),
        ensures
            final(self).wf(),
            old(self)@.trap_post(final(self)@, trap, input, actions@),
    {
        match trap {
            Trap::CommMenuInitRet => self.on_comm_menu_init(
                input.total_settings,
                input.total_backgrounds,
            ),
            Trap::MatchEndRet => {
                let mut actions: Vec<Action> = Vec::new();
                actions.push(Action::CompleteMatch);
                actions
            },
            Trap::RoundEndSetWin => {
                self.on_round_result(BattleResult::Win);
                Vec::new()
            },
            Trap::RoundEndSetLoss => {
                self.on_round_result(BattleResult::Loss);
                Vec::new()
            },
            Trap::RoundEndDamageJudgeSetWin => {
                self.on_round_result(BattleResult::Win);
                Vec::new()
            },
            Trap::RoundEndDamageJudgeSetLoss => {
                self.on_round_result(BattleResult::Loss);
                Vec::new()
            },
            Trap::RoundEndDamageJudgeSetDraw => {
                self.on_round_result(BattleResult::Draw);
                Vec::new()
            },
            Trap::RoundSetEnding => self.on_round_set_ending(),
            Trap::RoundStartRet => {
                self.on_round_start();
                Vec::new()
            },
            Trap::BattleIsP2Tst => self.on_is_p2(),
            Trap::LinkIsP2Ret => self.on_is_p2(),
            Trap::InBattleCallHandleLinkCableInput => link_cable_actions(input.pc, 2),
            Trap::MainReadJoyflags => self.on_read_joyflags(input.joyflags, input.tx_packet),
            Trap::RoundCallJumpTableRet => {
                self.on_tick_end();
                Vec::new()
            },
            _ => common_trap_actions(trap, input.pc),
        }
    }
}

/// Answers a trap of the primary instance, with or without a match.
pub fn on_primary_trap(match_: &mut Option<Match>, trap: Trap, input: TrapInput) -> (actions: Vec<
    Action,
>)
    requires
        *old(match_) matches Some(m) ==> m.wf(),
    ensures
        match *old(match_) {
            Some(before) => {
                &&& *final(match_) matches Some(after)
                &&& after.wf()
                &&& before@.trap_post(after@, trap, input, actions@)
            },
            None => {
                &&& *final(match_) is None
                &&& actions@ == spec_unmatched_trap_actions(trap, input.pc)
            },
        },
{
    let taken = match_.take();
    match taken {
        Some(mut held) => {
            let actions = held.on_trap(trap, input);
            *match_ = Some(held);
            actions
        },
        None => match trap {
            Trap::MatchEndRet => {
                let mut actions: Vec<Action> = Vec::new();
                actions.push(Action::CompleteMatch);
                actions
            },
            Trap::InBattleCallHandleLinkCableInput => link_cable_actions(input.pc, 4),
            _ => common_trap_actions(trap, input.pc),
        },
    }
}

} // verus!
