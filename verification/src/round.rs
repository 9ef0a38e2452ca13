//! One round of synchronized play: its tick counter, its committed state,
//! its input queue and its result.

use crate::action::{joyflags_register, spec_joyflags_register, Action};
use crate::lockstep::{InputPair, JoyInput, Packet, Queue, QueueError, QueueView, RemoteInput};
use crate::rng::RngSeeds;
use vstd::prelude::*;

verus! {

/// How a round came out for the local player.
#[derive(Clone, Copy, Debug, PartialEq, Eq, Structural)]
pub enum BattleResult {
    Win,
    Loss,
    Draw,
    Unknown,
}

/// Where a round stands in its life.
#[derive(Clone, Copy, Debug, PartialEq, Eq, Structural)]
pub enum RoundPhase {
    /// No snapshot of the simulation has been taken yet.
    Uncommitted,
    /// The first snapshot has been taken and no tick has passed since.
    Committed,
    /// Ticks are passing.
    Running,
    /// The simulation has signalled that the round is concluding.
    Ending,
    /// The simulation has signalled that the round has concluded.
    Ended,
}

/// Which of the two simulation instances a round drives.
#[derive(Clone, Copy, Debug, PartialEq, Eq, Structural)]
pub enum Role {
    /// The instance that the local player sees. Its round is told from the
    /// local player's side.
    Primary,
    /// The second instance, which plays the remote player. Its round is told
    /// from the remote player's side: local and remote are swapped.
    Shadow,
}

/// Why the engine gave up on a round, a match or a replay.
#[derive(Clone, Copy, Debug, PartialEq, Eq, Structural)]
pub enum SyncError {
    /// A player index is not 0 or 1, or the queue cannot be made as configured.
    InvalidConfig,
    /// A round is active already.
    RoundAlreadyActive,
    /// The queue refused a local input.
    LocalInputRejected(QueueError),
    /// The queue refused a remote input.
    RemoteInputRejected(QueueError),
    /// The two inputs of a pair are stamped with different ticks.
    TickMismatch { current_tick: u32, local_tick: u32, remote_tick: u32 },
    /// A pair is stamped with another tick than the current one.
    InputTickMismatch { input_tick: u32, current_tick: u32 },
    /// A packet is stamped with another tick than the current one.
    PacketTickMismatch { packet_tick: u32, current_tick: u32 },
    /// The simulation asked for its own packet of the current tick and none is kept.
    MissingPacket { current_tick: u32 },
    /// The simulation finished a tick whose inputs it was never given.
    InputNotSupplied { current_tick: u32 },
    /// The recorded inputs ran out while the round was still running.
    InputExhausted { current_tick: u32 },
    /// The round concluded and no result was ever seen.
    ResultUnknown,
    /// The tick counter cannot count any further.
    TickLimit,
}

/// A snapshot of a simulation, as the simulation wrote it.
#[derive(Debug, PartialEq, Eq)]
pub struct Snapshot {
    pub bytes: Vec<u8>,
}

/// The snapshots taken when a round was committed.
#[derive(Debug, PartialEq, Eq)]
pub struct CommittedState {
    /// The snapshot of the instance that the round drives.
    pub state: Snapshot,
    /// The snapshot of the shadow instance, kept by the primary round.
    pub shadow_state: Option<Snapshot>,
}

/// How the queue of a round is made.
#[derive(Clone, Copy, Debug, PartialEq, Eq, Structural)]
pub struct RoundConfig {
    pub max_queue_length: usize,
    pub local_delay: u32,
    pub remote_delay: u32,
    pub max_tps_multiplier: u32,
}

impl RoundConfig {
    /// Whether a queue can be made from this configuration.
    pub open spec fn valid(self) -> bool {
        &&& 0 < self.max_queue_length
        &&& self.local_delay <= self.max_queue_length
        &&& self.remote_delay <= self.max_queue_length
    }

    /// The configuration as the other player has it: the delays are swapped.
    pub open spec fn spec_mirrored(self) -> RoundConfig {
        RoundConfig {
            local_delay: self.remote_delay,
            remote_delay: self.local_delay,
            ..self
        }
    }

    /// The configuration as the other player has it: the delays are swapped.
    pub fn mirrored(&self) -> (mirrored: RoundConfig)
        ensures
            mirrored == self.spec_mirrored(),
            mirrored.valid() == self.valid(),
    {
        RoundConfig {
            max_queue_length: self.max_queue_length,
            local_delay: self.remote_delay,
            remote_delay: self.local_delay,
            max_tps_multiplier: self.max_tps_multiplier,
        }
    }

    /// Tells whether a queue can be made from this configuration.
    pub fn is_valid(&self) -> (valid: bool)
        ensures
            valid == self.valid(),
    {
        self.max_queue_length > 0 && self.local_delay as u64 <= self.max_queue_length as u64
            && self.remote_delay as u64 <= self.max_queue_length as u64
    }
}

impl Role {
    /// A result that the simulation reported for the player it plays, as the
    /// local player perceives it.
    pub open spec fn spec_perceived(self, result: BattleResult) -> BattleResult {
        match self {
            Role::Primary => result,
            Role::Shadow => match result {
                BattleResult::Win => BattleResult::Loss,
                BattleResult::Loss => BattleResult::Win,
                other => other,
            },
        }
    }

    /// Whether the instance plays the player who made the offer.
    pub open spec fn spec_plays_offerer(self, is_offerer: bool) -> bool {
        match self {
            Role::Primary => is_offerer,
            Role::Shadow => !is_offerer,
        }
    }

    /// Tells whether the instance plays the player who made the offer, given
    /// whether the local peer made it.
    pub fn plays_offerer(self, is_offerer: bool) -> (plays: bool)
        ensures
            plays == self.spec_plays_offerer(is_offerer),
    {
        match self {
            Role::Primary => is_offerer,
            Role::Shadow => !is_offerer,
        }
    }

    /// Turns a result of the player that the instance plays into that of the
    /// local player.
    pub fn perceived(self, result: BattleResult) -> (perceived: BattleResult)
        ensures
            perceived == self.spec_perceived(result),
    {
        match self {
            Role::Primary => result,
            Role::Shadow => match result {
                BattleResult::Win => BattleResult::Loss,
                BattleResult::Loss => BattleResult::Win,
                other => other,
            },
        }
    }
}

/// The shadow of one peer seeds its generators as the primary instance of
/// the other peer does: where the shared generators of both peers are in one
/// state, it draws the same seeds, taking the candidate of the player that it
/// plays, who is the other peer's own, and the two generators are in one
/// state again afterwards.
pub proof fn lemma_shadow_seeds_like_remote_primary(
    local_rng: rand_pcg::Mcg128Xsl64,
    remote_rng: rand_pcg::Mcg128Xsl64,
    is_offerer: bool,
)
    requires
        local_rng == remote_rng,
    ensures
        crate::rng::spec_draw_round_seeds(local_rng, Role::Shadow.spec_plays_offerer(is_offerer))
            == crate::rng::spec_draw_round_seeds(
            remote_rng,
            Role::Primary.spec_plays_offerer(!is_offerer),
        ),
        crate::rng::spec_after_round_seeds(local_rng) == crate::rng::spec_after_round_seeds(
            remote_rng,
        ),
        Role::Primary.spec_plays_offerer(is_offerer) != Role::Shadow.spec_plays_offerer(
            is_offerer,
        ),
{
}

/// The result of a draw for the player who watches: the first player takes it.
pub open spec fn spec_draw_result(viewer_index: u8) -> BattleResult {
    if viewer_index == 0 {
        BattleResult::Win
    } else {
        BattleResult::Loss
    }
}

/// What a [`Round`] holds.
pub struct RoundView {
    pub role: Role,
    pub local_player_index: u8,
    pub current_tick: u32,
    pub queue: QueueView,
    pub committed_state: Option<CommittedState>,
    pub seeds: Option<RngSeeds>,
    pub last_result: BattleResult,
    pub phase: RoundPhase,
    pub tx_packet: Option<Packet>,
    pub input_injected: bool,
}

impl RoundView {
    /// The index of the remote player.
    pub open spec fn remote_player_index(self) -> u8 {
        (1 - self.local_player_index) as u8
    }

    /// The index of the player who watches the match: the player that the
    /// primary instance plays, the opponent of the one that the shadow plays.
    pub open spec fn viewer_index(self) -> u8 {
        match self.role {
            Role::Primary => self.local_player_index,
            Role::Shadow => self.remote_player_index(),
        }
    }

    /// An uncommitted round holds no snapshot, a committed or running round
    /// holds one, and the queue is in order.
    pub open spec fn wf(self) -> bool {
        &&& self.local_player_index <= 1
        &&& self.queue.wf()
        &&& self.phase == RoundPhase::Uncommitted ==> self.committed_state is None
        &&& self.phase == RoundPhase::Committed || self.phase == RoundPhase::Running
            ==> self.committed_state is Some
    }

    /// Whether this is a round as it is made: uncommitted, at tick 0, with a
    /// fresh queue and nothing seen or kept yet.
    pub open spec fn is_new(self, role: Role, local_player_index: u8, config: RoundConfig) -> bool {
        &&& self.role == role
        &&& self.local_player_index == local_player_index
        &&& self.current_tick == 0
        &&& self.queue.is_fresh(
            config.max_queue_length as nat,
            config.local_delay as nat,
            config.remote_delay as nat,
            config.max_tps_multiplier as nat,
        )
        &&& self.committed_state is None
        &&& self.seeds is None
        &&& self.last_result == BattleResult::Unknown
        &&& self.phase == RoundPhase::Uncommitted
        &&& self.tx_packet is None
        &&& !self.input_injected
    }

    /// The phase after the simulation has signalled that the round is
    /// concluding.
    pub open spec fn phase_after_ending(self) -> RoundPhase {
        if self.phase == RoundPhase::Ended {
            RoundPhase::Ended
        } else {
            RoundPhase::Ending
        }
    }

    /// What is recorded for a result that the simulation reported for the
    /// player it plays: a draw goes to the first player, a win or a loss is
    /// told from the side of the player who watches.
    pub open spec fn recorded_result(self, reported: BattleResult) -> BattleResult {
        match reported {
            BattleResult::Draw => spec_draw_result(self.viewer_index()),
            other => self.role.spec_perceived(other),
        }
    }

    /// What `finish` answers.
    pub open spec fn finish_result(self) -> Result<BattleResult, SyncError> {
        if self.last_result == BattleResult::Unknown {
            Err(SyncError::ResultUnknown)
        } else {
            Ok(self.last_result)
        }
    }

    /// The tick that a local input submitted now is stamped with.
    pub open spec fn local_input_tick(self) -> nat {
        (self.current_tick + self.queue.local_delay) as nat
    }

    /// What `add_local_input` answers.
    pub open spec fn add_local_input_result(self, joyflags: u16) -> Result<JoyInput, SyncError> {
        if self.local_input_tick() > u32::MAX {
            Err(SyncError::LocalInputRejected(QueueError::TickLimit))
        } else {
            let input = JoyInput { local_tick: self.local_input_tick() as u32, joyflags };
            match self.queue.push_local_result(input) {
                Ok(()) => Ok(input),
                Err(e) => Err(SyncError::LocalInputRejected(e)),
            }
        }
    }

    /// What `add_remote_input` answers.
    pub open spec fn add_remote_input_result(self, input: JoyInput, packet_tick: u32) -> Result<
        (),
        SyncError,
    > {
        match self.queue.push_remote_result(input, packet_tick) {
            Ok(()) => Ok(()),
            Err(e) => Err(SyncError::RemoteInputRejected(e)),
        }
    }

    /// Whether the pair at the head of the queue is that of the tick before
    /// the current one: the one stale pair that `exchange_packets` lets pass.
    pub open spec fn head_is_stale(self) -> bool {
        self.queue.next_tick + 1 == self.current_tick
    }

    /// What is wrong with the pair at the head of the queue, as the pair of
    /// the current tick.
    pub open spec fn head_error(self) -> Option<SyncError> {
        if self.queue.next_tick != self.current_tick {
            Some(
                SyncError::InputTickMismatch {
                    input_tick: self.queue.next_tick as u32,
                    current_tick: self.current_tick,
                },
            )
        } else {
            None
        }
    }

    /// What is wrong with the packet that the simulation wrote last, as the
    /// packet of the current tick.
    pub open spec fn tx_packet_error(self) -> Option<SyncError> {
        match self.tx_packet {
            None => Some(SyncError::MissingPacket { current_tick: self.current_tick }),
            Some(tx) => if tx.tick != self.current_tick {
                Some(
                    SyncError::PacketTickMismatch {
                        packet_tick: tx.tick,
                        current_tick: self.current_tick,
                    },
                )
            } else {
                None
            },
        }
    }

    /// What `inject_joyflags` asks for where it finds no desync.
    pub open spec fn inject_actions(self) -> Seq<Action> {
        (if self.queue.paired() > 0 {
            seq![
                Action::SetGpr {
                    index: 4,
                    value: spec_joyflags_register(self.queue.local[0].joyflags),
                },
            ]
        } else {
            Seq::<Action>::empty()
        }) + (if self.input_injected {
            seq![Action::SaveAppliedState { tick: self.current_tick }]
        } else {
            Seq::<Action>::empty()
        })
    }

    /// How `inject_joyflags` leaves the round, and what it answers.
    pub open spec fn inject_post(
        self,
        after: RoundView,
        injected: Result<Vec<Action>, SyncError>,
    ) -> bool {
        if self.queue.paired() > 0 && self.head_error() is Some {
            &&& injected == Err::<Vec<Action>, SyncError>(self.head_error().unwrap())
            &&& after == self
        } else {
            &&& injected matches Ok(actions)
            &&& after == (RoundView { input_injected: false, ..self })
            &&& actions@ == self.inject_actions()
        }
    }

    /// How `exchange_packets` leaves the round, and what it answers.
    pub open spec fn exchange_post(
        self,
        after: RoundView,
        exchanged: Result<Vec<Action>, SyncError>,
    ) -> bool {
        if self.queue.paired() == 0 {
            &&& after == self
            &&& exchanged matches Ok(actions)
            &&& actions@.len() == 0
        } else {
            &&& after == (RoundView { queue: self.queue.after_pop(), ..self })
            &&& (if self.head_is_stale() {
                exchanged matches Ok(actions) && actions@.len() == 0
            } else if self.head_error() is Some {
                exchanged == Err::<Vec<Action>, SyncError>(self.head_error().unwrap())
            } else if self.tx_packet_error() is Some {
                exchanged == Err::<Vec<Action>, SyncError>(self.tx_packet_error().unwrap())
            } else {
                &&& exchanged matches Ok(actions)
                &&& actions@.len() == 2
                &&& actions@[0] == (Action::SetRxPacket {
                    player: self.remote_player_index(),
                    payload: self.queue.remote[0].packet.payload,
                })
                &&& actions@[1] matches Action::SetRxPacket { player, payload }
                &&& player == self.local_player_index
                &&& payload@ == self.tx_packet.unwrap().payload@
            })
        }
    }

    /// How `keep_tx_packet` leaves the round, and what it answers.
    pub open spec fn keep_post(
        self,
        after: RoundView,
        payload: Vec<u8>,
        kept: Result<(), SyncError>,
    ) -> bool {
        if self.current_tick == u32::MAX {
            kept == Err::<(), SyncError>(SyncError::TickLimit) && after == self
        } else {
            &&& kept is Ok
            &&& after == (RoundView {
                tx_packet: Some(Packet { tick: (self.current_tick + 1) as u32, payload }),
                input_injected: true,
                ..self
            })
        }
    }

    /// How `end_tick` leaves the round, and what it answers.
    pub open spec fn end_tick_post(self, after: RoundView, ended: Result<(), SyncError>) -> bool {
        if self.committed_state is None {
            ended is Ok && after == self
        } else if self.current_tick == u32::MAX {
            ended == Err::<(), SyncError>(SyncError::TickLimit) && after == self
        } else {
            &&& ended is Ok
            &&& after == (RoundView {
                current_tick: (self.current_tick + 1) as u32,
                phase: self.phase_after_tick(),
                ..self
            })
        }
    }

    /// The phase after a tick has passed.
    pub open spec fn phase_after_tick(self) -> RoundPhase {
        if self.phase == RoundPhase::Committed {
            RoundPhase::Running
        } else {
            self.phase
        }
    }
}

/// One round of synchronized play, for either instance.
pub struct Round {
    role: Role,
    local_player_index: u8,
    current_tick: u32,
    queue: Queue,
    committed_state: Option<CommittedState>,
    seeds: Option<RngSeeds>,
    last_result: BattleResult,
    phase: RoundPhase,
    tx_packet: Option<Packet>,
    input_injected: bool,
}

impl View for Round {
    type V = RoundView;

    closed spec fn view(&self) -> RoundView {
        RoundView {
            role: self.role,
            local_player_index: self.local_player_index,
            current_tick: self.current_tick,
            queue: self.queue@,
            committed_state: self.committed_state,
            seeds: self.seeds,
            last_result: self.last_result,
            phase: self.phase,
            tx_packet: self.tx_packet,
            input_injected: self.input_injected,
        }
    }
}

impl Round {
    /// The invariant of the round.
    pub open spec fn wf(&self) -> bool {
        self@.wf()
    }

    /// Makes an uncommitted round at tick 0 with a fresh queue.
    pub fn new(role: Role, local_player_index: u8, config: RoundConfig) -> (made: Result<
        Round,
        SyncError,
    >)
        ensures
            made is Ok <==> local_player_index <= 1 && config.valid(),
            made matches Err(e) ==> e == SyncError::InvalidConfig,
            made matches Ok(round) ==> round.wf() && round@.is_new(
                role,
                local_player_index,
                config,
            ),
    {
        if local_player_index > 1 {
            return Err(SyncError::InvalidConfig);
        }
        match Queue::new(
            config.max_queue_length,
            config.local_delay,
            config.remote_delay,
            config.max_tps_multiplier,
        ) {
            Ok(queue) => Ok(
                Round {
                    role,
                    local_player_index,
                    current_tick: 0,
                    queue,
                    committed_state: None,
                    seeds: None,
                    last_result: BattleResult::Unknown,
                    phase: RoundPhase::Uncommitted,
                    tx_packet: None,
                    input_injected: false,
                },
            ),
            Err(_) => Err(SyncError::InvalidConfig),
        }
    }

    /// The instance that the round drives.
    pub fn role(&self) -> (role: Role)
        ensures
            role == self@.role,
    {
        self.role
    }

    /// The tick that the simulation is at.
    pub fn current_tick(&self) -> (tick: u32)
        ensures
            tick == self@.current_tick,
    {
        self.current_tick
    }

    /// The index of the local player.
    pub fn local_player_index(&self) -> (index: u8)
        ensures
            index == self@.local_player_index,
    {
        self.local_player_index
    }

    /// The index of the remote player.
    pub fn remote_player_index(&self) -> (index: u8)
        requires
            self.wf(),
        ensures
            index == self@.remote_player_index(),
    {
        1 - self.local_player_index
    }

    /// The index of the player who watches the match.
    pub fn viewer_index(&self) -> (index: u8)
        requires
            self.wf(),
        ensures
            index == self@.viewer_index(),
    {
        match self.role {
            Role::Primary => self.local_player_index,
            Role::Shadow => 1 - self.local_player_index,
        }
    }

    /// Where the round stands in its life.
    pub fn phase(&self) -> (phase: RoundPhase)
        ensures
            phase == self@.phase,
    {
        self.phase
    }

    /// The last result seen.
    pub fn last_result(&self) -> (result: BattleResult)
        ensures
            result == self@.last_result,
    {
        self.last_result
    }

    /// Whether the first snapshot has been taken.
    pub fn has_committed_state(&self) -> (committed: bool)
        requires
            self.wf(),
        ensures
            committed == (self@.committed_state is Some),
            committed ==> self@.phase != RoundPhase::Uncommitted,
    {
        self.committed_state.is_some()
    }

    /// The snapshots taken when the round was committed.
    pub fn committed_state(&self) -> (state: &Option<CommittedState>)
        ensures
            *state == self@.committed_state,
    {
        &self.committed_state
    }

    /// The states drawn for the in-game generators, once they are drawn.
    pub fn seeds(&self) -> (seeds: Option<RngSeeds>)
        ensures
            seeds == self@.seeds,
    {
        self.seeds
    }

    /// Keeps the states drawn for the in-game generators.
    pub fn set_seeds(&mut self, seeds: RngSeeds)
        ensures
            final(self)@ == (RoundView { seeds: Some(seeds), ..old(self)@ }),
    {
        self.seeds = Some(seeds);
    }

    /// The number of ticks that the local side buffers ahead.
    pub fn local_delay(&self) -> (n: u32)
        ensures
            n == self@.queue.local_delay,
    {
        self.queue.local_delay()
    }

    /// The number of ticks that the remote side buffers ahead.
    pub fn remote_delay(&self) -> (n: u32)
        ensures
            n == self@.queue.remote_delay,
    {
        self.queue.remote_delay()
    }

    /// The number of local inputs queued.
    pub fn local_queue_length(&self) -> (n: usize)
        ensures
            n == self@.queue.local.len(),
    {
        self.queue.local_queue_length()
    }

    /// The number of remote inputs queued.
    pub fn remote_queue_length(&self) -> (n: usize)
        ensures
            n == self@.queue.remote.len(),
    {
        self.queue.remote_queue_length()
    }

    /// The adjustment of the pace, in ticks per second.
    pub fn tps_adjustment(&self) -> (adjustment: i32)
        requires
            self.wf(),
        ensures
            adjustment == self@.queue.tps_adjustment(),
            -self@.queue.adjustment_limit() <= adjustment <= self@.queue.adjustment_limit(),
    {
        self.queue.tps_adjustment()
    }

    /// Commits the round: keeps the snapshots and the packet that the
    /// simulation holds for the current tick. Only an uncommitted round is
    /// committed; any other is left as it is.
    pub fn set_first_committed_state(
        &mut self,
        state: Snapshot,
        shadow_state: Option<Snapshot>,
        first_packet: Vec<u8>,
    ) -> (committed: bool)
        requires
            old(self).wf(),
        ensures
            final(self).wf(),
            committed == (old(self)@.phase == RoundPhase::Uncommitted),
            committed ==> final(self)@ == (RoundView {
                committed_state: Some(CommittedState { state, shadow_state }),
                phase: RoundPhase::Committed,
                tx_packet: Some(Packet { tick: old(self)@.current_tick, payload: first_packet }),
                ..old(self)@
            }),
            !committed ==> final(self)@ == old(self)@,
    {
        if self.phase != RoundPhase::Uncommitted {
            return false;
        }
        self.committed_state = Some(CommittedState { state, shadow_state });
        self.phase = RoundPhase::Committed;
        self.tx_packet = Some(Packet { tick: self.current_tick, payload: first_packet });
        true
    }

    /// Moves on to the next tick. A committed round starts running.
    pub fn increment_current_tick(&mut self)
        requires
            old(self).wf(),
            old(self)@.current_tick < u32::MAX,
        ensures
            final(self).wf(),
            final(self)@ == (RoundView {
                current_tick: (old(self)@.current_tick + 1) as u32,
                phase: old(self)@.phase_after_tick(),
                ..old(self)@
            }),
    {
        self.current_tick = self.current_tick + 1;
        if self.phase == RoundPhase::Committed {
            self.phase = RoundPhase::Running;
        }
    }

    /// Records a result as the local player perceives it.
    pub fn set_last_result(&mut self, result: BattleResult)
        ensures
            final(self)@ == (RoundView { last_result: result, ..old(self)@ }),
    {
        self.last_result = result;
    }

    /// Records a result that the simulation reported for the player it plays.
    pub fn record_result(&mut self, reported: BattleResult)
        requires
            old(self).wf(),
        ensures
            final(self).wf(),
            final(self)@ == (RoundView {
                last_result: old(self)@.recorded_result(reported),
                ..old(self)@
            }),
    {
        let recorded = match reported {
            BattleResult::Draw => self.on_draw_result(),
            other => self.role.perceived(other),
        };
        self.last_result = recorded;
    }

    /// The result of a draw for the player who watches: the first player
    /// takes it.
    pub fn on_draw_result(&self) -> (result: BattleResult)
        requires
            self.wf(),
        ensures
            result == spec_draw_result(self@.viewer_index()),
    {
        if self.viewer_index() == 0 {
            BattleResult::Win
        } else {
            BattleResult::Loss
        }
    }

    /// Notes that the round is concluding. A concluded round stays concluded.
    pub fn begin_ending(&mut self)
        requires
            old(self).wf(),
        ensures
            final(self).wf(),
            final(self)@ == (RoundView { phase: old(self)@.phase_after_ending(), ..old(self)@ }),
    {
        match self.phase {
            RoundPhase::Ended => {},
            _ => {
                self.phase = RoundPhase::Ending;
            },
        }
    }

    /// Whether the round is concluding or has concluded.
    pub fn is_ending(&self) -> (ending: bool)
        ensures
            ending == (self@.phase == RoundPhase::Ending || self@.phase == RoundPhase::Ended),
    {
        match self.phase {
            RoundPhase::Ending => true,
            RoundPhase::Ended => true,
            _ => false,
        }
    }

    /// Whether the round has concluded.
    pub fn is_ended(&self) -> (ended: bool)
        ensures
            ended == (self@.phase == RoundPhase::Ended),
    {
        match self.phase {
            RoundPhase::Ended => true,
            _ => false,
        }
    }

    /// Concludes the round and gives its result. A round that concludes
    /// without any result seen is in error.
    pub fn finish(&mut self) -> (result: Result<BattleResult, SyncError>)
        requires
            old(self).wf(),
        ensures
            final(self).wf(),
            result == old(self)@.finish_result(),
            final(self)@ == (RoundView { phase: RoundPhase::Ended, ..old(self)@ }),
    {
        self.phase = RoundPhase::Ended;
        match self.last_result {
            BattleResult::Unknown => Err(SyncError::ResultUnknown),
            result => Ok(result),
        }
    }

    /// Queues the local input of this frame, stamped with the tick that lies
    /// the local delay ahead, and gives the input as it was stamped.
    pub fn add_local_input(&mut self, joyflags: u16) -> (added: Result<JoyInput, SyncError>)
        requires
            old(self).wf(),
        ensures
            final(self).wf(),
            added == old(self)@.add_local_input_result(joyflags),
            added matches Ok(input) ==> final(self)@ == (RoundView {
                queue: QueueView {
                    local: old(self)@.queue.local.push(input),
                    ..old(self)@.queue
                },
                ..old(self)@
            }),
            added is Err ==> final(self)@ == old(self)@,
    {
        let tick: u64 = self.current_tick as u64 + self.queue.local_delay() as u64;
        if tick > u32::MAX as u64 {
            return Err(SyncError::LocalInputRejected(QueueError::TickLimit));
        }
        let input = JoyInput { local_tick: tick as u32, joyflags };
        match self.queue.push_local(input) {
            Ok(()) => Ok(input),
            Err(e) => Err(SyncError::LocalInputRejected(e)),
        }
    }

    /// Queues an input on the local side as it is stamped. The shadow queues
    /// the inputs of the player that it plays this way.
    pub fn add_mirrored_input(&mut self, input: JoyInput) -> (added: Result<(), QueueError>)
        requires
            old(self).wf(),
        ensures
            final(self).wf(),
            added == old(self)@.queue.push_local_result(input),
            added is Ok ==> final(self)@ == (RoundView {
                queue: QueueView {
                    local: old(self)@.queue.local.push(input),
                    ..old(self)@.queue
                },
                ..old(self)@
            }),
            added is Err ==> final(self)@ == old(self)@,
    {
        self.queue.push_local(input)
    }

    /// Queues a remote input with the packet that came with it.
    pub fn add_remote_input(&mut self, input: JoyInput, packet: Packet) -> (added: Result<
        (),
        SyncError,
    >)
        requires
            old(self).wf(),
        ensures
            final(self).wf(),
            added == old(self)@.add_remote_input_result(input, packet.tick),
            added is Ok ==> final(self)@ == (RoundView {
                queue: QueueView {
                    remote: old(self)@.queue.remote.push(RemoteInput { input, packet }),
                    ..old(self)@.queue
                },
                ..old(self)@
            }),
            added is Err ==> final(self)@ == old(self)@,
    {
        match self.queue.push_remote(input, packet) {
            Ok(()) => Ok(()),
            Err(e) => Err(SyncError::RemoteInputRejected(e)),
        }
    }

    /// The pair at the head of the queue, if both its inputs are queued.
    pub fn peek_input(&self) -> (pair: Option<InputPair>)
        requires
            self.wf(),
        ensures
            pair == self@.queue.pair_at(self@.queue.next_tick),
            pair matches Some(p) ==> p.local.local_tick == self@.queue.next_tick
                && p.remote.local_tick == self@.queue.next_tick,
    {
        self.queue.peek_pair(self.queue.next_tick())
    }

    /// Takes the pair at the head of the queue with the packet of its remote
    /// input, if both inputs are queued.
    pub fn take_input(&mut self) -> (taken: Option<(InputPair, Packet)>)
        requires
            old(self).wf(),
        ensures
            final(self).wf(),
            taken is Some <==> old(self)@.queue.paired() > 0,
            taken matches Some(p) ==> {
                &&& Some(p.0) == old(self)@.queue.pair_at(old(self)@.queue.next_tick)
                &&& p.1 == old(self)@.queue.remote[0].packet
                &&& p.0.local.local_tick == p.0.remote.local_tick
                &&& p.0.local.local_tick == old(self)@.queue.next_tick
                &&& p.1.tick == old(self)@.queue.next_tick
                &&& final(self)@ == (RoundView {
                    queue: old(self)@.queue.after_pop(),
                    ..old(self)@
                })
            },
            taken is None ==> final(self)@ == old(self)@,
    {
        self.queue.pop_pair_with_packet()
    }

    /// Keeps the packet that the simulation has written for `tick`.
    pub fn set_tx_packet(&mut self, tick: u32, payload: Vec<u8>)
        ensures
            final(self)@ == (RoundView {
                tx_packet: Some(Packet { tick, payload }),
                ..old(self)@
            }),
    {
        self.tx_packet = Some(Packet { tick, payload });
    }

    /// The packet that the simulation wrote last.
    pub fn peek_tx_packet(&self) -> (packet: &Option<Packet>)
        ensures
            *packet == self@.tx_packet,
    {
        &self.tx_packet
    }

    /// Whether an input has been handed to the simulation since this was
    /// last forgotten.
    pub fn input_injected(&self) -> (injected: bool)
        ensures
            injected == self@.input_injected,
    {
        self.input_injected
    }

    /// The game reads the buttons of a committed round: where the pair at the
    /// head of the queue is that of the current tick, the buttons of the
    /// player that the instance plays are written to the register; a pair of
    /// another tick is a desync. Where an input was handed over since the
    /// state was last applied, the state is applied again.
    pub fn inject_joyflags(&mut self) -> (injected: Result<Vec<Action>, SyncError>)
        requires
            old(self).wf(),
        ensures
            final(self).wf(),
            old(self)@.inject_post(final(self)@, injected),
    {
        let mut actions: Vec<Action> = Vec::new();
        match self.peek_input() {
            Some(pair) => {
                if pair.local.local_tick != self.current_tick {
                    return Err(
                        SyncError::InputTickMismatch {
                            input_tick: pair.local.local_tick,
                            current_tick: self.current_tick,
                        },
                    );
                }
                actions.push(
                    Action::SetGpr { index: 4, value: joyflags_register(pair.local.joyflags) },
                );
            },
            None => {},
        }
        if self.take_input_injected() {
            actions.push(Action::SaveAppliedState { tick: self.current_tick });
        }
        assert(actions@ =~= old(self)@.inject_actions());
        Ok(actions)
    }

    /// The game copies its link input: the pair at the head of the queue
    /// leaves it, and the game receives the packet of the other player, which
    /// came with the pair, and the packet of the player that the instance
    /// plays, which the simulation wrote last. A pair or a packet of another
    /// tick than the current one is a desync, with one exception: a pair of
    /// the tick before the current one is let pass without a packet written.
    /// The exception covers a simulation that runs past the reading of the
    /// buttons without input; it is suspect, holds for that one tick only and
    /// should not be widened.
    pub fn exchange_packets(&mut self) -> (exchanged: Result<Vec<Action>, SyncError>)
        requires
            old(self).wf(),
        ensures
            final(self).wf(),
            old(self)@.exchange_post(final(self)@, exchanged),
    {
        let mut actions: Vec<Action> = Vec::new();
        let taken = self.take_input();
        match taken {
            None => Ok(actions),
            Some(popped) => {
                let tick: u32 = popped.0.local.local_tick;
                if tick as u64 + 1 == self.current_tick as u64 {
                    return Ok(actions);
                }
                if tick != self.current_tick {
                    return Err(
                        SyncError::InputTickMismatch {
                            input_tick: tick,
                            current_tick: self.current_tick,
                        },
                    );
                }
                match &self.tx_packet {
                    None => Err(SyncError::MissingPacket { current_tick: self.current_tick }),
                    Some(tx) => {
                        if tx.tick != self.current_tick {
                            return Err(
                                SyncError::PacketTickMismatch {
                                    packet_tick: tx.tick,
                                    current_tick: self.current_tick,
                                },
                            );
                        }
                        let own = tx.payload.clone();
                        actions.push(
                            Action::SetRxPacket {
                                player: 1 - self.local_player_index,
                                payload: popped.1.payload,
                            },
                        );
                        actions.push(
                            Action::SetRxPacket { player: self.local_player_index, payload: own },
                        );
                        Ok(actions)
                    },
                }
            },
        }
    }

    /// The game has copied its link input: the packet that the simulation
    /// wrote is kept for the next tick, and an input counts as handed over.
    pub fn keep_tx_packet(&mut self, payload: Vec<u8>) -> (kept: Result<(), SyncError>)
        requires
            old(self).wf(),
        ensures
            final(self).wf(),
            old(self)@.keep_post(final(self)@, payload, kept),
    {
        if self.current_tick == u32::MAX {
            return Err(SyncError::TickLimit);
        }
        self.tx_packet = Some(Packet { tick: self.current_tick + 1, payload });
        self.input_injected = true;
        Ok(())
    }

    /// The simulation finished a tick: a round that holds its first snapshot
    /// moves on to the next tick.
    pub fn end_tick(&mut self) -> (ended: Result<(), SyncError>)
        requires
            old(self).wf(),
        ensures
            final(self).wf(),
            old(self)@.end_tick_post(final(self)@, ended),
    {
        if !self.has_committed_state() {
            return Ok(());
        }
        if self.current_tick == u32::MAX {
            return Err(SyncError::TickLimit);
        }
        self.increment_current_tick();
        Ok(())
    }

    /// Notes that an input has been handed to the simulation.
    pub fn set_input_injected(&mut self)
        ensures
            final(self)@ == (RoundView { input_injected: true, ..old(self)@ }),
    {
        self.input_injected = true;
    }

    /// Tells whether an input has been handed to the simulation since this
    /// was last asked, and forgets it.
    pub fn take_input_injected(&mut self) -> (injected: bool)
        ensures
            injected == old(self)@.input_injected,
            final(self)@ == (RoundView { input_injected: false, ..old(self)@ }),
    {
        let injected = self.input_injected;
        self.input_injected = false;
        injected
    }
}

} // verus!
