use tango_core::action::Action;
use tango_core::lockstep::{InputPair, JoyInput, Packet, QueueError};
use tango_core::rng::RngSeeds;
use tango_core::round::{
    BattleResult, CommittedState, Role, Round, RoundConfig, RoundPhase, Snapshot, SyncError,
};

fn config(local_delay: u32, remote_delay: u32) -> RoundConfig {
    RoundConfig { max_queue_length: 60, local_delay, remote_delay, max_tps_multiplier: 1 }
}

fn snapshot(byte: u8) -> Snapshot {
    Snapshot { bytes: vec![byte; 4] }
}

fn joy(tick: u32, joyflags: u16) -> JoyInput {
    JoyInput { local_tick: tick, joyflags }
}

fn committed_round(role: Role, index: u8, local_delay: u32, remote_delay: u32) -> Round {
    let mut round = Round::new(role, index, config(local_delay, remote_delay)).unwrap();
    assert!(round.set_first_committed_state(snapshot(1), None, vec![0xaa]));
    round
}

#[test]
fn round_config_validity() {
    assert!(config(3, 3).is_valid());
    assert!(!RoundConfig { max_queue_length: 0, local_delay: 0, remote_delay: 0, max_tps_multiplier: 1 }.is_valid());
    assert!(!RoundConfig { max_queue_length: 2, local_delay: 3, remote_delay: 0, max_tps_multiplier: 1 }.is_valid());
    assert!(!RoundConfig { max_queue_length: 2, local_delay: 0, remote_delay: 3, max_tps_multiplier: 1 }.is_valid());
    assert_eq!(
        config(1, 4).mirrored(),
        RoundConfig { max_queue_length: 60, local_delay: 4, remote_delay: 1, max_tps_multiplier: 1 }
    );
}

#[test]
fn new_round_is_uncommitted_at_tick_zero() {
    let round = Round::new(Role::Primary, 1, config(3, 2)).unwrap();
    assert_eq!(round.role(), Role::Primary);
    assert_eq!(round.current_tick(), 0);
    assert_eq!(round.local_player_index(), 1);
    assert_eq!(round.remote_player_index(), 0);
    assert_eq!(round.viewer_index(), 1);
    assert_eq!(round.phase(), RoundPhase::Uncommitted);
    assert_eq!(round.last_result(), BattleResult::Unknown);
    assert!(!round.has_committed_state());
    assert_eq!(round.committed_state(), &None);
    assert_eq!(round.seeds(), None);
    assert_eq!(round.local_delay(), 3);
    assert_eq!(round.remote_delay(), 2);
    assert_eq!(round.local_queue_length(), 3);
    assert_eq!(round.remote_queue_length(), 2);
    assert_eq!(round.tps_adjustment(), 0);
    assert_eq!(round.peek_tx_packet(), &None);
    assert!(!round.input_injected());
    assert!(!round.is_ending());
    assert!(!round.is_ended());
}

#[test]
fn new_round_rejects_bad_index_or_config() {
    assert_eq!(Round::new(Role::Primary, 2, config(3, 3)).err(), Some(SyncError::InvalidConfig));
    assert_eq!(
        Round::new(
            Role::Shadow,
            0,
            RoundConfig { max_queue_length: 0, local_delay: 0, remote_delay: 0, max_tps_multiplier: 1 }
        )
        .err(),
        Some(SyncError::InvalidConfig)
    );
}

#[test]
fn shadow_round_is_watched_by_the_other_player() {
    let round = Round::new(Role::Shadow, 1, config(0, 0)).unwrap();
    assert_eq!(round.local_player_index(), 1);
    assert_eq!(round.viewer_index(), 0);
    assert!(Role::Shadow.plays_offerer(false));
    assert!(!Role::Shadow.plays_offerer(true));
    assert!(Role::Primary.plays_offerer(true));
    assert!(!Role::Primary.plays_offerer(false));
}

#[test]
fn round_commits_exactly_once() {
    let mut round = Round::new(Role::Primary, 0, config(0, 0)).unwrap();
    assert!(round.set_first_committed_state(snapshot(1), Some(snapshot(2)), vec![5, 6]));
    assert_eq!(round.phase(), RoundPhase::Committed);
    assert!(round.has_committed_state());
    assert_eq!(
        round.committed_state(),
        &Some(CommittedState { state: snapshot(1), shadow_state: Some(snapshot(2)) })
    );
    assert_eq!(round.peek_tx_packet(), &Some(Packet { tick: 0, payload: vec![5, 6] }));
    assert!(!round.set_first_committed_state(snapshot(9), None, vec![7]));
    assert_eq!(
        round.committed_state(),
        &Some(CommittedState { state: snapshot(1), shadow_state: Some(snapshot(2)) })
    );
    assert_eq!(round.peek_tx_packet(), &Some(Packet { tick: 0, payload: vec![5, 6] }));
}

#[test]
fn round_lifecycle_runs_through_all_phases() {
    let mut round = Round::new(Role::Primary, 0, config(0, 0)).unwrap();
    assert_eq!(round.phase(), RoundPhase::Uncommitted);
    round.set_first_committed_state(snapshot(1), None, vec![]);
    assert_eq!(round.phase(), RoundPhase::Committed);
    round.increment_current_tick();
    assert_eq!(round.phase(), RoundPhase::Running);
    assert_eq!(round.current_tick(), 1);
    round.increment_current_tick();
    assert_eq!(round.phase(), RoundPhase::Running);
    assert_eq!(round.current_tick(), 2);
    round.begin_ending();
    assert_eq!(round.phase(), RoundPhase::Ending);
    assert!(round.is_ending());
    assert!(!round.is_ended());
    round.increment_current_tick();
    assert_eq!(round.phase(), RoundPhase::Ending);
    round.set_last_result(BattleResult::Win);
    assert_eq!(round.finish(), Ok(BattleResult::Win));
    assert_eq!(round.phase(), RoundPhase::Ended);
    assert!(round.is_ended());
    round.begin_ending();
    assert_eq!(round.phase(), RoundPhase::Ended);
}

#[test]
fn round_that_ends_without_a_result_is_in_error() {
    let mut round = committed_round(Role::Primary, 0, 0, 0);
    assert_eq!(round.finish(), Err(SyncError::ResultUnknown));
    assert_eq!(round.phase(), RoundPhase::Ended);
}

#[test]
fn results_are_recorded_from_the_side_of_the_player_who_watches() {
    let mut primary = Round::new(Role::Primary, 1, config(0, 0)).unwrap();
    primary.record_result(BattleResult::Win);
    assert_eq!(primary.last_result(), BattleResult::Win);
    primary.record_result(BattleResult::Loss);
    assert_eq!(primary.last_result(), BattleResult::Loss);
    let mut shadow = Round::new(Role::Shadow, 0, config(0, 0)).unwrap();
    shadow.record_result(BattleResult::Win);
    assert_eq!(shadow.last_result(), BattleResult::Loss);
    shadow.record_result(BattleResult::Loss);
    assert_eq!(shadow.last_result(), BattleResult::Win);
    assert_eq!(Role::Shadow.perceived(BattleResult::Draw), BattleResult::Draw);
    assert_eq!(Role::Shadow.perceived(BattleResult::Unknown), BattleResult::Unknown);
    assert_eq!(Role::Primary.perceived(BattleResult::Win), BattleResult::Win);
}

#[test]
fn draw_goes_to_the_first_player() {
    let first = Round::new(Role::Primary, 0, config(0, 0)).unwrap();
    assert_eq!(first.on_draw_result(), BattleResult::Win);
    let mut second = Round::new(Role::Primary, 1, config(0, 0)).unwrap();
    assert_eq!(second.on_draw_result(), BattleResult::Loss);
    second.record_result(BattleResult::Draw);
    assert_eq!(second.last_result(), BattleResult::Loss);
    // The shadow that plays the second player is watched by the first.
    let mut shadow = Round::new(Role::Shadow, 1, config(0, 0)).unwrap();
    assert_eq!(shadow.on_draw_result(), BattleResult::Win);
    shadow.record_result(BattleResult::Draw);
    assert_eq!(shadow.last_result(), BattleResult::Win);
}

#[test]
fn local_input_is_stamped_with_the_delay_ahead() {
    let mut round = committed_round(Role::Primary, 0, 3, 3);
    assert_eq!(round.add_local_input(0x0101), Ok(joy(3, 0x0101)));
    assert_eq!(round.local_queue_length(), 4);
    // The same frame again: the queue expects tick 4 now.
    assert_eq!(
        round.add_local_input(0x0101),
        Err(SyncError::LocalInputRejected(QueueError::UnexpectedTick))
    );
    round.increment_current_tick();
    assert_eq!(round.add_local_input(0x0202), Ok(joy(4, 0x0202)));
}

#[test]
fn local_input_overflows_a_full_queue() {
    let mut round = Round::new(
        Role::Primary,
        0,
        RoundConfig { max_queue_length: 1, local_delay: 1, remote_delay: 0, max_tps_multiplier: 1 },
    )
    .unwrap();
    assert_eq!(round.add_local_input(0), Err(SyncError::LocalInputRejected(QueueError::Overflow)));
}

#[test]
fn remote_input_is_checked_by_the_queue() {
    let mut round = committed_round(Role::Primary, 0, 0, 0);
    assert_eq!(round.add_remote_input(joy(0, 1), Packet { tick: 0, payload: vec![1] }), Ok(()));
    assert_eq!(
        round.add_remote_input(joy(2, 1), Packet { tick: 2, payload: vec![] }),
        Err(SyncError::RemoteInputRejected(QueueError::UnexpectedTick))
    );
    assert_eq!(
        round.add_remote_input(joy(1, 1), Packet { tick: 2, payload: vec![] }),
        Err(SyncError::RemoteInputRejected(QueueError::PacketTickMismatch))
    );
    assert_eq!(round.remote_queue_length(), 1);
}

#[test]
fn input_is_taken_with_its_packet() {
    let mut round = committed_round(Role::Primary, 0, 0, 0);
    assert_eq!(round.peek_input(), None);
    assert_eq!(round.take_input(), None);
    round.add_local_input(7).unwrap();
    round.add_remote_input(joy(0, 9), Packet { tick: 0, payload: vec![4, 2] }).unwrap();
    let pair = InputPair { local: joy(0, 7), remote: joy(0, 9) };
    assert_eq!(round.peek_input(), Some(pair));
    assert_eq!(round.take_input(), Some((pair, Packet { tick: 0, payload: vec![4, 2] })));
    assert_eq!(round.take_input(), None);
}

#[test]
fn seeds_and_flags_are_kept() {
    let mut round = Round::new(Role::Primary, 0, config(0, 0)).unwrap();
    round.set_seeds(RngSeeds { rng1: 1, rng2: 2 });
    assert_eq!(round.seeds(), Some(RngSeeds { rng1: 1, rng2: 2 }));
    round.set_input_injected();
    assert!(round.input_injected());
    assert!(round.take_input_injected());
    assert!(!round.take_input_injected());
    round.set_tx_packet(4, vec![1]);
    assert_eq!(round.peek_tx_packet(), &Some(Packet { tick: 4, payload: vec![1] }));
}

#[test]
fn inject_joyflags_writes_the_buttons_of_the_current_tick() {
    let mut round = committed_round(Role::Shadow, 1, 0, 0);
    assert_eq!(round.inject_joyflags(), Ok(vec![]));
    round.add_mirrored_input(joy(0, 0x0003)).unwrap();
    round.add_remote_input(joy(0, 0x0300), Packet { tick: 0, payload: vec![1] }).unwrap();
    assert_eq!(round.inject_joyflags(), Ok(vec![Action::SetGpr { index: 4, value: 0xfc03 }]));
    round.set_input_injected();
    assert_eq!(
        round.inject_joyflags(),
        Ok(vec![Action::SetGpr { index: 4, value: 0xfc03 }, Action::SaveAppliedState { tick: 0 }])
    );
    assert!(!round.input_injected());
    round.increment_current_tick();
    assert_eq!(
        round.inject_joyflags(),
        Err(SyncError::InputTickMismatch { input_tick: 0, current_tick: 1 })
    );
}

#[test]
fn exchange_packets_hands_both_packets_to_the_game() {
    let mut round = committed_round(Role::Shadow, 1, 0, 0);
    assert_eq!(round.exchange_packets(), Ok(vec![]));
    round.add_mirrored_input(joy(0, 1)).unwrap();
    round.add_remote_input(joy(0, 2), Packet { tick: 0, payload: vec![0x10, 0x11] }).unwrap();
    assert_eq!(
        round.exchange_packets(),
        Ok(vec![
            Action::SetRxPacket { player: 0, payload: vec![0x10, 0x11] },
            Action::SetRxPacket { player: 1, payload: vec![0xaa] },
        ])
    );
    assert_eq!(round.peek_input(), None);
    assert_eq!(round.peek_tx_packet(), &Some(Packet { tick: 0, payload: vec![0xaa] }));
}

#[test]
fn exchange_packets_lets_a_pair_of_the_tick_before_pass() {
    let mut round = committed_round(Role::Shadow, 1, 0, 0);
    round.add_mirrored_input(joy(0, 1)).unwrap();
    round.add_remote_input(joy(0, 2), Packet { tick: 0, payload: vec![1] }).unwrap();
    round.increment_current_tick();
    assert_eq!(round.exchange_packets(), Ok(vec![]));
    assert_eq!(round.local_queue_length(), 0);
}

#[test]
fn exchange_packets_reports_pairs_and_packets_of_other_ticks() {
    let mut late = committed_round(Role::Shadow, 1, 0, 0);
    late.add_mirrored_input(joy(0, 1)).unwrap();
    late.add_remote_input(joy(0, 2), Packet { tick: 0, payload: vec![1] }).unwrap();
    late.increment_current_tick();
    late.increment_current_tick();
    assert_eq!(
        late.exchange_packets(),
        Err(SyncError::InputTickMismatch { input_tick: 0, current_tick: 2 })
    );
    let mut stale_packet = committed_round(Role::Shadow, 1, 0, 0);
    stale_packet.add_mirrored_input(joy(0, 1)).unwrap();
    stale_packet.add_remote_input(joy(0, 2), Packet { tick: 0, payload: vec![1] }).unwrap();
    stale_packet.set_tx_packet(3, vec![]);
    assert_eq!(
        stale_packet.exchange_packets(),
        Err(SyncError::PacketTickMismatch { packet_tick: 3, current_tick: 0 })
    );
    let mut uncommitted = Round::new(Role::Shadow, 1, config(1, 1)).unwrap();
    assert_eq!(uncommitted.exchange_packets(), Err(SyncError::MissingPacket { current_tick: 0 }));
}

#[test]
fn keep_tx_packet_stamps_the_next_tick() {
    let mut round = committed_round(Role::Shadow, 0, 0, 0);
    assert_eq!(round.keep_tx_packet(vec![3, 4]), Ok(()));
    assert_eq!(round.peek_tx_packet(), &Some(Packet { tick: 1, payload: vec![3, 4] }));
    assert!(round.input_injected());
}

#[test]
fn end_tick_moves_a_committed_round_only() {
    let mut round = Round::new(Role::Shadow, 0, config(0, 0)).unwrap();
    assert_eq!(round.end_tick(), Ok(()));
    assert_eq!(round.current_tick(), 0);
    round.set_first_committed_state(snapshot(0), None, vec![]);
    assert_eq!(round.end_tick(), Ok(()));
    assert_eq!(round.current_tick(), 1);
    assert_eq!(round.phase(), RoundPhase::Running);
}
