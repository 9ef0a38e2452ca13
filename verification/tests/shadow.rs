use tango_core::action::{Action, Trap, TrapInput};
use tango_core::lockstep::{InputPair, JoyInput, Packet, QueueError};
use tango_core::round::{BattleResult, RoundConfig, RoundPhase, Snapshot, SyncError};
use tango_core::shadow::{AdvanceGoal, AppliedState, ShadowState};

const SHADOW_SEED: [u8; 16] = [42, 0, 0, 0, 0, 0, 0, 0, 0, 0, 0, 0, 0, 0, 0, 0];

fn shadow_config(local_delay: u32, remote_delay: u32) -> RoundConfig {
    RoundConfig { max_queue_length: 60, local_delay, remote_delay, max_tps_multiplier: 1 }
}

fn trap_at(pc: u32) -> TrapInput {
    TrapInput { pc, joyflags: 0, tx_packet: vec![], total_settings: 0, total_backgrounds: 0 }
}

fn written(tx_packet: Vec<u8>) -> TrapInput {
    TrapInput { pc: 0, joyflags: 0, tx_packet, total_settings: 0, total_backgrounds: 0 }
}

fn stamped(tick: u32, joyflags: u16) -> JoyInput {
    JoyInput { local_tick: tick, joyflags }
}

fn new_shadow(is_offerer: bool) -> ShadowState {
    ShadowState::new(SHADOW_SEED, is_offerer, (1, 2), shadow_config(0, 0)).unwrap()
}

fn committed_shadow(is_offerer: bool) -> ShadowState {
    let mut shadow = new_shadow(is_offerer);
    shadow.on_trap(Trap::RoundStartRet, trap_at(0));
    assert_eq!(shadow.on_trap(Trap::MainReadJoyflags, trap_at(0)).len(), 4);
    assert!(shadow.commit_round(Snapshot { bytes: vec![7] }, vec![0xee]));
    shadow
}

#[test]
fn new_shadow_mirrors_the_configuration() {
    let mut shadow = ShadowState::new(SHADOW_SEED, true, (3, 4), shadow_config(1, 4)).unwrap();
    assert!(shadow.is_offerer());
    assert_eq!(shadow.match_type(), (3, 4));
    assert_eq!(shadow.error(), None);
    assert!(shadow.round().is_none());
    assert_eq!(shadow.applied_state(), &None);
    assert_eq!(shadow.start_round(), Ok(()));
    let round = shadow.round().as_ref().unwrap();
    assert_eq!(round.local_player_index(), 1);
    assert_eq!(round.local_delay(), 4);
    assert_eq!(round.remote_delay(), 1);
    assert_eq!(
        ShadowState::new(
            SHADOW_SEED,
            true,
            (0, 0),
            RoundConfig { max_queue_length: 0, local_delay: 0, remote_delay: 0, max_tps_multiplier: 0 }
        )
        .err(),
        Some(SyncError::InvalidConfig)
    );
}

#[test]
fn shadow_plays_the_remote_player() {
    let mut of_offerer = new_shadow(true);
    of_offerer.start_round().unwrap();
    assert_eq!(
        of_offerer.on_trap(Trap::BattleIsP2Tst, trap_at(0)),
        vec![Action::SetGpr { index: 0, value: 1 }]
    );
    let mut of_answerer = new_shadow(false);
    assert_eq!(of_answerer.on_trap(Trap::LinkIsP2Ret, trap_at(0)), vec![]);
    of_answerer.start_round().unwrap();
    assert_eq!(
        of_answerer.on_trap(Trap::LinkIsP2Ret, trap_at(0)),
        vec![Action::SetGpr { index: 0, value: 0 }]
    );
}

#[test]
fn shadow_of_the_offerer_seeds_like_the_answerer() {
    let mut shadow = new_shadow(true);
    shadow.start_round().unwrap();
    assert_eq!(
        shadow.on_trap(Trap::MainReadJoyflags, trap_at(0)),
        vec![
            Action::SetRng1State { state: 0xf2b1_fb10 },
            Action::SetRng2State { state: 0x9ba5_9652 },
            Action::SetRng3State { state: 0x9ba5_9652 },
            Action::SaveFirstCommittedState,
        ]
    );
    let mut other = new_shadow(false);
    other.start_round().unwrap();
    assert_eq!(
        other.on_trap(Trap::MainReadJoyflags, trap_at(0))[0],
        Action::SetRng1State { state: 0x75f2_7bad }
    );
}

#[test]
fn shadow_start_round_fails_while_a_round_is_active() {
    let mut shadow = new_shadow(true);
    assert_eq!(shadow.start_round(), Ok(()));
    assert_eq!(shadow.start_round(), Err(SyncError::RoundAlreadyActive));
    assert_eq!(shadow.error(), None);
    shadow.on_trap(Trap::RoundStartRet, trap_at(0));
    assert_eq!(shadow.error(), Some(SyncError::RoundAlreadyActive));
}

#[test]
fn shadow_results_are_told_from_the_local_side() {
    let mut shadow = committed_shadow(true);
    shadow.on_trap(Trap::RoundEndSetWin, trap_at(0));
    assert_eq!(shadow.round().as_ref().unwrap().last_result(), BattleResult::Loss);
    shadow.on_trap(Trap::RoundEndSetLoss, trap_at(0));
    assert_eq!(shadow.round().as_ref().unwrap().last_result(), BattleResult::Win);
    shadow.on_trap(Trap::RoundEndDamageJudgeSetWin, trap_at(0));
    assert_eq!(shadow.round().as_ref().unwrap().last_result(), BattleResult::Loss);
    shadow.on_trap(Trap::RoundEndDamageJudgeSetLoss, trap_at(0));
    assert_eq!(shadow.round().as_ref().unwrap().last_result(), BattleResult::Win);
    // The local peer is the offerer, the first player: the draw is theirs.
    shadow.on_trap(Trap::RoundEndSetWin, trap_at(0));
    shadow.on_trap(Trap::RoundEndDamageJudgeSetDraw, trap_at(0));
    assert_eq!(shadow.round().as_ref().unwrap().last_result(), BattleResult::Win);
}

#[test]
fn shadow_is_fed_pairs_swapped() {
    let mut shadow = committed_shadow(true);
    assert_eq!(shadow.peek_shadow_input(), None);
    assert_eq!(
        shadow.add_input(stamped(0, 0x0001), Packet { tick: 0, payload: vec![1, 2] }, stamped(0, 0x0002)),
        Ok(())
    );
    let pair = InputPair { local: stamped(0, 0x0002), remote: stamped(0, 0x0001) };
    assert_eq!(shadow.peek_shadow_input(), Some(pair));
    assert_eq!(
        shadow.on_trap(Trap::MainReadJoyflags, trap_at(0)),
        vec![Action::SetGpr { index: 4, value: 0xfc02 }]
    );
    assert_eq!(shadow.take_shadow_input(), Some((pair, Packet { tick: 0, payload: vec![1, 2] })));
    assert_eq!(shadow.take_shadow_input(), None);
}

#[test]
fn shadow_halts_on_an_input_out_of_order() {
    let mut shadow = committed_shadow(true);
    assert_eq!(
        shadow.add_input(stamped(0, 0), Packet { tick: 0, payload: vec![] }, stamped(1, 0)),
        Err(SyncError::RemoteInputRejected(QueueError::UnexpectedTick))
    );
    assert_eq!(shadow.error(), Some(SyncError::RemoteInputRejected(QueueError::UnexpectedTick)));
    let mut other = committed_shadow(true);
    assert_eq!(
        other.add_input(stamped(0, 0), Packet { tick: 1, payload: vec![] }, stamped(0, 0)),
        Err(SyncError::LocalInputRejected(QueueError::PacketTickMismatch))
    );
    assert_eq!(other.error(), Some(SyncError::LocalInputRejected(QueueError::PacketTickMismatch)));
    // A halted shadow takes nothing in and answers no trap.
    assert_eq!(other.add_input(stamped(0, 0), Packet { tick: 0, payload: vec![] }, stamped(0, 0)), Ok(()));
    assert_eq!(other.on_trap(Trap::MainReadJoyflags, trap_at(0)), vec![]);
    assert_eq!(other.on_trap(Trap::BattleIsP2Tst, trap_at(0)), vec![]);
}

#[test]
fn shadow_runs_a_tick() {
    let mut shadow = committed_shadow(false);
    shadow.add_input(stamped(0, 0x10), Packet { tick: 0, payload: vec![0xb0] }, stamped(0, 0x20)).unwrap();
    assert_eq!(
        shadow.on_trap(Trap::MainReadJoyflags, trap_at(0)),
        vec![Action::SetGpr { index: 4, value: 0xfc20 }]
    );
    assert_eq!(
        shadow.on_trap(Trap::CopyInputDataEntry, trap_at(0)),
        vec![
            Action::SetRxPacket { player: 1, payload: vec![0xb0] },
            Action::SetRxPacket { player: 0, payload: vec![0xee] },
        ]
    );
    assert_eq!(shadow.on_trap(Trap::CopyInputDataRet, written(vec![0xc1])), vec![]);
    assert_eq!(
        shadow.round().as_ref().unwrap().peek_tx_packet(),
        &Some(Packet { tick: 1, payload: vec![0xc1] })
    );
    assert_eq!(shadow.on_trap(Trap::RoundCallJumpTableRet, trap_at(0)), vec![]);
    assert_eq!(shadow.round().as_ref().unwrap().current_tick(), 1);
    // The input handed over in the last tick has the state applied again.
    assert_eq!(
        shadow.on_trap(Trap::MainReadJoyflags, trap_at(0)),
        vec![Action::SaveAppliedState { tick: 1 }]
    );
    shadow.set_applied_state(Snapshot { bytes: vec![5] }, 1);
    assert_eq!(
        shadow.applied_state(),
        &Some(AppliedState { state: Snapshot { bytes: vec![5] }, tick: 1 })
    );
    assert_eq!(shadow.on_trap(Trap::MainReadJoyflags, trap_at(0)), vec![]);
    assert_eq!(shadow.error(), None);
}

#[test]
fn shadow_lets_one_stale_pair_pass() {
    let mut shadow = committed_shadow(true);
    shadow.add_input(stamped(0, 0), Packet { tick: 0, payload: vec![] }, stamped(0, 0)).unwrap();
    shadow.on_trap(Trap::RoundCallJumpTableRet, trap_at(0));
    assert_eq!(shadow.on_trap(Trap::CopyInputDataEntry, trap_at(0)), vec![]);
    assert_eq!(shadow.error(), None);
    assert_eq!(shadow.peek_shadow_input(), None);
}

#[test]
fn shadow_halts_on_a_pair_two_ticks_late() {
    let mut shadow = committed_shadow(true);
    shadow.add_input(stamped(0, 0), Packet { tick: 0, payload: vec![] }, stamped(0, 0)).unwrap();
    shadow.on_trap(Trap::RoundCallJumpTableRet, trap_at(0));
    shadow.on_trap(Trap::RoundCallJumpTableRet, trap_at(0));
    assert_eq!(shadow.on_trap(Trap::MainReadJoyflags, trap_at(0)), vec![]);
    assert_eq!(shadow.error(), Some(SyncError::InputTickMismatch { input_tick: 0, current_tick: 2 }));
    let mut other = committed_shadow(true);
    other.add_input(stamped(0, 0), Packet { tick: 0, payload: vec![] }, stamped(0, 0)).unwrap();
    other.on_trap(Trap::RoundCallJumpTableRet, trap_at(0));
    other.on_trap(Trap::RoundCallJumpTableRet, trap_at(0));
    assert_eq!(other.on_trap(Trap::CopyInputDataEntry, trap_at(0)), vec![]);
    assert_eq!(other.error(), Some(SyncError::InputTickMismatch { input_tick: 0, current_tick: 2 }));
}

#[test]
fn shadow_halts_on_a_packet_of_another_tick() {
    let mut shadow = committed_shadow(true);
    shadow.add_input(stamped(0, 0), Packet { tick: 0, payload: vec![] }, stamped(0, 0)).unwrap();
    shadow.on_trap(Trap::CopyInputDataRet, written(vec![1]));
    assert_eq!(shadow.on_trap(Trap::CopyInputDataEntry, trap_at(0)), vec![]);
    assert_eq!(shadow.error(), Some(SyncError::PacketTickMismatch { packet_tick: 1, current_tick: 0 }));
}

#[test]
fn shadow_round_end_asks_for_the_applied_state() {
    let mut shadow = committed_shadow(true);
    shadow.on_trap(Trap::RoundEndSetLoss, trap_at(0));
    assert_eq!(
        shadow.on_trap(Trap::RoundEndEntry, trap_at(0)),
        vec![Action::SaveAppliedState { tick: 0 }]
    );
    assert_eq!(shadow.round().as_ref().unwrap().phase(), RoundPhase::Ended);
    assert_eq!(shadow.error(), None);
    assert_eq!(shadow.on_trap(Trap::RoundEndEntry, trap_at(0)), vec![]);
    let mut unknown = committed_shadow(true);
    assert_eq!(
        unknown.on_trap(Trap::RoundEndEntry, trap_at(0)),
        vec![Action::SaveAppliedState { tick: 0 }]
    );
    assert_eq!(unknown.error(), Some(SyncError::ResultUnknown));
}

#[test]
fn shadow_advance_goals() {
    let mut shadow = new_shadow(true);
    assert_eq!(shadow.advance(AdvanceGoal::FirstCommittedState), Ok(false));
    assert_eq!(shadow.advance(AdvanceGoal::RoundEnd), Ok(true));
    shadow.start_round().unwrap();
    assert_eq!(shadow.advance(AdvanceGoal::FirstCommittedState), Ok(false));
    assert_eq!(shadow.advance(AdvanceGoal::RoundEnd), Ok(false));
    shadow.on_trap(Trap::MainReadJoyflags, trap_at(0));
    shadow.commit_round(Snapshot { bytes: vec![] }, vec![]);
    assert_eq!(shadow.advance(AdvanceGoal::FirstCommittedState), Ok(true));
    shadow.on_trap(Trap::RoundEndSetWin, trap_at(0));
    shadow.on_trap(Trap::RoundEndEntry, trap_at(0));
    assert_eq!(shadow.advance(AdvanceGoal::RoundEnd), Ok(true));
    assert_eq!(shadow.advance(AdvanceGoal::AppliedTick { tick: 0 }), Ok(false));
    shadow.set_applied_state(Snapshot { bytes: vec![] }, 4);
    assert_eq!(shadow.advance(AdvanceGoal::AppliedTick { tick: 4 }), Ok(true));
    assert_eq!(shadow.advance(AdvanceGoal::AppliedTick { tick: 3 }), Ok(true));
    assert_eq!(shadow.advance(AdvanceGoal::AppliedTick { tick: 5 }), Ok(false));
    shadow.set_error(SyncError::TickLimit);
    assert_eq!(shadow.advance(AdvanceGoal::RoundEnd), Err(SyncError::TickLimit));
}

#[test]
fn shadow_other_traps() {
    let mut shadow = new_shadow(true);
    assert_eq!(
        shadow.on_trap(Trap::InBattleCallHandleLinkCableInput, trap_at(0x20)),
        vec![Action::SetThumbPc { pc: 0x24 }, Action::SetCopyDataInputState { mode: 2 }]
    );
    assert_eq!(shadow.on_trap(Trap::HandleSioEntry, trap_at(0)), vec![]);
    assert_eq!(shadow.on_trap(Trap::MatchEndRet, trap_at(0)), vec![]);
    assert_eq!(shadow.on_trap(Trap::RoundSetEnding, trap_at(0)), vec![]);
    assert_eq!(shadow.on_trap(Trap::GameLoadRet, trap_at(0)), vec![Action::OpenCommMenuFromOverworld]);
    let mut menu = trap_at(0);
    menu.total_settings = 200;
    menu.total_backgrounds = 100;
    assert_eq!(
        shadow.on_trap(Trap::CommMenuInitRet, menu),
        vec![Action::StartBattleFromCommMenu { match_type: 1, battle_settings: 15, background: 2 }]
    );
}
