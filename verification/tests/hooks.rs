use tango_core::action::{
    common_trap_actions, joyflags_register, link_cable_actions, skip_call, Action, Trap,
};
use tango_core::hooks::{Hooks, Offsets, RomOffsets};

fn offsets() -> Offsets {
    Offsets {
        rom: RomOffsets {
            start_screen_jump_table_entry: 1,
            intro_jump_table_entry: 2,
            start_screen_sram_unmask_ret: 3,
            game_load_ret: 4,
            comm_menu_handle_link_cable_input: 5,
            comm_menu_init_ret: 6,
            match_end_ret: 7,
            round_end_set_win: 8,
            round_end_set_loss: 9,
            round_end_damage_judge_set_win: 10,
            round_end_damage_judge_set_loss: 11,
            round_end_damage_judge_set_draw: 12,
            round_set_ending: 13,
            round_start_ret: 14,
            battle_is_p2_tst: 15,
            link_is_p2_ret: 16,
            handle_sio_entry: 17,
            in_battle_call_handle_link_cable_input: 18,
            main_read_joyflags: 19,
            round_call_jump_table_ret: 20,
            round_end_entry: 21,
            copy_input_data_entry: 22,
            copy_input_data_ret1: 23,
            copy_input_data_ret2: 24,
            copy_input_data_ret3: 25,
            battle_start_play_music_call: 26,
        },
    }
}

#[test]
fn hooks_keep_their_offsets() {
    let hooks = Hooks::new(offsets());
    assert_eq!(hooks.offsets, offsets());
    assert_eq!(hooks.munger().offsets, offsets());
}

#[test]
fn common_traps_table() {
    assert_eq!(
        Hooks::new(offsets()).common_traps(),
        vec![
            (1, Trap::StartScreenJumpTableEntry),
            (2, Trap::IntroJumpTableEntry),
            (3, Trap::StartScreenSramUnmaskRet),
            (4, Trap::GameLoadRet),
            (5, Trap::CommMenuHandleLinkCableInput),
        ]
    );
}

#[test]
fn primary_traps_table() {
    assert_eq!(
        Hooks::new(offsets()).primary_traps(),
        vec![
            (6, Trap::CommMenuInitRet),
            (7, Trap::MatchEndRet),
            (8, Trap::RoundEndSetWin),
            (9, Trap::RoundEndSetLoss),
            (10, Trap::RoundEndDamageJudgeSetWin),
            (11, Trap::RoundEndDamageJudgeSetLoss),
            (12, Trap::RoundEndDamageJudgeSetDraw),
            (13, Trap::RoundSetEnding),
            (14, Trap::RoundStartRet),
            (15, Trap::BattleIsP2Tst),
            (16, Trap::LinkIsP2Ret),
            (17, Trap::HandleSioEntry),
            (18, Trap::InBattleCallHandleLinkCableInput),
            (19, Trap::MainReadJoyflags),
            (20, Trap::RoundCallJumpTableRet),
        ]
    );
}

#[test]
fn shadow_traps_table() {
    assert_eq!(
        Hooks::new(offsets()).shadow_traps(),
        vec![
            (6, Trap::CommMenuInitRet),
            (8, Trap::RoundEndSetWin),
            (9, Trap::RoundEndSetLoss),
            (10, Trap::RoundEndDamageJudgeSetWin),
            (11, Trap::RoundEndDamageJudgeSetLoss),
            (12, Trap::RoundEndDamageJudgeSetDraw),
            (14, Trap::RoundStartRet),
            (21, Trap::RoundEndEntry),
            (15, Trap::BattleIsP2Tst),
            (16, Trap::LinkIsP2Ret),
            (17, Trap::HandleSioEntry),
            (18, Trap::InBattleCallHandleLinkCableInput),
            (19, Trap::MainReadJoyflags),
            (22, Trap::CopyInputDataEntry),
            (23, Trap::CopyInputDataRet),
            (24, Trap::CopyInputDataRet),
            (25, Trap::CopyInputDataRet),
            (20, Trap::RoundCallJumpTableRet),
        ]
    );
}

#[test]
fn replayer_traps_table() {
    assert_eq!(
        Hooks::new(offsets()).replayer_traps(),
        vec![
            (26, Trap::BattleStartPlayMusicCall),
            (15, Trap::BattleIsP2Tst),
            (16, Trap::LinkIsP2Ret),
            (18, Trap::InBattleCallHandleLinkCableInput),
            (13, Trap::RoundSetEnding),
            (21, Trap::RoundEndEntry),
            (19, Trap::MainReadJoyflags),
            (22, Trap::CopyInputDataEntry),
            (23, Trap::CopyInputDataRet),
            (24, Trap::CopyInputDataRet),
            (25, Trap::CopyInputDataRet),
            (20, Trap::RoundCallJumpTableRet),
            (8, Trap::RoundEndSetWin),
            (9, Trap::RoundEndSetLoss),
            (10, Trap::RoundEndDamageJudgeSetWin),
            (11, Trap::RoundEndDamageJudgeSetLoss),
            (12, Trap::RoundEndDamageJudgeSetDraw),
        ]
    );
}

#[test]
fn fastforward_starts_where_the_buttons_are_read() {
    assert_eq!(Hooks::new(offsets()).prepare_for_fastforward(), Action::SetThumbPc { pc: 19 });
}

#[test]
fn common_trap_actions_skip_the_start_of_the_game() {
    assert_eq!(common_trap_actions(Trap::StartScreenJumpTableEntry, 0), vec![Action::SkipLogo]);
    assert_eq!(common_trap_actions(Trap::IntroJumpTableEntry, 0), vec![Action::SkipIntro]);
    assert_eq!(
        common_trap_actions(Trap::StartScreenSramUnmaskRet, 0),
        vec![Action::ContinueFromTitleMenu]
    );
    assert_eq!(common_trap_actions(Trap::GameLoadRet, 0), vec![Action::OpenCommMenuFromOverworld]);
    assert_eq!(
        common_trap_actions(Trap::CommMenuHandleLinkCableInput, 0x0803_0000),
        vec![
            Action::SetThumbPc { pc: 0x0803_0004 },
            Action::SetGpr { index: 0, value: 0 },
            Action::SetGpr { index: 1, value: 0 },
        ]
    );
    assert_eq!(common_trap_actions(Trap::MainReadJoyflags, 0), vec![]);
}

#[test]
fn small_helpers() {
    assert_eq!(skip_call(0x0800_0000), 0x0800_0004);
    assert_eq!(skip_call(0xffff_fffd), 1);
    assert_eq!(joyflags_register(0), 0xfc00);
    assert_eq!(joyflags_register(0x03ff), 0xffff);
    assert_eq!(joyflags_register(0x0101), 0xfd01);
    assert_eq!(
        link_cable_actions(8, 4),
        vec![Action::SetThumbPc { pc: 12 }, Action::SetCopyDataInputState { mode: 4 }]
    );
}
