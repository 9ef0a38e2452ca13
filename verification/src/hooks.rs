//! The places in the game's code that the engine traps, and which trap
//! each instance installs where.

use crate::action::{Action, Trap};
use vstd::prelude::*;

verus! {

/// The addresses in the game's code that the engine knows.
#[derive(Clone, Copy, Debug, PartialEq, Eq, Structural)]
pub struct RomOffsets {
    pub start_screen_jump_table_entry: u32,
    pub intro_jump_table_entry: u32,
    pub start_screen_sram_unmask_ret: u32,
    pub game_load_ret: u32,
    pub comm_menu_handle_link_cable_input: u32,
    pub comm_menu_init_ret: u32,
    pub match_end_ret: u32,
    pub round_end_set_win: u32,
    pub round_end_set_loss: u32,
    pub round_end_damage_judge_set_win: u32,
    pub round_end_damage_judge_set_loss: u32,
    pub round_end_damage_judge_set_draw: u32,
    pub round_set_ending: u32,
    pub round_start_ret: u32,
    pub battle_is_p2_tst: u32,
    pub link_is_p2_ret: u32,
    pub handle_sio_entry: u32,
    pub in_battle_call_handle_link_cable_input: u32,
    pub main_read_joyflags: u32,
    pub round_call_jump_table_ret: u32,
    pub round_end_entry: u32,
    pub copy_input_data_entry: u32,
    pub copy_input_data_ret1: u32,
    pub copy_input_data_ret2: u32,
    pub copy_input_data_ret3: u32,
    pub battle_start_play_music_call: u32,
}

/// The addresses that the engine knows of one version of the game.
#[derive(Clone, Copy, Debug, PartialEq, Eq, Structural)]
pub struct Offsets {
    pub rom: RomOffsets,
}

/// The hand that writes to the game's memory at the addresses of one
/// version of the game.
#[derive(Clone, Copy, Debug, PartialEq, Eq, Structural)]
pub struct Munger {
    pub offsets: Offsets,
}

/// The traps of one version of the game.
#[derive(Clone, Copy, Debug, PartialEq, Eq, Structural)]
pub struct Hooks {
    pub offsets: Offsets,
}

/// The traps on the way into the communication menu, which every instance
/// that boots the game installs.
pub open spec fn spec_common_traps(rom: RomOffsets) -> Seq<(u32, Trap)> {
    seq![
        (rom.start_screen_jump_table_entry, Trap::StartScreenJumpTableEntry),
        (rom.intro_jump_table_entry, Trap::IntroJumpTableEntry),
        (rom.start_screen_sram_unmask_ret, Trap::StartScreenSramUnmaskRet),
        (rom.game_load_ret, Trap::GameLoadRet),
        (rom.comm_menu_handle_link_cable_input, Trap::CommMenuHandleLinkCableInput),
    ]
}

/// The traps of the primary instance.
pub open spec fn spec_primary_traps(rom: RomOffsets) -> Seq<(u32, Trap)> {
    seq![
        (rom.comm_menu_init_ret, Trap::CommMenuInitRet),
        (rom.match_end_ret, Trap::MatchEndRet),
        (rom.round_end_set_win, Trap::RoundEndSetWin),
        (rom.round_end_set_loss, Trap::RoundEndSetLoss),
        (rom.round_end_damage_judge_set_win, Trap::RoundEndDamageJudgeSetWin),
        (rom.round_end_damage_judge_set_loss, Trap::RoundEndDamageJudgeSetLoss),
        (rom.round_end_damage_judge_set_draw, Trap::RoundEndDamageJudgeSetDraw),
        (rom.round_set_ending, Trap::RoundSetEnding),
        (rom.round_start_ret, Trap::RoundStartRet),
        (rom.battle_is_p2_tst, Trap::BattleIsP2Tst),
        (rom.link_is_p2_ret, Trap::LinkIsP2Ret),
        (rom.handle_sio_entry, Trap::HandleSioEntry),
        (rom.in_battle_call_handle_link_cable_input, Trap::InBattleCallHandleLinkCableInput),
        (rom.main_read_joyflags, Trap::MainReadJoyflags),
        (rom.round_call_jump_table_ret, Trap::RoundCallJumpTableRet),
    ]
}

/// The traps of the shadow instance.
pub open spec fn spec_shadow_traps(rom: RomOffsets) -> Seq<(u32, Trap)> {
    seq![
        (rom.comm_menu_init_ret, Trap::CommMenuInitRet),
        (rom.round_end_set_win, Trap::RoundEndSetWin),
        (rom.round_end_set_loss, Trap::RoundEndSetLoss),
        (rom.round_end_damage_judge_set_win, Trap::RoundEndDamageJudgeSetWin),
        (rom.round_end_damage_judge_set_loss, Trap::RoundEndDamageJudgeSetLoss),
        (rom.round_end_damage_judge_set_draw, Trap::RoundEndDamageJudgeSetDraw),
        (rom.round_start_ret, Trap::RoundStartRet),
        (rom.round_end_entry, Trap::RoundEndEntry),
        (rom.battle_is_p2_tst, Trap::BattleIsP2Tst),
        (rom.link_is_p2_ret, Trap::LinkIsP2Ret),
        (rom.handle_sio_entry, Trap::HandleSioEntry),
        (rom.in_battle_call_handle_link_cable_input, Trap::InBattleCallHandleLinkCableInput),
        (rom.main_read_joyflags, Trap::MainReadJoyflags),
        (rom.copy_input_data_entry, Trap::CopyInputDataEntry),
        (rom.copy_input_data_ret1, Trap::CopyInputDataRet),
        (rom.copy_input_data_ret2, Trap::CopyInputDataRet),
        (rom.copy_input_data_ret3, Trap::CopyInputDataRet),
        (rom.round_call_jump_table_ret, Trap::RoundCallJumpTableRet),
    ]
}

/// The traps of an instance that plays a recording back.
pub open spec fn spec_replayer_traps(rom: RomOffsets) -> Seq<(u32, Trap)> {
    seq![
        (rom.battle_start_play_music_call, Trap::BattleStartPlayMusicCall),
        (rom.battle_is_p2_tst, Trap::BattleIsP2Tst),
        (rom.link_is_p2_ret, Trap::LinkIsP2Ret),
        (rom.in_battle_call_handle_link_cable_input, Trap::InBattleCallHandleLinkCableInput),
        (rom.round_set_ending, Trap::RoundSetEnding),
        (rom.round_end_entry, Trap::RoundEndEntry),
        (rom.main_read_joyflags, Trap::MainReadJoyflags),
        (rom.copy_input_data_entry, Trap::CopyInputDataEntry),
        (rom.copy_input_data_ret1, Trap::CopyInputDataRet),
        (rom.copy_input_data_ret2, Trap::CopyInputDataRet),
        (rom.copy_input_data_ret3, Trap::CopyInputDataRet),
        (rom.round_call_jump_table_ret, Trap::RoundCallJumpTableRet),
        (rom.round_end_set_win, Trap::RoundEndSetWin),
        (rom.round_end_set_loss, Trap::RoundEndSetLoss),
        (rom.round_end_damage_judge_set_win, Trap::RoundEndDamageJudgeSetWin),
        (rom.round_end_damage_judge_set_loss, Trap::RoundEndDamageJudgeSetLoss),
        (rom.round_end_damage_judge_set_draw, Trap::RoundEndDamageJudgeSetDraw),
    ]
}

impl Hooks {
    /// The traps of the version of the game with these addresses.
    pub fn new(offsets: Offsets) -> (hooks: Hooks)
        ensures
            hooks.offsets == offsets,
    {
        Hooks { offsets }
    }

    /// The hand that writes to the game's memory, at the same addresses.
    pub fn munger(&self) -> (munger: Munger)
        ensures
            munger.offsets == self.offsets,
    {
        Munger { offsets: self.offsets }
    }

    /// The traps on the way into the communication menu, which every instance
    /// that boots the game installs.
    pub fn common_traps(&self) -> (traps: Vec<(u32, Trap)>)
        ensures
            traps@ == spec_common_traps(self.offsets.rom),
    {
        let rom = self.offsets.rom;
        let mut traps: Vec<(u32, Trap)> = Vec::new();
        traps.push((rom.start_screen_jump_table_entry, Trap::StartScreenJumpTableEntry));
        traps.push((rom.intro_jump_table_entry, Trap::IntroJumpTableEntry));
        traps.push((rom.start_screen_sram_unmask_ret, Trap::StartScreenSramUnmaskRet));
        traps.push((rom.game_load_ret, Trap::GameLoadRet));
        traps.push((rom.comm_menu_handle_link_cable_input, Trap::CommMenuHandleLinkCableInput));
        traps
    }

    /// The traps of the primary instance.
    pub fn primary_traps(&self) -> (traps: Vec<(u32, Trap)>)
        ensures
            traps@ == spec_primary_traps(self.offsets.rom),
    {
        let rom = self.offsets.rom;
        let mut traps: Vec<(u32, Trap)> = Vec::new();
        traps.push((rom.comm_menu_init_ret, Trap::CommMenuInitRet));
        traps.push((rom.match_end_ret, Trap::MatchEndRet));
        traps.push((rom.round_end_set_win, Trap::RoundEndSetWin));
        traps.push((rom.round_end_set_loss, Trap::RoundEndSetLoss));
        traps.push((rom.round_end_damage_judge_set_win, Trap::RoundEndDamageJudgeSetWin));
        traps.push((rom.round_end_damage_judge_set_loss, Trap::RoundEndDamageJudgeSetLoss));
        traps.push((rom.round_end_damage_judge_set_draw, Trap::RoundEndDamageJudgeSetDraw));
        traps.push((rom.round_set_ending, Trap::RoundSetEnding));
        traps.push((rom.round_start_ret, Trap::RoundStartRet));
        traps.push((rom.battle_is_p2_tst, Trap::BattleIsP2Tst));
        traps.push((rom.link_is_p2_ret, Trap::LinkIsP2Ret));
        traps.push((rom.handle_sio_entry, Trap::HandleSioEntry));
        traps.push(
            (rom.in_battle_call_handle_link_cable_input, Trap::InBattleCallHandleLinkCableInput),
        );
        traps.push((rom.main_read_joyflags, Trap::MainReadJoyflags));
        traps.push((rom.round_call_jump_table_ret, Trap::RoundCallJumpTableRet));
        traps
    }

    /// The traps of the shadow instance.
    pub fn shadow_traps(&self) -> (traps: Vec<(u32, Trap)>)
        ensures
            traps@ == spec_shadow_traps(self.offsets.rom),
    {
        let rom = self.offsets.rom;
        let mut traps: Vec<(u32, Trap)> = Vec::new();
        traps.push((rom.comm_menu_init_ret, Trap::CommMenuInitRet));
        traps.push((rom.round_end_set_win, Trap::RoundEndSetWin));
        traps.push((rom.round_end_set_loss, Trap::RoundEndSetLoss));
        traps.push((rom.round_end_damage_judge_set_win, Trap::RoundEndDamageJudgeSetWin));
        traps.push((rom.round_end_damage_judge_set_loss, Trap::RoundEndDamageJudgeSetLoss));
        traps.push((rom.round_end_damage_judge_set_draw, Trap::RoundEndDamageJudgeSetDraw));
        traps.push((rom.round_start_ret, Trap::RoundStartRet));
        traps.push((rom.round_end_entry, Trap::RoundEndEntry));
        traps.push((rom.battle_is_p2_tst, Trap::BattleIsP2Tst));
        traps.push((rom.link_is_p2_ret, Trap::LinkIsP2Ret));
        traps.push((rom.handle_sio_entry, Trap::HandleSioEntry));
        traps.push(
            (rom.in_battle_call_handle_link_cable_input, Trap::InBattleCallHandleLinkCableInput),
        );
        traps.push((rom.main_read_joyflags, Trap::MainReadJoyflags));
        traps.push((rom.copy_input_data_entry, Trap::CopyInputDataEntry));
        traps.push((rom.copy_input_data_ret1, Trap::CopyInputDataRet));
        traps.push((rom.copy_input_data_ret2, Trap::CopyInputDataRet));
        traps.push((rom.copy_input_data_ret3, Trap::CopyInputDataRet));
        traps.push((rom.round_call_jump_table_ret, Trap::RoundCallJumpTableRet));
        traps
    }

    /// The traps of an instance that plays a recording back.
    pub fn replayer_traps(&self) -> (traps: Vec<(u32, Trap)>)
        ensures
            traps@ == spec_replayer_traps(self.offsets.rom),
    {
        let rom = self.offsets.rom;
        let mut traps: Vec<(u32, Trap)> = Vec::new();
        traps.push((rom.battle_start_play_music_call, Trap::BattleStartPlayMusicCall));
        traps.push((rom.battle_is_p2_tst, Trap::BattleIsP2Tst));
        traps.push((rom.link_is_p2_ret, Trap::LinkIsP2Ret));
        traps.push(
            (rom.in_battle_call_handle_link_cable_input, Trap::InBattleCallHandleLinkCableInput),
        );
        traps.push((rom.round_set_ending, Trap::RoundSetEnding));
        traps.push((rom.round_end_entry, Trap::RoundEndEntry));
        traps.push((rom.main_read_joyflags, Trap::MainReadJoyflags));
        traps.push((rom.copy_input_data_entry, Trap::CopyInputDataEntry));
        traps.push((rom.copy_input_data_ret1, Trap::CopyInputDataRet));
        traps.push((rom.copy_input_data_ret2, Trap::CopyInputDataRet));
        traps.push((rom.copy_input_data_ret3, Trap::CopyInputDataRet));
        traps.push((rom.round_call_jump_table_ret, Trap::RoundCallJumpTableRet));
        traps.push((rom.round_end_set_win, Trap::RoundEndSetWin));
        traps.push((rom.round_end_set_loss, Trap::RoundEndSetLoss));
        traps.push((rom.round_end_damage_judge_set_win, Trap::RoundEndDamageJudgeSetWin));
        traps.push((rom.round_end_damage_judge_set_loss, Trap::RoundEndDamageJudgeSetLoss));
        traps.push((rom.round_end_damage_judge_set_draw, Trap::RoundEndDamageJudgeSetDraw));
        traps
    }

    /// What puts an instance where the game reads the buttons, from where a
    /// run of recorded ticks is played at full speed.
    pub fn prepare_for_fastforward(&self) -> (action: Action)
        ensures
            action == (Action::SetThumbPc { pc: self.offsets.rom.main_read_joyflags }),
    {
        Action::SetThumbPc { pc: self.offsets.rom.main_read_joyflags }
    }
}

} // verus!
