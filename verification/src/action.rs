//! What the engine asks of the simulation and of the network: an answer to a
//! trap is a list of actions, to be performed in order.

use crate::lockstep::{InputPair, JoyInput};
use vstd::prelude::*;

verus! {

/// The bits that the game expects set in the register that holds the buttons.
pub const JOYFLAGS_REGISTER_MASK: u16 = 0xfc00;

/// The length of the call that a trap skips, in bytes.
pub const SKIPPED_CALL_LENGTH: u32 = 4;

/// One thing to do to the simulation, to the network or to the match.
#[derive(Debug, PartialEq, Eq)]
pub enum Action {
    /// Skip the logo screen.
    SkipLogo,
    /// Skip the intro.
    SkipIntro,
    /// Continue from the title menu.
    ContinueFromTitleMenu,
    /// Open the communication menu from the overworld.
    OpenCommMenuFromOverworld,
    /// Set the program counter.
    SetThumbPc { pc: u32 },
    /// Set a general-purpose register.
    SetGpr { index: u8, value: i32 },
    /// Start the battle from the communication menu.
    StartBattleFromCommMenu { match_type: u8, battle_settings: u8, background: u8 },
    /// Set the state that the game reads its link input from.
    SetCopyDataInputState { mode: u8 },
    /// Set the state of the private generator.
    SetRng1State { state: u32 },
    /// Set the state of the first shared generator.
    SetRng2State { state: u32 },
    /// Set the state of the second shared generator.
    SetRng3State { state: u32 },
    /// Write the packet that the game receives for a player.
    SetRxPacket { player: u8, payload: Vec<u8> },
    /// Take a snapshot and commit the round with it, then deliver the trap
    /// again.
    SaveFirstCommittedState,
    /// Take a snapshot and keep it as the state applied at `tick`.
    SaveAppliedState { tick: u32 },
    /// Take a snapshot and keep it as the state at the commit tick.
    SaveCommittedState,
    /// Take a snapshot and keep it as the state at the dirty tick.
    SaveDirtyState,
    /// Run the shadow over a pair and write the packet that it answers with
    /// as the one received for `player`.
    ApplyShadowInput { player: u8, pair: InputPair, local_payload: Vec<u8> },
    /// Send a local input to the peer, with the packet of the same tick.
    SendInput { input: JoyInput, payload: Vec<u8> },
    /// Hand the pair of the current tick to the simulation.
    SupplyInput { pair: InputPair, payload: Vec<u8> },
    /// Wait until the remote input of `tick` has arrived, then supply it.
    AwaitRemoteInput { tick: u32 },
    /// Run the shadow until its round has ended.
    AdvanceShadowUntilRoundEnd,
    /// Tell whoever waits for the match that it is over.
    CompleteMatch,
}

/// A place in the game's code at which the simulation stops and asks the
/// engine what to do.
#[derive(Clone, Copy, Debug, PartialEq, Eq, Structural)]
pub enum Trap {
    StartScreenJumpTableEntry,
    IntroJumpTableEntry,
    StartScreenSramUnmaskRet,
    GameLoadRet,
    CommMenuHandleLinkCableInput,
    CommMenuInitRet,
    MatchEndRet,
    RoundEndSetWin,
    RoundEndSetLoss,
    RoundEndDamageJudgeSetWin,
    RoundEndDamageJudgeSetLoss,
    RoundEndDamageJudgeSetDraw,
    RoundSetEnding,
    RoundStartRet,
    RoundEndEntry,
    BattleIsP2Tst,
    LinkIsP2Ret,
    HandleSioEntry,
    InBattleCallHandleLinkCableInput,
    MainReadJoyflags,
    CopyInputDataEntry,
    CopyInputDataRet,
    RoundCallJumpTableRet,
    BattleStartPlayMusicCall,
}

/// What is read from the simulation when it stops at a trap.
#[derive(Debug, PartialEq, Eq)]
pub struct TrapInput {
    /// The program counter.
    pub pc: u32,
    /// The buttons that the local player holds.
    pub joyflags: u16,
    /// The packet that the game has written for the link.
    pub tx_packet: Vec<u8>,
    /// The number of battle settings that the game offers for the match type.
    pub total_settings: u8,
    /// The number of backgrounds that the game offers for the match type.
    pub total_backgrounds: u8,
}

/// What the traps that skip the start of the game ask for, and nothing for
/// any other trap.
pub open spec fn spec_common_trap_actions(trap: Trap, pc: u32) -> Seq<Action> {
    match trap {
        Trap::StartScreenJumpTableEntry => seq![Action::SkipLogo],
        Trap::IntroJumpTableEntry => seq![Action::SkipIntro],
        Trap::StartScreenSramUnmaskRet => seq![Action::ContinueFromTitleMenu],
        Trap::GameLoadRet => seq![Action::OpenCommMenuFromOverworld],
        Trap::CommMenuHandleLinkCableInput => seq![
            Action::SetThumbPc { pc: spec_skip_call(pc) },
            Action::SetGpr { index: 0, value: 0 },
            Action::SetGpr { index: 1, value: 0 },
        ],
        _ => Seq::<Action>::empty(),
    }
}

/// What a trap on the way into the communication menu asks for: the logo
/// and the intro are skipped, the game continues from the title menu and
/// opens the communication menu, and the call that would read the link cable
/// is skipped with both its results zero.
pub fn common_trap_actions(trap: Trap, pc: u32) -> (actions: Vec<Action>)
    ensures
        actions@ == spec_common_trap_actions(trap, pc),
{
    let mut actions: Vec<Action> = Vec::new();
    match trap {
        Trap::StartScreenJumpTableEntry => {
            actions.push(Action::SkipLogo);
        },
        Trap::IntroJumpTableEntry => {
            actions.push(Action::SkipIntro);
        },
        Trap::StartScreenSramUnmaskRet => {
            actions.push(Action::ContinueFromTitleMenu);
        },
        Trap::GameLoadRet => {
            actions.push(Action::OpenCommMenuFromOverworld);
        },
        Trap::CommMenuHandleLinkCableInput => {
            actions.push(Action::SetThumbPc { pc: skip_call(pc) });
            actions.push(Action::SetGpr { index: 0, value: 0 });
            actions.push(Action::SetGpr { index: 1, value: 0 });
        },
        _ => {},
    }
    actions
}

/// What skipping the call that reads the link cable in battle asks for.
pub open spec fn spec_link_cable_actions(pc: u32, mode: u8) -> Seq<Action> {
    seq![Action::SetThumbPc { pc: spec_skip_call(pc) }, Action::SetCopyDataInputState { mode }]
}

/// The game would read the link cable in battle: the call is skipped and
/// the state that the game reads its link input from is set.
pub fn link_cable_actions(pc: u32, mode: u8) -> (actions: Vec<Action>)
    ensures
        actions@ == spec_link_cable_actions(pc, mode),
{
    let mut actions: Vec<Action> = Vec::new();
    actions.push(Action::SetThumbPc { pc: skip_call(pc) });
    actions.push(Action::SetCopyDataInputState { mode });
    actions
}

/// The value that the register of the buttons takes for `joyflags`.
pub open spec fn spec_joyflags_register(joyflags: u16) -> i32 {
    (joyflags | JOYFLAGS_REGISTER_MASK) as i32
}

/// The value that the register of the buttons takes for `joyflags`.
pub fn joyflags_register(joyflags: u16) -> (value: i32)
    ensures
        value == spec_joyflags_register(joyflags),
{
    (joyflags | JOYFLAGS_REGISTER_MASK) as i32
}

/// The address behind a call at `pc`, on the 32-bit address space.
pub open spec fn spec_skip_call(pc: u32) -> u32 {
    ((pc + SKIPPED_CALL_LENGTH) % 0x1_0000_0000) as u32
}

/// The address behind a call at `pc`.
pub fn skip_call(pc: u32) -> (target: u32)
    ensures
        target == spec_skip_call(pc),
{
    pc.wrapping_add(SKIPPED_CALL_LENGTH)
}

} // verus!
