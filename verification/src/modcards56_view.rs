//! The view of the mod cards of a save: what it shows of a card and what it
//! copies to the clipboard.

use vstd::prelude::*;

verus! {

/// The state that the view keeps between frames.
#[derive(Debug, PartialEq, Eq, Structural)]
pub struct State {}

impl State {
    /// The state of a view that has not been shown yet.
    pub fn new() -> (state: Self)
        ensures
            state == (State {  }),
    {
        Self {  }
    }
}

/// The view of the mod cards of a save.
#[derive(Debug, PartialEq, Eq, Structural)]
pub struct Modcards56View {}

/// A color, as red, green and blue.
#[derive(Clone, Copy, Debug, PartialEq, Eq, Structural)]
pub struct Color {
    pub r: u8,
    pub g: u8,
    pub b: u8,
}

/// One effect of a mod card: an ability or not, a debuff or a buff.
#[derive(Clone, Copy, Debug, PartialEq, Eq, Structural)]
pub struct Effect {
    pub is_ability: bool,
    pub is_debuff: bool,
}

/// What is known of the card in one slot of the save.
#[derive(Clone, Copy, Debug, PartialEq, Eq, Structural)]
pub struct Slot {
    /// Whether the slot holds a card.
    pub occupied: bool,
    /// Whether the card is enabled.
    pub enabled: bool,
    /// Whether the game's data describes the card.
    pub known: bool,
}

/// The color behind the name of an effect.
pub open spec fn spec_effect_color(is_enabled: bool, is_debuff: bool) -> Color {
    if is_enabled {
        if is_debuff {
            Color { r: 0xb5, g: 0x5a, b: 0xde }
        } else {
            Color { r: 0xff, g: 0xbd, b: 0x18 }
        }
    } else {
        Color { r: 0xbd, g: 0xbd, b: 0xbd }
    }
}

/// The color behind the name of an effect: gray for a card that is not
/// enabled, else one color for a debuff and another for a buff.
pub fn effect_color(is_enabled: bool, is_debuff: bool) -> (color: Color)
    ensures
        color == spec_effect_color(is_enabled, is_debuff),
{
    if is_enabled {
        if is_debuff {
            Color { r: 0xb5, g: 0x5a, b: 0xde }
        } else {
            Color { r: 0xff, g: 0xbd, b: 0x18 }
        }
    } else {
        Color { r: 0xbd, g: 0xbd, b: 0xbd }
    }
}

/// The number of abilities among the first `n` effects.
pub open spec fn spec_count_abilities(effects: Seq<Effect>, n: nat) -> nat
    decreases n,
{
    if n == 0 {
        0
    } else {
        spec_count_abilities(effects, (n - 1) as nat) + (if effects[n - 1].is_ability {
            1nat
        } else {
            0nat
        })
    }
}

/// The number of lines that the row of a card takes: as many as it has
/// abilities, or as many as it has other effects, whichever is more.
pub open spec fn spec_row_lines(effects: Seq<Effect>) -> nat {
    let abilities = spec_count_abilities(effects, effects.len());
    let others = (effects.len() - abilities) as nat;
    if abilities >= others {
        abilities
    } else {
        others
    }
}

/// Whether the card of a slot is copied to the clipboard: the slot holds a
/// card, the card is enabled and the game's data describes it.
pub open spec fn spec_is_copied(slot: Slot) -> bool {
    slot.occupied && slot.enabled && slot.known
}

/// The slots among the first `n` whose cards are copied, in order.
pub open spec fn spec_copied_slots(slots: Seq<Slot>, n: nat) -> Seq<usize>
    decreases n,
{
    if n == 0 {
        Seq::empty()
    } else if spec_is_copied(slots[n - 1]) {
        spec_copied_slots(slots, (n - 1) as nat).push((n - 1) as usize)
    } else {
        spec_copied_slots(slots, (n - 1) as nat)
    }
}

impl Modcards56View {
    /// A view of the mod cards.
    pub fn new() -> (view: Self)
        ensures
            view == (Modcards56View {  }),
    {
        Self {  }
    }

    /// The number of lines that the row of a card takes.
    pub fn row_lines(&self, effects: &Vec<Effect>) -> (lines: usize)
        ensures
            lines == spec_row_lines(effects@),
    {
        let mut abilities: usize = 0;
        let mut i: usize = 0;
        while i < effects.len()
            invariant
                i <= effects@.len(),
                abilities == spec_count_abilities(effects@, i as nat),
                abilities <= i,
            decreases effects@.len() - i,
        {
            if effects[i].is_ability {
                abilities = abilities + 1;
            }
            i = i + 1;
        }
        let others: usize = effects.len() - abilities;
        if abilities >= others {
            abilities
        } else {
            others
        }
    }

    /// The slots whose cards are copied to the clipboard, in order.
    pub fn copied_slots(&self, slots: &Vec<Slot>) -> (copied: Vec<usize>)
        ensures
            copied@ == spec_copied_slots(slots@, slots@.len()),
    {
        let mut copied: Vec<usize> = Vec::new();
        let mut i: usize = 0;
        while i < slots.len()
            invariant
                i <= slots@.len(),
                copied@ == spec_copied_slots(slots@, i as nat),
            decreases slots@.len() - i,
        {
            let slot = slots[i];
            if slot.occupied && slot.enabled && slot.known {
                copied.push(i);
            }
            i = i + 1;
        }
        copied
    }
}

} // verus!
