//! Text and state of the on-screen widgets: the turn indicator and the
//! button that switches the position export for an engine on and off.

use vstd::prelude::*;
use ordinal_type::Ordinal;
use crate::fen::digit;
use crate::model::{PieceColor, Turn};

verus! {

/// Decimal notation of `n`.
pub open spec fn decimal(n: nat) -> Seq<char>
    decreases n,
{
    if n < 10 {
        seq![digit(n)]
    } else {
        decimal(n / 10).push(digit(n % 10))
    }
}

/// English ordinal suffix of `n`: `st`, `nd` and `rd` after a last digit of
/// 1, 2 and 3 except in 11, 12 and 13; `th` otherwise.
pub open spec fn ordinal_suffix(n: nat) -> Seq<char> {
    if n % 10 == 1 && n % 100 != 11 {
        seq!['s', 't']
    } else if n % 10 == 2 && n % 100 != 12 {
        seq!['n', 'd']
    } else if n % 10 == 3 && n % 100 != 13 {
        seq!['r', 'd']
    } else {
        seq!['t', 'h']
    }
}

/// Name of a side.
pub open spec fn color_name(c: PieceColor) -> Seq<char> {
    match c {
        PieceColor::White => "White"@,
        PieceColor::Black => "Black"@,
    }
}

/// Text of the turn indicator: the side to move, and on the next line the
/// move number as an ordinal.
pub open spec fn turn_label_text(turn: Turn) -> Seq<char> {
    "Turn:  "@ + color_name(turn.color) + "\n       "@ + decimal(turn.n as nat) + ordinal_suffix(
        turn.n as nat,
    )
}

/// Relies on the `Display` of ordinal_type's `Ordinal`: the number as `u16`
/// displays it, in decimal, followed by the suffix chosen from its last digits.
#[verifier::external_body]
fn ordinal_text(n: u16) -> (r: String)
    ensures
        r@ == decimal(n as nat) + ordinal_suffix(n as nat),
{
    Ordinal(n).to_string()
}

/// Text of the turn indicator, such as `Turn:  Black` then `2nd` on the next line.
pub fn turn_label(turn: &Turn) -> (r: String)
    ensures
        r@ == turn_label_text(*turn),
{
    let mut text = String::from_str("Turn:  ");
    match turn.color {
        PieceColor::White => text.append("White"),
        PieceColor::Black => text.append("Black"),
    }
    text.append("\n       ");
    let number = ordinal_text(turn.n);
    text.append(number.as_str());
    proof {
        assert(text@ =~= turn_label_text(*turn));
    }
    text
}

/// Whether positions are exported for an engine after each move.
#[derive(Clone, Copy, Debug, PartialEq, Eq, Structural)]
pub struct AIEnabled(pub bool);

/// What the pointer is doing with the button.
#[derive(Clone, Copy, Debug, PartialEq, Eq, Structural)]
pub enum ButtonInteraction {
    Clicked,
    Hovered,
    Idle,
}

/// Background shade of the button.
#[derive(Clone, Copy, Debug, PartialEq, Eq, Structural)]
pub enum ButtonShade {
    Enabled,
    EnabledHover,
    Disabled,
    DisabledHover,
}

/// How the button is to be drawn after an interaction.
#[derive(Clone, Copy, Debug, PartialEq, Eq, Structural)]
pub struct ButtonUpdate {
    pub shade: ButtonShade,
    /// The label must be rewritten to match the new state.
    pub relabel: bool,
}

/// Shade of the button for an interaction, given the state after it.
pub open spec fn shade_spec(interaction: ButtonInteraction, enabled: bool) -> ButtonShade {
    match interaction {
        ButtonInteraction::Hovered => if enabled {
            ButtonShade::EnabledHover
        } else {
            ButtonShade::DisabledHover
        },
        _ => if enabled {
            ButtonShade::Enabled
        } else {
            ButtonShade::Disabled
        },
    }
}

impl AIEnabled {
    /// Label of the button in this state.
    pub fn label(&self) -> (r: &'static str)
        ensures
            r@ == (if self.0 {
                "AI enabled"@
            } else {
                "AI disabled"@
            }),
    {
        if self.0 {
            "AI enabled"
        } else {
            "AI disabled"
        }
    }
}

/// A click toggles the state; hovering and leaving only change the shade.
pub fn update_enable_ai_button_ui(interaction: ButtonInteraction, ai_enabled: &mut AIEnabled) -> (r:
    ButtonUpdate)
    ensures
        interaction == ButtonInteraction::Clicked ==> final(ai_enabled).0 == !old(ai_enabled).0,
        interaction != ButtonInteraction::Clicked ==> *final(ai_enabled) == *old(ai_enabled),
        r.relabel == (interaction == ButtonInteraction::Clicked),
        r.shade == shade_spec(interaction, final(ai_enabled).0),
{
    match interaction {
        ButtonInteraction::Clicked => {
            if ai_enabled.0 {
                ai_enabled.0 = false;
                ButtonUpdate { shade: ButtonShade::Disabled, relabel: true }
            } else {
                ai_enabled.0 = true;
                ButtonUpdate { shade: ButtonShade::Enabled, relabel: true }
            }
        },
        ButtonInteraction::Hovered => {
            if ai_enabled.0 {
                ButtonUpdate { shade: ButtonShade::EnabledHover, relabel: false }
            } else {
                ButtonUpdate { shade: ButtonShade::DisabledHover, relabel: false }
            }
        },
        ButtonInteraction::Idle => {
            if ai_enabled.0 {
                ButtonUpdate { shade: ButtonShade::Enabled, relabel: false }
            } else {
                ButtonUpdate { shade: ButtonShade::Disabled, relabel: false }
            }
        },
    }
}

} // verus!
