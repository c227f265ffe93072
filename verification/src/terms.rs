//! The terms of a term sheet that should concern founders.
use vstd::prelude::*;

use crate::compare::Placement;

verus! {

/// Option pool assumed where none is given, in percent.
pub const DEFAULT_OPTION_POOL_PCT: u32 = 10;

/// Liquidation preference assumed where none is given (1x).
pub const DEFAULT_LIQUIDATION_PREF: u32 = 1;

/// An option pool above this (percent) dilutes founders pre-money.
pub const LARGE_POOL_PCT: u32 = 15;

/// This many board seats or more for an investor raise control issues.
pub const CONTROL_BOARD_SEATS: u8 = 2;

/// A term that should concern founders.
#[derive(PartialEq, Eq, Structural, Clone, Copy, Debug)]
pub enum TermFlag {
    LiquidationPreference,
    LargeOptionPool,
    BoardControl,
}

/// The board seats of a term sheet: those given, else none.
pub open spec fn board_seats_spec(seats: Option<u8>) -> u8 {
    match seats {
        Some(s) => s,
        None => 0,
    }
}

/// The flags of a term sheet, in this order: a liquidation preference above
/// 1x, an option pool above 15%, two or more board seats.
pub open spec fn term_flags_spec(
    liquidation_vs_default: Placement,
    pool_vs_large: Placement,
    board_seats: Option<u8>,
) -> Seq<TermFlag> {
    (if liquidation_vs_default.above() {
        seq![TermFlag::LiquidationPreference]
    } else {
        Seq::empty()
    }) + (if pool_vs_large.above() {
        seq![TermFlag::LargeOptionPool]
    } else {
        Seq::empty()
    }) + (if board_seats_spec(board_seats) >= CONTROL_BOARD_SEATS {
        seq![TermFlag::BoardControl]
    } else {
        Seq::empty()
    })
}

impl TermFlag {
    /// What the flag says.
    pub fn text(&self) -> (r: &'static str)
        ensures
            r@ == match *self {
                TermFlag::LiquidationPreference => "Participating preferred or >1x liquidation"@,
                TermFlag::LargeOptionPool => "Large option pool (>15%) dilutes founders pre-money"@,
                TermFlag::BoardControl => "Multiple board seats - potential control issues"@,
            },
    {
        match self {
            TermFlag::LiquidationPreference => "Participating preferred or >1x liquidation",
            TermFlag::LargeOptionPool => "Large option pool (>15%) dilutes founders pre-money",
            TermFlag::BoardControl => "Multiple board seats - potential control issues",
        }
    }
}

/// The board seats of a term sheet.
pub fn board_seats(seats: Option<u8>) -> (r: u8)
    ensures
        r == board_seats_spec(seats),
{
    match seats {
        Some(s) => s,
        None => 0,
    }
}

/// The flags of a term sheet, from where its liquidation preference lies
/// relative to 1x, where its option pool lies relative to 15%, and its
/// board seats.
pub fn term_flags(
    liquidation_vs_default: Placement,
    pool_vs_large: Placement,
    seats: Option<u8>,
) -> (r: Vec<TermFlag>)
    ensures
        r@ == term_flags_spec(liquidation_vs_default, pool_vs_large, seats),
{
    let mut flags: Vec<TermFlag> = Vec::new();
    if liquidation_vs_default.is_above() {
        flags.push(TermFlag::LiquidationPreference);
    }
    if pool_vs_large.is_above() {
        flags.push(TermFlag::LargeOptionPool);
    }
    if board_seats(seats) >= CONTROL_BOARD_SEATS {
        flags.push(TermFlag::BoardControl);
    }
    assert(flags@ =~= term_flags_spec(liquidation_vs_default, pool_vs_large, seats));
    flags
}

} // verus!

verus! {

/// Each term-sheet flag is raised exactly when its own term calls for it,
/// whatever the others are: a liquidation preference above 1x, an option
/// pool above 15%, two or more board seats (none given counting as none).
pub proof fn lemma_each_term_flag(liquidation_vs_default: Placement, pool_vs_large: Placement, seats: Option<u8>)
    ensures
        ({
            let flags = term_flags_spec(liquidation_vs_default, pool_vs_large, seats);
            &&& flags.contains(TermFlag::LiquidationPreference) <==> liquidation_vs_default
                == Placement::Above
            &&& flags.contains(TermFlag::LargeOptionPool) <==> pool_vs_large == Placement::Above
            &&& flags.contains(TermFlag::BoardControl) <==> (seats matches Some(s) && s >= 2)
            &&& flags.len() <= 3
        }),
{
    let flags = term_flags_spec(liquidation_vs_default, pool_vs_large, seats);
    let a: Seq<TermFlag> = if liquidation_vs_default.above() {
        seq![TermFlag::LiquidationPreference]
    } else {
        Seq::empty()
    };
    let b: Seq<TermFlag> = if pool_vs_large.above() {
        seq![TermFlag::LargeOptionPool]
    } else {
        Seq::empty()
    };
    let c: Seq<TermFlag> = if board_seats_spec(seats) >= CONTROL_BOARD_SEATS {
        seq![TermFlag::BoardControl]
    } else {
        Seq::empty()
    };
    assert(flags == a + b + c);
    assert forall|f: TermFlag| #[trigger] flags.contains(f) <==> (a.contains(f) || b.contains(f)
        || c.contains(f)) by {
        if flags.contains(f) {
            let i = choose|i: int| 0 <= i < flags.len() && flags[i] == f;
            if i < a.len() {
                assert(a[i] == f);
            } else if i < a.len() + b.len() {
                assert(b[i - a.len()] == f);
            } else {
                assert(c[i - a.len() - b.len()] == f);
            }
        }
        if a.contains(f) {
            let i = choose|i: int| 0 <= i < a.len() && a[i] == f;
            assert(flags[i] == f);
        }
        if b.contains(f) {
            let i = choose|i: int| 0 <= i < b.len() && b[i] == f;
            assert(flags[a.len() + i] == f);
        }
        if c.contains(f) {
            let i = choose|i: int| 0 <= i < c.len() && c[i] == f;
            assert(flags[a.len() + b.len() + i] == f);
        }
    }
    if liquidation_vs_default.above() {
        assert(a[0] == TermFlag::LiquidationPreference);
    }
    if pool_vs_large.above() {
        assert(b[0] == TermFlag::LargeOptionPool);
    }
    if board_seats_spec(seats) >= CONTROL_BOARD_SEATS {
        assert(c[0] == TermFlag::BoardControl);
    }
}

} // verus!
