//! The program dispatch table: which program a menu index launches.
//! An index with no binding resolves to `NotFound` rather than
//! panicking or silently doing nothing.

use vstd::prelude::*;

use crate::ProgramState;

verus! {

/// The compiled-in binding from menu index to program. Every index
/// outside the table maps to `NotFound`.
pub open spec fn spec_program_for_index(index: int) -> ProgramState {
    if index == 0 {
        ProgramState::Lynix
    } else if index == 1 {
        ProgramState::Ccnb
    } else if index == 2 {
        ProgramState::Socials
    } else if index == 3 {
        ProgramState::Info
    } else if index == 4 {
        ProgramState::Blinky
    } else {
        ProgramState::NotFound
    }
}

/// Looks a menu index up in the dispatch table.
pub fn program_for_index(index: usize) -> (p: ProgramState)
    ensures
        p == spec_program_for_index(index as int),
{
    match index {
        0 => ProgramState::Lynix,
        1 => ProgramState::Ccnb,
        2 => ProgramState::Socials,
        3 => ProgramState::Info,
        4 => ProgramState::Blinky,
        _ => ProgramState::NotFound,
    }
}

/// Menu confirmation: when A is asserted, the program bound to the
/// current item (or `NotFound` if none is bound there); otherwise no
/// launch at all.
pub fn launch_selected_program(current_item: usize, btn_a_pressed: bool) -> (r: Option<ProgramState>)
    ensures
        btn_a_pressed ==> r == Some(spec_program_for_index(current_item as int)),
        !btn_a_pressed ==> r is None,
{
    if btn_a_pressed {
        Some(program_for_index(current_item))
    } else {
        None
    }
}

} // verus!
