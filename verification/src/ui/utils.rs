//! PATCH mapping modes by name, for the user interface.

use vstd::prelude::*;
use crate::compositor::graph::PatchMode;
use crate::text::{joined, text_eq};

verus! {

/// The name of each PATCH mode.
pub open spec fn spec_patch_mode_name(mode: PatchMode) -> &'static str {
    match mode {
        PatchMode::Replace => "REPLACE",
        PatchMode::Add => "ADD",
        PatchMode::Subtract => "SUBTRACT",
    }
}

/// The PATCH mode a name stands for (names are matched exactly).
pub open spec fn patch_mode_named(name: Seq<char>) -> Option<PatchMode> {
    if name == "REPLACE"@ {
        Some(PatchMode::Replace)
    } else if name == "ADD"@ {
        Some(PatchMode::Add)
    } else if name == "SUBTRACT"@ {
        Some(PatchMode::Subtract)
    } else {
        None
    }
}

/// The name of a PATCH mode.
pub fn patch_mode_name(mode: PatchMode) -> (r: &'static str)
    ensures
        r == spec_patch_mode_name(mode),
{
    match mode {
        PatchMode::Replace => "REPLACE",
        PatchMode::Add => "ADD",
        PatchMode::Subtract => "SUBTRACT",
    }
}

/// Parse a PATCH mode name; an unknown name is refused with a message
/// naming it.
pub fn parse_patch_mode(mode: &str) -> (r: Result<PatchMode, String>)
    ensures
        match patch_mode_named(mode@) {
            Some(m) => r == Ok::<PatchMode, String>(m),
            None => r matches Err(message) && message@ == "Unknown PATCH mode: "@ + mode@,
        },
{
    if text_eq(mode, "REPLACE") {
        Ok(PatchMode::Replace)
    } else if text_eq(mode, "ADD") {
        Ok(PatchMode::Add)
    } else if text_eq(mode, "SUBTRACT") {
        Ok(PatchMode::Subtract)
    } else {
        Err(joined("Unknown PATCH mode: ", mode))
    }
}

/// Every PATCH mode's name parses back to it.
pub proof fn lemma_patch_mode_round_trip(mode: PatchMode)
    ensures
        patch_mode_named(spec_patch_mode_name(mode)@) == Some(mode),
{
    reveal_strlit("REPLACE");
    reveal_strlit("ADD");
    reveal_strlit("SUBTRACT");
    assert("ADD"@.len() == 3 && "REPLACE"@.len() == 7 && "SUBTRACT"@.len() == 8);
}

/// Each PATCH mode is named after itself: REPLACE is "REPLACE", ADD is
/// "ADD", SUBTRACT is "SUBTRACT", and parsing each of those texts gives
/// that mode back; every other text is refused.
pub proof fn lemma_patch_mode_names(name: Seq<char>)
    ensures
        spec_patch_mode_name(PatchMode::Replace)@ == seq!['R', 'E', 'P', 'L', 'A', 'C', 'E'],
        spec_patch_mode_name(PatchMode::Add)@ == seq!['A', 'D', 'D'],
        spec_patch_mode_name(PatchMode::Subtract)@ == seq!['S', 'U', 'B', 'T', 'R', 'A', 'C', 'T'],
        name == seq!['R', 'E', 'P', 'L', 'A', 'C', 'E'] ==> patch_mode_named(name) == Some(PatchMode::Replace),
        name == seq!['A', 'D', 'D'] ==> patch_mode_named(name) == Some(PatchMode::Add),
        name == seq!['S', 'U', 'B', 'T', 'R', 'A', 'C', 'T'] ==> patch_mode_named(name) == Some(PatchMode::Subtract),
        name != seq!['R', 'E', 'P', 'L', 'A', 'C', 'E'] && name != seq!['A', 'D', 'D']
            && name != seq!['S', 'U', 'B', 'T', 'R', 'A', 'C', 'T'] ==> patch_mode_named(name) is None,
{
    reveal_strlit("REPLACE");
    reveal_strlit("ADD");
    reveal_strlit("SUBTRACT");
    assert("REPLACE"@ =~= seq!['R', 'E', 'P', 'L', 'A', 'C', 'E']);
    assert("ADD"@ =~= seq!['A', 'D', 'D']);
    assert("SUBTRACT"@ =~= seq!['S', 'U', 'B', 'T', 'R', 'A', 'C', 'T']);
}

} // verus!
