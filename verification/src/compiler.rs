//! What the compiler panel shows for the compilation status and its history.

use vstd::prelude::*;
use crate::text::{decimal, decimal_string};

verus! {

/// The state of the latest compilation, or of one history entry.
#[derive(Clone, Copy, Debug, PartialEq, Eq, Structural)]
pub enum CompilationState {
    Idle,
    Compiling,
    Success,
    Error,
}

/// The colour in which a status is written.
#[derive(Clone, Copy, Debug, PartialEq, Eq, Structural)]
pub enum StatusTone {
    /// Green.
    Success,
    /// Red.
    Error,
    /// Yellow.
    InProgress,
    /// The theme's normal text colour.
    Normal,
    /// The theme's muted text colour.
    Muted,
}

/// The heading of the compiler panel for the current state.
pub open spec fn status_label_of(s: CompilationState) -> Seq<char> {
    match s {
        CompilationState::Idle => "Compiler Output"@,
        CompilationState::Compiling => "⟳ Compiling..."@,
        CompilationState::Success => "✓ Build Succeeded"@,
        CompilationState::Error => "✗ Build Failed"@,
    }
}

/// The heading of the compiler panel for the current state.
pub fn status_label(s: CompilationState) -> (l: &'static str)
    ensures
        l@ == status_label_of(s),
{
    match s {
        CompilationState::Idle => "Compiler Output",
        CompilationState::Compiling => "⟳ Compiling...",
        CompilationState::Success => "✓ Build Succeeded",
        CompilationState::Error => "✗ Build Failed",
    }
}

/// The colour of the heading: green, red or yellow for success, failure and
/// a compilation under way, the normal text colour when idle.
pub fn status_tone(s: CompilationState) -> (t: StatusTone)
    ensures
        t == match s {
            CompilationState::Success => StatusTone::Success,
            CompilationState::Error => StatusTone::Error,
            CompilationState::Compiling => StatusTone::InProgress,
            CompilationState::Idle => StatusTone::Normal,
        },
{
    match s {
        CompilationState::Success => StatusTone::Success,
        CompilationState::Error => StatusTone::Error,
        CompilationState::Compiling => StatusTone::InProgress,
        CompilationState::Idle => StatusTone::Normal,
    }
}

/// The mark in front of a history entry: a tick, a cross, or a dot.
pub open spec fn entry_symbol_of(s: CompilationState) -> Seq<char> {
    match s {
        CompilationState::Success => "✓"@,
        CompilationState::Error => "✗"@,
        _ => "•"@,
    }
}

/// The mark in front of a history entry.
pub fn entry_symbol(s: CompilationState) -> (m: &'static str)
    ensures
        m@ == entry_symbol_of(s),
{
    match s {
        CompilationState::Success => "✓",
        CompilationState::Error => "✗",
        _ => "•",
    }
}

/// The colour of a history entry's mark: green, red, or muted.
pub fn entry_tone(s: CompilationState) -> (t: StatusTone)
    ensures
        t == match s {
            CompilationState::Success => StatusTone::Success,
            CompilationState::Error => StatusTone::Error,
            _ => StatusTone::Muted,
        },
{
    match s {
        CompilationState::Success => StatusTone::Success,
        CompilationState::Error => StatusTone::Error,
        _ => StatusTone::Muted,
    }
}

/// The size of the compilation history, as the panel shows it.
pub fn messages_label(count: usize) -> (s: String)
    ensures
        s@ == decimal(count as nat) + " messages"@,
{
    let mut s = decimal_string(count);
    s.append(" messages");
    s
}

/// The order in which history entries are listed: newest first.
pub fn history_display_order(len: usize) -> (order: Vec<usize>)
    ensures
        order@.len() == len,
        forall|i: int| 0 <= i < len ==> order@[i] == len - 1 - i,
{
    let mut order: Vec<usize> = Vec::new();
    let mut k: usize = len;
    while k > 0
        invariant
            k <= len,
            order@.len() == len - k,
            forall|i: int| 0 <= i < len - k ==> order@[i] == len - 1 - i,
        decreases k,
    {
        k = k - 1;
        order.push(k);
    }
    order
}

} // verus!
