//! Labelling rules and their lookup by name.
pub mod label_fns;

use vstd::prelude::*;
use crate::text::str_equals;

verus! {

/// The labelling rules an experiment can name.
#[derive(Debug, Clone, Copy, PartialEq, Eq, Structural)]
pub enum LabelKind {
    /// 1 when a high reaches entry + 2 ATR(14) within 20 bars before a low
    /// reaches entry - 2 ATR(14), 0 for the reverse, 2 when neither happens.
    TripleBarrier,
    /// 1 when the next close is higher, else 0.
    NextCloseDirection,
    /// 2 when the close 5 bars on is more than 0.3% higher, 0 when more than
    /// 0.3% lower, else 1.
    FutureReturn5,
}

/// The rule registered under `name`.
pub open spec fn spec_label_by_name(name: Seq<char>) -> Option<LabelKind> {
    if name == "triple_barrier"@ {
        Some(LabelKind::TripleBarrier)
    } else if name == "next_close_direction"@ {
        Some(LabelKind::NextCloseDirection)
    } else if name == "future_return_5"@ {
        Some(LabelKind::FutureReturn5)
    } else {
        None
    }
}

/// The name a labelling rule is configured under.
pub open spec fn label_kind_name(k: LabelKind) -> Seq<char> {
    match k {
        LabelKind::TripleBarrier => "triple_barrier"@,
        LabelKind::NextCloseDirection => "next_close_direction"@,
        LabelKind::FutureReturn5 => "future_return_5"@,
    }
}

/// A name finds a rule exactly when it is the name of one, and then it
/// finds the rule of that name.
pub proof fn law_label_lookup(name: Seq<char>, k: LabelKind)
    ensures
        spec_label_by_name(name) == Some(k) <==> name == label_kind_name(k),
{
    reveal_strlit("triple_barrier");
    reveal_strlit("next_close_direction");
    reveal_strlit("future_return_5");
    assert("triple_barrier"@[0] == 't');
    assert("next_close_direction"@[0] == 'n');
    assert("future_return_5"@[0] == 'f');
}

/// Looks a labelling rule up by its configured name. Every rule trades
/// with `default_prediction_to_signal`.
pub fn label_by_name(name: &str) -> (r: Option<LabelKind>)
    ensures
        r == spec_label_by_name(name@),
{
    if str_equals(name, "triple_barrier") {
        Some(LabelKind::TripleBarrier)
    } else if str_equals(name, "next_close_direction") {
        Some(LabelKind::NextCloseDirection)
    } else if str_equals(name, "future_return_5") {
        Some(LabelKind::FutureReturn5)
    } else {
        None
    }
}

/// Whether the experiment labels by the triple-barrier rule.
pub fn is_triple_barrier(label_fn_name: &str) -> (r: bool)
    ensures
        r == (label_fn_name@ == "triple_barrier"@),
{
    str_equals(label_fn_name, "triple_barrier")
}

} // verus!
