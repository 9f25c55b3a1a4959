//! The layout switch.

use vstd::prelude::*;
use crate::text::{contains, occurs};

verus! {

/// The number of layouts that can be chosen.
pub const LAYOUT_COUNT: u32 = 3;

/// The symbol of each layout.
pub open spec fn symbol_of_layout(index: int) -> Seq<char> {
    if index == 0 {
        "[]="@
    } else if index == 1 {
        "><>"@
    } else {
        "[M]"@
    }
}

/// The symbol of a layout.
pub fn layout_symbol(index: u32) -> (symbol: &'static str)
    requires
        index < LAYOUT_COUNT,
    ensures
        symbol@ == symbol_of_layout(index as int),
{
    match index {
        0 => "[]=",
        1 => "><>",
        _ => "[M]",
    }
}

/// The classes of the switch.
pub open spec fn toggle_class_of(open: bool) -> Seq<char> {
    if open {
        "pill layout-toggle open"@
    } else {
        "pill layout-toggle closed"@
    }
}

/// The classes of the switch.
pub fn layout_toggle_class(open: bool) -> (class: &'static str)
    ensures
        class@ == toggle_class_of(open),
{
    if open {
        "pill layout-toggle open"
    } else {
        "pill layout-toggle closed"
    }
}

/// The classes of the choice of a layout, marked where the current symbol holds its own.
pub open spec fn option_class_of(current: Seq<char>, index: int) -> Seq<char> {
    if occurs(current, symbol_of_layout(index)) {
        "pill layout-option current"@
    } else {
        "pill layout-option "@
    }
}

/// The classes of the choice of a layout.
pub fn layout_option_class(current: &str, index: u32) -> (class: &'static str)
    requires
        index < LAYOUT_COUNT,
    ensures
        class@ == option_class_of(current@, index as int),
{
    if contains(current, layout_symbol(index)) {
        "pill layout-option current"
    } else {
        "pill layout-option "
    }
}

/// The choice whose symbol is the current one is marked.
pub proof fn lemma_current_layout_is_marked(index: int)
    ensures
        option_class_of(symbol_of_layout(index), index) == "pill layout-option current"@,
{
    let symbol = symbol_of_layout(index);
    assert(symbol.subrange(0, symbol.len() as int) =~= symbol);
    assert(crate::text::occurs_at(symbol, symbol, 0));
}

} // verus!
