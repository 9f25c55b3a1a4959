//! The commands that the bar sends to the window manager.

use vstd::prelude::*;
use vstd::arithmetic::power2::{pow2, lemma2_to64, lemma_pow2_strictly_increases};
use vstd::bits::lemma_u32_shl_is_mul;

verus! {

/// What a command asks for.
#[derive(Clone, Copy, PartialEq, Eq, Debug, Structural)]
pub enum CommandKind {
    ViewTag,
    ToggleTag,
    SetLayout,
}

/// A command: its parameter is a tag mask or the index of a layout.
#[derive(Clone, Copy, PartialEq, Eq, Debug, Structural)]
pub struct Command {
    pub kind: CommandKind,
    pub parameter: u32,
    pub monitor_id: i32,
}

/// The command for a tag. Its mask has the one bit whose place is the tag's index.
pub open spec fn command_for_tag(monitor_id: i32, tag: nat, is_view: bool) -> Command {
    Command {
        kind: if is_view {
            CommandKind::ViewTag
        } else {
            CommandKind::ToggleTag
        },
        parameter: pow2(tag) as u32,
        monitor_id,
    }
}

/// The command for a layout.
pub open spec fn command_for_layout(monitor_id: i32, layout_index: u32) -> Command {
    Command { kind: CommandKind::SetLayout, parameter: layout_index, monitor_id }
}

/// A mask of 32 bits has room for every tag below 32.
pub proof fn lemma_mask_fits(tag: nat)
    requires
        tag < 32,
    ensures
        0 < pow2(tag) <= u32::MAX,
{
    lemma2_to64();
    lemma_pow2_strictly_increases(tag, 32);
    vstd::arithmetic::power2::lemma_pow2_pos(tag);
}

/// The command that shows a tag, or that adds it to or takes it from those shown. A mask
/// has room for 32 tags.
pub fn tag_command(monitor_id: i32, active_tab: usize, is_view: bool) -> (command: Command)
    requires
        active_tab < 32,
    ensures
        command == command_for_tag(monitor_id, active_tab as nat, is_view),
{
    let tab: u32 = active_tab as u32;
    proof {
        lemma_mask_fits(active_tab as nat);
        lemma_u32_shl_is_mul(1u32, tab);
    }
    let parameter: u32 = 1u32 << tab;
    Command {
        kind: if is_view {
            CommandKind::ViewTag
        } else {
            CommandKind::ToggleTag
        },
        parameter,
        monitor_id,
    }
}

/// The command that sets a layout.
pub fn layout_command(monitor_id: i32, layout_index: u32) -> (command: Command)
    ensures
        command == command_for_layout(monitor_id, layout_index),
{
    Command { kind: CommandKind::SetLayout, parameter: layout_index, monitor_id }
}

/// Commands for different tags have different masks.
pub proof fn lemma_tag_masks_distinct(monitor_id: i32, a: nat, b: nat, is_view: bool)
    requires
        a < b < 32,
    ensures
        command_for_tag(monitor_id, a, is_view).parameter < command_for_tag(
            monitor_id,
            b,
            is_view,
        ).parameter,
{
    lemma_mask_fits(a);
    lemma_mask_fits(b);
    lemma_pow2_strictly_increases(a, b);
}

} // verus!
