//! The tag buttons: what a tag's flags look like.

use vstd::prelude::*;
use crate::icons::TAG_COUNT;

verus! {

/// How a tag button is drawn.
#[derive(Clone, Copy, PartialEq, Eq, Debug, Structural)]
pub enum ButtonState {
    Filtered,
    Selected,
    Urgent,
    Occupied,
    Default,
}

/// The flags of a tag, as its button shows them.
#[derive(Clone, Copy, PartialEq, Eq, Debug, Structural)]
pub struct ButtonStateData {
    pub is_filtered: bool,
    pub is_selected: bool,
    pub is_urg: bool,
    pub is_occ: bool,
}

/// The flags of a tag, as the window manager reports them.
#[derive(Clone, Copy, PartialEq, Eq, Debug, Structural)]
pub struct TagStatus {
    pub is_selected: bool,
    pub is_urg: bool,
    pub is_filled: bool,
    pub is_occ: bool,
}

/// The first flag that is set decides: filtered, selected, urgent, occupied.
pub open spec fn state_of_flags(
    is_filtered: bool,
    is_selected: bool,
    is_urg: bool,
    is_occ: bool,
) -> ButtonState {
    if is_filtered {
        ButtonState::Filtered
    } else if is_selected {
        ButtonState::Selected
    } else if is_urg {
        ButtonState::Urgent
    } else if is_occ {
        ButtonState::Occupied
    } else {
        ButtonState::Default
    }
}

/// The style classes of a button.
pub open spec fn css_class(state: ButtonState) -> Seq<char> {
    match state {
        ButtonState::Filtered => "emoji-button state-filtered"@,
        ButtonState::Selected => "emoji-button state-selected"@,
        ButtonState::Urgent => "emoji-button state-urgent"@,
        ButtonState::Occupied => "emoji-button state-occupied"@,
        ButtonState::Default => "emoji-button state-default"@,
    }
}

impl ButtonState {
    /// How a button with these flags is drawn.
    pub fn from_flags(
        is_filtered: bool,
        is_selected: bool,
        is_urg: bool,
        is_occ: bool,
    ) -> (state: Self)
        ensures
            state == state_of_flags(is_filtered, is_selected, is_urg, is_occ),
    {
        if is_filtered {
            ButtonState::Filtered
        } else if is_selected {
            ButtonState::Selected
        } else if is_urg {
            ButtonState::Urgent
        } else if is_occ {
            ButtonState::Occupied
        } else {
            ButtonState::Default
        }
    }

    /// The style classes of the button.
    pub fn to_css_class(&self) -> (class: &'static str)
        ensures
            class@ == css_class(*self),
    {
        match self {
            ButtonState::Filtered => "emoji-button state-filtered",
            ButtonState::Selected => "emoji-button state-selected",
            ButtonState::Urgent => "emoji-button state-urgent",
            ButtonState::Occupied => "emoji-button state-occupied",
            ButtonState::Default => "emoji-button state-default",
        }
    }
}

impl ButtonStateData {
    /// The flags of a tag of which nothing is known.
    pub open spec fn unset() -> ButtonStateData {
        ButtonStateData { is_filtered: false, is_selected: false, is_urg: false, is_occ: false }
    }

    /// How the flags are drawn.
    pub open spec fn state(self) -> ButtonState {
        state_of_flags(self.is_filtered, self.is_selected, self.is_urg, self.is_occ)
    }

    /// How the flags are drawn.
    pub fn get_state(&self) -> (state: ButtonState)
        ensures
            state == self.state(),
    {
        ButtonState::from_flags(self.is_filtered, self.is_selected, self.is_urg, self.is_occ)
    }
}

impl Default for ButtonStateData {
    fn default() -> (data: Self)
        ensures
            data == ButtonStateData::unset(),
    {
        ButtonStateData { is_filtered: false, is_selected: false, is_urg: false, is_occ: false }
    }
}

/// The style classes of the button at an index; one that is not there is drawn as unset.
pub open spec fn button_class_at(index: int, states: Seq<ButtonStateData>) -> Seq<char> {
    if 0 <= index < states.len() {
        css_class(states[index].state())
    } else {
        css_class(ButtonState::Default)
    }
}

/// The style classes of the button at an index.
pub fn get_button_class(index: usize, button_states: &[ButtonStateData]) -> (class: &'static str)
    ensures
        class@ == button_class_at(index as int, button_states@),
{
    if index < button_states.len() {
        button_states[index].get_state().to_css_class()
    } else {
        "emoji-button state-default"
    }
}

/// A reported status as a button shows it.
pub open spec fn data_of_status(status: TagStatus) -> ButtonStateData {
    ButtonStateData {
        is_filtered: status.is_filled,
        is_selected: status.is_selected,
        is_urg: status.is_urg,
        is_occ: status.is_occ,
    }
}

/// The buttons for the reported tags: one for each tag of the bar, unset where none was
/// reported. Tags beyond the bar's are left out.
pub open spec fn states_of_tags(tags: Seq<TagStatus>) -> Seq<ButtonStateData> {
    Seq::new(
        TAG_COUNT as nat,
        |i: int|
            if i < tags.len() {
                data_of_status(tags[i])
            } else {
                ButtonStateData::unset()
            },
    )
}

/// The buttons for the reported tags.
pub fn button_states_from(tags: &[TagStatus]) -> (states: Vec<ButtonStateData>)
    ensures
        states@ == states_of_tags(tags@),
{
    let mut states: Vec<ButtonStateData> = Vec::new();
    let mut i: usize = 0;
    while i < TAG_COUNT
        invariant
            i <= TAG_COUNT,
            states@ == states_of_tags(tags@).take(i as int),
        decreases TAG_COUNT - i,
    {
        if i < tags.len() {
            states.push(
                ButtonStateData {
                    is_filtered: tags[i].is_filled,
                    is_selected: tags[i].is_selected,
                    is_urg: tags[i].is_urg,
                    is_occ: tags[i].is_occ,
                },
            );
        } else {
            states.push(ButtonStateData::default());
        }
        proof {
            assert(states@ =~= states_of_tags(tags@).take(i + 1));
        }
        i = i + 1;
    }
    proof {
        assert(states_of_tags(tags@).take(TAG_COUNT as int) =~= states_of_tags(tags@));
    }
    states
}

/// Whether two rows of buttons are the same.
pub fn same_states(a: &[ButtonStateData], b: &[ButtonStateData]) -> (same: bool)
    ensures
        same == (a@ == b@),
{
    if a.len() != b.len() {
        return false;
    }
    let mut i: usize = 0;
    while i < a.len()
        invariant
            a.len() == b.len(),
            i <= a.len(),
            forall|j: int| 0 <= j < i ==> a@[j] == b@[j],
        decreases a.len() - i,
    {
        if a[i] != b[i] {
            return false;
        }
        i = i + 1;
    }
    proof {
        assert(a@ =~= b@);
    }
    true
}

/// Buttons with different states have different style classes.
pub proof fn lemma_css_class_injective(a: ButtonState, b: ButtonState)
    requires
        css_class(a) == css_class(b),
    ensures
        a == b,
{
    reveal_strlit("emoji-button state-filtered");
    reveal_strlit("emoji-button state-selected");
    reveal_strlit("emoji-button state-urgent");
    reveal_strlit("emoji-button state-occupied");
    reveal_strlit("emoji-button state-default");
    assert("emoji-button state-filtered"@[19] == 'f');
    assert("emoji-button state-selected"@[19] == 's');
    assert("emoji-button state-urgent"@[19] == 'u');
    assert("emoji-button state-occupied"@[19] == 'o');
    assert("emoji-button state-default"@[19] == 'd');
}

/// Reports that agree on the bar's own tags give the same buttons, whatever they say of
/// tags beyond those.
pub proof fn lemma_extra_tags_ignored(a: Seq<TagStatus>, b: Seq<TagStatus>)
    requires
        a.len() >= TAG_COUNT,
        b.len() >= TAG_COUNT,
        a.take(TAG_COUNT as int) == b.take(TAG_COUNT as int),
    ensures
        states_of_tags(a) == states_of_tags(b),
{
    assert forall|i: int| 0 <= i < TAG_COUNT implies a[i] == b[i] by {
        assert(a.take(TAG_COUNT as int)[i] == a[i]);
        assert(b.take(TAG_COUNT as int)[i] == b[i]);
    }
    assert(states_of_tags(a) =~= states_of_tags(b));
}

} // verus!
