//! The bar as a whole: its state, and the events that change it.

use vstd::prelude::*;
use crate::audio::AudioSnapshot;
use crate::brightness::BrightnessSnapshot;
use crate::buttons::{button_states_from, same_states, states_of_tags, ButtonStateData, TagStatus};
use crate::command::{command_for_layout, command_for_tag, layout_command, tag_command, Command};
use crate::icons::TAG_COUNT;
use crate::system::SystemReading;

verus! {

/// A message of the window manager.
#[derive(Debug)]
pub struct BarMessage {
    pub layout_symbol: String,
    pub monitor_num: i32,
    pub tags: Vec<TagStatus>,
}

/// What is to be done after an event: nothing, to send a command, or to report that
/// there is no one to send it to.
#[derive(Clone, Copy, PartialEq, Eq, Debug, Structural)]
pub enum Outcome {
    Nothing,
    Send { command: Command },
    Unavailable,
}

/// The state of the bar.
#[derive(Debug)]
pub struct Bar {
    pub button_states: Vec<ButtonStateData>,
    pub show_seconds: bool,
    pub system: Option<SystemReading>,
    pub audio: Option<AudioSnapshot>,
    pub brightness: Option<BrightnessSnapshot>,
    pub pressed_button: Option<usize>,
    pub monitor_num: Option<i32>,
    pub layout_symbol: String,
    pub layout_open: bool,
    pub has_buffer: bool,
}

/// The state of the bar, with its texts and rows as sequences.
#[verifier::ext_equal]
pub struct BarModel {
    pub button_states: Seq<ButtonStateData>,
    pub show_seconds: bool,
    pub system: Option<SystemReading>,
    pub audio: Option<AudioSnapshot>,
    pub brightness: Option<BrightnessSnapshot>,
    pub pressed_button: Option<usize>,
    pub monitor_num: Option<i32>,
    pub layout_symbol: Seq<char>,
    pub layout_open: bool,
    pub has_buffer: bool,
}

/// What a message says.
#[verifier::ext_equal]
pub struct MessageModel {
    pub layout_symbol: Seq<char>,
    pub monitor_num: i32,
    pub tags: Seq<TagStatus>,
}

impl View for Bar {
    type V = BarModel;

    open spec fn view(&self) -> BarModel {
        BarModel {
            button_states: self.button_states@,
            show_seconds: self.show_seconds,
            system: self.system,
            audio: self.audio,
            brightness: self.brightness,
            pressed_button: self.pressed_button,
            monitor_num: self.monitor_num,
            layout_symbol: self.layout_symbol@,
            layout_open: self.layout_open,
            has_buffer: self.has_buffer,
        }
    }
}

impl View for BarMessage {
    type V = MessageModel;

    open spec fn view(&self) -> MessageModel {
        MessageModel {
            layout_symbol: self.layout_symbol@,
            monitor_num: self.monitor_num,
            tags: self.tags@,
        }
    }
}

impl BarModel {
    /// The bar before any event.
    pub open spec fn initial(has_buffer: bool) -> BarModel {
        BarModel {
            button_states: states_of_tags(Seq::empty()),
            show_seconds: true,
            system: None,
            audio: None,
            brightness: None,
            pressed_button: None,
            monitor_num: None,
            layout_symbol: "[]="@,
            layout_open: false,
            has_buffer,
        }
    }

    /// Every tag of the bar has a button.
    pub open spec fn well_formed(self) -> bool {
        self.button_states.len() == TAG_COUNT
    }

    /// Whether there is a monitor to command and a buffer to command it through.
    pub open spec fn can_send(self) -> bool {
        self.monitor_num is Some && self.has_buffer
    }

    pub open spec fn after_press(self, index: usize) -> BarModel {
        BarModel { pressed_button: Some(index), ..self }
    }

    pub open spec fn after_leave(self) -> BarModel {
        BarModel { pressed_button: None, ..self }
    }

    pub open spec fn after_release(self) -> BarModel {
        BarModel { pressed_button: None, ..self }
    }

    /// A released button asks to view its tag.
    pub open spec fn release_outcome(self, index: nat) -> Outcome {
        if self.can_send() {
            Outcome::Send { command: command_for_tag(self.monitor_num->0, index, true) }
        } else {
            Outcome::Unavailable
        }
    }

    /// A click on the button that is still pressed releases it; any other click does
    /// nothing.
    pub open spec fn after_click(self, index: usize) -> BarModel {
        if self.pressed_button == Some(index) {
            self.after_release()
        } else {
            self
        }
    }

    pub open spec fn click_outcome(self, index: usize) -> Outcome {
        if self.pressed_button == Some(index) {
            self.release_outcome(index as nat)
        } else {
            Outcome::Nothing
        }
    }

    pub open spec fn after_toggle_layout(self) -> BarModel {
        BarModel { layout_open: !self.layout_open, ..self }
    }

    pub open spec fn after_select_layout(self) -> BarModel {
        BarModel { layout_open: false, ..self }
    }

    /// A chosen layout is asked for.
    pub open spec fn select_outcome(self, index: u32) -> Outcome {
        if self.can_send() {
            Outcome::Send { command: command_for_layout(self.monitor_num->0, index) }
        } else {
            Outcome::Unavailable
        }
    }

    pub open spec fn after_toggle_seconds(self) -> BarModel {
        BarModel { show_seconds: !self.show_seconds, ..self }
    }

    pub open spec fn after_message(self, message: MessageModel) -> BarModel {
        BarModel {
            button_states: states_of_tags(message.tags),
            monitor_num: Some(message.monitor_num),
            layout_symbol: message.layout_symbol,
            ..self
        }
    }

    /// Whether a message changes the buttons.
    pub open spec fn buttons_changed_by(self, message: MessageModel) -> bool {
        self.button_states != states_of_tags(message.tags)
    }

    /// Whether a reading is there and another than the one shown.
    pub open spec fn audio_is_new(self, reading: Option<AudioSnapshot>) -> bool {
        reading is Some && reading != self.audio
    }

    /// Whether a reading is there and another than the one shown.
    pub open spec fn brightness_is_new(self, reading: Option<BrightnessSnapshot>) -> bool {
        reading is Some && reading != self.brightness
    }

    /// A reading that could not be made changes nothing.
    pub open spec fn after_audio(self, reading: Option<AudioSnapshot>) -> BarModel {
        if reading is Some {
            BarModel { audio: reading, ..self }
        } else {
            self
        }
    }

    /// A reading that could not be made changes nothing.
    pub open spec fn after_brightness(self, reading: Option<BrightnessSnapshot>) -> BarModel {
        if reading is Some {
            BarModel { brightness: reading, ..self }
        } else {
            self
        }
    }

    /// A reading that has not come changes nothing.
    pub open spec fn after_system(self, reading: Option<SystemReading>) -> BarModel {
        if reading is Some {
            BarModel { system: reading, ..self }
        } else {
            self
        }
    }
}

impl Bar {
    /// The bar before any event, with a buffer to the window manager or without.
    pub fn new(has_buffer: bool) -> (bar: Bar)
        ensures
            bar@ == BarModel::initial(has_buffer),
            bar@.well_formed(),
    {
        let none: Vec<TagStatus> = Vec::new();
        Bar {
            button_states: button_states_from(none.as_slice()),
            show_seconds: true,
            system: None,
            audio: None,
            brightness: None,
            pressed_button: None,
            monitor_num: None,
            layout_symbol: "[]=".to_owned(),
            layout_open: false,
            has_buffer,
        }
    }

    /// A tag button is pressed.
    pub fn press(&mut self, index: usize)
        ensures
            final(self)@ == old(self)@.after_press(index),
    {
        self.pressed_button = Some(index);
    }

    /// The pointer leaves the tag buttons.
    pub fn leave(&mut self)
        ensures
            final(self)@ == old(self)@.after_leave(),
    {
        self.pressed_button = None;
    }

    /// A tag button is released. A command has room for 32 tags.
    pub fn release(&mut self, index: usize) -> (outcome: Outcome)
        requires
            old(self)@.can_send() ==> index < 32,
        ensures
            final(self)@ == old(self)@.after_release(),
            outcome == old(self)@.release_outcome(index as nat),
    {
        self.pressed_button = None;
        match self.monitor_num {
            Some(monitor_id) => {
                if self.has_buffer {
                    Outcome::Send { command: tag_command(monitor_id, index, true) }
                } else {
                    Outcome::Unavailable
                }
            },
            None => Outcome::Unavailable,
        }
    }

    /// A tag button is clicked.
    pub fn click(&mut self, index: usize) -> (outcome: Outcome)
        requires
            old(self)@.can_send() && old(self)@.pressed_button == Some(index) ==> index < 32,
        ensures
            final(self)@ == old(self)@.after_click(index),
            outcome == old(self)@.click_outcome(index),
    {
        let still_pressed: bool = match self.pressed_button {
            Some(pressed) => pressed == index,
            None => false,
        };
        if still_pressed {
            self.release(index)
        } else {
            Outcome::Nothing
        }
    }

    /// The layout switch is clicked.
    pub fn toggle_layout_panel(&mut self)
        ensures
            final(self)@ == old(self)@.after_toggle_layout(),
    {
        self.layout_open = !self.layout_open;
    }

    /// A layout is chosen.
    pub fn select_layout(&mut self, index: u32) -> (outcome: Outcome)
        ensures
            final(self)@ == old(self)@.after_select_layout(),
            outcome == old(self)@.select_outcome(index),
    {
        self.layout_open = false;
        match self.monitor_num {
            Some(monitor_id) => {
                if self.has_buffer {
                    Outcome::Send { command: layout_command(monitor_id, index) }
                } else {
                    Outcome::Unavailable
                }
            },
            None => Outcome::Unavailable,
        }
    }

    /// The clock is clicked.
    pub fn toggle_seconds(&mut self)
        ensures
            final(self)@ == old(self)@.after_toggle_seconds(),
    {
        self.show_seconds = !self.show_seconds;
    }

    /// A message of the window manager arrives; tells whether it changes the buttons.
    pub fn receive(&mut self, message: BarMessage) -> (buttons_changed: bool)
        ensures
            final(self)@ == old(self)@.after_message(message@),
            buttons_changed == (old(self)@.button_states != states_of_tags(message@.tags)),
            buttons_changed == old(self)@.buttons_changed_by(message@),
            final(self)@.well_formed(),
    {
        let states: Vec<ButtonStateData> = button_states_from(message.tags.as_slice());
        self.layout_symbol = message.layout_symbol;
        self.monitor_num = Some(message.monitor_num);
        if same_states(self.button_states.as_slice(), states.as_slice()) {
            false
        } else {
            self.button_states = states;
            true
        }
    }

    /// The audio system was read; tells whether the reading is a new one.
    pub fn refresh_audio(&mut self, reading: Option<AudioSnapshot>) -> (changed: bool)
        ensures
            final(self)@ == old(self)@.after_audio(reading),
            changed == (reading is Some && reading != old(self)@.audio),
            changed == old(self)@.audio_is_new(reading),
    {
        match reading {
            Some(snapshot) => {
                let same: bool = match self.audio {
                    Some(shown) => shown == snapshot,
                    None => false,
                };
                if !same {
                    self.audio = Some(snapshot);
                }
                !same
            },
            None => false,
        }
    }

    /// The backlight was read; tells whether the reading is a new one.
    pub fn refresh_brightness(&mut self, reading: Option<BrightnessSnapshot>) -> (changed: bool)
        ensures
            final(self)@ == old(self)@.after_brightness(reading),
            changed == (reading is Some && reading != old(self)@.brightness),
            changed == old(self)@.brightness_is_new(reading),
    {
        match reading {
            Some(snapshot) => {
                let same: bool = match self.brightness {
                    Some(shown) => shown == snapshot,
                    None => false,
                };
                if !same {
                    self.brightness = Some(snapshot);
                }
                !same
            },
            None => false,
        }
    }

    /// The system monitor was asked for a reading.
    pub fn refresh_system(&mut self, reading: Option<SystemReading>)
        ensures
            final(self)@ == old(self)@.after_system(reading),
    {
        match reading {
            Some(snapshot) => {
                self.system = Some(snapshot);
            },
            None => {},
        }
    }
}

} // verus!
