//! What the bar shows in a state.

use vstd::prelude::*;
use crate::audio::{volume_control, volume_pill};
use crate::bar::{Bar, BarModel};
use crate::binary64::Binary64;
use crate::brightness::{brightness_control, brightness_pill};
use crate::buttons::{button_class_at, get_button_class};
use crate::decimal::{append_decimal, decimal};
use crate::icons::{monitor_glyph, monitor_icon_glyph, tag_glyph, tag_icon, ICON_MON, TAG_COUNT};
use crate::layout::{layout_option_class, layout_symbol, layout_toggle_class, option_class_of, symbol_of_layout, toggle_class_of, LAYOUT_COUNT};
use crate::pill::{Pill, PillModel};
use crate::system::{battery_pill, cpu_pill, memory_pill, system_info_display, SystemInfo};

verus! {

/// A tag button as it is drawn.
#[derive(Debug)]
pub struct ButtonView {
    pub class: String,
    pub title: String,
    pub icon: &'static str,
}

/// What a tag button shows.
#[verifier::ext_equal]
pub struct ButtonModel {
    pub class: Seq<char>,
    pub title: Seq<char>,
    pub icon: Seq<char>,
}

impl View for ButtonView {
    type V = ButtonModel;

    open spec fn view(&self) -> ButtonModel {
        ButtonModel { class: self.class@, title: self.title@, icon: self.icon@ }
    }
}

/// The choice of a layout as it is drawn.
#[derive(Debug)]
pub struct LayoutOption {
    pub class: &'static str,
    pub symbol: &'static str,
    pub index: u32,
}

/// The layout switch as it is drawn; the choices are there while it is open.
#[derive(Debug)]
pub struct LayoutView {
    pub toggle_class: &'static str,
    pub symbol: String,
    pub options: Option<Vec<LayoutOption>>,
}

/// What the choice of a layout shows, and which layout it chooses.
#[verifier::ext_equal]
pub struct OptionModel {
    pub class: Seq<char>,
    pub symbol: Seq<char>,
    pub index: u32,
}

/// What the layout switch shows.
#[verifier::ext_equal]
pub struct LayoutModel {
    pub toggle_class: Seq<char>,
    pub symbol: Seq<char>,
    pub options: Option<Seq<OptionModel>>,
}

impl View for LayoutOption {
    type V = OptionModel;

    open spec fn view(&self) -> OptionModel {
        OptionModel { class: self.class@, symbol: self.symbol@, index: self.index }
    }
}

impl BarModel {
    /// What the button of a tag shows. Tags are counted from one in its tooltip.
    pub open spec fn tag_button(self, tag: int) -> ButtonModel {
        let class = button_class_at(tag, self.button_states);
        ButtonModel {
            class: if self.pressed_button == Some(tag as usize) {
                class + " pressed"@
            } else {
                class
            },
            title: "Tag "@ + decimal((tag + 1) as nat),
            icon: tag_glyph(tag),
        }
    }

    /// What the tag buttons show, in order.
    pub open spec fn tag_row(self) -> Seq<ButtonModel> {
        Seq::new(TAG_COUNT as nat, |i: int| self.tag_button(i))
    }

    /// What the pills of the system monitor show, in order.
    pub open spec fn system_pills(self) -> (PillModel, PillModel, PillModel) {
        (cpu_pill(self.system), memory_pill(self.system), battery_pill(self.system))
    }

    /// What the volume pill shows.
    pub open spec fn shown_volume(self) -> PillModel {
        volume_pill(self.audio)
    }

    /// What the brightness pill shows.
    pub open spec fn shown_brightness(self) -> PillModel {
        brightness_pill(self.brightness)
    }

    /// What the layout switch shows.
    pub open spec fn layout_switch(self) -> LayoutModel {
        LayoutModel {
            toggle_class: toggle_class_of(self.layout_open),
            symbol: self.layout_symbol,
            options: if self.layout_open {
                Some(
                    Seq::new(
                        LAYOUT_COUNT as nat,
                        |i: int|
                            OptionModel {
                                class: option_class_of(self.layout_symbol, i),
                                symbol: symbol_of_layout(i),
                                index: i as u32,
                            },
                    ),
                )
            } else {
                None
            },
        }
    }

    /// What the monitor's pill shows; before any message it shows the first monitor.
    pub open spec fn monitor_pill(self) -> PillModel {
        PillModel {
            class: "pill monitor-pill"@,
            title: None,
            icon: ICON_MON@,
            text: monitor_glyph(
                match self.monitor_num {
                    Some(num) => num as int,
                    None => 0,
                },
            ),
        }
    }
}

impl Bar {
    /// The button of a tag.
    fn draw_tag_button(&self, tag: usize) -> (button: ButtonView)
        requires
            tag < TAG_COUNT,
        ensures
            button@ == self@.tag_button(tag as int),
    {
        let mut class: String = get_button_class(tag, self.button_states.as_slice()).to_owned();
        let is_pressed: bool = match self.pressed_button {
            Some(pressed) => pressed == tag,
            None => false,
        };
        if is_pressed {
            class.append(" pressed");
        }
        let mut title: String = "Tag ".to_owned();
        append_decimal(&mut title, tag as u64 + 1);
        ButtonView { class, title, icon: tag_icon(tag) }
    }

    /// The tag buttons, in order.
    pub fn draw_tag_buttons(&self) -> (buttons: Vec<ButtonView>)
        ensures
            buttons.len() == TAG_COUNT,
            forall|i: int| 0 <= i < TAG_COUNT ==> (#[trigger] buttons[i])@ == self@.tag_button(i),
            buttons@.map_values(|b: ButtonView| b@) == self@.tag_row(),
    {
        let mut buttons: Vec<ButtonView> = Vec::new();
        let mut tag: usize = 0;
        while tag < TAG_COUNT
            invariant
                tag <= TAG_COUNT,
                buttons.len() == tag,
                forall|i: int| 0 <= i < tag ==> (#[trigger] buttons[i])@ == self@.tag_button(i),
            decreases TAG_COUNT - tag,
        {
            buttons.push(self.draw_tag_button(tag));
            tag = tag + 1;
        }
        proof {
            assert(buttons@.map_values(|b: ButtonView| b@) =~= self@.tag_row());
        }
        buttons
    }

    /// The layout switch.
    pub fn draw_layout(&self) -> (view: LayoutView)
        ensures
            view.toggle_class@ == self@.layout_switch().toggle_class,
            view.symbol@ == self@.layout_switch().symbol,
            view.options is Some <==> self@.layout_switch().options is Some,
            view.options matches Some(options) ==> options@.map_values(|o: LayoutOption| o@)
                == self@.layout_switch().options->0,
            view.toggle_class@ == toggle_class_of(self@.layout_open),
            view.symbol@ == self@.layout_symbol,
            view.options is Some <==> self@.layout_open,
            view.options matches Some(options) ==> {
                &&& options.len() == LAYOUT_COUNT
                &&& forall|i: int|
                    0 <= i < LAYOUT_COUNT ==> {
                        &&& (#[trigger] options[i]).index == i
                        &&& options[i].symbol@ == symbol_of_layout(i)
                        &&& options[i].class@ == option_class_of(self@.layout_symbol, i)
                    }
            },
    {
        let options: Option<Vec<LayoutOption>> = if self.layout_open {
            let mut choices: Vec<LayoutOption> = Vec::new();
            let mut index: u32 = 0;
            while index < LAYOUT_COUNT
                invariant
                    index <= LAYOUT_COUNT,
                    choices.len() == index,
                    forall|i: int|
                        0 <= i < index ==> {
                            &&& (#[trigger] choices[i]).index == i
                            &&& choices[i].symbol@ == symbol_of_layout(i)
                            &&& choices[i].class@ == option_class_of(self@.layout_symbol, i)
                        },
                decreases LAYOUT_COUNT - index,
            {
                choices.push(
                    LayoutOption {
                        class: layout_option_class(self.layout_symbol.as_str(), index),
                        symbol: layout_symbol(index),
                        index,
                    },
                );
                index = index + 1;
            }
            proof {
                assert(choices@.map_values(|o: LayoutOption| o@) =~= self@.layout_switch().options->0);
            }
            Some(choices)
        } else {
            None
        };
        LayoutView {
            toggle_class: layout_toggle_class(self.layout_open),
            symbol: self.layout_symbol.clone(),
            options,
        }
    }

    /// The pills of the system monitor.
    pub fn draw_system(&self) -> (info: SystemInfo)
        ensures
            info.cpu@ == cpu_pill(self@.system),
            info.memory@ == memory_pill(self@.system),
            info.battery@ == battery_pill(self@.system),
            (info.cpu@, info.memory@, info.battery@) == self@.system_pills(),
    {
        system_info_display(self.system.as_ref())
    }

    /// The volume pill.
    pub fn draw_volume(&self) -> (pill: Pill)
        ensures
            pill@ == volume_pill(self@.audio),
            pill@ == self@.shown_volume(),
    {
        volume_control(self.audio.as_ref())
    }

    /// The brightness pill.
    pub fn draw_brightness(&self) -> (pill: Pill)
        ensures
            pill@ == brightness_pill(self@.brightness),
            pill@ == self@.shown_brightness(),
    {
        brightness_control(self.brightness.as_ref())
    }

    /// The monitor's pill.
    pub fn draw_monitor(&self) -> (pill: Pill)
        ensures
            pill@ == self@.monitor_pill(),
    {
        let num: i32 = match self.monitor_num {
            Some(num) => num,
            None => 0,
        };
        Pill {
            class: "pill monitor-pill".to_owned(),
            title: None,
            icon: ICON_MON,
            text: monitor_icon_glyph(num).to_owned(),
        }
    }
}

/// The label of a scale factor.
pub open spec fn scale_label(scale_factor: Binary64) -> Seq<char> {
    "s: "@ + scale_factor.number().fixed_text(2)
}

/// The scale factor of the window, with two decimal places.
pub fn scale_text(scale_factor: Binary64) -> (text: String)
    ensures
        text@ == "s: "@ + scale_factor.number().fixed_text(2),
        text@ == scale_label(scale_factor),
{
    let mut text: String = "s: ".to_owned();
    text.append(scale_factor.to_fixed(2).as_str());
    text
}

} // verus!
