//! The processor, memory and battery pills.

use vstd::prelude::*;
use crate::binary64::{lemma_at_most_downward, Binary64, Number};
use crate::icons::{ICON_BAT_CHG, ICON_BAT_FULL, ICON_CPU, ICON_MEM};
use crate::pill::{option_copied, Pill, PillModel};
use crate::size::{bytes_text, format_bytes};

verus! {

/// One reading of the system monitor.
#[derive(Clone, Copy, PartialEq, Eq, Debug, Structural)]
pub struct SystemReading {
    pub cpu_average: Binary64,
    pub memory_usage_percent: Binary64,
    pub memory_used: u64,
    pub memory_total: u64,
    pub battery_percent: Binary64,
    pub is_charging: bool,
}

/// How grave a load is, from 0 to 3, at single precision: up to 30, up to 60, up to 80,
/// and above. A load that is no number is grave.
pub open spec fn usage_level(load: Number) -> nat {
    if load.narrowed_at_most(30) {
        0
    } else if load.narrowed_at_most(60) {
        1
    } else if load.narrowed_at_most(80) {
        2
    } else {
        3
    }
}

/// How grave a battery level is, on the same scale: above 50, above 20, and the rest.
pub open spec fn battery_level(level: Number) -> nat {
    if level.above(50) {
        0
    } else if level.above(20) {
        1
    } else {
        3
    }
}

/// The class for each grade.
pub open spec fn severity_class(level: nat) -> Seq<char> {
    if level == 0 {
        "usage-good"@
    } else if level == 1 {
        "usage-warn"@
    } else if level == 2 {
        "usage-caution"@
    } else {
        "usage-danger"@
    }
}

/// The class of a load.
pub open spec fn usage_severity(load: Number) -> Seq<char> {
    severity_class(usage_level(load))
}

/// The class of a battery level.
pub open spec fn battery_severity(level: Number) -> Seq<char> {
    severity_class(battery_level(level))
}

/// The classes of a pill of some severity.
pub open spec fn usage_pill_class(severity: Seq<char>) -> Seq<char> {
    "pill usage-pill "@ + severity
}

/// A percentage with a number of decimal places.
pub open spec fn percent_text(n: Number, places: nat) -> Seq<char> {
    n.fixed_text(places) + "%"@
}

/// The pill of the processor load.
pub open spec fn cpu_pill(snapshot: Option<SystemReading>) -> PillModel {
    match snapshot {
        Some(s) => PillModel {
            class: usage_pill_class(usage_severity(s.cpu_average.number())),
            title: Some("CPU 平均使用率"@),
            icon: ICON_CPU@,
            text: percent_text(s.cpu_average.number(), 0),
        },
        None => unknown_pill(ICON_CPU@),
    }
}

/// The pill of the memory load.
pub open spec fn memory_pill(snapshot: Option<SystemReading>) -> PillModel {
    match snapshot {
        Some(s) => PillModel {
            class: usage_pill_class(usage_severity(s.memory_usage_percent.number())),
            title: Some(
                "内存使用: "@ + bytes_text(s.memory_used as nat) + " / "@ + bytes_text(
                    s.memory_total as nat,
                ),
            ),
            icon: ICON_MEM@,
            text: percent_text(s.memory_usage_percent.number(), 0),
        },
        None => unknown_pill(ICON_MEM@),
    }
}

/// The pill of the battery.
pub open spec fn battery_pill(snapshot: Option<SystemReading>) -> PillModel {
    match snapshot {
        Some(s) => PillModel {
            class: usage_pill_class(battery_severity(s.battery_percent.number())),
            title: Some(
                if s.is_charging {
                    "电池充电中: "@ + percent_text(s.battery_percent.number(), 1)
                } else {
                    "电池电量: "@ + percent_text(s.battery_percent.number(), 1)
                },
            ),
            icon: if s.is_charging {
                ICON_BAT_CHG@
            } else {
                ICON_BAT_FULL@
            },
            text: percent_text(s.battery_percent.number(), 0),
        },
        None => unknown_pill(ICON_BAT_FULL@),
    }
}

/// The pill of a value that was never read.
pub open spec fn unknown_pill(icon: Seq<char>) -> PillModel {
    PillModel { class: usage_pill_class("usage-warn"@), title: None, icon, text: "--%"@ }
}

fn severity_of_usage(load: Binary64) -> (severity: &'static str)
    ensures
        severity@ == usage_severity(load.number()),
{
    if load.is_narrowed_at_most(30) {
        "usage-good"
    } else if load.is_narrowed_at_most(60) {
        "usage-warn"
    } else if load.is_narrowed_at_most(80) {
        "usage-caution"
    } else {
        "usage-danger"
    }
}

fn severity_of_battery(level: Binary64) -> (severity: &'static str)
    ensures
        severity@ == battery_severity(level.number()),
{
    if level.is_above(50) {
        "usage-good"
    } else if level.is_above(20) {
        "usage-warn"
    } else {
        "usage-danger"
    }
}

fn usage_class(severity: &str) -> (class: String)
    ensures
        class@ == usage_pill_class(severity@),
{
    let mut class: String = "pill usage-pill ".to_owned();
    class.append(severity);
    class
}

fn percent(n: Binary64, places: u32) -> (text: String)
    requires
        places <= 2,
    ensures
        text@ == percent_text(n.number(), places as nat),
{
    let mut text: String = n.to_fixed(places);
    text.append("%");
    text
}

fn unknown(icon: &'static str) -> (pill: Pill)
    ensures
        pill@ == unknown_pill(icon@),
{
    Pill { class: usage_class("usage-warn"), title: None, icon, text: "--%".to_owned() }
}

/// The three pills of the system monitor.
#[derive(Debug)]
pub struct SystemInfo {
    pub cpu: Pill,
    pub memory: Pill,
    pub battery: Pill,
}

/// What the system monitor's last reading looks like; before the first one, every pill
/// stands empty.
pub fn system_info_display(snapshot: Option<&SystemReading>) -> (info: SystemInfo)
    ensures
        info.cpu@ == cpu_pill(option_copied(snapshot)),
        info.memory@ == memory_pill(option_copied(snapshot)),
        info.battery@ == battery_pill(option_copied(snapshot)),
{
    match snapshot {
        Some(s) => {
            let mut memory_title: String = "内存使用: ".to_owned();
            memory_title.append(format_bytes(s.memory_used).as_str());
            memory_title.append(" / ");
            memory_title.append(format_bytes(s.memory_total).as_str());
            let mut battery_title: String = if s.is_charging {
                "电池充电中: ".to_owned()
            } else {
                "电池电量: ".to_owned()
            };
            battery_title.append(percent(s.battery_percent, 1).as_str());
            let cpu = Pill {
                class: usage_class(severity_of_usage(s.cpu_average)),
                title: Some("CPU 平均使用率".to_owned()),
                icon: ICON_CPU,
                text: percent(s.cpu_average, 0),
            };
            let memory = Pill {
                class: usage_class(severity_of_usage(s.memory_usage_percent)),
                title: Some(memory_title),
                icon: ICON_MEM,
                text: percent(s.memory_usage_percent, 0),
            };
            let battery = Pill {
                class: usage_class(severity_of_battery(s.battery_percent)),
                title: Some(battery_title),
                icon: if s.is_charging {
                    ICON_BAT_CHG
                } else {
                    ICON_BAT_FULL
                },
                text: percent(s.battery_percent, 0),
            };
            SystemInfo { cpu, memory, battery }
        },
        None => SystemInfo {
            cpu: unknown(ICON_CPU),
            memory: unknown(ICON_MEM),
            battery: unknown(ICON_BAT_FULL),
        },
    }
}

/// A larger load is never shown as less grave, nor a larger battery level as more grave.
pub proof fn lemma_severity_follows_value(a: Binary64, b: Binary64)
    requires
        a.number().no_more_than(b.number()),
    ensures
        usage_level(a.number()) <= usage_level(b.number()),
        battery_level(a.number()) >= battery_level(b.number()),
{
    lemma_at_most_downward(a, b, 30);
    lemma_at_most_downward(a, b, 60);
    lemma_at_most_downward(a, b, 80);
    lemma_at_most_downward(a, b, 50);
    lemma_at_most_downward(a, b, 20);
}

} // verus!
