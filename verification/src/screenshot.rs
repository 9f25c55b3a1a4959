//! The screenshot pill: at most one screenshot tool runs at a time.

use vstd::prelude::*;
use crate::icons::ICON_SHOT;
use crate::pill::{Pill, PillModel};

verus! {

/// What the screenshot tool does.
#[derive(Clone, Copy, PartialEq, Eq, Debug, Structural)]
pub enum Screenshot {
    Idle,
    Launching,
    Running,
}

/// What the screenshot pill shows.
pub open spec fn screenshot_pill(state: Screenshot) -> PillModel {
    PillModel {
        class: if state == Screenshot::Idle {
            "pill screenshot-pill"@
        } else {
            "pill screenshot-pill taking"@
        },
        title: Some("截图 (Flameshot)"@),
        icon: ICON_SHOT@,
        text: ""@,
    }
}

impl Screenshot {
    /// The state after a click.
    pub open spec fn after_click(self) -> Screenshot {
        if self == Screenshot::Idle {
            Screenshot::Launching
        } else {
            self
        }
    }

    /// The state once the tool has started, or has not.
    pub open spec fn after_launch(self, ok: bool) -> Screenshot {
        if self == Screenshot::Launching {
            if ok {
                Screenshot::Running
            } else {
                Screenshot::Idle
            }
        } else {
            self
        }
    }

    /// The state once the tool has exited.
    pub open spec fn after_exit(self) -> Screenshot {
        if self == Screenshot::Running {
            Screenshot::Idle
        } else {
            self
        }
    }

    /// Whether a click launches the tool.
    pub open spec fn launches_on_click(self) -> bool {
        self == Screenshot::Idle
    }

    /// Whether what came of a launch leaves a tool to wait for.
    pub open spec fn waits_after_launch(self, ok: bool) -> bool {
        self == Screenshot::Launching && ok
    }

    /// Takes up a click, and says whether the tool is to be launched.
    pub fn click(&mut self) -> (launch: bool)
        ensures
            *final(self) == old(self).after_click(),
            launch == (*old(self) == Screenshot::Idle),
            launch == old(self).launches_on_click(),
    {
        if *self == Screenshot::Idle {
            *self = Screenshot::Launching;
            true
        } else {
            false
        }
    }

    /// Takes up what came of the launch, and says whether to wait for the tool's exit.
    pub fn launched(&mut self, ok: bool) -> (wait: bool)
        ensures
            *final(self) == old(self).after_launch(ok),
            wait == (*old(self) == Screenshot::Launching && ok),
            wait == old(self).waits_after_launch(ok),
    {
        if *self == Screenshot::Launching {
            if ok {
                *self = Screenshot::Running;
            } else {
                *self = Screenshot::Idle;
            }
            ok
        } else {
            false
        }
    }

    /// Takes up that the tool has exited.
    pub fn exited(&mut self)
        ensures
            *final(self) == old(self).after_exit(),
    {
        if *self == Screenshot::Running {
            *self = Screenshot::Idle;
        }
    }

    /// The screenshot pill.
    pub fn pill(&self) -> (pill: Pill)
        ensures
            pill@ == screenshot_pill(*self),
    {
        Pill {
            class: if *self == Screenshot::Idle {
                "pill screenshot-pill".to_owned()
            } else {
                "pill screenshot-pill taking".to_owned()
            },
            title: Some("截图 (Flameshot)".to_owned()),
            icon: ICON_SHOT,
            text: "".to_owned(),
        }
    }
}

/// What happens to the screenshot pill.
pub enum ShotEvent {
    Click,
    Launched { ok: bool },
    Exited,
}

impl Screenshot {
    /// The state after an event.
    pub open spec fn after(self, event: ShotEvent) -> Screenshot {
        match event {
            ShotEvent::Click => self.after_click(),
            ShotEvent::Launched { ok } => self.after_launch(ok),
            ShotEvent::Exited => self.after_exit(),
        }
    }
}

/// The state after a course of events.
pub open spec fn after_all(state: Screenshot, events: Seq<ShotEvent>) -> Screenshot
    decreases events.len(),
{
    if events.len() == 0 {
        state
    } else {
        after_all(state, events.drop_last()).after(events.last())
    }
}

/// How many times the tool is launched in a course of events.
pub open spec fn launches(state: Screenshot, events: Seq<ShotEvent>) -> nat
    decreases events.len(),
{
    if events.len() == 0 {
        0
    } else if after_all(state, events.drop_last()) == Screenshot::Idle && events.last()
        == ShotEvent::Click {
        launches(state, events.drop_last()) + 1
    } else {
        launches(state, events.drop_last())
    }
}

/// How many times the tool has failed to start or has exited in a course of events.
pub open spec fn endings(state: Screenshot, events: Seq<ShotEvent>) -> nat
    decreases events.len(),
{
    if events.len() == 0 {
        0
    } else if after_all(state, events.drop_last()) != Screenshot::Idle && after_all(state, events)
        == Screenshot::Idle {
        endings(state, events.drop_last()) + 1
    } else {
        endings(state, events.drop_last())
    }
}

/// At any time at most one launched tool has not ended yet, and none while the pill is
/// idle.
pub proof fn lemma_one_tool_at_a_time(events: Seq<ShotEvent>)
    ensures
        launches(Screenshot::Idle, events) - endings(Screenshot::Idle, events) == if after_all(
            Screenshot::Idle,
            events,
        ) == Screenshot::Idle {
            0int
        } else {
            1int
        },
    decreases events.len(),
{
    if events.len() > 0 {
        lemma_one_tool_at_a_time(events.drop_last());
    }
}

/// A click on a pill that is not idle changes nothing.
pub proof fn lemma_click_while_taking_changes_nothing(state: Screenshot)
    requires
        state != Screenshot::Idle,
    ensures
        state.after_click() == state,
{
}

} // verus!
