use crate::text::{eq_str, to_chars};
use vstd::prelude::*;

verus! {

/// An action that can be sent to a launchd job.
#[derive(Debug, Clone, Copy, PartialEq, Eq, Structural)]
pub enum TriggerAction {
    Start,
    Stop,
    Kickstart,
    Enable,
    Disable,
    Load,
    Unload,
}

/// The action a UI value names; `restart` is another name for `kickstart`.
pub open spec fn action_of_value(value: Seq<char>) -> Option<TriggerAction> {
    if value == "start"@ {
        Some(TriggerAction::Start)
    } else if value == "stop"@ {
        Some(TriggerAction::Stop)
    } else if value == "kickstart"@ || value == "restart"@ {
        Some(TriggerAction::Kickstart)
    } else if value == "enable"@ {
        Some(TriggerAction::Enable)
    } else if value == "disable"@ {
        Some(TriggerAction::Disable)
    } else if value == "load"@ {
        Some(TriggerAction::Load)
    } else if value == "unload"@ {
        Some(TriggerAction::Unload)
    } else {
        None
    }
}

/// The name of an action.
pub open spec fn action_name(action: TriggerAction) -> Seq<char> {
    match action {
        TriggerAction::Start => "start"@,
        TriggerAction::Stop => "stop"@,
        TriggerAction::Kickstart => "kickstart"@,
        TriggerAction::Enable => "enable"@,
        TriggerAction::Disable => "disable"@,
        TriggerAction::Load => "load"@,
        TriggerAction::Unload => "unload"@,
    }
}

impl TriggerAction {
    pub fn from_ui_value(value: &str) -> (r: Option<Self>)
        ensures
            r == action_of_value(value@),
    {
        let v = to_chars(value);
        if eq_str(&v, "start") {
            Some(TriggerAction::Start)
        } else if eq_str(&v, "stop") {
            Some(TriggerAction::Stop)
        } else if eq_str(&v, "kickstart") || eq_str(&v, "restart") {
            Some(TriggerAction::Kickstart)
        } else if eq_str(&v, "enable") {
            Some(TriggerAction::Enable)
        } else if eq_str(&v, "disable") {
            Some(TriggerAction::Disable)
        } else if eq_str(&v, "load") {
            Some(TriggerAction::Load)
        } else if eq_str(&v, "unload") {
            Some(TriggerAction::Unload)
        } else {
            None
        }
    }

    pub fn as_str(self) -> (r: &'static str)
        ensures
            r@ == action_name(self),
    {
        match self {
            TriggerAction::Start => "start",
            TriggerAction::Stop => "stop",
            TriggerAction::Kickstart => "kickstart",
            TriggerAction::Enable => "enable",
            TriggerAction::Disable => "disable",
            TriggerAction::Load => "load",
            TriggerAction::Unload => "unload",
        }
    }
}

/// Every action's name reads back as that action.
pub proof fn lemma_action_name_roundtrip(action: TriggerAction)
    ensures
        action_of_value(action_name(action)) == Some(action),
{
    reveal_strlit("start");
    reveal_strlit("stop");
    reveal_strlit("kickstart");
    reveal_strlit("restart");
    reveal_strlit("enable");
    reveal_strlit("disable");
    reveal_strlit("load");
    reveal_strlit("unload");
    assert("start"@[1] != "stop"@[1] || "start"@.len() != "stop"@.len());
    assert("load"@[0] != "stop"@[0]);
    assert("enable"@[0] != "unload"@[0]);
    assert("disable"@[0] != "kickstart"@[0]);
    assert("load"@ != "stop"@);
    assert("enable"@ != "unload"@);
}

} // verus!
