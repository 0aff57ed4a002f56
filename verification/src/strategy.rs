//! Strategy state variables and `strategy.exit` argument families.
use vstd::prelude::*;

use crate::strings::str_eq;

verus! {

/// What a named argument of `strategy.exit` controls.
#[derive(Clone, Copy, Debug, Eq, PartialEq, Structural)]
pub enum StrategyExitArgFamily {
    Identity,
    DownsidePriceTrigger,
    DownsideTickTrigger,
    UpsidePriceTrigger,
    UpsideTickTrigger,
    TrailingActivation,
    TrailingOffset,
    Quantity,
    PercentQuantity,
    UnsupportedOption,
}

pub open spec fn spec_strategy_exit_arg_family(name: Seq<char>) -> Option<StrategyExitArgFamily> {
    if name == "id"@ {
        Some(StrategyExitArgFamily::Identity)
    } else if name == "from_entry"@ {
        Some(StrategyExitArgFamily::Identity)
    } else if name == "stop"@ {
        Some(StrategyExitArgFamily::DownsidePriceTrigger)
    } else if name == "loss"@ {
        Some(StrategyExitArgFamily::DownsideTickTrigger)
    } else if name == "limit"@ {
        Some(StrategyExitArgFamily::UpsidePriceTrigger)
    } else if name == "profit"@ {
        Some(StrategyExitArgFamily::UpsideTickTrigger)
    } else if name == "trail_price"@ {
        Some(StrategyExitArgFamily::TrailingActivation)
    } else if name == "trail_points"@ {
        Some(StrategyExitArgFamily::TrailingActivation)
    } else if name == "trail_offset"@ {
        Some(StrategyExitArgFamily::TrailingOffset)
    } else if name == "qty"@ {
        Some(StrategyExitArgFamily::Quantity)
    } else if name == "qty_percent"@ {
        Some(StrategyExitArgFamily::PercentQuantity)
    } else if name == "oca_name"@ {
        Some(StrategyExitArgFamily::UnsupportedOption)
    } else if name == "comment"@ {
        Some(StrategyExitArgFamily::UnsupportedOption)
    } else if name == "alert_message"@ {
        Some(StrategyExitArgFamily::UnsupportedOption)
    } else {
        None
    }
}

pub fn strategy_exit_arg_family(name: &str) -> (r: Option<StrategyExitArgFamily>)
    ensures
        r == spec_strategy_exit_arg_family(name@),
{
    if str_eq(name, "id") {
        return Some(StrategyExitArgFamily::Identity);
    }
    if str_eq(name, "from_entry") {
        return Some(StrategyExitArgFamily::Identity);
    }
    if str_eq(name, "stop") {
        return Some(StrategyExitArgFamily::DownsidePriceTrigger);
    }
    if str_eq(name, "loss") {
        return Some(StrategyExitArgFamily::DownsideTickTrigger);
    }
    if str_eq(name, "limit") {
        return Some(StrategyExitArgFamily::UpsidePriceTrigger);
    }
    if str_eq(name, "profit") {
        return Some(StrategyExitArgFamily::UpsideTickTrigger);
    }
    if str_eq(name, "trail_price") {
        return Some(StrategyExitArgFamily::TrailingActivation);
    }
    if str_eq(name, "trail_points") {
        return Some(StrategyExitArgFamily::TrailingActivation);
    }
    if str_eq(name, "trail_offset") {
        return Some(StrategyExitArgFamily::TrailingOffset);
    }
    if str_eq(name, "qty") {
        return Some(StrategyExitArgFamily::Quantity);
    }
    if str_eq(name, "qty_percent") {
        return Some(StrategyExitArgFamily::PercentQuantity);
    }
    if str_eq(name, "oca_name") {
        return Some(StrategyExitArgFamily::UnsupportedOption);
    }
    if str_eq(name, "comment") {
        return Some(StrategyExitArgFamily::UnsupportedOption);
    }
    if str_eq(name, "alert_message") {
        return Some(StrategyExitArgFamily::UnsupportedOption);
    }
    None
}

pub open spec fn spec_is_strategy_state_variable(name: Seq<char>) -> bool {
    name == "strategy.position_size"@ || name == "strategy.position_avg_price"@
        || name == "strategy.openprofit"@ || name == "strategy.netprofit"@
        || name == "strategy.equity"@ || name == "strategy.closedtrades"@
        || name == "strategy.wintrades"@ || name == "strategy.losstrades"@
        || name == "strategy.eventrades"@ || name == "strategy.opentrades"@
}

/// The read-only strategy state variables.
pub fn is_strategy_state_variable(name: &str) -> (r: bool)
    ensures
        r == spec_is_strategy_state_variable(name@),
{
    str_eq(name, "strategy.position_size") || str_eq(name, "strategy.position_avg_price")
        || str_eq(name, "strategy.openprofit") || str_eq(name, "strategy.netprofit")
        || str_eq(name, "strategy.equity") || str_eq(name, "strategy.closedtrades")
        || str_eq(name, "strategy.wintrades") || str_eq(name, "strategy.losstrades")
        || str_eq(name, "strategy.eventrades") || str_eq(name, "strategy.opentrades")
}

/// The strategy state variables the runtime supplies.
pub fn is_supported_strategy_state_variable(name: &str) -> (r: bool)
    ensures
        r == spec_is_strategy_state_variable(name@),
{
    is_strategy_state_variable(name)
}

} // verus!
