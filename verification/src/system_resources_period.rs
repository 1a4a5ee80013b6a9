//! The time window a resource-metrics query asks for.

use vstd::prelude::*;

use crate::error::DecodeError;
use crate::json::{str_eq, str_of, Json};

verus! {

#[derive(Debug, Clone, Copy, PartialEq, Eq, Structural)]
pub enum SystemResourcesPeriod {
    Now,
    Hour,
    Day,
    Week,
}

/// The wire word of a period, also its query-parameter value.
pub open spec fn period_name(p: SystemResourcesPeriod) -> Seq<char> {
    match p {
        SystemResourcesPeriod::Now => "now"@,
        SystemResourcesPeriod::Hour => "hour"@,
        SystemResourcesPeriod::Day => "day"@,
        SystemResourcesPeriod::Week => "week"@,
    }
}

pub open spec fn period_of_name(s: Seq<char>) -> Option<SystemResourcesPeriod> {
    if s == "now"@ {
        Some(SystemResourcesPeriod::Now)
    } else if s == "hour"@ {
        Some(SystemResourcesPeriod::Hour)
    } else if s == "day"@ {
        Some(SystemResourcesPeriod::Day)
    } else if s == "week"@ {
        Some(SystemResourcesPeriod::Week)
    } else {
        None
    }
}

/// What a JSON value denotes as a period.
pub open spec fn spec_period(v: Json) -> Option<SystemResourcesPeriod> {
    match v {
        Json::Str(s) => period_of_name(s@),
        _ => None,
    }
}

impl SystemResourcesPeriod {
    /// Each period's wire word denotes that period again.
    pub proof fn lemma_name_roundtrip(p: SystemResourcesPeriod)
        ensures
            period_of_name(period_name(p)) == Some(p),
    {
        reveal_strlit("now");
        reveal_strlit("hour");
        reveal_strlit("day");
        reveal_strlit("week");
        assert("now"@.len() == 3);
        assert("hour"@.len() == 4);
        assert("day"@.len() == 3);
        assert("week"@.len() == 4);
        assert("now"@[0] == 'n');
        assert("day"@[0] == 'd');
        assert("hour"@[0] == 'h');
        assert("week"@[0] == 'w');
        match p {
            SystemResourcesPeriod::Now => assert(period_of_name(period_name(p)) == Some(p)),
            SystemResourcesPeriod::Hour => assert(period_of_name(period_name(p)) == Some(p)),
            SystemResourcesPeriod::Day => assert(period_of_name(period_name(p)) == Some(p)),
            SystemResourcesPeriod::Week => assert(period_of_name(period_name(p)) == Some(p)),
        }
    }

    /// The query-parameter value of this period.
    pub fn label(&self) -> (r: &'static str)
        ensures
            r@ == period_name(*self),
    {
        match self {
            SystemResourcesPeriod::Now => "now",
            SystemResourcesPeriod::Hour => "hour",
            SystemResourcesPeriod::Day => "day",
            SystemResourcesPeriod::Week => "week",
        }
    }

    pub fn decode(j: &Json) -> (r: Result<SystemResourcesPeriod, DecodeError>)
        ensures
            r matches Ok(p) ==> spec_period(*j) == Some(p),
            r is Err ==> spec_period(*j) is None,
    {
        match j {
            Json::Str(s) => {
                let n = s.as_str();
                if str_eq(n, "now") {
                    Ok(SystemResourcesPeriod::Now)
                } else if str_eq(n, "hour") {
                    Ok(SystemResourcesPeriod::Hour)
                } else if str_eq(n, "day") {
                    Ok(SystemResourcesPeriod::Day)
                } else if str_eq(n, "week") {
                    Ok(SystemResourcesPeriod::Week)
                } else {
                    Err(DecodeError::at("period"))
                }
            },
            _ => Err(DecodeError::at("period")),
        }
    }
}

} // verus!
