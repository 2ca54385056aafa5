//! The charging status of a battery.

use vstd::prelude::*;
use crate::attribute::AttributeError;
use crate::text::{lower_of, lowercase, trim_text, trimmed};

verus! {

/// Whether the battery is charging. Every status that the host reports other
/// than "charging" counts as not charging; `Unknown` is kept for a status that
/// could not be read at all.
#[derive(Clone, Copy, Debug, PartialEq, Eq, Structural)]
pub enum BatteryStatus {
    Charging,
    NotCharging,
    Unknown,
}

/// How a status is named.
pub open spec fn status_text(s: BatteryStatus) -> Seq<char> {
    match s {
        BatteryStatus::Charging => "charging"@,
        BatteryStatus::NotCharging => "not charging"@,
        BatteryStatus::Unknown => "unknown"@,
    }
}

impl BatteryStatus {
    pub fn as_str(&self) -> (r: &'static str)
        ensures
            r@ == status_text(*self),
    {
        match self {
            BatteryStatus::Charging => "charging",
            BatteryStatus::NotCharging => "not charging",
            BatteryStatus::Unknown => "unknown",
        }
    }
}

/// The status that a status text stands for: charging where, trimmed and in
/// lower case, it reads "charging", else not charging.
pub open spec fn classified(raw: Seq<char>) -> BatteryStatus {
    if lower_of(trimmed(raw)) == "charging"@ {
        BatteryStatus::Charging
    } else {
        BatteryStatus::NotCharging
    }
}

/// The status that a status reading gives: unknown where it could not be
/// read.
pub open spec fn status_of(reading: Result<String, AttributeError>) -> BatteryStatus {
    match reading {
        Ok(raw) => classified(raw@),
        Err(_) => BatteryStatus::Unknown,
    }
}

/// The status that a trimmed, lowercased status text stands for.
pub open spec fn classified_folded(folded: Seq<char>) -> BatteryStatus {
    if folded == "charging"@ {
        BatteryStatus::Charging
    } else {
        BatteryStatus::NotCharging
    }
}

/// Classifies a status text that is already trimmed and in lower case.
pub fn classify_folded(folded: &str) -> (r: BatteryStatus)
    ensures
        r == classified_folded(folded@),
{
    if String::from_str(folded) == String::from_str("charging") {
        BatteryStatus::Charging
    } else {
        BatteryStatus::NotCharging
    }
}

/// Classifies the text of a status file.
pub fn classify_status(raw: &str) -> (r: BatteryStatus)
    ensures
        r == classified(raw@),
        r == classified_folded(lower_of(trimmed(raw@))),
{
    let folded = lowercase(trim_text(raw));
    classify_folded(folded.as_str())
}

} // verus!
