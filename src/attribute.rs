//! The measurable quantities of a battery, the files each is read from, and
//! how one quantity is resolved from the reads of its candidate files.

use vstd::prelude::*;
use crate::text::{
    decimal_up_to, trimmed, u32_complaint, u8_complaint, parse_u32, parse_u8, trim_text,
};

verus! {

/// A quantity that a battery directory exposes.
#[derive(Clone, Copy, Debug, PartialEq, Eq, Structural)]
pub enum BatteryAttribute {
    CurrPower,
    TotalPower,
    Status,
    Cycles,
    DesignPower,
}

impl BatteryAttribute {
    /// The names of the files that may hold this quantity, in order of
    /// preference: the energy-based name before the charge-based one.
    pub open spec fn candidates(self) -> Seq<Seq<char>> {
        match self {
            BatteryAttribute::CurrPower => seq!["energy_now"@, "charge_now"@],
            BatteryAttribute::TotalPower => seq!["energy_full"@, "charge_full"@],
            BatteryAttribute::DesignPower => seq!["energy_full_design"@, "charge_full_design"@],
            BatteryAttribute::Status => seq!["status"@],
            BatteryAttribute::Cycles => seq!["cycle_count"@],
        }
    }

    /// How the quantity is named in messages.
    pub open spec fn label_text(self) -> Seq<char> {
        match self {
            BatteryAttribute::CurrPower => "current power"@,
            BatteryAttribute::TotalPower => "total power"@,
            BatteryAttribute::Status => "status"@,
            BatteryAttribute::Cycles => "cycle count"@,
            BatteryAttribute::DesignPower => "design power"@,
        }
    }

    /// Returns the possible file names for this attribute, in order of
    /// preference.
    pub fn file_names(&self) -> (r: Vec<&'static str>)
        ensures
            r@.len() == self.candidates().len(),
            forall|i: int| 0 <= i < r@.len() ==> #[trigger] r@[i]@ == self.candidates()[i],
    {
        match self {
            BatteryAttribute::CurrPower => vec!["energy_now", "charge_now"],
            BatteryAttribute::TotalPower => vec!["energy_full", "charge_full"],
            BatteryAttribute::DesignPower => vec!["energy_full_design", "charge_full_design"],
            BatteryAttribute::Status => vec!["status"],
            BatteryAttribute::Cycles => vec!["cycle_count"],
        }
    }

    /// The name of the quantity in messages.
    pub fn label(&self) -> (r: &'static str)
        ensures
            r@ == self.label_text(),
    {
        match self {
            BatteryAttribute::CurrPower => "current power",
            BatteryAttribute::TotalPower => "total power",
            BatteryAttribute::Status => "status",
            BatteryAttribute::Cycles => "cycle count",
            BatteryAttribute::DesignPower => "design power",
        }
    }
}

/// Names joined by `", "`.
pub open spec fn joined(names: Seq<Seq<char>>) -> Seq<char>
    decreases names.len(),
{
    if names.len() == 0 {
        Seq::empty()
    } else if names.len() == 1 {
        names[0]
    } else {
        joined(names.drop_last()) + ", "@ + names.last()
    }
}

/// The class of a failure, as the host reports it.
#[derive(Clone, Copy, Debug, PartialEq, Eq, Structural)]
pub enum FailureKind {
    NotFound,
    PermissionDenied,
    InvalidData,
    Other,
}

/// What went wrong when one file was read: its class, the file, and the
/// host's own description.
#[derive(Debug)]
pub struct ReadFailure {
    pub kind: FailureKind,
    pub file: String,
    pub detail: String,
}

/// Why a quantity could not be had.
#[derive(Debug)]
pub enum AttributeError {
    /// None of the several candidate files could be read.
    Missing { attr: BatteryAttribute },
    /// The one candidate file could not be read, for the reason given.
    Unreadable { failure: ReadFailure },
    /// The file was read, but its trimmed text is not a number of the
    /// expected range.
    Malformed { text: String, complaint: String },
}

/// The class of an attribute error: an attribute that no candidate gave is
/// not found, whatever the reads reported; the cause of a lone candidate's
/// failure is kept in the message.
pub open spec fn error_kind(e: AttributeError) -> FailureKind {
    match e {
        AttributeError::Missing { .. } => FailureKind::NotFound,
        AttributeError::Unreadable { .. } => FailureKind::NotFound,
        AttributeError::Malformed { .. } => FailureKind::InvalidData,
    }
}

/// The message of an attribute error.
pub open spec fn error_text(e: AttributeError) -> Seq<char> {
    match e {
        AttributeError::Missing { attr } => "Failed to read "@ + attr.label_text() + " (tried: "@
            + joined(attr.candidates()) + ")"@,
        AttributeError::Unreadable { failure } => "Failed to read "@ + failure.file@ + ": "@
            + failure.detail@,
        AttributeError::Malformed { text, complaint } => "invalid battery attribute value: "@
            + text@ + " ("@ + complaint@ + ")"@,
    }
}

impl AttributeError {
    pub fn kind(&self) -> (r: FailureKind)
        ensures
            r == error_kind(*self),
    {
        match self {
            AttributeError::Missing { .. } => FailureKind::NotFound,
            AttributeError::Unreadable { .. } => FailureKind::NotFound,
            AttributeError::Malformed { .. } => FailureKind::InvalidData,
        }
    }

    /// The human-readable message.
    pub fn message(&self) -> (r: String)
        ensures
            r@ == error_text(*self),
    {
        match self {
            AttributeError::Missing { attr } => {
                let names = attr.file_names();
                let mut tried = String::new();
                let mut i: usize = 0;
                while i < names.len()
                    invariant
                        names@.len() == attr.candidates().len(),
                        forall|k: int| 0 <= k < names@.len() ==> #[trigger] names@[k]@
                            == attr.candidates()[k],
                        i <= names@.len(),
                        tried@ == joined(attr.candidates().subrange(0, i as int)),
                    decreases names.len() - i,
                {
                    proof {
                        let c = attr.candidates();
                        assert(c.subrange(0, i + 1).drop_last() =~= c.subrange(0, i as int));
                    }
                    if i > 0 {
                        tried = tried.concat(", ");
                    }
                    tried = tried.concat(names[i]);
                    i = i + 1;
                }
                assert(attr.candidates().subrange(0, i as int) =~= attr.candidates());
                String::from_str("Failed to read ").concat(attr.label()).concat(
                    " (tried: ",
                ).concat(tried.as_str()).concat(")")
            },
            AttributeError::Unreadable { failure } => {
                String::from_str("Failed to read ").concat(failure.file.as_str()).concat(
                    ": ",
                ).concat(failure.detail.as_str())
            },
            AttributeError::Malformed { text, complaint } => {
                String::from_str("invalid battery attribute value: ").concat(text.as_str()).concat(
                    " (",
                ).concat(complaint.as_str()).concat(")")
            },
        }
    }
}

/// What follows the read of one candidate file.
#[derive(Debug)]
pub enum Lookup {
    /// Read the candidate with this index next.
    Read(usize),
    /// The quantity's text.
    Found(String),
    /// No candidate could be read.
    Failed(AttributeError),
}

/// The step after the read of candidate `index` of `attr` came back with
/// `outcome`: the first readable candidate wins, and later ones are not read.
pub open spec fn lookup_next(
    attr: BatteryAttribute,
    index: nat,
    outcome: Result<String, ReadFailure>,
) -> Lookup {
    match outcome {
        Ok(content) => Lookup::Found(content),
        Err(failure) => if index + 1 < attr.candidates().len() {
            Lookup::Read((index + 1) as usize)
        } else if attr.candidates().len() > 1 {
            Lookup::Failed(AttributeError::Missing { attr })
        } else {
            Lookup::Failed(AttributeError::Unreadable { failure })
        },
    }
}

/// Decides, for the read of candidate file `index` of `attr`, whether the
/// quantity is found, the next candidate is to be read, or the lookup failed.
/// A lookup starts with candidate 0.
pub fn lookup_step(
    attr: BatteryAttribute,
    index: usize,
    outcome: Result<String, ReadFailure>,
) -> (r: Lookup)
    requires
        index < attr.candidates().len(),
    ensures
        r == lookup_next(attr, index as nat, outcome),
{
    let n = attr.file_names().len();
    match outcome {
        Ok(content) => Lookup::Found(content),
        Err(failure) => {
            if index + 1 < n {
                Lookup::Read(index + 1)
            } else if n > 1 {
                Lookup::Failed(AttributeError::Missing { attr })
            } else {
                Lookup::Failed(AttributeError::Unreadable { failure })
            }
        },
    }
}

/// `out` is what reading `r` as a `u32` gives: the error of the read itself,
/// the number its trimmed text writes, or, where that text is no number of
/// the range, a malformed-data error that quotes it.
pub open spec fn reads_u32(r: Result<String, AttributeError>, out: Result<u32, AttributeError>) -> bool {
    match r {
        Err(e) => out == Err::<u32, AttributeError>(e),
        Ok(s) => match decimal_up_to(trimmed(s@), u32::MAX as nat) {
            Some(v) => out == Ok::<u32, AttributeError>(v as u32),
            None => out matches Err(AttributeError::Malformed { text, complaint })
                && text@ == trimmed(s@) && complaint@ == u32_complaint(trimmed(s@)),
        },
    }
}

/// `out` is what reading `r` as a `u8` gives, in the same way as `reads_u32`.
pub open spec fn reads_u8(r: Result<String, AttributeError>, out: Result<u8, AttributeError>) -> bool {
    match r {
        Err(e) => out == Err::<u8, AttributeError>(e),
        Ok(s) => match decimal_up_to(trimmed(s@), u8::MAX as nat) {
            Some(v) => out == Ok::<u8, AttributeError>(v as u8),
            None => out matches Err(AttributeError::Malformed { text, complaint })
                && text@ == trimmed(s@) && complaint@ == u8_complaint(trimmed(s@)),
        },
    }
}

/// The number that reading `r` holds, where it can be read as one of at most
/// `max`.
pub open spec fn reading_value(r: Result<String, AttributeError>, max: nat) -> Option<nat> {
    match r {
        Ok(s) => decimal_up_to(trimmed(s@), max),
        Err(_) => None,
    }
}

/// Where a quantity has an energy-based and a charge-based file, the
/// energy-based one is tried first, and once it is read its text is the
/// quantity's: the charge-based one is never consulted.
pub proof fn lemma_energy_preferred(attr: BatteryAttribute, content: String)
    requires
        attr.candidates().len() > 1,
    ensures
        attr.candidates().len() == 2,
        attr.candidates()[0].subrange(0, 7) == "energy_"@,
        attr.candidates()[1].subrange(0, 7) == "charge_"@,
        lookup_next(attr, 0, Ok(content)) == Lookup::Found(content),
{
    reveal_strlit("energy_now");
    reveal_strlit("charge_now");
    reveal_strlit("energy_full");
    reveal_strlit("charge_full");
    reveal_strlit("energy_full_design");
    reveal_strlit("charge_full_design");
    reveal_strlit("energy_");
    reveal_strlit("charge_");
    assert(attr.candidates()[0].subrange(0, 7) =~= "energy_"@);
    assert(attr.candidates()[1].subrange(0, 7) =~= "charge_"@);
}

/// Where the energy-based file cannot be read, the charge-based one is read
/// next, and its text becomes the quantity's just as the energy-based text
/// would have: the unit does not change what is resolved.
pub proof fn lemma_charge_fallback(attr: BatteryAttribute, failure: ReadFailure, content: String)
    requires
        attr.candidates().len() > 1,
    ensures
        lookup_next(attr, 0, Err(failure)) == Lookup::Read(1),
        lookup_next(attr, 1, Ok(content)) == lookup_next(attr, 0, Ok(content)),
{
}

/// Where neither file of the current power can be read, the lookup fails
/// with a not-found error whose message names both candidates.
pub proof fn lemma_missing_current_power(failure: ReadFailure)
    ensures
        lookup_next(BatteryAttribute::CurrPower, 1, Err(failure)) == Lookup::Failed(
            AttributeError::Missing { attr: BatteryAttribute::CurrPower },
        ),
        error_kind(AttributeError::Missing { attr: BatteryAttribute::CurrPower })
            == FailureKind::NotFound,
        error_text(AttributeError::Missing { attr: BatteryAttribute::CurrPower })
            == "Failed to read current power (tried: "@ + "energy_now"@ + ", "@ + "charge_now"@
            + ")"@,
{
    let c = BatteryAttribute::CurrPower.candidates();
    assert(c.drop_last() =~= seq!["energy_now"@]);
    assert(c.len() == 2 && c.last() == "charge_now"@);
    assert(joined(c.drop_last()) == "energy_now"@);
    assert(joined(c) == "energy_now"@ + ", "@ + "charge_now"@);
    reveal_strlit("Failed to read ");
    reveal_strlit("current power");
    reveal_strlit(" (tried: ");
    reveal_strlit("Failed to read current power (tried: ");
    assert("Failed to read "@ + "current power"@ + " (tried: "@
        =~= "Failed to read current power (tried: "@);
}

/// Reads a resolved quantity as a `u32`, such as a power level.
pub fn read_num_battery_attribute(reading: Result<String, AttributeError>) -> (r: Result<
    u32,
    AttributeError,
>)
    ensures
        reads_u32(reading, r),
        r is Ok <==> reading_value(reading, u32::MAX as nat) is Some,
        r matches Ok(v) ==> reading_value(reading, u32::MAX as nat) == Some(v as nat),
{
    match reading {
        Err(e) => Err(e),
        Ok(s) => {
            let t = trim_text(s.as_str());
            match parse_u32(t) {
                Ok(v) => Ok(v),
                Err(complaint) => Err(AttributeError::Malformed { text: String::from_str(t), complaint }),
            }
        },
    }
}

/// Reads a resolved quantity as a `u8`, such as a cycle count.
pub fn read_count_battery_attribute(reading: Result<String, AttributeError>) -> (r: Result<
    u8,
    AttributeError,
>)
    ensures
        reads_u8(reading, r),
        r is Ok <==> reading_value(reading, u8::MAX as nat) is Some,
        r matches Ok(v) ==> reading_value(reading, u8::MAX as nat) == Some(v as nat),
{
    match reading {
        Err(e) => Err(e),
        Ok(s) => {
            let t = trim_text(s.as_str());
            match parse_u8(t) {
                Ok(v) => Ok(v),
                Err(complaint) => Err(AttributeError::Malformed { text: String::from_str(t), complaint }),
            }
        },
    }
}

} // verus!
