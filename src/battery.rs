//! One battery's snapshot, built from the readings of its attributes.

use vstd::prelude::*;
use crate::attribute::{
    error_text, error_kind, read_count_battery_attribute, read_num_battery_attribute,
    reading_value, reads_u32, AttributeError, BatteryAttribute, FailureKind,
};
use crate::status::{classified, classify_status, status_of, BatteryStatus};
use crate::text::{file_name, file_name_of};

verus! {

/// A percentage kept exact: `part / whole × 100`.
#[derive(Clone, Copy, Debug, PartialEq, Eq, Structural)]
pub struct Percentage {
    pub part: u32,
    pub whole: u32,
}

/// What was read for each attribute of one battery directory: the text of
/// the first readable candidate file, or why none could be read.
#[derive(Debug)]
pub struct Readings {
    pub curr_power: Result<String, AttributeError>,
    pub total_power: Result<String, AttributeError>,
    pub status: Result<String, AttributeError>,
    pub cycles: Result<String, AttributeError>,
    pub design_power: Result<String, AttributeError>,
}

/// Why a battery could not be read: which attribute failed, for which
/// device, and the cause.
#[derive(Debug)]
pub struct BatteryError {
    pub attr: BatteryAttribute,
    pub device: String,
    pub cause: AttributeError,
}

/// The message of a battery error.
pub open spec fn battery_error_text(e: BatteryError) -> Seq<char> {
    "Failed to read "@ + e.attr.label_text() + " for "@ + e.device@ + ": "@ + error_text(e.cause)
}

impl BatteryError {
    /// The class of the failure: that of its cause.
    pub fn kind(&self) -> (r: FailureKind)
        ensures
            r == error_kind(self.cause),
    {
        self.cause.kind()
    }

    /// The human-readable message.
    pub fn message(&self) -> (r: String)
        ensures
            r@ == battery_error_text(*self),
    {
        String::from_str("Failed to read ").concat(self.attr.label()).concat(" for ").concat(
            self.device.as_str(),
        ).concat(": ").concat(self.cause.message().as_str())
    }
}

/// The name of the device at `path`, as messages give it.
pub open spec fn device_of(path: Seq<char>) -> Seq<char> {
    match file_name_of(path) {
        Some(n) => n,
        None => "unknown"@,
    }
}

/// The cycle count that a reading gives, if it holds one.
pub open spec fn cycles_of(reading: Result<String, AttributeError>) -> Option<u8> {
    match reading_value(reading, u8::MAX as nat) {
        Some(v) => Some(v as u8),
        None => None,
    }
}

/// The health of a battery of capacity `total`: its capacity against the
/// design capacity, where that could be read and is positive.
pub open spec fn health_of(total: u32, design: Result<String, AttributeError>) -> Option<
    Percentage,
> {
    match reading_value(design, u32::MAX as nat) {
        Some(d) => if d > 0 {
            Some(Percentage { part: total, whole: d as u32 })
        } else {
            None
        },
        None => None,
    }
}

/// The warning given where the status could not be read.
pub open spec fn status_warning(device: Seq<char>, e: AttributeError) -> Seq<char> {
    "Failed to read status for "@ + device + ": "@ + error_text(e) + ". Using 'unknown'."@
}

/// The warning given where no health could be computed.
pub open spec fn design_warning(device: Seq<char>) -> Seq<char> {
    "Failed to read design power for "@ + device + ". Battery health unavailable."@
}

/// The warnings of a construction: one where the status could not be read,
/// then one where no health could be computed.
pub open spec fn warnings_of(
    device: Seq<char>,
    status: Result<String, AttributeError>,
    health: Option<Percentage>,
) -> Seq<Seq<char>> {
    (match status {
        Err(e) => seq![status_warning(device, e)],
        Ok(_) => Seq::empty(),
    }) + (if health is None {
        seq![design_warning(device)]
    } else {
        Seq::empty()
    })
}

/// The directory of one battery device. Only a construction makes one, so a
/// snapshot keeps the location it was read from.
#[derive(Debug)]
pub struct DevicePath {
    text: String,
}

impl View for DevicePath {
    type V = Seq<char>;

    closed spec fn view(&self) -> Seq<char> {
        self.text@
    }
}

impl DevicePath {
    pub fn as_str(&self) -> (r: &str)
        ensures
            r@ == self@,
    {
        self.text.as_str()
    }
}

/// The latest snapshot of one battery.
#[derive(Debug)]
pub struct Battery {
    pub path: DevicePath,
    pub total_power: u32,
    pub curr_power: u32,
    pub status: BatteryStatus,
    pub cycles: Option<u8>,
    pub battery_health: Option<Percentage>,
}

/// `r` is what constructing a battery at `path` from `readings` gives. The
/// current and the total power must both read as numbers, the current one
/// first; the other attributes fall back to defaults, with warnings for the
/// status and the design power.
pub open spec fn built(
    path: Seq<char>,
    readings: Readings,
    r: Result<(Battery, Vec<String>), BatteryError>,
) -> bool {
    let curr = reading_value(readings.curr_power, u32::MAX as nat);
    let total = reading_value(readings.total_power, u32::MAX as nat);
    match r {
        Err(e) => {
            &&& e.device@ == device_of(path)
            &&& if curr is None {
                e.attr == BatteryAttribute::CurrPower && reads_u32(
                    readings.curr_power,
                    Err(e.cause),
                )
            } else {
                &&& total is None
                &&& e.attr == BatteryAttribute::TotalPower
                &&& reads_u32(readings.total_power, Err(e.cause))
            }
        },
        Ok((b, w)) => {
            &&& curr == Some(b.curr_power as nat)
            &&& total == Some(b.total_power as nat)
            &&& b.path@ == path
            &&& b.status == status_of(readings.status)
            &&& b.cycles == cycles_of(readings.cycles)
            &&& b.battery_health == health_of(b.total_power, readings.design_power)
            &&& w@.map_values(|s: String| s@) == warnings_of(
                device_of(path),
                readings.status,
                b.battery_health,
            )
        },
    }
}

/// `after` and `r` are what a refresh of `before` from `readings` gives: a
/// construction at the same directory, whose snapshot replaces the whole of
/// the old one where it succeeds, and which leaves the old one as it was
/// where it fails.
pub open spec fn refreshed(
    before: Battery,
    readings: Readings,
    after: Battery,
    r: Result<Vec<String>, BatteryError>,
) -> bool {
    match r {
        Ok(w) => built(before.path@, readings, Ok((after, w))),
        Err(e) => built(before.path@, readings, Err(e)) && after == before,
    }
}

/// A construction fails exactly where the current or the total power does
/// not read as a number; it then reports the first of the two that failed,
/// with the cause of that failure.
pub proof fn lemma_fatal_powers(
    path: Seq<char>,
    readings: Readings,
    r: Result<(Battery, Vec<String>), BatteryError>,
)
    requires
        built(path, readings, r),
    ensures
        r is Err <==> (reading_value(readings.curr_power, u32::MAX as nat) is None
            || reading_value(readings.total_power, u32::MAX as nat) is None),
        readings.curr_power matches Err(e) ==> r matches Err(b) && b.attr
            == BatteryAttribute::CurrPower && b.cause == e,
        readings.total_power matches Err(e) ==> (reading_value(
            readings.curr_power,
            u32::MAX as nat,
        ) is None || (r matches Err(b) && b.attr == BatteryAttribute::TotalPower && b.cause
            == e)),
{
}

/// The health of a constructed battery is its total power against a positive
/// design power, and absent, with a warning, where the design power is zero
/// or could not be read.
pub proof fn lemma_health(
    path: Seq<char>,
    readings: Readings,
    b: Battery,
    w: Vec<String>,
)
    requires
        built(path, readings, Ok((b, w))),
    ensures
        reading_value(readings.design_power, u32::MAX as nat) matches Some(d) ==> (d > 0 ==> (
        b.battery_health == Some(Percentage { part: b.total_power, whole: d as u32 })
            && !w@.map_values(|s: String| s@).contains(design_warning(device_of(path))))),
        (reading_value(readings.design_power, u32::MAX as nat) == Some(0nat)
            || readings.design_power is Err) ==> b.battery_health is None
            && w@.map_values(|s: String| s@).last() == design_warning(device_of(path)),
{
    let ws = w@.map_values(|s: String| s@);
    let dev = device_of(path);
    if b.battery_health is Some && ws.contains(design_warning(dev)) {
        match readings.status {
            Err(e) => {
                assert(ws[0] == status_warning(dev, e));
                reveal_strlit("Failed to read status for ");
                reveal_strlit("Failed to read design power for ");
                assert(ws[0][15] != design_warning(dev)[15]);
            },
            Ok(_) => {},
        }
    }
}

/// The status of a constructed battery is unknown, with a warning, exactly
/// where the status could not be read; a status text that was read is
/// classified, and gives no warning.
pub proof fn lemma_status(
    path: Seq<char>,
    readings: Readings,
    b: Battery,
    w: Vec<String>,
)
    requires
        built(path, readings, Ok((b, w))),
    ensures
        readings.status matches Err(e) ==> b.status == BatteryStatus::Unknown
            && w@.map_values(|s: String| s@)[0] == status_warning(device_of(path), e),
        readings.status matches Ok(raw) ==> b.status == classified(raw@) && b.status
            != BatteryStatus::Unknown && w@.len() == (if b.battery_health is None {
            1int
        } else {
            0int
        }),
{
    let ws = w@.map_values(|s: String| s@);
    if readings.status is Ok {
        assert(ws.len() == w@.len());
    }
}

/// A refresh whose readings fail keeps the previous snapshot whole; one that
/// succeeds gives the snapshot of the new readings, at the same directory.
pub proof fn lemma_refresh(
    before: Battery,
    readings: Readings,
    after: Battery,
    r: Result<Vec<String>, BatteryError>,
)
    requires
        refreshed(before, readings, after, r),
    ensures
        r is Err <==> (reading_value(readings.curr_power, u32::MAX as nat) is None
            || reading_value(readings.total_power, u32::MAX as nat) is None),
        r is Err ==> after == before,
        r is Ok ==> {
            &&& after.path@ == before.path@
            &&& reading_value(readings.curr_power, u32::MAX as nat) == Some(after.curr_power as nat)
            &&& reading_value(readings.total_power, u32::MAX as nat) == Some(
                after.total_power as nat,
            )
            &&& after.status == status_of(readings.status)
            &&& after.cycles == cycles_of(readings.cycles)
            &&& after.battery_health == health_of(after.total_power, readings.design_power)
        },
{
}

impl Battery {
    /// Builds the snapshot of the battery at `path` from what was read there,
    /// with the warnings of what could not be read.
    pub fn new(path: &str, readings: Readings) -> (r: Result<(Battery, Vec<String>), BatteryError>)
        ensures
            built(path@, readings, r),
            r is Ok <==> (reading_value(readings.curr_power, u32::MAX as nat) is Some
                && reading_value(readings.total_power, u32::MAX as nat) is Some),
    {
        let device = match file_name(path) {
            Some(n) => n,
            None => String::from_str("unknown"),
        };
        let Readings { curr_power, total_power, status, cycles, design_power } = readings;
        let curr = match read_num_battery_attribute(curr_power) {
            Ok(v) => v,
            Err(cause) => {
                return Err(BatteryError { attr: BatteryAttribute::CurrPower, device, cause });
            },
        };
        let total = match read_num_battery_attribute(total_power) {
            Ok(v) => v,
            Err(cause) => {
                return Err(BatteryError { attr: BatteryAttribute::TotalPower, device, cause });
            },
        };
        let mut warnings: Vec<String> = Vec::new();
        let state = match status {
            Ok(raw) => classify_status(raw.as_str()),
            Err(e) => {
                let text = String::from_str("Failed to read status for ").concat(
                    device.as_str(),
                ).concat(": ").concat(e.message().as_str()).concat(". Using 'unknown'.");
                warnings.push(text);
                BatteryStatus::Unknown
            },
        };
        let count = match read_count_battery_attribute(cycles) {
            Ok(c) => Some(c),
            Err(_) => None,
        };
        let health = match read_num_battery_attribute(design_power) {
            Ok(d) => if d > 0 {
                Some(Percentage { part: total, whole: d })
            } else {
                None
            },
            Err(_) => None,
        };
        if health.is_none() {
            let text = String::from_str("Failed to read design power for ").concat(
                device.as_str(),
            ).concat(". Battery health unavailable.");
            warnings.push(text);
        }
        assert(warnings@.map_values(|s: String| s@) =~= warnings_of(
            device@,
            readings.status,
            health,
        ));
        let battery = Battery {
            path: DevicePath { text: String::from_str(path) },
            total_power: total,
            curr_power: curr,
            status: state,
            cycles: count,
            battery_health: health,
        };
        Ok((battery, warnings))
    }

    /// Reads the snapshot again from new readings of the same directory. On
    /// success the whole snapshot is replaced; on failure it is left as it was.
    pub fn refresh(&mut self, readings: Readings) -> (r: Result<Vec<String>, BatteryError>)
        ensures
            refreshed(*old(self), readings, *final(self), r),
    {
        match Battery::new(self.path.as_str(), readings) {
            Ok((battery, warnings)) => {
                *self = battery;
                Ok(warnings)
            },
            Err(e) => Err(e),
        }
    }

    /// The directory the snapshot was read from.
    pub fn path(&self) -> (r: &str)
        ensures
            r@ == self.path@,
    {
        self.path.as_str()
    }

    /// The charge level: current power against total power.
    pub fn charge_percentage(&self) -> (r: Percentage)
        ensures
            r == (Percentage { part: self.curr_power, whole: self.total_power }),
    {
        Percentage { part: self.curr_power, whole: self.total_power }
    }

    /// The wear estimate computed when the snapshot was read, if any.
    pub fn health_percentage(&self) -> (r: Option<Percentage>)
        ensures
            r == self.battery_health,
    {
        self.battery_health
    }
}

} // verus!
