use battery_info::attribute::{
    lookup_step, AttributeError, BatteryAttribute, FailureKind, Lookup, ReadFailure,
};
use battery_info::battery::{Battery, Percentage, Readings};
use battery_info::discovery::find_batteries;
use battery_info::status::{classify_folded, classify_status, BatteryStatus};

const DIR: &str = "/sys/class/power_supply/BAT0";

fn text(s: &str) -> Result<String, AttributeError> {
    Ok(s.to_string())
}

fn missing(attr: BatteryAttribute) -> Result<String, AttributeError> {
    Err(AttributeError::Missing { attr })
}

fn no_status() -> Result<String, AttributeError> {
    Err(AttributeError::Unreadable {
        failure: ReadFailure {
            kind: FailureKind::NotFound,
            file: format!("{}/status", DIR),
            detail: "No such file or directory (os error 2)".to_string(),
        },
    })
}

fn readings(curr: &str, total: &str, status: &str, design: &str) -> Readings {
    Readings {
        curr_power: text(curr),
        total_power: text(total),
        status: text(status),
        cycles: text("12\n"),
        design_power: text(design),
    }
}

fn as_f32(p: Percentage) -> f32 {
    (p.part as f32 / p.whole as f32) * 100.0
}

#[test]
fn charge_percentage_is_ratio() {
    let (b, w) = Battery::new(DIR, readings("2500\n", "5000\n", "Discharging\n", "5000\n")).unwrap();
    assert!(w.is_empty());
    assert_eq!(b.charge_percentage(), Percentage { part: 2500, whole: 5000 });
    assert!((as_f32(b.charge_percentage()) - 50.0).abs() < 1e-4);
    let (full, _) = Battery::new(DIR, readings("7\n", "7\n", "Full\n", "7\n")).unwrap();
    assert!((as_f32(full.charge_percentage()) - 100.0).abs() < 1e-4);
    let (empty, _) = Battery::new(DIR, readings("0\n", "9\n", "Full\n", "9\n")).unwrap();
    assert_eq!(as_f32(empty.charge_percentage()), 0.0);
}

#[test]
fn health_is_total_against_design() {
    let (b, w) = Battery::new(DIR, readings("1000\n", "4000\n", "Full\n", "5000\n")).unwrap();
    assert!(w.is_empty());
    assert_eq!(b.health_percentage(), Some(Percentage { part: 4000, whole: 5000 }));
    assert!((as_f32(b.health_percentage().unwrap()) - 80.0).abs() < 1e-4);
    assert_eq!(b.cycles, Some(12));
}

#[test]
fn zero_or_missing_design_gives_no_health() {
    let (b, w) = Battery::new(DIR, readings("1000\n", "4000\n", "Full\n", "0\n")).unwrap();
    assert_eq!(b.health_percentage(), None);
    assert_eq!(w, vec!["Failed to read design power for BAT0. Battery health unavailable.".to_string()]);
    let mut r = readings("1000\n", "4000\n", "Full\n", "0\n");
    r.design_power = missing(BatteryAttribute::DesignPower);
    let (b, w) = Battery::new(DIR, r).unwrap();
    assert_eq!(b.battery_health, None);
    assert_eq!(w.len(), 1);
}

/// Resolves `attr` from a directory that holds only the files in `files`.
fn resolve(attr: BatteryAttribute, files: &[(&str, &str)]) -> Result<String, AttributeError> {
    let names = attr.file_names();
    let mut index: usize = 0;
    loop {
        let name = names[index];
        let outcome = match files.iter().find(|(n, _)| *n == name) {
            Some((_, content)) => Ok(content.to_string()),
            None => Err(ReadFailure {
                kind: FailureKind::NotFound,
                file: format!("{}/{}", DIR, name),
                detail: "No such file or directory (os error 2)".to_string(),
            }),
        };
        match lookup_step(attr, index, outcome) {
            Lookup::Read(next) => index = next,
            Lookup::Found(text) => return Ok(text),
            Lookup::Failed(e) => return Err(e),
        }
    }
}

fn build(files: &[(&str, &str)]) -> Result<(Battery, Vec<String>), battery_info::battery::BatteryError> {
    let r = Readings {
        curr_power: resolve(BatteryAttribute::CurrPower, files),
        total_power: resolve(BatteryAttribute::TotalPower, files),
        status: resolve(BatteryAttribute::Status, files),
        cycles: resolve(BatteryAttribute::Cycles, files),
        design_power: resolve(BatteryAttribute::DesignPower, files),
    };
    Battery::new(DIR, r)
}

#[test]
fn charge_units_give_the_same_math() {
    let energy = [
        ("energy_now", "3000\n"),
        ("energy_full", "6000\n"),
        ("energy_full_design", "8000\n"),
        ("status", "Discharging\n"),
    ];
    let charge = [
        ("charge_now", "3000\n"),
        ("charge_full", "6000\n"),
        ("charge_full_design", "8000\n"),
        ("status", "Discharging\n"),
    ];
    let (e, we) = build(&energy).unwrap();
    let (c, wc) = build(&charge).unwrap();
    assert_eq!(c.curr_power, 3000);
    assert_eq!(c.total_power, 6000);
    assert_eq!(e.charge_percentage(), c.charge_percentage());
    assert_eq!(e.health_percentage(), c.health_percentage());
    assert!((as_f32(c.charge_percentage()) - 50.0).abs() < 1e-4);
    assert!((as_f32(c.health_percentage().unwrap()) - 75.0).abs() < 1e-4);
    assert!(we.is_empty() && wc.is_empty());
}

#[test]
fn energy_files_take_precedence() {
    let both = [
        ("energy_now", "1000\n"),
        ("charge_now", "9\n"),
        ("energy_full", "2000\n"),
        ("charge_full", "10\n"),
        ("status", "Full\n"),
    ];
    let (b, w) = build(&both).unwrap();
    assert_eq!(b.curr_power, 1000);
    assert_eq!(b.total_power, 2000);
    assert_eq!(b.health_percentage(), None);
    assert_eq!(w.len(), 1);
}

#[test]
fn no_power_files_fail_with_both_names() {
    let e = build(&[("status", "Full\n")]).unwrap_err();
    assert_eq!(e.attr, BatteryAttribute::CurrPower);
    assert_eq!(e.kind(), FailureKind::NotFound);
    assert!(e.message().contains("energy_now") && e.message().contains("charge_now"));
}

#[test]
fn missing_status_file_is_unknown() {
    let (b, w) = build(&[("energy_now", "1\n"), ("energy_full", "2\n"), ("energy_full_design", "2\n")])
        .unwrap();
    assert_eq!(b.status, BatteryStatus::Unknown);
    assert_eq!(b.cycles, None);
    assert_eq!(w.len(), 1);
    assert!(w[0].starts_with("Failed to read status for BAT0: "));
}

#[test]
fn missing_current_power_is_fatal() {
    let mut r = readings("1\n", "2\n", "Full\n", "2\n");
    r.curr_power = missing(BatteryAttribute::CurrPower);
    let e = Battery::new(DIR, r).unwrap_err();
    assert_eq!(e.attr, BatteryAttribute::CurrPower);
    assert_eq!(e.kind(), FailureKind::NotFound);
    assert_eq!(
        e.message(),
        "Failed to read current power for BAT0: Failed to read current power (tried: energy_now, charge_now)"
    );
}

#[test]
fn malformed_total_power_is_fatal() {
    let e = Battery::new(DIR, readings("1\n", "lots\n", "Full\n", "2\n")).unwrap_err();
    assert_eq!(e.attr, BatteryAttribute::TotalPower);
    assert_eq!(e.kind(), FailureKind::InvalidData);
    assert_eq!(e.device, "BAT0");
}

#[test]
fn status_is_classified() {
    let (b, w) = Battery::new(DIR, readings("1\n", "2\n", "Charging\n", "2\n")).unwrap();
    assert_eq!(b.status, BatteryStatus::Charging);
    assert!(w.is_empty());
    for raw in ["Discharging", "Full", "Not charging\n"] {
        let (b, w) = Battery::new(DIR, readings("1\n", "2\n", raw, "2\n")).unwrap();
        assert_eq!(b.status, BatteryStatus::NotCharging);
        assert!(w.is_empty());
    }
    assert_eq!(classify_status("  CHARGING \n"), BatteryStatus::Charging);
    assert_eq!(classify_status("charging now"), BatteryStatus::NotCharging);
    assert_eq!(classify_folded("charging"), BatteryStatus::Charging);
    assert_eq!(classify_folded("Charging"), BatteryStatus::NotCharging);
    assert_eq!(classify_folded("discharging"), BatteryStatus::NotCharging);
    assert_eq!(classify_folded(""), BatteryStatus::NotCharging);
    assert_eq!(BatteryStatus::NotCharging.as_str(), "not charging");
}

#[test]
fn unreadable_status_is_unknown_with_warning() {
    let mut r = readings("1\n", "2\n", "", "2\n");
    r.status = no_status();
    let (b, w) = Battery::new(DIR, r).unwrap();
    assert_eq!(b.status, BatteryStatus::Unknown);
    assert_eq!(b.status.as_str(), "unknown");
    assert_eq!(
        w,
        vec![format!(
            "Failed to read status for BAT0: Failed to read {}/status: No such file or directory (os error 2). Using 'unknown'.",
            DIR
        )]
    );
}

#[test]
fn cycles_are_optional() {
    let mut r = readings("1\n", "2\n", "Full\n", "2\n");
    r.cycles = text("300\n");
    let (b, w) = Battery::new(DIR, r).unwrap();
    assert_eq!(b.cycles, None);
    assert!(w.is_empty());
}

#[test]
fn refresh_replaces_or_keeps() {
    let (mut b, _) = Battery::new(DIR, readings("1000\n", "4000\n", "Full\n", "5000\n")).unwrap();
    let w = b.refresh(readings("2000\n", "3900\n", "Charging\n", "5000\n")).unwrap();
    assert!(w.is_empty());
    assert_eq!(b.curr_power, 2000);
    assert_eq!(b.total_power, 3900);
    assert_eq!(b.status, BatteryStatus::Charging);
    assert_eq!(b.path(), DIR);
    let mut gone = readings("1\n", "1\n", "Full\n", "1\n");
    gone.curr_power = missing(BatteryAttribute::CurrPower);
    assert!(b.refresh(gone).is_err());
    assert_eq!(b.curr_power, 2000);
    assert_eq!(b.total_power, 3900);
    assert_eq!(b.status, BatteryStatus::Charging);
    assert_eq!(b.health_percentage(), Some(Percentage { part: 3900, whole: 5000 }));
    assert_eq!(b.path.as_str(), DIR);
}

#[test]
fn device_name_falls_back_to_unknown() {
    let mut r = readings("1\n", "2\n", "Full\n", "2\n");
    r.curr_power = missing(BatteryAttribute::CurrPower);
    let e = Battery::new("/", r).unwrap_err();
    assert_eq!(e.device, "unknown");
}

#[test]
fn only_battery_entries_are_found() {
    let entries = vec![
        (Some("BAT0".to_string()), "/root/BAT0"),
        (Some("AC0".to_string()), "/root/AC0"),
        (Some("BAT1".to_string()), "/root/BAT1"),
        (None, "/root/odd"),
        (Some("BA".to_string()), "/root/BA"),
    ];
    assert_eq!(find_batteries(entries), vec!["/root/BAT0", "/root/BAT1"]);
    let none: Vec<(Option<String>, &str)> = Vec::new();
    assert!(find_batteries(none).is_empty());
}
