use chrono::TimeZone;
use ems::fixed::Milli;
use ems::p1::models::{ExternalMeasurement, P1Data};
use ems::p1::reader::{
    assemble_reading, expand_timestamp, instant_or_now, parse_civil_time, parse_p1_timestamp,
    read_p1, resolve_mapping, resolve_reading, resolve_timestamp, LocalMapping, MeterFetch,
    ResolvedTimestamp, TimestampError,
};

fn document(peak_timestamp: &str, gas_timestamp: &str) -> P1Data {
    let zero = Milli { thousandths: 0 };
    P1Data {
        wifi_ssid: "home".to_string(),
        wifi_strength: 74,
        smr_version: 50,
        meter_model: "ISKRA 2M550T-1012".to_string(),
        unique_id: "4530303331".to_string(),
        active_tariff: 2,
        total_power_import_kwh: Milli { thousandths: 13_779_338 },
        total_power_import_t1_kwh: Milli { thousandths: 10_830_511 },
        total_power_import_t2_kwh: Milli { thousandths: 2_948_827 },
        total_power_export_kwh: zero,
        total_power_export_t1_kwh: zero,
        total_power_export_t2_kwh: zero,
        active_power_w: Milli { thousandths: -543_000 },
        active_power_l1_w: Milli { thousandths: -676_000 },
        active_power_l2_w: Milli { thousandths: 133_000 },
        active_power_l3_w: zero,
        active_voltage_l1_v: Milli { thousandths: 235_300 },
        active_voltage_l2_v: Milli { thousandths: 234_100 },
        active_voltage_l3_v: Milli { thousandths: 236_000 },
        active_current_a: Milli { thousandths: 3_120 },
        active_current_l1_a: Milli { thousandths: -4_000 },
        active_current_l2_a: Milli { thousandths: 2_000 },
        active_current_l3_a: zero,
        active_power_average_w: Milli { thousandths: 123_000 },
        montly_power_peak_w: Milli { thousandths: 1_111_000 },
        montly_power_peak_timestamp: peak_timestamp.to_string(),
        total_gas_m3: Milli { thousandths: 2_569_646 },
        gas_timestamp: gas_timestamp.to_string(),
        gas_unique_id: "4730303339".to_string(),
        external: vec![ExternalMeasurement {
            unique_id: "4730303339".to_string(),
            kind: "gas_meter".to_string(),
            timestamp: gas_timestamp.to_string(),
            value: Milli { thousandths: 2_569_646 },
            unit: "m3".to_string(),
        }],
    }
}

fn local_instant(year: i32, month: u32, day: u32, hour: u32, minute: u32, second: u32) -> Result<i64, TimestampError> {
    match chrono::Local.with_ymd_and_hms(year, month, day, hour, minute, second) {
        chrono::LocalResult::Single(t) => Ok(t.timestamp()),
        _ => Err(TimestampError::AmbiguousLocalTime),
    }
}

#[test]
fn compact_timestamp_is_written_out() {
    assert_eq!(expand_timestamp("231231235959"), Ok("2023-12-31 23:59:59".to_string()));
    assert_eq!(expand_timestamp("abcdefghijkl"), Ok("20ab-cd-ef gh:ij:kl".to_string()));
}

#[test]
fn last_second_of_2023_in_a_fixed_zone() {
    assert_eq!(parse_civil_time("231231235959"), Ok(1_704_067_199));
}

#[test]
fn civil_times_are_seconds_on_the_civil_clock() {
    assert_eq!(parse_civil_time("000101000000"), Ok(946_684_800));
    assert_eq!(parse_civil_time("240229120000"), Ok(1_709_208_000));
    assert_eq!(parse_civil_time("991231235959"), Ok(4_102_444_799));
}

#[test]
fn last_second_of_2023_in_the_local_zone() {
    assert_eq!(parse_p1_timestamp("231231235959"), local_instant(2023, 12, 31, 23, 59, 59));
    assert_eq!(parse_p1_timestamp("240115120000"), local_instant(2024, 1, 15, 12, 0, 0));
}

#[test]
fn wrong_length_is_a_failure() {
    assert_eq!(parse_p1_timestamp(""), Err(TimestampError::InvalidLength));
    assert_eq!(parse_p1_timestamp("2312312359"), Err(TimestampError::InvalidLength));
    assert_eq!(parse_p1_timestamp("2312312359590"), Err(TimestampError::InvalidLength));
    assert_eq!(parse_p1_timestamp("20231231235959"), Err(TimestampError::InvalidLength));
    assert_eq!(parse_civil_time("23123123595"), Err(TimestampError::InvalidLength));
    assert_eq!(expand_timestamp("1"), Err(TimestampError::InvalidLength));
}

#[test]
fn length_is_counted_in_bytes() {
    assert_eq!(parse_p1_timestamp("23123123595\u{e9}"), Err(TimestampError::InvalidLength));
    assert_eq!(parse_p1_timestamp("2312312359\u{e9}"), Err(TimestampError::InvalidFormat));
    assert_eq!(parse_p1_timestamp("\u{e9}\u{e9}\u{e9}\u{e9}\u{e9}\u{e9}"), Err(TimestampError::InvalidFormat));
    assert_eq!(parse_p1_timestamp("2\u{e9}1231235959"), Err(TimestampError::InvalidLength));
    assert_eq!(parse_p1_timestamp("2\u{e9}123123595"), Err(TimestampError::InvalidFormat));
}

#[test]
fn what_names_no_date_is_a_failure() {
    assert_eq!(parse_p1_timestamp("231331235959"), Err(TimestampError::InvalidFormat));
    assert_eq!(parse_p1_timestamp("230229000000"), Err(TimestampError::InvalidFormat));
    assert_eq!(parse_p1_timestamp("231231240000"), Err(TimestampError::InvalidFormat));
    assert_eq!(parse_p1_timestamp("231231236000"), Err(TimestampError::InvalidFormat));
    assert_eq!(parse_p1_timestamp("abcdefghijkl"), Err(TimestampError::InvalidFormat));
    assert_eq!(parse_p1_timestamp("2312-1235959"), Err(TimestampError::InvalidFormat));
    assert_eq!(parse_p1_timestamp("230001000000"), Err(TimestampError::InvalidFormat));
}

#[test]
fn mapping_settles_on_a_single_instant_only() {
    assert_eq!(resolve_mapping(LocalMapping::Single(1_704_067_199)), Ok(1_704_067_199));
    assert_eq!(resolve_mapping(LocalMapping::Single(-1)), Ok(-1));
    assert_eq!(resolve_mapping(LocalMapping::Skipped), Err(TimestampError::AmbiguousLocalTime));
    assert_eq!(
        resolve_mapping(LocalMapping::Ambiguous(1_698_539_400, 1_698_543_000)),
        Err(TimestampError::AmbiguousLocalTime)
    );
}

#[test]
fn a_resolved_instant_is_kept() {
    assert_eq!(
        instant_or_now(Ok(1_704_067_199), 1_800_000_000),
        ResolvedTimestamp { instant: 1_704_067_199, fallback: None }
    );
}

#[test]
fn an_unresolved_timestamp_falls_back_to_now() {
    assert_eq!(
        instant_or_now(Err(TimestampError::AmbiguousLocalTime), 1_800_000_000),
        ResolvedTimestamp {
            instant: 1_800_000_000,
            fallback: Some(TimestampError::AmbiguousLocalTime),
        }
    );
    assert_eq!(
        instant_or_now(Err(TimestampError::InvalidLength), -5),
        ResolvedTimestamp { instant: -5, fallback: Some(TimestampError::InvalidLength) }
    );
}

#[test]
fn a_bad_timestamp_resolves_to_the_current_time() {
    let before = chrono::Utc::now().timestamp();
    let kept = resolve_timestamp("not a time");
    let after = chrono::Utc::now().timestamp();
    assert_eq!(kept.fallback, Some(TimestampError::InvalidLength));
    assert!(before <= kept.instant && kept.instant <= after);
    let unreadable = resolve_timestamp("231331235959");
    assert_eq!(unreadable.fallback, Some(TimestampError::InvalidFormat));
    assert!(before <= unreadable.instant);
}

#[test]
fn a_good_timestamp_resolves_to_its_instant() {
    let kept = resolve_timestamp("240115120000");
    match local_instant(2024, 1, 15, 12, 0, 0) {
        Ok(instant) => assert_eq!(kept, ResolvedTimestamp { instant, fallback: None }),
        Err(e) => assert_eq!(kept.fallback, Some(e)),
    }
}

#[test]
fn a_reading_is_put_together_from_its_parts() {
    let raw = document("240115120000", "240115121500");
    let peak = ResolvedTimestamp { instant: 11, fallback: None };
    let gas = ResolvedTimestamp { instant: 22, fallback: Some(TimestampError::InvalidFormat) };
    let resolved = assemble_reading(raw, peak, gas);
    assert_eq!(resolved.reading.monthly_power_peak_timestamp_utc, 11);
    assert_eq!(resolved.reading.gas_timestamp_utc, 22);
    assert_eq!(resolved.peak_fallback, None);
    assert_eq!(resolved.gas_fallback, Some(TimestampError::InvalidFormat));
    assert_eq!(resolved.reading.raw.unique_id, "4530303331");
    assert_eq!(resolved.reading.raw.active_power_w, Milli { thousandths: -543_000 });
    assert_eq!(resolved.reading.raw.external.len(), 1);
}

#[test]
fn one_bad_timestamp_does_not_fail_the_reading() {
    let before = chrono::Utc::now().timestamp();
    let resolved = resolve_reading(document("240115120000", "0"));
    assert_eq!(resolved.gas_fallback, Some(TimestampError::InvalidLength));
    assert!(resolved.reading.gas_timestamp_utc >= before);
    match local_instant(2024, 1, 15, 12, 0, 0) {
        Ok(instant) => {
            assert_eq!(resolved.peak_fallback, None);
            assert_eq!(resolved.reading.monthly_power_peak_timestamp_utc, instant);
        }
        Err(e) => assert_eq!(resolved.peak_fallback, Some(e)),
    }
    assert_eq!(resolved.reading.raw.gas_timestamp, "0");
    assert_eq!(resolved.reading.raw.total_gas_m3, Milli { thousandths: 2_569_646 });
}

#[test]
fn a_failed_fetch_gives_no_reading() {
    assert!(read_p1(MeterFetch::NetworkFailure).is_none());
    assert!(read_p1(MeterFetch::ParseFailure).is_none());
}

#[test]
fn a_fetched_document_gives_a_reading() {
    let resolved = read_p1(MeterFetch::Document(document("231231235959", "bad"))).unwrap();
    assert_eq!(resolved.reading.raw.meter_model, "ISKRA 2M550T-1012");
    assert_eq!(resolved.reading.raw.montly_power_peak_timestamp, "231231235959");
    assert_eq!(resolved.gas_fallback, Some(TimestampError::InvalidLength));
    match local_instant(2023, 12, 31, 23, 59, 59) {
        Ok(instant) => {
            assert_eq!(resolved.peak_fallback, None);
            assert_eq!(resolved.reading.monthly_power_peak_timestamp_utc, instant);
        }
        Err(e) => assert_eq!(resolved.peak_fallback, Some(e)),
    }
}

#[test]
fn a_resolved_instant_lies_within_a_day_of_the_civil_time() {
    let samples = vec!["231231235959", "240115120000", "240630000000", "000101000000", "991231235959"];
    for s in samples {
        let civil = parse_civil_time(s).unwrap();
        match parse_p1_timestamp(s) {
            Ok(instant) => assert!((instant - civil).abs() < 86_400),
            Err(e) => assert_eq!(e, TimestampError::AmbiguousLocalTime),
        }
    }
}
