use netbackup::{
    current_stamp, make_backup_file_name, parse_method, stamp_from_unix, BackupMethod, HostRecord,
    Stamp,
};

fn record(name: &str, method: &str) -> HostRecord {
    HostRecord::new(
        name.to_string(),
        "10.0.0.1:22".to_string(),
        "admin".to_string(),
        "secret".to_string(),
        method.to_string(),
    )
}

#[test]
fn known_tags_parse() {
    assert_eq!(parse_method("Mikrotik-Binary"), Some(BackupMethod::MikrotikBinary));
    assert_eq!(parse_method("Mikrotik-Export"), Some(BackupMethod::MikrotikExport));
    assert_eq!(parse_method("Cisco-Export"), Some(BackupMethod::CiscoExport));
    assert_eq!(parse_method("HP-Export"), Some(BackupMethod::HpExport));
}

#[test]
fn unknown_tags_do_not_parse() {
    assert_eq!(parse_method("bogus"), None);
    assert_eq!(parse_method(""), None);
    assert_eq!(parse_method("mikrotik-binary"), None);
    assert_eq!(parse_method("HP-Export "), None);
}

#[test]
fn comment_records() {
    assert!(record("#skip", "HP-Export").is_comment());
    assert!(record("#", "").is_comment());
    assert!(!record("r1", "HP-Export").is_comment());
    assert!(!record("", "HP-Export").is_comment());
    assert!(!record("r#1", "HP-Export").is_comment());
}

#[test]
fn stamp_ranges() {
    assert!(Stamp::new(2024, 3, 5, 7, 9).is_some());
    assert!(Stamp::new(0, 1, 1, 0, 0).is_some());
    assert!(Stamp::new(9999, 12, 31, 23, 59).is_some());
    assert!(Stamp::new(10000, 1, 1, 0, 0).is_none());
    assert!(Stamp::new(-1, 1, 1, 0, 0).is_none());
    assert!(Stamp::new(2024, 0, 1, 0, 0).is_none());
    assert!(Stamp::new(2024, 13, 1, 0, 0).is_none());
    assert!(Stamp::new(2024, 1, 0, 0, 0).is_none());
    assert!(Stamp::new(2024, 1, 32, 0, 0).is_none());
    assert!(Stamp::new(2024, 1, 1, 24, 0).is_none());
    assert!(Stamp::new(2024, 1, 1, 0, 60).is_none());
}

#[test]
fn file_name_is_padded() {
    let s = Stamp::new(2024, 3, 5, 7, 9).unwrap();
    assert_eq!(
        make_backup_file_name("r1", "Mikrotik-Export", &s),
        "r1_Mikrotik-Export_20240305-0709.backup"
    );
    let s = Stamp::new(987, 12, 31, 23, 59).unwrap();
    assert_eq!(make_backup_file_name("sw", "HP-Export", &s), "sw_HP-Export_09871231-2359.backup");
}

#[test]
fn file_name_is_deterministic() {
    let s = Stamp::new(2023, 11, 20, 14, 30).unwrap();
    let a = make_backup_file_name("core-1", "Cisco-Export", &s);
    let b = make_backup_file_name("core-1", "Cisco-Export", &s);
    assert_eq!(a, b);
    assert_eq!(a, "core-1_Cisco-Export_20231120-1430.backup");
    let stamp = &a["core-1_Cisco-Export_".len()..a.len() - ".backup".len()];
    assert_eq!(stamp.len(), 13);
    for (i, c) in stamp.chars().enumerate() {
        if i == 8 {
            assert_eq!(c, '-');
        } else {
            assert!(c.is_ascii_digit());
        }
    }
}

#[test]
fn current_stamp_is_a_real_time() {
    let s = current_stamp().unwrap();
    assert!(s.year >= 2020 && s.year <= 9999);
    assert!(s.month >= 1 && s.month <= 12);
    assert!(s.day >= 1 && s.day <= 31);
    assert!(s.hour <= 23);
    assert!(s.minute <= 59);
}

#[test]
fn small_year_is_zero_padded() {
    let s = Stamp::new(5, 1, 2, 0, 0).unwrap();
    assert_eq!(make_backup_file_name("a", "b", &s), "a_b_00050102-0000.backup");
}

#[test]
fn generic_tags_parse() {
    assert_eq!(parse_method("binary-snapshot"), Some(BackupMethod::MikrotikBinary));
    assert_eq!(parse_method("export-and-read"), Some(BackupMethod::MikrotikExport));
    assert_eq!(parse_method("Export-And-Read"), None);
    assert_eq!(parse_method("interactive-capture"), None);
}

#[test]
fn unix_time_to_stamp() {
    let s = stamp_from_unix(1431648000, 0).unwrap();
    assert_eq!((s.year, s.month, s.day, s.hour, s.minute), (2015, 5, 15, 0, 0));
    let s = stamp_from_unix(1709622599, 999_999_999).unwrap();
    assert_eq!((s.year, s.month, s.day, s.hour, s.minute), (2024, 3, 5, 7, 9));
    let s = stamp_from_unix(0, 0).unwrap();
    assert_eq!(s, Stamp::unix_epoch());
}

#[test]
fn unix_time_out_of_range() {
    assert!(stamp_from_unix(u64::MAX, 0).is_none());
    assert!(stamp_from_unix(9_223_372_036_854_775_808, 0).is_none());
    // 10000-01-01 00:00 UTC: a five-digit year.
    assert!(stamp_from_unix(253_402_300_800, 0).is_none());
    assert!(stamp_from_unix(253_402_300_799, 0).is_some());
}
