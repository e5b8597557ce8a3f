use netbackup::{Action, Batch, Command, Event, FailureKind, HostRecord, Stamp, Status};

fn record(name: &str, address: &str, method: &str) -> HostRecord {
    HostRecord::new(
        name.to_string(),
        address.to_string(),
        "admin".to_string(),
        "secret".to_string(),
        method.to_string(),
    )
}

struct Trace {
    lines: Vec<String>,
    kinds: Vec<Option<FailureKind>>,
    writes: Vec<(String, Vec<u8>)>,
    connects: Vec<String>,
}

/// Runs a batch to its end against a simulated device: every connection to
/// an address in `down` is refused, and every command prints `output`.
fn drive(hosts: Vec<HostRecord>, down: &[&str], output: &[u8]) -> (Trace, usize) {
    let stamp = Stamp::new(2024, 3, 5, 7, 9).unwrap();
    let mut batch = Batch::new(hosts);
    let mut trace = Trace { lines: vec![], kinds: vec![], writes: vec![], connects: vec![] };
    let mut cmd = batch.next_host(&stamp);
    loop {
        match cmd {
            Command::Finished => break,
            Command::Report(o) => {
                trace.lines.push(o.line());
                trace.kinds.push(match o.status {
                    Status::Failed { kind, .. } => Some(kind),
                    Status::BackedUp { .. } => None,
                });
                cmd = batch.next_host(&stamp);
            },
            Command::Perform(a) => {
                let ev = match a {
                    Action::Connect { address, .. } => {
                        trace.connects.push(address.clone());
                        if down.contains(&address.as_str()) {
                            Event::Failed("connection refused".to_string())
                        } else {
                            Event::Completed
                        }
                    },
                    Action::ExecRead { .. } | Action::Fetch { .. } | Action::CollectShell => {
                        Event::Output(output.to_vec())
                    },
                    Action::Write { path, contents, .. } => {
                        trace.writes.push((path, contents));
                        Event::Completed
                    },
                    _ => Event::Completed,
                };
                cmd = batch.resume(ev);
            },
        }
    }
    (trace, batch.reported)
}

#[test]
fn export_scenario_single_host() {
    let text = b"config line 1\nconfig line 2\n";
    let (t, reported) = drive(vec![record("r1", "10.0.0.1:22", "export-and-read")], &[], text);
    assert_eq!(reported, 1);
    assert_eq!(t.lines, vec!["r1 Backed up".to_string()]);
    assert_eq!(t.writes.len(), 1);
    assert_eq!(t.writes[0].0, "backups/r1_export-and-read_20240305-0709.backup");
    assert_eq!(t.writes[0].1, text.to_vec());
}

#[test]
fn comment_and_unknown_method_scenario() {
    let hosts = vec![
        record("#skip", "10.0.0.9:22", "Mikrotik-Export"),
        record("r2", "10.0.0.2:22", "bogus"),
    ];
    let (t, reported) = drive(hosts, &[], b"x");
    assert_eq!(reported, 1);
    assert!(t.writes.is_empty());
    assert!(t.connects.is_empty());
    assert_eq!(t.kinds, vec![Some(FailureKind::UnknownMethod)]);
    assert_eq!(t.lines, vec!["Backup Failed: r2 :: UnknownMethod: Unknown Method: bogus".to_string()]);
}

#[test]
fn failed_connection_does_not_stop_the_next_host() {
    let hosts = vec![
        record("r1", "10.0.0.1:22", "Cisco-Export"),
        record("r2", "10.0.0.2:22", "Mikrotik-Export"),
    ];
    let (t, reported) = drive(hosts, &["10.0.0.1:22"], b"cfg");
    assert_eq!(reported, 2);
    assert_eq!(t.connects, vec!["10.0.0.1:22".to_string(), "10.0.0.2:22".to_string()]);
    assert_eq!(t.kinds, vec![Some(FailureKind::ConnectionFailed), None]);
    assert_eq!(t.lines[0], "Backup Failed: r1 :: ConnectionFailed: connection refused");
    assert_eq!(t.lines[1], "r2 Backed up");
    assert_eq!(t.writes.len(), 1);
    assert_eq!(t.writes[0].0, "backups/r2_Mikrotik-Export_20240305-0709.backup");
}

#[test]
fn one_line_per_non_comment_record() {
    let hosts = vec![
        record("#a", "h:22", "HP-Export"),
        record("a", "h1:22", "HP-Export"),
        record("b", "h2:22", "nope"),
        record("#b", "h:22", "nope"),
        record("c", "h3:22", "Mikrotik-Binary"),
        record("d", "h4:22", "Cisco-Export"),
        record("#", "h:22", "Cisco-Export"),
    ];
    let (t, reported) = drive(hosts, &["h4:22"], b"data");
    assert_eq!(reported, 4);
    assert_eq!(t.lines.len(), 4);
    assert_eq!(t.kinds, vec![
        None,
        Some(FailureKind::UnknownMethod),
        None,
        Some(FailureKind::ConnectionFailed),
    ]);
    assert_eq!(t.connects, vec!["h1:22".to_string(), "h3:22".to_string(), "h4:22".to_string()]);
    assert_eq!(t.writes.len(), 2);
}

#[test]
fn empty_and_all_comment_lists() {
    let (t, reported) = drive(vec![], &[], b"");
    assert_eq!(reported, 0);
    assert!(t.lines.is_empty());
    let hosts = vec![record("#1", "h:22", "HP-Export"), record("#2", "h:22", "bogus")];
    let (t, reported) = drive(hosts, &[], b"");
    assert_eq!(reported, 0);
    assert!(t.lines.is_empty());
    assert!(t.connects.is_empty());
}

#[test]
fn failed_connection_then_other_methods_succeed() {
    for method in ["Mikrotik-Binary", "Cisco-Export", "HP-Export", "Mikrotik-Export", "binary-snapshot", "export-and-read"] {
        let hosts = vec![record("r1", "10.0.0.1:22", method), record("r2", "10.0.0.2:22", method)];
        let (t, reported) = drive(hosts, &["10.0.0.1:22"], b"cfg");
        assert_eq!(reported, 2);
        assert_eq!(t.kinds, vec![Some(FailureKind::ConnectionFailed), None]);
        assert_eq!(t.writes.len(), 1);
        assert_eq!(t.writes[0].0, format!("backups/r2_{}_20240305-0709.backup", method));
        assert_eq!(t.writes[0].1, b"cfg".to_vec());
        let (alone, _) = drive(vec![record("r2", "10.0.0.2:22", method)], &[], b"cfg");
        assert_eq!(alone.writes, t.writes);
        assert_eq!(alone.lines[0], t.lines[1]);
    }
}
