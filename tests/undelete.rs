use undelete::{
    report_line, resolve_markers, Action, ActionableMarker, Batch, BatchAction, BatchEvent,
    DeleteMarker, ErrorKind, Event, LineError, LineSession,
};

fn marker(key: Option<&str>, version_id: Option<&str>, is_latest: Option<bool>) -> DeleteMarker {
    DeleteMarker {
        key: key.map(|k| k.to_string()),
        version_id: version_id.map(|v| v.to_string()),
        is_latest,
    }
}

fn pairs(ms: &[ActionableMarker]) -> Vec<(String, String)> {
    ms.iter().map(|m| (m.key.clone(), m.version_id.clone())).collect()
}

struct Run {
    listed: Vec<String>,
    deleted: Vec<(String, String)>,
    printed: Vec<String>,
    end: Result<(), String>,
}

/// Drives a batch over the given input lines against a fake storage service.
fn run(
    lines: Vec<Result<String, String>>,
    list: impl Fn(&str) -> Result<Option<Vec<DeleteMarker>>, String>,
    delete: impl Fn(&str, &str) -> Result<(), String>,
) -> Run {
    let mut out = Run { listed: vec![], deleted: vec![], printed: vec![], end: Ok(()) };
    let mut input = lines.into_iter();
    let mut batch = Batch::new();
    let mut action = batch.action();
    for _ in 0..1000 {
        let event = match action {
            BatchAction::ReadLine => BatchEvent::LineRead(input.next().transpose()),
            BatchAction::ListVersions { prefix } => {
                out.listed.push(prefix.clone());
                BatchEvent::Storage(Event::Listed(list(&prefix)))
            }
            BatchAction::DeleteObject { key, version_id } => {
                let res = delete(&key, &version_id);
                out.deleted.push((key, version_id));
                BatchEvent::Storage(Event::Deleted(res))
            }
            BatchAction::Print(line) => {
                out.printed.push(line);
                BatchEvent::Reported
            }
            BatchAction::Stop(end) => {
                out.end = end;
                return out;
            }
        };
        action = batch.step(event);
    }
    panic!("the batch did not stop");
}

fn lines(ls: &[&str]) -> Vec<Result<String, String>> {
    ls.iter().map(|l| Ok(l.to_string())).collect()
}

#[test]
fn scenario_two_prefixes_one_marker() {
    let r = run(
        lines(&["a/obj1", "a/obj2"]),
        |p| {
            if p == "a/obj1" {
                Ok(Some(vec![marker(Some("a/obj1"), Some("v1"), Some(true))]))
            } else {
                Ok(Some(vec![]))
            }
        },
        |_, _| Ok(()),
    );
    assert_eq!(r.deleted, vec![("a/obj1".to_string(), "v1".to_string())]);
    assert_eq!(r.printed, vec!["done: a/obj1".to_string(), "done: a/obj2".to_string()]);
    assert_eq!(r.end, Ok(()));
}

#[test]
fn scenario_listing_transport_error() {
    let r = run(lines(&["b/obj"]), |_| Err("dispatch failure".to_string()), |_, _| Ok(()));
    assert!(r.deleted.is_empty());
    assert_eq!(r.printed.len(), 1);
    assert!(r.printed[0].starts_with("cannot process line: "));
    assert!(r.printed[0].contains("get object versions"));
    assert_eq!(r.end, Ok(()));
}

#[test]
fn scenario_latest_and_older_marker_same_key() {
    let r = run(
        lines(&["c/obj"]),
        |_| {
            Ok(Some(vec![
                marker(Some("c/obj"), Some("v2"), Some(true)),
                marker(Some("c/obj"), Some("v1"), Some(false)),
            ]))
        },
        |_, _| Ok(()),
    );
    assert_eq!(r.deleted, vec![("c/obj".to_string(), "v2".to_string())]);
    assert_eq!(r.printed, vec!["done: c/obj".to_string()]);
}

#[test]
fn each_actionable_marker_deleted_once_in_order() {
    let r = run(
        lines(&["d/"]),
        |_| {
            Ok(Some(vec![
                marker(Some("d/x"), Some("1"), Some(true)),
                marker(Some("d/y"), Some("2"), Some(true)),
                marker(Some("d/z"), Some("3"), Some(true)),
            ]))
        },
        |_, _| Ok(()),
    );
    assert_eq!(
        r.deleted,
        vec![
            ("d/x".to_string(), "1".to_string()),
            ("d/y".to_string(), "2".to_string()),
            ("d/z".to_string(), "3".to_string()),
        ]
    );
    assert_eq!(r.printed, vec!["done: d/".to_string()]);
}

#[test]
fn non_latest_markers_not_deleted() {
    let listing = Some(vec![
        marker(Some("k"), Some("v"), Some(false)),
        marker(Some("k"), Some("w"), None),
    ]);
    assert!(resolve_markers(&listing).is_empty());
}

#[test]
fn incomplete_latest_markers_skipped_without_error() {
    let r = run(
        lines(&["e/"]),
        |_| {
            Ok(Some(vec![
                marker(None, Some("v"), Some(true)),
                marker(Some("e/a"), None, Some(true)),
                marker(None, None, Some(true)),
            ]))
        },
        |_, _| Ok(()),
    );
    assert!(r.deleted.is_empty());
    assert_eq!(r.printed, vec!["done: e/".to_string()]);
}

#[test]
fn absent_marker_field_reports_done() {
    let r = run(lines(&["f/"]), |_| Ok(None), |_, _| Ok(()));
    assert!(r.deleted.is_empty());
    assert_eq!(r.listed, vec!["f/".to_string()]);
    assert_eq!(r.printed, vec!["done: f/".to_string()]);
}

#[test]
fn list_failure_does_not_stop_next_prefix() {
    let r = run(
        lines(&["p", "q"]),
        |p| {
            if p == "p" {
                Err("denied".to_string())
            } else {
                Ok(Some(vec![marker(Some("q"), Some("v"), Some(true))]))
            }
        },
        |_, _| Ok(()),
    );
    assert_eq!(r.listed, vec!["p".to_string(), "q".to_string()]);
    assert_eq!(r.deleted, vec![("q".to_string(), "v".to_string())]);
    assert_eq!(
        r.printed,
        vec!["cannot process line: get object versions".to_string(), "done: q".to_string()]
    );
}

#[test]
fn delete_failure_stops_prefix_but_not_next() {
    let r = run(
        lines(&["p", "q"]),
        |p| {
            if p == "p" {
                Ok(Some(vec![
                    marker(Some("p/1"), Some("a"), Some(true)),
                    marker(Some("p/2"), Some("b"), Some(true)),
                    marker(Some("p/3"), Some("c"), Some(true)),
                ]))
            } else {
                Ok(Some(vec![marker(Some("q"), Some("v"), Some(true))]))
            }
        },
        |k, _| if k == "p/2" { Err("denied".to_string()) } else { Ok(()) },
    );
    assert_eq!(
        r.deleted,
        vec![
            ("p/1".to_string(), "a".to_string()),
            ("p/2".to_string(), "b".to_string()),
            ("q".to_string(), "v".to_string()),
        ]
    );
    assert_eq!(
        r.printed,
        vec!["cannot process line: cannot delete marker".to_string(), "done: q".to_string()]
    );
    assert_eq!(r.end, Ok(()));
}

#[test]
fn read_failure_ends_run() {
    let input = vec![Ok("g".to_string()), Err("io".to_string()), Ok("h".to_string())];
    let r = run(input, |_| Ok(None), |_, _| Ok(()));
    assert_eq!(r.listed, vec!["g".to_string()]);
    assert_eq!(r.printed, vec!["done: g".to_string()]);
    assert_eq!(r.end, Err("io".to_string()));
}

#[test]
fn empty_input_stops_at_once() {
    let r = run(vec![], |_| Ok(None), |_, _| Ok(()));
    assert!(r.listed.is_empty());
    assert!(r.printed.is_empty());
    assert_eq!(r.end, Ok(()));
}

#[test]
fn empty_line_is_a_prefix() {
    let r = run(lines(&[""]), |_| Ok(None), |_, _| Ok(()));
    assert_eq!(r.listed, vec!["".to_string()]);
    assert_eq!(r.printed, vec!["done: ".to_string()]);
}

#[test]
fn resolve_keeps_listing_order() {
    let listing = Some(vec![
        marker(Some("b"), Some("2"), Some(true)),
        marker(Some("x"), Some("9"), Some(false)),
        marker(Some("a"), Some("1"), Some(true)),
    ]);
    assert_eq!(
        pairs(&resolve_markers(&listing)),
        vec![("b".to_string(), "2".to_string()), ("a".to_string(), "1".to_string())]
    );
}

#[test]
fn resolve_absent_and_empty_listing() {
    assert!(resolve_markers(&None).is_empty());
    assert!(resolve_markers(&Some(vec![])).is_empty());
}

#[test]
fn resolve_keeps_empty_key_and_version() {
    let listing = Some(vec![marker(Some(""), Some(""), Some(true))]);
    assert_eq!(pairs(&resolve_markers(&listing)), vec![(String::new(), String::new())]);
}

#[test]
fn session_steps() {
    let mut s = LineSession::new("pre");
    assert_eq!(s.prefix(), "pre");
    assert!(!s.is_finished());
    assert!(matches!(s.action(), Action::ListVersions { prefix } if prefix == "pre"));
    let a = s.step(Event::Listed(Ok(Some(vec![marker(Some("pre/k"), Some("v"), Some(true))]))));
    assert!(matches!(a, Action::DeleteObject { key, version_id } if key == "pre/k" && version_id == "v"));
    let a = s.step(Event::Deleted(Ok(())));
    assert!(matches!(a, Action::Finish(Ok(()))));
    assert!(s.is_finished());
}

#[test]
fn session_ignores_event_out_of_turn() {
    let mut s = LineSession::new("pre");
    let a = s.step(Event::Deleted(Ok(())));
    assert!(matches!(a, Action::ListVersions { prefix } if prefix == "pre"));
}

#[test]
fn session_list_failure_keeps_cause() {
    let mut s = LineSession::new("pre");
    let a = s.step(Event::Listed(Err("timeout".to_string())));
    match a {
        Action::Finish(Err(e)) => {
            assert!(e.kind == ErrorKind::ListVersions);
            assert_eq!(e.cause, "timeout");
            assert_eq!(e.message(), "get object versions");
        }
        _ => panic!("expected a failure"),
    }
}

#[test]
fn report_lines() {
    assert_eq!(report_line("x/y", &Ok(())), "done: x/y");
    let e = LineError { kind: ErrorKind::DeleteMarker, cause: "denied".to_string() };
    assert_eq!(report_line("x/y", &Err(e)), "cannot process line: cannot delete marker");
    let e = LineError { kind: ErrorKind::ListVersions, cause: "denied".to_string() };
    assert_eq!(report_line("x/y", &Err(e)), "cannot process line: get object versions");
}
