use verge::domain::{AppError, ErrorCode, ProxyGroup, ProxyInfo, ProxySnapshot, RunMode};
use verge::proxies::{rows, rows_lowered, selected_row, DelayPresentation, DelayTone, Row};

fn snapshot() -> ProxySnapshot {
    ProxySnapshot {
        groups: vec![
            ProxyGroup {
                name: "Route".into(),
                kind: "Selector".into(),
                selected: Some("Japan".into()),
                members: vec!["Hong Kong".into(), "Japan".into()],
            },
            ProxyGroup {
                name: "GLOBAL".into(),
                kind: "Selector".into(),
                selected: Some("Japan".into()),
                members: vec!["DIRECT".into(), "Route".into(), "Hong Kong".into(), "Japan".into()],
            },
        ],
        ..Default::default()
    }
}

#[test]
fn rules_start_collapsed_global_is_flat_and_direct_is_empty() {
    let s = snapshot();
    let closed: Vec<String> = Vec::new();
    assert_eq!(rows(&s, Some(RunMode::Rule), &closed, "", &Vec::new(), 2), [Row::Group(0)]);
    let global = rows(&s, Some(RunMode::Global), &closed, "", &Vec::new(), 2);
    assert_eq!(global.len(), 2);
    assert!(global.iter().all(|r| matches!(r, Row::Nodes { group: 1, .. })));
    assert!(rows(&s, Some(RunMode::Direct), &closed, "", &Vec::new(), 2).is_empty());
}

#[test]
fn search_reveals_matches_without_changing_expansion_and_locate_uses_visible_rows() {
    let s = snapshot();
    let mut expanded: Vec<String> = Vec::new();
    let filtered = rows(&s, Some(RunMode::Rule), &expanded, "JAPAN", &Vec::new(), 2);
    assert_eq!(filtered, [Row::Group(0), Row::Nodes { group: 0, members: vec![1] }]);
    assert_eq!(selected_row(&s, &filtered, 0), Some(1));
    assert_eq!(rows(&s, Some(RunMode::Rule), &expanded, "", &Vec::new(), 2), [Row::Group(0)]);
    expanded.push("Route".into());
    assert_eq!(rows(&s, Some(RunMode::Rule), &expanded, "", &Vec::new(), 1).len(), 3);
    assert!(rows(&s, Some(RunMode::Rule), &expanded, "missing", &Vec::new(), 2).is_empty());
}

#[test]
fn lowered_rows_read_the_lower_case_names_from_the_table() {
    let s = snapshot();
    let none: Vec<String> = Vec::new();
    let names: Vec<(String, String)> = vec![
        ("Route".into(), "route".into()),
        ("Hong Kong".into(), "hong kong".into()),
        ("Japan".into(), "japan".into()),
    ];
    let found = rows_lowered(&s, Some(RunMode::Rule), &none, "japan", &none, 2, &names);
    assert_eq!(found, [Row::Group(0), Row::Nodes { group: 0, members: vec![1] }]);
    assert_eq!(rows_lowered(&s, Some(RunMode::Rule), &none, "", &none, 2, &names), [Row::Group(0)]);
    // A name missing from the table stands for itself, and the first entry of a name wins.
    let missing: Vec<(String, String)> = vec![("Route".into(), "route".into())];
    assert!(rows_lowered(&s, Some(RunMode::Rule), &none, "japan", &none, 2, &missing).is_empty());
    let shadowed: Vec<(String, String)> = vec![("Japan".into(), "tokyo".into()), ("Japan".into(), "japan".into())];
    assert!(rows_lowered(&s, Some(RunMode::Rule), &none, "japan", &none, 2, &shadowed).is_empty());
    let route = rows_lowered(&s, Some(RunMode::Rule), &none, "route", &none, 2, &names);
    assert_eq!(route, [Row::Group(0), Row::Nodes { group: 0, members: vec![0, 1] }]);
}

#[test]
fn hidden_groups_are_left_out_and_kinds_are_searched() {
    let mut s = snapshot();
    s.proxies = vec![
        ("Japan".into(), ProxyInfo { kind: "Trojan".into(), hidden: false }),
        ("Route".into(), ProxyInfo { kind: "Selector".into(), hidden: true }),
    ];
    assert!(rows(&s, Some(RunMode::Rule), &vec!["Route".into()], "", &Vec::new(), 2).is_empty());
    s.proxies[1].1.hidden = false;
    let found = rows(&s, Some(RunMode::Rule), &Vec::new(), "trojan", &Vec::new(), 2);
    assert_eq!(found, [Row::Group(0), Row::Nodes { group: 0, members: vec![1] }]);
    let collapsed = rows(&s, Some(RunMode::Rule), &Vec::new(), "trojan", &vec!["Route".into()], 2);
    assert_eq!(collapsed, [Row::Group(0)]);
}

#[test]
fn rows_never_exceed_the_column_count() {
    let s = snapshot();
    let global = rows(&s, Some(RunMode::Global), &Vec::new(), "", &Vec::new(), 3);
    assert_eq!(
        global,
        [Row::Nodes { group: 1, members: vec![0, 1, 2] }, Row::Nodes { group: 1, members: vec![3] }]
    );
    let zero = rows(&s, Some(RunMode::Global), &Vec::new(), "", &Vec::new(), 0);
    assert_eq!(zero.len(), 4);
    assert_eq!(selected_row(&s, &zero, 1), Some(3));
    assert_eq!(selected_row(&s, &zero, 5), None);
}

#[test]
fn delay_presentation_orders_pending_error_and_measured_delay() {
    let timeout = AppError::new(ErrorCode::RequestTimeout, "timed out");
    let failed = AppError::new(ErrorCode::CoreUnavailable, "offline");
    assert_eq!(DelayPresentation::new(true, Some(120), Some(&failed)), DelayPresentation::Testing);
    assert_eq!(DelayPresentation::new(false, Some(120), Some(&timeout)), DelayPresentation::Timeout);
    assert_eq!(DelayPresentation::new(false, Some(120), Some(&failed)), DelayPresentation::Failed);
    assert_eq!(DelayPresentation::new(false, Some(0), None), DelayPresentation::Timeout);
    assert_eq!(DelayPresentation::new(false, None, None), DelayPresentation::Untested);
    for (ms, tone) in [
        (1, DelayTone::Fast),
        (199, DelayTone::Fast),
        (200, DelayTone::Moderate),
        (799, DelayTone::Moderate),
        (800, DelayTone::Slow),
        (u32::MAX, DelayTone::Slow),
    ] {
        assert_eq!(DelayPresentation::new(false, Some(ms), None), DelayPresentation::Measured { ms, tone });
    }
}
