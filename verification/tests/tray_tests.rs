use verge::domain::{ProxyGroup, RunMode};
use verge::platform::tray::{format_bytes, menu_entries, Entry, TrayCommand, TrayMenuState};

fn proxy_entries(state: &TrayMenuState) -> Vec<Entry> {
    let Entry::Submenu(_, entries) = menu_entries(state, "0.1.0").remove(5) else { panic!("proxy submenu") };
    entries
}

#[test]
fn modes_keep_group_membership_and_selection() {
    let mut state = TrayMenuState {
        mode: Some(RunMode::Rule),
        groups: vec![
            ProxyGroup {
                name: "路线 / 亚洲".into(),
                kind: "Selector".into(),
                selected: Some("A:/🛰".into()),
                members: vec!["A:/🛰".into(), "B".into()],
            },
            ProxyGroup {
                name: "GLOBAL".into(),
                kind: "Selector".into(),
                selected: Some("B".into()),
                members: vec!["B".into()],
            },
        ],
        ..Default::default()
    };
    let entries = proxy_entries(&state);
    let Entry::Submenu(_, members) = &entries[0] else { panic!("rule group") };
    assert_eq!(entries.len(), 1);
    assert!(
        matches!(&members[0], Entry::Item { checked: Some(true), command: Some(TrayCommand::SelectProxy { group, proxy }), .. } if group == "路线 / 亚洲" && proxy == "A:/🛰")
    );
    state.mode = Some(RunMode::Global);
    assert!(matches!(&proxy_entries(&state)[0], Entry::Item { checked: Some(true), .. }));
    state.mode = Some(RunMode::Direct);
    assert!(proxy_entries(&state).is_empty());
}

#[test]
fn offline_menu_disables_writes_and_preserves_recovery() {
    let mut state = TrayMenuState::default();
    assert!(matches!(&menu_entries(&state, "0.1.0")[7], Entry::Item { enabled: false, .. }));
    state.system_proxy_enabled = true;
    assert!(matches!(&menu_entries(&state, "0.1.0")[7], Entry::Item { enabled: true, checked: Some(true), .. }));
    assert_eq!(format_bytes(2048), "2.0 KiB");
}

#[test]
fn byte_counts_round_to_one_decimal() {
    assert_eq!(format_bytes(0), "0 B");
    assert_eq!(format_bytes(1023), "1023 B");
    assert_eq!(format_bytes(1024), "1.0 KiB");
    assert_eq!(format_bytes(1536), "1.5 KiB");
    assert_eq!(format_bytes(1_048_576), "1.0 MiB");
    assert_eq!(format_bytes(5 * 1_048_576 + 524_288), "5.5 MiB");
}
