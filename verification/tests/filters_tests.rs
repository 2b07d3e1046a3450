use verge::domain::{Connection, LogEvent, ProviderKind, ProviderSummary, RuleEntry};
use verge::filters::{display_text, includes, normalized_level, ConnectionFilter, LogFilter, PageFilters, RuleFilter};
use verge::ui::Page;

#[test]
fn rule_search_combines_terms_with_exact_facets() {
    let rule = RuleEntry { kind: "DOMAIN-SUFFIX".into(), payload: "Example.COM".into(), proxy: "工作代理".into(), size: 0 };
    let mut filter = RuleFilter { query: " example 工作 ".into(), kind: Some(rule.kind.clone()), target: Some(rule.proxy.clone()) };
    assert!(filter.matches(&rule));
    filter.target = Some("DIRECT".into());
    assert!(!filter.matches(&rule));
    filter = RuleFilter { query: "Example file".into(), ..Default::default() };
    let provider = ProviderSummary {
        name: "example".into(),
        kind: ProviderKind::Rule,
        vehicle: "File".into(),
        updated_at: String::new(),
        item_count: 10,
    };
    assert!(filter.matches_provider(&provider));
    filter.kind = Some(rule.kind);
    assert!(!filter.matches_provider(&provider));
}

#[test]
fn connections_match_protocol_process_chain_and_hidden_fields() {
    let row = Connection {
        network: "tcp".into(),
        process: "Safari".into(),
        source: "127.0.0.1:9000".into(),
        rule_payload: "Example.COM".into(),
        chains: vec!["Hong Kong".into(), "自动选择".into()],
        ..Default::default()
    };
    let mut filter = ConnectionFilter {
        query: "9000 example".into(),
        network: Some("TCP".into()),
        process: Some("Safari".into()),
        chain: Some("自动选择".into()),
    };
    assert!(filter.matches(&row));
    filter.network = Some("UDP".into());
    assert!(!filter.matches(&row));
    let unknown = Connection::default();
    filter = ConnectionFilter { process: Some(String::new()), chain: Some("DIRECT".into()), ..Default::default() };
    assert!(filter.matches(&unknown));
    assert!(!filter.matches(&row));
}

#[test]
fn logs_combine_severity_include_and_exclude_without_changing_events() {
    let mut filter = LogFilter {
        query: "DNS timeout".into(),
        exclude: "healthcheck noise".into(),
        level: Some("problems".into()),
    };
    let row = |level: &str, payload: &str| LogEvent { level: level.into(), payload: payload.into() };
    assert!(filter.matches(&row("WARN", "dns\nTIMEOUT 中文")));
    assert!(filter.matches(&row("fatal", "DNS timeout")));
    assert!(!filter.matches(&row("info", "DNS timeout")));
    assert!(!filter.matches(&row("error", "DNS timeout healthcheck")));
    assert!(!filter.matches(&row("error", "DNS timeout NOISE")));
    filter.level = Some("warning".into());
    assert!(filter.matches(&row("warn", "DNS timeout")));
    filter.query = "   ".into();
    filter.exclude.clear();
    filter.level = None;
    assert!(filter.matches(&row("trace", "anything")));
}

#[test]
fn levels_are_normalized_and_filters_report_activity() {
    assert_eq!(normalized_level("WARN"), "warning");
    assert_eq!(normalized_level("Error"), "error");
    let mut filters = PageFilters::default();
    assert!(!filters.active(Page::Rules));
    filters.rules.query = "  ".into();
    assert!(!filters.active(Page::Rules));
    filters.logs.exclude = "noise".into();
    assert!(filters.active(Page::Logs));
    filters.connections.chain = Some("DIRECT".into());
    assert!(filters.active(Page::Connections));
    assert!(!filters.active(Page::Home));
}

#[test]
fn log_rows_show_level_and_normalized_line_breaks() {
    let row = LogEvent { level: "info".into(), payload: "a\r\nb\rc\td".into() };
    assert_eq!(display_text(&row), "[info] a\nb\nc    d");
    let row = LogEvent { level: "warning".into(), payload: "\r\r\n".into() };
    assert_eq!(display_text(&row), "[warning] \n\n");
}

#[test]
fn blank_queries_match_and_extra_words_narrow() {
    let fields: Vec<String> = vec!["Example.COM".into(), "proxy".into()];
    assert!(includes("", &fields));
    assert!(includes(" \t\n", &fields));
    assert!(includes("example", &fields));
    assert!(includes("EXAMPLE PROXY", &fields));
    assert!(!includes("example direct", &fields));
}
