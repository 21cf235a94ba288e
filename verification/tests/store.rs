use backend::config::{
    default_recommended_servers, MasterConfigResponse, McpServer, McpSettings, RecommendedServer,
    SyncStatus, SyncSummary, Timestamp,
};
use backend::db::{
    decode_status, encode_status, ensure_master_config, history_row, history_row_with_text,
    instant_text, master_from_row, master_with_instant, seed_recommended_servers,
    summaries_from_rows, summary_from_row, summary_with_instant, EnsureStep, HistoryRow,
    MasterRow, RecommendedRow,
};
use backend::error::BackendError;

fn row(tool: &str, status: &str, message: &str, at: &str) -> HistoryRow {
    HistoryRow {
        tool_name: tool.to_string(),
        status: status.to_string(),
        message: message.to_string(),
        synced_at: at.to_string(),
    }
}

#[test]
fn status_is_written_in_lower_case() {
    assert_eq!(encode_status(SyncStatus::Updated), "updated");
    assert_eq!(encode_status(SyncStatus::Skipped), "skipped");
    assert_eq!(encode_status(SyncStatus::Failed), "failed");
}

#[test]
fn status_is_read_back_as_written() {
    for status in [SyncStatus::Updated, SyncStatus::Skipped, SyncStatus::Failed] {
        assert_eq!(decode_status(&encode_status(status)), status);
    }
}

#[test]
fn unknown_status_text_reads_as_failed() {
    assert_eq!(decode_status(&"".to_string()), SyncStatus::Failed);
    assert_eq!(decode_status(&"Updated".to_string()), SyncStatus::Failed);
    assert_eq!(decode_status(&"anything".to_string()), SyncStatus::Failed);
}

#[test]
fn history_row_holds_instant_in_rfc3339() {
    let summary = SyncSummary {
        tool: "toolA".to_string(),
        status: SyncStatus::Updated,
        message: "Configuration updated".to_string(),
        synced_at: Timestamp { secs: 1431648000, nanos: 0 },
    };
    let row = history_row(&summary).expect("a date that can be written");
    assert_eq!(row.tool_name, "toolA");
    assert_eq!(row.status, "updated");
    assert_eq!(row.message, "Configuration updated");
    assert_eq!(row.synced_at, "2015-05-15T00:00:00+00:00");
}

#[test]
fn history_row_writes_fraction_of_second() {
    let summary = SyncSummary {
        tool: "t".to_string(),
        status: SyncStatus::Skipped,
        message: "Already up-to-date".to_string(),
        synced_at: Timestamp { secs: 1704164645, nanos: 453_000_000 },
    };
    let row = history_row(&summary).expect("a date that can be written");
    assert_eq!(row.synced_at, "2024-01-02T03:04:05.453+00:00");
    assert_eq!(row.status, "skipped");
}

#[test]
fn history_row_is_missing_for_instant_out_of_range() {
    let summary = SyncSummary {
        tool: "t".to_string(),
        status: SyncStatus::Failed,
        message: "m".to_string(),
        synced_at: Timestamp { secs: i64::MAX, nanos: 0 },
    };
    assert!(history_row(&summary).is_none());
    let summary = SyncSummary { synced_at: Timestamp { secs: 0, nanos: 2_000_000_000 }, ..summary };
    assert!(history_row(&summary).is_none());
}

#[test]
fn summary_is_read_from_row() {
    let summary =
        summary_from_row(&row("toolA", "skipped", "Already up-to-date", "1996-12-19T16:39:57-08:00"))
            .expect("a row in RFC 3339");
    assert_eq!(summary.tool, "toolA");
    assert_eq!(summary.status, SyncStatus::Skipped);
    assert_eq!(summary.message, "Already up-to-date");
    assert_eq!(summary.synced_at, Timestamp { secs: 851042397, nanos: 0 });
}

#[test]
fn summary_survives_the_round_trip_through_its_row() {
    let summary = SyncSummary {
        tool: "toolB".to_string(),
        status: SyncStatus::Updated,
        message: "Configuration updated".to_string(),
        synced_at: Timestamp { secs: 1704164645, nanos: 123_456_789 },
    };
    let back = summary_from_row(&history_row(&summary).unwrap()).unwrap();
    assert_eq!(back.tool, summary.tool);
    assert_eq!(back.status, summary.status);
    assert_eq!(back.message, summary.message);
    assert_eq!(back.synced_at, summary.synced_at);
}

#[test]
fn row_with_malformed_instant_is_refused_as_other() {
    let r = summary_from_row(&row("t", "updated", "m", "yesterday"));
    match r {
        Err(BackendError::Other(text)) => assert!(!text.is_empty()),
        other => panic!("unexpected: {other:?}"),
    }
}

#[test]
fn rows_are_read_in_order_until_one_is_refused() {
    let good = vec![
        row("a", "updated", "m1", "2015-05-15T00:00:00+00:00"),
        row("b", "weird", "m2", "2015-05-15T00:00:01Z"),
    ];
    let items = summaries_from_rows(&good).unwrap();
    assert_eq!(items.len(), 2);
    assert_eq!(items[0].tool, "a");
    assert_eq!(items[0].synced_at, Timestamp { secs: 1431648000, nanos: 0 });
    assert_eq!(items[1].tool, "b");
    assert_eq!(items[1].status, SyncStatus::Failed);
    assert_eq!(items[1].synced_at, Timestamp { secs: 1431648001, nanos: 0 });
    let bad = vec![
        row("a", "updated", "m1", "2015-05-15T00:00:00+00:00"),
        row("b", "updated", "m2", "not a date"),
    ];
    assert!(matches!(summaries_from_rows(&bad), Err(BackendError::Other(_))));
    assert_eq!(summaries_from_rows(&vec![]).unwrap().len(), 0);
}

#[test]
fn missing_master_row_is_config_not_found() {
    assert!(matches!(master_from_row(None), Err(BackendError::ConfigNotFound)));
}

#[test]
fn master_row_is_read() {
    let settings = McpSettings { servers: vec![McpServer::default()], project_overrides: vec![] };
    let found = MasterRow {
        settings: settings.clone(),
        updated_at: "2024-01-02T03:04:05+00:00".to_string(),
    };
    let master = master_from_row(Some(found)).unwrap();
    assert_eq!(master.settings, settings);
    assert_eq!(master.updated_at, Timestamp { secs: 1704164645, nanos: 0 });
}

#[test]
fn master_row_with_malformed_instant_is_refused_as_other() {
    let found = MasterRow { settings: McpSettings::default(), updated_at: "2024-13-01".to_string() };
    assert!(matches!(master_from_row(Some(found)), Err(BackendError::Other(_))));
}

#[test]
fn found_master_is_ready() {
    let cfg = MasterConfigResponse {
        settings: McpSettings::default(),
        updated_at: Timestamp { secs: 7, nanos: 0 },
    };
    match ensure_master_config(Ok(cfg)) {
        EnsureStep::Ready(cfg) => {
            assert_eq!(cfg.updated_at, Timestamp { secs: 7, nanos: 0 });
            assert_eq!(cfg.settings, McpSettings::default());
        }
        other => panic!("unexpected: {other:?}"),
    }
}

#[test]
fn missing_master_is_created_with_default_server() {
    match ensure_master_config(Err(BackendError::ConfigNotFound)) {
        EnsureStep::Create(settings) => {
            assert_eq!(settings.servers, vec![McpServer::default()]);
            assert!(settings.project_overrides.is_empty());
        }
        other => panic!("unexpected: {other:?}"),
    }
}

#[test]
fn other_errors_of_reading_the_master_stand() {
    match ensure_master_config(Err(BackendError::Database("locked".to_string()))) {
        EnsureStep::Fail(BackendError::Database(text)) => assert_eq!(text, "locked"),
        other => panic!("unexpected: {other:?}"),
    }
}

#[test]
fn template_survives_the_round_trip_through_its_row() {
    for server in default_recommended_servers() {
        let row = RecommendedRow::from_server(&server);
        assert_eq!(row.api_key_required, if server.api_key_required { 1 } else { 0 });
        assert_eq!(row.default_enabled, if server.default_enabled { 1 } else { 0 });
        assert_eq!(row.to_server(), server);
    }
}

#[test]
fn any_integer_but_zero_is_a_set_flag() {
    let row = RecommendedRow {
        id: "x".to_string(),
        name: "X".to_string(),
        description: None,
        endpoint: "e".to_string(),
        homepage: None,
        category: Some("c".to_string()),
        api_key_required: -3,
        default_enabled: 0,
    };
    assert_eq!(
        row.to_server(),
        RecommendedServer {
            id: "x".to_string(),
            name: "X".to_string(),
            description: None,
            endpoint: "e".to_string(),
            homepage: None,
            category: Some("c".to_string()),
            api_key_required: true,
            default_enabled: false,
        }
    );
}

#[test]
fn empty_catalog_is_seeded_with_builtin_templates() {
    let rows = seed_recommended_servers(0);
    let servers: Vec<RecommendedServer> = rows.iter().map(|r| r.to_server()).collect();
    assert_eq!(servers, default_recommended_servers());
}

#[test]
fn filled_catalog_is_not_seeded() {
    assert!(seed_recommended_servers(1).is_empty());
    assert!(seed_recommended_servers(4).is_empty());
    assert!(seed_recommended_servers(-1).is_empty());
}

#[test]
fn row_takes_the_given_text_of_the_instant() {
    let summary = SyncSummary {
        tool: "toolA".to_string(),
        status: SyncStatus::Failed,
        message: "m".to_string(),
        synced_at: Timestamp { secs: 1, nanos: 2 },
    };
    let row = history_row_with_text(&summary, Some("stamp".to_string())).unwrap();
    assert_eq!(row.tool_name, "toolA");
    assert_eq!(row.status, "failed");
    assert_eq!(row.message, "m");
    assert_eq!(row.synced_at, "stamp");
    assert!(history_row_with_text(&summary, None).is_none());
}

#[test]
fn record_takes_the_given_instant() {
    let at = Timestamp { secs: 42, nanos: 7 };
    let summary = summary_with_instant(&row("t", "updated", "msg", "ignored"), Ok(at)).unwrap();
    assert_eq!(summary.tool, "t");
    assert_eq!(summary.status, SyncStatus::Updated);
    assert_eq!(summary.message, "msg");
    assert_eq!(summary.synced_at, at);
}

#[test]
fn record_is_refused_with_the_given_reason() {
    match summary_with_instant(&row("t", "updated", "msg", "x"), Err("premature end".to_string())) {
        Err(BackendError::Other(reason)) => assert_eq!(reason, "premature end"),
        other => panic!("unexpected: {other:?}"),
    }
}

#[test]
fn reason_of_a_refused_row_is_the_parsers() {
    match summary_from_row(&row("t", "updated", "m", "")) {
        Err(BackendError::Other(reason)) => assert_eq!(reason, "premature end of input"),
        other => panic!("unexpected: {other:?}"),
    }
}

#[test]
fn master_takes_the_given_instant() {
    let settings = McpSettings { servers: vec![McpServer::default()], project_overrides: vec![] };
    let master = master_with_instant(settings.clone(), Ok(Timestamp { secs: 9, nanos: 0 })).unwrap();
    assert_eq!(master.settings, settings);
    assert_eq!(master.updated_at, Timestamp { secs: 9, nanos: 0 });
    match master_with_instant(settings, Err("bad".to_string())) {
        Err(BackendError::Other(reason)) => assert_eq!(reason, "bad"),
        other => panic!("unexpected: {other:?}"),
    }
}

#[test]
fn instant_is_written_in_rfc3339() {
    assert_eq!(
        instant_text(Timestamp { secs: 1431648000, nanos: 0 }),
        Some("2015-05-15T00:00:00+00:00".to_string())
    );
    assert_eq!(
        instant_text(Timestamp { secs: 1704164645, nanos: 120_000 }),
        Some("2024-01-02T03:04:05.000120+00:00".to_string())
    );
    assert_eq!(instant_text(Timestamp { secs: 0, nanos: 0 }), Some("1970-01-01T00:00:00+00:00".to_string()));
    assert_eq!(instant_text(Timestamp { secs: i64::MAX, nanos: 0 }), None);
}

#[test]
fn refused_master_row_carries_the_reason() {
    let found = MasterRow { settings: McpSettings::default(), updated_at: "2024-01-02".to_string() };
    match master_from_row(Some(found)) {
        Err(BackendError::Other(reason)) => assert_eq!(reason, "premature end of input"),
        other => panic!("unexpected: {other:?}"),
    }
    let found = MasterRow {
        settings: McpSettings::default(),
        updated_at: "2024-01-02T03:04:05+00:00 and more".to_string(),
    };
    match master_from_row(Some(found)) {
        Err(BackendError::Other(reason)) => assert_eq!(reason, "trailing input"),
        other => panic!("unexpected: {other:?}"),
    }
}

#[test]
fn refused_list_carries_the_reason_of_its_first_bad_row() {
    let rows = vec![
        row("a", "updated", "m", "2015-05-15T00:00:00+00:00"),
        row("b", "updated", "m", "2015-05-15T00:00:00+00:00 x"),
        row("c", "updated", "m", ""),
    ];
    match summaries_from_rows(&rows) {
        Err(BackendError::Other(reason)) => assert_eq!(reason, "trailing input"),
        other => panic!("unexpected: {other:?}"),
    }
}
