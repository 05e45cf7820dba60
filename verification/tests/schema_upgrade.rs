use gossip::schema::{
    check_and_upgrade, is_missing_table, old_check_and_upgrade, upgrade, version_table_for,
    AbortReason, Command, Event, Phase, SchemaUpgrade, VersionTable, LOCAL_SETTINGS_SINCE,
    SCHEMA_VERSION,
};

fn run_to_end(m: &mut SchemaUpgrade, first: Command) -> Vec<Command> {
    let mut commands = vec![first];
    let mut last = first;
    while matches!(last, Command::RunScript(_) | Command::RecordVersion(_, _) | Command::MarkFirstRun) {
        last = m.step(Event::Succeeded);
        commands.push(last);
    }
    commands
}

#[test]
fn version_tables_switch_at_24() {
    assert_eq!(LOCAL_SETTINGS_SINCE, 24);
    assert_eq!(version_table_for(1), VersionTable::Settings);
    assert_eq!(version_table_for(23), VersionTable::Settings);
    assert_eq!(version_table_for(24), VersionTable::LocalSettings);
    assert_eq!(version_table_for(29), VersionTable::LocalSettings);
}

#[test]
fn upgrade_from_current_version_finishes() {
    assert_eq!(upgrade(SCHEMA_VERSION), (Phase::Finished, Command::Finish(29)));
}

#[test]
fn upgrade_from_newer_version_aborts() {
    assert_eq!(
        upgrade(30),
        (Phase::Failed, Command::Abort(AbortReason::NewerThanBinary { found: 30, expected: 29 }))
    );
}

#[test]
fn upgrade_from_older_version_runs_next_script() {
    assert_eq!(upgrade(0), (Phase::RunningScript(0), Command::RunScript(0)));
    assert_eq!(upgrade(23), (Phase::RunningScript(23), Command::RunScript(23)));
}

#[test]
fn missing_table_is_recognised() {
    assert!(is_missing_table(&Some("no such table: local_settings".to_string())));
    assert!(!is_missing_table(&Some("database is locked".to_string())));
    assert!(!is_missing_table(&None));
}

#[test]
fn schema_query_answers() {
    assert_eq!(check_and_upgrade(&Ok(29)), (Phase::Finished, Command::Finish(29)));
    assert_eq!(
        check_and_upgrade(&Err(Some("no such table: local_settings".to_string()))),
        (Phase::AwaitingLegacyVersion, Command::QueryLegacyVersion)
    );
    assert_eq!(
        check_and_upgrade(&Err(Some("disk I/O error".to_string()))),
        (Phase::Failed, Command::PropagateError)
    );
    assert_eq!(check_and_upgrade(&Err(None)), (Phase::Failed, Command::PropagateError));
}

#[test]
fn legacy_query_answers() {
    assert_eq!(old_check_and_upgrade(None), (Phase::MarkingFirstRun(0), Command::MarkFirstRun));
    assert_eq!(old_check_and_upgrade(Some("1")), (Phase::MarkingFirstRun(1), Command::MarkFirstRun));
    assert_eq!(old_check_and_upgrade(Some("2")), (Phase::RunningScript(2), Command::RunScript(2)));
    assert_eq!(old_check_and_upgrade(Some("23")), (Phase::RunningScript(23), Command::RunScript(23)));
    assert_eq!(
        old_check_and_upgrade(Some("v2")),
        (Phase::Failed, Command::Abort(AbortReason::UnreadableVersion))
    );
}

#[test]
fn current_database_finishes_at_once() {
    let mut m = SchemaUpgrade::new();
    assert_eq!(m.step(Event::Start), Command::QuerySchemaVersion);
    assert_eq!(m.step(Event::SchemaVersion(29)), Command::Finish(29));
    assert_eq!(m.phase(), Phase::Finished);
    assert!(!m.accepts(&Event::Succeeded));
}

#[test]
fn upgrade_from_27_runs_two_scripts_into_local_settings() {
    let mut m = SchemaUpgrade::new();
    assert_eq!(m.step(Event::Start), Command::QuerySchemaVersion);
    let first = m.step(Event::SchemaVersion(27));
    assert_eq!(
        run_to_end(&mut m, first),
        vec![
            Command::RunScript(27),
            Command::RecordVersion(VersionTable::LocalSettings, 28),
            Command::RunScript(28),
            Command::RecordVersion(VersionTable::LocalSettings, 29),
            Command::Finish(29),
        ]
    );
}

#[test]
fn fresh_database_runs_every_script_once_in_order() {
    let mut m = SchemaUpgrade::new();
    assert_eq!(m.step(Event::Start), Command::QuerySchemaVersion);
    assert_eq!(
        m.step(Event::SchemaQueryFailed(Some("no such table: local_settings".to_string()))),
        Command::QueryLegacyVersion
    );
    let first = m.step(Event::LegacyQueryFailed);
    assert_eq!(first, Command::MarkFirstRun);
    let commands = run_to_end(&mut m, first);
    assert_eq!(commands.len(), 1 + 2 * 29 + 1);
    for v in 0..29usize {
        assert_eq!(commands[1 + 2 * v], Command::RunScript(v));
        let table = if v + 1 < 24 { VersionTable::Settings } else { VersionTable::LocalSettings };
        assert_eq!(commands[2 + 2 * v], Command::RecordVersion(table, v + 1));
    }
    assert_eq!(*commands.last().unwrap(), Command::Finish(29));
}

#[test]
fn legacy_version_above_one_skips_first_run() {
    let mut m = SchemaUpgrade::new();
    m.step(Event::Start);
    m.step(Event::SchemaQueryFailed(Some("no such table: local_settings".to_string())));
    assert_eq!(m.step(Event::LegacyVersion("22".to_string())), Command::RunScript(22));
    assert_eq!(m.step(Event::Succeeded), Command::RecordVersion(VersionTable::Settings, 23));
    assert_eq!(m.step(Event::Succeeded), Command::RunScript(23));
    assert_eq!(m.step(Event::Succeeded), Command::RecordVersion(VersionTable::LocalSettings, 24));
}

#[test]
fn failing_script_propagates_and_stops() {
    let mut m = SchemaUpgrade::new();
    m.step(Event::Start);
    assert_eq!(m.step(Event::SchemaVersion(10)), Command::RunScript(10));
    assert_eq!(m.step(Event::Failed), Command::PropagateError);
    assert_eq!(m.phase(), Phase::Failed);
    assert!(!m.accepts(&Event::Succeeded));
    assert!(!m.accepts(&Event::Failed));
}

#[test]
fn failing_version_record_propagates() {
    let mut m = SchemaUpgrade::new();
    m.step(Event::Start);
    m.step(Event::SchemaVersion(10));
    assert_eq!(m.step(Event::Succeeded), Command::RecordVersion(VersionTable::Settings, 11));
    assert_eq!(m.step(Event::Failed), Command::PropagateError);
}

#[test]
fn other_schema_failure_propagates() {
    let mut m = SchemaUpgrade::new();
    m.step(Event::Start);
    assert_eq!(m.step(Event::SchemaQueryFailed(None)), Command::PropagateError);
}

#[test]
fn unreadable_legacy_version_aborts() {
    let mut m = SchemaUpgrade::new();
    m.step(Event::Start);
    m.step(Event::SchemaQueryFailed(Some("no such table: local_settings".to_string())));
    assert_eq!(
        m.step(Event::LegacyVersion("two".to_string())),
        Command::Abort(AbortReason::UnreadableVersion)
    );
}

#[test]
fn newer_database_aborts() {
    let mut m = SchemaUpgrade::new();
    m.step(Event::Start);
    assert_eq!(
        m.step(Event::SchemaVersion(31)),
        Command::Abort(AbortReason::NewerThanBinary { found: 31, expected: 29 })
    );
}

#[test]
fn accepts_matches_phase() {
    let m = SchemaUpgrade::new();
    assert!(m.accepts(&Event::Start));
    assert!(!m.accepts(&Event::Succeeded));
    assert!(!m.accepts(&Event::SchemaVersion(3)));
}
