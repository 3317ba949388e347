use radio_log_store::{ActionProcessor, CreateLogDialog, DataStore, Database, DialogInterface, InputFields,
    LogEntry, NoTransforms, Race, SchemaTransform, StoreError, TransformError};

use std::time::{SystemTime, UNIX_EPOCH};

fn temp_db_path(tag: &str) -> String {
    let nanos = SystemTime::now().duration_since(UNIX_EPOCH).unwrap().as_nanos();
    format!("/tmp/radio_log_store_{}_{}.sqlite", tag, nanos)
}

/// The transform step of the log table's schema, as the host application
/// supplies it: moves the stored position from raw coordinate columns to an
/// encoded locator column. On a table with no rows only the column changes
/// matter.
struct LogTransforms;

impl SchemaTransform for LogTransforms {
    fn run_step(
        &mut self,
        conn: &rusqlite::Connection,
        table: &str,
        step_index: usize,
    ) -> Result<(), TransformError> {
        assert_eq!(table, "LogEntry");
        assert_eq!(step_index, 2);
        conn.execute_batch(
            "ALTER TABLE LogEntry DROP COLUMN long;
             ALTER TABLE LogEntry DROP COLUMN lat;
             ALTER TABLE LogEntry ADD COLUMN code TEXT;
             ALTER TABLE LogEntry ADD COLUMN locator TEXT;",
        )
        .map_err(TransformError::Engine)
    }
}

/// A runner for registrations that must not reach any transform step.
struct NoTransformExpected;

impl SchemaTransform for NoTransformExpected {
    fn run_step(
        &mut self,
        _conn: &rusqlite::Connection,
        _table: &str,
        step_index: usize,
    ) -> Result<(), TransformError> {
        panic!("no transform step should have been replayed, yet step {} ran", step_index);
    }
}

fn sample_race(name: &str) -> Race {
    Race {
        id: 0,
        create_time: 1693000000,
        name: name.to_string(),
        my_location: "JO70AB".to_string(),
        my_call: "OK1XYZ".to_string(),
    }
}

fn descriptor_version(path: &str, table: &str) -> u32 {
    let conn = rusqlite::Connection::open(path).unwrap();
    conn.query_row(
        "SELECT schema_version FROM TableDescriptor WHERE name=?1",
        [table],
        |row| row.get(0),
    )
    .unwrap()
}

#[test]
fn race_lifecycle_scenario() {
    let path = temp_db_path("race_lifecycle");
    let mut db = Database::new(&path).unwrap();
    let mut runner = NoTransforms;
    let mut races: DataStore<Race> = DataStore::new(&mut db, &mut runner).unwrap();
    assert_eq!(races.len(), 0);

    races.add(&mut db, sample_race("A")).unwrap();
    assert_eq!(races.len(), 1);
    let id = races.get_by_index(0).unwrap().id;
    assert!(id > 0);

    let got = races.get(id).unwrap();
    assert_eq!(got.name, "A");
    assert_eq!(got.id, id);

    let mut edited = got.clone();
    edited.name = "B".to_string();
    races.edit(&mut db, edited).unwrap();
    assert_eq!(races.get(id).unwrap().name, "B");

    races.remove(&mut db, id).unwrap();
    assert!(races.get(id).is_none());
    assert_eq!(races.len(), 0);
}

#[test]
fn log_store_full_migration_and_roundtrip() {
    let path = temp_db_path("log_roundtrip");
    let mut db = Database::new(&path).unwrap();
    let mut runner = LogTransforms;
    let mut logs: DataStore<LogEntry> = DataStore::new(&mut db, &mut runner).unwrap();
    assert_eq!(logs.len(), 0);
    assert_eq!(descriptor_version(&path, "LogEntry"), 4);

    let entry = LogEntry {
        id: 0,
        time: 1693000042,
        call: "OK1ABC".to_string(),
        locator: "JO70FB".to_string(),
        code: Some("59".to_string()),
        race_id: None,
    };
    logs.add(&mut db, entry).unwrap();
    let id = logs.get_by_index(0).unwrap().id;
    let got = logs.get(id).unwrap();
    assert_eq!(got.time, 1693000042);
    assert_eq!(got.call, "OK1ABC");
    assert_eq!(got.locator, "JO70FB");
    assert_eq!(got.code.as_deref(), Some("59"));
    assert_eq!(got.race_id, None);
}

#[test]
fn write_through_consistency_fresh_store_sees_added_entity() {
    let path = temp_db_path("write_through");
    {
        let mut db = Database::new(&path).unwrap();
        let mut runner = NoTransforms;
        let mut races: DataStore<Race> = DataStore::new(&mut db, &mut runner).unwrap();
        races.add(&mut db, sample_race("FieldDay")).unwrap();
    }

    let mut db = Database::new(&path).unwrap();
    let mut runner = NoTransforms;
    let races: DataStore<Race> = DataStore::new(&mut db, &mut runner).unwrap();
    assert_eq!(races.len(), 1);
    let got = races.get_by_index(0).unwrap();
    assert!(got.id > 0);
    assert_eq!(got.name, "FieldDay");
    assert_eq!(got.create_time, 1693000000);
    assert_eq!(got.my_location, "JO70AB");
    assert_eq!(got.my_call, "OK1XYZ");
    assert_eq!(races.find_index_of(got.id), Some(0));
}

#[test]
fn registering_twice_is_idempotent() {
    let path = temp_db_path("idempotent");
    {
        let mut db = Database::new(&path).unwrap();
        let mut runner = NoTransforms;
        let _races: DataStore<Race> = DataStore::new(&mut db, &mut runner).unwrap();
    }
    assert_eq!(descriptor_version(&path, "Race"), 1);

    // A second registration against an unmodified schema finds the recorded
    // version equal to the compiled step count and replays nothing: were any
    // DDL step replayed, its CREATE TABLE would fail against the existing
    // table.
    let mut db = Database::new(&path).unwrap();
    let mut runner = NoTransformExpected;
    let _races: DataStore<Race> = DataStore::new(&mut db, &mut runner).unwrap();
    assert_eq!(descriptor_version(&path, "Race"), 1);
    assert_eq!(descriptor_version(&path, "TableDescriptor"), 1);

    // Registration reports how many steps it replayed: none, the second
    // time around.
    let applied = db.register_type::<Race, _>(&mut runner).unwrap();
    assert_eq!(applied, 0);
}

#[test]
fn partial_migration_applies_only_missing_steps() {
    let path = temp_db_path("partial_migration");
    {
        // A store left behind by an older build: the log table carries the
        // shape that the first three steps produce, and the registry records
        // exactly those three.
        let conn = rusqlite::Connection::open(&path).unwrap();
        conn.execute_batch(
            "CREATE TABLE TableDescriptor (name TEXT PRIMARY KEY NOT NULL, schema_version UINT NOT NULL);
             INSERT INTO TableDescriptor (name, schema_version) VALUES ('TableDescriptor', 1);
             INSERT INTO TableDescriptor (name, schema_version) VALUES ('LogEntry', 3);
             CREATE TABLE LogEntry (id INTEGER PRIMARY KEY, time UINT, call TEXT, code TEXT, locator TEXT);
             INSERT INTO LogEntry (time, call, code, locator) VALUES (42, 'OK1ABC', NULL, 'JO70');",
        )
        .unwrap();
    }

    let mut db = Database::new(&path).unwrap();
    // Only the fourth step (adding the race reference column) is missing;
    // the transform at index 2 must not be replayed.
    let mut runner = NoTransformExpected;
    let logs: DataStore<LogEntry> = DataStore::new(&mut db, &mut runner).unwrap();
    assert_eq!(descriptor_version(&path, "LogEntry"), 4);
    assert_eq!(logs.len(), 1);
    let got = logs.get_by_index(0).unwrap();
    assert_eq!(got.time, 42);
    assert_eq!(got.call, "OK1ABC");
    assert_eq!(got.locator, "JO70");
    assert_eq!(got.code, None);
    assert_eq!(got.race_id, None);
}

#[test]
fn schema_newer_than_application_is_fatal() {
    let path = temp_db_path("schema_newer");
    {
        let conn = rusqlite::Connection::open(&path).unwrap();
        conn.execute_batch(
            "CREATE TABLE TableDescriptor (name TEXT PRIMARY KEY NOT NULL, schema_version UINT NOT NULL);
             INSERT INTO TableDescriptor (name, schema_version) VALUES ('TableDescriptor', 1);
             INSERT INTO TableDescriptor (name, schema_version) VALUES ('Race', 7);",
        )
        .unwrap();
    }

    let mut db = Database::new(&path).unwrap();
    let mut runner = NoTransforms;
    let result: Result<DataStore<Race>, StoreError> = DataStore::new(&mut db, &mut runner);
    match result {
        Err(e) => assert!(e.is_schema_newer()),
        Ok(_) => panic!("a store recorded at a newer version than the build must be refused"),
    }
}

#[test]
fn version_counter_tracks_successful_mutations_only() {
    let path = temp_db_path("version_counter");
    let mut db = Database::new(&path).unwrap();
    let mut runner = NoTransforms;
    let mut races: DataStore<Race> = DataStore::new(&mut db, &mut runner).unwrap();
    assert_eq!(races.get_version(), 1);

    races.add(&mut db, sample_race("A")).unwrap();
    let v_after_add = races.get_version();
    assert_ne!(v_after_add, 1);

    let id = races.get_by_index(0).unwrap().id;
    let _ = races.get(id);
    let _ = races.find_index_of(id);
    let _ = races.len();
    assert_eq!(races.get_version(), v_after_add);

    let mut edited = races.get(id).unwrap().clone();
    edited.my_call = "OK9ZZZ".to_string();
    races.edit(&mut db, edited).unwrap();
    let v_after_edit = races.get_version();
    assert_ne!(v_after_edit, v_after_add);

    // Pull the table out from under the store: the next write-through add
    // fails, and neither the version nor the mirror moves.
    {
        let conn = rusqlite::Connection::open(&path).unwrap();
        conn.execute("DROP TABLE Race", []).unwrap();
    }
    let failed = races.add(&mut db, sample_race("B"));
    assert!(failed.is_err());
    assert_eq!(races.get_version(), v_after_edit);
    assert_eq!(races.len(), 1);

    races.remove(&mut db, id).unwrap_err();
    assert_eq!(races.get_version(), v_after_edit);
    assert_eq!(races.len(), 1);
}

#[test]
fn remove_keeps_index_consistent() {
    let path = temp_db_path("remove_compaction");
    let mut db = Database::new(&path).unwrap();
    let mut runner = NoTransforms;
    let mut races: DataStore<Race> = DataStore::new(&mut db, &mut runner).unwrap();

    races.add(&mut db, sample_race("one")).unwrap();
    races.add(&mut db, sample_race("two")).unwrap();
    races.add(&mut db, sample_race("three")).unwrap();
    let id_one = races.get_by_index(0).unwrap().id;
    let id_two = races.get_by_index(1).unwrap().id;
    let id_three = races.get_by_index(2).unwrap().id;

    races.remove(&mut db, id_one).unwrap();
    assert_eq!(races.len(), 2);
    // The later entries compact down and the index map follows them.
    assert_eq!(races.find_index_of(id_two), Some(0));
    assert_eq!(races.find_index_of(id_three), Some(1));
    assert_eq!(races.get_by_index(0).unwrap().name, "two");
    assert_eq!(races.get_by_index(1).unwrap().name, "three");
    assert_eq!(races.find_index_of(id_one), None);
    assert_eq!(races.get(id_two).unwrap().name, "two");
}

#[test]
fn select_where_filters_rows() {
    let path = temp_db_path("select_where");
    let mut db = Database::new(&path).unwrap();
    let mut runner = LogTransforms;
    let mut logs: DataStore<LogEntry> = DataStore::new(&mut db, &mut runner).unwrap();

    let a = LogEntry {
        id: 0,
        time: 10,
        call: "OK1AAA".to_string(),
        locator: "JO60".to_string(),
        code: None,
        race_id: None,
    };
    let mut b = a.clone();
    b.call = "OK1BBB".to_string();
    logs.add(&mut db, a.clone()).unwrap();
    logs.add(&mut db, b.clone()).unwrap();

    let hits = logs
        .get_where(
            &mut db,
            "call LIKE ?1",
            &vec![radio_log_store::SqlValue::Text("%BBB".to_string())],
        )
        .unwrap();
    assert_eq!(hits.len(), 1);
    assert_eq!(hits[0].call, "OK1BBB");
}

#[test]
fn duplicate_identity_on_load_is_refused() {
    let path = temp_db_path("duplicate_identity");
    {
        // A corrupted store whose log table lost its key constraint and
        // carries the same identity twice.
        let conn = rusqlite::Connection::open(&path).unwrap();
        conn.execute_batch(
            "CREATE TABLE TableDescriptor (name TEXT PRIMARY KEY NOT NULL, schema_version UINT NOT NULL);
             INSERT INTO TableDescriptor (name, schema_version) VALUES ('TableDescriptor', 1);
             INSERT INTO TableDescriptor (name, schema_version) VALUES ('LogEntry', 4);
             CREATE TABLE LogEntry (id INTEGER, time UINT, call TEXT, code TEXT, locator TEXT, race_id INTEGER);
             INSERT INTO LogEntry (id, time, call, code, locator, race_id) VALUES (1, 10, 'A', NULL, 'JO70', NULL);
             INSERT INTO LogEntry (id, time, call, code, locator, race_id) VALUES (1, 20, 'B', NULL, 'JO71', NULL);",
        )
        .unwrap();
    }

    let mut db = Database::new(&path).unwrap();
    let mut runner = NoTransformExpected;
    let result: Result<DataStore<LogEntry>, StoreError> = DataStore::new(&mut db, &mut runner);
    assert!(matches!(result, Err(StoreError::DuplicateId)));
}

#[test]
fn dialog_save_creates_and_edits_through_store() {
    let path = temp_db_path("dialog_save");
    let mut db = Database::new(&path).unwrap();
    let mut runner = LogTransforms;
    let mut logs: DataStore<LogEntry> = DataStore::new(&mut db, &mut runner).unwrap();
    let mut actions = ActionProcessor::default();

    let mut dialog = CreateLogDialog::default();
    dialog.open();
    dialog.set_field(InputFields::Call, "OK5FIVE".to_string());
    dialog.set_field(InputFields::QTH, "JN79".to_string());
    dialog.set_field(InputFields::Code, "59".to_string());
    dialog.save(&mut db, &mut logs, Some(2), 12345, &mut actions);

    assert!(!dialog.is_opened());
    assert_eq!(actions.iter().len(), 0);
    assert_eq!(logs.len(), 1);
    let created = logs.get_by_index(0).unwrap().clone();
    assert_eq!(created.call, "OK5FIVE");
    assert_eq!(created.locator, "JN79");
    assert_eq!(created.code.as_deref(), Some("59"));
    assert_eq!(created.race_id, Some(2));
    assert_eq!(created.time, 12345);

    // Editing through the dialog rewrites the same record.
    dialog.edit(&created);
    dialog.set_field(InputFields::Call, "OK6SIX".to_string());
    dialog.save(&mut db, &mut logs, Some(2), 99999, &mut actions);
    assert_eq!(actions.iter().len(), 0);
    assert_eq!(logs.len(), 1);
    let edited = logs.get(created.id).unwrap();
    assert_eq!(edited.call, "OK6SIX");
    assert_eq!(edited.locator, "JN79");
    // An edit keeps the record's own timestamp.
    assert_eq!(edited.time, 12345);

    // Saving an edit of a vanished record queues an error and leaves the
    // store alone.
    let mut ghost_entry = created.clone();
    ghost_entry.id = 4040;
    dialog.edit(&ghost_entry);
    dialog.save(&mut db, &mut logs, None, 1, &mut actions);
    assert_eq!(actions.iter().len(), 1);
    match &actions.iter()[0] {
        radio_log_store::Actions::ShowError(msg) => {
            assert_eq!(msg, "Error: Log with id 4040 not found");
        },
        _ => panic!("expected an error notification"),
    }
    assert_eq!(logs.len(), 1);
}

#[test]
fn existing_logs_search_groups_and_flags_duplicates() {
    let path = temp_db_path("existing_search");
    let mut db = Database::new(&path).unwrap();
    let mut runner = LogTransforms;
    let mut logs: DataStore<LogEntry> = DataStore::new(&mut db, &mut runner).unwrap();

    let base = LogEntry {
        id: 0,
        time: 1,
        call: "OK1AAA".to_string(),
        locator: "JO60".to_string(),
        code: None,
        race_id: Some(7),
    };
    logs.add(&mut db, base.clone()).unwrap();
    logs.add(&mut db, base.clone()).unwrap();
    let mut other = base.clone();
    other.call = "DL2BBB".to_string();
    other.race_id = None;
    logs.add(&mut db, other).unwrap();

    // Terms under two characters on both sides ask for nothing.
    let hits = radio_log_store::search_existing_logs(&mut db, "O", "", None).unwrap();
    assert_eq!(hits.len(), 0);

    let hits = radio_log_store::search_existing_logs(&mut db, "OK1", "", Some(7)).unwrap();
    assert_eq!(hits.len(), 1);
    assert_eq!(hits[0].call, "OK1AAA");
    assert_eq!(hits[0].locator, "JO60");
    assert_eq!(hits[0].count, 2);
    assert!(hits[0].has_duplicates);

    let hits = radio_log_store::search_existing_logs(&mut db, "BBB", "", Some(7)).unwrap();
    assert_eq!(hits.len(), 1);
    assert_eq!(hits[0].call, "DL2BBB");
    assert_eq!(hits[0].count, 1);
    assert!(!hits[0].has_duplicates);

    // A locator term alone also matches.
    let hits = radio_log_store::search_existing_logs(&mut db, "", "JO60", None).unwrap();
    assert_eq!(hits.len(), 2);
}

#[test]
fn race_logs_filters_by_grouping_event() {
    let path = temp_db_path("race_logs");
    let mut db = Database::new(&path).unwrap();
    let mut runner = LogTransforms;
    let mut logs: DataStore<LogEntry> = DataStore::new(&mut db, &mut runner).unwrap();

    let mut entry = LogEntry {
        id: 0,
        time: 1,
        call: "OK1AAA".to_string(),
        locator: "JO60".to_string(),
        code: None,
        race_id: Some(1),
    };
    logs.add(&mut db, entry.clone()).unwrap();
    entry.race_id = Some(2);
    entry.call = "OK2BBB".to_string();
    logs.add(&mut db, entry.clone()).unwrap();
    entry.race_id = None;
    entry.call = "OK3CCC".to_string();
    logs.add(&mut db, entry).unwrap();

    let all = radio_log_store::race_logs(&logs, None);
    assert_eq!(all.len(), 3);

    let first = radio_log_store::race_logs(&logs, Some(1));
    assert_eq!(first.len(), 1);
    assert_eq!(first[0].call, "OK1AAA");

    let second = radio_log_store::race_logs(&logs, Some(2));
    assert_eq!(second.len(), 1);
    assert_eq!(second[0].call, "OK2BBB");

    assert_eq!(radio_log_store::race_logs(&logs, Some(9)).len(), 0);
}

#[test]
fn edit_replaces_in_place_and_keeps_order() {
    let path = temp_db_path("edit_in_place");
    let mut db = Database::new(&path).unwrap();
    let mut runner = NoTransforms;
    let mut races: DataStore<Race> = DataStore::new(&mut db, &mut runner).unwrap();

    races.add(&mut db, sample_race("one")).unwrap();
    races.add(&mut db, sample_race("two")).unwrap();
    races.add(&mut db, sample_race("three")).unwrap();
    let id_two = races.get_by_index(1).unwrap().id;

    let mut edited = races.get(id_two).unwrap().clone();
    edited.name = "TWO".to_string();
    races.edit(&mut db, edited).unwrap();

    assert_eq!(races.len(), 3);
    assert_eq!(races.get_by_index(0).unwrap().name, "one");
    assert_eq!(races.get_by_index(1).unwrap().name, "TWO");
    assert_eq!(races.get_by_index(2).unwrap().name, "three");
    assert_eq!(races.find_index_of(id_two), Some(1));
}

#[test]
fn mirror_builds_index_and_rejects_duplicates() {
    let mut one = sample_race("one");
    one.id = 5;
    let mut two = sample_race("two");
    two.id = 9;

    let store = DataStore::mirror(vec![one.clone(), two.clone()]).unwrap();
    assert_eq!(store.len(), 2);
    assert_eq!(store.get_version(), 1);
    assert_eq!(store.get_by_index(0).unwrap().name, "one");
    assert_eq!(store.get_by_index(1).unwrap().name, "two");
    assert_eq!(store.find_index_of(5), Some(0));
    assert_eq!(store.find_index_of(9), Some(1));

    let mut clash = sample_race("clash");
    clash.id = 5;
    let result: Result<DataStore<Race>, StoreError> =
        DataStore::mirror(vec![one, two, clash]);
    assert!(matches!(result, Err(StoreError::DuplicateId)));
}
