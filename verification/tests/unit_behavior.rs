use radio_log_store::{ActionProcessor, Actions, AlertDialog, AlertDialogButton,
    AlertDialogStyle, CreateLogDialog, DBObjectSerializable, DBSchemaObject, DialogHelpers,
    DialogInterface, Input, InputFields, InputOp, LogEntry, MigrationPlan, Rect, SqlValue,
    StoreError, TableDescriptor, UIElementID, UIElementType, create_const_hash, i64_text,
    parse_rows, plan_migration, u64_text};

#[test]
fn migration_plan_cases() {
    assert_eq!(plan_migration(0, 4), MigrationPlan::Apply(0, 4));
    assert_eq!(plan_migration(3, 4), MigrationPlan::Apply(3, 4));
    assert_eq!(plan_migration(4, 4), MigrationPlan::UpToDate);
    assert_eq!(plan_migration(5, 4), MigrationPlan::TooNew);
    assert_eq!(plan_migration(0, 0), MigrationPlan::UpToDate);
    assert_eq!(plan_migration(1, 0), MigrationPlan::TooNew);
}

#[test]
fn descriptor_from_table_records_full_step_count() {
    let d = TableDescriptor::from_table::<radio_log_store::Race>();
    assert_eq!(d.name, "Race");
    assert_eq!(d.schema_version, 1);
    let d = TableDescriptor::from_table::<LogEntry>();
    assert_eq!(d.name, "LogEntry");
    assert_eq!(d.schema_version, 4);
}

#[test]
fn log_entry_row_parsing_roundtrip_and_shape_errors() {
    let row = vec![
        SqlValue::Int(7),
        SqlValue::Int(123),
        SqlValue::Text("OK1A".to_string()),
        SqlValue::Text("JO70".to_string()),
        SqlValue::Null,
        SqlValue::Int(3),
    ];
    let parsed = LogEntry::from_row(&row).unwrap();
    assert_eq!(parsed.id, 7);
    assert_eq!(parsed.time, 123);
    assert_eq!(parsed.call, "OK1A");
    assert_eq!(parsed.locator, "JO70");
    assert_eq!(parsed.code, None);
    assert_eq!(parsed.race_id, Some(3));

    // Wrong width.
    let short = vec![SqlValue::Int(7)];
    assert!(matches!(LogEntry::from_row(&short), Err(StoreError::MalformedRow)));

    // Time out of the unsigned 32-bit range.
    let mut bad_time = row.clone();
    bad_time[1] = SqlValue::Int(-1);
    assert!(matches!(LogEntry::from_row(&bad_time), Err(StoreError::MalformedRow)));

    // Text where an integer belongs.
    let mut bad_id = row.clone();
    bad_id[0] = SqlValue::Text("x".to_string());
    assert!(matches!(LogEntry::from_row(&bad_id), Err(StoreError::MalformedRow)));
}

#[test]
fn parse_rows_maps_every_row_in_order() {
    let rows = vec![
        vec![
            SqlValue::Int(1),
            SqlValue::Int(10),
            SqlValue::Text("A".to_string()),
            SqlValue::Text("JO60".to_string()),
            SqlValue::Null,
            SqlValue::Null,
        ],
        vec![
            SqlValue::Int(2),
            SqlValue::Int(20),
            SqlValue::Text("B".to_string()),
            SqlValue::Text("JO61".to_string()),
            SqlValue::Text("59".to_string()),
            SqlValue::Int(1),
        ],
    ];
    let items: Vec<LogEntry> = parse_rows(&rows).unwrap();
    assert_eq!(items.len(), 2);
    assert_eq!(items[0].id, 1);
    assert_eq!(items[1].id, 2);
    assert_eq!(items[1].code.as_deref(), Some("59"));

    let bad = vec![vec![SqlValue::Null]];
    assert!(parse_rows::<LogEntry>(&bad).is_err());
}

#[test]
fn descriptor_row_parsing_is_lenient() {
    let d = TableDescriptor::from_row(&vec![
        SqlValue::Text("Race".to_string()),
        SqlValue::Int(2),
    ])
    .unwrap();
    assert_eq!(d.name, "Race");
    assert_eq!(d.schema_version, 2);

    // A missing or mistyped column falls back to the defaults.
    let d = TableDescriptor::from_row(&vec![]).unwrap();
    assert_eq!(d.name, "");
    assert_eq!(d.schema_version, 0);
    let d = TableDescriptor::from_row(&vec![SqlValue::Int(9), SqlValue::Text("x".to_string())])
        .unwrap();
    assert_eq!(d.name, "");
    assert_eq!(d.schema_version, 0);
}

#[test]
fn store_error_descriptions() {
    assert_eq!(StoreError::MalformedRow.describe(), "malformed row");
    assert_eq!(
        StoreError::SchemaNewer.describe(),
        "stored schema is newer than the application"
    );
    assert_eq!(
        StoreError::DuplicateId.describe(),
        "store assigned an identity the cache already holds"
    );
    assert_eq!(
        StoreError::MissingTransform.describe(),
        "no runner supplied for a transform step"
    );
    assert!(StoreError::SchemaNewer.is_schema_newer());
    assert!(!StoreError::MalformedRow.is_schema_newer());
}

#[test]
fn number_text_rendering() {
    assert_eq!(u64_text(0), "0");
    assert_eq!(u64_text(7), "7");
    assert_eq!(u64_text(1234567890), "1234567890");
    assert_eq!(i64_text(0), "0");
    assert_eq!(i64_text(42), "42");
    assert_eq!(i64_text(-1234), "-1234");
    assert_eq!(i64_text(i64::MIN), "-9223372036854775808");
    assert_eq!(i64_text(i64::MAX), "9223372036854775807");
}

#[test]
fn fnv_hash_matches_known_vectors() {
    // The 64-bit FNV-1a offset basis is the hash of no bytes at all.
    assert_eq!(create_const_hash("", "", ""), 0xcbf29ce484222325);
    // Folding the single byte 'a', wherever it stands among the three
    // parts, must give the published FNV-1a value for "a".
    assert_eq!(create_const_hash("a", "", ""), 0xaf63dc4c8601ec8c);
    assert_eq!(create_const_hash("", "", "a"), 0xaf63dc4c8601ec8c);
    // Order matters.
    assert_ne!(create_const_hash("ab", "", ""), create_const_hash("ba", "", ""));
}

#[test]
fn action_processor_queues_in_order() {
    let mut actions = ActionProcessor::default();
    assert_eq!(actions.iter().len(), 0);
    actions.add(Actions::DeleteLog(1));
    actions.add(Actions::CreateLogWanted);
    actions.add(Actions::ToggleMap);
    assert_eq!(actions.iter().len(), 3);
    assert!(matches!(actions.iter()[0], Actions::DeleteLog(1)));
    assert!(matches!(actions.iter()[1], Actions::CreateLogWanted));
    assert!(matches!(actions.iter()[2], Actions::ToggleMap));
    actions.clear();
    assert_eq!(actions.iter().len(), 0);
}

#[test]
fn alert_dialog_buttons_count_and_contain() {
    let yes_no = AlertDialogButton::yes().union(AlertDialogButton::no());
    assert_eq!(yes_no.count(), 2);
    assert!(yes_no.contains(AlertDialogButton::yes()));
    assert!(yes_no.contains(AlertDialogButton::no()));
    assert!(!yes_no.contains(AlertDialogButton::ok()));
    assert_eq!(AlertDialogButton::ok().count(), 1);
    let all = AlertDialogButton::ok()
        .union(AlertDialogButton::cancel())
        .union(AlertDialogButton::yes())
        .union(AlertDialogButton::no());
    assert_eq!(all.count(), 4);
}

#[test]
fn alert_dialog_confirm_raises_pending_action() {
    let mut dialog = AlertDialog::new(
        "Delete?".to_string(),
        AlertDialogButton::yes().union(AlertDialogButton::no()),
        AlertDialogStyle::Warning,
        Some(Actions::DeleteRace(5)),
    );
    assert!(dialog.is_opened());
    assert_eq!(dialog.message(), "Delete?");
    let mut actions = ActionProcessor::default();
    dialog.confirm(&mut actions);
    assert!(!dialog.is_opened());
    assert_eq!(actions.iter().len(), 1);
    assert!(matches!(actions.iter()[0], Actions::DeleteRace(5)));

    // Confirming a dialog without a pending action queues nothing.
    let mut plain = AlertDialog::new(
        "Note".to_string(),
        AlertDialogButton::ok(),
        AlertDialogStyle::Error,
        None,
    );
    let mut actions = ActionProcessor::default();
    plain.confirm(&mut actions);
    assert_eq!(actions.iter().len(), 0);
}

#[test]
fn input_fields_cycle() {
    assert_eq!(InputFields::Call.next(), InputFields::QTH);
    assert_eq!(InputFields::QTH.next(), InputFields::Code);
    assert_eq!(InputFields::Code.next(), InputFields::Call);
    assert_eq!(InputFields::Call.prev(), InputFields::Code);
    assert_eq!(InputFields::QTH.prev(), InputFields::Call);
    assert_eq!(InputFields::Code.prev(), InputFields::QTH);
    assert_eq!(InputFields::Call.index(), 0);
    assert_eq!(InputFields::LAST.index(), 3);
    assert_eq!(InputFields::from_index(2), InputFields::Code);
    assert_eq!(InputFields::Call.label(), "Call");
}

#[test]
fn input_editing_gestures() {
    let mut input = Input::default().set_label("Call".to_string());
    // Unfocused fields ignore gestures.
    let r = input.handle_op(InputOp::Insert('x'));
    assert!(matches!(r, radio_log_store::EventResult::NOOP));
    assert_eq!(input.get(), "");

    input.set_focused(true);
    input.handle_op(InputOp::Insert('a'));
    input.handle_op(InputOp::Insert('b'));
    input.handle_op(InputOp::Insert('c'));
    assert_eq!(input.get(), "abc");
    input.handle_op(InputOp::Left);
    input.handle_op(InputOp::Insert('x'));
    assert_eq!(input.get(), "abxc");
    input.handle_op(InputOp::Backspace);
    assert_eq!(input.get(), "abc");
    input.handle_op(InputOp::Home);
    input.handle_op(InputOp::DeleteForward);
    assert_eq!(input.get(), "bc");
    input.handle_op(InputOp::End);
    input.handle_op(InputOp::Backspace);
    assert_eq!(input.get(), "b");

    input.set("JO70AB".to_string());
    assert_eq!(input.get(), "JO70AB");
    input.clear();
    assert_eq!(input.get(), "");
}

#[test]
fn create_log_dialog_form_flow() {
    let mut dialog = CreateLogDialog::default();
    assert!(!dialog.is_opened());

    let log = LogEntry {
        id: 12,
        time: 500,
        call: "OK2XYZ".to_string(),
        locator: "JN89".to_string(),
        code: Some("73".to_string()),
        race_id: None,
    };
    dialog.edit(&log);
    assert!(dialog.is_opened());
    assert_eq!(dialog.get_field(InputFields::Call), "OK2XYZ");
    assert_eq!(dialog.get_field(InputFields::QTH), "JN89");
    assert_eq!(dialog.get_field(InputFields::Code), "73");

    dialog.set_field(InputFields::Call, "OK9AAA".to_string());
    assert_eq!(dialog.get_field(InputFields::Call), "OK9AAA");

    dialog.clear_form();
    assert_eq!(dialog.get_field(InputFields::Call), "");
    assert_eq!(dialog.get_field(InputFields::QTH), "");
    assert_eq!(dialog.get_field(InputFields::Code), "");

    dialog.open();
    assert!(dialog.is_opened());
    dialog.close();
    assert!(!dialog.is_opened());
}

#[test]
fn dialog_helpers_center_rects() {
    let screen = Rect { x: 0, y: 0, width: 100, height: 40 };
    let centered = DialogHelpers::center_rect_size(20, 10, screen);
    assert_eq!(centered, Rect { x: 40, y: 15, width: 20, height: 10 });

    let banded = DialogHelpers::center_rect_perc(50, 50, screen);
    assert_eq!(banded.width, 50);
    assert_eq!(banded.height, 20);
    assert_eq!(banded.x, 25);
    assert_eq!(banded.y, 10);

    let offset = Rect { x: 10, y: 5, width: 60, height: 20 };
    let inner = DialogHelpers::center_rect_size(10, 4, offset);
    assert_eq!(inner, Rect { x: 35, y: 13, width: 10, height: 4 });
}

#[test]
fn ui_element_identity() {
    let kind = UIElementType::new("Input", create_const_hash("ui", "input", "Input"));
    let id = UIElementID::new(3, kind);
    assert_eq!(id.index(), 3);
    assert_eq!(id.element_type(), kind);
    let other = UIElementType::new("Input", create_const_hash("ui", "details", "Details"));
    assert_ne!(kind, other);
}

#[test]
fn input_handles_multibyte_characters() {
    let mut input = Input::default();
    input.set_focused(true);
    input.handle_op(InputOp::Insert('č'));
    input.handle_op(InputOp::Insert('á'));
    input.handle_op(InputOp::Insert('p'));
    assert_eq!(input.get(), "čáp");
    input.handle_op(InputOp::Left);
    input.handle_op(InputOp::Left);
    input.handle_op(InputOp::DeleteForward);
    assert_eq!(input.get(), "čp");
    input.handle_op(InputOp::Insert('í'));
    assert_eq!(input.get(), "číp");
    input.handle_op(InputOp::End);
    input.handle_op(InputOp::Backspace);
    assert_eq!(input.get(), "čí");
}

#[test]
fn dialog_helpers_uneven_percentages() {
    let screen = Rect { x: 0, y: 0, width: 100, height: 40 };
    let banded = DialogHelpers::center_rect_perc(33, 25, screen);
    assert_eq!(banded.width, 33);
    assert_eq!(banded.height, 10);
    // The flanking margins use the integer half of the remainder.
    assert_eq!(banded.x, 100 * ((100 - 33) / 2) / 100);
    assert_eq!(banded.y, 40 * ((100 - 25) / 2) / 100);
}
