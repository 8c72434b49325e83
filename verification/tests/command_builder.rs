use real_estate_tracker::commands::{
    add_expense, add_room, create_project, delete_expense, delete_project, delete_room,
    export_project, get_all_expenses, get_app_info, get_budget_status, get_expenses, get_project,
    get_projects, get_rooms, initialize_database, test_expense_add, update_expense,
    update_project, update_project_priority, update_project_status, update_room, ExpenseData,
    ExpenseUpdate, ProjectData, RoomData, RoomUpdate, UpdateProjectData,
};
use real_estate_tracker::decimal::Number;
use real_estate_tracker::error::BridgeError;
use real_estate_tracker::request::{
    build, count_field, integer_field, non_blank_field, number_field, positive_number_field,
    text_field, OperationRequest, OptionalField,
};

fn number(value: f64) -> Number {
    Number::parse(&value.to_string()).expect("the text of a float")
}

fn words(tokens: &[&str]) -> Vec<String> {
    tokens.iter().map(|t| t.to_string()).collect()
}

fn lakehouse() -> ProjectData {
    ProjectData {
        name: "Lakehouse".to_string(),
        budget: number(250000.0),
        property_type: "flip".to_string(),
        property_class: "residential".to_string(),
        description: None,
        floors: Some(2),
        sqft: None,
        address: None,
    }
}

#[test]
fn create_project_builds_the_lakehouse_command_line() {
    let op = create_project(&lakehouse());
    assert_eq!(
        op.argv(),
        words(&["project", "create", "Lakehouse", "250000", "flip", "residential", "--floors", "2"])
    );
    assert_eq!(op.failure_context, "Failed to create project");
}

#[test]
fn create_project_emits_every_optional_field_in_declared_order() {
    let data = ProjectData {
        description: Some("Two storeys".to_string()),
        sqft: Some(number(1850.5)),
        address: Some("12 Shore Rd".to_string()),
        ..lakehouse()
    };
    assert_eq!(
        create_project(&data).argv(),
        words(&[
            "project", "create", "Lakehouse", "250000", "flip", "residential", "--description",
            "Two storeys", "--floors", "2", "--sqft", "1850.5", "--address", "12 Shore Rd",
        ])
    );
}

#[test]
fn identical_requests_build_identical_token_sequences() {
    let first = create_project(&lakehouse());
    let second = create_project(&lakehouse());
    assert_eq!(first.request, second.request);
    assert_eq!(build(&first.request), build(&second.request));
    assert_eq!(build(&first.request), build(&first.request));
}

#[test]
fn build_orders_subject_verb_positional_then_present_fields() {
    let request = OperationRequest {
        subject: "room".to_string(),
        verb: Some("add".to_string()),
        positional: words(&["4", "Attic"]),
        optional: vec![
            OptionalField { flag: "--length".to_string(), value: None },
            OptionalField { flag: "--width".to_string(), value: Some("3.5".to_string()) },
            OptionalField { flag: "--notes".to_string(), value: Some("".to_string()) },
        ],
    };
    assert_eq!(build(&request), words(&["room", "add", "4", "Attic", "--width", "3.5", "--notes", ""]));
}

#[test]
fn build_without_verb_emits_subject_only() {
    let request = OperationRequest {
        subject: "init".to_string(),
        verb: None,
        positional: vec![],
        optional: vec![],
    };
    assert_eq!(build(&request), words(&["init"]));
}

#[test]
fn zero_hours_are_never_emitted() {
    let data = ExpenseData {
        room_name: "Kitchen".to_string(),
        category: "labor".to_string(),
        cost: number(80.0),
        hours: Some(number(0.0)),
        condition: None,
        notes: None,
    };
    let argv = add_expense(7, &data).argv();
    assert_eq!(argv, words(&["expense", "add", "7", "Kitchen", "labor", "80"]));
    assert!(!argv.contains(&"--hours".to_string()));
}

#[test]
fn negative_and_negative_zero_hours_are_left_out() {
    assert_eq!(positive_number_field("--hours", &Some(number(-2.5))).value, None);
    assert_eq!(positive_number_field("--hours", &Some(number(-0.0))).value, None);
    assert_eq!(positive_number_field("--hours", &None).value, None);
}

#[test]
fn numbers_without_digits_keep_their_text() {
    assert_eq!(number_field("--sqft", &Some(number(f64::NAN))).value, Some("NaN".to_string()));
    assert_eq!(number_field("--sqft", &Some(number(f64::INFINITY))).value, Some("inf".to_string()));
    assert_eq!(
        number_field("--sqft", &Some(number(f64::NEG_INFINITY))).value,
        Some("-inf".to_string())
    );
    assert_eq!(positive_number_field("--hours", &Some(number(f64::NAN))).value, None);
    assert_eq!(positive_number_field("--hours", &Some(number(f64::NEG_INFINITY))).value, None);
    assert_eq!(
        positive_number_field("--hours", &Some(number(f64::INFINITY))).value,
        Some("inf".to_string())
    );
}

#[test]
fn positive_hours_are_emitted_with_their_text() {
    let field = positive_number_field("--hours", &Some(number(1.5)));
    assert_eq!(field.flag, "--hours");
    assert_eq!(field.value, Some("1.5".to_string()));
    let small = positive_number_field("--hours", &Some(number(0.25)));
    assert_eq!(small.value, Some("0.25".to_string()));
}

#[test]
fn add_expense_keeps_notes_untrimmed_and_drops_blank_notes() {
    let mut data = ExpenseData {
        room_name: "Hall".to_string(),
        category: "material".to_string(),
        cost: number(12.75),
        hours: Some(number(2.0)),
        condition: Some(4),
        notes: Some("  primer coat ".to_string()),
    };
    assert_eq!(
        add_expense(3, &data).argv(),
        words(&[
            "expense", "add", "3", "Hall", "material", "12.75", "--hours", "2", "--condition",
            "4", "--notes", "  primer coat ",
        ])
    );
    data.notes = Some(" \t\n".to_string());
    assert_eq!(
        add_expense(3, &data).argv(),
        words(&["expense", "add", "3", "Hall", "material", "12.75", "--hours", "2", "--condition", "4"])
    );
    data.notes = Some(String::new());
    assert!(!add_expense(3, &data).argv().contains(&"--notes".to_string()));
}

#[test]
fn field_builders_apply_their_presence_policy() {
    assert_eq!(text_field("--name", &None).value, None);
    assert_eq!(text_field("--name", &Some("".to_string())).value, Some("".to_string()));
    assert_eq!(non_blank_field("--notes", &Some("\u{2003}".to_string())).value, None);
    assert_eq!(non_blank_field("--notes", &Some(" x".to_string())).value, Some(" x".to_string()));
    assert_eq!(count_field("--floors", Some(0)).value, Some("0".to_string()));
    assert_eq!(count_field("--floors", Some(4294967295)).value, Some("4294967295".to_string()));
    assert_eq!(count_field("--floors", None).value, None);
    assert_eq!(integer_field("--condition", Some(-3)).value, Some("-3".to_string()));
    assert_eq!(
        integer_field("--condition", Some(i64::MIN)).value,
        Some("-9223372036854775808".to_string())
    );
    assert_eq!(integer_field("--condition", Some(i64::MAX)).value, Some(i64::MAX.to_string()));
    assert_eq!(number_field("--sqft", &Some(number(0.0))).value, Some("0".to_string()));
    assert_eq!(number_field("--sqft", &None).value, None);
}

#[test]
fn update_project_offers_no_type_or_class_and_keeps_its_order() {
    let data = UpdateProjectData {
        name: Some("Lake House".to_string()),
        budget: Some(number(300000.0)),
        description: Some("Raised".to_string()),
        floors: Some(3),
        sqft: Some(number(2100.0)),
        address: Some("1 Pier".to_string()),
    };
    let op = update_project(42, &data);
    assert_eq!(
        op.argv(),
        words(&[
            "project", "update", "42", "--name", "Lake House", "--budget", "300000",
            "--description", "Raised", "--floors", "3", "--sqft", "2100", "--address", "1 Pier",
        ])
    );
    assert_eq!(op.failure_context, "Failed to update project 42");
    let nothing = UpdateProjectData {
        name: None,
        budget: None,
        description: None,
        floors: None,
        sqft: None,
        address: None,
    };
    assert_eq!(update_project(42, &nothing).argv(), words(&["project", "update", "42"]));
    let some = UpdateProjectData {
        name: Some("A".to_string()),
        budget: Some(number(100.0)),
        description: Some("d".to_string()),
        ..nothing
    };
    assert_eq!(
        update_project(7, &some).argv(),
        words(&["project", "update", "7", "--name", "A", "--budget", "100", "--description", "d"])
    );
}

#[test]
fn add_room_builds_its_argv() {
    let data = RoomData {
        name: "Kitchen".to_string(),
        floor: 1,
        length: Some(number(4.5)),
        width: Some(number(3.0)),
        height: None,
        condition: Some(2),
        notes: Some("north side".to_string()),
    };
    let op = add_room(9, &data);
    assert_eq!(
        op.argv(),
        words(&[
            "room", "add", "9", "Kitchen", "1", "--length", "4.5", "--width", "3", "--condition",
            "2", "--notes", "north side",
        ])
    );
    assert_eq!(op.failure_context, "Failed to add room");
}

#[test]
fn update_room_and_update_expense_build_their_argv() {
    let room = RoomUpdate {
        name: Some("Den".to_string()),
        length: None,
        width: Some(number(2.25)),
        height: Some(number(2.4)),
        condition: Some(-1),
        notes: None,
    };
    let op = update_room(5, "Study", &room);
    assert_eq!(
        op.argv(),
        words(&[
            "room", "update", "5", "Study", "--name", "Den", "--width", "2.25", "--height",
            "2.4", "--condition", "-1",
        ])
    );
    assert_eq!(op.failure_context, "Failed to update room Study");
    let expense = ExpenseUpdate {
        room_name: Some("Den".to_string()),
        category: Some("labor".to_string()),
        cost: Some(number(19.99)),
        hours: Some(number(0.0)),
        condition: Some(5),
        notes: Some("".to_string()),
    };
    let op = update_expense(11, &expense);
    assert_eq!(
        op.argv(),
        words(&[
            "expense", "update", "11", "--room", "Den", "--category", "labor", "--cost", "19.99",
            "--hours", "0", "--condition", "5", "--notes", "",
        ])
    );
    assert_eq!(op.failure_context, "Failed to update expense 11");
}

#[test]
fn plain_operations_build_their_argv_and_context() {
    let cases: Vec<(real_estate_tracker::commands::Operation, Vec<String>, &str)> = vec![
        (initialize_database(), words(&["init"]), "Database initialization failed"),
        (get_projects(), words(&["project", "list"]), "Failed to get projects"),
        (get_project(12), words(&["project", "show", "12"]), "Failed to get project 12"),
        (
            delete_project(12),
            words(&["project", "delete", "12", "--force"]),
            "Failed to delete project 12",
        ),
        (get_rooms(3), words(&["room", "list", "3"]), "Failed to get rooms for project 3"),
        (
            delete_room(3, "Old Bath"),
            words(&["room", "delete", "3", "Old Bath", "--force"]),
            "Failed to delete room Old Bath",
        ),
        (
            get_expenses(0),
            words(&["expense", "list", "0"]),
            "Failed to get expenses for project 0",
        ),
        (
            delete_expense(4000000000),
            words(&["expense", "delete", "4000000000", "--force"]),
            "Failed to delete expense 4000000000",
        ),
        (
            get_budget_status(8),
            words(&["budget", "status", "8"]),
            "Failed to get budget status for project 8",
        ),
        (
            update_project_status(8, "active"),
            words(&["project", "update", "8", "--status", "active"]),
            "Failed to update project status",
        ),
        (
            update_project_priority(8, "high"),
            words(&["project", "update", "8", "--priority", "high"]),
            "Failed to update project priority",
        ),
        (get_all_expenses(), words(&["expense", "list", "--all"]), "Failed to get all expenses"),
    ];
    for (op, argv, context) in cases {
        assert_eq!(op.argv(), argv);
        assert_eq!(op.failure_context, context);
    }
}

#[test]
fn export_supports_csv_only() {
    let op = export_project(6, "csv").expect("csv is supported");
    assert_eq!(op.argv(), words(&["export", "csv", "6"]));
    assert_eq!(op.failure_context, "Failed to export project 6");
    assert_eq!(export_project(6, "json"), Err(BridgeError::UnsupportedExportFormat));
    assert_eq!(export_project(6, "CSV"), Err(BridgeError::UnsupportedExportFormat));
    assert_eq!(export_project(6, ""), Err(BridgeError::UnsupportedExportFormat));
    assert_eq!(
        BridgeError::UnsupportedExportFormat.message(),
        "Only CSV export is currently supported"
    );
}

#[test]
fn self_test_adds_the_sample_expense_to_project_one() {
    let op = test_expense_add();
    assert_eq!(
        op.argv(),
        words(&[
            "expense", "add", "1", "Living Room", "material", "100", "--condition", "3",
            "--notes", "Test expense from Tauri",
        ])
    );
}

#[test]
fn failure_message_joins_context_and_error() {
    let op = create_project(&lakehouse());
    let error = BridgeError::ProcessExecutionFailure {
        exit_code: Some(2),
        stderr: "budget must be positive".to_string(),
    };
    assert_eq!(
        op.failure_message(&error),
        "Failed to create project: Python command failed: budget must be positive"
    );
    assert_eq!(
        get_project(3).failure_message(&BridgeError::InterpreterNotFound),
        "Failed to get project 3: Python not found: Python not found in PATH or virtual environment"
    );
}

#[test]
fn app_info_is_fixed() {
    let info = get_app_info();
    assert_eq!(info.name, "Real Estate Tracker");
    assert_eq!(info.version, "0.2.0");
    assert_eq!(info.description, "Professional house flipping budget tracker");
}
