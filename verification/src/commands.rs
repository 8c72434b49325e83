//! The operations that the desktop shell offers. Each one is described
//! as a request for the backend together with the words that introduce a
//! failure of that operation.

use crate::decimal::{Decimal, Number};
use crate::error::{error_message, BridgeError};
use crate::request::{
    argv_of, build, count_field, count_field_view, field_views, integer_field, integer_field_view,
    non_blank_field, non_blank_field_view, number_field, number_field_view, positive_number_field,
    positive_number_field_view, text_field, text_field_view, FieldView, OperationRequest,
    OptionalField, RequestView,
};
use crate::text::{
    join_text, is_whitespace, nat_digits, same_text, texts, trimmed, u32_text,
};
use vstd::prelude::*;

verus! {

/// Static description of the application.
#[derive(Debug, Clone, PartialEq, Eq)]
pub struct AppInfo {
    pub name: String,
    pub version: String,
    pub description: String,
}

/// What is needed to create a project.
#[derive(Debug, Clone, PartialEq, Eq)]
pub struct ProjectData {
    pub name: String,
    pub budget: Number,
    pub property_type: String,
    pub property_class: String,
    pub description: Option<String>,
    pub floors: Option<u32>,
    pub sqft: Option<Number>,
    pub address: Option<String>,
}

/// What can be changed on a project. The property type and class are
/// fixed at creation and are not offered here.
#[derive(Debug, Clone, PartialEq, Eq)]
pub struct UpdateProjectData {
    pub name: Option<String>,
    pub budget: Option<Number>,
    pub description: Option<String>,
    pub floors: Option<u32>,
    pub sqft: Option<Number>,
    pub address: Option<String>,
}

/// What is needed to add a room.
#[derive(Debug, Clone, PartialEq, Eq)]
pub struct RoomData {
    pub name: String,
    pub floor: u32,
    pub length: Option<Number>,
    pub width: Option<Number>,
    pub height: Option<Number>,
    pub condition: Option<u32>,
    pub notes: Option<String>,
}

/// What is needed to add an expense.
#[derive(Debug, Clone, PartialEq, Eq)]
pub struct ExpenseData {
    pub room_name: String,
    pub category: String,
    pub cost: Number,
    pub hours: Option<Number>,
    pub condition: Option<u32>,
    pub notes: Option<String>,
}

/// What can be changed on a room.
#[derive(Debug, Clone, PartialEq, Eq)]
pub struct RoomUpdate {
    pub name: Option<String>,
    pub length: Option<Number>,
    pub width: Option<Number>,
    pub height: Option<Number>,
    pub condition: Option<i64>,
    pub notes: Option<String>,
}

/// What can be changed on an expense.
#[derive(Debug, Clone, PartialEq, Eq)]
pub struct ExpenseUpdate {
    pub room_name: Option<String>,
    pub category: Option<String>,
    pub cost: Option<Number>,
    pub hours: Option<Number>,
    pub condition: Option<i64>,
    pub notes: Option<String>,
}

/// A request together with the words that introduce its failure.
#[derive(Debug, Clone, PartialEq, Eq)]
pub struct Operation {
    pub request: OperationRequest,
    pub failure_context: String,
}

/// Mathematical content of an [`Operation`].
pub struct OperationView {
    pub request: RequestView,
    pub failure_context: Seq<char>,
}

impl View for Operation {
    type V = OperationView;

    open spec fn view(&self) -> OperationView {
        OperationView { request: self.request@, failure_context: self.failure_context@ }
    }
}

/// The message of a failed operation: its context, a colon and the
/// message of the failure.
pub open spec fn failure_text(context: Seq<char>, error: Seq<char>) -> Seq<char> {
    context + ": "@ + error
}

impl Operation {
    /// The argument vector of the operation's request.
    pub fn argv(&self) -> (argv: Vec<String>)
        ensures
            texts(argv@) == argv_of(self@.request),
    {
        build(&self.request)
    }

    /// The single message under which `error` surfaces to the caller.
    pub fn failure_message(&self, error: &BridgeError) -> (text: String)
        ensures
            text@ == failure_text(self@.failure_context, error_message(error@)),
    {
        let head = join_text(self.failure_context.as_str(), ": ");
        let detail = error.message();
        join_text(head.as_str(), detail.as_str())
    }
}

/// An operation made of its parts.
pub open spec fn operation_view(
    subject: Seq<char>,
    verb: Option<Seq<char>>,
    positional: Seq<Seq<char>>,
    optional: Seq<FieldView>,
    failure_context: Seq<char>,
) -> OperationView {
    OperationView { request: RequestView { subject, verb, positional, optional }, failure_context }
}

fn operation(
    subject: &str,
    verb: &str,
    positional: Vec<String>,
    optional: Vec<OptionalField>,
    failure_context: String,
) -> (op: Operation)
    ensures
        op@ == operation_view(
            subject@,
            Some(verb@),
            texts(positional@),
            field_views(optional@),
            failure_context@,
        ),
{
    Operation {
        request: OperationRequest {
            subject: subject.to_owned(),
            verb: Some(verb.to_owned()),
            positional,
            optional,
        },
        failure_context,
    }
}

/// `words` followed by the decimal text of `id`.
fn numbered(words: &str, id: u32) -> (text: String)
    ensures
        text@ == words@ + nat_digits(id as nat),
{
    let digits = u32_text(id);
    join_text(words, digits.as_str())
}

fn no_fields() -> (fields: Vec<OptionalField>)
    ensures
        field_views(fields@) == Seq::<FieldView>::empty(),
{
    let fields: Vec<OptionalField> = Vec::new();
    assert(field_views(fields@) == Seq::<FieldView>::empty());
    fields
}

fn tokens1(a: String) -> (tokens: Vec<String>)
    ensures
        texts(tokens@) == seq![a@],
{
    let tokens = vec![a];
    assert(texts(tokens@) == seq![a@]);
    tokens
}

fn tokens2(a: String, b: String) -> (tokens: Vec<String>)
    ensures
        texts(tokens@) == seq![a@, b@],
{
    let tokens = vec![a, b];
    assert(texts(tokens@) == seq![a@, b@]);
    tokens
}

fn tokens3(a: String, b: String, c: String) -> (tokens: Vec<String>)
    ensures
        texts(tokens@) == seq![a@, b@, c@],
{
    let tokens = vec![a, b, c];
    assert(texts(tokens@) == seq![a@, b@, c@]);
    tokens
}

fn tokens4(a: String, b: String, c: String, d: String) -> (tokens: Vec<String>)
    ensures
        texts(tokens@) == seq![a@, b@, c@, d@],
{
    let tokens = vec![a, b, c, d];
    assert(texts(tokens@) == seq![a@, b@, c@, d@]);
    tokens
}

/// Returns the fixed application description.
pub fn get_app_info() -> (info: AppInfo)
    ensures
        info.name@ == "Real Estate Tracker"@,
        info.version@ == "0.2.0"@,
        info.description@ == "Professional house flipping budget tracker"@,
{
    AppInfo {
        name: "Real Estate Tracker".to_owned(),
        version: "0.2.0".to_owned(),
        description: "Professional house flipping budget tracker".to_owned(),
    }
}

/// `init`: sets up the backend's database.
pub open spec fn initialize_database_view() -> OperationView {
    OperationView {
        request: RequestView {
            subject: "init"@,
            verb: None,
            positional: Seq::empty(),
            optional: Seq::empty(),
        },
        failure_context: "Database initialization failed"@,
    }
}

/// Initialises the database.
pub fn initialize_database() -> (op: Operation)
    ensures
        op@ == initialize_database_view(),
{
    let positional: Vec<String> = Vec::new();
    assert(texts(positional@) == Seq::<Seq<char>>::empty());
    Operation {
        request: OperationRequest {
            subject: "init".to_owned(),
            verb: None,
            positional,
            optional: no_fields(),
        },
        failure_context: "Database initialization failed".to_owned(),
    }
}

/// `project list`.
pub open spec fn get_projects_view() -> OperationView {
    operation_view(
        "project"@,
        Some("list"@),
        Seq::empty(),
        Seq::empty(),
        "Failed to get projects"@,
    )
}

/// Lists all projects.
pub fn get_projects() -> (op: Operation)
    ensures
        op@ == get_projects_view(),
{
    let positional: Vec<String> = Vec::new();
    assert(texts(positional@) == Seq::<Seq<char>>::empty());
    operation("project", "list", positional, no_fields(), "Failed to get projects".to_owned())
}

/// `project show <id>`.
pub open spec fn get_project_view(project_id: u32) -> OperationView {
    operation_view(
        "project"@,
        Some("show"@),
        seq![nat_digits(project_id as nat)],
        Seq::empty(),
        "Failed to get project "@ + nat_digits(project_id as nat),
    )
}

/// Shows one project.
pub fn get_project(project_id: u32) -> (op: Operation)
    ensures
        op@ == get_project_view(project_id),
{
    operation(
        "project",
        "show",
        tokens1(u32_text(project_id)),
        no_fields(),
        numbered("Failed to get project ", project_id),
    )
}

/// `project create <name> <budget> <type> <class>` with the optional
/// description, floors, square footage and address.
pub open spec fn create_project_view(data: ProjectData) -> OperationView {
    operation_view(
        "project"@,
        Some("create"@),
        seq![data.name@, data.budget.text(), data.property_type@, data.property_class@],
        seq![
            text_field_view("--description"@, data.description),
            count_field_view("--floors"@, data.floors),
            number_field_view("--sqft"@, data.sqft),
            text_field_view("--address"@, data.address),
        ],
        "Failed to create project"@,
    )
}

/// Creates a project.
pub fn create_project(data: &ProjectData) -> (op: Operation)
    ensures
        op@ == create_project_view(*data),
{
    let positional = tokens4(
        data.name.clone(),
        data.budget.render(),
        data.property_type.clone(),
        data.property_class.clone(),
    );
    let optional = vec![
        text_field("--description", &data.description),
        count_field("--floors", data.floors),
        number_field("--sqft", &data.sqft),
        text_field("--address", &data.address),
    ];
    assert(field_views(optional@) == seq![
        text_field_view("--description"@, data.description),
        count_field_view("--floors"@, data.floors),
        number_field_view("--sqft"@, data.sqft),
        text_field_view("--address"@, data.address),
    ]);
    operation("project", "create", positional, optional, "Failed to create project".to_owned())
}

/// `project update <id>` with the optional name, budget, description,
/// floors, square footage and address. Type and class are not offered.
pub open spec fn update_project_view(project_id: u32, data: UpdateProjectData) -> OperationView {
    operation_view(
        "project"@,
        Some("update"@),
        seq![nat_digits(project_id as nat)],
        seq![
            text_field_view("--name"@, data.name),
            number_field_view("--budget"@, data.budget),
            text_field_view("--description"@, data.description),
            count_field_view("--floors"@, data.floors),
            number_field_view("--sqft"@, data.sqft),
            text_field_view("--address"@, data.address),
        ],
        "Failed to update project "@ + nat_digits(project_id as nat),
    )
}

/// Updates a project.
pub fn update_project(project_id: u32, data: &UpdateProjectData) -> (op: Operation)
    ensures
        op@ == update_project_view(project_id, *data),
{
    let optional = vec![
        text_field("--name", &data.name),
        number_field("--budget", &data.budget),
        text_field("--description", &data.description),
        count_field("--floors", data.floors),
        number_field("--sqft", &data.sqft),
        text_field("--address", &data.address),
    ];
    assert(field_views(optional@) == seq![
        text_field_view("--name"@, data.name),
        number_field_view("--budget"@, data.budget),
        text_field_view("--description"@, data.description),
        count_field_view("--floors"@, data.floors),
        number_field_view("--sqft"@, data.sqft),
        text_field_view("--address"@, data.address),
    ]);
    operation(
        "project",
        "update",
        tokens1(u32_text(project_id)),
        optional,
        numbered("Failed to update project ", project_id),
    )
}

/// `project delete <id> --force`.
pub open spec fn delete_project_view(project_id: u32) -> OperationView {
    operation_view(
        "project"@,
        Some("delete"@),
        seq![nat_digits(project_id as nat), "--force"@],
        Seq::empty(),
        "Failed to delete project "@ + nat_digits(project_id as nat),
    )
}

/// Deletes a project without asking back.
pub fn delete_project(project_id: u32) -> (op: Operation)
    ensures
        op@ == delete_project_view(project_id),
{
    operation(
        "project",
        "delete",
        tokens2(u32_text(project_id), "--force".to_owned()),
        no_fields(),
        numbered("Failed to delete project ", project_id),
    )
}

/// `room list <id>`.
pub open spec fn get_rooms_view(project_id: u32) -> OperationView {
    operation_view(
        "room"@,
        Some("list"@),
        seq![nat_digits(project_id as nat)],
        Seq::empty(),
        "Failed to get rooms for project "@ + nat_digits(project_id as nat),
    )
}

/// Lists the rooms of a project.
pub fn get_rooms(project_id: u32) -> (op: Operation)
    ensures
        op@ == get_rooms_view(project_id),
{
    operation(
        "room",
        "list",
        tokens1(u32_text(project_id)),
        no_fields(),
        numbered("Failed to get rooms for project ", project_id),
    )
}

/// `room add <id> <name> <floor>` with the optional length, width,
/// height, condition and notes.
pub open spec fn add_room_view(project_id: u32, data: RoomData) -> OperationView {
    operation_view(
        "room"@,
        Some("add"@),
        seq![nat_digits(project_id as nat), data.name@, nat_digits(data.floor as nat)],
        seq![
            number_field_view("--length"@, data.length),
            number_field_view("--width"@, data.width),
            number_field_view("--height"@, data.height),
            count_field_view("--condition"@, data.condition),
            text_field_view("--notes"@, data.notes),
        ],
        "Failed to add room"@,
    )
}

/// Adds a room to a project.
pub fn add_room(project_id: u32, data: &RoomData) -> (op: Operation)
    ensures
        op@ == add_room_view(project_id, *data),
{
    let positional = tokens3(u32_text(project_id), data.name.clone(), u32_text(data.floor));
    let optional = vec![
        number_field("--length", &data.length),
        number_field("--width", &data.width),
        number_field("--height", &data.height),
        count_field("--condition", data.condition),
        text_field("--notes", &data.notes),
    ];
    assert(field_views(optional@) == seq![
        number_field_view("--length"@, data.length),
        number_field_view("--width"@, data.width),
        number_field_view("--height"@, data.height),
        count_field_view("--condition"@, data.condition),
        text_field_view("--notes"@, data.notes),
    ]);
    operation("room", "add", positional, optional, "Failed to add room".to_owned())
}

/// `room delete <id> <name> --force`.
pub open spec fn delete_room_view(project_id: u32, room_name: Seq<char>) -> OperationView {
    operation_view(
        "room"@,
        Some("delete"@),
        seq![nat_digits(project_id as nat), room_name, "--force"@],
        Seq::empty(),
        "Failed to delete room "@ + room_name,
    )
}

/// Deletes a room without asking back.
pub fn delete_room(project_id: u32, room_name: &str) -> (op: Operation)
    ensures
        op@ == delete_room_view(project_id, room_name@),
{
    operation(
        "room",
        "delete",
        tokens3(u32_text(project_id), room_name.to_owned(), "--force".to_owned()),
        no_fields(),
        join_text("Failed to delete room ", room_name),
    )
}

/// `expense list <id>`.
pub open spec fn get_expenses_view(project_id: u32) -> OperationView {
    operation_view(
        "expense"@,
        Some("list"@),
        seq![nat_digits(project_id as nat)],
        Seq::empty(),
        "Failed to get expenses for project "@ + nat_digits(project_id as nat),
    )
}

/// Lists the expenses of a project.
pub fn get_expenses(project_id: u32) -> (op: Operation)
    ensures
        op@ == get_expenses_view(project_id),
{
    operation(
        "expense",
        "list",
        tokens1(u32_text(project_id)),
        no_fields(),
        numbered("Failed to get expenses for project ", project_id),
    )
}

/// `expense add <id> <room> <category> <cost>` with the optional hours,
/// condition and notes. Hours that are not greater than zero and notes
/// that are blank are left out.
pub open spec fn add_expense_view(project_id: u32, data: ExpenseData) -> OperationView {
    operation_view(
        "expense"@,
        Some("add"@),
        seq![nat_digits(project_id as nat), data.room_name@, data.category@, data.cost.text()],
        seq![
            positive_number_field_view("--hours"@, data.hours),
            count_field_view("--condition"@, data.condition),
            non_blank_field_view("--notes"@, data.notes),
        ],
        "Failed to add expense"@,
    )
}

/// Adds an expense to a project.
pub fn add_expense(project_id: u32, data: &ExpenseData) -> (op: Operation)
    ensures
        op@ == add_expense_view(project_id, *data),
{
    let positional = tokens4(
        u32_text(project_id),
        data.room_name.clone(),
        data.category.clone(),
        data.cost.render(),
    );
    let optional = vec![
        positive_number_field("--hours", &data.hours),
        count_field("--condition", data.condition),
        non_blank_field("--notes", &data.notes),
    ];
    assert(field_views(optional@) == seq![
        positive_number_field_view("--hours"@, data.hours),
        count_field_view("--condition"@, data.condition),
        non_blank_field_view("--notes"@, data.notes),
    ]);
    operation("expense", "add", positional, optional, "Failed to add expense".to_owned())
}

/// `expense delete <id> --force`.
pub open spec fn delete_expense_view(expense_id: u32) -> OperationView {
    operation_view(
        "expense"@,
        Some("delete"@),
        seq![nat_digits(expense_id as nat), "--force"@],
        Seq::empty(),
        "Failed to delete expense "@ + nat_digits(expense_id as nat),
    )
}

/// Deletes an expense without asking back.
pub fn delete_expense(expense_id: u32) -> (op: Operation)
    ensures
        op@ == delete_expense_view(expense_id),
{
    operation(
        "expense",
        "delete",
        tokens2(u32_text(expense_id), "--force".to_owned()),
        no_fields(),
        numbered("Failed to delete expense ", expense_id),
    )
}

/// `room update <id> <room>` with the optional new name, length, width,
/// height, condition and notes.
pub open spec fn update_room_view(
    project_id: u32,
    room_name: Seq<char>,
    data: RoomUpdate,
) -> OperationView {
    operation_view(
        "room"@,
        Some("update"@),
        seq![nat_digits(project_id as nat), room_name],
        seq![
            text_field_view("--name"@, data.name),
            number_field_view("--length"@, data.length),
            number_field_view("--width"@, data.width),
            number_field_view("--height"@, data.height),
            integer_field_view("--condition"@, data.condition),
            text_field_view("--notes"@, data.notes),
        ],
        "Failed to update room "@ + room_name,
    )
}

/// Updates a room.
pub fn update_room(project_id: u32, room_name: &str, data: &RoomUpdate) -> (op: Operation)
    ensures
        op@ == update_room_view(project_id, room_name@, *data),
{
    let optional = vec![
        text_field("--name", &data.name),
        number_field("--length", &data.length),
        number_field("--width", &data.width),
        number_field("--height", &data.height),
        integer_field("--condition", data.condition),
        text_field("--notes", &data.notes),
    ];
    assert(field_views(optional@) == seq![
        text_field_view("--name"@, data.name),
        number_field_view("--length"@, data.length),
        number_field_view("--width"@, data.width),
        number_field_view("--height"@, data.height),
        integer_field_view("--condition"@, data.condition),
        text_field_view("--notes"@, data.notes),
    ]);
    operation(
        "room",
        "update",
        tokens2(u32_text(project_id), room_name.to_owned()),
        optional,
        join_text("Failed to update room ", room_name),
    )
}

/// `expense update <id>` with the optional room, category, cost, hours,
/// condition and notes.
pub open spec fn update_expense_view(expense_id: u32, data: ExpenseUpdate) -> OperationView {
    operation_view(
        "expense"@,
        Some("update"@),
        seq![nat_digits(expense_id as nat)],
        seq![
            text_field_view("--room"@, data.room_name),
            text_field_view("--category"@, data.category),
            number_field_view("--cost"@, data.cost),
            number_field_view("--hours"@, data.hours),
            integer_field_view("--condition"@, data.condition),
            text_field_view("--notes"@, data.notes),
        ],
        "Failed to update expense "@ + nat_digits(expense_id as nat),
    )
}

/// Updates an expense.
pub fn update_expense(expense_id: u32, data: &ExpenseUpdate) -> (op: Operation)
    ensures
        op@ == update_expense_view(expense_id, *data),
{
    let optional = vec![
        text_field("--room", &data.room_name),
        text_field("--category", &data.category),
        number_field("--cost", &data.cost),
        number_field("--hours", &data.hours),
        integer_field("--condition", data.condition),
        text_field("--notes", &data.notes),
    ];
    assert(field_views(optional@) == seq![
        text_field_view("--room"@, data.room_name),
        text_field_view("--category"@, data.category),
        number_field_view("--cost"@, data.cost),
        number_field_view("--hours"@, data.hours),
        integer_field_view("--condition"@, data.condition),
        text_field_view("--notes"@, data.notes),
    ]);
    operation(
        "expense",
        "update",
        tokens1(u32_text(expense_id)),
        optional,
        numbered("Failed to update expense ", expense_id),
    )
}

/// `budget status <id>`.
pub open spec fn get_budget_status_view(project_id: u32) -> OperationView {
    operation_view(
        "budget"@,
        Some("status"@),
        seq![nat_digits(project_id as nat)],
        Seq::empty(),
        "Failed to get budget status for project "@ + nat_digits(project_id as nat),
    )
}

/// Asks for the budget status of a project.
pub fn get_budget_status(project_id: u32) -> (op: Operation)
    ensures
        op@ == get_budget_status_view(project_id),
{
    operation(
        "budget",
        "status",
        tokens1(u32_text(project_id)),
        no_fields(),
        numbered("Failed to get budget status for project ", project_id),
    )
}

/// `export csv <id>`.
pub open spec fn export_project_view(project_id: u32) -> OperationView {
    operation_view(
        "export"@,
        Some("csv"@),
        seq![nat_digits(project_id as nat)],
        Seq::empty(),
        "Failed to export project "@ + nat_digits(project_id as nat),
    )
}

/// Exports a project. Only the format `csv` is supported; any other
/// format is refused.
pub fn export_project(project_id: u32, format: &str) -> (r: Result<Operation, BridgeError>)
    ensures
        format@ == "csv"@ ==> (r matches Ok(op) && op@ == export_project_view(project_id)),
        format@ != "csv"@ ==> (r matches Err(e) && e == BridgeError::UnsupportedExportFormat),
{
    if !same_text(format, "csv") {
        return Err(BridgeError::UnsupportedExportFormat);
    }
    Ok(
        operation(
            "export",
            "csv",
            tokens1(u32_text(project_id)),
            no_fields(),
            numbered("Failed to export project ", project_id),
        ),
    )
}

/// `project update <id> --status <status>`.
pub open spec fn update_project_status_view(project_id: u32, status: Seq<char>) -> OperationView {
    operation_view(
        "project"@,
        Some("update"@),
        seq![nat_digits(project_id as nat)],
        seq![FieldView { flag: "--status"@, value: Some(status) }],
        "Failed to update project status"@,
    )
}

/// Sets the status of a project.
pub fn update_project_status(project_id: u32, status: &str) -> (op: Operation)
    ensures
        op@ == update_project_status_view(project_id, status@),
{
    let optional = vec![
        OptionalField { flag: "--status".to_owned(), value: Some(status.to_owned()) },
    ];
    assert(field_views(optional@) == seq![FieldView { flag: "--status"@, value: Some(status@) }]);
    operation(
        "project",
        "update",
        tokens1(u32_text(project_id)),
        optional,
        "Failed to update project status".to_owned(),
    )
}

/// `project update <id> --priority <priority>`.
pub open spec fn update_project_priority_view(
    project_id: u32,
    priority: Seq<char>,
) -> OperationView {
    operation_view(
        "project"@,
        Some("update"@),
        seq![nat_digits(project_id as nat)],
        seq![FieldView { flag: "--priority"@, value: Some(priority) }],
        "Failed to update project priority"@,
    )
}

/// Sets the priority of a project.
pub fn update_project_priority(project_id: u32, priority: &str) -> (op: Operation)
    ensures
        op@ == update_project_priority_view(project_id, priority@),
{
    let optional = vec![
        OptionalField { flag: "--priority".to_owned(), value: Some(priority.to_owned()) },
    ];
    assert(field_views(optional@) == seq![
        FieldView { flag: "--priority"@, value: Some(priority@) },
    ]);
    operation(
        "project",
        "update",
        tokens1(u32_text(project_id)),
        optional,
        "Failed to update project priority".to_owned(),
    )
}

/// `expense list --all`.
pub open spec fn get_all_expenses_view() -> OperationView {
    operation_view(
        "expense"@,
        Some("list"@),
        seq!["--all"@],
        Seq::empty(),
        "Failed to get all expenses"@,
    )
}

/// Lists the expenses of all projects.
pub fn get_all_expenses() -> (op: Operation)
    ensures
        op@ == get_all_expenses_view(),
{
    operation(
        "expense",
        "list",
        tokens1("--all".to_owned()),
        no_fields(),
        "Failed to get all expenses".to_owned(),
    )
}

/// The expense that the self-test adds: material for the living room at
/// a cost of 100, condition 3, no hours.
pub fn sample_expense() -> (data: ExpenseData)
    ensures
        data.room_name@ == "Living Room"@,
        data.category@ == "material"@,
        data.cost.well_formed(),
        data.cost.text() == nat_digits(100),
        data.hours is None,
        data.condition == Some(3u32),
        data.notes matches Some(n) && n@ == "Test expense from Tauri"@,
{
    ExpenseData {
        room_name: "Living Room".to_owned(),
        category: "material".to_owned(),
        cost: Number::Finite(Decimal::from_u64(100)),
        hours: None,
        condition: Some(3),
        notes: Some("Test expense from Tauri".to_owned()),
    }
}

/// Adds the sample expense to project 1.
pub fn test_expense_add() -> (op: Operation)
    ensures
        op@.request.subject == "expense"@,
        op@.request.verb == Some("add"@),
        op@.request.positional == seq![
            nat_digits(1),
            "Living Room"@,
            "material"@,
            nat_digits(100),
        ],
        op@.request.optional == seq![
            FieldView { flag: "--hours"@, value: None },
            FieldView { flag: "--condition"@, value: Some(nat_digits(3)) },
            FieldView { flag: "--notes"@, value: Some("Test expense from Tauri"@) },
        ],
        op@.failure_context == "Failed to add expense"@,
{
    let data = sample_expense();
    proof {
        reveal_strlit("Test expense from Tauri");
        let notes = "Test expense from Tauri"@;
        assert(!is_whitespace(notes.first()));
        assert(!is_whitespace(notes.last()));
        assert(trimmed(notes) == notes);
    }
    add_expense(1, &data)
}

} // verus!
