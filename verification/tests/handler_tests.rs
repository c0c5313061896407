use inventory_http::controller::{handle_transfer_add, handle_transfer_edit, handle_transfer_table,
    handle_welcome, read_transfer, TransferForm};
use inventory_http::date::Date;
use inventory_http::employee_controller::{handle_employee_add, handle_employee_delete,
    handle_employee_edit, handle_employee_table, handle_employee_tech, handle_view_employee_tech,
    read_employee, EmployeeFault};
use inventory_http::form::{parse_form_data, FormData};
use inventory_http::model::{Employee, Room, Tech, TechEmployee, TechUnit, Transfer,
    TransferDetails, TransferUnit, Unit};
use inventory_http::number::IntError;
use inventory_http::pages::{Message, MessageKind, Page, Session};
use inventory_http::response::{Location, Response, Status};
use inventory_http::store::{failure, failure_of, get_field, refusal, show, Answer, Query, Step};
use inventory_http::tech_controller::{handle_tech_add, handle_tech_delete, handle_tech_edit,
    handle_tech_table, read_tech};
use inventory_http::unit_controller::{handle_unit_add, handle_unit_delete, handle_unit_edit,
    handle_unit_table, handle_unit_tech, handle_view_unit_tech, read_unit};

fn body(payload: &str) -> Option<FormData> {
    Some(parse_form_data(payload))
}

fn refused() -> Step {
    Step::Reply(Response {
        status: Status::MethodNotAllowed,
        page: Page::Error {
            title: "Method not allowed".to_string(),
            error_name: "Method not allowed".to_string(),
        },
    })
}

fn failed(reason: &str) -> Step {
    Step::Reply(Response {
        status: Status::InternalServerError,
        page: Page::Error { title: "Internal server error".to_string(), error_name: reason.to_string() },
    })
}

fn shown(page: Page) -> Step {
    Step::Reply(Response { status: Status::Okay, page })
}

fn redirected(uri: &str) -> Step {
    Step::Reply(Response { status: Status::Found(Location { uri: uri.to_string() }), page: Page::Empty })
}

fn note(text: &str, kind: MessageKind) -> Message {
    Message { kind, content: text.to_string() }
}

fn blank() -> Message {
    note("", MessageKind::Blank)
}

fn drill() -> Tech {
    Tech::new(5, "Drill", "X1", "2024-01-01", 99)
}

fn lab() -> Unit {
    Unit::new(3, "Laboratory", "Lab")
}

fn ann() -> Employee {
    Employee::new("Ann", "B", "Clark", false, true, "Keeper", 2)
}

fn lists() -> Vec<Answer> {
    vec![
        Answer::TechList(vec![drill()]),
        Answer::Units(vec![lab()]),
        Answer::Rooms(vec![Room::new(1, 20)]),
    ]
}

fn stored_transfer() -> TransferUnit {
    TransferUnit { inner: Transfer::from_row(Some(7), day(), Some(1), Some(2), Some(3)), unit_id: 4 }
}

fn day() -> Date {
    Date { year: 2024, month: 3, day: 9 }
}

#[test]
fn store_replies() {
    assert_eq!(refusal(), refused());
    assert_eq!(failure("why"), failed("why"));
    assert_eq!(failure_of(&Answer::Failed("db down".to_string())), failed("db down"));
    assert_eq!(failure_of(&Answer::Done), failed("Unexpected answer from the store"));
    assert_eq!(show(Page::Welcome), shown(Page::Welcome));
}

#[test]
fn field_of_a_body() {
    let b = body("a=1&b=");
    assert_eq!(get_field(&b, "a"), Some("1"));
    assert_eq!(get_field(&b, "b"), Some(""));
    assert_eq!(get_field(&b, "c"), None);
    assert_eq!(get_field(&None, "a"), None);
}

#[test]
fn welcome_only_for_get() {
    assert_eq!(handle_welcome("GET"), shown(Page::Welcome));
    assert_eq!(handle_welcome("POST"), refused());
    assert_eq!(handle_welcome("PUT"), refused());
    assert_eq!(handle_welcome("get"), refused());
}

#[test]
fn tech_table_asks_then_shows() {
    let mut answers = Vec::new();
    assert_eq!(handle_tech_table("GET", &mut answers), Step::Ask(Query::TechAll));
    assert!(answers.is_empty());
    answers.push(Answer::TechList(vec![drill()]));
    assert_eq!(handle_tech_table("GET", &mut answers), shown(Page::TechTable(vec![drill()])));
}

#[test]
fn tech_table_failure_and_refusal() {
    let mut answers = vec![Answer::Failed("connection refused".to_string())];
    assert_eq!(handle_tech_table("GET", &mut answers), failed("connection refused"));
    let mut answers = vec![Answer::Units(vec![])];
    assert_eq!(handle_tech_table("GET", &mut answers), failed("Unexpected answer from the store"));
    let mut answers = Vec::new();
    assert_eq!(handle_tech_table("POST", &mut answers), refused());
    assert_eq!(handle_tech_table("PUT", &mut answers), refused());
}

#[test]
fn other_tables() {
    let mut answers = Vec::new();
    assert_eq!(handle_unit_table("GET", &mut answers), Step::Ask(Query::UnitAll));
    answers.push(Answer::Units(vec![lab()]));
    assert_eq!(handle_unit_table("GET", &mut answers), shown(Page::UnitTable(vec![lab()])));
    let mut answers = Vec::new();
    assert_eq!(handle_unit_tech("GET", &mut answers), Step::Ask(Query::UnitAll));
    answers.push(Answer::Units(vec![lab()]));
    assert_eq!(handle_unit_tech("GET", &mut answers), shown(Page::UnitView(vec![lab()])));
    let mut answers = Vec::new();
    assert_eq!(handle_employee_table("GET", &mut answers), Step::Ask(Query::EmployeeAll));
    answers.push(Answer::Employees(vec![ann()]));
    assert_eq!(handle_employee_table("GET", &mut answers), shown(Page::EmployeeTable(vec![ann()])));
    let mut answers = Vec::new();
    assert_eq!(handle_employee_tech("GET", &mut answers), Step::Ask(Query::EmployeeAll));
    answers.push(Answer::Employees(vec![ann()]));
    assert_eq!(handle_employee_tech("GET", &mut answers), shown(Page::EmployeeView(vec![ann()])));
    let mut answers = Vec::new();
    assert_eq!(handle_transfer_table("GET", &mut answers), Step::Ask(Query::TransferDetailed));
    let details = || TransferDetails { id: 1, transfer_date: day(), tech: Some(drill()), room: None, employee: None, unit: None };
    answers.push(Answer::Details(vec![details()]));
    assert_eq!(handle_transfer_table("GET", &mut answers), shown(Page::TransferTable(vec![details()])));
    for method in ["POST", "PUT", "DELETE", ""] {
        let mut answers = Vec::new();
        assert_eq!(handle_unit_table(method, &mut answers), refused());
        assert_eq!(handle_unit_tech(method, &mut answers), refused());
        assert_eq!(handle_employee_table(method, &mut answers), refused());
        assert_eq!(handle_employee_tech(method, &mut answers), refused());
        assert_eq!(handle_transfer_table(method, &mut answers), refused());
    }
}

#[test]
fn read_tech_form() {
    let full = body("inventory_number=5&name=Drill&model=X1&acquisition_date=2024-01-01&price=99");
    assert_eq!(read_tech(&full), Some(Ok(drill())));
    assert_eq!(read_tech(&None), None);
    assert_eq!(read_tech(&body("inventory_number=5")), None);
    assert_eq!(read_tech(&body("price=x")), Some(Err(IntError::InvalidDigit)));
    assert_eq!(read_tech(&body("price=")), Some(Err(IntError::Empty)));
    assert_eq!(read_tech(&body("price=1")), None);
    assert_eq!(read_tech(&body("price=1&inventory_number=99999999999")), Some(Err(IntError::PosOverflow)));
    assert_eq!(read_tech(&body("price=1&inventory_number=-99999999999")), Some(Err(IntError::NegOverflow)));
    assert_eq!(read_tech(&body("price=1&inventory_number=2&name=a&model=b")), None);
    assert_eq!(read_tech(&body("price=1&inventory_number=2&name=a&model=b&acquisition_date=soon")), None);
}

#[test]
fn tech_add_flow() {
    let form = body("inventory_number=5&name=Drill&model=X1&acquisition_date=2024-01-01&price=99");
    let mut answers = Vec::new();
    assert_eq!(handle_tech_add("GET", &None, &mut answers), Some(shown(Page::TechAdd(blank()))));
    assert_eq!(handle_tech_add("POST", &form, &mut answers), Some(Step::Ask(Query::TechInsert(drill()))));
    answers.push(Answer::Inserted(12));
    assert_eq!(
        handle_tech_add("POST", &form, &mut answers),
        Some(shown(Page::TechAdd(note("Added tech", MessageKind::Notify))))
    );
    let mut answers = vec![Answer::Failed("duplicate key".to_string())];
    assert_eq!(
        handle_tech_add("POST", &form, &mut answers),
        Some(shown(Page::TechAdd(note("Failed to add tech", MessageKind::Error))))
    );
}

#[test]
fn tech_add_faults() {
    let mut answers = Vec::new();
    assert_eq!(handle_tech_add("PUT", &None, &mut answers), Some(refused()));
    assert_eq!(handle_tech_add("POST", &None, &mut answers), None);
    assert_eq!(handle_tech_add("POST", &body("price=1"), &mut answers), None);
    assert_eq!(
        handle_tech_add("POST", &body("price=abc&inventory_number=1"), &mut answers),
        Some(failed("invalid digit found in string"))
    );
    assert_eq!(
        handle_tech_add("POST", &body("price=1&inventory_number="), &mut answers),
        Some(failed("cannot parse integer from empty string"))
    );
    assert_eq!(
        handle_tech_add("POST", &body("price=3000000000"), &mut answers),
        Some(failed("number too large to fit in target type"))
    );
    assert_eq!(
        handle_tech_add("POST", &body("price=-3000000000"), &mut answers),
        Some(failed("number too small to fit in target type"))
    );
}

#[test]
fn tech_edit_flow() {
    let form = body("inventory_number=5&name=Drill&model=X1&acquisition_date=2024-01-01&price=99");
    let stored = || Tech::from_row(Some(42), 1, "Old".into(), "O1".into(), Date { year: 2020, month: 2, day: 2 }, 10);
    let mut answers = Vec::new();
    assert_eq!(handle_tech_edit("GET", "/edit-tech/42", &None, &mut answers), Some(Step::Ask(Query::TechById(42))));
    answers.push(Answer::TechItem(stored()));
    assert_eq!(
        handle_tech_edit("GET", "/edit-tech/42", &None, &mut answers),
        Some(shown(Page::TechEdit(stored(), blank())))
    );
    let edited = || Tech::from_row(Some(42), 5, "Drill".into(), "X1".into(), Date { year: 2024, month: 1, day: 1 }, 99);
    let mut answers = vec![Answer::TechItem(stored())];
    assert_eq!(
        handle_tech_edit("POST", "/edit-tech/42?x=1", &form, &mut answers),
        Some(Step::Ask(Query::TechUpdate(edited())))
    );
    assert_eq!(answers.len(), 1);
    answers.push(Answer::Failed("ignored".to_string()));
    assert_eq!(
        handle_tech_edit("POST", "/edit-tech/42?x=1", &form, &mut answers),
        Some(shown(Page::TechEdit(edited(), note("Updated tech", MessageKind::Notify))))
    );
}

#[test]
fn tech_edit_faults() {
    let mut answers = Vec::new();
    assert_eq!(
        handle_tech_edit("GET", "/edit-tech/abc", &None, &mut answers),
        Some(failed("Couldn't get arguments from url"))
    );
    let mut answers = vec![Answer::Failed("no such row".to_string())];
    assert_eq!(handle_tech_edit("GET", "/edit-tech/1", &None, &mut answers), Some(failed("no such row")));
    let mut answers = vec![Answer::TechItem(drill())];
    assert_eq!(handle_tech_edit("PUT", "/edit-tech/1", &None, &mut answers), Some(refused()));
    let mut answers = vec![Answer::TechItem(drill())];
    assert_eq!(handle_tech_edit("POST", "/edit-tech/1", &None, &mut answers), None);
    let mut answers = vec![Answer::TechItem(drill())];
    assert_eq!(
        handle_tech_edit("POST", "/edit-tech/1", &body("price=x"), &mut answers),
        Some(failed("invalid digit found in string"))
    );
}

#[test]
fn delete_flows() {
    let mut answers = Vec::new();
    assert_eq!(handle_tech_delete("POST", "/delete-tech/3", &mut answers), Step::Ask(Query::TechDelete(3)));
    answers.push(Answer::Done);
    assert_eq!(handle_tech_delete("POST", "/delete-tech/3", &mut answers), redirected("/tech"));
    let mut answers = Vec::new();
    assert_eq!(handle_unit_delete("POST", "/delete-unit/4", &mut answers), Step::Ask(Query::UnitDelete(4)));
    answers.push(Answer::Done);
    assert_eq!(handle_unit_delete("POST", "/delete-unit/4", &mut answers), redirected("/unit"));
    let mut answers = Vec::new();
    assert_eq!(
        handle_employee_delete("POST", "/delete-employee/5", &mut answers),
        Step::Ask(Query::EmployeeDelete(5))
    );
    answers.push(Answer::Done);
    assert_eq!(handle_employee_delete("POST", "/delete-employee/5", &mut answers), redirected("/employee"));
}

#[test]
fn delete_faults() {
    let mut answers = Vec::new();
    assert_eq!(handle_tech_delete("GET", "/delete-tech/3", &mut answers), refused());
    assert_eq!(handle_tech_delete("GET", "/delete-tech/abc", &mut answers), refused());
    assert_eq!(handle_tech_delete("POST", "/delete-tech/abc", &mut answers), failed("Couldn't get arguments from url"));
    assert_eq!(handle_unit_delete("POST", "/delete-unit/", &mut answers), failed("Couldn't get arguments from url"));
    assert_eq!(handle_employee_delete("POST", "/delete-employee", &mut answers), failed("Couldn't get arguments from url"));
    let mut answers = vec![Answer::Failed("still referenced".to_string())];
    assert_eq!(handle_tech_delete("POST", "/delete-tech/3", &mut answers), failed("still referenced"));
    assert_eq!(handle_unit_delete("POST", "/delete-unit/3", &mut answers), failed("still referenced"));
    assert_eq!(handle_employee_delete("POST", "/delete-employee/3", &mut answers), failed("still referenced"));
    assert_eq!(handle_unit_delete("PUT", "/delete-unit/3", &mut answers), refused());
    assert_eq!(handle_employee_delete("GET", "/delete-employee/3", &mut answers), refused());
}

#[test]
fn view_flows() {
    let date = day();
    let held = || TechUnit::from_row("Lab".into(), date, 5, "Drill".into(), "X1".into());
    let mut answers = Vec::new();
    assert_eq!(handle_view_unit_tech("GET", "/view-unit-tech/9", &mut answers), Step::Ask(Query::TechByUnit(9)));
    answers.push(Answer::TechUnits(vec![held()]));
    assert_eq!(handle_view_unit_tech("GET", "/view-unit-tech/9", &mut answers), shown(Page::TechOfUnit(vec![held()])));
    let kept = || TechEmployee::from_row(date, "Ann".into(), "B".into(), "Clark".into(), "Keeper".into(), 5, "Drill".into(), "X1".into());
    let mut answers = Vec::new();
    assert_eq!(
        handle_view_employee_tech("GET", "/view-employee-tech/8", &mut answers),
        Step::Ask(Query::TechByEmployee(8))
    );
    answers.push(Answer::TechEmployees(vec![kept()]));
    assert_eq!(
        handle_view_employee_tech("GET", "/view-employee-tech/8", &mut answers),
        shown(Page::TechOfEmployee(vec![kept()]))
    );
    let mut answers = Vec::new();
    assert_eq!(handle_view_unit_tech("POST", "/view-unit-tech/9", &mut answers), refused());
    assert_eq!(handle_view_employee_tech("GET", "/view-employee-tech/x", &mut answers), failed("Couldn't get arguments from url"));
    let mut answers = vec![Answer::Failed("boom".to_string())];
    assert_eq!(handle_view_unit_tech("GET", "/view-unit-tech/9", &mut answers), failed("boom"));
}

#[test]
fn read_unit_form() {
    assert_eq!(read_unit(&body("unit_number=3&full_name=Laboratory&short_name=Lab")), Some(Ok(lab())));
    assert_eq!(read_unit(&None), None);
    assert_eq!(read_unit(&body("unit_number=3&full_name=Laboratory")), None);
    assert_eq!(read_unit(&body("unit_number=three")), Some(Err(IntError::InvalidDigit)));
}

#[test]
fn unit_add_flow() {
    let form = body("unit_number=3&full_name=Laboratory&short_name=Lab");
    let mut answers = Vec::new();
    assert_eq!(handle_unit_add("GET", &None, &mut answers), Some(shown(Page::UnitAdd(blank()))));
    assert_eq!(handle_unit_add("POST", &form, &mut answers), Some(Step::Ask(Query::UnitInsert(lab()))));
    answers.push(Answer::Inserted(1));
    assert_eq!(
        handle_unit_add("POST", &form, &mut answers),
        Some(shown(Page::UnitAdd(note("Updated unit", MessageKind::Notify))))
    );
    let mut answers = vec![Answer::Failed("unique".to_string())];
    assert_eq!(
        handle_unit_add("POST", &form, &mut answers),
        Some(shown(Page::UnitAdd(note("Tried adding unit(the unit number should be unique)", MessageKind::Error))))
    );
    let mut answers = Vec::new();
    assert_eq!(handle_unit_add("PUT", &form, &mut answers), Some(refused()));
    assert_eq!(handle_unit_add("POST", &None, &mut answers), None);
    assert_eq!(
        handle_unit_add("POST", &body("unit_number=x"), &mut answers),
        Some(failed("invalid digit found in string"))
    );
}

#[test]
fn unit_edit_flow() {
    let form = body("unit_number=3&full_name=Laboratory&short_name=Lab");
    let stored = || Unit::from_row(Some(6), 1, "Old".into(), "O".into());
    let mut answers = Vec::new();
    assert_eq!(handle_unit_edit("GET", "/edit-unit/6", &None, &mut answers), Some(Step::Ask(Query::UnitById(6))));
    answers.push(Answer::UnitItem(stored()));
    assert_eq!(
        handle_unit_edit("GET", "/edit-unit/6", &None, &mut answers),
        Some(shown(Page::UnitEdit(stored(), blank())))
    );
    let edited = || Unit::from_row(Some(6), 3, "Laboratory".into(), "Lab".into());
    let mut answers = vec![Answer::UnitItem(stored())];
    assert_eq!(
        handle_unit_edit("POST", "/edit-unit/6", &form, &mut answers),
        Some(Step::Ask(Query::UnitUpdate(edited())))
    );
    answers.push(Answer::Done);
    assert_eq!(
        handle_unit_edit("POST", "/edit-unit/6", &form, &mut answers),
        Some(shown(Page::UnitEdit(edited(), note("Updated unit", MessageKind::Notify))))
    );
    let mut answers = vec![Answer::UnitItem(stored()), Answer::Failed("locked".to_string())];
    assert_eq!(
        handle_unit_edit("POST", "/edit-unit/6", &form, &mut answers),
        Some(shown(Page::UnitEdit(edited(), note("Tried updating unit: locked", MessageKind::Error))))
    );
    let mut answers = Vec::new();
    assert_eq!(
        handle_unit_edit("POST", "/edit-unit/six", &form, &mut answers),
        Some(failed("Couldn't get arguments from url"))
    );
    let mut answers = vec![Answer::UnitItem(stored())];
    assert_eq!(handle_unit_edit("PATCH", "/edit-unit/6", &form, &mut answers), Some(refused()));
}

#[test]
fn read_employee_form() {
    let form = body("first_name=Ann&middle_name=B&last_name=Clark&is_accountable=on&job_title=Keeper&unit=2");
    assert_eq!(read_employee(&form), Some(Ok(ann())));
    assert_eq!(read_employee(&None), None);
    assert_eq!(read_employee(&body("first_name=Ann")), Some(Err(EmployeeFault::SameRole)));
    assert_eq!(
        read_employee(&body("is_supervisor=on&is_accountable=on&unit=2")),
        Some(Err(EmployeeFault::SameRole))
    );
    assert_eq!(read_employee(&body("is_supervisor=on")), None);
    assert_eq!(read_employee(&body("is_supervisor=on&unit=")), Some(Err(EmployeeFault::NoUnit)));
    assert_eq!(read_employee(&body("is_supervisor=on&unit=2&first_name=a")), None);
}

#[test]
fn employee_add_flow() {
    let form = body("first_name=Ann&middle_name=B&last_name=Clark&is_accountable=on&job_title=Keeper&unit=2");
    let mut answers = Vec::new();
    assert_eq!(handle_employee_add("GET", &None, &mut answers), Some(Step::Ask(Query::UnitAll)));
    answers.push(Answer::Units(vec![lab()]));
    assert_eq!(
        handle_employee_add("GET", &None, &mut answers),
        Some(shown(Page::EmployeeAdd(vec![lab()], blank())))
    );
    let mut answers = Vec::new();
    assert_eq!(handle_employee_add("POST", &form, &mut answers), Some(Step::Ask(Query::UnitAll)));
    answers.push(Answer::Units(vec![lab()]));
    assert_eq!(handle_employee_add("POST", &form, &mut answers), Some(Step::Ask(Query::EmployeeInsert(ann()))));
    assert_eq!(answers.len(), 1);
    answers.push(Answer::Inserted(3));
    assert_eq!(
        handle_employee_add("POST", &form, &mut answers),
        Some(shown(Page::EmployeeAdd(vec![lab()], note("Added employee", MessageKind::Notify))))
    );
    let mut answers = vec![Answer::Units(vec![lab()]), Answer::Failed("x".to_string())];
    assert_eq!(
        handle_employee_add("POST", &form, &mut answers),
        Some(shown(Page::EmployeeAdd(vec![lab()], note("Error on adding new employee", MessageKind::Error))))
    );
}

#[test]
fn employee_add_faults() {
    let mut answers = Vec::new();
    assert_eq!(handle_employee_add("PUT", &None, &mut answers), Some(refused()));
    assert_eq!(handle_employee_add("POST", &None, &mut answers), None);
    let mut answers = vec![Answer::Failed("db down".to_string())];
    assert_eq!(handle_employee_add("GET", &None, &mut answers), Some(failed("Tried accessing db")));
    let mut answers = vec![Answer::Failed("db down".to_string())];
    assert_eq!(handle_employee_add("POST", &body("a=b"), &mut answers), Some(failed("Tried accessing db")));
    let mut answers = vec![Answer::Units(vec![])];
    assert_eq!(
        handle_employee_add("POST", &body("first_name=Ann"), &mut answers),
        Some(shown(Page::EmployeeAdd(
            vec![],
            note("The employee has to be either a supervisor or a accoutanble", MessageKind::Notify)
        )))
    );
    let mut answers = vec![Answer::Units(vec![])];
    assert_eq!(
        handle_employee_add("POST", &body("is_supervisor=1&unit=none"), &mut answers),
        Some(shown(Page::EmployeeAdd(vec![], note("The unit has to be selected", MessageKind::Error))))
    );
    let mut answers = vec![Answer::Units(vec![])];
    assert_eq!(handle_employee_add("POST", &body("is_supervisor=1&unit=1"), &mut answers), None);
}

#[test]
fn employee_edit_flow() {
    let form = body("first_name=Ann&middle_name=B&last_name=Clark&is_accountable=on&job_title=Keeper&unit=2");
    let stored = || Employee::from_row(Some(4), "Old".into(), "O".into(), "Name".into(), true, false, "Boss".into(), 1);
    let mut answers = Vec::new();
    assert_eq!(
        handle_employee_edit("GET", "/edit-employee/4", &None, &mut answers),
        Some(Step::Ask(Query::EmployeeById(4)))
    );
    answers.push(Answer::EmployeeItem(stored()));
    assert_eq!(handle_employee_edit("GET", "/edit-employee/4", &None, &mut answers), Some(Step::Ask(Query::UnitAll)));
    answers.push(Answer::Units(vec![lab()]));
    assert_eq!(
        handle_employee_edit("GET", "/edit-employee/4", &None, &mut answers),
        Some(shown(Page::EmployeeEdit(stored(), vec![lab()], blank())))
    );
    let mut answers = vec![Answer::EmployeeItem(stored()), Answer::Units(vec![lab()])];
    assert_eq!(handle_employee_edit("POST", "/edit-employee/4", &form, &mut answers), Some(Step::Ask(Query::UnitAll)));
    answers.push(Answer::Units(vec![lab(), lab()]));
    assert_eq!(
        handle_employee_edit("POST", "/edit-employee/4", &form, &mut answers),
        Some(Step::Ask(Query::EmployeeInsert(ann())))
    );
    assert_eq!(answers.len(), 3);
    answers.push(Answer::Inserted(15));
    let mut inserted = ann();
    inserted.set_id(15);
    assert_eq!(
        handle_employee_edit("POST", "/edit-employee/4", &form, &mut answers),
        Some(shown(Page::EmployeeEdit(inserted, vec![lab(), lab()], note("Updated employee", MessageKind::Notify))))
    );
    let mut answers = vec![
        Answer::EmployeeItem(stored()),
        Answer::Units(vec![lab()]),
        Answer::Units(vec![]),
        Answer::Failed("x".to_string()),
    ];
    assert_eq!(
        handle_employee_edit("POST", "/edit-employee/4", &form, &mut answers),
        Some(shown(Page::EmployeeEdit(ann(), vec![], note("Error on adding new employee", MessageKind::Error))))
    );
}

#[test]
fn employee_edit_faults() {
    let stored = || ann();
    let mut answers = Vec::new();
    assert_eq!(
        handle_employee_edit("GET", "/edit-employee/x", &None, &mut answers),
        Some(failed("Couldn't get arguments from url"))
    );
    let mut answers = vec![Answer::Failed("gone".to_string())];
    assert_eq!(handle_employee_edit("GET", "/edit-employee/4", &None, &mut answers), Some(failed("gone")));
    let mut answers = vec![Answer::EmployeeItem(stored()), Answer::Failed("units gone".to_string())];
    assert_eq!(handle_employee_edit("GET", "/edit-employee/4", &None, &mut answers), Some(failed("units gone")));
    let mut answers = vec![Answer::EmployeeItem(stored()), Answer::Units(vec![])];
    assert_eq!(handle_employee_edit("PUT", "/edit-employee/4", &None, &mut answers), Some(refused()));
    let mut answers = vec![Answer::EmployeeItem(stored()), Answer::Units(vec![])];
    assert_eq!(handle_employee_edit("POST", "/edit-employee/4", &None, &mut answers), None);
    let mut answers = vec![
        Answer::EmployeeItem(stored()),
        Answer::Units(vec![]),
        Answer::Failed("second time".to_string()),
    ];
    assert_eq!(handle_employee_edit("POST", "/edit-employee/4", &body("a=b"), &mut answers), None);
    let mut answers = vec![Answer::EmployeeItem(stored()), Answer::Units(vec![]), Answer::Units(vec![lab()])];
    assert_eq!(
        handle_employee_edit("POST", "/edit-employee/4", &body("is_supervisor=1&is_accountable=1"), &mut answers),
        Some(shown(Page::EmployeeAdd(
            vec![lab()],
            note("The employee has to be either a supervisor or a accoutanble", MessageKind::Notify)
        )))
    );
    let mut answers = vec![Answer::EmployeeItem(stored()), Answer::Units(vec![]), Answer::Units(vec![lab()])];
    assert_eq!(
        handle_employee_edit("POST", "/edit-employee/4", &body("is_supervisor=1&unit=x"), &mut answers),
        Some(shown(Page::EmployeeAdd(vec![lab()], note("The unit has to be specified", MessageKind::Error))))
    );
}

#[test]
fn read_transfer_form() {
    assert_eq!(
        read_transfer(&body("date=2024-03-09&tech=1&unit=4&room=2")),
        Some(Ok(TransferForm::Started { date: day(), tech_id: 1, unit_id: 4, room_id: 2 }))
    );
    assert_eq!(
        read_transfer(&body("date=2024-03-09&tech=1&unit=4&room=2&unit_selected=true&employee=3")),
        Some(Ok(TransferForm::Complete { date: day(), tech_id: 1, unit_id: 4, room_id: 2, employee_id: 3 }))
    );
    assert_eq!(read_transfer(&None), None);
    assert_eq!(read_transfer(&body("tech=1")), None);
    assert_eq!(read_transfer(&body("date=soon")), Some(Err("Not valid date value")));
    assert_eq!(read_transfer(&body("date=2024-03-09")), None);
    assert_eq!(read_transfer(&body("date=2024-03-09&tech=x")), Some(Err("Invalid tech value")));
    assert_eq!(read_transfer(&body("date=2024-03-09&tech=1&unit=x")), Some(Err("Invalid unit value")));
    assert_eq!(read_transfer(&body("date=2024-03-09&tech=1&unit=4&room=")), Some(Err("Invalid room value")));
    assert_eq!(read_transfer(&body("date=2024-03-09&tech=1&unit=4&room=2&unit_selected")), None);
    assert_eq!(
        read_transfer(&body("date=2024-03-09&tech=1&unit=4&room=2&unit_selected&employee=e")),
        Some(Err("Invalid employee value"))
    );
}

#[test]
fn transfer_add_loads_its_lists_first() {
    for method in ["GET", "POST"] {
        let mut answers = Vec::new();
        assert_eq!(handle_transfer_add(method, &None, &mut answers), Some(Step::Ask(Query::TechAll)));
        answers.push(Answer::TechList(vec![drill()]));
        assert_eq!(handle_transfer_add(method, &None, &mut answers), Some(Step::Ask(Query::UnitAccountable)));
        answers.push(Answer::Units(vec![lab()]));
        assert_eq!(handle_transfer_add(method, &None, &mut answers), Some(Step::Ask(Query::RoomAll)));
        answers.push(Answer::Rooms(vec![Room::new(1, 20)]));
        assert_eq!(answers, lists());
    }
    let mut answers = vec![Answer::TechList(vec![]), Answer::Failed("no units".to_string())];
    assert_eq!(handle_transfer_add("GET", &None, &mut answers), Some(failed("no units")));
    let mut answers = vec![Answer::Failed("no tech".to_string())];
    assert_eq!(handle_transfer_add("GET", &None, &mut answers), Some(failed("no tech")));
    let mut answers = vec![Answer::TechList(vec![]), Answer::Units(vec![]), Answer::Done];
    assert_eq!(handle_transfer_add("GET", &None, &mut answers), Some(failed("Unexpected answer from the store")));
}

#[test]
fn transfer_add_refuses_other_methods_before_asking_the_store() {
    for method in ["PUT", "DELETE", "get", ""] {
        let mut answers = Vec::new();
        assert_eq!(handle_transfer_add(method, &None, &mut answers), Some(refused()));
        assert!(answers.is_empty());
        let mut answers = lists();
        assert_eq!(handle_transfer_add(method, &None, &mut answers), Some(refused()));
        let mut answers = vec![Answer::Failed("no tech".to_string())];
        assert_eq!(handle_transfer_add(method, &None, &mut answers), Some(refused()));
    }
}

#[test]
fn edit_handlers_refuse_other_methods_before_anything_else() {
    let form = body("a=b");
    for method in ["PUT", "DELETE", "PATCH", "post", ""] {
        for id in ["7", "abc", ""] {
            let mut answers = Vec::new();
            let route = format!("/edit-tech/{}", id);
            assert_eq!(handle_tech_edit(method, &route, &form, &mut answers), Some(refused()));
            let route = format!("/edit-unit/{}", id);
            assert_eq!(handle_unit_edit(method, &route, &None, &mut answers), Some(refused()));
            let route = format!("/edit-employee/{}", id);
            assert_eq!(handle_employee_edit(method, &route, &form, &mut answers), Some(refused()));
            let route = format!("/edit-transfer/{}", id);
            assert_eq!(handle_transfer_edit(method, &route, &None, &mut answers), Some(refused()));
            assert!(answers.is_empty());
        }
    }
    let mut answers = vec![Answer::Failed("no such row".to_string())];
    assert_eq!(handle_tech_edit("PUT", "/edit-tech/1", &None, &mut answers), Some(refused()));
    assert_eq!(handle_unit_edit("PUT", "/edit-unit/1", &None, &mut answers), Some(refused()));
    assert_eq!(handle_employee_edit("PUT", "/edit-employee/1", &None, &mut answers), Some(refused()));
    assert_eq!(handle_transfer_edit("PUT", "/edit-transfer/1", &None, &mut answers), Some(refused()));
}

#[test]
fn edit_handlers_report_a_missing_argument_for_get_and_post() {
    for method in ["GET", "POST"] {
        let mut answers = Vec::new();
        let reason = "Couldn't get arguments from url";
        assert_eq!(handle_tech_edit(method, "/edit-tech/x", &None, &mut answers), Some(failed(reason)));
        assert_eq!(handle_unit_edit(method, "/edit-unit/", &None, &mut answers), Some(failed(reason)));
        assert_eq!(handle_employee_edit(method, "/edit-employee", &None, &mut answers), Some(failed(reason)));
        assert_eq!(handle_transfer_edit(method, "/edit-transfer/1x", &None, &mut answers), Some(failed(reason)));
        assert!(answers.is_empty());
    }
}

fn add_page(session: Option<Session>, message: Message) -> Step {
    shown(Page::TransferAdd {
        tech: vec![drill()],
        units: vec![lab()],
        rooms: vec![Room::new(1, 20)],
        session,
        message,
    })
}

#[test]
fn transfer_add_flow() {
    let mut answers = lists();
    assert_eq!(handle_transfer_add("GET", &None, &mut answers), Some(add_page(None, blank())));
    let first = body("date=2024-03-09&tech=1&unit=4&room=2");
    let mut answers = lists();
    assert_eq!(handle_transfer_add("POST", &first, &mut answers), Some(Step::Ask(Query::EmployeeAccountable(4))));
    assert_eq!(answers, lists());
    answers.push(Answer::Employees(vec![ann()]));
    let session = Session { tech_id: 1, unit_id: 4, room_id: 2, date: day(), accountable_employees: vec![ann()] };
    assert_eq!(
        handle_transfer_add("POST", &first, &mut answers),
        Some(add_page(Some(session), note("Select an accountable employee", MessageKind::Notify)))
    );
    let second = body("date=2024-03-09&tech=1&unit=4&room=2&unit_selected=true&employee=3");
    let mut answers = lists();
    assert_eq!(
        handle_transfer_add("POST", &second, &mut answers),
        Some(Step::Ask(Query::TransferInsert(Transfer::new_date(day(), 1, 2, 3))))
    );
    answers.push(Answer::Inserted(1));
    assert_eq!(
        handle_transfer_add("POST", &second, &mut answers),
        Some(add_page(None, note("Added new transfer", MessageKind::Notify)))
    );
    let mut answers = lists();
    answers.push(Answer::Failed("no such employee".to_string()));
    assert_eq!(
        handle_transfer_add("POST", &second, &mut answers),
        Some(add_page(None, note("Erorr on adding new transfer: no such employee", MessageKind::Error)))
    );
}

#[test]
fn transfer_add_faults() {
    let mut answers = lists();
    assert_eq!(handle_transfer_add("POST", &None, &mut answers), None);
    let mut answers = lists();
    assert_eq!(
        handle_transfer_add("POST", &body("date=x"), &mut answers),
        Some(add_page(None, note("Not valid date value", MessageKind::Error)))
    );
    let mut answers = lists();
    assert_eq!(
        handle_transfer_add("POST", &body("date=2024-03-09&tech=1&unit=4&room=r"), &mut answers),
        Some(add_page(None, note("Invalid room value", MessageKind::Error)))
    );
    let mut answers = lists();
    answers.push(Answer::Failed("employees gone".to_string()));
    assert_eq!(
        handle_transfer_add("POST", &body("date=2024-03-09&tech=1&unit=4&room=2"), &mut answers),
        Some(failed("employees gone"))
    );
}

fn edit_page(transfer: TransferUnit, session: Option<Session>, message: Message) -> Step {
    shown(Page::TransferEdit {
        tech: vec![drill()],
        units: vec![lab()],
        rooms: vec![Room::new(1, 20)],
        transfer,
        session,
        message,
    })
}

#[test]
fn transfer_edit_flow() {
    let mut answers = lists();
    assert_eq!(
        handle_transfer_edit("GET", "/edit-transfer/7", &None, &mut answers),
        Some(Step::Ask(Query::TransferWithUnit(7)))
    );
    answers.push(Answer::TransferItem(stored_transfer()));
    assert_eq!(
        handle_transfer_edit("GET", "/edit-transfer/7", &None, &mut answers),
        Some(edit_page(stored_transfer(), None, blank()))
    );
    let first = body("date=2024-03-09&tech=1&unit=4&room=2");
    let mut answers = lists();
    answers.push(Answer::TransferItem(stored_transfer()));
    assert_eq!(
        handle_transfer_edit("POST", "/edit-transfer/7", &first, &mut answers),
        Some(Step::Ask(Query::EmployeeAccountable(4)))
    );
    answers.push(Answer::Employees(vec![ann()]));
    let session = Session { tech_id: 1, unit_id: 4, room_id: 2, date: day(), accountable_employees: vec![ann()] };
    assert_eq!(
        handle_transfer_edit("POST", "/edit-transfer/7", &first, &mut answers),
        Some(edit_page(stored_transfer(), Some(session), note("Select an accountable employee", MessageKind::Notify)))
    );
    let second = body("date=2024-03-09&tech=1&unit=4&room=2&unit_selected=true&employee=3");
    let mut answers = lists();
    answers.push(Answer::TransferItem(stored_transfer()));
    let updated = || Transfer::from_row(Some(7), day(), Some(1), Some(2), Some(3));
    assert_eq!(
        handle_transfer_edit("POST", "/edit-transfer/7", &second, &mut answers),
        Some(Step::Ask(Query::TransferUpdate(updated())))
    );
    answers.push(Answer::Done);
    assert_eq!(
        handle_transfer_edit("POST", "/edit-transfer/7", &second, &mut answers),
        Some(Step::Ask(Query::TransferWithUnit(7)))
    );
    assert_eq!(answers.len(), 5);
    let now = || TransferUnit { inner: updated(), unit_id: 4 };
    answers.push(Answer::TransferItem(now()));
    assert_eq!(
        handle_transfer_edit("POST", "/edit-transfer/7", &second, &mut answers),
        Some(edit_page(now(), None, note("Updated transfer", MessageKind::Notify)))
    );
    let mut answers = lists();
    answers.push(Answer::TransferItem(stored_transfer()));
    answers.push(Answer::Failed("locked".to_string()));
    answers.push(Answer::TransferItem(now()));
    assert_eq!(
        handle_transfer_edit("POST", "/edit-transfer/7", &second, &mut answers),
        Some(edit_page(now(), None, note("Erorr on updating the transfer: locked", MessageKind::Error)))
    );
}

#[test]
fn transfer_edit_faults() {
    let mut answers = Vec::new();
    assert_eq!(
        handle_transfer_edit("GET", "/edit-transfer/x", &None, &mut answers),
        Some(failed("Couldn't get arguments from url"))
    );
    assert_eq!(handle_transfer_edit("GET", "/edit-transfer/7", &None, &mut answers), Some(Step::Ask(Query::TechAll)));
    let mut answers = lists();
    answers.push(Answer::Failed("no transfer".to_string()));
    assert_eq!(handle_transfer_edit("GET", "/edit-transfer/7", &None, &mut answers), Some(failed("no transfer")));
    let mut answers = lists();
    answers.push(Answer::TransferItem(stored_transfer()));
    assert_eq!(handle_transfer_edit("PUT", "/edit-transfer/7", &None, &mut answers), Some(refused()));
    let mut answers = lists();
    answers.push(Answer::TransferItem(stored_transfer()));
    assert_eq!(handle_transfer_edit("POST", "/edit-transfer/7", &None, &mut answers), None);
    let mut answers = lists();
    answers.push(Answer::TransferItem(stored_transfer()));
    assert_eq!(
        handle_transfer_edit("POST", "/edit-transfer/7", &body("date=2024-03-09&tech=t"), &mut answers),
        Some(edit_page(stored_transfer(), None, note("Invalid tech value", MessageKind::Error)))
    );
    let second = body("date=2024-03-09&tech=1&unit=4&room=2&unit_selected=true&employee=3");
    let mut answers = lists();
    answers.push(Answer::TransferItem(stored_transfer()));
    answers.push(Answer::Done);
    answers.push(Answer::Failed("vanished".to_string()));
    assert_eq!(handle_transfer_edit("POST", "/edit-transfer/7", &second, &mut answers), Some(failed("vanished")));
}
