//! The handlers of the employee pages.

use vstd::prelude::*;
use crate::form::FormData;
use crate::model::{Employee, Unit};
use crate::number::{parse_i32, read_i32_text};
use crate::pages::{is_message, Message, MessageKind, Page};
use crate::request::lemma_get_is_not_post;
use crate::response::Response;
use crate::route::{get_route_arg, route_arg};
use crate::store::{failure, failure_of, failure_text, field, get_field, is_failure, is_page,
    is_refusal, no_argument, page_of, redirects, refusal, show, shows, Answer, Query, Step};
use crate::text::str_eq;

verus! {

/// Why an employee form is sent back to be filled in again.
#[derive(Clone, Copy, Debug, PartialEq, Eq, Structural)]
pub enum EmployeeFault {
    /// The employee is marked as both supervisor and accountable, or as
    /// neither.
    SameRole,
    /// The unit is no `i32`.
    NoUnit,
}

/// What the employee form holds: first, middle and last name, whether the
/// employee is a supervisor, whether accountable, the job title and the
/// unit.
pub type EmployeeInput = (Seq<char>, Seq<char>, Seq<char>, bool, bool, Seq<char>, i32);

/// What a body holds as an employee form: `None` where it cannot be read
/// at all (no body, a field that is missing), a fault where the form is to
/// be filled in again. A role is marked by the presence of its field.
pub open spec fn employee_input(body: Option<FormData>) -> Option<
    Result<EmployeeInput, EmployeeFault>,
> {
    match body {
        None => None,
        Some(form) => {
            let is_supervisor = form@.contains_key("is_supervisor"@);
            let is_accountable = form@.contains_key("is_accountable"@);
            if is_supervisor == is_accountable {
                Some(Err(EmployeeFault::SameRole))
            } else {
                match field(body, "unit"@) {
                    None => None,
                    Some(unit_text) => match parse_i32(unit_text) {
                        Err(_) => Some(Err(EmployeeFault::NoUnit)),
                        Ok(unit_id) => match (
                            field(body, "first_name"@),
                            field(body, "middle_name"@),
                            field(body, "last_name"@),
                            field(body, "job_title"@),
                        ) {
                            (Some(first), Some(middle), Some(last), Some(job)) => Some(
                                Ok((first, middle, last, is_supervisor, is_accountable, job, unit_id)),
                            ),
                            _ => None,
                        },
                    },
                }
            }
        },
    }
}

/// Whether `employee` is the employee of a form, under this identifier.
pub open spec fn is_employee(employee: Employee, id: Option<i32>, input: EmployeeInput) -> bool {
    &&& employee.id == id
    &&& employee.first_name@ == input.0
    &&& employee.middle_name@ == input.1
    &&& employee.last_name@ == input.2
    &&& employee.is_supervisor == input.3
    &&& employee.is_accountable == input.4
    &&& employee.job_title@ == input.5
    &&& employee.unit_id == input.6
}

/// Reads a body as an employee form.
pub fn read_employee(body: &Option<FormData>) -> (r: Option<Result<Employee, EmployeeFault>>)
    ensures
        match employee_input(*body) {
            None => r is None,
            Some(Err(e)) => r == Some(Err::<Employee, EmployeeFault>(e)),
            Some(Ok(input)) => r matches Some(Ok(employee)) && is_employee(employee, None, input),
        },
{
    let form = match body {
        Some(form) => form,
        None => {
            return None;
        },
    };
    let is_supervisor = form.contains_key("is_supervisor");
    let is_accountable = form.contains_key("is_accountable");
    if is_supervisor == is_accountable {
        return Some(Err(EmployeeFault::SameRole));
    }
    let unit_id = match get_field(body, "unit") {
        Some(text) => match read_i32_text(text) {
            Ok(n) => n,
            Err(_) => {
                return Some(Err(EmployeeFault::NoUnit));
            },
        },
        None => {
            return None;
        },
    };
    match (
        get_field(body, "first_name"),
        get_field(body, "middle_name"),
        get_field(body, "last_name"),
        get_field(body, "job_title"),
    ) {
        (Some(first), Some(middle), Some(last), Some(job)) => Some(
            Ok(Employee::new(first, middle, last, is_supervisor, is_accountable, job, unit_id)),
        ),
        _ => None,
    }
}

/// The notice for an employee marked with both roles or with none.
pub open spec fn same_role_text() -> Seq<char> {
    "The employee has to be either a supervisor or a accoutanble"@
}

/// Whether `step` shows the form for a new employee with these units and
/// this notice.
pub open spec fn shows_employee_add(
    step: Step,
    units: Vec<Unit>,
    kind: MessageKind,
    text: Seq<char>,
) -> bool {
    is_page(step) && (page_of(step) matches Page::EmployeeAdd(u, m) && u == units && is_message(
        m,
        kind,
        text,
    ))
}

/// Whether `step` shows the form for the employee of a form, with these
/// units and this notice.
pub open spec fn shows_employee_edit(
    step: Step,
    id: Option<i32>,
    input: EmployeeInput,
    units: Vec<Unit>,
    kind: MessageKind,
    text: Seq<char>,
) -> bool {
    is_page(step) && (page_of(step) matches Page::EmployeeEdit(e, u, m) && is_employee(
        e,
        id,
        input,
    ) && u == units && is_message(m, kind, text))
}

fn show_employee_add(units: Vec<Unit>, message: Message) -> (step: Step)
    ensures
        shows_employee_add(step, units, message.kind, message.content@),
{
    show(Page::EmployeeAdd(units, message))
}

/// The list of all employees: only for `GET`; the list comes from the
/// store.
pub open spec fn employee_table_step(method: Seq<char>, answers: Seq<Answer>, step: Step) -> bool {
    if method != "GET"@ {
        is_refusal(step)
    } else if answers.len() == 0 {
        step == Step::Ask(Query::EmployeeAll)
    } else {
        match answers[0] {
            Answer::Employees(employees) => shows(step, Page::EmployeeTable(employees)),
            other => is_failure(step, failure_text(other)),
        }
    }
}

/// What this handler does next, given what the store has answered so
/// far: the step that `employee_table_step` describes.
pub fn handle_employee_table(method: &str, answers: &mut Vec<Answer>) -> (step: Step)
    ensures
        employee_table_step(method@, old(answers)@, step),
        step is Ask ==> final(answers)@ == old(answers)@,
{
    if !str_eq(method, "GET") {
        return refusal();
    }
    if answers.len() == 0 {
        return Step::Ask(Query::EmployeeAll);
    }
    match answers.remove(0) {
        Answer::Employees(employees) => show(Page::EmployeeTable(employees)),
        other => failure_of(&other),
    }
}

/// The form for a new employee, which offers the units of the store:
/// `GET` shows it; `POST` reads it, sends it back with a notice where a
/// role or the unit is wrong, else stores the employee and shows the form
/// again with a notice of how that went. Units that cannot be had are a
/// server error. No step at all where the form cannot be read.
pub open spec fn employee_add_step(
    method: Seq<char>,
    body: Option<FormData>,
    answers: Seq<Answer>,
    step: Option<Step>,
) -> bool {
    if method == "GET"@ || method == "POST"@ {
        if method == "POST"@ && body is None {
            step is None
        } else if answers.len() == 0 {
            step == Some(Step::Ask(Query::UnitAll))
        } else {
            match answers[0] {
                Answer::Units(units) => if method == "GET"@ {
                    step matches Some(s) && shows_employee_add(s, units, MessageKind::Blank, ""@)
                } else {
                    match employee_input(body) {
                        None => step is None,
                        Some(Err(EmployeeFault::SameRole)) => step matches Some(s)
                            && shows_employee_add(s, units, MessageKind::Notify, same_role_text()),
                        Some(Err(EmployeeFault::NoUnit)) => step matches Some(s)
                            && shows_employee_add(
                            s,
                            units,
                            MessageKind::Error,
                            "The unit has to be selected"@,
                        ),
                        Some(Ok(input)) => step matches Some(s) && if answers.len() == 1 {
                            s matches Step::Ask(Query::EmployeeInsert(e)) && is_employee(
                                e,
                                None,
                                input,
                            )
                        } else if answers[1] is Inserted {
                            shows_employee_add(s, units, MessageKind::Notify, "Added employee"@)
                        } else {
                            shows_employee_add(
                                s,
                                units,
                                MessageKind::Error,
                                "Error on adding new employee"@,
                            )
                        },
                    }
                },
                _ => step matches Some(s) && is_failure(s, "Tried accessing db"@),
            }
        }
    } else {
        step matches Some(s) && is_refusal(s)
    }
}

/// What this handler does next, given what the store has answered so
/// far: the step that `employee_add_step` describes.
pub fn handle_employee_add(
    method: &str,
    body: &Option<FormData>,
    answers: &mut Vec<Answer>,
) -> (step: Option<Step>)
    ensures
        employee_add_step(method@, *body, old(answers)@, step),
        step matches Some(Step::Ask(_)) ==> final(answers)@ == old(answers)@,
{
    let get = str_eq(method, "GET");
    proof {
        lemma_get_is_not_post();
    }
    if !get && !str_eq(method, "POST") {
        return Some(refusal());
    }
    if !get && body.is_none() {
        return None;
    }
    if answers.len() == 0 {
        return Some(Step::Ask(Query::UnitAll));
    }
    match &answers[0] {
        Answer::Units(_) => {},
        _ => {
            return Some(failure("Tried accessing db"));
        },
    }
    let message = if get {
        Message::none()
    } else {
        match read_employee(body) {
            None => {
                return None;
            },
            Some(Err(EmployeeFault::SameRole)) => Message::new(
                "The employee has to be either a supervisor or a accoutanble",
                MessageKind::Notify,
            ),
            Some(Err(EmployeeFault::NoUnit)) => Message::new(
                "The unit has to be selected",
                MessageKind::Error,
            ),
            Some(Ok(employee)) => {
                if answers.len() == 1 {
                    return Some(Step::Ask(Query::EmployeeInsert(employee)));
                }
                match &answers[1] {
                    Answer::Inserted(_) => Message::new("Added employee", MessageKind::Notify),
                    _ => Message::new("Error on adding new employee", MessageKind::Error),
                }
            },
        }
    };
    match answers.remove(0) {
        Answer::Units(units) => Some(show_employee_add(units, message)),
        other => Some(failure_of(&other)),
    }
}

/// The form for the employee that the path names, which offers the units
/// of the store. Any method but `GET` and `POST` is refused before
/// anything else is read. `GET` shows the employee as the store holds it;
/// `POST` asks for the units once more, reads the form, sends the form
/// for a new employee back with a notice where a role or the unit is
/// wrong, else stores the employee as a new one and shows it as read,
/// under its new identifier if it has one. No step at all where the form
/// cannot be read, or the units cannot be had the second time.
pub open spec fn employee_edit_step(
    method: Seq<char>,
    route: Seq<char>,
    body: Option<FormData>,
    answers: Seq<Answer>,
    step: Option<Step>,
) -> bool {
    if method != "GET"@ && method != "POST"@ {
        step matches Some(s) && is_refusal(s)
    } else {
        match route_arg(route, 2) {
            None => step matches Some(s) && is_failure(s, no_argument()),
            Some(arg) => if answers.len() == 0 {
                step == Some(Step::Ask(Query::EmployeeById(arg)))
            } else if !(answers[0] is EmployeeItem) {
                step matches Some(s) && is_failure(s, failure_text(answers[0]))
            } else if answers.len() == 1 {
                step == Some(Step::Ask(Query::UnitAll))
            } else if !(answers[1] is Units) {
                step matches Some(s) && is_failure(s, failure_text(answers[1]))
            } else if method == "GET"@ {
                step matches Some(s) && is_page(s) && (page_of(s) matches Page::EmployeeEdit(e, u, m)
                    && Answer::EmployeeItem(e) == answers[0] && Answer::Units(u) == answers[1]
                    && is_message(m, MessageKind::Blank, ""@))
            } else if body is None {
                step is None
            } else if answers.len() == 2 {
                step == Some(Step::Ask(Query::UnitAll))
            } else {
                match answers[2] {
                    Answer::Units(units) => match employee_input(body) {
                        None => step is None,
                        Some(Err(EmployeeFault::SameRole)) => step matches Some(s)
                            && shows_employee_add(s, units, MessageKind::Notify, same_role_text()),
                        Some(Err(EmployeeFault::NoUnit)) => step matches Some(s)
                            && shows_employee_add(
                            s,
                            units,
                            MessageKind::Error,
                            "The unit has to be specified"@,
                        ),
                        Some(Ok(input)) => step matches Some(s) && if answers.len() == 3 {
                            s matches Step::Ask(Query::EmployeeInsert(e)) && is_employee(
                                e,
                                None,
                                input,
                            )
                        } else {
                            match answers[3] {
                                Answer::Inserted(id) => shows_employee_edit(
                                    s,
                                    Some(id),
                                    input,
                                    units,
                                    MessageKind::Notify,
                                    "Updated employee"@,
                                ),
                                _ => shows_employee_edit(
                                    s,
                                    None,
                                    input,
                                    units,
                                    MessageKind::Error,
                                    "Error on adding new employee"@,
                                ),
                            }
                        },
                    },
                    _ => step is None,
                }
            },
        }
    }
}

/// What this handler does next, given what the store has answered so
/// far: the step that `employee_edit_step` describes.
pub fn handle_employee_edit(
    method: &str,
    route: &str,
    body: &Option<FormData>,
    answers: &mut Vec<Answer>,
) -> (step: Option<Step>)
    ensures
        employee_edit_step(method@, route@, *body, old(answers)@, step),
        step matches Some(Step::Ask(_)) ==> final(answers)@ == old(answers)@,
{
    if !str_eq(method, "GET") && !str_eq(method, "POST") {
        return Some(refusal());
    }
    let arg = match get_route_arg(route, 2) {
        Some(x) => x,
        None => {
            return Some(failure("Couldn't get arguments from url"));
        },
    };
    if answers.len() == 0 {
        return Some(Step::Ask(Query::EmployeeById(arg)));
    }
    match &answers[0] {
        Answer::EmployeeItem(_) => {},
        other => {
            return Some(failure_of(other));
        },
    }
    if answers.len() == 1 {
        return Some(Step::Ask(Query::UnitAll));
    }
    match &answers[1] {
        Answer::Units(_) => {},
        other => {
            return Some(failure_of(other));
        },
    }
    if str_eq(method, "GET") {
        let first = answers.remove(0);
        let second = answers.remove(0);
        match (first, second) {
            (Answer::EmployeeItem(employee), Answer::Units(units)) => Some(
                show(Page::EmployeeEdit(employee, units, Message::none())),
            ),
            _ => None,
        }
    } else {
        if body.is_none() {
            return None;
        }
        if answers.len() == 2 {
            return Some(Step::Ask(Query::UnitAll));
        }
        match &answers[2] {
            Answer::Units(_) => {},
            _ => {
                return None;
            },
        }
        match read_employee(body) {
            None => None,
            Some(Err(fault)) => {
                let message = match fault {
                    EmployeeFault::SameRole => Message::new(
                        "The employee has to be either a supervisor or a accoutanble",
                        MessageKind::Notify,
                    ),
                    EmployeeFault::NoUnit => Message::new(
                        "The unit has to be specified",
                        MessageKind::Error,
                    ),
                };
                match answers.remove(2) {
                    Answer::Units(units) => Some(show_employee_add(units, message)),
                    _ => None,
                }
            },
            Some(Ok(employee)) => {
                if answers.len() == 3 {
                    return Some(Step::Ask(Query::EmployeeInsert(employee)));
                }
                let mut employee = employee;
                let message = match &answers[3] {
                    Answer::Inserted(id) => {
                        employee.set_id(*id);
                        Message::new("Updated employee", MessageKind::Notify)
                    },
                    _ => Message::new("Error on adding new employee", MessageKind::Error),
                };
                match answers.remove(2) {
                    Answer::Units(units) => Some(
                        show(Page::EmployeeEdit(employee, units, message)),
                    ),
                    _ => None,
                }
            },
        }
    }
}

/// Removing the employee that the path names: only for `POST`; then a
/// redirect to the list.
pub open spec fn employee_delete_step(
    method: Seq<char>,
    route: Seq<char>,
    answers: Seq<Answer>,
    step: Step,
) -> bool {
    if method != "POST"@ {
        is_refusal(step)
    } else {
        match route_arg(route, 2) {
            None => is_failure(step, no_argument()),
            Some(arg) => if answers.len() == 0 {
                step == Step::Ask(Query::EmployeeDelete(arg))
            } else {
                match answers[0] {
                    Answer::Done => redirects(step, "/employee"@),
                    other => is_failure(step, failure_text(other)),
                }
            },
        }
    }
}

/// What this handler does next, given what the store has answered so
/// far: the step that `employee_delete_step` describes.
pub fn handle_employee_delete(method: &str, route: &str, answers: &mut Vec<Answer>) -> (step: Step)
    ensures
        employee_delete_step(method@, route@, old(answers)@, step),
        final(answers)@ == old(answers)@,
{
    if !str_eq(method, "POST") {
        return refusal();
    }
    let arg = match get_route_arg(route, 2) {
        Some(x) => x,
        None => {
            return failure("Couldn't get arguments from url");
        },
    };
    if answers.len() == 0 {
        return Step::Ask(Query::EmployeeDelete(arg));
    }
    match &answers[0] {
        Answer::Done => Step::Reply(Response::found("/employee")),
        other => failure_of(other),
    }
}

/// The equipment of the employee that the path names: only for `GET`.
pub open spec fn view_employee_tech_step(
    method: Seq<char>,
    route: Seq<char>,
    answers: Seq<Answer>,
    step: Step,
) -> bool {
    if method != "GET"@ {
        is_refusal(step)
    } else {
        match route_arg(route, 2) {
            None => is_failure(step, no_argument()),
            Some(arg) => if answers.len() == 0 {
                step == Step::Ask(Query::TechByEmployee(arg))
            } else {
                match answers[0] {
                    Answer::TechEmployees(tech) => shows(step, Page::TechOfEmployee(tech)),
                    other => is_failure(step, failure_text(other)),
                }
            },
        }
    }
}

/// What this handler does next, given what the store has answered so
/// far: the step that `view_employee_tech_step` describes.
pub fn handle_view_employee_tech(method: &str, route: &str, answers: &mut Vec<Answer>) -> (step:
    Step)
    ensures
        view_employee_tech_step(method@, route@, old(answers)@, step),
        step is Ask ==> final(answers)@ == old(answers)@,
{
    if !str_eq(method, "GET") {
        return refusal();
    }
    let arg = match get_route_arg(route, 2) {
        Some(x) => x,
        None => {
            return failure("Couldn't get arguments from url");
        },
    };
    if answers.len() == 0 {
        return Step::Ask(Query::TechByEmployee(arg));
    }
    match answers.remove(0) {
        Answer::TechEmployees(tech) => show(Page::TechOfEmployee(tech)),
        other => failure_of(&other),
    }
}

/// The employees with links to their equipment: only for `GET`.
pub open spec fn employee_tech_step(method: Seq<char>, answers: Seq<Answer>, step: Step) -> bool {
    if method != "GET"@ {
        is_refusal(step)
    } else if answers.len() == 0 {
        step == Step::Ask(Query::EmployeeAll)
    } else {
        match answers[0] {
            Answer::Employees(employees) => shows(step, Page::EmployeeView(employees)),
            other => is_failure(step, failure_text(other)),
        }
    }
}

/// What this handler does next, given what the store has answered so
/// far: the step that `employee_tech_step` describes.
pub fn handle_employee_tech(method: &str, answers: &mut Vec<Answer>) -> (step: Step)
    ensures
        employee_tech_step(method@, old(answers)@, step),
        step is Ask ==> final(answers)@ == old(answers)@,
{
    if !str_eq(method, "GET") {
        return refusal();
    }
    if answers.len() == 0 {
        return Step::Ask(Query::EmployeeAll);
    }
    match answers.remove(0) {
        Answer::Employees(employees) => show(Page::EmployeeView(employees)),
        other => failure_of(&other),
    }
}

} // verus!
