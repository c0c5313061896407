//! The exchange between a handler and the store of records. A handler
//! never reaches the store itself: it asks for one piece of work at a
//! time, its caller does the work and hands the answer back with all the
//! earlier ones, and the handler goes on from there until it can reply.

use vstd::prelude::*;
use crate::form::FormData;
use crate::model::{Employee, Room, Tech, TechEmployee, TechUnit, Transfer, TransferDetails,
    TransferUnit, Unit};
use crate::pages::{is_error_page, Page};
use crate::response::{Response, Status};

verus! {

/// A piece of work that a handler asks of the store.
#[derive(Debug, PartialEq)]
pub enum Query {
    TechAll,
    TechById(i32),
    TechInsert(Tech),
    TechUpdate(Tech),
    TechDelete(i32),
    /// The equipment that the unit with this identifier holds.
    TechByUnit(i32),
    /// The equipment that the employee with this identifier answers for.
    TechByEmployee(i32),
    UnitAll,
    /// The units that have an accountable employee.
    UnitAccountable,
    UnitById(i32),
    UnitInsert(Unit),
    UnitUpdate(Unit),
    UnitDelete(i32),
    EmployeeAll,
    /// The accountable employees of the unit with this identifier.
    EmployeeAccountable(i32),
    EmployeeById(i32),
    EmployeeInsert(Employee),
    EmployeeDelete(i32),
    RoomAll,
    /// Every transfer with the records that it refers to.
    TransferDetailed,
    /// The transfer with this identifier and the unit of its employee.
    TransferWithUnit(i32),
    TransferInsert(Transfer),
    TransferUpdate(Transfer),
}

/// What the store answers.
#[derive(Debug, PartialEq)]
pub enum Answer {
    /// The work failed; the text says why.
    Failed(String),
    /// A change was made.
    Done,
    /// A record was stored under this identifier.
    Inserted(i32),
    TechList(Vec<Tech>),
    TechItem(Tech),
    TechUnits(Vec<TechUnit>),
    TechEmployees(Vec<TechEmployee>),
    Units(Vec<Unit>),
    UnitItem(Unit),
    Employees(Vec<Employee>),
    EmployeeItem(Employee),
    Rooms(Vec<Room>),
    Details(Vec<TransferDetails>),
    TransferItem(TransferUnit),
}

/// What a handler does next: ask the store for something, or reply.
#[derive(Debug, PartialEq)]
pub enum Step {
    Ask(Query),
    Reply(Response),
}

/// The reason given when an answer cannot be used: the store's own words
/// where the work failed, a fixed text where the answer is of another kind
/// than the work asked for.
pub open spec fn failure_text(answer: Answer) -> Seq<char> {
    match answer {
        Answer::Failed(reason) => reason@,
        _ => "Unexpected answer from the store"@,
    }
}

/// Whether `step` replies that the method is not allowed.
pub open spec fn is_refusal(step: Step) -> bool {
    step matches Step::Reply(r) && r.status is MethodNotAllowed && is_error_page(
        r.page,
        "Method not allowed"@,
        "Method not allowed"@,
    )
}

/// Whether `step` replies with a server error that gives `reason`.
pub open spec fn is_failure(step: Step, reason: Seq<char>) -> bool {
    step matches Step::Reply(r) && r.status is InternalServerError && is_error_page(
        r.page,
        "Internal server error"@,
        reason,
    )
}

/// Whether `step` replies with success and a page.
pub open spec fn is_page(step: Step) -> bool {
    step matches Step::Reply(r) && r.status is Okay
}

/// The page of a reply.
pub open spec fn page_of(step: Step) -> Page {
    step->Reply_0.page
}

/// Whether `step` replies with success and exactly `page`.
pub open spec fn shows(step: Step, page: Page) -> bool {
    is_page(step) && page_of(step) == page
}

/// Whether `step` replies with a redirect to `uri`, without content.
pub open spec fn redirects(step: Step, uri: Seq<char>) -> bool {
    step matches Step::Reply(r) && r.page is Empty && (r.status matches Status::Found(location)
        && location.uri@ == uri)
}

/// The reason given when the path of a request holds no argument.
pub open spec fn no_argument() -> Seq<char> {
    "Couldn't get arguments from url"@
}

/// A field of a form, if the request has a body that holds it.
pub open spec fn field(body: Option<FormData>, key: Seq<char>) -> Option<Seq<char>> {
    match body {
        Some(form) => if form@.contains_key(key) {
            Some(form@[key])
        } else {
            None
        },
        None => None,
    }
}

/// A field of a form, if the request has a body that holds it.
pub fn get_field<'a>(body: &'a Option<FormData>, key: &str) -> (r: Option<&'a str>)
    ensures
        match field(*body, key@) {
            Some(value) => r matches Some(text) && text@ == value,
            None => r is None,
        },
{
    match body {
        Some(form) => form.get(key),
        None => None,
    }
}

/// The reply that the method is not allowed.
pub fn refusal() -> (step: Step)
    ensures
        is_refusal(step),
{
    Step::Reply(Response::method_not_allowed())
}

/// The reply of a server error that gives `reason`.
pub fn failure(reason: &str) -> (step: Step)
    ensures
        is_failure(step, reason@),
{
    Step::Reply(Response::internal_server_error(reason))
}

/// The reason given when an answer cannot be used.
pub fn failure_reason(answer: &Answer) -> (reason: &str)
    ensures
        reason@ == failure_text(*answer),
{
    match answer {
        Answer::Failed(reason) => reason.as_str(),
        _ => "Unexpected answer from the store",
    }
}

/// The reply of a server error for an answer that cannot be used.
pub fn failure_of(answer: &Answer) -> (step: Step)
    ensures
        is_failure(step, failure_text(*answer)),
{
    failure(failure_reason(answer))
}

/// The reply of success with `page`.
pub fn show(page: Page) -> (step: Step)
    ensures
        shows(step, page),
{
    Step::Reply(Response::ok(page))
}

} // verus!
