//! The handlers of the welcome page and of the transfer pages.

use vstd::prelude::*;
use vstd::string::StringExecFns;
use crate::date::{date_from_text, date_of, Date};
use crate::form::FormData;
use crate::model::{Room, Tech, Transfer, TransferUnit, Unit};
use crate::number::{parse_i32, read_i32_text};
use crate::pages::{is_message, Message, MessageKind, Page, Session};
use crate::route::{get_route_arg, route_arg};
use crate::store::{failure, failure_of, failure_reason, failure_text, field, get_field,
    is_failure, is_page, is_refusal, no_argument, page_of, refusal, show, shows, Answer, Query,
    Step};
use crate::text::str_eq;

verus! {

/// The welcome page: only for `GET`.
pub open spec fn welcome_step(method: Seq<char>, step: Step) -> bool {
    if method != "GET"@ {
        is_refusal(step)
    } else {
        shows(step, Page::Welcome)
    }
}

/// What this handler does next, given what the store has answered so
/// far: the step that `welcome_step` describes.
pub fn handle_welcome(method: &str) -> (step: Step)
    ensures
        welcome_step(method@, step),
{
    if !str_eq(method, "GET") {
        return refusal();
    }
    show(Page::Welcome)
}

/// The list of all transfers: only for `GET`; the list comes from the
/// store.
pub open spec fn transfer_table_step(method: Seq<char>, answers: Seq<Answer>, step: Step) -> bool {
    if method != "GET"@ {
        is_refusal(step)
    } else if answers.len() == 0 {
        step == Step::Ask(Query::TransferDetailed)
    } else {
        match answers[0] {
            Answer::Details(details) => shows(step, Page::TransferTable(details)),
            other => is_failure(step, failure_text(other)),
        }
    }
}

/// What this handler does next, given what the store has answered so
/// far: the step that `transfer_table_step` describes.
pub fn handle_transfer_table(method: &str, answers: &mut Vec<Answer>) -> (step: Step)
    ensures
        transfer_table_step(method@, old(answers)@, step),
        step is Ask ==> final(answers)@ == old(answers)@,
{
    if !str_eq(method, "GET") {
        return refusal();
    }
    if answers.len() == 0 {
        return Step::Ask(Query::TransferDetailed);
    }
    match answers.remove(0) {
        Answer::Details(details) => show(Page::TransferTable(details)),
        other => failure_of(&other),
    }
}

/// What a transfer form holds. The form is filled in two steps: the first
/// settles date, equipment, unit and room; the second, marked by the
/// field `unit_selected`, adds the employee.
#[derive(Clone, Copy, Debug, PartialEq, Eq, Structural)]
pub enum TransferForm {
    Started { date: Date, tech_id: i32, unit_id: i32, room_id: i32 },
    Complete { date: Date, tech_id: i32, unit_id: i32, room_id: i32, employee_id: i32 },
}

/// What the first step of a transfer form holds: date, equipment, unit
/// and room.
pub type TransferInput = (Date, i32, i32, i32);

/// The fields of the first step, read in their order: `None` where one is
/// missing, the notice for the first that has no value of its kind.
pub open spec fn transfer_input(body: Option<FormData>) -> Option<Result<TransferInput, Seq<char>>> {
    match field(body, "date"@) {
        None => None,
        Some(date_text) => match date_of(date_from_text(date_text)) {
            None => Some(Err("Not valid date value"@)),
            Some(date) => match field(body, "tech"@) {
                None => None,
                Some(tech_text) => match parse_i32(tech_text) {
                    Err(_) => Some(Err("Invalid tech value"@)),
                    Ok(tech_id) => match field(body, "unit"@) {
                        None => None,
                        Some(unit_text) => match parse_i32(unit_text) {
                            Err(_) => Some(Err("Invalid unit value"@)),
                            Ok(unit_id) => match field(body, "room"@) {
                                None => None,
                                Some(room_text) => match parse_i32(room_text) {
                                    Err(_) => Some(Err("Invalid room value"@)),
                                    Ok(room_id) => Some(Ok((date, tech_id, unit_id, room_id))),
                                },
                            },
                        },
                    },
                },
            },
        },
    }
}

/// What a body holds as a transfer form: `None` where it cannot be read
/// at all (no body, a field that is missing), a notice where a field has
/// no value of its kind.
pub open spec fn transfer_form(body: Option<FormData>) -> Option<Result<TransferForm, Seq<char>>> {
    match transfer_input(body) {
        None => None,
        Some(Err(text)) => Some(Err(text)),
        Some(Ok(input)) => if field(body, "unit_selected"@) is None {
            Some(
                Ok(
                    TransferForm::Started {
                        date: input.0,
                        tech_id: input.1,
                        unit_id: input.2,
                        room_id: input.3,
                    },
                ),
            )
        } else {
            match field(body, "employee"@) {
                None => None,
                Some(employee_text) => match parse_i32(employee_text) {
                    Err(_) => Some(Err("Invalid employee value"@)),
                    Ok(employee_id) => Some(
                        Ok(
                            TransferForm::Complete {
                                date: input.0,
                                tech_id: input.1,
                                unit_id: input.2,
                                room_id: input.3,
                                employee_id,
                            },
                        ),
                    ),
                },
            }
        },
    }
}

fn read_transfer_input(body: &Option<FormData>) -> (r: Option<Result<TransferInput, &'static str>>)
    ensures
        match transfer_input(*body) {
            None => r is None,
            Some(Err(text)) => r matches Some(Err(t)) && t@ == text,
            Some(Ok(input)) => r == Some(Ok::<TransferInput, &'static str>(input)),
        },
{
    let date = match get_field(body, "date") {
        Some(text) => match Date::parse(text) {
            Some(date) => date,
            None => {
                return Some(Err("Not valid date value"));
            },
        },
        None => {
            return None;
        },
    };
    let tech_id = match get_field(body, "tech") {
        Some(text) => match read_i32_text(text) {
            Ok(n) => n,
            Err(_) => {
                return Some(Err("Invalid tech value"));
            },
        },
        None => {
            return None;
        },
    };
    let unit_id = match get_field(body, "unit") {
        Some(text) => match read_i32_text(text) {
            Ok(n) => n,
            Err(_) => {
                return Some(Err("Invalid unit value"));
            },
        },
        None => {
            return None;
        },
    };
    let room_id = match get_field(body, "room") {
        Some(text) => match read_i32_text(text) {
            Ok(n) => n,
            Err(_) => {
                return Some(Err("Invalid room value"));
            },
        },
        None => {
            return None;
        },
    };
    Some(Ok((date, tech_id, unit_id, room_id)))
}

/// Reads a body as a transfer form.
pub fn read_transfer(body: &Option<FormData>) -> (r: Option<Result<TransferForm, &'static str>>)
    ensures
        match transfer_form(*body) {
            None => r is None,
            Some(Err(text)) => r matches Some(Err(t)) && t@ == text,
            Some(Ok(form)) => r == Some(Ok::<TransferForm, &'static str>(form)),
        },
{
    let (date, tech_id, unit_id, room_id) = match read_transfer_input(body) {
        None => {
            return None;
        },
        Some(Err(text)) => {
            return Some(Err(text));
        },
        Some(Ok(input)) => input,
    };
    if get_field(body, "unit_selected").is_none() {
        return Some(Ok(TransferForm::Started { date, tech_id, unit_id, room_id }));
    }
    match get_field(body, "employee") {
        Some(text) => match read_i32_text(text) {
            Ok(employee_id) => Some(
                Ok(TransferForm::Complete { date, tech_id, unit_id, room_id, employee_id }),
            ),
            Err(_) => Some(Err("Invalid employee value")),
        },
        None => None,
    }
}

/// Whether the lists that a transfer form offers have all come from the
/// store: equipment, accountable units and rooms, in this order.
pub open spec fn lists_loaded(answers: Seq<Answer>) -> bool {
    answers.len() >= 3 && answers[0] is TechList && answers[1] is Units && answers[2] is Rooms
}

/// The step while the lists of a transfer form are not all there: the
/// next list is asked for, and an answer that holds no list is a server
/// error.
pub open spec fn lists_step(answers: Seq<Answer>, step: Step) -> bool {
    if answers.len() == 0 {
        step == Step::Ask(Query::TechAll)
    } else if !(answers[0] is TechList) {
        is_failure(step, failure_text(answers[0]))
    } else if answers.len() == 1 {
        step == Step::Ask(Query::UnitAccountable)
    } else if !(answers[1] is Units) {
        is_failure(step, failure_text(answers[1]))
    } else if answers.len() == 2 {
        step == Step::Ask(Query::RoomAll)
    } else {
        is_failure(step, failure_text(answers[2]))
    }
}

fn load_lists(answers: &Vec<Answer>) -> (r: Option<Step>)
    ensures
        r is None <==> lists_loaded(answers@),
        r matches Some(step) ==> lists_step(answers@, step),
{
    if answers.len() == 0 {
        return Some(Step::Ask(Query::TechAll));
    }
    match &answers[0] {
        Answer::TechList(_) => {},
        other => {
            return Some(failure_of(other));
        },
    }
    if answers.len() == 1 {
        return Some(Step::Ask(Query::UnitAccountable));
    }
    match &answers[1] {
        Answer::Units(_) => {},
        other => {
            return Some(failure_of(other));
        },
    }
    if answers.len() == 2 {
        return Some(Step::Ask(Query::RoomAll));
    }
    match &answers[2] {
        Answer::Rooms(_) => None,
        other => Some(failure_of(other)),
    }
}

/// Whether these are the lists that the first three answers hold.
pub open spec fn are_lists(
    answers: Seq<Answer>,
    tech: Vec<Tech>,
    units: Vec<Unit>,
    rooms: Vec<Room>,
) -> bool {
    &&& answers.len() >= 3
    &&& answers[0] == Answer::TechList(tech)
    &&& answers[1] == Answer::Units(units)
    &&& answers[2] == Answer::Rooms(rooms)
}

fn take_lists(answers: &mut Vec<Answer>) -> (r: Option<(Vec<Tech>, Vec<Unit>, Vec<Room>)>)
    requires
        lists_loaded(old(answers)@),
    ensures
        r matches Some(lists) && are_lists(old(answers)@, lists.0, lists.1, lists.2),
        final(answers)@ == old(answers)@.skip(3),
{
    let first = answers.remove(0);
    let second = answers.remove(0);
    let third = answers.remove(0);
    assert(answers@ == old(answers)@.skip(3));
    match (first, second, third) {
        (Answer::TechList(tech), Answer::Units(units), Answer::Rooms(rooms)) => Some(
            (tech, units, rooms),
        ),
        _ => None,
    }
}

/// Whether `step` shows the form for a new transfer with these lists,
/// this state of the form and this notice.
pub open spec fn shows_transfer_add(
    step: Step,
    answers: Seq<Answer>,
    state: Option<Session>,
    kind: MessageKind,
    text: Seq<char>,
) -> bool {
    is_page(step) && (page_of(step) matches Page::TransferAdd {
        tech,
        units,
        rooms,
        session,
        message,
    } && are_lists(answers, tech, units, rooms) && session == state && is_message(
        message,
        kind,
        text,
    ))
}

/// Whether `step` shows the form for this transfer with these lists, this
/// state of the form and this notice.
pub open spec fn shows_transfer_edit(
    step: Step,
    answers: Seq<Answer>,
    shown: TransferUnit,
    state: Option<Session>,
    kind: MessageKind,
    text: Seq<char>,
) -> bool {
    is_page(step) && (page_of(step) matches Page::TransferEdit {
        tech,
        units,
        rooms,
        transfer,
        session,
        message,
    } && are_lists(answers, tech, units, rooms) && transfer == shown && session == state
        && is_message(message, kind, text))
}

/// The notice that asks for the second step of a transfer form.
pub open spec fn select_employee_text() -> Seq<char> {
    "Select an accountable employee"@
}

/// The form for a new transfer, which offers equipment, units and rooms
/// of the store. Any method but `GET` and `POST` is refused before the
/// store is asked. `GET` shows the form; `POST` reads it and sends it back with a
/// notice where a field is wrong; after the first step it shows the form
/// again with the accountable employees of the unit to choose from; after
/// the second it stores the transfer and shows the empty form with a
/// notice of how that went. No step at all where the form cannot be read.
pub open spec fn transfer_add_step(
    method: Seq<char>,
    body: Option<FormData>,
    answers: Seq<Answer>,
    step: Option<Step>,
) -> bool {
    if method != "GET"@ && method != "POST"@ {
        step matches Some(s) && is_refusal(s)
    } else if !lists_loaded(answers) {
        step matches Some(s) && lists_step(answers, s)
    } else if method == "GET"@ {
        step matches Some(s) && shows_transfer_add(s, answers, None, MessageKind::Blank, ""@)
    } else {
        match transfer_form(body) {
            None => step is None,
            Some(Err(text)) => step matches Some(s) && shows_transfer_add(
                s,
                answers,
                None,
                MessageKind::Error,
                text,
            ),
            Some(Ok(TransferForm::Started { date, tech_id, unit_id, room_id })) => step matches Some(
                s,
            ) && if answers.len() == 3 {
                s == Step::Ask(Query::EmployeeAccountable(unit_id))
            } else {
                match answers[3] {
                    Answer::Employees(accountable_employees) => shows_transfer_add(
                        s,
                        answers,
                        Some(Session { tech_id, unit_id, room_id, date, accountable_employees }),
                        MessageKind::Notify,
                        select_employee_text(),
                    ),
                    other => is_failure(s, failure_text(other)),
                }
            },
            Some(
                Ok(TransferForm::Complete { date, tech_id, unit_id, room_id, employee_id }),
            ) => step matches Some(s) && if answers.len() == 3 {
                s == Step::Ask(
                    Query::TransferInsert(
                        Transfer { id: None, transfer_date: date, tech_id, room_id, employee_id },
                    ),
                )
            } else {
                match answers[3] {
                    Answer::Inserted(_) => shows_transfer_add(
                        s,
                        answers,
                        None,
                        MessageKind::Notify,
                        "Added new transfer"@,
                    ),
                    other => shows_transfer_add(
                        s,
                        answers,
                        None,
                        MessageKind::Error,
                        "Erorr on adding new transfer: "@ + failure_text(other),
                    ),
                }
            },
        }
    }
}

fn show_transfer_add(
    answers: &mut Vec<Answer>,
    session: Option<Session>,
    message: Message,
) -> (step: Option<Step>)
    requires
        lists_loaded(old(answers)@),
    ensures
        step matches Some(s) && shows_transfer_add(
            s,
            old(answers)@,
            session,
            message.kind,
            message.content@,
        ),
        final(answers)@ == old(answers)@.skip(3),
{
    match take_lists(answers) {
        Some((tech, units, rooms)) => Some(
            show(Page::TransferAdd { tech, units, rooms, session, message }),
        ),
        None => None,
    }
}

/// What this handler does next, given what the store has answered so
/// far: the step that `transfer_add_step` describes.
pub fn handle_transfer_add(
    method: &str,
    body: &Option<FormData>,
    answers: &mut Vec<Answer>,
) -> (step: Option<Step>)
    ensures
        transfer_add_step(method@, *body, old(answers)@, step),
        step matches Some(Step::Ask(_)) ==> final(answers)@ == old(answers)@,
{
    if !str_eq(method, "GET") && !str_eq(method, "POST") {
        return Some(refusal());
    }
    match load_lists(answers) {
        Some(step) => {
            return Some(step);
        },
        None => {},
    }
    if str_eq(method, "GET") {
        show_transfer_add(answers, None, Message::none())
    } else {
        match read_transfer(body) {
            None => None,
            Some(Err(text)) => show_transfer_add(
                answers,
                None,
                Message::new(text, MessageKind::Error),
            ),
            Some(Ok(TransferForm::Started { date, tech_id, unit_id, room_id })) => {
                if answers.len() == 3 {
                    return Some(Step::Ask(Query::EmployeeAccountable(unit_id)));
                }
                match &answers[3] {
                    Answer::Employees(_) => {},
                    other => {
                        return Some(failure_of(other));
                    },
                }
                match answers.remove(3) {
                    Answer::Employees(accountable_employees) => {
                        let session = Session {
                            tech_id,
                            unit_id,
                            room_id,
                            date,
                            accountable_employees,
                        };
                        let message = Message::new(
                            "Select an accountable employee",
                            MessageKind::Notify,
                        );
                        show_transfer_add(answers, Some(session), message)
                    },
                    _ => None,
                }
            },
            Some(Ok(TransferForm::Complete { date, tech_id, unit_id, room_id, employee_id })) => {
                if answers.len() == 3 {
                    let transfer = Transfer::new_date(date, tech_id, room_id, employee_id);
                    return Some(Step::Ask(Query::TransferInsert(transfer)));
                }
                let message = match &answers[3] {
                    Answer::Inserted(_) => Message::new("Added new transfer", MessageKind::Notify),
                    other => {
                        let text = String::from_str("Erorr on adding new transfer: ").concat(
                            failure_reason(other),
                        );
                        Message::new(text.as_str(), MessageKind::Error)
                    },
                };
                show_transfer_add(answers, None, message)
            },
        }
    }
}

/// The form for the transfer that the path names, which offers equipment,
/// units and rooms of the store. Any method but `GET` and `POST` is
/// refused before anything else is read. `GET` shows the transfer as the
/// store holds it; `POST` reads the form and sends it back with a notice where
/// a field is wrong; after the first step it shows the form again with
/// the accountable employees of the unit to choose from; after the second
/// it stores the transfer under the same identifier and shows what the
/// store then holds, with a notice of how that went. No step at all where
/// the form cannot be read.
pub open spec fn transfer_edit_step(
    method: Seq<char>,
    route: Seq<char>,
    body: Option<FormData>,
    answers: Seq<Answer>,
    step: Option<Step>,
) -> bool {
    if method != "GET"@ && method != "POST"@ {
        step matches Some(s) && is_refusal(s)
    } else {
        match route_arg(route, 2) {
            None => step matches Some(s) && is_failure(s, no_argument()),
            Some(arg) => if !lists_loaded(answers) {
                step matches Some(s) && lists_step(answers, s)
            } else if answers.len() == 3 {
                step == Some(Step::Ask(Query::TransferWithUnit(arg)))
            } else {
                match answers[3] {
                    Answer::TransferItem(stored) => if method == "GET"@ {
                        step matches Some(s) && shows_transfer_edit(
                            s,
                            answers,
                            stored,
                            None,
                            MessageKind::Blank,
                            ""@,
                        )
                    } else {
                        match transfer_form(body) {
                            None => step is None,
                            Some(Err(text)) => step matches Some(s) && shows_transfer_edit(
                                s,
                                answers,
                                stored,
                                None,
                                MessageKind::Error,
                                text,
                            ),
                            Some(
                                Ok(TransferForm::Started { date, tech_id, unit_id, room_id }),
                            ) => step matches Some(s) && if answers.len() == 4 {
                                s == Step::Ask(Query::EmployeeAccountable(unit_id))
                            } else {
                                match answers[4] {
                                    Answer::Employees(accountable_employees) => shows_transfer_edit(
                                        s,
                                        answers,
                                        stored,
                                        Some(
                                            Session {
                                                tech_id,
                                                unit_id,
                                                room_id,
                                                date,
                                                accountable_employees,
                                            },
                                        ),
                                        MessageKind::Notify,
                                        select_employee_text(),
                                    ),
                                    other => is_failure(s, failure_text(other)),
                                }
                            },
                            Some(
                                Ok(
                                    TransferForm::Complete {
                                        date,
                                        tech_id,
                                        unit_id,
                                        room_id,
                                        employee_id,
                                    },
                                ),
                            ) => step matches Some(s) && if answers.len() == 4 {
                                s == Step::Ask(
                                    Query::TransferUpdate(
                                        Transfer {
                                            id: Some(arg),
                                            transfer_date: date,
                                            tech_id,
                                            room_id,
                                            employee_id,
                                        },
                                    ),
                                )
                            } else if answers.len() == 5 {
                                s == Step::Ask(Query::TransferWithUnit(arg))
                            } else {
                                match answers[5] {
                                    Answer::TransferItem(now) => match answers[4] {
                                        Answer::Done => shows_transfer_edit(
                                            s,
                                            answers,
                                            now,
                                            None,
                                            MessageKind::Notify,
                                            "Updated transfer"@,
                                        ),
                                        other => shows_transfer_edit(
                                            s,
                                            answers,
                                            now,
                                            None,
                                            MessageKind::Error,
                                            "Erorr on updating the transfer: "@ + failure_text(other),
                                        ),
                                    },
                                    other => is_failure(s, failure_text(other)),
                                }
                            },
                        }
                    },
                    other => step matches Some(s) && is_failure(s, failure_text(other)),
                }
            },
        }
    }
}

fn show_transfer_edit(
    answers: &mut Vec<Answer>,
    transfer: TransferUnit,
    session: Option<Session>,
    message: Message,
) -> (step: Option<Step>)
    requires
        lists_loaded(old(answers)@),
    ensures
        step matches Some(s) && shows_transfer_edit(
            s,
            old(answers)@,
            transfer,
            session,
            message.kind,
            message.content@,
        ),
{
    match take_lists(answers) {
        Some((tech, units, rooms)) => Some(
            show(Page::TransferEdit { tech, units, rooms, transfer, session, message }),
        ),
        None => None,
    }
}

/// What this handler does next, given what the store has answered so
/// far: the step that `transfer_edit_step` describes.
pub fn handle_transfer_edit(
    method: &str,
    route: &str,
    body: &Option<FormData>,
    answers: &mut Vec<Answer>,
) -> (step: Option<Step>)
    ensures
        transfer_edit_step(method@, route@, *body, old(answers)@, step),
        step matches Some(Step::Ask(_)) ==> final(answers)@ == old(answers)@,
{
    if !str_eq(method, "GET") && !str_eq(method, "POST") {
        return Some(refusal());
    }
    let arg = match get_route_arg(route, 2) {
        Some(x) => x,
        None => {
            return Some(failure("Couldn't get arguments from url"));
        },
    };
    match load_lists(answers) {
        Some(step) => {
            return Some(step);
        },
        None => {},
    }
    if answers.len() == 3 {
        return Some(Step::Ask(Query::TransferWithUnit(arg)));
    }
    match &answers[3] {
        Answer::TransferItem(_) => {},
        other => {
            return Some(failure_of(other));
        },
    }
    if str_eq(method, "GET") {
        match answers.remove(3) {
            Answer::TransferItem(stored) => show_transfer_edit(
                answers,
                stored,
                None,
                Message::none(),
            ),
            _ => None,
        }
    } else {
        match read_transfer(body) {
            None => None,
            Some(Err(text)) => match answers.remove(3) {
                Answer::TransferItem(stored) => show_transfer_edit(
                    answers,
                    stored,
                    None,
                    Message::new(text, MessageKind::Error),
                ),
                _ => None,
            },
            Some(Ok(TransferForm::Started { date, tech_id, unit_id, room_id })) => {
                if answers.len() == 4 {
                    return Some(Step::Ask(Query::EmployeeAccountable(unit_id)));
                }
                match &answers[4] {
                    Answer::Employees(_) => {},
                    other => {
                        return Some(failure_of(other));
                    },
                }
                let fifth = answers.remove(4);
                let fourth = answers.remove(3);
                match (fourth, fifth) {
                    (Answer::TransferItem(stored), Answer::Employees(accountable_employees)) => {
                        let session = Session {
                            tech_id,
                            unit_id,
                            room_id,
                            date,
                            accountable_employees,
                        };
                        let message = Message::new(
                            "Select an accountable employee",
                            MessageKind::Notify,
                        );
                        show_transfer_edit(answers, stored, Some(session), message)
                    },
                    _ => None,
                }
            },
            Some(Ok(TransferForm::Complete { date, tech_id, unit_id, room_id, employee_id })) => {
                if answers.len() == 4 {
                    let mut transfer = Transfer::new_date(date, tech_id, room_id, employee_id);
                    transfer.set_id(arg);
                    return Some(Step::Ask(Query::TransferUpdate(transfer)));
                }
                if answers.len() == 5 {
                    return Some(Step::Ask(Query::TransferWithUnit(arg)));
                }
                match &answers[5] {
                    Answer::TransferItem(_) => {},
                    other => {
                        return Some(failure_of(other));
                    },
                }
                let message = match &answers[4] {
                    Answer::Done => Message::new("Updated transfer", MessageKind::Notify),
                    other => {
                        let text = String::from_str("Erorr on updating the transfer: ").concat(
                            failure_reason(other),
                        );
                        Message::new(text.as_str(), MessageKind::Error)
                    },
                };
                match answers.remove(5) {
                    Answer::TransferItem(now) => show_transfer_edit(answers, now, None, message),
                    _ => None,
                }
            },
        }
    }
}

} // verus!
