//! The handlers of the unit pages.

use vstd::prelude::*;
use vstd::string::StringExecFns;
use crate::form::FormData;
use crate::model::Unit;
use crate::number::{int_error_text, parse_i32, read_i32_text, IntError};
use crate::pages::{is_message, Message, MessageKind, Page};
use crate::response::Response;
use crate::route::{get_route_arg, route_arg};
use crate::store::{failure, failure_of, failure_reason, failure_text, field, get_field, is_failure, is_page,
    is_refusal, no_argument, page_of, redirects, refusal, show, shows, Answer, Query, Step};
use crate::text::str_eq;

verus! {

/// What the unit form holds: number, full name and short name.
pub type UnitInput = (i32, Seq<char>, Seq<char>);

/// What a body holds as a unit form: `None` where it cannot be read at
/// all (no body, a field that is missing), an error where the number is no
/// `i32`.
pub open spec fn unit_input(body: Option<FormData>) -> Option<Result<UnitInput, IntError>> {
    match field(body, "unit_number"@) {
        None => None,
        Some(number_text) => match parse_i32(number_text) {
            Err(e) => Some(Err(e)),
            Ok(number) => match (field(body, "full_name"@), field(body, "short_name"@)) {
                (Some(full_name), Some(short_name)) => Some(Ok((number, full_name, short_name))),
                _ => None,
            },
        },
    }
}

/// Whether `unit` is the unit of a form, under this identifier.
pub open spec fn is_unit(unit: Unit, id: Option<i32>, input: UnitInput) -> bool {
    &&& unit.id == id
    &&& unit.unit_number == input.0
    &&& unit.full_name@ == input.1
    &&& unit.short_name@ == input.2
}

/// Reads a body as a unit form.
pub fn read_unit(body: &Option<FormData>) -> (r: Option<Result<Unit, IntError>>)
    ensures
        match unit_input(*body) {
            None => r is None,
            Some(Err(e)) => r == Some(Err::<Unit, IntError>(e)),
            Some(Ok(input)) => r matches Some(Ok(unit)) && is_unit(unit, None, input),
        },
{
    let number = match get_field(body, "unit_number") {
        Some(text) => match read_i32_text(text) {
            Ok(n) => n,
            Err(e) => {
                return Some(Err(e));
            },
        },
        None => {
            return None;
        },
    };
    match (get_field(body, "full_name"), get_field(body, "short_name")) {
        (Some(full_name), Some(short_name)) => Some(Ok(Unit::new(number, full_name, short_name))),
        _ => None,
    }
}

/// Whether `step` shows the form for a new unit with this notice.
pub open spec fn shows_unit_add(step: Step, kind: MessageKind, text: Seq<char>) -> bool {
    is_page(step) && (page_of(step) matches Page::UnitAdd(m) && is_message(m, kind, text))
}

/// Whether `step` shows the form for this unit with this notice.
pub open spec fn shows_unit_edit(
    step: Step,
    id: Option<i32>,
    input: UnitInput,
    kind: MessageKind,
    text: Seq<char>,
) -> bool {
    is_page(step) && (page_of(step) matches Page::UnitEdit(u, m) && is_unit(u, id, input)
        && is_message(m, kind, text))
}

/// The list of all units: only for `GET`; the list comes from the store.
pub open spec fn unit_table_step(method: Seq<char>, answers: Seq<Answer>, step: Step) -> bool {
    if method != "GET"@ {
        is_refusal(step)
    } else if answers.len() == 0 {
        step == Step::Ask(Query::UnitAll)
    } else {
        match answers[0] {
            Answer::Units(units) => shows(step, Page::UnitTable(units)),
            other => is_failure(step, failure_text(other)),
        }
    }
}

/// What this handler does next, given what the store has answered so
/// far: the step that `unit_table_step` describes.
pub fn handle_unit_table(method: &str, answers: &mut Vec<Answer>) -> (step: Step)
    ensures
        unit_table_step(method@, old(answers)@, step),
        step is Ask ==> final(answers)@ == old(answers)@,
{
    if !str_eq(method, "GET") {
        return refusal();
    }
    if answers.len() == 0 {
        return Step::Ask(Query::UnitAll);
    }
    match answers.remove(0) {
        Answer::Units(units) => show(Page::UnitTable(units)),
        other => failure_of(&other),
    }
}

/// The form for a new unit: `GET` shows it; `POST` reads it, stores the
/// unit and shows the form again with a notice of how that went; a number
/// that is no `i32` is a server error. No step at all where the form
/// cannot be read.
pub open spec fn unit_add_step(
    method: Seq<char>,
    body: Option<FormData>,
    answers: Seq<Answer>,
    step: Option<Step>,
) -> bool {
    if method == "GET"@ {
        step matches Some(s) && shows_unit_add(s, MessageKind::Blank, ""@)
    } else if method == "POST"@ {
        match unit_input(body) {
            None => step is None,
            Some(Err(e)) => step matches Some(s) && is_failure(s, int_error_text(e)),
            Some(Ok(input)) => step matches Some(s) && if answers.len() == 0 {
                s matches Step::Ask(Query::UnitInsert(unit)) && is_unit(unit, None, input)
            } else if !(answers[0] is Inserted) {
                shows_unit_add(
                    s,
                    MessageKind::Error,
                    "Tried adding unit(the unit number should be unique)"@,
                )
            } else {
                shows_unit_add(s, MessageKind::Notify, "Updated unit"@)
            },
        }
    } else {
        step matches Some(s) && is_refusal(s)
    }
}

/// What this handler does next, given what the store has answered so
/// far: the step that `unit_add_step` describes.
pub fn handle_unit_add(method: &str, body: &Option<FormData>, answers: &mut Vec<Answer>) -> (step:
    Option<Step>)
    ensures
        unit_add_step(method@, *body, old(answers)@, step),
        final(answers)@ == old(answers)@,
{
    if str_eq(method, "GET") {
        Some(show(Page::UnitAdd(Message::none())))
    } else if str_eq(method, "POST") {
        match read_unit(body) {
            None => None,
            Some(Err(e)) => Some(failure(e.describe())),
            Some(Ok(unit)) => {
                if answers.len() == 0 {
                    return Some(Step::Ask(Query::UnitInsert(unit)));
                }
                let message = match &answers[0] {
                    Answer::Inserted(_) => Message::new("Updated unit", MessageKind::Notify),
                    _ => Message::new(
                        "Tried adding unit(the unit number should be unique)",
                        MessageKind::Error,
                    ),
                };
                Some(show(Page::UnitAdd(message)))
            },
        }
    } else {
        Some(refusal())
    }
}

/// The form for the unit that the path names. Any method but `GET` and
/// `POST` is refused before anything else is read. `GET` shows the unit
/// as the store holds it; `POST` reads the form, stores the unit under
/// the same identifier and shows it as read, with a notice of how that
/// went. No step at all where the form cannot be read.
pub open spec fn unit_edit_step(
    method: Seq<char>,
    route: Seq<char>,
    body: Option<FormData>,
    answers: Seq<Answer>,
    step: Option<Step>,
) -> bool {
    if method != "GET"@ && method != "POST"@ {
        step matches Some(s) && is_refusal(s)
    } else {
        match route_arg(route, 2) {
            None => step matches Some(s) && is_failure(s, no_argument()),
            Some(arg) => if answers.len() == 0 {
                step == Some(Step::Ask(Query::UnitById(arg)))
            } else {
                match answers[0] {
                    Answer::UnitItem(unit) => if method == "GET"@ {
                        step matches Some(s) && is_page(s) && (page_of(s) matches Page::UnitEdit(u, m)
                            && u == unit && is_message(m, MessageKind::Blank, ""@))
                    } else {
                        match unit_input(body) {
                            None => step is None,
                            Some(Err(e)) => step matches Some(s) && is_failure(s, int_error_text(e)),
                            Some(Ok(input)) => step matches Some(s) && if answers.len() == 1 {
                                s matches Step::Ask(Query::UnitUpdate(u)) && is_unit(
                                    u,
                                    Some(arg),
                                    input,
                                )
                            } else {
                                match answers[1] {
                                    Answer::Done => shows_unit_edit(
                                        s,
                                        Some(arg),
                                        input,
                                        MessageKind::Notify,
                                        "Updated unit"@,
                                    ),
                                    other => shows_unit_edit(
                                        s,
                                        Some(arg),
                                        input,
                                        MessageKind::Error,
                                        "Tried updating unit: "@ + failure_text(other),
                                    ),
                                }
                            },
                        }
                    },
                    other => step matches Some(s) && is_failure(s, failure_text(other)),
                }
            },
        }
    }
}

/// What this handler does next, given what the store has answered so
/// far: the step that `unit_edit_step` describes.
pub fn handle_unit_edit(
    method: &str,
    route: &str,
    body: &Option<FormData>,
    answers: &mut Vec<Answer>,
) -> (step: Option<Step>)
    ensures
        unit_edit_step(method@, route@, *body, old(answers)@, step),
        step matches Some(Step::Ask(_)) ==> final(answers)@ == old(answers)@,
{
    if !str_eq(method, "GET") && !str_eq(method, "POST") {
        return Some(refusal());
    }
    let arg = match get_route_arg(route, 2) {
        Some(x) => x,
        None => {
            return Some(failure("Couldn't get arguments from url"));
        },
    };
    if answers.len() == 0 {
        return Some(Step::Ask(Query::UnitById(arg)));
    }
    match &answers[0] {
        Answer::UnitItem(_) => {},
        other => {
            return Some(failure_of(other));
        },
    }
    if str_eq(method, "GET") {
        match answers.remove(0) {
            Answer::UnitItem(unit) => Some(show(Page::UnitEdit(unit, Message::none()))),
            other => Some(failure_of(&other)),
        }
    } else {
        match read_unit(body) {
            None => None,
            Some(Err(e)) => Some(failure(e.describe())),
            Some(Ok(unit)) => {
                let mut unit = unit;
                unit.set_id(arg);
                if answers.len() == 1 {
                    return Some(Step::Ask(Query::UnitUpdate(unit)));
                }
                let message = match &answers[1] {
                    Answer::Done => Message::new("Updated unit", MessageKind::Notify),
                    other => {
                        let text = String::from_str("Tried updating unit: ").concat(
                            failure_reason(other),
                        );
                        Message::new(text.as_str(), MessageKind::Error)
                    },
                };
                Some(show(Page::UnitEdit(unit, message)))
            },
        }
    }
}

/// Removing the unit that the path names: only for `POST`; then a
/// redirect to the list.
pub open spec fn unit_delete_step(
    method: Seq<char>,
    route: Seq<char>,
    answers: Seq<Answer>,
    step: Step,
) -> bool {
    if method != "POST"@ {
        is_refusal(step)
    } else {
        match route_arg(route, 2) {
            None => is_failure(step, no_argument()),
            Some(arg) => if answers.len() == 0 {
                step == Step::Ask(Query::UnitDelete(arg))
            } else {
                match answers[0] {
                    Answer::Done => redirects(step, "/unit"@),
                    other => is_failure(step, failure_text(other)),
                }
            },
        }
    }
}

/// What this handler does next, given what the store has answered so
/// far: the step that `unit_delete_step` describes.
pub fn handle_unit_delete(method: &str, route: &str, answers: &mut Vec<Answer>) -> (step: Step)
    ensures
        unit_delete_step(method@, route@, old(answers)@, step),
        final(answers)@ == old(answers)@,
{
    if !str_eq(method, "POST") {
        return refusal();
    }
    let arg = match get_route_arg(route, 2) {
        Some(x) => x,
        None => {
            return failure("Couldn't get arguments from url");
        },
    };
    if answers.len() == 0 {
        return Step::Ask(Query::UnitDelete(arg));
    }
    match &answers[0] {
        Answer::Done => Step::Reply(Response::found("/unit")),
        other => failure_of(other),
    }
}

/// The equipment of the unit that the path names: only for `GET`.
pub open spec fn view_unit_tech_step(
    method: Seq<char>,
    route: Seq<char>,
    answers: Seq<Answer>,
    step: Step,
) -> bool {
    if method != "GET"@ {
        is_refusal(step)
    } else {
        match route_arg(route, 2) {
            None => is_failure(step, no_argument()),
            Some(arg) => if answers.len() == 0 {
                step == Step::Ask(Query::TechByUnit(arg))
            } else {
                match answers[0] {
                    Answer::TechUnits(tech) => shows(step, Page::TechOfUnit(tech)),
                    other => is_failure(step, failure_text(other)),
                }
            },
        }
    }
}

/// What this handler does next, given what the store has answered so
/// far: the step that `view_unit_tech_step` describes.
pub fn handle_view_unit_tech(method: &str, route: &str, answers: &mut Vec<Answer>) -> (step: Step)
    ensures
        view_unit_tech_step(method@, route@, old(answers)@, step),
        step is Ask ==> final(answers)@ == old(answers)@,
{
    if !str_eq(method, "GET") {
        return refusal();
    }
    let arg = match get_route_arg(route, 2) {
        Some(x) => x,
        None => {
            return failure("Couldn't get arguments from url");
        },
    };
    if answers.len() == 0 {
        return Step::Ask(Query::TechByUnit(arg));
    }
    match answers.remove(0) {
        Answer::TechUnits(tech) => show(Page::TechOfUnit(tech)),
        other => failure_of(&other),
    }
}

/// The units with links to their equipment: only for `GET`.
pub open spec fn unit_tech_step(method: Seq<char>, answers: Seq<Answer>, step: Step) -> bool {
    if method != "GET"@ {
        is_refusal(step)
    } else if answers.len() == 0 {
        step == Step::Ask(Query::UnitAll)
    } else {
        match answers[0] {
            Answer::Units(units) => shows(step, Page::UnitView(units)),
            other => is_failure(step, failure_text(other)),
        }
    }
}

/// What this handler does next, given what the store has answered so
/// far: the step that `unit_tech_step` describes.
pub fn handle_unit_tech(method: &str, answers: &mut Vec<Answer>) -> (step: Step)
    ensures
        unit_tech_step(method@, old(answers)@, step),
        step is Ask ==> final(answers)@ == old(answers)@,
{
    if !str_eq(method, "GET") {
        return refusal();
    }
    if answers.len() == 0 {
        return Step::Ask(Query::UnitAll);
    }
    match answers.remove(0) {
        Answer::Units(units) => show(Page::UnitView(units)),
        other => failure_of(&other),
    }
}

} // verus!
