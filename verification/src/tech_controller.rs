//! The handlers of the equipment pages.

use vstd::prelude::*;
use crate::date::{date_from_text, date_of, Date};
use crate::form::FormData;
use crate::model::Tech;
use crate::number::{int_error_text, parse_i32, read_i32_text, IntError};
use crate::pages::{is_message, Message, MessageKind, Page};
use crate::route::{get_route_arg, route_arg};
use crate::store::{failure, failure_of, failure_text, field, get_field, is_failure, is_page,
    is_refusal, no_argument, page_of, redirects, refusal, show, shows, Answer, Query, Step};
use crate::response::Response;
use crate::text::str_eq;

verus! {

/// What the equipment form holds: inventory number, name, model, date of
/// acquisition and price.
pub type TechInput = (i32, Seq<char>, Seq<char>, Date, i32);

/// What a body holds as an equipment form: `None` where it cannot be read
/// at all (no body, a field that is missing, a date that is none), an
/// error where the price or the inventory number is no `i32`.
pub open spec fn tech_input(body: Option<FormData>) -> Option<Result<TechInput, IntError>> {
    match field(body, "price"@) {
        None => None,
        Some(price_text) => match parse_i32(price_text) {
            Err(e) => Some(Err(e)),
            Ok(price) => match field(body, "inventory_number"@) {
                None => None,
                Some(number_text) => match parse_i32(number_text) {
                    Err(e) => Some(Err(e)),
                    Ok(number) => match (
                        field(body, "name"@),
                        field(body, "model"@),
                        field(body, "acquisition_date"@),
                    ) {
                        (Some(name), Some(model), Some(date_text)) => match date_of(
                            date_from_text(date_text),
                        ) {
                            Some(date) => Some(Ok((number, name, model, date, price))),
                            None => None,
                        },
                        _ => None,
                    },
                },
            },
        },
    }
}

/// Whether `tech` is the equipment of a form, under this identifier.
pub open spec fn is_tech(tech: Tech, id: Option<i32>, input: TechInput) -> bool {
    &&& tech.id == id
    &&& tech.inventory_number == input.0
    &&& tech.name@ == input.1
    &&& tech.model@ == input.2
    &&& tech.acquisition_date == input.3
    &&& tech.price == input.4
}

/// Reads a body as an equipment form.
pub fn read_tech(body: &Option<FormData>) -> (r: Option<Result<Tech, IntError>>)
    ensures
        match tech_input(*body) {
            None => r is None,
            Some(Err(e)) => r == Some(Err::<Tech, IntError>(e)),
            Some(Ok(input)) => r matches Some(Ok(tech)) && is_tech(tech, None, input),
        },
{
    let price = match get_field(body, "price") {
        Some(text) => match read_i32_text(text) {
            Ok(n) => n,
            Err(e) => {
                return Some(Err(e));
            },
        },
        None => {
            return None;
        },
    };
    let number = match get_field(body, "inventory_number") {
        Some(text) => match read_i32_text(text) {
            Ok(n) => n,
            Err(e) => {
                return Some(Err(e));
            },
        },
        None => {
            return None;
        },
    };
    match (get_field(body, "name"), get_field(body, "model"), get_field(body, "acquisition_date")) {
        (Some(name), Some(model), Some(date)) => match Tech::try_new(
            number,
            name,
            model,
            date,
            price,
        ) {
            Some(tech) => Some(Ok(tech)),
            None => None,
        },
        _ => None,
    }
}

/// Whether `step` shows the form for new equipment with this notice.
pub open spec fn shows_tech_add(step: Step, kind: MessageKind, text: Seq<char>) -> bool {
    is_page(step) && (page_of(step) matches Page::TechAdd(m) && is_message(m, kind, text))
}

/// Whether `step` shows the form for this equipment with this notice.
pub open spec fn shows_tech_edit(
    step: Step,
    id: Option<i32>,
    input: TechInput,
    kind: MessageKind,
    text: Seq<char>,
) -> bool {
    is_page(step) && (page_of(step) matches Page::TechEdit(t, m) && is_tech(t, id, input)
        && is_message(m, kind, text))
}

/// The list of all equipment: only for `GET`; the list comes from the
/// store.
pub open spec fn tech_table_step(method: Seq<char>, answers: Seq<Answer>, step: Step) -> bool {
    if method != "GET"@ {
        is_refusal(step)
    } else if answers.len() == 0 {
        step == Step::Ask(Query::TechAll)
    } else {
        match answers[0] {
            Answer::TechList(tech) => shows(step, Page::TechTable(tech)),
            other => is_failure(step, failure_text(other)),
        }
    }
}

/// What this handler does next, given what the store has answered so
/// far: the step that `tech_table_step` describes.
pub fn handle_tech_table(method: &str, answers: &mut Vec<Answer>) -> (step: Step)
    ensures
        tech_table_step(method@, old(answers)@, step),
        step is Ask ==> final(answers)@ == old(answers)@,
{
    if !str_eq(method, "GET") {
        return refusal();
    }
    if answers.len() == 0 {
        return Step::Ask(Query::TechAll);
    }
    match answers.remove(0) {
        Answer::TechList(tech) => show(Page::TechTable(tech)),
        other => failure_of(&other),
    }
}

/// The form for new equipment: `GET` shows it; `POST` reads it, stores
/// the equipment and shows the form again with a notice of how that went;
/// a price or inventory number that is no `i32` is a server error. No
/// step at all where the form cannot be read.
pub open spec fn tech_add_step(
    method: Seq<char>,
    body: Option<FormData>,
    answers: Seq<Answer>,
    step: Option<Step>,
) -> bool {
    if method == "GET"@ {
        step matches Some(s) && shows_tech_add(s, MessageKind::Blank, ""@)
    } else if method == "POST"@ {
        match tech_input(body) {
            None => step is None,
            Some(Err(e)) => step matches Some(s) && is_failure(s, int_error_text(e)),
            Some(Ok(input)) => step matches Some(s) && if answers.len() == 0 {
                s matches Step::Ask(Query::TechInsert(tech)) && is_tech(tech, None, input)
            } else if !(answers[0] is Inserted) {
                shows_tech_add(s, MessageKind::Error, "Failed to add tech"@)
            } else {
                shows_tech_add(s, MessageKind::Notify, "Added tech"@)
            },
        }
    } else {
        step matches Some(s) && is_refusal(s)
    }
}

/// What this handler does next, given what the store has answered so
/// far: the step that `tech_add_step` describes.
pub fn handle_tech_add(method: &str, body: &Option<FormData>, answers: &mut Vec<Answer>) -> (step:
    Option<Step>)
    ensures
        tech_add_step(method@, *body, old(answers)@, step),
        final(answers)@ == old(answers)@,
{
    if str_eq(method, "GET") {
        let message = Message::none();
        Some(show(Page::TechAdd(message)))
    } else if str_eq(method, "POST") {
        match read_tech(body) {
            None => None,
            Some(Err(e)) => Some(failure(e.describe())),
            Some(Ok(tech)) => {
                if answers.len() == 0 {
                    return Some(Step::Ask(Query::TechInsert(tech)));
                }
                let message = match &answers[0] {
                    Answer::Inserted(_) => Message::new("Added tech", MessageKind::Notify),
                    _ => Message::new("Failed to add tech", MessageKind::Error),
                };
                Some(show(Page::TechAdd(message)))
            },
        }
    } else {
        Some(refusal())
    }
}

/// The form for one piece of equipment, which the path names. Any method
/// but `GET` and `POST` is refused before anything else is read. `GET`
/// shows the equipment as the store holds it; `POST` reads the form,
/// stores the equipment under the same identifier and shows it as read.
/// No step at all where the form cannot be read.
pub open spec fn tech_edit_step(
    method: Seq<char>,
    route: Seq<char>,
    body: Option<FormData>,
    answers: Seq<Answer>,
    step: Option<Step>,
) -> bool {
    if method != "GET"@ && method != "POST"@ {
        step matches Some(s) && is_refusal(s)
    } else {
        match route_arg(route, 2) {
            None => step matches Some(s) && is_failure(s, no_argument()),
            Some(arg) => if answers.len() == 0 {
                step == Some(Step::Ask(Query::TechById(arg)))
            } else {
                match answers[0] {
                    Answer::TechItem(tech) => if method == "GET"@ {
                        step matches Some(s) && is_page(s) && (page_of(s) matches Page::TechEdit(t, m)
                            && t == tech && is_message(m, MessageKind::Blank, ""@))
                    } else {
                        match tech_input(body) {
                            None => step is None,
                            Some(Err(e)) => step matches Some(s) && is_failure(s, int_error_text(e)),
                            Some(Ok(input)) => step matches Some(s) && if answers.len() == 1 {
                                s matches Step::Ask(Query::TechUpdate(t)) && is_tech(
                                    t,
                                    Some(arg),
                                    input,
                                )
                            } else {
                                shows_tech_edit(
                                    s,
                                    Some(arg),
                                    input,
                                    MessageKind::Notify,
                                    "Updated tech"@,
                                )
                            },
                        }
                    },
                    other => step matches Some(s) && is_failure(s, failure_text(other)),
                }
            },
        }
    }
}

/// What this handler does next, given what the store has answered so
/// far: the step that `tech_edit_step` describes.
pub fn handle_tech_edit(
    method: &str,
    route: &str,
    body: &Option<FormData>,
    answers: &mut Vec<Answer>,
) -> (step: Option<Step>)
    ensures
        tech_edit_step(method@, route@, *body, old(answers)@, step),
        step matches Some(Step::Ask(_)) ==> final(answers)@ == old(answers)@,
{
    if !str_eq(method, "GET") && !str_eq(method, "POST") {
        return Some(refusal());
    }
    let arg = match get_route_arg(route, 2) {
        Some(x) => x,
        None => {
            return Some(failure("Couldn't get arguments from url"));
        },
    };
    if answers.len() == 0 {
        return Some(Step::Ask(Query::TechById(arg)));
    }
    match &answers[0] {
        Answer::TechItem(_) => {},
        other => {
            return Some(failure_of(other));
        },
    }
    if str_eq(method, "GET") {
        match answers.remove(0) {
            Answer::TechItem(tech) => {
                Some(show(Page::TechEdit(tech, Message::none())))
            },
            other => Some(failure_of(&other)),
        }
    } else {
        match read_tech(body) {
            None => None,
            Some(Err(e)) => Some(failure(e.describe())),
            Some(Ok(tech)) => {
                let mut tech = tech;
                tech.set_id(arg);
                if answers.len() == 1 {
                    return Some(Step::Ask(Query::TechUpdate(tech)));
                }
                let message = Message::new("Updated tech", MessageKind::Notify);
                Some(show(Page::TechEdit(tech, message)))
            },
        }
    }
}

/// Removing the equipment that the path names: only for `POST`; then a
/// redirect to the list.
pub open spec fn tech_delete_step(
    method: Seq<char>,
    route: Seq<char>,
    answers: Seq<Answer>,
    step: Step,
) -> bool {
    if method != "POST"@ {
        is_refusal(step)
    } else {
        match route_arg(route, 2) {
            None => is_failure(step, no_argument()),
            Some(arg) => if answers.len() == 0 {
                step == Step::Ask(Query::TechDelete(arg))
            } else {
                match answers[0] {
                    Answer::Done => redirects(step, "/tech"@),
                    other => is_failure(step, failure_text(other)),
                }
            },
        }
    }
}

/// What this handler does next, given what the store has answered so
/// far: the step that `tech_delete_step` describes.
pub fn handle_tech_delete(method: &str, route: &str, answers: &mut Vec<Answer>) -> (step: Step)
    ensures
        tech_delete_step(method@, route@, old(answers)@, step),
        final(answers)@ == old(answers)@,
{
    if !str_eq(method, "POST") {
        return refusal();
    }
    let arg = match get_route_arg(route, 2) {
        Some(x) => x,
        None => {
            return failure("Couldn't get arguments from url");
        },
    };
    if answers.len() == 0 {
        return Step::Ask(Query::TechDelete(arg));
    }
    match &answers[0] {
        Answer::Done => Step::Reply(Response::found("/tech")),
        other => failure_of(other),
    }
}

} // verus!
