//! One connection, from its first line to its response. The connection
//! decides; its caller reads, asks the store, renders and writes. Each
//! event that the caller hands in moves the connection one step on and
//! yields the next thing to do. One request is served, then the
//! connection is closed.

use vstd::prelude::*;
use crate::controller::{handle_transfer_add, handle_transfer_edit, handle_transfer_table,
    handle_welcome, transfer_add_step, transfer_edit_step, transfer_table_step, welcome_step};
use crate::employee_controller::{employee_add_step, employee_delete_step, employee_edit_step,
    employee_table_step, employee_tech_step, handle_employee_add, handle_employee_delete,
    handle_employee_edit, handle_employee_table, handle_employee_tech, handle_view_employee_tech,
    view_employee_tech_step};
use crate::form::{form_map, parse_form_data, FormData};
use crate::pages::{is_error_page, Page};
use crate::request::{accept_line, blank_line, body_bytes, content_length_of, finish_head,
    wanted_body};
use crate::response::{form_response, response_text, status_line, Response, Status};
use crate::route::{find_handler, has_request_line, request_method, request_path, route_arg,
    standard_route, try_get_route, Handler};
use crate::store::{is_failure, is_refusal, no_argument, Answer, Query, Step};
use crate::tech_controller::{handle_tech_add, handle_tech_delete, handle_tech_edit,
    handle_tech_table, tech_add_step, tech_delete_step, tech_edit_step, tech_table_step};
use crate::text::replace_char;
use crate::unit_controller::{handle_unit_add, handle_unit_delete, handle_unit_edit,
    handle_unit_table, handle_unit_tech, handle_view_unit_tech, unit_add_step, unit_delete_step,
    unit_edit_step, unit_table_step, unit_tech_step, view_unit_tech_step};

verus! {

/// Whether `step` is the step of `handler` for this request and these
/// answers of the store.
pub open spec fn handler_step(
    handler: Handler,
    method: Seq<char>,
    route: Seq<char>,
    body: Option<FormData>,
    answers: Seq<Answer>,
    step: Option<Step>,
) -> bool {
    match handler {
        Handler::Welcome => step matches Some(s) && welcome_step(method, s),
        Handler::TechTable => step matches Some(s) && tech_table_step(method, answers, s),
        Handler::TechAdd => tech_add_step(method, body, answers, step),
        Handler::UnitTable => step matches Some(s) && unit_table_step(method, answers, s),
        Handler::UnitAdd => unit_add_step(method, body, answers, step),
        Handler::EmployeeTable => step matches Some(s) && employee_table_step(method, answers, s),
        Handler::EmployeeAdd => employee_add_step(method, body, answers, step),
        Handler::TransferTable => step matches Some(s) && transfer_table_step(method, answers, s),
        Handler::TransferAdd => transfer_add_step(method, body, answers, step),
        Handler::UnitTech => step matches Some(s) && unit_tech_step(method, answers, s),
        Handler::EmployeeTech => step matches Some(s) && employee_tech_step(method, answers, s),
        Handler::TechEdit => tech_edit_step(method, route, body, answers, step),
        Handler::TechDelete => step matches Some(s) && tech_delete_step(method, route, answers, s),
        Handler::UnitEdit => unit_edit_step(method, route, body, answers, step),
        Handler::UnitDelete => step matches Some(s) && unit_delete_step(method, route, answers, s),
        Handler::EmployeeEdit => employee_edit_step(method, route, body, answers, step),
        Handler::EmployeeDelete => step matches Some(s) && employee_delete_step(
            method,
            route,
            answers,
            s,
        ),
        Handler::TransferEdit => transfer_edit_step(method, route, body, answers, step),
        Handler::ViewUnitTech => step matches Some(s) && view_unit_tech_step(
            method,
            route,
            answers,
            s,
        ),
        Handler::ViewEmployeeTech => step matches Some(s) && view_employee_tech_step(
            method,
            route,
            answers,
            s,
        ),
    }
}

/// Whether `step` replies that there is no such page.
pub open spec fn is_not_found(step: Step) -> bool {
    step matches Step::Reply(r) && r.status is NotFound && is_error_page(
        r.page,
        "Not found"@,
        "Not found"@,
    )
}

/// Whether `step` is the step of the service for this request and these
/// answers of the store: that of the handler which the route table gives
/// the path, and the reply that there is no such page where it gives
/// none. No step at all where the handler cannot read the request.
pub open spec fn respond_step(
    method: Seq<char>,
    route: Seq<char>,
    body: Option<FormData>,
    answers: Seq<Answer>,
    step: Option<Step>,
) -> bool {
    match standard_route(route) {
        Some(handler) => handler_step(handler, method, route, body, answers, step),
        None => step matches Some(s) && is_not_found(s),
    }
}

/// The step of `handler` for a request and the answers that the store has
/// given so far.
pub fn dispatch(
    handler: Handler,
    method: &str,
    route: &str,
    body: &Option<FormData>,
    answers: &mut Vec<Answer>,
) -> (step: Option<Step>)
    ensures
        handler_step(handler, method@, route@, *body, old(answers)@, step),
        step matches Some(Step::Ask(_)) ==> final(answers)@ == old(answers)@,
{
    match handler {
        Handler::Welcome => Some(handle_welcome(method)),
        Handler::TechTable => Some(handle_tech_table(method, answers)),
        Handler::TechAdd => handle_tech_add(method, body, answers),
        Handler::UnitTable => Some(handle_unit_table(method, answers)),
        Handler::UnitAdd => handle_unit_add(method, body, answers),
        Handler::EmployeeTable => Some(handle_employee_table(method, answers)),
        Handler::EmployeeAdd => handle_employee_add(method, body, answers),
        Handler::TransferTable => Some(handle_transfer_table(method, answers)),
        Handler::TransferAdd => handle_transfer_add(method, body, answers),
        Handler::UnitTech => Some(handle_unit_tech(method, answers)),
        Handler::EmployeeTech => Some(handle_employee_tech(method, answers)),
        Handler::TechEdit => handle_tech_edit(method, route, body, answers),
        Handler::TechDelete => Some(handle_tech_delete(method, route, answers)),
        Handler::UnitEdit => handle_unit_edit(method, route, body, answers),
        Handler::UnitDelete => Some(handle_unit_delete(method, route, answers)),
        Handler::EmployeeEdit => handle_employee_edit(method, route, body, answers),
        Handler::EmployeeDelete => Some(handle_employee_delete(method, route, answers)),
        Handler::TransferEdit => handle_transfer_edit(method, route, body, answers),
        Handler::ViewUnitTech => Some(handle_view_unit_tech(method, route, answers)),
        Handler::ViewEmployeeTech => Some(handle_view_employee_tech(method, route, answers)),
    }
}

/// The step of the service for a request and the answers that the store
/// has given so far.
pub fn respond(method: &str, route: &str, body: &Option<FormData>, answers: &mut Vec<Answer>) -> (step:
    Option<Step>)
    ensures
        respond_step(method@, route@, *body, old(answers)@, step),
        step matches Some(Step::Ask(_)) ==> final(answers)@ == old(answers)@,
{
    match find_handler(route) {
        Some(handler) => dispatch(handler, method, route, body, answers),
        None => Some(Step::Reply(Response::not_found())),
    }
}

/// Whether `handler` takes an argument from the path and this method is
/// one that it accepts: the argument is the first thing that it reads
/// once the method is found in order.
pub open spec fn reads_argument(handler: Handler, method: Seq<char>) -> bool {
    match handler {
        Handler::TechEdit | Handler::UnitEdit | Handler::EmployeeEdit | Handler::TransferEdit => {
            method == "GET"@ || method == "POST"@
        },
        Handler::TechDelete | Handler::UnitDelete | Handler::EmployeeDelete => method == "POST"@,
        Handler::ViewUnitTech | Handler::ViewEmployeeTech => method == "GET"@,
        _ => false,
    }
}

/// A request whose path holds no integer where the handler reads its
/// argument is answered with a server error that says so, whatever else
/// the request holds, and the store is not asked.
pub proof fn lemma_missing_argument_fails(
    handler: Handler,
    method: Seq<char>,
    route: Seq<char>,
    body: Option<FormData>,
    answers: Seq<Answer>,
    step: Option<Step>,
)
    requires
        reads_argument(handler, method),
        route_arg(route, 2) is None,
        handler_step(handler, method, route, body, answers, step),
    ensures
        step matches Some(s) && is_failure(s, no_argument()),
{
}

/// A request with a method other than `GET` and `POST` is refused by
/// every handler before it reads anything else: the path argument is not
/// looked at and the store is not asked.
pub proof fn lemma_other_method_refused(
    handler: Handler,
    method: Seq<char>,
    route: Seq<char>,
    body: Option<FormData>,
    answers: Seq<Answer>,
    step: Option<Step>,
)
    requires
        method != "GET"@,
        method != "POST"@,
        handler_step(handler, method, route, body, answers, step),
    ensures
        step matches Some(s) && is_refusal(s),
{
}

/// A path that the route table knows no handler for is answered with the
/// reply that there is no such page, and the store is not asked.
pub proof fn lemma_unknown_path_not_found(
    method: Seq<char>,
    route: Seq<char>,
    body: Option<FormData>,
    answers: Seq<Answer>,
    step: Option<Step>,
)
    requires
        standard_route(route) is None,
        respond_step(method, route, body, answers, step),
    ensures
        step matches Some(s) && is_not_found(s),
{
}

/// A reply of the service that redirects carries no content.
pub proof fn lemma_redirect_has_no_content(
    method: Seq<char>,
    route: Seq<char>,
    body: Option<FormData>,
    answers: Seq<Answer>,
    reply: Response,
)
    requires
        respond_step(method, route, body, answers, Some(Step::Reply(reply))),
        reply.status is Found,
    ensures
        reply.page is Empty,
{
}

/// Where a connection stands.
#[derive(Clone, Copy, Debug, PartialEq, Eq, Structural)]
pub enum Phase {
    /// The head is being read, line by line.
    Head,
    /// The head is read; the body is awaited.
    Body,
    /// The request is read; the store is at work for its handler.
    Handling,
    /// The handler has replied; the page is being rendered.
    Rendering,
    /// Nothing more happens on this connection.
    Closed,
}

/// What came in for a connection.
#[derive(Debug, PartialEq)]
pub enum Event {
    /// A line of the head, with its line ending.
    Line(String),
    /// The body, as long as the head declared it.
    Body(String),
    /// The answer of the store to what was asked last.
    Answered(Answer),
    /// The markup of the page that was to be rendered.
    Rendered(String),
    /// Reading failed, or the peer has closed the connection.
    Failed,
}

/// What is to be done next for a connection.
#[derive(Debug, PartialEq)]
pub enum Action {
    /// Read one more line of the head.
    ReadLine,
    /// Read exactly this many bytes of body.
    ReadBody(u32),
    /// Ask the store.
    Ask(Query),
    /// Render this page.
    Render(Page),
    /// Write this response, then close the connection.
    Write(String),
    /// Close the connection without a response.
    Close,
}

/// One connection and the request that it carries.
#[derive(Debug)]
pub struct Connection {
    pub phase: Phase,
    /// The lines of the head that were read so far.
    pub head: String,
    /// The length that the head declares for the body.
    pub content_length: u32,
    pub method: String,
    pub route: String,
    pub body: Option<FormData>,
    /// What the store has answered so far.
    pub answers: Vec<Answer>,
    /// The status of the reply.
    pub status: Status,
}

/// The step of the handler that an action and the state after it stand
/// for.
pub open spec fn step_of(post: Connection, action: Action) -> Option<Step> {
    match action {
        Action::Ask(query) => Some(Step::Ask(query)),
        Action::Render(page) => Some(Step::Reply(Response { status: post.status, page })),
        _ => None,
    }
}

/// Whether a connection has handed its request, with these answers, to
/// the service and taken the service's step: it closes where there is no
/// step, asks the store what the handler asks, and has the page of a
/// reply rendered.
pub open spec fn handled(answers: Seq<Answer>, post: Connection, action: Action) -> bool {
    &&& respond_step(post.method@, post.route@, post.body, answers, step_of(post, action))
    &&& match action {
        Action::Ask(_) => post.phase is Handling && post.answers@ == answers,
        Action::Render(_) => post.phase is Rendering,
        Action::Close => post.phase is Closed,
        _ => false,
    }
}

/// Whether the request of a connection is the same after a step.
pub open spec fn same_request(pre: Connection, post: Connection) -> bool {
    post.method == pre.method && post.route == pre.route && post.body == pre.body
}

/// The step of a connection: the state after an event and what is to be
/// done next.
pub open spec fn transition(pre: Connection, event: Event, post: Connection, action: Action) -> bool {
    match (pre.phase, event) {
        (Phase::Head, Event::Line(line)) => if line@ != blank_line() {
            &&& action is ReadLine
            &&& post.phase is Head
            &&& post.head@ == pre.head@ + line@
            &&& post.content_length == match content_length_of(line@) {
                Some(n) => n,
                None => pre.content_length,
            }
        } else {
            let text = replace_char(pre.head@, '+', ' ');
            if !has_request_line(text) {
                action is Close && post.phase is Closed
            } else {
                &&& post.method@ == request_method(text)
                &&& post.route@ == request_path(text)
                &&& if body_bytes(post.method@, pre.content_length) != 0 {
                    &&& action == Action::ReadBody(pre.content_length)
                    &&& post.phase is Body
                } else {
                    post.body is None && handled(Seq::empty(), post, action)
                }
            }
        },
        (Phase::Body, Event::Body(payload)) => {
            &&& post.method == pre.method
            &&& post.route == pre.route
            &&& post.body matches Some(form) && form@ == form_map(payload@)
            &&& handled(Seq::empty(), post, action)
        },
        (Phase::Handling, Event::Answered(answer)) => {
            &&& same_request(pre, post)
            &&& handled(pre.answers@.push(answer), post, action)
        },
        (Phase::Rendering, Event::Rendered(markup)) => {
            &&& post.phase is Closed
            &&& action matches Action::Write(text) && text@ == response_text(
                status_line(pre.status),
                markup@,
            )
        },
        _ => action is Close && post.phase is Closed,
    }
}

/// A body is read only for a `POST` whose head declares one, and then in
/// exactly the declared length.
pub proof fn lemma_body_read_only_for_post(
    pre: Connection,
    event: Event,
    post: Connection,
    action: Action,
    length: u32,
)
    requires
        transition(pre, event, post, action),
        action == Action::ReadBody(length),
    ensures
        pre.phase is Head,
        post.method@ == "POST"@,
        length == pre.content_length,
        length != 0,
{
}

/// A response is written only for a page that was rendered, and ends the
/// connection.
pub proof fn lemma_write_ends_connection(
    pre: Connection,
    event: Event,
    post: Connection,
    action: Action,
)
    requires
        transition(pre, event, post, action),
        action is Write,
    ensures
        pre.phase is Rendering,
        event is Rendered,
        post.phase is Closed,
{
}

/// Nothing more happens on a closed connection: one request is served,
/// no second one.
pub proof fn lemma_closed_stays_closed(
    pre: Connection,
    event: Event,
    post: Connection,
    action: Action,
)
    requires
        pre.phase is Closed,
        transition(pre, event, post, action),
    ensures
        post.phase is Closed,
        action is Close,
{
}

impl Connection {
    /// A connection that was just accepted: nothing of a request is read
    /// yet, the store was not asked, and the first thing to do is to read
    /// a line.
    pub fn new() -> (c: Connection)
        ensures
            c.phase is Head,
            c.head@ == Seq::<char>::empty(),
            c.content_length == 0,
            c.method@ == Seq::<char>::empty(),
            c.route@ == Seq::<char>::empty(),
            c.body is None,
            c.answers@ == Seq::<Answer>::empty(),
            c.status is Okay,
    {
        Connection {
            phase: Phase::Head,
            head: String::new(),
            content_length: 0,
            method: String::new(),
            route: String::new(),
            body: None,
            answers: Vec::new(),
            status: Status::Okay,
        }
    }

    fn close(&mut self) -> (action: Action)
        ensures
            action is Close,
            final(self).phase is Closed,
            same_request(*old(self), *final(self)),
    {
        self.phase = Phase::Closed;
        Action::Close
    }

    /// Hands the request to the service.
    fn handle(&mut self) -> (action: Action)
        ensures
            same_request(*old(self), *final(self)),
            handled(old(self).answers@, *final(self), action),
    {
        match respond(self.method.as_str(), self.route.as_str(), &self.body, &mut self.answers) {
            None => self.close(),
            Some(Step::Ask(query)) => {
                self.phase = Phase::Handling;
                Action::Ask(query)
            },
            Some(Step::Reply(response)) => {
                self.phase = Phase::Rendering;
                self.status = response.status;
                Action::Render(response.page)
            },
        }
    }

    /// Takes what came in and says what is to be done next.
    pub fn advance(&mut self, event: Event) -> (action: Action)
        ensures
            transition(*old(self), event, *final(self), action),
    {
        match (self.phase, event) {
            (Phase::Head, Event::Line(line)) => {
                if !accept_line(&mut self.head, &mut self.content_length, line.as_str()) {
                    return Action::ReadLine;
                }
                let text = finish_head(self.head.as_str());
                match try_get_route(text.as_str()) {
                    None => self.close(),
                    Some((method, route)) => {
                        self.method = method.to_owned();
                        self.route = route.to_owned();
                        if wanted_body(method, self.content_length) != 0 {
                            self.phase = Phase::Body;
                            Action::ReadBody(self.content_length)
                        } else {
                            self.body = None;
                            self.answers = Vec::new();
                            self.handle()
                        }
                    },
                }
            },
            (Phase::Body, Event::Body(payload)) => {
                self.body = Some(parse_form_data(payload.as_str()));
                self.answers = Vec::new();
                self.handle()
            },
            (Phase::Handling, Event::Answered(answer)) => {
                self.answers.push(answer);
                self.handle()
            },
            (Phase::Rendering, Event::Rendered(markup)) => {
                self.phase = Phase::Closed;
                let line = self.status.line();
                Action::Write(form_response(line.as_str(), markup.as_str()))
            },
            _ => self.close(),
        }
    }
}

} // verus!
