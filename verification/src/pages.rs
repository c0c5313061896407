//! What a page shows: the notice on a form, the state of a two-step form,
//! and the description of each page with the records it presents. Turning
//! a description into markup is left to the caller.

use vstd::prelude::*;
use crate::date::Date;
use crate::model::{Employee, Room, Tech, TechEmployee, TechUnit, TransferDetails, TransferUnit,
    Unit};

verus! {

#[derive(Clone, Copy, Debug, PartialEq, Eq, Structural)]
pub enum MessageKind {
    Success,
    Error,
    Notify,
    /// No notice.
    Blank,
}

/// A notice shown under a form.
#[derive(Debug, PartialEq)]
pub struct Message {
    pub kind: MessageKind,
    pub content: String,
}

/// What the first step of a transfer form has settled, with the employees
/// to choose from in the second.
#[derive(Debug, PartialEq)]
pub struct Session {
    pub tech_id: i32,
    pub unit_id: i32,
    pub room_id: i32,
    pub date: Date,
    pub accountable_employees: Vec<Employee>,
}

impl Message {
    /// A notice of this kind with this text.
    pub fn new(content: &str, kind: MessageKind) -> (m: Message)
        ensures
            m.kind == kind,
            m.content@ == content@,
    {
        Message { kind, content: content.to_owned() }
    }

    /// No notice at all.
    pub fn none() -> (m: Message)
        ensures
            m.kind == MessageKind::Blank,
            m.content@ == ""@,
            m.content@ == Seq::<char>::empty(),
    {
        proof {
            reveal_strlit("");
            assert(""@ =~= Seq::<char>::empty());
        }
        Message { kind: MessageKind::Blank, content: String::new() }
    }
}

/// The style class of each kind of notice.
pub open spec fn elem_class(kind: MessageKind) -> Seq<char> {
    match kind {
        MessageKind::Success => "success"@,
        MessageKind::Notify => "notify"@,
        MessageKind::Error => "error"@,
        MessageKind::Blank => ""@,
    }
}

/// The style class of a kind of notice.
pub fn get_elem_class(message_kind: MessageKind) -> (class: String)
    ensures
        class@ == elem_class(message_kind),
{
    match message_kind {
        MessageKind::Success => "success".to_owned(),
        MessageKind::Notify => "notify".to_owned(),
        MessageKind::Error => "error".to_owned(),
        MessageKind::Blank => "".to_owned(),
    }
}

/// What `accessor` makes of the value, or `default` where there is none.
pub fn get_or_def<T, F>(option: &Option<T>, default: &str, accessor: F) -> (text: String) where
    F: Fn(&T) -> String,

    requires
        option matches Some(value) ==> accessor.requires((&value,)),
    ensures
        match option {
            Some(value) => accessor.ensures((&value,), text),
            None => text@ == default@,
        },
{
    match option {
        Some(value) => accessor(value),
        None => default.to_owned(),
    }
}

/// A page, described by what it presents.
#[derive(Debug, PartialEq)]
pub enum Page {
    /// No content at all.
    Empty,
    /// The error page with its title and the reason it gives.
    Error { title: String, error_name: String },
    Welcome,
    TechTable(Vec<Tech>),
    /// The equipment that one unit holds.
    TechOfUnit(Vec<TechUnit>),
    /// The equipment that one employee answers for.
    TechOfEmployee(Vec<TechEmployee>),
    TechAdd(Message),
    TechEdit(Tech, Message),
    UnitTable(Vec<Unit>),
    /// The units, each with a link to its equipment.
    UnitView(Vec<Unit>),
    UnitAdd(Message),
    UnitEdit(Unit, Message),
    EmployeeTable(Vec<Employee>),
    /// The employees, each with a link to their equipment.
    EmployeeView(Vec<Employee>),
    EmployeeAdd(Vec<Unit>, Message),
    EmployeeEdit(Employee, Vec<Unit>, Message),
    TransferTable(Vec<TransferDetails>),
    TransferAdd {
        tech: Vec<Tech>,
        units: Vec<Unit>,
        rooms: Vec<Room>,
        session: Option<Session>,
        message: Message,
    },
    TransferEdit {
        tech: Vec<Tech>,
        units: Vec<Unit>,
        rooms: Vec<Room>,
        transfer: TransferUnit,
        session: Option<Session>,
        message: Message,
    },
}

/// Whether `page` is the error page with this title and this reason.
pub open spec fn is_error_page(page: Page, title: Seq<char>, reason: Seq<char>) -> bool {
    page matches Page::Error { title: t, error_name: e } && t@ == title && e@ == reason
}

/// Whether `message` is the notice of this kind with this text.
pub open spec fn is_message(message: Message, kind: MessageKind, content: Seq<char>) -> bool {
    message.kind == kind && message.content@ == content
}

} // verus!
