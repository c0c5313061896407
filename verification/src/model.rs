//! The records of the inventory: rooms, units, employees, equipment and
//! its transfers.

use vstd::prelude::*;
use crate::date::{date_from_text, date_of, Date};
use crate::number::{decimal_int, decimal_int_string};
use vstd::string::StringExecFns;

verus! {

/// The identifier held, or `absent` where none is.
pub open spec fn id_or(id: Option<i32>, absent: i32) -> i32 {
    match id {
        Some(i) => i,
        None => absent,
    }
}

/// The number held, or zero where none is.
pub open spec fn or_zero(n: Option<i32>) -> i32 {
    id_or(n, 0)
}

#[derive(Debug, PartialEq)]
pub struct Room {
    /// `None` until the record has been stored.
    pub id: Option<i32>,
    pub room_number: i32,
    pub squares: i32,
}

impl Room {
    /// The room that a row of the store holds.
    pub fn from_row(id: Option<i32>, room_number: i32, squares: i32) -> (r: Room)
        ensures
            r.id == id,
            r.room_number == room_number,
            r.squares == squares,
    {
        Room { id, room_number, squares }
    }

    /// `number: N, squares: S`, both in base ten.
    pub fn to_str(&self) -> (s: String)
        ensures
            s@ == "number: "@ + decimal_int(self.room_number as int) + ", squares: "@
                + decimal_int(self.squares as int),
    {
        let mut s = String::from_str("number: ");
        s.append(decimal_int_string(self.room_number).as_str());
        s.append(", squares: ");
        s.append(decimal_int_string(self.squares).as_str());
        s
    }

    /// A room that is not stored yet.
    pub fn new(room_number: i32, squares: i32) -> (r: Room)
        ensures
            r.id is None,
            r.room_number == room_number,
            r.squares == squares,
    {
        Room { id: None, room_number, squares }
    }

    /// The identifier, or 0 for a room without one.
    pub fn id(&self) -> (r: i32)
        ensures
            r == id_or(self.id, 0),
    {
        match self.id {
            Some(i) => i,
            None => 0,
        }
    }

    /// Gives the room its identifier.
    pub fn set_id(&mut self, id: i32)
        ensures
            *final(self) == (Room { id: Some(id), ..*old(self) }),
    {
        self.id = Some(id);
    }
}

#[derive(Debug, PartialEq)]
pub struct Unit {
    /// `None` until the record has been stored.
    pub id: Option<i32>,
    pub unit_number: i32,
    pub full_name: String,
    pub short_name: String,
}

impl Unit {
    /// The unit that a row of the store holds.
    pub fn from_row(id: Option<i32>, unit_number: i32, full_name: String, short_name: String) -> (r:
        Unit)
        ensures
            r.id == id,
            r.unit_number == unit_number,
            r.full_name == full_name,
            r.short_name == short_name,
    {
        Unit { id, unit_number, full_name, short_name }
    }

    /// The unit of a row that starts with a name of its own.
    pub fn from_row_with_name(
        name: String,
        id: Option<i32>,
        unit_number: i32,
        full_name: String,
        short_name: String,
    ) -> (r: (String, Unit))
        ensures
            r.0 == name,
            r.1.id == id,
            r.1.unit_number == unit_number,
            r.1.full_name == full_name,
            r.1.short_name == short_name,
    {
        (name, Unit { id, unit_number, full_name, short_name })
    }

    /// A unit that is not stored yet.
    pub fn new(unit_number: i32, full_name: &str, short_name: &str) -> (r: Unit)
        ensures
            r.id is None,
            r.unit_number == unit_number,
            r.full_name@ == full_name@,
            r.short_name@ == short_name@,
    {
        Unit {
            id: None,
            unit_number,
            full_name: full_name.to_owned(),
            short_name: short_name.to_owned(),
        }
    }

    /// The identifier, or -1 for a unit without one.
    pub fn id(&self) -> (r: i32)
        ensures
            r == id_or(self.id, -1i32),
    {
        match self.id {
            Some(i) => i,
            None => -1,
        }
    }

    /// Gives the unit its identifier.
    pub fn set_id(&mut self, id: i32)
        ensures
            *final(self) == (Unit { id: Some(id), ..*old(self) }),
    {
        self.id = Some(id);
    }
}

#[derive(Debug, PartialEq)]
pub struct Employee {
    /// `None` until the record has been stored.
    pub id: Option<i32>,
    pub first_name: String,
    pub middle_name: String,
    pub last_name: String,
    pub is_supervisor: bool,
    pub is_accountable: bool,
    pub job_title: String,
    pub unit_id: i32,
}

impl Employee {
    /// The employee that a row of the store holds.
    pub fn from_row(
        id: Option<i32>,
        first_name: String,
        middle_name: String,
        last_name: String,
        is_supervisor: bool,
        is_accountable: bool,
        job_title: String,
        unit_id: i32,
    ) -> (r: Employee)
        ensures
            r.id == id,
            r.first_name == first_name,
            r.middle_name == middle_name,
            r.last_name == last_name,
            r.is_supervisor == is_supervisor,
            r.is_accountable == is_accountable,
            r.job_title == job_title,
            r.unit_id == unit_id,
    {
        Employee {
            id,
            first_name,
            middle_name,
            last_name,
            is_supervisor,
            is_accountable,
            job_title,
            unit_id,
        }
    }

    /// The identifier, or 0 for an employee without one.
    pub fn id(&self) -> (r: i32)
        ensures
            r == id_or(self.id, 0),
    {
        match self.id {
            Some(i) => i,
            None => 0,
        }
    }

    /// Gives the employee its identifier.
    pub fn set_id(&mut self, id: i32)
        ensures
            *final(self) == (Employee { id: Some(id), ..*old(self) }),
    {
        self.id = Some(id);
    }

    /// An employee that is not stored yet.
    pub fn new(
        first_name: &str,
        middle_name: &str,
        last_name: &str,
        is_supervisor: bool,
        is_accountable: bool,
        job_title: &str,
        unit_id: i32,
    ) -> (r: Employee)
        ensures
            r.id is None,
            r.first_name@ == first_name@,
            r.middle_name@ == middle_name@,
            r.last_name@ == last_name@,
            r.is_supervisor == is_supervisor,
            r.is_accountable == is_accountable,
            r.job_title@ == job_title@,
            r.unit_id == unit_id,
    {
        Employee {
            id: None,
            first_name: first_name.to_owned(),
            middle_name: middle_name.to_owned(),
            last_name: last_name.to_owned(),
            is_supervisor,
            is_accountable,
            job_title: job_title.to_owned(),
            unit_id,
        }
    }
}

#[derive(Debug, PartialEq)]
pub struct Tech {
    /// `None` until the record has been stored.
    pub id: Option<i32>,
    pub inventory_number: i32,
    pub name: String,
    pub model: String,
    pub acquisition_date: Date,
    pub price: i32,
}

/// A piece of equipment with the unit that holds it.
#[derive(Debug, PartialEq)]
pub struct TechUnit {
    pub unit_name: String,
    pub date: Date,
    pub inventory_number: i32,
    pub name: String,
    pub model: String,
}

impl TechUnit {
    /// The equipment and its unit that a row of the store holds.
    pub fn from_row(
        unit_name: String,
        date: Date,
        inventory_number: i32,
        name: String,
        model: String,
    ) -> (r: TechUnit)
        ensures
            r.unit_name == unit_name,
            r.date == date,
            r.inventory_number == inventory_number,
            r.name == name,
            r.model == model,
    {
        TechUnit { unit_name, date, inventory_number, name, model }
    }
}

/// A piece of equipment with the employee who answers for it.
#[derive(Debug, PartialEq)]
pub struct TechEmployee {
    pub date: Date,
    pub first_name: String,
    pub middle_name: String,
    pub last_name: String,
    pub job_title: String,
    pub inventory_number: i32,
    pub name: String,
    pub model: String,
}

impl TechEmployee {
    /// The equipment and its employee that a row of the store holds.
    pub fn from_row(
        date: Date,
        first_name: String,
        middle_name: String,
        last_name: String,
        job_title: String,
        inventory_number: i32,
        name: String,
        model: String,
    ) -> (r: TechEmployee)
        ensures
            r.date == date,
            r.first_name == first_name,
            r.middle_name == middle_name,
            r.last_name == last_name,
            r.job_title == job_title,
            r.inventory_number == inventory_number,
            r.name == name,
            r.model == model,
    {
        TechEmployee {
            date,
            first_name,
            middle_name,
            last_name,
            job_title,
            inventory_number,
            name,
            model,
        }
    }
}

impl Tech {
    /// The equipment that a row of the store holds.
    pub fn from_row(
        id: Option<i32>,
        inventory_number: i32,
        name: String,
        model: String,
        acquisition_date: Date,
        price: i32,
    ) -> (r: Tech)
        ensures
            r.id == id,
            r.inventory_number == inventory_number,
            r.name == name,
            r.model == model,
            r.acquisition_date == acquisition_date,
            r.price == price,
    {
        Tech { id, inventory_number, name, model, acquisition_date, price }
    }

    /// The identifier, or -1 for equipment without one.
    pub fn id(&self) -> (r: i32)
        ensures
            r == id_or(self.id, -1i32),
    {
        match self.id {
            Some(i) => i,
            None => -1,
        }
    }

    /// Gives the equipment its identifier.
    pub fn set_id(&mut self, id: i32)
        ensures
            *final(self) == (Tech { id: Some(id), ..*old(self) }),
    {
        self.id = Some(id);
    }

    /// New equipment, acquired on the date that `acquisition_date` reads
    /// as.
    pub fn new(
        inventory_number: i32,
        name: &str,
        model: &str,
        acquisition_date: &str,
        price: i32,
    ) -> (r: Tech)
        requires
            date_from_text(acquisition_date@) is Some,
        ensures
            r.id is None,
            r.inventory_number == inventory_number,
            r.name@ == name@,
            r.model@ == model@,
            Some(r.acquisition_date) == date_of(date_from_text(acquisition_date@)),
            r.price == price,
    {
        let date = Date::parse(acquisition_date);
        Tech::new_with_date(inventory_number, name, model, date.unwrap(), price)
    }

    /// New equipment, or `None` where `acquisition_date` reads as no date.
    pub fn try_new(
        inventory_number: i32,
        name: &str,
        model: &str,
        acquisition_date: &str,
        price: i32,
    ) -> (r: Option<Tech>)
        ensures
            r is Some <==> date_from_text(acquisition_date@) is Some,
            r matches Some(t) ==> {
                &&& t.id is None
                &&& t.inventory_number == inventory_number
                &&& t.name@ == name@
                &&& t.model@ == model@
                &&& Some(t.acquisition_date) == date_of(date_from_text(acquisition_date@))
                &&& t.price == price
            },
    {
        match Date::parse(acquisition_date) {
            Some(_) => Some(Tech::new(inventory_number, name, model, acquisition_date, price)),
            None => None,
        }
    }

    /// New equipment, acquired on `acquisition_date`.
    pub fn new_with_date(
        inventory_number: i32,
        name: &str,
        model: &str,
        acquisition_date: Date,
        price: i32,
    ) -> (r: Tech)
        ensures
            r.id is None,
            r.inventory_number == inventory_number,
            r.name@ == name@,
            r.model@ == model@,
            r.acquisition_date == acquisition_date,
            r.price == price,
    {
        Tech {
            id: None,
            inventory_number,
            name: name.to_owned(),
            model: model.to_owned(),
            acquisition_date,
            price,
        }
    }
}

#[derive(Debug, PartialEq)]
pub struct Transfer {
    /// `None` until the record has been stored.
    pub id: Option<i32>,
    pub transfer_date: Date,
    pub tech_id: i32,
    pub room_id: i32,
    pub employee_id: i32,
}

/// A transfer with the unit of the employee who answers for it.
#[derive(Debug, PartialEq)]
pub struct TransferUnit {
    pub inner: Transfer,
    pub unit_id: i32,
}

/// A transfer with the records that it refers to, as far as they exist.
#[derive(Debug, PartialEq)]
pub struct TransferDetails {
    pub id: i32,
    pub transfer_date: Date,
    pub tech: Option<Tech>,
    pub room: Option<Room>,
    pub employee: Option<Employee>,
    pub unit: Option<Unit>,
}

impl Transfer {
    /// The transfer of a row; a reference that the row does not hold
    /// counts as 0.
    pub fn from_row(
        id: Option<i32>,
        transfer_date: Date,
        tech_id: Option<i32>,
        room_id: Option<i32>,
        employee_id: Option<i32>,
    ) -> (r: Transfer)
        ensures
            r.id == id,
            r.transfer_date == transfer_date,
            r.tech_id == or_zero(tech_id),
            r.room_id == or_zero(room_id),
            r.employee_id == or_zero(employee_id),
    {
        Transfer {
            id,
            transfer_date,
            tech_id: tech_id.unwrap_or(0),
            room_id: room_id.unwrap_or(0),
            employee_id: employee_id.unwrap_or(0),
        }
    }

    /// The identifier, or 0 for a transfer without one.
    pub fn id(&self) -> (r: i32)
        ensures
            r == id_or(self.id, 0),
    {
        match self.id {
            Some(i) => i,
            None => 0,
        }
    }

    /// Gives the transfer its identifier.
    pub fn set_id(&mut self, id: i32)
        ensures
            *final(self) == (Transfer { id: Some(id), ..*old(self) }),
    {
        self.id = Some(id);
    }

    /// A new transfer, made on the date that `transfer_date` reads as.
    pub fn new(transfer_date: &str, tech_id: i32, room_id: i32, employee_id: i32) -> (r: Transfer)
        requires
            date_from_text(transfer_date@) is Some,
        ensures
            r.id is None,
            Some(r.transfer_date) == date_of(date_from_text(transfer_date@)),
            r.tech_id == tech_id,
            r.room_id == room_id,
            r.employee_id == employee_id,
    {
        let date = Date::parse(transfer_date);
        Transfer::new_date(date.unwrap(), tech_id, room_id, employee_id)
    }

    /// A new transfer, or `None` where `transfer_date` reads as no date.
    pub fn try_new(transfer_date: &str, tech_id: i32, room_id: i32, employee_id: i32) -> (r: Option<
        Transfer,
    >)
        ensures
            r is Some <==> date_from_text(transfer_date@) is Some,
            r matches Some(t) ==> {
                &&& t.id is None
                &&& Some(t.transfer_date) == date_of(date_from_text(transfer_date@))
                &&& t.tech_id == tech_id
                &&& t.room_id == room_id
                &&& t.employee_id == employee_id
            },
    {
        match Date::parse(transfer_date) {
            Some(_) => Some(Transfer::new(transfer_date, tech_id, room_id, employee_id)),
            None => None,
        }
    }

    /// A new transfer, made on `transfer_date`.
    pub fn new_date(transfer_date: Date, tech_id: i32, room_id: i32, employee_id: i32) -> (r:
        Transfer)
        ensures
            r.id is None,
            r.transfer_date == transfer_date,
            r.tech_id == tech_id,
            r.room_id == room_id,
            r.employee_id == employee_id,
    {
        Transfer { id: None, transfer_date, tech_id, room_id, employee_id }
    }
}

} // verus!
