//! An employee, and what a client submits to create one.

use vstd::prelude::*;

verus! {

/// `chrono::NaiveDateTime`, a calendar date and time of day without a time
/// zone. The library stores and hands on such values and never looks inside.
#[verifier::external_type_specification]
#[verifier::external_body]
pub struct ExNaiveDateTime(chrono::NaiveDateTime);

/// `NaiveDateTime` is `Copy`, and its `clone` is the derived one: the result
/// is the value it was given.
pub assume_specification[ <chrono::NaiveDateTime as Clone>::clone ](
    moment: &chrono::NaiveDateTime,
) -> (copy: chrono::NaiveDateTime)
    ensures
        copy == *moment,
;

/// One row of the employee table.
#[derive(Debug, Clone, PartialEq)]
pub struct Employee {
    /// Assigned by the table when the row is created; never changes afterwards.
    pub id: i32,
    pub name: String,
    pub created_at: chrono::NaiveDateTime,
}

/// What a client submits to create an employee, or to update one.
#[derive(Debug, Clone, PartialEq)]
pub struct NewEmployee {
    pub name: String,
    /// Where absent on creation, the time of the request takes its place;
    /// where absent on an update, the stored time stays.
    pub created_at: Option<chrono::NaiveDateTime>,
}

/// The mathematical value of an [`Employee`].
pub struct EmployeeView {
    pub id: int,
    pub name: Seq<char>,
    pub created_at: chrono::NaiveDateTime,
}

/// The mathematical value of a [`NewEmployee`].
pub struct NewEmployeeView {
    pub name: Seq<char>,
    pub created_at: Option<chrono::NaiveDateTime>,
}

impl View for Employee {
    type V = EmployeeView;

    open spec fn view(&self) -> EmployeeView {
        EmployeeView { id: self.id as int, name: self.name@, created_at: self.created_at }
    }
}

impl View for NewEmployee {
    type V = NewEmployeeView;

    open spec fn view(&self) -> NewEmployeeView {
        NewEmployeeView { name: self.name@, created_at: self.created_at }
    }
}

impl Employee {
    /// A copy of this row.
    pub fn duplicate(&self) -> (copy: Employee)
        ensures
            copy@ == self@,
    {
        Employee { id: self.id, name: self.name.clone(), created_at: self.created_at }
    }
}

} // verus!
