//! The employee table and the five operations on it.
//!
//! [`EmployeeTable`] keeps the rows in memory. It is the meaning of the
//! operations: a front end that keeps the rows in a database runs the same
//! statements there and is expected to answer as this table does.

use crate::clock::current_time;
use crate::error::{ServiceError, ServiceErrorView};
use crate::models::employee::{Employee, EmployeeView, NewEmployee};
use crate::view::views;
use vstd::prelude::*;
use vstd::string::StringExecFns;

verus! {

/// Whether one of the rows has this id.
pub open spec fn holds(rows: Seq<EmployeeView>, id: int) -> bool {
    exists|i: int| 0 <= i < rows.len() && #[trigger] rows[i].id == id
}

/// Where the row with this id stands, if there is one.
pub open spec fn position(rows: Seq<EmployeeView>, id: int) -> int {
    choose|i: int| 0 <= i < rows.len() && #[trigger] rows[i].id == id
}

/// A row after an update: it keeps its id, takes the submitted name, and
/// takes the submitted time of creation where there is one.
pub open spec fn changed(
    stored: EmployeeView,
    name: Seq<char>,
    created_at: Option<chrono::NaiveDateTime>,
) -> EmployeeView {
    EmployeeView {
        id: stored.id,
        name,
        created_at: match created_at {
            Some(moment) => moment,
            None => stored.created_at,
        },
    }
}

/// The mathematical value of an [`EmployeeTable`]: its rows, oldest first,
/// and the id that the next new row will get.
pub struct TableView {
    pub rows: Seq<EmployeeView>,
    pub next_id: int,
}

impl TableView {
    /// What holds of every table: ids are positive, no two rows share one,
    /// and none is as large as the next id to be given out.
    pub open spec fn wf(self) -> bool {
        &&& 1 <= self.next_id <= i32::MAX + 1
        &&& forall|i: int|
            0 <= i < self.rows.len() ==> 1 <= #[trigger] self.rows[i].id < self.next_id
        &&& forall|i: int, j: int|
            0 <= i < j < self.rows.len() ==> #[trigger] self.rows[i].id
                != #[trigger] self.rows[j].id
    }

    /// Whether an id is left for one more row.
    pub open spec fn has_room(self) -> bool {
        self.next_id <= i32::MAX
    }

    /// The row with this id, if there is one.
    pub open spec fn fetched(self, id: int) -> Option<EmployeeView> {
        if holds(self.rows, id) {
            Some(self.rows[position(self.rows, id)])
        } else {
            None
        }
    }

    /// The table after a row with this name and time of creation was added,
    /// and that row: it gets the next id and goes to the end.
    pub open spec fn created(self, name: Seq<char>, created_at: chrono::NaiveDateTime) -> (
        TableView,
        EmployeeView,
    ) {
        let row = EmployeeView { id: self.next_id, name, created_at };
        (TableView { rows: self.rows.push(row), next_id: self.next_id + 1 }, row)
    }

    /// The table after the row with this id got what was submitted: the
    /// name, and the time of creation where one was submitted. A time of
    /// creation that was not submitted stays as it is stored. The row keeps
    /// its id and its place. Without such a row the table stays as it is.
    pub open spec fn updated(
        self,
        id: int,
        name: Seq<char>,
        created_at: Option<chrono::NaiveDateTime>,
    ) -> TableView {
        if holds(self.rows, id) {
            let at = position(self.rows, id);
            TableView {
                rows: self.rows.update(at, changed(self.rows[at], name, created_at)),
                next_id: self.next_id,
            }
        } else {
            self
        }
    }

    /// The table after the row with this id was removed. Without such a row
    /// the table stays as it is.
    pub open spec fn deleted(self, id: int) -> TableView {
        if holds(self.rows, id) {
            TableView { rows: self.rows.remove(position(self.rows, id)), next_id: self.next_id }
        } else {
            self
        }
    }
}

/// In a table without repeated ids, the row with a given id stands at one
/// place only.
pub proof fn lemma_position_is_unique(table: TableView, id: int, at: int)
    requires
        table.wf(),
        0 <= at < table.rows.len(),
        table.rows[at].id == id,
    ensures
        holds(table.rows, id),
        position(table.rows, id) == at,
        table.fetched(id) == Some(table.rows[at]),
{
    let found = position(table.rows, id);
    assert(0 <= found < table.rows.len() && table.rows[found].id == id);
    if found < at {
        assert(table.rows[found].id != table.rows[at].id);
    } else if at < found {
        assert(table.rows[at].id != table.rows[found].id);
    }
}

/// An employee that was created is there: fetching by the id that the new
/// row was given yields that row, with the submitted name and time of
/// creation. The id was not in use before, and every employee that was
/// there before is fetched as before.
pub proof fn law_created_employee_is_fetched(
    table: TableView,
    name: Seq<char>,
    created_at: chrono::NaiveDateTime,
    other: int,
)
    requires
        table.wf(),
        table.has_room(),
    ensures
        ({
            let (after, row) = table.created(name, created_at);
            &&& after.wf()
            &&& row.name == name
            &&& row.created_at == created_at
            &&& table.fetched(row.id) is None
            &&& after.fetched(row.id) == Some(row)
            &&& other != row.id ==> after.fetched(other) == table.fetched(other)
        }),
{
    let (after, row) = table.created(name, created_at);
    let last = table.rows.len() as int;
    assert(after.rows[last] == row);
    assert(after.wf()) by {
        assert forall|i: int| 0 <= i < after.rows.len() implies 1 <= #[trigger] after.rows[i].id
            < after.next_id by {
            if i < last {
                assert(after.rows[i] == table.rows[i]);
            }
        }
        assert forall|i: int, j: int|
            0 <= i < j < after.rows.len() implies #[trigger] after.rows[i].id
            != #[trigger] after.rows[j].id by {
            assert(after.rows[i] == table.rows[i]);
            if j < last {
                assert(after.rows[j] == table.rows[j]);
            }
        }
    }
    lemma_position_is_unique(after, row.id, last);
    if holds(table.rows, other) {
        let at = position(table.rows, other);
        assert(after.rows[at] == table.rows[at]);
        lemma_position_is_unique(after, other, at);
    } else if holds(after.rows, other) {
        let at = position(after.rows, other);
        if at < last {
            assert(after.rows[at] == table.rows[at]);
            assert(table.rows[at].id == other);
        }
    }
}

/// One creation makes the list of all employees longer by exactly one: the
/// new row goes to the end and the others stay in their places.
pub proof fn law_create_adds_one_row(
    table: TableView,
    name: Seq<char>,
    created_at: chrono::NaiveDateTime,
)
    requires
        table.wf(),
        table.has_room(),
    ensures
        ({
            let (after, row) = table.created(name, created_at);
            &&& after.rows.len() == table.rows.len() + 1
            &&& after.rows.drop_last() == table.rows
            &&& after.rows.last() == row
        }),
{
    let (after, row) = table.created(name, created_at);
    assert(after.rows.drop_last() =~= table.rows);
}

/// An update changes the submitted fields of one row and nothing else:
/// fetching the id afterwards yields the row under the same id with the
/// submitted name, and with the submitted time of creation or, where none
/// was submitted, the one it had. Every other id is fetched as before, and
/// the list of all employees keeps its length. Where no row has the id,
/// nothing changes.
pub proof fn law_update_changes_one_row(
    table: TableView,
    id: int,
    name: Seq<char>,
    created_at: Option<chrono::NaiveDateTime>,
    other: int,
)
    requires
        table.wf(),
    ensures
        ({
            let after = table.updated(id, name, created_at);
            &&& after.wf()
            &&& after.rows.len() == table.rows.len()
            &&& after.next_id == table.next_id
            &&& table.fetched(id) matches Some(stored) ==> {
                &&& after.fetched(id) == Some(changed(stored, name, created_at))
                &&& after.fetched(id)->0.id == id
                &&& after.fetched(id)->0.name == name
                &&& created_at is None ==> after.fetched(id)->0.created_at == stored.created_at
                &&& created_at matches Some(moment) ==> after.fetched(id)->0.created_at == moment
            }
            &&& table.fetched(id) is None ==> after == table
            &&& other != id ==> after.fetched(other) == table.fetched(other)
        }),
{
    let after = table.updated(id, name, created_at);
    if holds(table.rows, id) {
        let at = position(table.rows, id);
        assert forall|i: int| 0 <= i < after.rows.len() implies #[trigger] after.rows[i].id
            == table.rows[i].id by {}
        assert(after.wf()) by {
            assert forall|i: int, j: int|
                0 <= i < j < after.rows.len() implies #[trigger] after.rows[i].id
                != #[trigger] after.rows[j].id by {
                assert(table.rows[i].id != table.rows[j].id);
            }
        }
        lemma_position_is_unique(after, id, at);
        if other != id {
            if holds(table.rows, other) {
                let there = position(table.rows, other);
                assert(after.rows[there] == table.rows[there]);
                lemma_position_is_unique(after, other, there);
            } else if holds(after.rows, other) {
                let there = position(after.rows, other);
                assert(table.rows[there].id == other);
            }
        }
    }
}

/// A deleted employee is gone: fetching the id afterwards finds nothing.
/// Deleting an id that no row has removes no row and leaves the table as it
/// was; deleting one that a row has removes that row alone.
pub proof fn law_deleted_employee_is_gone(table: TableView, id: int, other: int)
    requires
        table.wf(),
    ensures
        ({
            let after = table.deleted(id);
            &&& after.wf()
            &&& after.fetched(id) is None
            &&& table.fetched(id) is None ==> after == table
            &&& table.fetched(id) is Some ==> after.rows.len() == table.rows.len() - 1
            &&& other != id ==> after.fetched(other) == table.fetched(other)
        }),
{
    let after = table.deleted(id);
    if holds(table.rows, id) {
        let at = position(table.rows, id);
        assert forall|i: int| 0 <= i < after.rows.len() implies #[trigger] after.rows[i] == (if i
            < at {
            table.rows[i]
        } else {
            table.rows[i + 1]
        }) by {}
        assert(after.wf()) by {
            assert forall|i: int, j: int|
                0 <= i < j < after.rows.len() implies #[trigger] after.rows[i].id
                != #[trigger] after.rows[j].id by {
                let from_i = if i < at { i } else { i + 1 };
                let from_j = if j < at { j } else { j + 1 };
                assert(table.rows[from_i].id != table.rows[from_j].id);
            }
            assert forall|i: int| 0 <= i < after.rows.len() implies 1 <= #[trigger] after.rows[i].id
                < after.next_id by {
                let from_i = if i < at { i } else { i + 1 };
                assert(after.rows[i] == table.rows[from_i]);
            }
        }
        if holds(after.rows, id) {
            let there = position(after.rows, id);
            let from = if there < at { there } else { there + 1 };
            assert(after.rows[there] == table.rows[from]);
            lemma_position_is_unique(table, id, from);
        }
        if other != id {
            if holds(table.rows, other) {
                let there = position(table.rows, other);
                let to = if there < at { there } else { there - 1 };
                assert(after.rows[to] == table.rows[there]);
                lemma_position_is_unique(after, other, to);
            } else if holds(after.rows, other) {
                let there = position(after.rows, other);
                let from = if there < at { there } else { there + 1 };
                assert(after.rows[there] == table.rows[from]);
                assert(table.rows[from].id == other);
            }
        }
    }
}

/// The text of the failure that answers an insert when every id is taken.
pub open spec fn ids_used_up() -> Seq<char> {
    "employee ids are used up"@
}

/// The employees, kept in memory.
pub struct EmployeeTable {
    rows: Vec<Employee>,
    next_id: i64,
}

impl View for EmployeeTable {
    type V = TableView;

    closed spec fn view(&self) -> TableView {
        TableView { rows: views(self.rows@), next_id: self.next_id as int }
    }
}

impl EmployeeTable {
    /// What holds of every table that this module hands out.
    pub open spec fn wf(&self) -> bool {
        self@.wf()
    }

    fn locate(&self, id: i32) -> (at: Option<usize>)
        requires
            self.wf(),
        ensures
            match at {
                Some(i) => {
                    &&& holds(self@.rows, id as int)
                    &&& i == position(self@.rows, id as int)
                    &&& i < self.rows.len()
                    &&& self.rows@[i as int].id == id
                },
                None => !holds(self@.rows, id as int),
            },
    {
        let mut i: usize = 0;
        while i < self.rows.len()
            invariant
                self.wf(),
                i <= self.rows.len(),
                forall|k: int| 0 <= k < i ==> (#[trigger] self@.rows[k]).id != id,
            decreases self.rows.len() - i,
        {
            assert(self@.rows[i as int] == self.rows@[i as int]@);
            if self.rows[i].id == id {
                assert(self@.rows[i as int].id == id as int);
                return Some(i);
            }
            i += 1;
        }
        None
    }

    /// Adds a row with this name and time of creation, and returns it with
    /// the id it was given. Fails, and changes nothing, when no id is left.
    pub fn insert(&mut self, name: String, created_at: chrono::NaiveDateTime) -> (result: Result<
        Employee,
        ServiceError,
    >)
        requires
            old(self).wf(),
        ensures
            final(self).wf(),
            match result {
                Ok(row) => old(self)@.has_room() && (final(self)@, row@) == old(self)@.created(
                    name@,
                    created_at,
                ),
                Err(error) => !old(self)@.has_room() && final(self)@ == old(self)@ && error@
                    == ServiceErrorView::Statement(ids_used_up()),
            },
    {
        if self.next_id > i32::MAX as i64 {
            return Err(ServiceError::Statement(String::from_str("employee ids are used up")));
        }
        let id = self.next_id as i32;
        let row = Employee { id, name, created_at };
        let copy = row.duplicate();
        let ghost before = self@;
        self.rows.push(row);
        self.next_id = self.next_id + 1;
        assert(self@.rows =~= before.rows.push(copy@));
        Ok(copy)
    }
}

impl EmployeeTable {
    /// Gives the row with this id what was submitted: the name, and the time
    /// of creation where one was submitted; a time of creation that was not
    /// submitted stays as it is stored. Returns the row as it now stands.
    /// `NotFound`, and no change, where no row has the id.
    pub fn change(
        &mut self,
        id: i32,
        name: String,
        created_at: Option<chrono::NaiveDateTime>,
    ) -> (result: Result<Employee, ServiceError>)
        requires
            old(self).wf(),
        ensures
            final(self).wf(),
            final(self)@ == old(self)@.updated(id as int, name@, created_at),
            match result {
                Ok(row) => old(self)@.fetched(id as int) matches Some(stored) && row@ == changed(
                    stored,
                    name@,
                    created_at,
                ),
                Err(error) => old(self)@.fetched(id as int) is None && error@
                    == ServiceErrorView::NotFound,
            },
    {
        match self.locate(id) {
            Some(i) => {
                let ghost before = self@;
                assert(before.rows[i as int] == self.rows@[i as int]@);
                let moment = match created_at {
                    Some(moment) => moment,
                    None => self.rows[i].created_at,
                };
                let row = Employee { id, name, created_at: moment };
                let copy = row.duplicate();
                self.rows.set(i, row);
                assert(self@.rows =~= before.rows.update(i as int, copy@));
                Ok(copy)
            },
            None => Err(ServiceError::NotFound),
        }
    }
}

/// A table without rows. The first employee will get the id 1.
pub fn new() -> (table: EmployeeTable)
    ensures
        table.wf(),
        table@ == (TableView { rows: Seq::empty(), next_id: 1 }),
{
    let table = EmployeeTable { rows: Vec::new(), next_id: 1 };
    assert(table@.rows =~= Seq::empty());
    table
}

/// Adds an employee and returns the new row: it has the next id, the
/// submitted name, and the submitted time of creation or, where none was
/// submitted, the time of the call. Fails, and changes nothing, when no id is
/// left.
pub fn create_employee(table: &mut EmployeeTable, employee: NewEmployee) -> (result: Result<
    Employee,
    ServiceError,
>)
    requires
        old(table).wf(),
    ensures
        final(table).wf(),
        match result {
            Ok(row) => {
                &&& old(table)@.has_room()
                &&& (final(table)@, row@) == old(table)@.created(employee@.name, row@.created_at)
                &&& employee@.created_at matches Some(moment) ==> row@.created_at == moment
            },
            Err(error) => !old(table)@.has_room() && final(table)@ == old(table)@ && error@
                == ServiceErrorView::Statement(ids_used_up()),
        },
{
    let created_at = match employee.created_at {
        Some(moment) => moment,
        None => current_time(),
    };
    table.insert(employee.name, created_at)
}

/// The employee with this id; `NotFound` where there is none.
pub fn get_employee_by_id(table: &EmployeeTable, employee_id: i32) -> (result: Result<
    Employee,
    ServiceError,
>)
    requires
        table.wf(),
    ensures
        match result {
            Ok(row) => table@.fetched(employee_id as int) == Some(row@),
            Err(error) => table@.fetched(employee_id as int) is None && error@
                == ServiceErrorView::NotFound,
        },
{
    match table.locate(employee_id) {
        Some(i) => {
            assert(table@.rows[i as int] == table.rows@[i as int]@);
            Ok(table.rows[i].duplicate())
        },
        None => Err(ServiceError::NotFound),
    }
}

/// All employees, oldest first. This never fails.
pub fn get_all_employees(table: &EmployeeTable) -> (result: Result<Vec<Employee>, ServiceError>)
    requires
        table.wf(),
    ensures
        result matches Ok(rows) && views(rows@) == table@.rows,
{
    let mut rows: Vec<Employee> = Vec::new();
    let mut i: usize = 0;
    while i < table.rows.len()
        invariant
            i <= table.rows.len(),
            rows.len() == i,
            forall|k: int| 0 <= k < i ==> (#[trigger] rows@[k])@ == table.rows@[k]@,
        decreases table.rows.len() - i,
    {
        rows.push(table.rows[i].duplicate());
        i += 1;
    }
    assert(views(rows@) =~= table@.rows);
    Ok(rows)
}

/// Gives the employee with this id the name and the time of creation of
/// `employee`, and returns the row as it now stands. The id of the row stays
/// `employee_id`, whatever `employee.id` says. `NotFound`, and no change,
/// where no row has the id.
pub fn update_employee_by_id(
    table: &mut EmployeeTable,
    employee_id: i32,
    employee: Employee,
) -> (result: Result<Employee, ServiceError>)
    requires
        old(table).wf(),
    ensures
        final(table).wf(),
        final(table)@ == old(table)@.updated(
            employee_id as int,
            employee@.name,
            Some(employee@.created_at),
        ),
        match result {
            Ok(row) => old(table)@.fetched(employee_id as int) is Some && row@ == (EmployeeView {
                id: employee_id as int,
                name: employee@.name,
                created_at: employee@.created_at,
            }),
            Err(error) => old(table)@.fetched(employee_id as int) is None && error@
                == ServiceErrorView::NotFound,
        },
{
    table.change(employee_id, employee.name, Some(employee.created_at))
}

/// Removes the employee with this id and says how many rows went: 1, or 0
/// where no row has the id. This never fails.
pub fn delete_employee_by_id(table: &mut EmployeeTable, employee_id: i32) -> (result: Result<
    usize,
    ServiceError,
>)
    requires
        old(table).wf(),
    ensures
        final(table).wf(),
        final(table)@ == old(table)@.deleted(employee_id as int),
        result matches Ok(count) && count == (if old(table)@.fetched(employee_id as int) is Some {
            1nat
        } else {
            0nat
        }),
{
    match table.locate(employee_id) {
        Some(i) => {
            let ghost before = table@;
            table.rows.remove(i);
            assert(table@.rows =~= before.rows.remove(i as int));
            Ok(1)
        },
        None => Ok(0),
    }
}

} // verus!
