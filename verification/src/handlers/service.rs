//! A request from its arrival to its reply: the route is picked, the handler
//! says what is to be done, a statement runs against the employee table where
//! one is needed, and its outcome becomes the reply.
//!
//! A front end that keeps the employees elsewhere uses [`plan`] and
//! [`respond`] and runs the statement itself in between; [`serve`] does all
//! of it against an [`EmployeeTable`].

use crate::clock::current_time;
use crate::error::{ServiceError, ServiceErrorView};
use crate::handlers::reply::{
    failed_with, no_route, ok_with, Body, BodyView, Reply, ReplyView,
};
use crate::handlers::router::{
    chosen, dispatch, lemma_chosen_is_first, matched_by, route_accepts, scoped, Header,
    HeaderView, Method, Route, RouteView,
};
use crate::handlers::routes::{
    api_routes, create_employee, create_step, delete_employee, delete_step, error, expected_by,
    get_employee, get_employees, get_step, health, health_reply, index, json, json_reply,
    id_of, my_error_reply, path, path_reply, query, query_reply, resource, stream,
    unversioned_routes,
    update_employee, update_step, user_routes, Handler, Payload, PayloadView, Statement,
    StatementView, Step, StepView,
};
use crate::models::employee::{Employee, EmployeeView, NewEmployeeView};
use crate::repository::database::{
    changed, delete_employee_by_id, get_all_employees, get_employee_by_id, ids_used_up,
    law_created_employee_is_fetched, law_deleted_employee_is_gone, law_update_changes_one_row,
    lemma_position_is_unique, position, EmployeeTable, TableView,
};
use crate::view::views;
use vstd::prelude::*;
use vstd::string::StringExecFns;
use vstd::string::StringSliceAdditionalSpecFns;

verus! {

/// What a statement yields when it succeeds.
#[derive(Debug, Clone, PartialEq)]
pub enum Outcome {
    /// The row that was added, found or changed.
    Row(Employee),
    /// All rows.
    Rows(Vec<Employee>),
    /// How many rows were removed.
    Count(usize),
}

/// The mathematical value of an [`Outcome`].
pub enum OutcomeView {
    Row(EmployeeView),
    Rows(Seq<EmployeeView>),
    Count(nat),
}

impl View for Outcome {
    type V = OutcomeView;

    open spec fn view(&self) -> OutcomeView {
        match self {
            Outcome::Row(row) => OutcomeView::Row(row@),
            Outcome::Rows(rows) => OutcomeView::Rows(views(rows@)),
            Outcome::Count(count) => OutcomeView::Count(*count as nat),
        }
    }
}

/// The mathematical value of what a statement yields.
pub open spec fn result_view(result: Result<Outcome, ServiceError>) -> Result<
    OutcomeView,
    ServiceErrorView,
> {
    match result {
        Ok(outcome) => Ok(outcome@),
        Err(error) => Err(error@),
    }
}

/// What a handler makes of a request that its route has accepted: the
/// parameters come from the path, `query` is the query string, and `now`
/// stands in where an employee is created without a time of creation.
pub open spec fn planned(
    handler: Handler,
    params: Seq<Seq<u8>>,
    query: Seq<char>,
    payload: PayloadView,
    now: chrono::NaiveDateTime,
) -> StepView {
    match handler {
        Handler::Health => StepView::Reply(health_reply()),
        Handler::Index => StepView::Reply(ok_with(BodyView::Text("Hello world!"@))),
        Handler::Path => StepView::Reply(path_reply(params)),
        Handler::Query => StepView::Reply(query_reply(query)),
        Handler::Payload => StepView::Reply(json_reply(payload)),
        Handler::Json => StepView::Reply(json_reply(payload)),
        Handler::Stream => StepView::Reply(ok_with(BodyView::Stream("test".spec_bytes()))),
        Handler::Error => StepView::Reply(my_error_reply("test error"@)),
        Handler::Resource => StepView::Reply(ok_with(BodyView::Empty)),
        Handler::CreateEmployee => create_step(payload, now),
        Handler::GetEmployee => get_step(params),
        Handler::GetEmployees => StepView::Run(StatementView::LoadAll),
        Handler::UpdateEmployee => update_step(params, payload),
        Handler::DeleteEmployee => delete_step(params),
    }
}

/// A handler that takes no body plans the same whatever body the request
/// carries: the front end need not read it.
pub proof fn law_unexpected_body_is_ignored(
    handler: Handler,
    params: Seq<Seq<u8>>,
    query: Seq<char>,
    one: PayloadView,
    other: PayloadView,
    now: chrono::NaiveDateTime,
)
    requires
        expected_by(handler) is Nothing,
    ensures
        planned(handler, params, query, one, now) == planned(handler, params, query, other, now),
{
}

/// What a statement does to the table, and what it yields.
///
/// A lookup or an update of an id that no row has fails with `NotFound`; a
/// delete of such an id succeeds and counts no row. An update yields the
/// row as it is stored afterwards.
pub open spec fn executed(table: TableView, statement: StatementView) -> (
    TableView,
    Result<OutcomeView, ServiceErrorView>,
) {
    match statement {
        StatementView::Insert { name, created_at } => if table.has_room() {
            let (after, row) = table.created(name, created_at);
            (after, Ok(OutcomeView::Row(row)))
        } else {
            (table, Err(ServiceErrorView::Statement(ids_used_up())))
        },
        StatementView::Find(id) => (
            table,
            match table.fetched(id) {
                Some(row) => Ok(OutcomeView::Row(row)),
                None => Err(ServiceErrorView::NotFound),
            },
        ),
        StatementView::LoadAll => (table, Ok(OutcomeView::Rows(table.rows))),
        StatementView::Update { id, name, created_at } => (
            table.updated(id, name, created_at),
            match table.fetched(id) {
                Some(stored) => Ok(OutcomeView::Row(changed(stored, name, created_at))),
                None => Err(ServiceErrorView::NotFound),
            },
        ),
        StatementView::Delete(id) => (
            table.deleted(id),
            Ok(
                OutcomeView::Count(
                    if table.fetched(id) is Some {
                        1
                    } else {
                        0
                    },
                ),
            ),
        ),
    }
}

/// The reply to a request whose statement has run: status 200 and what the
/// statement yielded, or the status and the text of its failure.
pub open spec fn response_of(result: Result<OutcomeView, ServiceErrorView>) -> ReplyView {
    match result {
        Ok(OutcomeView::Row(row)) => ok_with(BodyView::Employee(row)),
        Ok(OutcomeView::Rows(rows)) => ok_with(BodyView::Employees(rows)),
        Ok(OutcomeView::Count(count)) => ok_with(BodyView::Count(count)),
        Err(error) => failed_with(error),
    }
}

/// The life of an employee, statement by statement: the insert yields a row
/// with the submitted name and time of creation; a lookup of its id yields
/// the same row and so does the list of all employees; the delete removes
/// one row; and a lookup after that fails with `NotFound`, which is answered
/// with status 404.
pub proof fn law_employee_lifecycle(
    table: TableView,
    name: Seq<char>,
    created_at: chrono::NaiveDateTime,
)
    requires
        table.wf(),
        table.has_room(),
    ensures
        ({
            let (stored, made) = executed(table, StatementView::Insert { name, created_at });
            let row = made->Ok_0->Row_0;
            let (emptied, removed) = executed(stored, StatementView::Delete(row.id));
            &&& made == Ok::<OutcomeView, ServiceErrorView>(OutcomeView::Row(row))
            &&& row.name == name
            &&& row.created_at == created_at
            &&& response_of(made) == ok_with(BodyView::Employee(row))
            &&& executed(stored, StatementView::Find(row.id)) == (stored, made)
            &&& executed(stored, StatementView::LoadAll).1 == Ok::<OutcomeView, ServiceErrorView>(
                OutcomeView::Rows(stored.rows),
            )
            &&& stored.rows.contains(row)
            &&& removed == Ok::<OutcomeView, ServiceErrorView>(OutcomeView::Count(1))
            &&& executed(emptied, StatementView::Find(row.id)) == (
                emptied,
                Err::<OutcomeView, ServiceErrorView>(ServiceErrorView::NotFound),
            )
            &&& response_of(executed(emptied, StatementView::Find(row.id)).1).status == 404
        }),
{
    let (stored, row) = table.created(name, created_at);
    law_created_employee_is_fetched(table, name, created_at, row.id);
    law_deleted_employee_is_gone(stored, row.id, row.id);
    assert(stored.rows[table.rows.len() as int] == row);
}

/// An update through its route changes only what was submitted. Where the
/// path names an employee that is there, the request succeeds, and the row
/// that it yields, which is also the row that is stored afterwards, has the
/// id of the path and the submitted name; its time of creation is the
/// submitted one or, where the body has none, the one that was stored.
/// Every other employee is fetched as before.
pub proof fn law_update_keeps_what_was_not_submitted(
    table: TableView,
    params: Seq<Seq<u8>>,
    employee: NewEmployeeView,
    other: int,
)
    requires
        table.wf(),
        id_of(params) is Ok,
        table.fetched(id_of(params)->Ok_0) is Some,
    ensures
        ({
            let id = id_of(params)->Ok_0;
            let stored = table.fetched(id)->0;
            let step = update_step(params, PayloadView::NewEmployee(employee));
            let (after, result) = executed(table, step->Run_0);
            let row = result->Ok_0->Row_0;
            &&& step is Run
            &&& result == Ok::<OutcomeView, ServiceErrorView>(OutcomeView::Row(row))
            &&& response_of(result) == ok_with(BodyView::Employee(row))
            &&& after.fetched(id) == Some(row)
            &&& row.id == id
            &&& row.name == employee.name
            &&& employee.created_at is None ==> row.created_at == stored.created_at
            &&& employee.created_at matches Some(moment) ==> row.created_at == moment
            &&& other != id ==> after.fetched(other) == table.fetched(other)
        }),
{
    let id = id_of(params)->Ok_0;
    law_update_changes_one_row(table, id, employee.name, employee.created_at, other);
    lemma_position_is_unique(table, id, position(table.rows, id));
}

/// Says what is to be done for a request that `handler` takes.
pub fn plan_at(
    handler: Handler,
    params: &Vec<Vec<u8>>,
    query_string: &str,
    payload: Payload,
    now: chrono::NaiveDateTime,
) -> (step: Step)
    ensures
        step@ == planned(handler, views(params@), query_string@, payload@, now),
{
    match handler {
        Handler::Health => Step::Reply(health()),
        Handler::Index => Step::Reply(index()),
        Handler::Path => Step::Reply(path(params)),
        Handler::Query => Step::Reply(query(query_string)),
        Handler::Payload => Step::Reply(json(payload)),
        Handler::Json => Step::Reply(json(payload)),
        Handler::Stream => Step::Reply(stream()),
        Handler::Error => match error() {
            Ok(text) => Step::Reply(Reply::ok(Body::Text(text))),
            Err(failure) => Step::Reply(failure.reply()),
        },
        Handler::Resource => Step::Reply(resource()),
        Handler::CreateEmployee => create_employee(payload, now),
        Handler::GetEmployee => get_employee(params),
        Handler::GetEmployees => get_employees(),
        Handler::UpdateEmployee => update_employee(params, payload),
        Handler::DeleteEmployee => delete_employee(params),
    }
}

/// [`plan_at`] the time that the clock shows.
pub fn plan(handler: Handler, params: &Vec<Vec<u8>>, query_string: &str, payload: Payload) -> (step:
    Step)
    ensures
        exists|now: chrono::NaiveDateTime|
            step@ == #[trigger] planned(handler, views(params@), query_string@, payload@, now),
{
    let now = current_time();
    let step = plan_at(handler, params, query_string, payload, now);
    assert(step@ == planned(handler, views(params@), query_string@, payload@, now));
    step
}

/// Runs a statement against the table.
pub fn execute(table: &mut EmployeeTable, statement: Statement) -> (result: Result<
    Outcome,
    ServiceError,
>)
    requires
        old(table).wf(),
    ensures
        final(table).wf(),
        (final(table)@, result_view(result)) == executed(old(table)@, statement@),
{
    match statement {
        Statement::Insert { name, created_at } => match table.insert(name, created_at) {
            Ok(row) => Ok(Outcome::Row(row)),
            Err(error) => Err(error),
        },
        Statement::Find(id) => match get_employee_by_id(table, id) {
            Ok(row) => Ok(Outcome::Row(row)),
            Err(error) => Err(error),
        },
        Statement::LoadAll => match get_all_employees(table) {
            Ok(rows) => Ok(Outcome::Rows(rows)),
            Err(error) => Err(error),
        },
        Statement::Update { id, name, created_at } => match table.change(id, name, created_at) {
            Ok(row) => Ok(Outcome::Row(row)),
            Err(error) => Err(error),
        },
        Statement::Delete(id) => match delete_employee_by_id(table, id) {
            Ok(count) => Ok(Outcome::Count(count)),
            Err(error) => Err(error),
        },
    }
}

/// The text of the failure that answers a statement whose worker did not
/// finish.
pub open spec fn worker_lost() -> Seq<char> {
    "the worker that ran the statement did not finish"@
}

/// What a statement yielded, given what came back from the worker that ran
/// it: the worker's result, or a failure where the worker was cancelled or
/// crashed and nothing came back.
pub open spec fn settled(finished: Option<Result<OutcomeView, ServiceErrorView>>) -> Result<
    OutcomeView,
    ServiceErrorView,
> {
    match finished {
        Some(result) => result,
        None => Err(ServiceErrorView::Connection(worker_lost())),
    }
}

/// Takes what came back from the worker that ran a statement. A worker that
/// was cancelled or crashed is a failure of the request, not of the server.
pub fn offloaded(finished: Option<Result<Outcome, ServiceError>>) -> (result: Result<
    Outcome,
    ServiceError,
>)
    ensures
        result_view(result) == settled(
            match finished {
                Some(result) => Some(result_view(result)),
                None => None,
            },
        ),
{
    match finished {
        Some(result) => result,
        None => Err(
            ServiceError::Connection(
                String::from_str("the worker that ran the statement did not finish"),
            ),
        ),
    }
}

/// Turns what a statement yielded into the reply.
pub fn respond(result: Result<Outcome, ServiceError>) -> (reply: Reply)
    ensures
        reply@ == response_of(result_view(result)),
{
    match result {
        Ok(Outcome::Row(row)) => Reply::ok(Body::Employee(row)),
        Ok(Outcome::Rows(rows)) => Reply::ok(Body::Employees(rows)),
        Ok(Outcome::Count(count)) => Reply::ok(Body::Count(count)),
        Err(error) => Reply::failure(&error),
    }
}

/// A request as the front end hands it over.
#[derive(Debug, Clone, PartialEq)]
pub struct Request {
    pub method: Method,
    /// The path of the request target, without the query string.
    pub path: Vec<u8>,
    /// The query string of the request target, without the question mark.
    pub query: String,
    pub headers: Vec<Header>,
    pub payload: Payload,
}

/// The mathematical value of a [`Request`].
pub struct RequestView {
    pub method: Method,
    pub path: Seq<u8>,
    pub query: Seq<char>,
    pub headers: Seq<HeaderView>,
    pub payload: PayloadView,
}

impl View for Request {
    type V = RequestView;

    open spec fn view(&self) -> RequestView {
        RequestView {
            method: self.method,
            path: self.path@,
            query: self.query@,
            headers: views(self.headers@),
            payload: self.payload@,
        }
    }
}

/// The table after a request, and the reply to it: where no route accepts
/// the request the table stays and the reply is "not found"; where the
/// handler knows the reply the table stays too; otherwise the statement runs
/// and its outcome is the reply.
pub open spec fn served(
    routes: Seq<RouteView>,
    table: TableView,
    request: RequestView,
    now: chrono::NaiveDateTime,
) -> (TableView, ReplyView) {
    match chosen(routes, request.method, request.path, request.headers) {
        None => (table, no_route()),
        Some(matched) => match planned(
            matched.handler,
            matched.params,
            request.query,
            request.payload,
            now,
        ) {
            StepView::Reply(reply) => (table, reply),
            StepView::Run(statement) => {
                let (after, result) = executed(table, statement);
                (after, response_of(result))
            },
        },
    }
}

/// Whether a handler leaves the employee table as it is: it answers at
/// once, or runs a statement that only reads.
pub open spec fn only_reads(handler: Handler) -> bool {
    &&& handler != Handler::CreateEmployee
    &&& handler != Handler::UpdateEmployee
    &&& handler != Handler::DeleteEmployee
}

/// In the route table of the service, the routes for `GET` lead to handlers
/// that only read.
pub proof fn lemma_get_routes_only_read(k: int)
    requires
        0 <= k < api_routes().len(),
        api_routes()[k].method == Method::Get,
    ensures
        only_reads(api_routes()[k].handler),
{
    let plain = unversioned_routes();
    let users = scoped("/users".spec_bytes(), user_routes());
    assert(user_routes().len() == 2);
    assert(users.len() == 2);
    assert(plain.len() == 14);
    assert(api_routes()[k].method == plain[k].method);
    assert(api_routes()[k].handler == plain[k].handler);
    if 4 <= k < 6 {
        assert(plain[k] == users[k - 4]);
        assert(users[k - 4].method == user_routes()[k - 4].method);
    }
}

/// Every reply has one of four statuses: 200 where the request succeeded,
/// 400 where the client sent something malformed, 404 where no route or no
/// employee was found, and 500 where the database, the pool or the
/// demonstration of a failure gave up.
pub proof fn law_reply_statuses(
    routes: Seq<RouteView>,
    table: TableView,
    request: RequestView,
    now: chrono::NaiveDateTime,
)
    ensures
        ({
            let status = served(routes, table, request, now).1.status;
            status == 200 || status == 400 || status == 404 || status == 500
        }),
{
}

/// A `GET` request leaves the employee table of the service as it is.
pub proof fn law_get_changes_nothing(
    table: TableView,
    request: RequestView,
    now: chrono::NaiveDateTime,
)
    requires
        request.method == Method::Get,
    ensures
        served(api_routes(), table, request, now).0 == table,
{
    let routes = api_routes();
    lemma_chosen_is_first(routes, request.method, request.path, request.headers);
    if chosen(routes, request.method, request.path, request.headers) is Some {
        let k = choose|k: int|
            {
                &&& 0 <= k < routes.len()
                &&& route_accepts(
                    #[trigger] routes[k],
                    request.method,
                    request.path,
                    request.headers,
                )
                &&& forall|j: int|
                    0 <= j < k ==> !route_accepts(
                        #[trigger] routes[j],
                        request.method,
                        request.path,
                        request.headers,
                    )
                &&& chosen(routes, request.method, request.path, request.headers) == Some(
                    matched_by(routes[k], request.path),
                )
            };
        lemma_get_routes_only_read(k);
    }
}

/// Serves one request against the table, with `now` as the time of the
/// request.
pub fn serve_at(
    routes: &Vec<Route>,
    table: &mut EmployeeTable,
    request: Request,
    now: chrono::NaiveDateTime,
) -> (reply: Reply)
    requires
        old(table).wf(),
    ensures
        final(table).wf(),
        (final(table)@, reply@) == served(views(routes@), old(table)@, request@, now),
{
    match dispatch(routes, request.method, request.path.as_slice(), &request.headers) {
        None => Reply::not_found(),
        Some(matched) => match plan_at(
            matched.handler,
            &matched.params,
            request.query.as_str(),
            request.payload,
            now,
        ) {
            Step::Reply(reply) => reply,
            Step::Run(statement) => respond(execute(table, statement)),
        },
    }
}

/// Serves one request against the table, at the time that the clock shows.
pub fn serve(routes: &Vec<Route>, table: &mut EmployeeTable, request: Request) -> (reply: Reply)
    requires
        old(table).wf(),
    ensures
        final(table).wf(),
        exists|now: chrono::NaiveDateTime|
            (final(table)@, reply@) == #[trigger] served(
                views(routes@),
                old(table)@,
                request@,
                now,
            ),
{
    let now = current_time();
    let ghost before = table@;
    let ghost asked = request@;
    let reply = serve_at(routes, table, request, now);
    assert((table@, reply@) == served(views(routes@), before, asked, now));
    reply
}

} // verus!
