//! The routes of the service and what each of them does.

use crate::error::{ServiceError, ServiceErrorView};
use crate::handlers::extract::{
    decimal, decimal_text, employee_id, i32_of, parse_u32, required_in, required_in_query,
    text_of, u32_of,
};
use crate::handlers::reply::{failed_with, ok_with, Body, BodyView, Reply, ReplyView};
use crate::handlers::router::{
    pattern_of, scope, scoped, Guard, GuardView, Method, Route, RouteView,
};
use crate::models::employee::{NewEmployee, NewEmployeeView};
use crate::view::views;
use vstd::prelude::*;
use vstd::slice::slice_to_vec;
use vstd::string::StringExecFns;
use vstd::string::StringSliceAdditionalSpecFns;
use vstd::utf8::{decode_utf8, valid_utf8};

verus! {

/// What a route leads to.
#[derive(Clone, Copy, Debug, PartialEq, Eq, Structural)]
pub enum Handler {
    /// Liveness check.
    Health,
    /// A fixed greeting.
    Index,
    /// Greets the user named by two pieces of the path.
    Path,
    /// Greets the user named in the query string.
    Query,
    /// Echoes a JSON document read chunk by chunk under the size limit.
    Payload,
    /// Echoes a JSON document.
    Json,
    /// Sends a body piece by piece.
    Stream,
    /// Always fails.
    Error,
    /// Answers with an empty body.
    Resource,
    CreateEmployee,
    GetEmployee,
    GetEmployees,
    UpdateEmployee,
    DeleteEmployee,
}

/// What a handler takes as the body of its request.
#[derive(Clone, Copy, Debug, PartialEq, Eq, Structural)]
pub enum Expected {
    /// No body: whatever the request carries is left unread.
    Nothing,
    /// A JSON object with a user id and a friend.
    Info,
    /// A JSON object that describes an employee.
    NewEmployee,
}

/// What `handler` takes as the body of its request.
pub open spec fn expected_by(handler: Handler) -> Expected {
    match handler {
        Handler::Payload => Expected::Info,
        Handler::Json => Expected::Info,
        Handler::CreateEmployee => Expected::NewEmployee,
        Handler::UpdateEmployee => Expected::NewEmployee,
        _ => Expected::Nothing,
    }
}

impl Handler {
    /// What this handler takes as the body of its request, so that the front
    /// end knows what to read and how to decode it.
    pub fn expects(self) -> (expected: Expected)
        ensures
            expected == expected_by(self),
    {
        match self {
            Handler::Payload => Expected::Info,
            Handler::Json => Expected::Info,
            Handler::CreateEmployee => Expected::NewEmployee,
            Handler::UpdateEmployee => Expected::NewEmployee,
            _ => Expected::Nothing,
        }
    }
}

/// The route for `method` and the pattern spelled by `text`.
pub open spec fn route_for(
    method: Method,
    text: &str,
    guard: GuardView,
    handler: Handler,
) -> RouteView {
    RouteView { method, pattern: pattern_of(text.spec_bytes()), guard, handler }
}

/// The guard that passes requests whose header `name` has exactly `value`.
pub open spec fn header_is(name: &str, value: &str) -> GuardView {
    GuardView::Header { name: name.spec_bytes(), value: value.spec_bytes() }
}

/// The routes below `/users` that take a body: both ask for a JSON content
/// type.
pub open spec fn user_routes() -> Seq<RouteView> {
    seq![
        route_for(
            Method::Post,
            "/payload",
            header_is("content-type", "application/json"),
            Handler::Payload,
        ),
        route_for(
            Method::Post,
            "/json",
            header_is("content-type", "application/json"),
            Handler::Json,
        ),
    ]
}

/// The routes of the service, before the prefix of the API version is put in
/// front of them. Their order matters: the first that accepts a request gets
/// it.
pub open spec fn unversioned_routes() -> Seq<RouteView> {
    seq![
        route_for(Method::Get, "/health", GuardView::Any, Handler::Health),
        route_for(Method::Get, "/index.html", GuardView::Any, Handler::Index),
        route_for(Method::Get, "/users/{user_id}/{friend}", GuardView::Any, Handler::Path),
        route_for(Method::Get, "/users/q", GuardView::Any, Handler::Query),
    ] + scoped("/users".spec_bytes(), user_routes()) + seq![
        route_for(Method::Get, "/stream", GuardView::Any, Handler::Stream),
        route_for(Method::Get, "/error", GuardView::Any, Handler::Error),
        route_for(
            Method::Get,
            "/resource",
            header_is("content-type", "text/plain"),
            Handler::Resource,
        ),
        route_for(Method::Post, "/employee", GuardView::Any, Handler::CreateEmployee),
        route_for(Method::Get, "/employee/{id}", GuardView::Any, Handler::GetEmployee),
        route_for(Method::Get, "/employees", GuardView::Any, Handler::GetEmployees),
        route_for(Method::Put, "/employee/{id}", GuardView::Any, Handler::UpdateEmployee),
        route_for(Method::Delete, "/employee/{id}", GuardView::Any, Handler::DeleteEmployee),
    ]
}

/// The route table of the service: every route lives under `/api/v1`.
pub open spec fn api_routes() -> Seq<RouteView> {
    scoped("/api/v1".spec_bytes(), unversioned_routes())
}

fn route(method: Method, text: &str, guard: Guard, handler: Handler) -> (route: Route)
    ensures
        route@ == route_for(method, text, guard@, handler),
{
    Route::new(method, text.as_bytes(), guard, handler)
}

fn header_guard(name: &str, value: &str) -> (guard: Guard)
    ensures
        guard@ == header_is(name, value),
{
    Guard::header(name.as_bytes(), value.as_bytes())
}

/// Builds the route table of the service.
pub fn config() -> (routes: Vec<Route>)
    ensures
        views(routes@) == api_routes(),
{
    let mut users: Vec<Route> = Vec::new();
    users.push(
        route(
            Method::Post,
            "/payload",
            header_guard("content-type", "application/json"),
            Handler::Payload,
        ),
    );
    users.push(
        route(
            Method::Post,
            "/json",
            header_guard("content-type", "application/json"),
            Handler::Json,
        ),
    );
    assert(views(users@) =~= user_routes());

    let mut api: Vec<Route> = Vec::new();
    api.push(route(Method::Get, "/health", Guard::Any, Handler::Health));
    api.push(route(Method::Get, "/index.html", Guard::Any, Handler::Index));
    api.push(route(Method::Get, "/users/{user_id}/{friend}", Guard::Any, Handler::Path));
    api.push(route(Method::Get, "/users/q", Guard::Any, Handler::Query));
    let ghost first = views(api@);
    let mut under_users = scope("/users".as_bytes(), &users);
    let ghost second = views(under_users@);
    api.append(&mut under_users);
    assert(views(api@) =~= first + second);
    api.push(route(Method::Get, "/stream", Guard::Any, Handler::Stream));
    api.push(route(Method::Get, "/error", Guard::Any, Handler::Error));
    api.push(
        route(
            Method::Get,
            "/resource",
            header_guard("content-type", "text/plain"),
            Handler::Resource,
        ),
    );
    api.push(route(Method::Post, "/employee", Guard::Any, Handler::CreateEmployee));
    api.push(route(Method::Get, "/employee/{id}", Guard::Any, Handler::GetEmployee));
    api.push(route(Method::Get, "/employees", Guard::Any, Handler::GetEmployees));
    api.push(route(Method::Put, "/employee/{id}", Guard::Any, Handler::UpdateEmployee));
    api.push(route(Method::Delete, "/employee/{id}", Guard::Any, Handler::DeleteEmployee));
    assert(views(api@) =~= unversioned_routes());
    scope("/api/v1".as_bytes(), &api)
}

/// The envelope of the endpoints that report a status rather than an
/// entity.
#[derive(Debug, Clone, PartialEq)]
pub struct Response {
    status: String,
    message: String,
    data: Option<String>,
}

/// The mathematical value of a [`Response`].
pub struct ResponseView {
    /// `success` or `error`.
    pub status: Seq<char>,
    pub message: Seq<char>,
    pub data: Option<Seq<char>>,
}

impl View for Response {
    type V = ResponseView;

    closed spec fn view(&self) -> ResponseView {
        ResponseView {
            status: self.status@,
            message: self.message@,
            data: match self.data {
                Some(text) => Some(text@),
                None => None,
            },
        }
    }
}

impl Response {
    /// The envelope that reports success.
    pub fn success(message: &str) -> (envelope: Response)
        ensures
            envelope@ == (ResponseView { status: "success"@, message: message@, data: None }),
    {
        Response {
            status: String::from_str("success"),
            message: String::from_str(message),
            data: None,
        }
    }

    /// The envelope that reports a failure.
    pub fn error(message: &str) -> (envelope: Response)
        ensures
            envelope@ == (ResponseView { status: "error"@, message: message@, data: None }),
    {
        Response {
            status: String::from_str("error"),
            message: String::from_str(message),
            data: None,
        }
    }

    /// The same envelope with `data` attached.
    pub fn with_data(self, data: &str) -> (envelope: Response)
        ensures
            envelope@ == (ResponseView {
                status: self@.status,
                message: self@.message,
                data: Some(data@),
            }),
    {
        Response { status: self.status, message: self.message, data: Some(String::from_str(data)) }
    }

    /// `success` or `error`.
    pub fn status(&self) -> (text: &str)
        ensures
            text@ == self@.status,
    {
        self.status.as_str()
    }

    /// What the envelope says.
    pub fn message(&self) -> (text: &str)
        ensures
            text@ == self@.message,
    {
        self.message.as_str()
    }

    /// What is attached to the envelope, if anything.
    pub fn data(&self) -> (text: Option<&str>)
        ensures
            match text {
                Some(text) => self@.data == Some(text@),
                None => self@.data is None,
            },
    {
        match &self.data {
            Some(text) => Some(text.as_str()),
            None => None,
        }
    }
}

/// The failure of the endpoint that always fails.
#[derive(Debug, Clone, PartialEq)]
pub struct MyError {
    name: &'static str,
}

impl View for MyError {
    type V = Seq<char>;

    /// The name of the failure.
    closed spec fn view(&self) -> Seq<char> {
        self.name@
    }
}

/// How a failure with this name reads.
pub open spec fn my_error_text(name: Seq<char>) -> Seq<char> {
    "my error: "@ + name
}

/// The reply to a request that ended in the failure with this name.
pub open spec fn my_error_reply(name: Seq<char>) -> ReplyView {
    ReplyView {
        status: 500,
        body: BodyView::Envelope(
            ResponseView { status: "error"@, message: my_error_text(name), data: None },
        ),
    }
}

impl MyError {
    /// The failure with this name.
    pub fn new(name: &'static str) -> (error: MyError)
        ensures
            error@ == name@,
    {
        MyError { name }
    }

    /// The name of the failure.
    pub fn name(&self) -> (name: &'static str)
        ensures
            name@ == self@,
    {
        self.name
    }

    /// How the failure reads: `my error: ` and its name.
    pub fn message(&self) -> (text: String)
        ensures
            text@ == my_error_text(self@),
    {
        let mut text = String::from_str("my error: ");
        text.append(self.name);
        text
    }

    /// The reply to a request that ended in this failure: status 500 and the
    /// envelope that reports an error with the text of the failure.
    pub fn reply(&self) -> (reply: Reply)
        ensures
            reply@ == my_error_reply(self@),
    {
        let text = self.message();
        Reply { status: 500, body: Body::Envelope(Response::error(text.as_str())) }
    }
}

/// A user and a friend, as the demonstration endpoints take them from the
/// path or from a JSON body.
#[derive(Debug, Clone, PartialEq)]
pub struct Info {
    pub user_id: u32,
    pub friend: String,
}

/// The mathematical value of an [`Info`].
pub struct InfoView {
    pub user_id: nat,
    pub friend: Seq<char>,
}

impl View for Info {
    type V = InfoView;

    open spec fn view(&self) -> InfoView {
        InfoView { user_id: self.user_id as nat, friend: self.friend@ }
    }
}

/// What the demonstration endpoint for queries takes from the query string.
#[derive(Debug, Clone, PartialEq)]
pub struct MyInfo {
    pub name: String,
}

impl View for MyInfo {
    type V = Seq<char>;

    /// The name.
    open spec fn view(&self) -> Seq<char> {
        self.name@
    }
}

/// The body of a request after the front end has read and decoded it.
#[derive(Debug, Clone, PartialEq)]
pub enum Payload {
    /// The request has no body, or its route takes none.
    Empty,
    /// A JSON object that describes an employee.
    NewEmployee(NewEmployee),
    /// A JSON object with a user id and a friend.
    Info(Info),
    /// The body could not be read or decoded; the failure says why.
    Refused(ServiceError),
}

/// The mathematical value of a [`Payload`].
pub enum PayloadView {
    Empty,
    NewEmployee(NewEmployeeView),
    Info(InfoView),
    Refused(ServiceErrorView),
}

impl View for Payload {
    type V = PayloadView;

    open spec fn view(&self) -> PayloadView {
        match self {
            Payload::Empty => PayloadView::Empty,
            Payload::NewEmployee(employee) => PayloadView::NewEmployee(employee@),
            Payload::Info(info) => PayloadView::Info(info@),
            Payload::Refused(error) => PayloadView::Refused(error@),
        }
    }
}

/// One statement against the employee table.
#[derive(Debug, Clone, PartialEq)]
pub enum Statement {
    /// Add a row with this name and time of creation.
    Insert { name: String, created_at: chrono::NaiveDateTime },
    /// Look up the row with this id.
    Find(i32),
    /// List all rows.
    LoadAll,
    /// Give the row with this id this name and, where there is one, this
    /// time of creation.
    Update { id: i32, name: String, created_at: Option<chrono::NaiveDateTime> },
    /// Remove the row with this id.
    Delete(i32),
}

/// The mathematical value of a [`Statement`].
pub enum StatementView {
    Insert { name: Seq<char>, created_at: chrono::NaiveDateTime },
    Find(int),
    LoadAll,
    Update { id: int, name: Seq<char>, created_at: Option<chrono::NaiveDateTime> },
    Delete(int),
}

impl View for Statement {
    type V = StatementView;

    open spec fn view(&self) -> StatementView {
        match self {
            Statement::Insert { name, created_at } => StatementView::Insert {
                name: name@,
                created_at: *created_at,
            },
            Statement::Find(id) => StatementView::Find(*id as int),
            Statement::LoadAll => StatementView::LoadAll,
            Statement::Update { id, name, created_at } => StatementView::Update {
                id: *id as int,
                name: name@,
                created_at: *created_at,
            },
            Statement::Delete(id) => StatementView::Delete(*id as int),
        }
    }
}

/// What is to be done for a request once its handler has looked at it:
/// either the reply is known, or a statement has to run first.
#[derive(Debug, Clone, PartialEq)]
pub enum Step {
    Reply(Reply),
    Run(Statement),
}

/// The mathematical value of a [`Step`].
pub enum StepView {
    Reply(ReplyView),
    Run(StatementView),
}

impl View for Step {
    type V = StepView;

    open spec fn view(&self) -> StepView {
        match self {
            Step::Reply(reply) => StepView::Reply(reply@),
            Step::Run(statement) => StepView::Run(statement@),
        }
    }
}

/// The text that answers a request whose path does not name a user id and
/// a friend.
pub open spec fn bad_user_path() -> Seq<char> {
    "the path must name a user id and a friend"@
}

/// The text that answers a body that is not what the route takes.
pub open spec fn unexpected_body() -> Seq<char> {
    "the body is not what this route takes"@
}

/// The text that answers an employee route without an id in its path.
pub open spec fn missing_id() -> Seq<char> {
    "the path names no id"@
}

/// The reply of the liveness check.
pub open spec fn health_reply() -> ReplyView {
    ok_with(
        BodyView::Envelope(
            ResponseView { status: "success"@, message: "Server is running"@, data: None },
        ),
    )
}

/// Liveness check: the envelope that says that the server is running.
pub fn health() -> (reply: Reply)
    ensures
        reply@ == health_reply(),
{
    Reply::ok(Body::Envelope(Response::success("Server is running")))
}

/// A fixed greeting.
pub fn index() -> (reply: Reply)
    ensures
        reply@ == ok_with(BodyView::Text("Hello world!"@)),
{
    Reply::ok(Body::Text(String::from_str("Hello world!")))
}

/// Always fails, with the failure named `test error`.
pub fn error() -> (result: Result<String, MyError>)
    ensures
        result matches Err(failure) && failure@ == "test error"@,
{
    Err(MyError::new("test error"))
}

/// The user and the friend that the parameters of a path name: two
/// parameters, the first a `u32` in base ten, the second text in UTF-8.
pub open spec fn info_of(params: Seq<Seq<u8>>) -> Option<InfoView> {
    if params.len() == 2 && u32_of(params[0]) is Some && valid_utf8(params[1]) {
        Some(
            InfoView {
                user_id: u32_of(params[0]).unwrap() as nat,
                friend: decode_utf8(params[1]),
            },
        )
    } else {
        None
    }
}

/// How the user of the path endpoint is greeted.
pub open spec fn path_greeting(info: InfoView) -> Seq<char> {
    "Welcome "@ + info.friend + "! user_id:"@ + decimal(info.user_id)
}

/// How the user of the query endpoint is greeted.
pub open spec fn query_greeting(name: Seq<char>) -> Seq<char> {
    "Welcome "@ + name + "!"@
}

/// What the path endpoint answers to these parameters.
pub open spec fn path_reply(params: Seq<Seq<u8>>) -> ReplyView {
    match info_of(params) {
        Some(info) => ok_with(BodyView::Text(path_greeting(info))),
        None => failed_with(ServiceErrorView::Validation(bad_user_path())),
    }
}

/// What the query endpoint answers to this query string.
pub open spec fn query_reply(query: Seq<char>) -> ReplyView {
    match required_in(query, "name"@) {
        Ok(name) => ok_with(BodyView::Text(query_greeting(name))),
        Err(error) => failed_with(error),
    }
}

/// What the echo endpoints answer to this body.
pub open spec fn json_reply(payload: PayloadView) -> ReplyView {
    match payload {
        PayloadView::Info(info) => ok_with(BodyView::Info(info)),
        PayloadView::Refused(error) => failed_with(error),
        _ => failed_with(ServiceErrorView::Validation(unexpected_body())),
    }
}

impl Info {
    /// The user and the friend that the parameters of a path name.
    pub fn from_path(params: &Vec<Vec<u8>>) -> (result: Result<Info, ServiceError>)
        ensures
            match result {
                Ok(info) => info_of(views(params@)) == Some(info@),
                Err(error) => info_of(views(params@)) is None && error@
                    == ServiceErrorView::Validation(bad_user_path()),
            },
    {
        if params.len() == 2 {
            assert(views(params@)[0] == params@[0]@);
            assert(views(params@)[1] == params@[1]@);
            match parse_u32(params[0].as_slice()) {
                Some(user_id) => {
                    match text_of(params[1].as_slice()) {
                        Some(friend) => {
                            return Ok(Info { user_id, friend });
                        },
                        None => {},
                    }
                },
                None => {},
            }
        }
        Err(ServiceError::Validation(String::from_str("the path must name a user id and a friend")))
    }
}

impl MyInfo {
    /// The name that a query string gives: the value of its one field
    /// called `name`.
    pub fn from_query(query: &str) -> (result: Result<MyInfo, ServiceError>)
        ensures
            match result {
                Ok(info) => required_in(query@, "name"@) == Ok::<Seq<char>, ServiceErrorView>(
                    info@,
                ),
                Err(error) => required_in(query@, "name"@) == Err::<Seq<char>, ServiceErrorView>(
                    error@,
                ),
            },
    {
        match required_in_query(query, "name") {
            Ok(name) => Ok(MyInfo { name }),
            Err(error) => Err(error),
        }
    }
}

/// Greets the user whom the path names.
pub fn path(params: &Vec<Vec<u8>>) -> (reply: Reply)
    ensures
        reply@ == path_reply(views(params@)),
{
    match Info::from_path(params) {
        Ok(info) => {
            let mut text = String::from_str("Welcome ");
            text.append(info.friend.as_str());
            text.append("! user_id:");
            let number = decimal_text(info.user_id);
            text.append(number.as_str());
            Reply::ok(Body::Text(text))
        },
        Err(error) => Reply::failure(&error),
    }
}

/// Greets the user whom the query string names.
pub fn query(query_string: &str) -> (reply: Reply)
    ensures
        reply@ == query_reply(query_string@),
{
    match MyInfo::from_query(query_string) {
        Ok(info) => {
            let mut text = String::from_str("Welcome ");
            text.append(info.name.as_str());
            text.append("!");
            Reply::ok(Body::Text(text))
        },
        Err(error) => Reply::failure(&error),
    }
}

/// Echoes the user and the friend that the body holds.
pub fn json(payload: Payload) -> (reply: Reply)
    ensures
        reply@ == json_reply(payload@),
{
    match payload {
        Payload::Info(info) => Reply::ok(Body::Info(info)),
        Payload::Refused(error) => Reply::failure(&error),
        _ => Reply::failure(
            &ServiceError::Validation(String::from_str("the body is not what this route takes")),
        ),
    }
}

/// Sends the four bytes of `test` as a body that goes out piece by piece.
pub fn stream() -> (reply: Reply)
    ensures
        reply@ == ok_with(BodyView::Stream("test".spec_bytes())),
{
    Reply::ok(Body::Stream(slice_to_vec("test".as_bytes())))
}

/// Answers with an empty body.
pub fn resource() -> (reply: Reply)
    ensures
        reply@ == ok_with(BodyView::Empty),
{
    Reply::ok(Body::Empty)
}

/// The id that an employee route takes from its path: the one parameter,
/// an `i32` in base ten.
pub open spec fn id_of(params: Seq<Seq<u8>>) -> Result<int, ServiceErrorView> {
    if params.len() != 1 {
        Err(ServiceErrorView::Validation(missing_id()))
    } else {
        match i32_of(params[0]) {
            Some(id) => Ok(id as int),
            None => Err(ServiceErrorView::Validation(crate::handlers::extract::bad_id())),
        }
    }
}

/// The employee that an employee route takes from its body.
pub open spec fn employee_of(payload: PayloadView) -> Result<NewEmployeeView, ServiceErrorView> {
    match payload {
        PayloadView::NewEmployee(employee) => Ok(employee),
        PayloadView::Refused(error) => Err(error),
        _ => Err(ServiceErrorView::Validation(unexpected_body())),
    }
}

/// The time of creation of a new employee: the submitted one, or `now`
/// where none was submitted.
pub open spec fn resolved(
    employee: NewEmployeeView,
    now: chrono::NaiveDateTime,
) -> chrono::NaiveDateTime {
    match employee.created_at {
        Some(moment) => moment,
        None => now,
    }
}

/// What creating an employee from this body comes to.
pub open spec fn create_step(payload: PayloadView, now: chrono::NaiveDateTime) -> StepView {
    match employee_of(payload) {
        Ok(employee) => StepView::Run(
            StatementView::Insert { name: employee.name, created_at: resolved(employee, now) },
        ),
        Err(error) => StepView::Reply(failed_with(error)),
    }
}

/// What reading the employee named by these parameters comes to.
pub open spec fn get_step(params: Seq<Seq<u8>>) -> StepView {
    match id_of(params) {
        Ok(id) => StepView::Run(StatementView::Find(id)),
        Err(error) => StepView::Reply(failed_with(error)),
    }
}

/// What updating the employee named by these parameters with this body
/// comes to: the statement carries what was submitted, and a body without a
/// time of creation leaves the stored one alone. A malformed id is reported
/// before a malformed body.
pub open spec fn update_step(params: Seq<Seq<u8>>, payload: PayloadView) -> StepView {
    match id_of(params) {
        Ok(id) => match employee_of(payload) {
            Ok(employee) => StepView::Run(
                StatementView::Update {
                    id,
                    name: employee.name,
                    created_at: employee.created_at,
                },
            ),
            Err(error) => StepView::Reply(failed_with(error)),
        },
        Err(error) => StepView::Reply(failed_with(error)),
    }
}

/// What deleting the employee named by these parameters comes to.
pub open spec fn delete_step(params: Seq<Seq<u8>>) -> StepView {
    match id_of(params) {
        Ok(id) => StepView::Run(StatementView::Delete(id)),
        Err(error) => StepView::Reply(failed_with(error)),
    }
}

fn path_id(params: &Vec<Vec<u8>>) -> (result: Result<i32, ServiceError>)
    ensures
        match result {
            Ok(id) => id_of(views(params@)) == Ok::<int, ServiceErrorView>(id as int),
            Err(error) => id_of(views(params@)) == Err::<int, ServiceErrorView>(error@),
        },
{
    if params.len() != 1 {
        return Err(ServiceError::Validation(String::from_str("the path names no id")));
    }
    assert(views(params@)[0] == params@[0]@);
    employee_id(params[0].as_slice())
}

fn submitted(payload: Payload) -> (result: Result<NewEmployee, ServiceError>)
    ensures
        match result {
            Ok(employee) => employee_of(payload@) == Ok::<NewEmployeeView, ServiceErrorView>(
                employee@,
            ),
            Err(error) => employee_of(payload@) == Err::<NewEmployeeView, ServiceErrorView>(
                error@,
            ),
        },
{
    match payload {
        Payload::NewEmployee(employee) => Ok(employee),
        Payload::Refused(error) => Err(error),
        _ => Err(
            ServiceError::Validation(String::from_str("the body is not what this route takes")),
        ),
    }
}

/// Creates an employee: the submitted name, and the submitted time of
/// creation or, where the body has none, `now`.
pub fn create_employee(payload: Payload, now: chrono::NaiveDateTime) -> (step: Step)
    ensures
        step@ == create_step(payload@, now),
{
    match submitted(payload) {
        Ok(employee) => {
            let created_at = match employee.created_at {
                Some(moment) => moment,
                None => now,
            };
            Step::Run(Statement::Insert { name: employee.name, created_at })
        },
        Err(error) => Step::Reply(Reply::failure(&error)),
    }
}

/// Reads the employee whose id is in the path.
pub fn get_employee(params: &Vec<Vec<u8>>) -> (step: Step)
    ensures
        step@ == get_step(views(params@)),
{
    match path_id(params) {
        Ok(id) => Step::Run(Statement::Find(id)),
        Err(error) => Step::Reply(Reply::failure(&error)),
    }
}

/// Lists all employees.
pub fn get_employees() -> (step: Step)
    ensures
        step@ == StepView::Run(StatementView::LoadAll),
{
    Step::Run(Statement::LoadAll)
}

/// Updates the employee whose id is in the path with what the body holds:
/// the name, and the time of creation where the body has one. Fields that
/// the body does not hold stay as they are stored.
pub fn update_employee(params: &Vec<Vec<u8>>, payload: Payload) -> (step: Step)
    ensures
        step@ == update_step(views(params@), payload@),
{
    match path_id(params) {
        Ok(id) => match submitted(payload) {
            Ok(employee) => Step::Run(
                Statement::Update { id, name: employee.name, created_at: employee.created_at },
            ),
            Err(error) => Step::Reply(Reply::failure(&error)),
        },
        Err(error) => Step::Reply(Reply::failure(&error)),
    }
}

/// Deletes the employee whose id is in the path.
pub fn delete_employee(params: &Vec<Vec<u8>>) -> (step: Step)
    ensures
        step@ == delete_step(views(params@)),
{
    match path_id(params) {
        Ok(id) => Step::Run(Statement::Delete(id)),
        Err(error) => Step::Reply(Reply::failure(&error)),
    }
}

} // verus!
