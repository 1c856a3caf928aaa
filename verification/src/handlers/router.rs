//! Route patterns, header guards, and the dispatcher that picks the first
//! route of a table that accepts a request.

use crate::handlers::routes::Handler;
use crate::view::views;
use vstd::prelude::*;
use vstd::slice::slice_subrange;
use vstd::slice::slice_to_vec;

verus! {

/// The byte that separates the pieces of a path: `/`.
pub const SLASH: u8 = 47;

/// The byte that opens a capture in a pattern: `{`.
pub const OPEN: u8 = 123;

/// The byte that closes a capture in a pattern: `}`.
pub const CLOSE: u8 = 125;

/// The request methods that the dispatcher tells apart.
#[derive(Clone, Copy, Debug, PartialEq, Eq, Structural)]
pub enum Method {
    Get,
    Post,
    Put,
    Delete,
    Patch,
    Head,
    Options,
}

/// The pieces of `text` between slashes: every slash ends one piece and
/// begins the next, so a text with `n` slashes has `n + 1` pieces, some of
/// them possibly empty.
pub open spec fn segments(text: Seq<u8>) -> Seq<Seq<u8>>
    decreases text.len(),
{
    if text.len() == 0 {
        seq![Seq::<u8>::empty()]
    } else {
        let before = segments(text.drop_last());
        if text.last() == SLASH {
            before.push(Seq::<u8>::empty())
        } else {
            before.drop_last().push(before.last().push(text.last()))
        }
    }
}

/// `pieces` written out with a slash between neighbours.
pub open spec fn joined(pieces: Seq<Seq<u8>>) -> Seq<u8>
    decreases pieces.len(),
{
    if pieces.len() == 0 {
        Seq::<u8>::empty()
    } else if pieces.len() == 1 {
        pieces[0]
    } else {
        joined(pieces.drop_last()) + seq![SLASH] + pieces.last()
    }
}

/// Cutting a text at its slashes loses nothing: there is at least one piece,
/// no piece holds a slash, and the pieces joined by slashes are the text.
pub proof fn law_segments_rejoin(text: Seq<u8>)
    ensures
        segments(text).len() >= 1,
        forall|i: int, j: int|
            0 <= i < segments(text).len() && 0 <= j < segments(text)[i].len()
                ==> segments(text)[i][j] != SLASH,
        joined(segments(text)) == text,
    decreases text.len(),
{
    if text.len() == 0 {
        assert(joined(segments(text)) =~= text);
    } else {
        let shorter = text.drop_last();
        law_segments_rejoin(shorter);
        let before = segments(shorter);
        let now = segments(text);
        if text.last() == SLASH {
            assert(now.drop_last() =~= before);
            assert(joined(now) =~= joined(before) + seq![SLASH] + Seq::<u8>::empty());
            assert(joined(now) =~= text);
        } else {
            let grown = before.last().push(text.last());
            assert(now.last() == grown);
            if before.len() == 1 {
                assert(joined(before) == before[0]);
                assert(joined(now) =~= text);
            } else {
                assert(now.drop_last() =~= before.drop_last());
                assert(joined(before) == joined(before.drop_last()) + seq![SLASH] + before.last());
                assert(joined(now) == joined(before.drop_last()) + seq![SLASH] + grown);
                assert(joined(now) =~= joined(before).push(text.last()));
                assert(joined(now) =~= text);
            }
        }
    }
}

/// The pieces of a request path. A path has to begin with a slash; the
/// pieces are those of what follows it. `/` alone has one empty piece.
pub open spec fn path_segments(path: Seq<u8>) -> Option<Seq<Seq<u8>>> {
    if path.len() > 0 && path[0] == SLASH {
        Some(segments(path.skip(1)))
    } else {
        None
    }
}

/// One piece of a route pattern.
#[derive(Debug, Clone, PartialEq)]
pub enum Piece {
    /// Accepts exactly these bytes.
    Literal(Vec<u8>),
    /// Accepts any piece that is not empty, and hands it on as a parameter.
    Capture,
}

/// The mathematical value of a [`Piece`].
pub enum PieceView {
    Literal(Seq<u8>),
    Capture,
}

impl View for Piece {
    type V = PieceView;

    open spec fn view(&self) -> PieceView {
        match self {
            Piece::Literal(bytes) => PieceView::Literal(bytes@),
            Piece::Capture => PieceView::Capture,
        }
    }
}

/// Whether a piece of pattern text is a capture: a name in braces, as in
/// `{id}`.
pub open spec fn is_capture(piece: Seq<u8>) -> bool {
    piece.len() >= 2 && piece[0] == OPEN && piece.last() == CLOSE
}

/// What one piece of pattern text stands for.
pub open spec fn piece_of(piece: Seq<u8>) -> PieceView {
    if is_capture(piece) {
        PieceView::Capture
    } else {
        PieceView::Literal(piece)
    }
}

/// The text of a pattern without the slash it may begin with.
pub open spec fn unrooted(text: Seq<u8>) -> Seq<u8> {
    if text.len() > 0 && text[0] == SLASH {
        text.skip(1)
    } else {
        text
    }
}

/// The pattern that `text` spells, piece by piece: `/employee/{id}` is the
/// literal `employee` followed by a capture.
pub open spec fn pattern_of(text: Seq<u8>) -> Seq<PieceView> {
    let pieces = segments(unrooted(text));
    Seq::new(pieces.len(), |i: int| piece_of(pieces[i]))
}

/// Whether one pattern piece accepts one piece of a path.
pub open spec fn piece_accepts(piece: PieceView, segment: Seq<u8>) -> bool {
    match piece {
        PieceView::Literal(bytes) => bytes == segment,
        PieceView::Capture => segment.len() > 0,
    }
}

/// Whether a pattern accepts a path, given by its pieces: as many pieces on
/// both sides, and each accepted in its place.
pub open spec fn pattern_accepts(pattern: Seq<PieceView>, pieces: Seq<Seq<u8>>) -> bool {
    &&& pattern.len() == pieces.len()
    &&& forall|i: int| 0 <= i < pattern.len() ==> piece_accepts(#[trigger] pattern[i], pieces[i])
}

/// The first `count` pieces of the path that stand where the pattern has a
/// capture, in path order.
pub open spec fn captured_among(
    pattern: Seq<PieceView>,
    pieces: Seq<Seq<u8>>,
    count: int,
) -> Seq<Seq<u8>>
    decreases count,
{
    if count <= 0 {
        Seq::<Seq<u8>>::empty()
    } else {
        let earlier = captured_among(pattern, pieces, count - 1);
        if count <= pattern.len() && count <= pieces.len() && pattern[count - 1] is Capture {
            earlier.push(pieces[count - 1])
        } else {
            earlier
        }
    }
}

/// The pieces of the path that stand where the pattern has a capture, in
/// path order: the parameters of the request.
pub open spec fn captured(pattern: Seq<PieceView>, pieces: Seq<Seq<u8>>) -> Seq<Seq<u8>> {
    captured_among(pattern, pieces, pattern.len() as int)
}

/// One header of a request.
#[derive(Debug, Clone, PartialEq)]
pub struct Header {
    pub name: Vec<u8>,
    pub value: Vec<u8>,
}

/// The mathematical value of a [`Header`].
pub struct HeaderView {
    pub name: Seq<u8>,
    pub value: Seq<u8>,
}

impl View for Header {
    type V = HeaderView;

    open spec fn view(&self) -> HeaderView {
        HeaderView { name: self.name@, value: self.value@ }
    }
}

/// An ASCII capital letter as its small letter; any other byte as it is.
pub open spec fn lowered(byte: u8) -> u8 {
    if 65 <= byte <= 90 {
        (byte + 32) as u8
    } else {
        byte
    }
}

/// Whether two header names are the same name: header names do not
/// distinguish ASCII capitals from small letters.
pub open spec fn same_name(a: Seq<u8>, b: Seq<u8>) -> bool {
    &&& a.len() == b.len()
    &&& forall|i: int| 0 <= i < a.len() ==> lowered(#[trigger] a[i]) == lowered(b[i])
}

/// The value of the first header called `name`, if there is one.
pub open spec fn header_value(headers: Seq<HeaderView>, name: Seq<u8>) -> Option<Seq<u8>>
    decreases headers.len(),
{
    if headers.len() == 0 {
        None
    } else if same_name(headers[0].name, name) {
        Some(headers[0].value)
    } else {
        header_value(headers.skip(1), name)
    }
}

/// A condition on the headers of a request, beyond method and path.
#[derive(Debug, Clone, PartialEq)]
pub enum Guard {
    /// Every request passes.
    Any,
    /// Passes where the first header called `name` has exactly `value`.
    Header { name: Vec<u8>, value: Vec<u8> },
}

/// The mathematical value of a [`Guard`].
pub enum GuardView {
    Any,
    Header { name: Seq<u8>, value: Seq<u8> },
}

impl View for Guard {
    type V = GuardView;

    open spec fn view(&self) -> GuardView {
        match self {
            Guard::Any => GuardView::Any,
            Guard::Header { name, value } => GuardView::Header { name: name@, value: value@ },
        }
    }
}

/// Whether requests with these headers pass the guard. A request without
/// the header does not pass, and neither does one with another value.
pub open spec fn guard_admits(guard: GuardView, headers: Seq<HeaderView>) -> bool {
    match guard {
        GuardView::Any => true,
        GuardView::Header { name, value } => header_value(headers, name) == Some(value),
    }
}

/// Whether two byte strings are equal.
pub fn bytes_equal(a: &[u8], b: &[u8]) -> (equal: bool)
    ensures
        equal == (a@ == b@),
{
    if a.len() != b.len() {
        return false;
    }
    let mut i: usize = 0;
    while i < a.len()
        invariant
            a.len() == b.len(),
            i <= a.len(),
            forall|k: int| 0 <= k < i ==> a@[k] == b@[k],
        decreases a.len() - i,
    {
        if a[i] != b[i] {
            return false;
        }
        i += 1;
    }
    assert(a@ =~= b@);
    true
}

/// [`lowered`], computed.
pub fn lower(byte: u8) -> (small: u8)
    ensures
        small == lowered(byte),
{
    if 65 <= byte && byte <= 90 {
        byte + 32
    } else {
        byte
    }
}

/// Whether two header names are the same but for the case of ASCII letters.
pub fn names_match(a: &[u8], b: &[u8]) -> (same: bool)
    ensures
        same == same_name(a@, b@),
{
    if a.len() != b.len() {
        return false;
    }
    let mut i: usize = 0;
    while i < a.len()
        invariant
            a.len() == b.len(),
            i <= a.len(),
            forall|k: int| 0 <= k < i ==> lowered(#[trigger] a@[k]) == lowered(b@[k]),
        decreases a.len() - i,
    {
        if lower(a[i]) != lower(b[i]) {
            return false;
        }
        i += 1;
    }
    true
}

/// Cuts `text` at its slashes.
pub fn split(text: &[u8]) -> (pieces: Vec<Vec<u8>>)
    ensures
        views(pieces@) == segments(text@),
{
    let mut done: Vec<Vec<u8>> = Vec::new();
    let mut current: Vec<u8> = Vec::new();
    let mut i: usize = 0;
    assert(text@.take(0) =~= Seq::<u8>::empty());
    assert(views(done@).push(current@) =~= segments(text@.take(0)));
    while i < text.len()
        invariant
            i <= text.len(),
            views(done@).push(current@) == segments(text@.take(i as int)),
        decreases text.len() - i,
    {
        let byte = text[i];
        proof {
            let longer = text@.take(i + 1);
            assert(longer.drop_last() =~= text@.take(i as int));
            assert(longer.last() == byte);
        }
        let ghost before = views(done@).push(current@);
        if byte == SLASH {
            done.push(current);
            current = Vec::new();
            assert(views(done@) =~= before);
        } else {
            current.push(byte);
            assert(views(done@).push(current@) =~= before.drop_last().push(
                before.last().push(byte),
            ));
        }
        i += 1;
    }
    assert(text@.take(text.len() as int) =~= text@);
    let ghost before = views(done@).push(current@);
    done.push(current);
    assert(views(done@) =~= before);
    done
}

/// Reads a pattern: the text is cut at its slashes, after the slash it may
/// begin with, and a piece in braces becomes a capture.
pub fn parse_pattern(text: &[u8]) -> (pattern: Vec<Piece>)
    ensures
        views(pattern@) == pattern_of(text@),
{
    let start: usize = if text.len() > 0 && text[0] == SLASH {
        1
    } else {
        0
    };
    let rest = slice_subrange(text, start, text.len());
    assert(rest@ =~= unrooted(text@));
    let pieces = split(rest);
    let mut pattern: Vec<Piece> = Vec::new();
    let mut i: usize = 0;
    while i < pieces.len()
        invariant
            i <= pieces.len(),
            pattern.len() == i,
            forall|k: int| 0 <= k < i ==> pattern@[k]@ == piece_of(#[trigger] pieces@[k]@),
        decreases pieces.len() - i,
    {
        let piece = &pieces[i];
        let n = piece.len();
        if n >= 2 && piece[0] == OPEN && piece[n - 1] == CLOSE {
            pattern.push(Piece::Capture);
        } else {
            pattern.push(Piece::Literal(slice_to_vec(piece.as_slice())));
        }
        i += 1;
    }
    assert(views(pattern@) =~= pattern_of(text@)) by {
        assert(views(pieces@) == segments(unrooted(text@)));
        assert forall|k: int| 0 <= k < pattern.len() implies views(pattern@)[k] == pattern_of(
            text@,
        )[k] by {
            assert(views(pieces@)[k] == pieces@[k]@);
        }
    }
    pattern
}

impl Piece {
    /// A copy of this piece.
    pub fn duplicate(&self) -> (copy: Piece)
        ensures
            copy@ == self@,
    {
        match self {
            Piece::Literal(bytes) => Piece::Literal(slice_to_vec(bytes.as_slice())),
            Piece::Capture => Piece::Capture,
        }
    }
}

impl Guard {
    /// The guard that passes requests whose first header called `name` has
    /// exactly `value`.
    pub fn header(name: &[u8], value: &[u8]) -> (guard: Guard)
        ensures
            guard@ == (GuardView::Header { name: name@, value: value@ }),
    {
        Guard::Header { name: slice_to_vec(name), value: slice_to_vec(value) }
    }

    /// A copy of this guard.
    pub fn duplicate(&self) -> (copy: Guard)
        ensures
            copy@ == self@,
    {
        match self {
            Guard::Any => Guard::Any,
            Guard::Header { name, value } => Guard::Header {
                name: slice_to_vec(name.as_slice()),
                value: slice_to_vec(value.as_slice()),
            },
        }
    }
}

/// Whether the pattern accepts the path with these pieces.
pub fn accepts(pattern: &Vec<Piece>, pieces: &Vec<Vec<u8>>) -> (accepted: bool)
    ensures
        accepted == pattern_accepts(views(pattern@), views(pieces@)),
{
    if pattern.len() != pieces.len() {
        return false;
    }
    let mut i: usize = 0;
    while i < pattern.len()
        invariant
            pattern.len() == pieces.len(),
            i <= pattern.len(),
            forall|k: int|
                0 <= k < i ==> piece_accepts(#[trigger] views(pattern@)[k], views(pieces@)[k]),
        decreases pattern.len() - i,
    {
        let fits = match &pattern[i] {
            Piece::Literal(bytes) => bytes_equal(bytes.as_slice(), pieces[i].as_slice()),
            Piece::Capture => pieces[i].len() > 0,
        };
        assert(fits == piece_accepts(views(pattern@)[i as int], views(pieces@)[i as int]));
        if !fits {
            return false;
        }
        i += 1;
    }
    true
}

/// The parameters of a path: its pieces where the pattern has a capture.
pub fn captures(pattern: &Vec<Piece>, pieces: &Vec<Vec<u8>>) -> (params: Vec<Vec<u8>>)
    ensures
        views(params@) == captured(views(pattern@), views(pieces@)),
{
    let mut params: Vec<Vec<u8>> = Vec::new();
    let mut i: usize = 0;
    assert(views(params@) =~= captured_among(views(pattern@), views(pieces@), 0));
    while i < pattern.len()
        invariant
            i <= pattern.len(),
            views(params@) == captured_among(views(pattern@), views(pieces@), i as int),
        decreases pattern.len() - i,
    {
        let ghost earlier = views(params@);
        if i < pieces.len() {
            match &pattern[i] {
                Piece::Capture => {
                    params.push(slice_to_vec(pieces[i].as_slice()));
                    assert(views(params@) =~= earlier.push(views(pieces@)[i as int]));
                },
                Piece::Literal(_) => {},
            }
        }
        i += 1;
    }
    params
}

/// The value of the first header called `name`.
pub fn find_header<'a>(headers: &'a Vec<Header>, name: &[u8]) -> (value: Option<&'a Vec<u8>>)
    ensures
        match value {
            Some(bytes) => header_value(views(headers@), name@) == Some(bytes@),
            None => header_value(views(headers@), name@) is None,
        },
{
    let mut i: usize = 0;
    assert(views(headers@).skip(0) =~= views(headers@));
    while i < headers.len()
        invariant
            i <= headers.len(),
            header_value(views(headers@), name@) == header_value(
                views(headers@).skip(i as int),
                name@,
            ),
        decreases headers.len() - i,
    {
        let ghost rest = views(headers@).skip(i as int);
        assert(rest[0] == headers@[i as int]@);
        assert(rest.skip(1) =~= views(headers@).skip(i + 1));
        if names_match(headers[i].name.as_slice(), name) {
            return Some(&headers[i].value);
        }
        i += 1;
    }
    None
}

/// Whether requests with these headers pass the guard.
pub fn admits(guard: &Guard, headers: &Vec<Header>) -> (admitted: bool)
    ensures
        admitted == guard_admits(guard@, views(headers@)),
{
    match guard {
        Guard::Any => true,
        Guard::Header { name, value } => {
            match find_header(headers, name.as_slice()) {
                Some(found) => bytes_equal(found.as_slice(), value.as_slice()),
                None => false,
            }
        },
    }
}

/// One line of a route table: requests with this method, a path that the
/// pattern accepts and headers that pass the guard go to the handler.
#[derive(Debug, Clone, PartialEq)]
pub struct Route {
    pub method: Method,
    pub pattern: Vec<Piece>,
    pub guard: Guard,
    pub handler: Handler,
}

/// The mathematical value of a [`Route`].
pub struct RouteView {
    pub method: Method,
    pub pattern: Seq<PieceView>,
    pub guard: GuardView,
    pub handler: Handler,
}

impl View for Route {
    type V = RouteView;

    open spec fn view(&self) -> RouteView {
        RouteView {
            method: self.method,
            pattern: views(self.pattern@),
            guard: self.guard@,
            handler: self.handler,
        }
    }
}

/// Whether the route accepts a request. A request that fails the method,
/// the pattern or the guard is not accepted; none of these is an error.
pub open spec fn route_accepts(
    route: RouteView,
    method: Method,
    path: Seq<u8>,
    headers: Seq<HeaderView>,
) -> bool {
    &&& route.method == method
    &&& path_segments(path) matches Some(pieces) && pattern_accepts(route.pattern, pieces)
    &&& guard_admits(route.guard, headers)
}

impl Route {
    /// The route for `method` and the pattern that `text` spells.
    pub fn new(method: Method, text: &[u8], guard: Guard, handler: Handler) -> (route: Route)
        ensures
            route@ == (RouteView {
                method,
                pattern: pattern_of(text@),
                guard: guard@,
                handler,
            }),
    {
        Route { method, pattern: parse_pattern(text), guard, handler }
    }
}

/// The routes of a scope: each pattern is preceded by the pieces of the
/// scope's prefix.
pub open spec fn scoped(prefix: Seq<u8>, routes: Seq<RouteView>) -> Seq<RouteView> {
    Seq::new(
        routes.len(),
        |i: int|
            RouteView {
                method: routes[i].method,
                pattern: pattern_of(prefix) + routes[i].pattern,
                guard: routes[i].guard,
                handler: routes[i].handler,
            },
    )
}

/// Puts the routes under a common prefix, keeping their order.
pub fn scope(prefix: &[u8], routes: &Vec<Route>) -> (under: Vec<Route>)
    ensures
        views(under@) == scoped(prefix@, views(routes@)),
{
    let lead = parse_pattern(prefix);
    let mut under: Vec<Route> = Vec::new();
    let mut i: usize = 0;
    while i < routes.len()
        invariant
            i <= routes.len(),
            under.len() == i,
            views(lead@) == pattern_of(prefix@),
            forall|k: int|
                0 <= k < i ==> (#[trigger] under@[k])@ == scoped(prefix@, views(routes@))[k],
        decreases routes.len() - i,
    {
        let route = &routes[i];
        let mut pattern: Vec<Piece> = Vec::new();
        let mut j: usize = 0;
        while j < lead.len()
            invariant
                j <= lead.len(),
                pattern.len() == j,
                forall|k: int| 0 <= k < j ==> (#[trigger] pattern@[k])@ == lead@[k]@,
            decreases lead.len() - j,
        {
            pattern.push(lead[j].duplicate());
            j += 1;
        }
        let mut j: usize = 0;
        while j < route.pattern.len()
            invariant
                j <= route.pattern.len(),
                pattern.len() == lead.len() + j,
                forall|k: int| 0 <= k < lead.len() ==> (#[trigger] pattern@[k])@ == lead@[k]@,
                forall|k: int|
                    0 <= k < j ==> (#[trigger] pattern@[lead.len() + k])@ == route.pattern@[k]@,
            decreases route.pattern.len() - j,
        {
            pattern.push(route.pattern[j].duplicate());
            j += 1;
        }
        assert(views(pattern@) =~= views(lead@) + views(route.pattern@)) by {
            assert forall|k: int| 0 <= k < pattern.len() implies views(pattern@)[k] == (views(
                lead@,
            ) + views(route.pattern@))[k] by {
                if k >= lead.len() {
                    assert(pattern@[lead.len() + (k - lead.len())]@ == route.pattern@[k
                        - lead.len()]@);
                }
            }
        }
        under.push(
            Route {
                method: route.method,
                pattern,
                guard: route.guard.duplicate(),
                handler: route.handler,
            },
        );
        assert(views(routes@)[i as int] == route@);
        i += 1;
    }
    assert(views(under@) =~= scoped(prefix@, views(routes@)));
    under
}

/// What the dispatcher found for a request.
#[derive(Debug, Clone, PartialEq)]
pub struct Matched {
    pub handler: Handler,
    /// The pieces of the path where the route's pattern has a capture.
    pub params: Vec<Vec<u8>>,
}

/// The mathematical value of a [`Matched`].
pub struct MatchedView {
    pub handler: Handler,
    pub params: Seq<Seq<u8>>,
}

impl View for Matched {
    type V = MatchedView;

    open spec fn view(&self) -> MatchedView {
        MatchedView { handler: self.handler, params: views(self.params@) }
    }
}

/// What a route hands on for a path that it accepts.
pub open spec fn matched_by(route: RouteView, path: Seq<u8>) -> MatchedView {
    MatchedView {
        handler: route.handler,
        params: captured(route.pattern, path_segments(path).unwrap()),
    }
}

/// The choice of the dispatcher: the first route of the table, in table
/// order, that accepts the request; none where no route does.
pub open spec fn chosen(
    routes: Seq<RouteView>,
    method: Method,
    path: Seq<u8>,
    headers: Seq<HeaderView>,
) -> Option<MatchedView>
    decreases routes.len(),
{
    if routes.len() == 0 {
        None
    } else if route_accepts(routes[0], method, path, headers) {
        Some(matched_by(routes[0], path))
    } else {
        chosen(routes.skip(1), method, path, headers)
    }
}

/// Picks the route for a request: the first in the table that accepts it.
/// `None` is the answer "not found".
pub fn dispatch(routes: &Vec<Route>, method: Method, path: &[u8], headers: &Vec<Header>) -> (found:
    Option<Matched>)
    ensures
        match found {
            Some(matched) => chosen(views(routes@), method, path@, views(headers@)) == Some(
                matched@,
            ),
            None => chosen(views(routes@), method, path@, views(headers@)) is None,
        },
{
    if path.len() == 0 || path[0] != SLASH {
        proof {
            lemma_unrooted_path_is_refused(views(routes@), method, path@, views(headers@));
        }
        return None;
    }
    let rest = slice_subrange(path, 1, path.len());
    assert(rest@ =~= path@.skip(1));
    let pieces = split(rest);
    let mut i: usize = 0;
    assert(views(routes@).skip(0) =~= views(routes@));
    while i < routes.len()
        invariant
            i <= routes.len(),
            path_segments(path@) == Some(views(pieces@)),
            chosen(views(routes@), method, path@, views(headers@)) == chosen(
                views(routes@).skip(i as int),
                method,
                path@,
                views(headers@),
            ),
        decreases routes.len() - i,
    {
        let route = &routes[i];
        let ghost rest_routes = views(routes@).skip(i as int);
        assert(rest_routes[0] == route@);
        assert(rest_routes.skip(1) =~= views(routes@).skip(i + 1));
        if route.method == method && accepts(&route.pattern, &pieces) && admits(
            &route.guard,
            headers,
        ) {
            let params = captures(&route.pattern, &pieces);
            return Some(Matched { handler: route.handler, params });
        }
        i += 1;
    }
    None
}

/// A path that does not begin with a slash goes nowhere.
pub proof fn lemma_unrooted_path_is_refused(
    routes: Seq<RouteView>,
    method: Method,
    path: Seq<u8>,
    headers: Seq<HeaderView>,
)
    requires
        path_segments(path) is None,
    ensures
        chosen(routes, method, path, headers) is None,
    decreases routes.len(),
{
    if routes.len() > 0 {
        lemma_unrooted_path_is_refused(routes.skip(1), method, path, headers);
    }
}

/// The dispatcher's choice is the first route that accepts: it answers "not
/// found" exactly where no route of the table accepts the request, and
/// otherwise hands on what the accepting route with the least index gives.
pub proof fn lemma_chosen_is_first(
    routes: Seq<RouteView>,
    method: Method,
    path: Seq<u8>,
    headers: Seq<HeaderView>,
)
    ensures
        chosen(routes, method, path, headers) is None <==> forall|i: int|
            0 <= i < routes.len() ==> !route_accepts(#[trigger] routes[i], method, path, headers),
        chosen(routes, method, path, headers) is Some ==> exists|k: int|
            {
                &&& 0 <= k < routes.len()
                &&& route_accepts(#[trigger] routes[k], method, path, headers)
                &&& forall|j: int|
                    0 <= j < k ==> !route_accepts(#[trigger] routes[j], method, path, headers)
                &&& chosen(routes, method, path, headers) == Some(matched_by(routes[k], path))
            },
    decreases routes.len(),
{
    if routes.len() == 0 {
    } else if route_accepts(routes[0], method, path, headers) {
        assert(chosen(routes, method, path, headers) == Some(matched_by(routes[0], path)));
    } else {
        let rest = routes.skip(1);
        lemma_chosen_is_first(rest, method, path, headers);
        assert forall|i: int| 0 <= i < rest.len() implies rest[i] == routes[i + 1] by {}
        if chosen(rest, method, path, headers) is None {
            assert forall|i: int| 0 <= i < routes.len() implies !route_accepts(
                #[trigger] routes[i],
                method,
                path,
                headers,
            ) by {
                if i > 0 {
                    assert(rest[i - 1] == routes[i]);
                }
            }
        } else {
            let k = choose|k: int|
                {
                    &&& 0 <= k < rest.len()
                    &&& route_accepts(#[trigger] rest[k], method, path, headers)
                    &&& forall|j: int|
                        0 <= j < k ==> !route_accepts(#[trigger] rest[j], method, path, headers)
                    &&& chosen(rest, method, path, headers) == Some(matched_by(rest[k], path))
                };
            assert(rest[k] == routes[k + 1]);
            assert forall|j: int| 0 <= j < k + 1 implies !route_accepts(
                #[trigger] routes[j],
                method,
                path,
                headers,
            ) by {
                if j > 0 {
                    assert(rest[j - 1] == routes[j]);
                }
            }
            assert(route_accepts(routes[k + 1], method, path, headers));
        }
    }
}

} // verus!
