//! The routes of the service, and the route that a request takes.

use crate::text::{blank_between, chars_of, is_blank, same_between};
use vstd::prelude::*;

verus! {

/// The method of a request, as far as the routes tell methods apart.
#[derive(Clone, Copy, Debug, PartialEq, Eq, Structural)]
pub enum Method {
    Get,
    Post,
    /// Any method but `GET` and `POST`.
    Other,
}

impl Method {
    /// The method with a given name. Names are told apart letter for
    /// letter, capitals included.
    pub open spec fn named(name: Seq<char>) -> Method {
        if name == "GET"@ {
            Method::Get
        } else if name == "POST"@ {
            Method::Post
        } else {
            Method::Other
        }
    }

    /// Finds the method with a given name.
    pub fn from_name(name: &str) -> (method: Method)
        ensures
            method == Method::named(name@),
    {
        let chars = chars_of(name);
        assert(chars@.subrange(0, chars.len() as int) =~= name@);
        if same_between(&chars, 0, chars.len(), &chars_of("GET")) {
            Method::Get
        } else if same_between(&chars, 0, chars.len(), &chars_of("POST")) {
            Method::Post
        } else {
            Method::Other
        }
    }
}

/// What a request asks for.
#[derive(Clone, Debug, PartialEq, Eq)]
pub enum Route {
    /// All records.
    List,
    /// The record with this identifier.
    Lookup(String),
    /// A new record, made from the body of the request.
    Create,
    /// Nothing that the service offers.
    NotFound,
}

/// What a [`Route`] holds.
pub ghost enum RouteView {
    List,
    Lookup(Seq<char>),
    Create,
    NotFound,
}

impl View for Route {
    type V = RouteView;

    open spec fn view(&self) -> RouteView {
        match self {
            Route::List => RouteView::List,
            Route::Lookup(id) => RouteView::Lookup(id@),
            Route::Create => RouteView::Create,
            Route::NotFound => RouteView::NotFound,
        }
    }
}

/// The first index at or after `from` at which `path` holds a slash, or the
/// length of `path` where it holds none there.
pub open spec fn segment_end(path: Seq<char>, from: int) -> int
    decreases path.len() - from,
{
    if from < 0 || from >= path.len() {
        path.len() as int
    } else if path[from] == '/' {
        from
    } else {
        segment_end(path, from + 1)
    }
}

/// The segments of `path` from `from` on: the pieces between its slashes.
/// There is always at least one, and a slash at the end of `path` is
/// followed by an empty one.
pub open spec fn segments_from(path: Seq<char>, from: int) -> Seq<Seq<char>>
    decreases path.len() - from,
{
    let end = segment_end(path, from);
    if from <= end < path.len() {
        seq![path.subrange(from, end)] + segments_from(path, end + 1)
    } else {
        seq![path.subrange(from, path.len() as int)]
    }
}

/// The segments of `path`: what splitting it at each slash gives.
pub open spec fn segments(path: Seq<char>) -> Seq<Seq<char>> {
    segments_from(path, 0)
}

/// The first index at or after `from` at which `parts` holds a segment that
/// is not empty, or the length of `parts` where it holds none there.
pub open spec fn first_nonempty_from(parts: Seq<Seq<char>>, from: int) -> int
    decreases parts.len() - from,
{
    if from < 0 || from >= parts.len() {
        parts.len() as int
    } else if parts[from].len() > 0 {
        from
    } else {
        first_nonempty_from(parts, from + 1)
    }
}

/// The index of the base path among the segments: the first segment that is
/// not empty. It is the number of segments where all are empty.
pub open spec fn base_index(parts: Seq<Seq<char>>) -> int {
    first_nonempty_from(parts, 0)
}

/// The base path of `path`: its first segment that is not empty, if it has
/// one.
pub open spec fn base_path(path: Seq<char>) -> Option<Seq<char>> {
    let parts = segments(path);
    let base = base_index(parts);
    if base < parts.len() {
        Some(parts[base])
    } else {
        None
    }
}

/// The segment that follows the base path of `path`, if one does.
pub open spec fn segment_after_base(path: Seq<char>) -> Option<Seq<char>> {
    let parts = segments(path);
    let base = base_index(parts);
    if base + 1 < parts.len() {
        Some(parts[base + 1])
    } else {
        None
    }
}

/// The route of a request. Only the base path `cars` leads anywhere: with
/// `GET` to the record named by the segment after it, or to the list where
/// that segment is missing or blank; with `POST` to creation, whatever
/// follows the base path.
pub open spec fn route_of(method: Method, path: Seq<char>) -> RouteView {
    if base_path(path) == Some("cars"@) {
        match method {
            Method::Get => match segment_after_base(path) {
                Some(segment) => if is_blank(segment) {
                    RouteView::List
                } else {
                    RouteView::Lookup(segment)
                },
                None => RouteView::List,
            },
            Method::Post => RouteView::Create,
            Method::Other => RouteView::NotFound,
        }
    } else {
        RouteView::NotFound
    }
}

/// Where a segment ends: at or after its start, at the first slash from
/// there or at the end of the path.
pub proof fn lemma_segment_end(path: Seq<char>, from: int)
    requires
        0 <= from <= path.len(),
    ensures
        from <= segment_end(path, from) <= path.len(),
        forall|j: int| from <= j < segment_end(path, from) ==> path[j] != '/',
        segment_end(path, from) < path.len() ==> path[segment_end(path, from)] == '/',
    decreases path.len() - from,
{
    if from < path.len() && path[from] != '/' {
        lemma_segment_end(path, from + 1);
    }
}

/// A path that begins with `count` slashes begins with `count` empty
/// segments, and goes on with the segments of what follows those slashes.
pub proof fn lemma_leading_slashes(path: Seq<char>, count: int)
    requires
        0 <= count <= path.len(),
        forall|j: int| 0 <= j < count ==> path[j] == '/',
    ensures
        segments(path) == Seq::new(count as nat, |j: int| Seq::<char>::empty()) + segments_from(
            path,
            count,
        ),
    decreases count,
{
    if count > 0 {
        lemma_leading_slashes(path, count - 1);
        assert(path.subrange(count - 1, count - 1) =~= Seq::<char>::empty());
    }
    assert(segments(path) =~= Seq::new(count as nat, |j: int| Seq::<char>::empty())
        + segments_from(path, count));
}

/// The first segment that is not empty is the one before which all are
/// empty.
pub proof fn lemma_first_nonempty(parts: Seq<Seq<char>>, from: int, at: int)
    requires
        0 <= from <= at <= parts.len(),
        forall|j: int| from <= j < at ==> (#[trigger] parts[j]).len() == 0,
        at < parts.len() ==> parts[at].len() > 0,
    ensures
        first_nonempty_from(parts, from) == at,
    decreases at - from,
{
    if from < at {
        lemma_first_nonempty(parts, from + 1, at);
    }
}

fn scan_segment(chars: &Vec<char>, from: usize) -> (end: usize)
    requires
        from <= chars.len(),
    ensures
        end == segment_end(chars@, from as int),
        from <= end <= chars.len(),
{
    let mut end = from;
    while end < chars.len() && chars[end] != '/'
        invariant
            from <= end <= chars.len(),
            segment_end(chars@, from as int) == segment_end(chars@, end as int),
        decreases chars.len() - end,
    {
        end += 1;
    }
    end
}

/// Finds the route of a request from its method and the path of its URL.
pub fn route(method: Method, path: &str) -> (route: Route)
    ensures
        route@ == route_of(method, path@),
{
    let chars = chars_of(path);
    let n = chars.len();
    let mut start: usize = 0;
    while start < n && chars[start] == '/'
        invariant
            n == chars.len(),
            start <= n,
            forall|j: int| 0 <= j < start ==> chars@[j] == '/',
        decreases n - start,
    {
        start += 1;
    }
    let end = scan_segment(&chars, start);
    let ghost parts = segments(path@);
    let ghost rest = segments_from(path@, start as int);
    proof {
        // The segments are `start` empty ones, then those from `start` on,
        // of which the first runs up to `end`.
        lemma_leading_slashes(path@, start as int);
        lemma_segment_end(path@, start as int);
        assert(parts.len() == start + rest.len());
        assert(forall|j: int| 0 <= j < start ==> (#[trigger] parts[j]).len() == 0);
        assert(rest[0] == path@.subrange(start as int, end as int));
        assert(parts[start as int] == rest[0]);
        lemma_first_nonempty(parts, 0, if start < n { start as int } else { parts.len() as int });
    }
    if start == n || !same_between(&chars, start, end, &chars_of("cars")) {
        return Route::NotFound;
    }
    match method {
        Method::Post => Route::Create,
        Method::Other => Route::NotFound,
        Method::Get => {
            if end == n {
                return Route::List;
            }
            let stop = scan_segment(&chars, end + 1);
            proof {
                // The segment after the base path runs from behind the
                // slash at `end` up to `stop`.
                lemma_segment_end(path@, end + 1);
                let tail = segments_from(path@, end + 1);
                assert(tail[0] == path@.subrange(end + 1, stop as int));
                assert(rest[1] == tail[0]);
                assert(parts[start + 1] == rest[1]);
            }
            if blank_between(&chars, end + 1, stop) {
                Route::List
            } else {
                Route::Lookup(path.substring_char(end + 1, stop).to_owned())
            }
        },
    }
}

/// The segments put together again, with a slash between each two.
pub open spec fn rejoined(parts: Seq<Seq<char>>) -> Seq<char>
    decreases parts.len(),
{
    if parts.len() == 0 {
        Seq::empty()
    } else if parts.len() == 1 {
        parts[0]
    } else {
        parts[0] + seq!['/'] + rejoined(parts.drop_first())
    }
}

/// Splitting loses nothing and leaves no slash: the segments from `from`
/// on, put together again, are the path from `from` on, and no segment
/// holds a slash.
pub proof fn lemma_segments_from_split(path: Seq<char>, from: int)
    requires
        0 <= from <= path.len(),
    ensures
        segments_from(path, from).len() >= 1,
        rejoined(segments_from(path, from)) == path.subrange(from, path.len() as int),
        forall|i: int, j: int|
            0 <= i < segments_from(path, from).len() && 0 <= j < segments_from(path, from)[i].len()
                ==> #[trigger] segments_from(path, from)[i][j] != '/',
    decreases path.len() - from,
{
    let end = segment_end(path, from);
    let parts = segments_from(path, from);
    lemma_segment_end(path, from);
    if end < path.len() {
        let tail = segments_from(path, end + 1);
        lemma_segments_from_split(path, end + 1);
        assert(parts =~= seq![path.subrange(from, end)] + tail);
        assert(parts.drop_first() =~= tail);
        assert(rejoined(parts) =~= path.subrange(from, path.len() as int));
        assert forall|i: int, j: int|
            0 <= i < parts.len() && 0 <= j < parts[i].len() implies #[trigger] parts[i][j]
            != '/' by {
            if i > 0 {
                assert(parts[i] == tail[i - 1]);
            }
        }
    }
}

/// Splitting a path loses nothing and leaves no slash: its segments, put
/// together again with a slash between each two, are the path, and no
/// segment holds a slash.
pub proof fn lemma_segments_split(path: Seq<char>)
    ensures
        segments(path).len() >= 1,
        rejoined(segments(path)) == path,
        forall|i: int, j: int|
            0 <= i < segments(path).len() && 0 <= j < segments(path)[i].len()
                ==> #[trigger] segments(path)[i][j] != '/',
{
    lemma_segments_from_split(path, 0);
    assert(path.subrange(0, path.len() as int) =~= path);
}

/// A segment that starts at `from` ends at `end` where no slash stands
/// between the two and `end` holds a slash or is the end of the path.
pub proof fn lemma_segment_ends_at(path: Seq<char>, from: int, end: int)
    requires
        0 <= from <= end <= path.len(),
        forall|j: int| from <= j < end ==> path[j] != '/',
        end < path.len() ==> path[end] == '/',
    ensures
        segment_end(path, from) == end,
    decreases end - from,
{
    if from < end {
        lemma_segment_ends_at(path, from + 1, end);
    }
}

/// A path that is `/cars`, or `/cars` followed by a slash and more, has the
/// base path `cars`. Its segments are an empty one, `cars`, and the
/// segments of what follows that slash.
pub proof fn lemma_segments_under_cars(rest: Seq<char>)
    requires
        rest.len() == 0 || rest[0] == '/',
    ensures
        segments("/cars"@ + rest) == if rest.len() == 0 {
            seq![Seq::<char>::empty(), "cars"@]
        } else {
            seq![Seq::<char>::empty(), "cars"@] + segments_from("/cars"@ + rest, 6)
        },
        base_index(segments("/cars"@ + rest)) == 1,
        base_path("/cars"@ + rest) == Some("cars"@),
{
    reveal_strlit("/cars");
    reveal_strlit("cars");
    let path = "/cars"@ + rest;
    let tail = segments_from(path, 1);
    assert(segment_end(path, 0) == 0);
    lemma_segment_ends_at(path, 1, 5);
    assert(path.subrange(0, 0) =~= Seq::<char>::empty());
    assert(path.subrange(1, 5) =~= "cars"@);
    assert(segments(path) =~= seq![Seq::<char>::empty()] + tail);
    if rest.len() == 0 {
        assert(tail =~= seq!["cars"@]);
    } else {
        assert(tail =~= seq!["cars"@] + segments_from(path, 6));
    }
    lemma_first_nonempty(segments(path), 0, 1);
}

/// `GET` on `/cars` and on `/cars/` both lead to the list.
pub proof fn lemma_route_list()
    ensures
        route_of(Method::Get, "/cars"@) == RouteView::List,
        route_of(Method::Get, "/cars/"@) == RouteView::List,
{
    reveal_strlit("/cars");
    reveal_strlit("/cars/");
    reveal_strlit("/");
    lemma_segments_under_cars(Seq::empty());
    assert("/cars"@ + Seq::<char>::empty() =~= "/cars"@);
    lemma_segments_under_cars("/"@);
    let path = "/cars/"@;
    assert("/cars"@ + "/"@ =~= path);
    assert(segments_from(path, 6) =~= seq![Seq::<char>::empty()]) by {
        assert(path.subrange(6, 6) =~= Seq::<char>::empty());
    }
    assert(segment_after_base(path) == Some(Seq::<char>::empty()));
}

/// `POST` on `/cars` leads to creation.
pub proof fn lemma_route_create()
    ensures
        route_of(Method::Post, "/cars"@) == RouteView::Create,
{
    lemma_segments_under_cars(Seq::empty());
    assert("/cars"@ + Seq::<char>::empty() =~= "/cars"@);
}

/// `GET` on `/cars/` followed by an identifier leads to the lookup of that
/// identifier, where the identifier holds no slash and is not blank.
pub proof fn lemma_route_lookup(id: Seq<char>)
    requires
        forall|i: int| 0 <= i < id.len() ==> id[i] != '/',
        !is_blank(id),
    ensures
        route_of(Method::Get, "/cars/"@ + id) == RouteView::Lookup(id),
{
    reveal_strlit("/cars");
    reveal_strlit("/cars/");
    reveal_strlit("/");
    let rest = "/"@ + id;
    let path = "/cars/"@ + id;
    assert("/cars"@ + rest =~= path);
    lemma_segments_under_cars(rest);
    lemma_segment_ends_at(path, 6, path.len() as int);
    assert(path.subrange(6, path.len() as int) =~= id);
    assert(segments_from(path, 6) =~= seq![id]);
    assert(segment_after_base(path) == Some(id));
}

/// `POST` leads to creation whatever follows the base path `cars`, and any
/// method but `GET` and `POST` leads nowhere.
pub proof fn lemma_route_by_method(path: Seq<char>)
    requires
        base_path(path) == Some("cars"@),
    ensures
        route_of(Method::Post, path) == RouteView::Create,
        route_of(Method::Other, path) == RouteView::NotFound,
        route_of(Method::Get, path) != RouteView::NotFound,
        route_of(Method::Get, path) != RouteView::Create,
{
}

/// A path whose base path is not `cars`, or that has none, leads nowhere
/// with any method.
pub proof fn lemma_route_unregistered(method: Method, path: Seq<char>)
    requires
        base_path(path) != Some("cars"@),
    ensures
        route_of(method, path) == RouteView::NotFound,
{
}

} // verus!
