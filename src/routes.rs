//! The fixed route table: exact method and path matches only.

use vstd::prelude::*;
use vstd::string::*;

verus! {

/// HTTP request method, as far as the route table distinguishes it.
#[derive(Clone, Copy, Debug, PartialEq, Eq, Structural)]
pub enum Method {
    Get,
    Post,
    Other,
}

/// The endpoints the server answers.
#[derive(Clone, Copy, Debug, PartialEq, Eq, Structural)]
pub enum Route {
    ParseFile,
    FindDefinition,
    ListCompletions,
    Ping,
}

/// The route that a method and a path select, if any.
pub open spec fn route_of(method: Method, path: Seq<char>) -> Option<Route> {
    if method == Method::Post && path == "/parse_file"@ {
        Some(Route::ParseFile)
    } else if method == Method::Post && path == "/find_definition"@ {
        Some(Route::FindDefinition)
    } else if method == Method::Post && path == "/list_completions"@ {
        Some(Route::ListCompletions)
    } else if method == Method::Get && path == "/ping"@ {
        Some(Route::Ping)
    } else {
        None
    }
}

impl Route {
    /// Whether the route's handler consults the engine.
    pub open spec fn spec_uses_engine(self) -> bool {
        self != Route::Ping
    }

    /// Whether the handler of this route consults the engine: every route but
    /// the liveness check does.
    pub fn uses_engine(self) -> (r: bool)
        ensures
            r == self.spec_uses_engine(),
    {
        match self {
            Route::Ping => false,
            _ => true,
        }
    }
}

/// The path whose segments are `segs`: each one preceded by a slash.
pub open spec fn joined_path(segs: Seq<Seq<char>>) -> Seq<char>
    decreases segs.len(),
{
    if segs.len() == 0 {
        seq![]
    } else {
        joined_path(segs.drop_last()) + seq!['/'] + segs.last()
    }
}

/// The views of a list of path segments.
pub open spec fn segment_views(segs: Seq<&str>) -> Seq<Seq<char>> {
    segs.map_values(|s: &str| s@)
}

/// Rebuilds a request path from its segments, as `/a/b` from `a` and `b`.
pub fn request_path(segments: &[&str]) -> (r: String)
    ensures
        r@ == joined_path(segment_views(segments@)),
{
    let mut s = String::new();
    let mut i: usize = 0;
    while i < segments.len()
        invariant
            i <= segments@.len(),
            s@ == joined_path(segment_views(segments@.subrange(0, i as int))),
        decreases segments@.len() - i,
    {
        let ghost s0 = s@;
        s.append("/");
        s.append(segments[i]);
        proof {
            reveal_strlit("/");
            assert(s@ == s0 + seq!['/'] + segments@[i as int]@);
            let pre = segments@.subrange(0, i as int);
            let next = segments@.subrange(0, i + 1);
            assert(next.drop_last() =~= pre);
            assert(segment_views(next).drop_last() =~= segment_views(pre));
            assert(segment_views(next).last() == segments@[i as int]@);
            assert(joined_path(segment_views(next)) == joined_path(segment_views(pre)) + seq!['/']
                + segments@[i as int]@);
            assert(s@ =~= joined_path(segment_views(next)));
        }
        i = i + 1;
    }
    proof {
        assert(segments@.subrange(0, i as int) =~= segments@);
    }
    s
}

/// Selects the handler for a request by exact method and path.
pub fn route(method: Method, path: &str) -> (r: Option<Route>)
    ensures
        r == route_of(method, path@),
{
    proof {
        reveal_strlit("/parse_file");
        reveal_strlit("/find_definition");
        reveal_strlit("/list_completions");
        reveal_strlit("/ping");
    }
    let p = String::from_str(path);
    match method {
        Method::Post => {
            if p == String::from_str("/parse_file") {
                Some(Route::ParseFile)
            } else if p == String::from_str("/find_definition") {
                Some(Route::FindDefinition)
            } else if p == String::from_str("/list_completions") {
                Some(Route::ListCompletions)
            } else {
                None
            }
        },
        Method::Get => {
            if p == String::from_str("/ping") {
                Some(Route::Ping)
            } else {
                None
            }
        },
        Method::Other => None,
    }
}

} // verus!
