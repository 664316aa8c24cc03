//! The query that fetches the next page of a query whose results came in
//! pages.
use vstd::prelude::*;

use crate::common::ContinuationParams;
use crate::query::{params_text, PostQuery};

verus! {

/// A result of query `Q` that may hold the parameters of a further page.
///
/// `pending_continuation` is the text of those parameters, if the result
/// holds any, and `continuation_taken` the result once they are taken out;
/// each implementation states both.
pub trait Continuable<Q>: Sized {
    spec fn pending_continuation(&self) -> Option<Seq<char>>;

    spec fn continuation_taken(self) -> Self;

    /// Takes the parameters of the further page out of the result, if it
    /// holds any, leaving none behind.
    fn take_continuation_params(&mut self) -> (r: Option<ContinuationParams>)
        ensures
            match r {
                Some(p) => old(self).pending_continuation() == Some(p.0@),
                None => old(self).pending_continuation() is None,
            },
            *final(self) == old(self).continuation_taken(),
            final(self).pending_continuation() is None,
    ;
}

/// Query that will get continuations for a query that returned paginated
/// results.
pub struct GetContinuationsQuery<'a, Q> {
    query: &'a Q,
    continuation_params: ContinuationParams,
}

impl<'a, Q> GetContinuationsQuery<'a, Q> {
    /// The query whose results are continued.
    pub closed spec fn continued_query(self) -> Q {
        *self.query
    }

    /// The text of the continuation parameters.
    pub closed spec fn continuation_text(self) -> Seq<char> {
        self.continuation_params.0@
    }

    /// The query for the page after `res`, which `query` returned: the
    /// parameters of the further page are taken out of `res`, once, and
    /// there is no query when `res` held none.
    pub fn new<T: Continuable<Q>>(res: &mut T, query: &'a Q) -> (r: Option<GetContinuationsQuery<'a, Q>>)
        ensures
            match old(res).pending_continuation() {
                Some(t) => r matches Some(c) && c.continuation_text() == t && c.continued_query()
                    == *query,
                None => r is None,
            },
            *final(res) == old(res).continuation_taken(),
            final(res).pending_continuation() is None,
    {
        Self::from_continuation_params(res.take_continuation_params(), query)
    }

    /// The query for the page that `params` select of the results of
    /// `query`: none without parameters.
    pub fn from_continuation_params(params: Option<ContinuationParams>, query: &'a Q) -> (r: Option<
        GetContinuationsQuery<'a, Q>,
    >)
        ensures
            match params {
                Some(p) => r matches Some(c) && c.continuation_text() == p.0@ && c.continued_query()
                    == *query,
                None => r is None,
            },
    {
        match params {
            Some(continuation_params) => Some(GetContinuationsQuery { continuation_params, query }),
            None => None,
        }
    }

    /// A GetContinuationsQuery with empty continuation parameters, for
    /// testing.
    pub fn new_mock_unchecked(query: &'a Q) -> (r: GetContinuationsQuery<'a, Q>)
        ensures
            r.continuation_text() == Seq::<char>::empty(),
            r.continued_query() == *query,
    {
        proof {
            reveal_strlit("");
        }
        GetContinuationsQuery { query, continuation_params: ContinuationParams::from_raw("") }
    }
}

/// The URL parameters of a continuation: `ctoken` and `continuation`, both
/// the continuation parameters.
pub open spec fn continuation_params_view(p: Seq<char>) -> Seq<(Seq<char>, Seq<char>)> {
    seq![("ctoken"@, p), ("continuation"@, p)]
}

impl<'a, Q: PostQuery> PostQuery for GetContinuationsQuery<'a, Q> {
    open spec fn body_members(&self) -> Map<Seq<char>, serde_json::Value> {
        self.continued_query().body_members()
    }

    open spec fn params_view(&self) -> Seq<(Seq<char>, Seq<char>)> {
        continuation_params_view(self.continuation_text())
    }

    open spec fn path_view(&self) -> Seq<char> {
        self.continued_query().path_view()
    }

    fn header(&self) -> (h: serde_json::Map<String, serde_json::Value>) {
        self.query.header()
    }

    fn params(&self) -> (p: Vec<(&str, String)>) {
        let params = self.continuation_params.get_raw();
        let mut v: Vec<(&str, String)> = Vec::new();
        v.push(("ctoken", String::from_str(params)));
        v.push(("continuation", String::from_str(params)));
        proof {
            assert(params_text(v@) =~= continuation_params_view(self.continuation_text()));
        }
        v
    }

    fn path(&self) -> (p: &str) {
        self.query.path()
    }
}

} // verus!
