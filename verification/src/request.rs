//! The request model consumed by the dispatch core: method, path selector,
//! the fixed set of query parameters, and the raw body text.

use vstd::prelude::*;

verus! {

/// The four verbs the dispatch core understands; anything else is `Other`
/// and surfaces as an internal "unsupported method" error.
#[derive(Clone, Copy, PartialEq, Eq, Structural, Debug)]
pub enum HttpMethod {
    Get,
    Post,
    Put,
    Delete,
    Other,
}

/// The query parameters the resolvers read. `all`, `non_recursive` and
/// `replace_all` are presence-only flags.
pub struct QueryParams {
    pub id: Option<String>,
    pub ids: Option<String>,
    pub parent_id: Option<String>,
    pub after: Option<String>,
    pub all: bool,
    pub non_recursive: bool,
    pub replace_all: bool,
}

impl Default for QueryParams {
    /// No parameter present, no flag set.
    fn default() -> (q: QueryParams)
        ensures
            q.id is None,
            q.ids is None,
            q.parent_id is None,
            q.after is None,
            !q.all,
            !q.non_recursive,
            !q.replace_all,
    {
        QueryParams {
            id: None,
            ids: None,
            parent_id: None,
            after: None,
            all: false,
            non_recursive: false,
            replace_all: false,
        }
    }
}

/// One inbound request, as handed to the routing table: parsed method, the
/// raw path (kept for logs), the path selector used as routing key, the
/// query parameters, and the raw body text.
pub struct Request {
    pub method: HttpMethod,
    pub path: String,
    pub selector: Option<String>,
    pub query: QueryParams,
    pub body: Option<String>,
}

impl Request {
    /// The body text, or empty when the request carries none.
    pub fn body_str(&self) -> (r: &str)
        ensures
            self.body matches Some(b) ==> r@ == b@,
            self.body is None ==> r@.len() == 0,
    {
        match &self.body {
            Some(b) => b.as_str(),
            None => {
                proof {
                    reveal_strlit("");
                }
                ""
            }
        }
    }
}

} // verus!
