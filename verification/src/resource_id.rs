//! Resource ids: the key pair that addresses one record and its place in the
//! hierarchy, its canonical text form, and the parsing of single ids and
//! comma-separated id lists from query parameters.

use vstd::prelude::*;

use crate::errors::ServerError;
use crate::strutil::find_char;
use crate::strutil::lemma_find_bounds;
use crate::strutil::spec_find;
use crate::strutil::split_char;
use crate::strutil::spec_split;
use crate::strutil::spec_trim;
use crate::strutil::trim_str;

verus! {

/// Addresses one resource: a partition key and a sort key. The text form is
/// `pk|sk`, split at the first `|`.
#[derive(Debug)]
pub struct ResourceId {
    pub pk: String,
    pub sk: String,
}

/// Mathematical image of a `ResourceId`.
pub struct RidView {
    pub pk: Seq<char>,
    pub sk: Seq<char>,
}

impl View for ResourceId {
    type V = RidView;

    open spec fn view(&self) -> RidView {
        RidView { pk: self.pk@, sk: self.sk@ }
    }
}

impl Clone for ResourceId {
    fn clone(&self) -> (r: Self)
        ensures
            r@ == self@,
    {
        ResourceId { pk: self.pk.clone(), sk: self.sk.clone() }
    }
}

/// The reserved root sentinel: "no parent / top-level collection".
pub open spec fn spec_root_id() -> RidView {
    RidView { pk: "ROOT"@, sk: "ROOT"@ }
}

/// A text form parses iff it holds a `|` separator.
pub open spec fn spec_id_parse_ok(s: Seq<char>) -> bool {
    spec_find(s, '|') is Some
}

/// The id a text form parses to: everything before the first `|` is the
/// partition key, everything after it the sort key.
pub open spec fn spec_parsed_id(s: Seq<char>) -> RidView
    recommends
        spec_id_parse_ok(s),
{
    match spec_find(s, '|') {
        Some(i) => RidView { pk: s.subrange(0, i), sk: s.subrange(i + 1, s.len() as int) },
        None => RidView { pk: s, sk: s },
    }
}

impl ResourceId {
    /// The root sentinel value, used when resolving the owner of a top-level
    /// collection itself.
    pub fn root() -> (r: ResourceId)
        ensures
            r@ == spec_root_id(),
    {
        ResourceId {
            pk: String::from_str("ROOT"),
            sk: String::from_str("ROOT"),
        }
    }

    /// Parses the canonical `pk|sk` text form; `None` when the separator is
    /// missing.
    pub fn from_string(s: &str) -> (r: Option<ResourceId>)
        ensures
            spec_id_parse_ok(s@) ==> (r matches Some(id) && id@ == spec_parsed_id(s@)),
            !spec_id_parse_ok(s@) ==> r is None,
    {
        proof {
            lemma_find_bounds(s@, '|');
        }
        match find_char(s, '|') {
            Some(i) => {
                let n = s.unicode_len();
                let pk = s.substring_char(0, i);
                let sk = s.substring_char(i + 1, n);
                Some(ResourceId { pk: pk.to_owned(), sk: sk.to_owned() })
            }
            None => None,
        }
    }
}

/// The views of a parsed id vector.
pub open spec fn spec_id_views(v: Seq<ResourceId>) -> Seq<RidView> {
    v.map_values(|id: ResourceId| id@)
}

/// A raw `ids` parameter is well-formed iff it is not blank and every
/// comma-separated piece, once trimmed, is a non-empty parsable id.
pub open spec fn spec_ids_ok(raw: Seq<char>) -> bool {
    &&& spec_trim(raw).len() > 0
    &&& forall|k: int|
        0 <= k < spec_split(raw, ',').len() ==> {
            let t = spec_trim(#[trigger] spec_split(raw, ',')[k]);
            t.len() > 0 && spec_id_parse_ok(t)
        }
}

/// The ids a well-formed raw `ids` parameter denotes, in order.
pub open spec fn spec_ids_views(raw: Seq<char>) -> Seq<RidView>
    recommends
        spec_ids_ok(raw),
{
    spec_split(raw, ',').map_values(|g: Seq<char>| spec_parsed_id(spec_trim(g)))
}

/// Parses a comma-separated id list: each piece trimmed, a blank parameter,
/// a blank piece and an unparsable piece each a client error.
pub fn parse_ids(raw: &str) -> (r: Result<Vec<ResourceId>, ServerError>)
    ensures
        spec_ids_ok(raw@) ==> (r matches Ok(v) && spec_id_views(v@) =~~= spec_ids_views(raw@)),
        !spec_ids_ok(raw@) ==> (r matches Err(e) && e.behavior is ForwardToClient),
{
    let blank_check = trim_str(raw);
    if blank_check.as_str().is_empty() {
        return Err(ServerError::invalid_request("query parameter 'ids' must not be empty"));
    }
    let segs = split_char(raw, ',');
    let ghost gsegs = spec_split(raw@, ',');
    let mut ids: Vec<ResourceId> = Vec::new();
    let mut k: usize = 0;
    while k < segs.len()
        invariant
            0 <= k <= segs.len(),
            segs.deep_view() =~~= gsegs,
            gsegs == spec_split(raw@, ','),
            forall|j: int|
                0 <= j < k ==> {
                    let t = spec_trim(#[trigger] gsegs[j]);
                    t.len() > 0 && spec_id_parse_ok(t)
                },
            ids@.len() == k,
            forall|j: int|
                0 <= j < k ==> #[trigger] ids@[j]@ == spec_parsed_id(spec_trim(gsegs[j])),
        decreases segs.len() - k,
    {
        let t = trim_str(segs[k].as_str());
        proof {
            assert(segs.deep_view()[k as int] == segs@[k as int]@);
        }
        if t.as_str().is_empty() {
            return Err(ServerError::invalid_request("query parameter 'ids' contains empty id"));
        }
        match ResourceId::from_string(t.as_str()) {
            Some(id) => {
                ids.push(id);
            }
            None => {
                return Err(ServerError::invalid_request_with_detail(
                    "invalid id in 'ids'",
                    t.as_str(),
                ));
            }
        }
        k = k + 1;
    }
    proof {
        assert forall|j: int| 0 <= j < gsegs.len() implies spec_id_views(ids@)[j]
            == spec_ids_views(raw@)[j] by {
            assert(spec_id_views(ids@)[j] == ids@[j]@);
            assert(spec_ids_views(raw@)[j] == spec_parsed_id(spec_trim(gsegs[j])));
        }
        assert(spec_id_views(ids@) =~~= spec_ids_views(raw@));
    }
    Ok(ids)
}

} // verus!
