//! The request that looks a team up.

use crate::api::ApiRequest;
use vstd::prelude::*;

verus! {

/// The request for the team `name` of the organisation `org`.
pub open spec fn is_get_id(r: ApiRequest, org: Seq<char>, name: Seq<char>) -> bool {
    &&& r matches ApiRequest::TeamsGetByName { org: o, team_slug }
    &&& o@ == org
    &&& team_slug@ == name
}

/// Asks for a team by its name; the answer holds the team's number.
pub fn get_id(org: &str, name: &str) -> (r: ApiRequest)
    ensures
        is_get_id(r, org@, name@),
{
    ApiRequest::TeamsGetByName { org: org.to_owned(), team_slug: name.to_owned() }
}

} // verus!
