//! Repository paths of the form `owner/name`.

use crate::error::ValidationError;
use crate::text::{find_char, from_range, to_chars};
use vstd::prelude::*;

verus! {

/// Cuts a repository path at its first `/`: what stands before is the
/// owner, what stands after is the name. A path without `/` is refused.
pub fn url_to_vars(url: &String) -> (r: Result<(String, String), ValidationError>)
    ensures
        match r {
            Ok((owner, repo)) => !owner@.contains('/') && url@ == owner@ + seq!['/'] + repo@,
            Err(e) => e == ValidationError::InvalidUrl && !url@.contains('/'),
        },
{
    let cs = to_chars(url.as_str());
    let len = cs.len();
    match find_char(cs.as_slice(), '/') {
        Some(pos) => {
            let owner = from_range(cs.as_slice(), 0, pos);
            let repo = from_range(cs.as_slice(), pos + 1, len);
            proof {
                assert(url@ =~= owner@ + seq!['/'] + repo@);
                if owner@.contains('/') {
                    let j = choose|j: int| 0 <= j < owner@.len() && owner@[j] == '/';
                    assert(cs@[j] == '/');
                }
            }
            Ok((owner, repo))
        },
        None => Err(ValidationError::InvalidUrl),
    }
}

} // verus!
