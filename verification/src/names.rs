//! The naming policy of projects and services. The boundary that takes a
//! name from outside checks it here; the catalog itself stores any name.

use crate::error::ApiError;
use vstd::prelude::*;

verus! {

/// Whether `c` may stand in a name: an ASCII lowercase letter or a hyphen.
pub open spec fn is_name_char(c: char) -> bool {
    ('a' <= c && c <= 'z') || c == '-'
}

/// Whether `name` is made of ASCII lowercase letters and hyphens alone.
pub open spec fn is_valid_name(name: Seq<char>) -> bool {
    forall|i: int| 0 <= i < name.len() ==> is_name_char(#[trigger] name[i])
}

/// Whether `name` is made of ASCII lowercase letters and hyphens alone.
pub fn valid_name(name: &str) -> (valid: bool)
    ensures
        valid == is_valid_name(name@),
{
    let mut valid = true;
    for c in it: name.chars()
        invariant
            it.seq() == name@,
            valid == is_valid_name(name@.take(it.index())),
    {
        proof {
            let prefix = name@.take(it.index());
            let longer = name@.take(it.index() + 1);
            assert(longer =~= prefix.push(c));
            if is_valid_name(prefix) && is_name_char(c) {
                assert forall|i: int| 0 <= i < longer.len() implies is_name_char(
                    #[trigger] longer[i],
                ) by {
                    if i < prefix.len() {
                        assert(longer[i] == prefix[i]);
                    }
                }
            }
            if is_valid_name(longer) {
                assert(is_name_char(longer[it.index()]));
                assert forall|i: int| 0 <= i < prefix.len() implies is_name_char(
                    #[trigger] prefix[i],
                ) by {
                    assert(prefix[i] == longer[i]);
                }
            }
        }
        if !(('a' <= c && c <= 'z') || c == '-') {
            valid = false;
        }
    }
    assert(name@.take(name@.len() as int) =~= name@);
    valid
}

/// Accepts the name of a project, or says that it is invalid.
pub fn check_project_name(name: &str) -> (checked: Result<(), ApiError>)
    ensures
        is_valid_name(name@) ==> checked is Ok,
        !is_valid_name(name@) ==> checked == Err::<(), ApiError>(ApiError::InvalidProjectName),
{
    if valid_name(name) {
        Ok(())
    } else {
        Err(ApiError::InvalidProjectName)
    }
}

/// Accepts the name of a service, or says that it is invalid.
pub fn check_service_name(name: &str) -> (checked: Result<(), ApiError>)
    ensures
        is_valid_name(name@) ==> checked is Ok,
        !is_valid_name(name@) ==> checked == Err::<(), ApiError>(ApiError::InvalidServiceName),
{
    if valid_name(name) {
        Ok(())
    } else {
        Err(ApiError::InvalidServiceName)
    }
}

} // verus!
