//! What the answer of the licence service means.

use vstd::prelude::*;

verus! {

/// What to do with the answer of the licence service.
#[derive(Debug, Clone, Copy, PartialEq, Eq, Structural)]
pub struct LicenseVerdict {
    /// The user holds a licence.
    pub licensed: bool,
    /// The user is no member yet and is shown the invitation.
    pub invite: bool,
}

/// Reads the answer of the licence service: `licensed` grants the
/// licence, `not_a_member` calls for the invitation, anything else
/// does neither.
pub fn license_verdict(answer: &str) -> (r: LicenseVerdict)
    ensures
        r.licensed == (answer@ == "licensed"@),
        r.invite == (answer@ == "not_a_member"@),
{
    let given = answer.to_owned();
    LicenseVerdict {
        licensed: given == "licensed".to_owned(),
        invite: given == "not_a_member".to_owned(),
    }
}

} // verus!
