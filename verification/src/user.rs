use vstd::prelude::*;

verus! {

/// The essential attributes of a stored user account, as the external user
/// store hands them out.
#[derive(Debug, Clone)]
pub struct UserEssentials {
    pub id: i32,
    pub email: String,
    pub handle: String,
    pub role: String,
}

} // verus!
