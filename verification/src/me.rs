use vstd::prelude::*;

verus! {

/// The current user, as the read-current-user route returns it.
#[derive(Clone, Debug)]
pub struct User {
    pub odata_context: String,
    pub business_phones: Vec<String>,
    pub display_name: Option<String>,
    pub given_name: Option<String>,
    pub id: String,
    pub job_title: Option<String>,
    /// Email address.
    pub mail: Option<String>,
    pub mobile_phone: Option<String>,
    pub office_location: Option<String>,
    pub preferred_language: Option<String>,
    pub surname: Option<String>,
    /// Email address.
    pub user_principal_name: String,
}

} // verus!
