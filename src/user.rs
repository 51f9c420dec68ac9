use vstd::prelude::*;

verus! {

/// A user's login record.
pub struct UserLogIn {
    pub active: bool,
    pub user_name: String,
    pub user_email: String,
    pub sign_in_count: u64,
}

/// A new, active login record with the given name, email and sign-in count.
pub fn build_user(name: String, email: String, sign_in_c: u64) -> (u: UserLogIn)
    ensures
        u.active,
        u.user_name@ == name@,
        u.user_email@ == email@,
        u.sign_in_count == sign_in_c,
{
    UserLogIn { active: true, user_name: name, user_email: email, sign_in_count: sign_in_c }
}

} // verus!
