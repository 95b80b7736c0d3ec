//! Logging in to the admin pages.

use crate::models::LoginForm;
use crate::text::str_eq;
use vstd::prelude::*;

verus! {

/// The answer to a login attempt.
#[derive(PartialEq, Eq, Structural, Clone, Copy, Debug)]
pub enum LoginOutcome {
    /// The password is right: log the admin in and go to `/admin` (302).
    Granted,
    /// The password is wrong: "Invalid credentials" (401).
    Denied,
}

/// A login with the site's password `pwd` succeeds exactly when the form
/// holds that password.
pub fn login(form: &LoginForm, pwd: &str) -> (r: LoginOutcome)
    ensures
        r == (if form.password@ == pwd@ {
            LoginOutcome::Granted
        } else {
            LoginOutcome::Denied
        }),
{
    if str_eq(form.password.as_str(), pwd) {
        LoginOutcome::Granted
    } else {
        LoginOutcome::Denied
    }
}

/// A redirect answer: the HTTP status and the `Location` it points to.
pub struct Redirect {
    pub status: u16,
    pub location: String,
}

/// The check in front of every admin route: a request from a logged-in
/// admin goes through (`None`); any other is sent to the login page at
/// `/admin` with `302 Found`, and the route does nothing.
pub fn admin_gate(logged_in: bool) -> (r: Option<Redirect>)
    ensures
        r is None <==> logged_in,
        r matches Some(d) ==> d.status == 302 && d.location@ == "/admin"@,
{
    if logged_in {
        None
    } else {
        let mut location = String::new();
        location.append("/admin");
        Some(Redirect { status: 302, location })
    }
}

} // verus!
