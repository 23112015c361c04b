//! Views that need a logged-in user, or one with a profile.
use vstd::prelude::*;

verus! {

/// What a protected view shows.
#[derive(Clone, Copy, PartialEq, Eq, Structural, Debug)]
pub enum Gate {
    /// The protected content.
    Content,
    /// The login form.
    Login,
    /// The invitation to create a profile first.
    CreateProfile,
}

/// A view that needs a logged-in user shows the login form to others.
#[allow(non_snake_case)]
pub fn NeedsLogin(authenticated: bool) -> (r: Gate)
    ensures
        r == (if authenticated {
            Gate::Content
        } else {
            Gate::Login
        }),
{
    if authenticated {
        Gate::Content
    } else {
        Gate::Login
    }
}

/// A view that needs a profile invites users without one to create it.
#[allow(non_snake_case)]
pub fn NeedsProfile(has_profile: bool) -> (r: Gate)
    ensures
        r == (if has_profile {
            Gate::Content
        } else {
            Gate::CreateProfile
        }),
{
    if has_profile {
        Gate::Content
    } else {
        Gate::CreateProfile
    }
}

/// What a view that needs both a login and a profile shows: the login comes
/// first, then the profile.
pub open spec fn spec_login_and_profile_gate(authenticated: bool, has_profile: bool) -> Gate {
    if !authenticated {
        Gate::Login
    } else if !has_profile {
        Gate::CreateProfile
    } else {
        Gate::Content
    }
}

/// A view that needs both: the login comes first, then the profile.
#[allow(non_snake_case)]
pub fn NeedsLoginAndProfile(authenticated: bool, has_profile: bool) -> (r: Gate)
    ensures
        r == spec_login_and_profile_gate(authenticated, has_profile),
{
    match NeedsLogin(authenticated) {
        Gate::Content => NeedsProfile(has_profile),
        other => other,
    }
}

/// The protected content is shown exactly to users that are logged in and
/// have a profile; a user who is not logged in is never asked for a profile.
pub proof fn law_content_needs_login_and_profile(authenticated: bool, has_profile: bool)
    ensures
        spec_login_and_profile_gate(authenticated, has_profile) == Gate::Content <==> authenticated
            && has_profile,
        !authenticated ==> spec_login_and_profile_gate(authenticated, has_profile) == Gate::Login,
{
}

/// The showcase offers its login button unless asked to hide it.
pub fn shows_login_button(hide_login: Option<bool>) -> (r: bool)
    ensures
        r == (hide_login != Some(true)),
{
    match hide_login {
        Some(true) => false,
        _ => true,
    }
}

} // verus!
