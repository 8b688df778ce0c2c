//! The authentication gate and the login flow. A session counts as
//! authenticated exactly when it carries the admin marker; every
//! admin-prefixed route is bounced to the login page without it.

use vstd::prelude::*;

use crate::models::{LoginForm, Profile};
use crate::outside;
use crate::response::PageError;
use crate::store::Store;

verus! {

/// Whether the session's admin marker is present — the sole criterion the
/// gate applies.
pub fn is_authenticated(session_admin: &Option<String>) -> (r: bool)
    ensures
        r == session_admin.is_some(),
{
    session_admin.is_some()
}

/// Gate check for the admin console: an anonymous session is sent to
/// the login page; an authenticated one passes.
pub fn require_auth(session_admin: &Option<String>) -> (r: Option<String>)
    ensures
        r is Some <==> session_admin is None,
        r is Some ==> r->Some_0@ == "/admin/login"@,
{
    if session_admin.is_none() {
        Some(String::from_str("/admin/login"))
    } else {
        None
    }
}

/// What the login page does: an already-authenticated session goes
/// straight to the dashboard, anyone else sees the login form.
pub enum LoginPageView {
    RedirectAdmin,
    Form { profile: Profile },
}

pub fn login_page(store: &Store, session_admin: &Option<String>) -> (r: Result<
    LoginPageView,
    PageError,
>)
    requires
        store.wf(),
    ensures
        session_admin is Some ==> r == Ok::<LoginPageView, PageError>(
            LoginPageView::RedirectAdmin,
        ),
        session_admin is None && store.profile is None ==> r == Err::<LoginPageView, PageError>(
            PageError::MissingProfile,
        ),
        session_admin is None && store.profile is Some ==> (r matches Ok(
            LoginPageView::Form { profile },
        ) && store.profile == Some(profile)),
{
    if session_admin.is_some() {
        return Ok(LoginPageView::RedirectAdmin);
    }
    match store.get_profile() {
        Ok(p) => Ok(LoginPageView::Form { profile: p.duplicate() }),
        Err(_) => Err(PageError::MissingProfile),
    }
}

/// Whether the submitted credentials match the stored admin row: the
/// username must equal the stored one and the password must verify
/// against the stored cost-factored hash.
pub open spec fn credentials_match(s: Store, form: LoginForm) -> bool {
    &&& s.admin is Some
    &&& s.admin->0.username@ == form.username@
    &&& outside::bcrypt_matches(form.password@, s.admin->0.password_hash@)
}

/// What a login attempt decided: on matching credentials, the username to
/// record as the session's admin marker before redirecting to the
/// dashboard; otherwise the login form again, flagged as failed.
pub enum LoginOutcome {
    RedirectAdmin { session_user: String },
    RenderError { profile: Profile },
}

pub fn login(store: &Store, form: &LoginForm) -> (r: Result<LoginOutcome, PageError>)
    requires
        store.wf(),
    ensures
        store.profile is None ==> r == Err::<LoginOutcome, PageError>(PageError::MissingProfile),
        store.profile is Some ==> match r {
            Ok(LoginOutcome::RedirectAdmin { session_user }) => credentials_match(*store, *form)
                && session_user@ == store.admin->0.username@,
            Ok(LoginOutcome::RenderError { profile }) => !credentials_match(*store, *form)
                && store.profile == Some(profile),
            _ => false,
        },
{
    let profile = match store.get_profile() {
        Ok(p) => p.duplicate(),
        Err(_) => {
            return Err(PageError::MissingProfile);
        },
    };
    match store.get_admin(form.username.as_str()) {
        Ok(admin) => {
            if outside::bcrypt_verify(form.password.as_str(), admin.password_hash.as_str()) {
                Ok(LoginOutcome::RedirectAdmin { session_user: admin.username.clone() })
            } else {
                Ok(LoginOutcome::RenderError { profile })
            }
        },
        Err(_) => Ok(LoginOutcome::RenderError { profile }),
    }
}

/// Where a logout lands after the session is purged.
pub fn logout() -> (r: String)
    ensures
        r@ == "/admin/login"@,
{
    String::from_str("/admin/login")
}

} // verus!
