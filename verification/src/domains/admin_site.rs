//! The admin pages: who gets to see what.

use vstd::prelude::*;

verus! {

/// The name of the cookie that holds an administrator's token.
pub const AUTH_COOKIE_KEY: &'static str = "AUTH";

/// What the admin pages do with a request.
#[derive(Clone, Copy, Debug, PartialEq, Eq, Structural)]
pub enum SiteAction {
    /// Serve the page that was asked for.
    Serve,
    /// Logged in and asking for the login page: go to the welcome page.
    ToHello,
    /// The cookie holds no valid token: log out, which removes it.
    ToLogout,
    /// Not logged in: go to the login page.
    ToLogin,
}

impl SiteAction {
    /// The action for a request: `is_login_page` tells whether it asks for
    /// the login page, `cookie` whether it carries the cookie and, if so,
    /// whether the token in it verified.
    pub open spec fn action(is_login_page: bool, cookie: Option<bool>) -> SiteAction {
        match cookie {
            Some(true) => if is_login_page {
                SiteAction::ToHello
            } else {
                SiteAction::Serve
            },
            Some(false) => SiteAction::ToLogout,
            None => if is_login_page {
                SiteAction::Serve
            } else {
                SiteAction::ToLogin
            },
        }
    }

    /// Decides what the admin pages do with a request.
    pub fn for_request(is_login_page: bool, cookie: Option<bool>) -> (action: SiteAction)
        ensures
            action == Self::action(is_login_page, cookie),
    {
        match cookie {
            Some(true) => if is_login_page {
                SiteAction::ToHello
            } else {
                SiteAction::Serve
            },
            Some(false) => SiteAction::ToLogout,
            None => if is_login_page {
                SiteAction::Serve
            } else {
                SiteAction::ToLogin
            },
        }
    }

    /// Where a redirect leads, for the actions that redirect.
    pub fn location(self) -> (path: Option<&'static str>)
        ensures
            match self {
                SiteAction::Serve => path is None,
                SiteAction::ToHello => path matches Some(p) && p@ == "/admin/hello"@,
                SiteAction::ToLogout => path matches Some(p) && p@ == "/admin/logout"@,
                SiteAction::ToLogin => path matches Some(p) && p@ == "/admin/"@,
            },
    {
        match self {
            SiteAction::Serve => None,
            SiteAction::ToHello => Some("/admin/hello"),
            SiteAction::ToLogout => Some("/admin/logout"),
            SiteAction::ToLogin => Some("/admin/"),
        }
    }
}

} // verus!
