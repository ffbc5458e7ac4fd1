use vstd::prelude::*;

use crate::error::AppError;
use crate::pages::{PageGraph, PageId, connection_lookup};

verus! {

/// The key under which a visitor's session is stored.
pub const SESSION_KEY: &'static str = "user_session";

/// Where a visitor stands in the page graph.
#[derive(Debug, Clone)]
pub struct UserSession {
    pub current_page: PageId,
}

impl UserSession {
    /// A session that starts at `starting_page`.
    pub fn new(starting_page: &str) -> (r: UserSession)
        ensures
            r.current_page@ == starting_page@,
    {
        UserSession { current_page: PageId::from_str(starting_page) }
    }

    /// The session after leaving by the exit named `go_to` of its page; a
    /// session error when the page is unknown or has no such exit.
    pub fn follow(&self, go_to: &str, pages: &PageGraph) -> (r: Result<UserSession, AppError>)
        ensures
            match pages.spec_get(self.current_page@) {
                Some(page) => match connection_lookup(page.connections@, go_to@) {
                    Some(c) => r matches Ok(s) && s.current_page@ == c.target@,
                    None => r matches Err(e) && e is SessionError,
                },
                None => r matches Err(e) && e is SessionError,
            },
    {
        match crate::pages::valid_move(&self.current_page, go_to, pages) {
            Some(conn) => Ok(UserSession { current_page: PageId(conn.target.0.clone()) }),
            None => Err(AppError::SessionError("Invalid direction!".to_owned())),
        }
    }
}

/// A visitor's request to leave by the exit named `go_to`.
pub struct UserAction {
    pub go_to: String,
}

} // verus!
