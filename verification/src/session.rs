//! The per-user state record that links a chat identity to an optional
//! credential.

use vstd::prelude::*;

verus! {

/// The access and refresh token pair issued at login.
#[derive(Debug)]
pub struct Jwt {
    pub access_token: String,
    pub refresh_token: String,
}

/// What a `Jwt` holds, as sequences of characters.
pub struct JwtView {
    pub access_token: Seq<char>,
    pub refresh_token: Seq<char>,
}

impl View for Jwt {
    type V = JwtView;

    open spec fn view(&self) -> JwtView {
        JwtView { access_token: self.access_token@, refresh_token: self.refresh_token@ }
    }
}

impl Clone for Jwt {
    fn clone(&self) -> (r: Self)
        ensures
            r@ == self@,
    {
        Jwt { access_token: self.access_token.clone(), refresh_token: self.refresh_token.clone() }
    }
}

/// One chat user's interaction state.
#[derive(Debug)]
pub struct Session {
    pub user_id: String,
    pub username: String,
    pub chat_id: String,
    pub jwt: Option<Jwt>,
}

/// What a `Session` holds, as sequences of characters.
pub struct SessionView {
    pub user_id: Seq<char>,
    pub username: Seq<char>,
    pub chat_id: Seq<char>,
    pub jwt: Option<JwtView>,
}

/// The view of an optional credential.
pub open spec fn jwt_view(jwt: Option<Jwt>) -> Option<JwtView> {
    match jwt {
        Some(j) => Some(j@),
        None => None,
    }
}

/// The session of a user on first contact: the three identifiers and no
/// credential.
pub open spec fn fresh_session(
    user_id: Seq<char>,
    username: Seq<char>,
    chat_id: Seq<char>,
) -> SessionView {
    SessionView { user_id, username, chat_id, jwt: None }
}

impl View for Session {
    type V = SessionView;

    open spec fn view(&self) -> SessionView {
        SessionView {
            user_id: self.user_id@,
            username: self.username@,
            chat_id: self.chat_id@,
            jwt: jwt_view(self.jwt),
        }
    }
}

impl Clone for Session {
    fn clone(&self) -> (r: Self)
        ensures
            r@ == self@,
    {
        let jwt = match &self.jwt {
            Some(j) => Some(j.clone()),
            None => None,
        };
        Session {
            user_id: self.user_id.clone(),
            username: self.username.clone(),
            chat_id: self.chat_id.clone(),
            jwt,
        }
    }
}

impl Session {
    /// A session without a credential.
    pub fn new(user_id: String, username: String, chat_id: String) -> (r: Self)
        ensures
            r@ == fresh_session(user_id@, username@, chat_id@),
            r.jwt is None,
    {
        Session { user_id, username, chat_id, jwt: None }
    }
}

} // verus!
