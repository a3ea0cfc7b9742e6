//! The login request of the bot and the token pair that answers it, and
//! their shape on the wire.

use crate::wire::{
    fields_view, text, text_field, text_of, FieldView, WireError, WireErrorView, WireField,
    WireRead, WireValueView,
};
use vstd::prelude::*;

verus! {

/// The login request that the bot sends for a chat user.
#[derive(Debug)]
pub struct LoginTelegramBotDto {
    pub client_id: String,
    pub secret: String,
    pub telegram_id: String,
    pub username: String,
}

/// The access and refresh tokens that a login returns.
#[derive(Debug)]
pub struct JwtResponse {
    pub access_token: String,
    pub refresh_token: String,
}

/// What a `JwtResponse` holds.
pub struct JwtResponseView {
    pub access_token: Seq<char>,
    pub refresh_token: Seq<char>,
}

impl View for JwtResponse {
    type V = JwtResponseView;

    open spec fn view(&self) -> JwtResponseView {
        JwtResponseView { access_token: self.access_token@, refresh_token: self.refresh_token@ }
    }
}

impl Clone for JwtResponse {
    fn clone(&self) -> (r: Self)
        ensures
            r@ == self@,
    {
        JwtResponse {
            access_token: self.access_token.clone(),
            refresh_token: self.refresh_token.clone(),
        }
    }
}

/// The token pair that a payload holds. The access token stands under the
/// name `token`. It is read first, and the first field that fails gives the
/// error.
pub open spec fn decoded_jwt(fields: Seq<FieldView>) -> Result<JwtResponseView, WireErrorView> {
    match text_of(fields, "token"@) {
        Err(e) => Err(e),
        Ok(access_token) => match text_of(fields, "refresh_token"@) {
            Err(e) => Err(e),
            Ok(refresh_token) => Ok(JwtResponseView { access_token, refresh_token }),
        },
    }
}

impl WireRead for JwtResponse {
    open spec fn decoded(fields: Seq<FieldView>) -> Result<JwtResponseView, WireErrorView> {
        decoded_jwt(fields)
    }

    fn from_wire(fields: &Vec<WireField>) -> (r: Result<JwtResponse, WireError>) {
        let access_token = match text_field(fields, "token") {
            Ok(t) => t,
            Err(e) => { return Err(e); },
        };
        let refresh_token = match text_field(fields, "refresh_token") {
            Ok(t) => t,
            Err(e) => { return Err(e); },
        };
        Ok(JwtResponse { access_token, refresh_token })
    }
}

/// The fields that a login request is sent as: the bot's client identifier
/// and secret, then the chat user's identifier and name.
pub open spec fn encoded_login(
    client_id: Seq<char>,
    secret: Seq<char>,
    telegram_id: Seq<char>,
    username: Seq<char>,
) -> Seq<FieldView> {
    seq![
        ("client_id"@, WireValueView::Text(client_id)),
        ("secret"@, WireValueView::Text(secret)),
        ("telegram_id"@, WireValueView::Text(telegram_id)),
        ("username"@, WireValueView::Text(username)),
    ]
}

impl LoginTelegramBotDto {
    /// The fields that the login request is sent as.
    pub open spec fn encoded(&self) -> Seq<FieldView> {
        encoded_login(self.client_id@, self.secret@, self.telegram_id@, self.username@)
    }

    /// The payload of the login request.
    pub fn to_wire(&self) -> (r: Vec<WireField>)
        ensures
            fields_view(r@) == self.encoded(),
    {
        let mut fields: Vec<WireField> = Vec::new();
        fields.push(text("client_id", &self.client_id));
        fields.push(text("secret", &self.secret));
        fields.push(text("telegram_id", &self.telegram_id));
        fields.push(text("username", &self.username));
        assert(fields_view(fields@) =~= self.encoded());
        fields
    }
}

} // verus!
