//! The gateway to the remote accounting service: where its requests go, what
//! they carry, and what an exchange with the service comes to.

use crate::category_dto::{encoded_create_category, CategoryDto, CreateCategoryDto};
use crate::pagination::{
    decoded_page, page_from_wire, PageBody, PageView, PagedResponse, Pagination,
};
use crate::session::Session;
use crate::transaction_dto::{CategoryExpenseSummaryDto, TransactionDto};
use crate::user_dto::{encoded_login, JwtResponse, LoginTelegramBotDto};
use crate::wire::{described, fields_view, values_view, WireField, WireRead};
use vstd::prelude::*;
use vstd::string::StringExecFns;

verus! {

/// The path of the login operation below the base address.
pub const LOGIN_TELEGRAM_PATH: &'static str = "/users/login/telegram";

/// The path of the categories below the base address.
pub const CREATE_CATEGORY_PATH: &'static str = "/categories";

/// Why an operation of the gateway failed, with the message of the failure.
#[derive(Debug)]
pub enum ApiError {
    /// The service could not be reached.
    Transport(String),
    /// The service answered, and its answer did not have the expected shape.
    Decode(String),
    /// The service answered and signalled an error.
    Rejected(String),
}

/// What an `ApiError` holds.
pub enum ApiErrorView {
    Transport(Seq<char>),
    Decode(Seq<char>),
    Rejected(Seq<char>),
}

impl View for ApiError {
    type V = ApiErrorView;

    open spec fn view(&self) -> ApiErrorView {
        match self {
            ApiError::Transport(m) => ApiErrorView::Transport(m@),
            ApiError::Decode(m) => ApiErrorView::Decode(m@),
            ApiError::Rejected(m) => ApiErrorView::Rejected(m@),
        }
    }
}

impl ApiError {
    /// The message that the error carries.
    pub open spec fn spec_message(&self) -> Seq<char> {
        match self {
            ApiError::Transport(m) => m@,
            ApiError::Decode(m) => m@,
            ApiError::Rejected(m) => m@,
        }
    }

    /// The message that the error carries.
    pub fn message(&self) -> (r: String)
        ensures
            r@ == self.spec_message(),
    {
        match self {
            ApiError::Transport(m) => m.clone(),
            ApiError::Decode(m) => m.clone(),
            ApiError::Rejected(m) => m.clone(),
        }
    }
}

/// Whether a status reports success.
pub open spec fn is_success(status: u16) -> bool {
    200 <= status < 300
}

/// A reply of the service that holds one page: its status, and its body, or
/// the message of the reader where the body could not be read.
#[derive(Debug)]
pub struct RawPageReply {
    pub status: u16,
    pub body: Result<PageBody, String>,
}

/// How a request is made.
#[derive(Debug, Clone, Copy, PartialEq, Eq, Structural)]
pub enum HttpMethod {
    Get,
    Post,
}

/// A request to the service: where it goes, its query parameters, and its
/// body where it has one.
#[derive(Debug)]
pub struct HttpCall {
    pub method: HttpMethod,
    pub url: String,
    pub query: Vec<WireField>,
    pub body: Option<Vec<WireField>>,
}

/// A reply of the service: its status, and the fields of its body, or the
/// message of the reader where the body could not be read.
#[derive(Debug)]
pub struct RawReply {
    pub status: u16,
    pub body: Result<Vec<WireField>, String>,
}

/// The failure of a reply with `status` whose body is not of the expected
/// shape: a rejection where the status reports no success, else a decode
/// failure.
pub open spec fn failure(status: u16, message: Seq<char>) -> ApiErrorView {
    if is_success(status) {
        ApiErrorView::Decode(message)
    } else {
        ApiErrorView::Rejected(message)
    }
}

/// What an exchange comes to: the transport's failure where no reply came;
/// the value that the body holds where it has the expected shape, whatever
/// the status; else the failure of the reply.
pub open spec fn reply_outcome<T: WireRead>(exchange: Result<RawReply, String>) -> Result<
    T::V,
    ApiErrorView,
> {
    match exchange {
        Err(message) => Err(ApiErrorView::Transport(message@)),
        Ok(reply) => match reply.body {
            Err(message) => Err(failure(reply.status, message@)),
            Ok(fields) => match T::decoded(fields_view(fields@)) {
                Ok(value) => Ok(value),
                Err(e) => Err(failure(reply.status, described(e))),
            },
        },
    }
}

/// What the exchange for a page comes to: as for a single value, with the
/// page that the body holds.
pub open spec fn page_outcome<T: WireRead>(exchange: Result<RawPageReply, String>) -> Result<
    PageView<T::V>,
    ApiErrorView,
> {
    match exchange {
        Err(message) => Err(ApiErrorView::Transport(message@)),
        Ok(reply) => match reply.body {
            Err(message) => Err(failure(reply.status, message@)),
            Ok(body) => match decoded_page::<T>(body) {
                Ok(page) => Ok(page),
                Err(e) => Err(failure(reply.status, described(e))),
            },
        },
    }
}

/// The view of the outcome of an operation.
pub open spec fn outcome_view<T: View>(r: Result<T, ApiError>) -> Result<T::V, ApiErrorView> {
    match r {
        Ok(v) => Ok(v@),
        Err(e) => Err(e@),
    }
}

/// The view of the outcome of an operation that returns a page.
pub open spec fn page_outcome_view<T: View>(r: Result<PagedResponse<T>, ApiError>) -> Result<
    PageView<T::V>,
    ApiErrorView,
> {
    match r {
        Ok(p) => Ok(PageView { content: values_view(p.content@), page: p.page }),
        Err(e) => Err(e@),
    }
}

/// The failure of a reply with `status` and the given message.
pub fn failure_of(status: u16, message: String) -> (r: ApiError)
    ensures
        r@ == failure(status, message@),
{
    if 200 <= status && status < 300 {
        ApiError::Decode(message)
    } else {
        ApiError::Rejected(message)
    }
}

/// The gateway's configuration: the addresses of the operations and the
/// bot's own credentials, fixed when it is made.
pub struct AccountingClientApiRequest {
    base_url: String,
    login_telegram_url: String,
    create_category_path: String,
    client_id: String,
    client_secret: String,
    user_session: Session,
}

impl AccountingClientApiRequest {
    /// The base address of the service.
    pub closed spec fn spec_base_url(&self) -> Seq<char> {
        self.base_url@
    }

    /// The address of the login operation.
    pub closed spec fn spec_login_telegram_url(&self) -> Seq<char> {
        self.login_telegram_url@
    }

    /// The address at which categories are created.
    pub closed spec fn spec_create_category_url(&self) -> Seq<char> {
        self.create_category_path@
    }

    /// The bot's client identifier.
    pub closed spec fn spec_client_id(&self) -> Seq<char> {
        self.client_id@
    }

    /// The bot's shared secret.
    pub closed spec fn spec_client_secret(&self) -> Seq<char> {
        self.client_secret@
    }

    /// The session on whose behalf the gateway works.
    pub closed spec fn spec_user_session(&self) -> Session {
        self.user_session
    }

    /// A gateway for the service at `base_url`, with the bot's credentials.
    /// The address of each operation is the base address followed by the
    /// operation's path.
    pub fn new(base_url: String, client_id: String, client_secret: String, user_session: Session) -> (r:
        Self)
        ensures
            r.spec_base_url() == base_url@,
            r.spec_login_telegram_url() == base_url@ + LOGIN_TELEGRAM_PATH@,
            r.spec_create_category_url() == base_url@ + CREATE_CATEGORY_PATH@,
            r.spec_client_id() == client_id@,
            r.spec_client_secret() == client_secret@,
            r.spec_user_session() == user_session,
    {
        let login_telegram_url = base_url.clone().concat(LOGIN_TELEGRAM_PATH);
        let create_category_path = base_url.clone().concat(CREATE_CATEGORY_PATH);
        AccountingClientApiRequest {
            base_url,
            login_telegram_url,
            create_category_path,
            client_id,
            client_secret,
            user_session,
        }
    }

    /// The address of the login operation.
    pub fn login_telegram_url(&self) -> (r: &String)
        ensures
            r@ == self.spec_login_telegram_url(),
    {
        &self.login_telegram_url
    }

    /// The address at which categories are created.
    pub fn create_category_url(&self) -> (r: &String)
        ensures
            r@ == self.spec_create_category_url(),
    {
        &self.create_category_path
    }

    /// The session on whose behalf the gateway works.
    pub fn user_session(&self) -> (r: &Session)
        ensures
            *r == self.spec_user_session(),
    {
        &self.user_session
    }

    /// The body of a login for the chat user `telegram_id`: the user's
    /// identifier and name, with the bot's own client identifier and secret.
    pub fn login_telegram_request(&self, telegram_id: &String, username: &String) -> (r:
        LoginTelegramBotDto)
        ensures
            r.telegram_id@ == telegram_id@,
            r.username@ == username@,
            r.client_id@ == self.spec_client_id(),
            r.secret@ == self.spec_client_secret(),
    {
        LoginTelegramBotDto {
            telegram_id: telegram_id.clone(),
            username: username.clone(),
            client_id: self.client_id.clone(),
            secret: self.client_secret.clone(),
        }
    }

    /// The base address of the service.
    pub fn base_url(&self) -> (r: &String)
        ensures
            r@ == self.spec_base_url(),
    {
        &self.base_url
    }

    /// The login request for the chat user `telegram_id`: a post to the
    /// login address that carries the user's identifier and name with the
    /// bot's own client identifier and secret.
    pub fn login_telegram_call(&self, telegram_id: &String, username: &String) -> (r: HttpCall)
        ensures
            r.method == HttpMethod::Post,
            r.url@ == self.spec_login_telegram_url(),
            r.query@.len() == 0,
            r.body is Some,
            fields_view(r.body->0@) == encoded_login(
                self.spec_client_id(),
                self.spec_client_secret(),
                telegram_id@,
                username@,
            ),
    {
        let data = self.login_telegram_request(telegram_id, username);
        HttpCall {
            method: HttpMethod::Post,
            url: self.login_telegram_url.clone(),
            query: Vec::new(),
            body: Some(data.to_wire()),
        }
    }

    /// The request that creates a category: a post of the category to the
    /// address of the categories.
    pub fn create_category_call(&self, data: &CreateCategoryDto) -> (r: HttpCall)
        ensures
            r.method == HttpMethod::Post,
            r.url@ == self.spec_create_category_url(),
            r.query@.len() == 0,
            r.body is Some,
            fields_view(r.body->0@) == encoded_create_category(data@),
    {
        HttpCall {
            method: HttpMethod::Post,
            url: self.create_category_path.clone(),
            query: Vec::new(),
            body: Some(data.to_wire()),
        }
    }

    /// The request for one page of the categories: a get from the address
    /// of the categories with the page and its length as query parameters.
    pub fn list_categories_call(&self, params: &Pagination) -> (r: HttpCall)
        ensures
            r.method == HttpMethod::Get,
            r.url@ == self.spec_create_category_url(),
            fields_view(r.query@) == params.spec_query(),
            r.body is None,
    {
        HttpCall {
            method: HttpMethod::Get,
            url: self.create_category_path.clone(),
            query: params.to_query(),
            body: None,
        }
    }
}

/// What an exchange for a single value comes to.
pub fn reply_result<T: WireRead>(exchange: Result<RawReply, String>) -> (r: Result<T, ApiError>)
    ensures
        outcome_view(r) == reply_outcome::<T>(exchange),
{
    match exchange {
        Err(message) => Err(ApiError::Transport(message)),
        Ok(reply) => {
            let status = reply.status;
            match reply.body {
                Err(message) => Err(failure_of(status, message)),
                Ok(fields) => match T::from_wire(&fields) {
                    Ok(value) => Ok(value),
                    Err(e) => Err(failure_of(status, e.describe())),
                },
            }
        },
    }
}

/// What an exchange for a page comes to.
pub fn page_result<T: WireRead>(exchange: Result<RawPageReply, String>) -> (r: Result<
    PagedResponse<T>,
    ApiError,
>)
    ensures
        page_outcome_view(r) == page_outcome::<T>(exchange),
{
    match exchange {
        Err(message) => Err(ApiError::Transport(message)),
        Ok(reply) => {
            let status = reply.status;
            match reply.body {
                Err(message) => Err(failure_of(status, message)),
                Ok(body) => match page_from_wire::<T>(&body) {
                    Ok(page) => Ok(page),
                    Err(e) => Err(failure_of(status, e.describe())),
                },
            }
        },
    }
}

/// What the exchange of a login comes to: the token pair of the reply, or
/// why there is none.
pub fn login_telegram_result(exchange: Result<RawReply, String>) -> (r: Result<
    JwtResponse,
    ApiError,
>)
    ensures
        outcome_view(r) == reply_outcome::<JwtResponse>(exchange),
{
    reply_result(exchange)
}

/// What the exchange that creates a category comes to: the category of the
/// reply, with the identifier that the service gave it, or why there is
/// none.
pub fn create_category_result(exchange: Result<RawReply, String>) -> (r: Result<
    CategoryDto,
    ApiError,
>)
    ensures
        outcome_view(r) == reply_outcome::<CategoryDto>(exchange),
{
    reply_result(exchange)
}

/// What the exchange for a page of categories comes to: the page of the
/// reply, or why there is none.
pub fn list_categories_result(exchange: Result<RawPageReply, String>) -> (r: Result<
    PagedResponse<CategoryDto>,
    ApiError,
>)
    ensures
        page_outcome_view(r) == page_outcome::<CategoryDto>(exchange),
{
    page_result(exchange)
}

/// What the exchange that creates an expense comes to: the transaction as
/// the service stored it, or why there is none.
pub fn create_expense_transaction_result(exchange: Result<RawReply, String>) -> (r: Result<
    TransactionDto,
    ApiError,
>)
    ensures
        outcome_view(r) == reply_outcome::<TransactionDto>(exchange),
{
    reply_result(exchange)
}

/// What the exchange for the sum of today's expenses comes to: the sum of
/// the reply, or why there is none.
pub fn sum_today_expenses_grouped_by_category_result(exchange: Result<RawReply, String>) -> (r:
    Result<CategoryExpenseSummaryDto, ApiError>)
    ensures
        outcome_view(r) == reply_outcome::<CategoryExpenseSummaryDto>(exchange),
{
    reply_result(exchange)
}

/// What the exchange for the transactions of a month comes to: the page of
/// the reply, or why there is none.
pub fn find_all_transaction_by_month_result(exchange: Result<RawPageReply, String>) -> (r: Result<
    PagedResponse<TransactionDto>,
    ApiError,
>)
    ensures
        page_outcome_view(r) == page_outcome::<TransactionDto>(exchange),
{
    page_result(exchange)
}

} // verus!
