//! Transactions, the query for the transactions of a month, and the sum of
//! a category's expenses.

use crate::amount::Amount;
use crate::pagination::{integer_value, Pagination};
use crate::wire::{
    amount_field, amount_of, fields_view, integer, is_first, lemma_lookup_first, number,
    optional_text, optional_text_field, optional_text_of, optional_text_value, optional_text_view,
    plain_result_view, text, text_field, text_of, FieldView, WireError, WireErrorView, WireField,
    WireRead, WireValue, WireValueView,
};
use vstd::prelude::*;
use vstd::string::StringExecFns;

verus! {

/// An instant in universal time: whole seconds since the first of January
/// 1970, and the nanoseconds into that second.
#[derive(Debug, Clone, Copy, PartialEq, Eq, Structural)]
pub struct UtcTimestamp {
    pub seconds: i64,
    pub nanoseconds: u32,
}

/// A day of the calendar by its year, month and day of the month.
#[derive(Debug, Clone, Copy, PartialEq, Eq, Structural)]
pub struct CalendarDate {
    pub year: i32,
    pub month: u32,
    pub day: u32,
}

/// The 128 bits of the identifier that `text` is the written form of; none
/// where `text` is the written form of no identifier.
pub uninterp spec fn uuid_parsed(text: Seq<char>) -> Option<u128>;

/// The seconds and nanoseconds of the instant that `text` names as a date
/// and time with an offset; none where it names no instant.
pub uninterp spec fn timestamp_parsed(text: Seq<char>) -> Option<(i64, u32)>;

/// The written form of the day `day` of month `month` of year `year`; none
/// where the calendar has no such day.
pub uninterp spec fn date_formatted(year: i32, month: u32, day: u32) -> Option<Seq<char>>;

/// Parses an identifier with `uuid::Uuid`'s `FromStr`, which is
/// `Uuid::parse_str`, and gives its bits by `Uuid::as_u128`. Not proved, and
/// taken on trust: the outcome is decided by the text alone. Nothing is
/// claimed of which texts are identifiers.
#[verifier::external_body]
fn uuid_from_text(text: &str) -> (r: Option<u128>)
    ensures
        r == uuid_parsed(text@),
{
    match text.parse::<uuid::Uuid>() {
        Ok(id) => Some(id.as_u128()),
        Err(_) => None,
    }
}

/// Parses a date and time with `chrono::DateTime<FixedOffset>`'s `FromStr`
/// and gives the instant by `DateTime::timestamp` and
/// `DateTime::timestamp_subsec_nanos`. Not proved, and taken on trust: the
/// outcome is decided by the text alone. Nothing is claimed of which texts
/// name an instant.
#[verifier::external_body]
fn timestamp_from_text(text: &str) -> (r: Option<(i64, u32)>)
    ensures
        r == timestamp_parsed(text@),
{
    match text.parse::<chrono::DateTime<chrono::FixedOffset>>() {
        Ok(at) => Some((at.timestamp(), at.timestamp_subsec_nanos())),
        Err(_) => None,
    }
}

/// Makes the day with `chrono::NaiveDate::from_ymd_opt` and writes it by
/// `NaiveDate`'s `Debug`. Not proved, and taken on trust: the outcome is
/// decided by the three numbers alone. Nothing is claimed of which days the
/// calendar has, nor of how a day is written.
#[verifier::external_body]
fn date_text(year: i32, month: u32, day: u32) -> (r: Option<String>)
    ensures
        optional_text_view(r) == date_formatted(year, month, day),
{
    match chrono::NaiveDate::from_ymd_opt(year, month, day) {
        Some(date) => Some(format!("{:?}", date)),
        None => None,
    }
}

/// A transaction as the service stores it. `transaction_type` is `"INCOME"`
/// or `"EXPENSE"`.
#[derive(Debug)]
pub struct TransactionDto {
    pub id: u128,
    pub amount: Amount,
    pub category_code: String,
    pub description: Option<String>,
    pub date: UtcTimestamp,
    pub transaction_type: String,
}

/// The new values of a transaction.
#[derive(Debug)]
pub struct UpdateTransactionDto {
    pub amount: Amount,
    pub category_code: String,
    pub description: Option<String>,
    pub date: UtcTimestamp,
}

/// A transaction to create. Without a date it is dated today.
#[derive(Debug)]
pub struct CreateTransactionDto {
    pub amount: Amount,
    pub category_code: String,
    pub description: Option<String>,
    pub date: Option<CalendarDate>,
}

/// The query for one page of the transactions of a month. Where year or
/// month is left out, the service chooses the scope.
pub struct MonthlyTransactionQuery {
    pub year: Option<u32>,
    pub month: Option<u32>,
    pub pagination: Pagination,
}

/// The sum of the expenses of one category.
#[derive(Debug)]
pub struct CategoryExpenseSummaryDto {
    pub category_code: String,
    pub total_amount: Amount,
}

/// What a `CategoryExpenseSummaryDto` holds.
pub struct CategoryExpenseSummaryView {
    pub category_code: Seq<char>,
    pub total_amount: Amount,
}

impl View for CategoryExpenseSummaryDto {
    type V = CategoryExpenseSummaryView;

    open spec fn view(&self) -> CategoryExpenseSummaryView {
        CategoryExpenseSummaryView {
            category_code: self.category_code@,
            total_amount: self.total_amount,
        }
    }
}

/// The fields that a sum of expenses is sent as: the category's code under
/// `categoryCode`, and the sum under `totalAmount`, as a number.
pub open spec fn encoded_summary(s: CategoryExpenseSummaryView) -> Seq<FieldView> {
    seq![
        ("categoryCode"@, WireValueView::Text(s.category_code)),
        ("totalAmount"@, WireValueView::Number(s.total_amount)),
    ]
}

/// The sum of expenses that a payload holds. The code is read first, and
/// the first field that fails gives the error.
pub open spec fn decoded_summary(fields: Seq<FieldView>) -> Result<
    CategoryExpenseSummaryView,
    WireErrorView,
> {
    match text_of(fields, "categoryCode"@) {
        Err(e) => Err(e),
        Ok(category_code) => match amount_of(fields, "totalAmount"@) {
            Err(e) => Err(e),
            Ok(total_amount) => Ok(CategoryExpenseSummaryView { category_code, total_amount }),
        },
    }
}

impl CategoryExpenseSummaryDto {
    /// The payload that carries the sum.
    pub fn to_wire(&self) -> (r: Vec<WireField>)
        ensures
            fields_view(r@) == encoded_summary(self@),
    {
        let mut fields: Vec<WireField> = Vec::new();
        fields.push(text("categoryCode", &self.category_code));
        fields.push(number("totalAmount", self.total_amount));
        assert(fields_view(fields@) =~= encoded_summary(self@));
        fields
    }
}

impl WireRead for CategoryExpenseSummaryDto {
    open spec fn decoded(fields: Seq<FieldView>) -> Result<
        CategoryExpenseSummaryView,
        WireErrorView,
    > {
        decoded_summary(fields)
    }

    fn from_wire(fields: &Vec<WireField>) -> (r: Result<CategoryExpenseSummaryDto, WireError>) {
        let category_code = match text_field(fields, "categoryCode") {
            Ok(t) => t,
            Err(e) => { return Err(e); },
        };
        let total_amount = match amount_field(fields, "totalAmount") {
            Ok(n) => n,
            Err(e) => { return Err(e); },
        };
        Ok(CategoryExpenseSummaryDto { category_code, total_amount })
    }
}

/// An amount within the limits that is encoded and decoded again is the
/// amount it was, digit for digit: the mantissa and the number of decimal
/// places are the same.
pub proof fn law_amount_round_trip(s: CategoryExpenseSummaryView)
    requires
        s.total_amount.valid(),
    ensures
        decoded_summary(encoded_summary(s)) == Ok::<CategoryExpenseSummaryView, WireErrorView>(s),
        amount_of(encoded_summary(s), "totalAmount"@) == Ok::<Amount, WireErrorView>(
            s.total_amount,
        ),
{
    reveal_strlit("categoryCode");
    reveal_strlit("totalAmount");
    assert("categoryCode"@.len() == 12);
    assert("totalAmount"@.len() == 11);
    let fields = encoded_summary(s);
    assert(is_first(fields, "categoryCode"@, 0));
    assert(is_first(fields, "totalAmount"@, 1));
    lemma_lookup_first(fields, "categoryCode"@, 0);
    lemma_lookup_first(fields, "totalAmount"@, 1);
}

impl MonthlyTransactionQuery {
    /// The query parameters of the month: `year` and `month` where they are
    /// given, then those of the page.
    pub open spec fn spec_query(&self) -> Seq<FieldView> {
        let year = match self.year {
            Some(y) => seq![("year"@, integer_value(y as i64))],
            None => Seq::<FieldView>::empty(),
        };
        let month = match self.month {
            Some(m) => seq![("month"@, integer_value(m as i64))],
            None => Seq::<FieldView>::empty(),
        };
        year + month + self.pagination.spec_query()
    }

    /// The query parameters that ask for the page of the month.
    pub fn to_query(&self) -> (r: Vec<WireField>)
        ensures
            fields_view(r@) == self.spec_query(),
    {
        let mut fields: Vec<WireField> = Vec::new();
        if let Some(y) = self.year {
            fields.push(integer("year", y as i64));
        }
        if let Some(m) = self.month {
            fields.push(integer("month", m as i64));
        }
        fields.push(integer("page", self.pagination.page));
        fields.push(integer("size", self.pagination.size));
        assert(fields_view(fields@) =~= self.spec_query());
        fields
    }
}

/// What a `TransactionDto` holds.
pub struct TransactionView {
    pub id: u128,
    pub amount: Amount,
    pub category_code: Seq<char>,
    pub description: Option<Seq<char>>,
    pub date: UtcTimestamp,
    pub transaction_type: Seq<char>,
}

impl View for TransactionDto {
    type V = TransactionView;

    open spec fn view(&self) -> TransactionView {
        TransactionView {
            id: self.id,
            amount: self.amount,
            category_code: self.category_code@,
            description: optional_text_view(self.description),
            date: self.date,
            transaction_type: self.transaction_type@,
        }
    }
}

/// The identifier that a required field holds as text.
pub open spec fn uuid_of(fields: Seq<FieldView>, name: Seq<char>) -> Result<u128, WireErrorView> {
    match text_of(fields, name) {
        Err(e) => Err(e),
        Ok(t) => match uuid_parsed(t) {
            Some(id) => Ok(id),
            None => Err(WireErrorView::Mismatch(name)),
        },
    }
}

/// The instant that a required field holds as text.
pub open spec fn timestamp_of(fields: Seq<FieldView>, name: Seq<char>) -> Result<
    UtcTimestamp,
    WireErrorView,
> {
    match text_of(fields, name) {
        Err(e) => Err(e),
        Ok(t) => match timestamp_parsed(t) {
            Some(at) => Ok(UtcTimestamp { seconds: at.0, nanoseconds: at.1 }),
            None => Err(WireErrorView::Mismatch(name)),
        },
    }
}

/// The transaction that a payload holds. The category's code stands under
/// the name `category`, the transaction's type under `type`, the amount is
/// a number, the identifier and the date are texts. The fields are read in
/// the order `id`, `amount`, `category`, `description`, `date`, `type`, and
/// the first that fails gives the error.
pub open spec fn decoded_transaction(fields: Seq<FieldView>) -> Result<
    TransactionView,
    WireErrorView,
> {
    match uuid_of(fields, "id"@) {
        Err(e) => Err(e),
        Ok(id) => match amount_of(fields, "amount"@) {
            Err(e) => Err(e),
            Ok(amount) => match text_of(fields, "category"@) {
                Err(e) => Err(e),
                Ok(category_code) => match optional_text_of(fields, "description"@) {
                    Err(e) => Err(e),
                    Ok(description) => match timestamp_of(fields, "date"@) {
                        Err(e) => Err(e),
                        Ok(date) => match text_of(fields, "type"@) {
                            Err(e) => Err(e),
                            Ok(transaction_type) => Ok(
                                TransactionView {
                                    id,
                                    amount,
                                    category_code,
                                    description,
                                    date,
                                    transaction_type,
                                },
                            ),
                        },
                    },
                },
            },
        },
    }
}

/// What the text of field `name` was parsed to; where it could not be
/// parsed, the field holds a value of the wrong kind.
pub fn parsed_or_mismatch<T>(parsed: Option<T>, name: &str) -> (r: Result<T, WireError>)
    ensures
        parsed is Some ==> r == Ok::<T, WireError>(parsed->0),
        parsed is None ==> r is Err && r->Err_0@ == WireErrorView::Mismatch(name@),
{
    match parsed {
        Some(v) => Ok(v),
        None => Err(WireError::Mismatch(String::from_str(name))),
    }
}

/// Reads the identifier that a required field holds as text.
pub fn uuid_field(fields: &Vec<WireField>, name: &str) -> (r: Result<u128, WireError>)
    ensures
        plain_result_view(r) == uuid_of(fields_view(fields@), name@),
{
    match text_field(fields, name) {
        Err(e) => Err(e),
        Ok(t) => parsed_or_mismatch(uuid_from_text(t.as_str()), name),
    }
}

/// Reads the instant that a required field holds as text.
pub fn timestamp_field(fields: &Vec<WireField>, name: &str) -> (r: Result<
    UtcTimestamp,
    WireError,
>)
    ensures
        plain_result_view(r) == timestamp_of(fields_view(fields@), name@),
{
    match text_field(fields, name) {
        Err(e) => Err(e),
        Ok(t) => match parsed_or_mismatch(timestamp_from_text(t.as_str()), name) {
            Ok(at) => Ok(UtcTimestamp { seconds: at.0, nanoseconds: at.1 }),
            Err(e) => Err(e),
        },
    }
}

impl WireRead for TransactionDto {
    open spec fn decoded(fields: Seq<FieldView>) -> Result<TransactionView, WireErrorView> {
        decoded_transaction(fields)
    }

    fn from_wire(fields: &Vec<WireField>) -> (r: Result<TransactionDto, WireError>) {
        let id = match uuid_field(fields, "id") {
            Ok(v) => v,
            Err(e) => { return Err(e); },
        };
        let amount = match amount_field(fields, "amount") {
            Ok(v) => v,
            Err(e) => { return Err(e); },
        };
        let category_code = match text_field(fields, "category") {
            Ok(v) => v,
            Err(e) => { return Err(e); },
        };
        let description = match optional_text_field(fields, "description") {
            Ok(v) => v,
            Err(e) => { return Err(e); },
        };
        let date = match timestamp_field(fields, "date") {
            Ok(v) => v,
            Err(e) => { return Err(e); },
        };
        let transaction_type = match text_field(fields, "type") {
            Ok(v) => v,
            Err(e) => { return Err(e); },
        };
        Ok(TransactionDto { id, amount, category_code, description, date, transaction_type })
    }
}

/// What a `CreateTransactionDto` holds.
pub struct CreateTransactionView {
    pub amount: Amount,
    pub category_code: Seq<char>,
    pub description: Option<Seq<char>>,
    pub date: Option<CalendarDate>,
}

impl View for CreateTransactionDto {
    type V = CreateTransactionView;

    open spec fn view(&self) -> CreateTransactionView {
        CreateTransactionView {
            amount: self.amount,
            category_code: self.category_code@,
            description: optional_text_view(self.description),
            date: self.date,
        }
    }
}

/// The value that the date of a new transaction is sent as: nothing where
/// no date is given, else the written form of the day. There is none where
/// the calendar has no such day.
pub open spec fn date_value(date: Option<CalendarDate>) -> Option<WireValueView> {
    match date {
        None => Some(WireValueView::Null),
        Some(d) => match date_formatted(d.year, d.month, d.day) {
            Some(t) => Some(WireValueView::Text(t)),
            None => None,
        },
    }
}

/// The fields that a new transaction is sent as, with `date` for its date.
/// The amount goes as a number, the category's code under the name
/// `category`.
pub open spec fn encoded_create_transaction(
    t: CreateTransactionView,
    date: WireValueView,
) -> Seq<FieldView> {
    seq![
        ("amount"@, WireValueView::Number(t.amount)),
        ("category"@, WireValueView::Text(t.category_code)),
        ("description"@, optional_text_value(t.description)),
        ("date"@, date),
    ]
}

impl Clone for CreateTransactionDto {
    fn clone(&self) -> (r: Self)
        ensures
            r@ == self@,
    {
        let description = match &self.description {
            Some(t) => Some(t.clone()),
            None => None,
        };
        CreateTransactionDto {
            amount: self.amount,
            category_code: self.category_code.clone(),
            description,
            date: self.date,
        }
    }
}

impl CreateTransactionDto {
    /// The payload of the request that creates this transaction, once the
    /// value of its date is known.
    pub fn to_wire_dated(&self, date: WireValue) -> (r: Vec<WireField>)
        ensures
            fields_view(r@) == encoded_create_transaction(self@, date@),
    {
        let mut fields: Vec<WireField> = Vec::new();
        fields.push(number("amount", self.amount));
        fields.push(text("category", &self.category_code));
        fields.push(optional_text("description", &self.description));
        fields.push(WireField { name: String::from_str("date"), value: date });
        assert(fields_view(fields@) =~= encoded_create_transaction(self@, date@));
        fields
    }

    /// The payload of the request that creates this transaction; none where
    /// its date is no day of the calendar.
    pub fn to_wire(&self) -> (r: Option<Vec<WireField>>)
        ensures
            match date_value(self.date) {
                Some(date) => r is Some && fields_view(r->0@) == encoded_create_transaction(
                    self@,
                    date,
                ),
                None => r is None,
            },
    {
        let date = match self.date {
            None => WireValue::Null,
            Some(d) => match date_text(d.year, d.month, d.day) {
                Some(t) => WireValue::Text(t),
                None => { return None; },
            },
        };
        Some(self.to_wire_dated(date))
    }
}

} // verus!
