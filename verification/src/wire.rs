//! The payload of a request or a reply as a list of named values, and how a
//! field is found in it.

use crate::amount::Amount;
use vstd::prelude::*;
use vstd::string::StringExecFns;

verus! {

/// The value of one field of a payload.
#[derive(Debug)]
pub enum WireValue {
    /// The field is there and holds nothing.
    Null,
    /// A text.
    Text(String),
    /// A number, in exact decimal digits.
    Number(Amount),
    /// A value of a kind that no field of this library takes.
    Other,
}

/// What a `WireValue` holds.
pub enum WireValueView {
    Null,
    Text(Seq<char>),
    Number(Amount),
    Other,
}

impl View for WireValue {
    type V = WireValueView;

    open spec fn view(&self) -> WireValueView {
        match self {
            WireValue::Null => WireValueView::Null,
            WireValue::Text(t) => WireValueView::Text(t@),
            WireValue::Number(n) => WireValueView::Number(*n),
            WireValue::Other => WireValueView::Other,
        }
    }
}

/// One field of a payload: its name on the wire and its value.
#[derive(Debug)]
pub struct WireField {
    pub name: String,
    pub value: WireValue,
}

/// A field's name and what it holds.
pub type FieldView = (Seq<char>, WireValueView);

/// The fields of a payload, in their order, as names and values.
pub open spec fn fields_view(fields: Seq<WireField>) -> Seq<FieldView> {
    Seq::new(fields.len(), |i: int| (fields[i].name@, fields[i].value@))
}

/// Why a payload does not have the expected shape; each names the field.
#[derive(Debug)]
pub enum WireError {
    /// A field that has to be there is not.
    Missing(String),
    /// A field holds a value of the wrong kind.
    Mismatch(String),
}

/// What a `WireError` holds.
pub enum WireErrorView {
    Missing(Seq<char>),
    Mismatch(Seq<char>),
}

impl View for WireError {
    type V = WireErrorView;

    open spec fn view(&self) -> WireErrorView {
        match self {
            WireError::Missing(n) => WireErrorView::Missing(n@),
            WireError::Mismatch(n) => WireErrorView::Mismatch(n@),
        }
    }
}

/// The message of an error: what is wrong, then the field's name.
pub open spec fn described(e: WireErrorView) -> Seq<char> {
    match e {
        WireErrorView::Missing(n) => "missing field "@ + n,
        WireErrorView::Mismatch(n) => "invalid type in field "@ + n,
    }
}

impl WireError {
    /// The message of the error.
    pub fn describe(&self) -> (r: String)
        ensures
            r@ == described(self@),
    {
        match self {
            WireError::Missing(n) => String::from_str("missing field ").concat(n.as_str()),
            WireError::Mismatch(n) => String::from_str("invalid type in field ").concat(
                n.as_str(),
            ),
        }
    }
}

/// Field `i` is the first one named `name`.
pub open spec fn is_first(fields: Seq<FieldView>, name: Seq<char>, i: int) -> bool {
    &&& 0 <= i < fields.len()
    &&& fields[i].0 == name
    &&& forall|j: int| 0 <= j < i ==> fields[j].0 != name
}

/// The value of the first field named `name`, if any field has that name.
pub open spec fn lookup(fields: Seq<FieldView>, name: Seq<char>) -> Option<WireValueView> {
    if exists|i: int| is_first(fields, name, i) {
        Some(fields[choose|i: int| is_first(fields, name, i)].1)
    } else {
        None
    }
}

/// Where field `i` is the first of its name, `lookup` gives its value.
pub proof fn lemma_lookup_first(fields: Seq<FieldView>, name: Seq<char>, i: int)
    requires
        is_first(fields, name, i),
    ensures
        lookup(fields, name) == Some(fields[i].1),
{
    let j = choose|j: int| is_first(fields, name, j);
    assert(is_first(fields, name, j));
    assert(j == i);
}

/// Where no field has the name, `lookup` gives nothing.
pub proof fn lemma_lookup_none(fields: Seq<FieldView>, name: Seq<char>)
    requires
        forall|j: int| 0 <= j < fields.len() ==> fields[j].0 != name,
    ensures
        lookup(fields, name) is None,
{
}

/// The text that a required field holds.
pub open spec fn text_of(fields: Seq<FieldView>, name: Seq<char>) -> Result<
    Seq<char>,
    WireErrorView,
> {
    match lookup(fields, name) {
        Some(WireValueView::Text(t)) => Ok(t),
        Some(_) => Err(WireErrorView::Mismatch(name)),
        None => Err(WireErrorView::Missing(name)),
    }
}

/// The text that an optional field holds: none where the field is absent or
/// holds nothing.
pub open spec fn optional_text_of(fields: Seq<FieldView>, name: Seq<char>) -> Result<
    Option<Seq<char>>,
    WireErrorView,
> {
    match lookup(fields, name) {
        Some(WireValueView::Text(t)) => Ok(Some(t)),
        Some(WireValueView::Null) => Ok(None),
        Some(_) => Err(WireErrorView::Mismatch(name)),
        None => Ok(None),
    }
}

/// The view of an optional text.
pub open spec fn optional_text_view(text: Option<String>) -> Option<Seq<char>> {
    match text {
        Some(t) => Some(t@),
        None => None,
    }
}

/// The view of the outcome of reading a required text.
pub open spec fn text_result_view(r: Result<String, WireError>) -> Result<
    Seq<char>,
    WireErrorView,
> {
    match r {
        Ok(t) => Ok(t@),
        Err(e) => Err(e@),
    }
}

/// The view of the outcome of reading an optional text.
pub open spec fn optional_text_result_view(r: Result<Option<String>, WireError>) -> Result<
    Option<Seq<char>>,
    WireErrorView,
> {
    match r {
        Ok(t) => Ok(optional_text_view(t)),
        Err(e) => Err(e@),
    }
}

/// The place of the first field named `name`.
pub fn find_field(fields: &Vec<WireField>, name: &str) -> (r: Option<usize>)
    ensures
        match r {
            Some(i) => is_first(fields_view(fields@), name@, i as int),
            None => lookup(fields_view(fields@), name@) is None,
        },
        r is Some <==> lookup(fields_view(fields@), name@) is Some,
{
    let key = String::from_str(name);
    let mut i: usize = 0;
    while i < fields.len()
        invariant
            i <= fields.len(),
            key@ == name@,
            forall|j: int| 0 <= j < i ==> fields_view(fields@)[j].0 != name@,
        decreases fields.len() - i,
    {
        if fields[i].name == key {
            proof {
                lemma_lookup_first(fields_view(fields@), name@, i as int);
            }
            return Some(i);
        }
        i += 1;
    }
    proof {
        lemma_lookup_none(fields_view(fields@), name@);
    }
    None
}

/// Reads the text of a required field.
pub fn text_field(fields: &Vec<WireField>, name: &str) -> (r: Result<String, WireError>)
    ensures
        text_result_view(r) == text_of(fields_view(fields@), name@),
{
    match find_field(fields, name) {
        Some(i) => {
            proof {
                lemma_lookup_first(fields_view(fields@), name@, i as int);
            }
            match &fields[i].value {
                WireValue::Text(t) => Ok(t.clone()),
                _ => Err(WireError::Mismatch(String::from_str(name))),
            }
        },
        None => Err(WireError::Missing(String::from_str(name))),
    }
}

/// Reads the text of an optional field.
pub fn optional_text_field(fields: &Vec<WireField>, name: &str) -> (r: Result<
    Option<String>,
    WireError,
>)
    ensures
        optional_text_result_view(r) == optional_text_of(fields_view(fields@), name@),
{
    match find_field(fields, name) {
        Some(i) => {
            proof {
                lemma_lookup_first(fields_view(fields@), name@, i as int);
            }
            match &fields[i].value {
                WireValue::Text(t) => Ok(Some(t.clone())),
                WireValue::Null => Ok(None),
                _ => Err(WireError::Mismatch(String::from_str(name))),
            }
        },
        None => Ok(None),
    }
}

/// A field that holds a text.
pub fn text(name: &str, value: &String) -> (r: WireField)
    ensures
        r.name@ == name@,
        r.value@ == WireValueView::Text(value@),
{
    WireField { name: String::from_str(name), value: WireValue::Text(value.clone()) }
}

/// A field that holds a text, or nothing where there is no text.
pub fn optional_text(name: &str, value: &Option<String>) -> (r: WireField)
    ensures
        r.name@ == name@,
        r.value@ == optional_text_value(optional_text_view(*value)),
{
    let value = match value {
        Some(t) => WireValue::Text(t.clone()),
        None => WireValue::Null,
    };
    WireField { name: String::from_str(name), value }
}

/// The value that an optional text is sent as.
pub open spec fn optional_text_value(text: Option<Seq<char>>) -> WireValueView {
    match text {
        Some(t) => WireValueView::Text(t),
        None => WireValueView::Null,
    }
}

/// The amount that a required field holds.
pub open spec fn amount_of(fields: Seq<FieldView>, name: Seq<char>) -> Result<
    Amount,
    WireErrorView,
> {
    match lookup(fields, name) {
        Some(WireValueView::Number(n)) => if n.valid() {
            Ok(n)
        } else {
            Err(WireErrorView::Mismatch(name))
        },
        Some(_) => Err(WireErrorView::Mismatch(name)),
        None => Err(WireErrorView::Missing(name)),
    }
}

/// The whole number that a required field holds.
pub open spec fn integer_of(fields: Seq<FieldView>, name: Seq<char>) -> Result<
    i64,
    WireErrorView,
> {
    match lookup(fields, name) {
        Some(WireValueView::Number(n)) => if n.is_integer() {
            Ok(n.mantissa as i64)
        } else {
            Err(WireErrorView::Mismatch(name))
        },
        Some(_) => Err(WireErrorView::Mismatch(name)),
        None => Err(WireErrorView::Missing(name)),
    }
}

/// The whole number that a field holds, or `default` where no field has
/// the name.
pub open spec fn integer_or(fields: Seq<FieldView>, name: Seq<char>, default: i64) -> Result<
    i64,
    WireErrorView,
> {
    match lookup(fields, name) {
        Some(WireValueView::Number(n)) => if n.is_integer() {
            Ok(n.mantissa as i64)
        } else {
            Err(WireErrorView::Mismatch(name))
        },
        Some(_) => Err(WireErrorView::Mismatch(name)),
        None => Ok(default),
    }
}

/// The view of the outcome of reading a value that is its own view.
pub open spec fn plain_result_view<T>(r: Result<T, WireError>) -> Result<T, WireErrorView> {
    match r {
        Ok(n) => Ok(n),
        Err(e) => Err(e@),
    }
}

/// Reads the amount of a required field.
pub fn amount_field(fields: &Vec<WireField>, name: &str) -> (r: Result<Amount, WireError>)
    ensures
        plain_result_view(r) == amount_of(fields_view(fields@), name@),
{
    match find_field(fields, name) {
        Some(i) => {
            proof {
                lemma_lookup_first(fields_view(fields@), name@, i as int);
            }
            match &fields[i].value {
                WireValue::Number(n) => if n.is_valid() {
                    Ok(*n)
                } else {
                    Err(WireError::Mismatch(String::from_str(name)))
                },
                _ => Err(WireError::Mismatch(String::from_str(name))),
            }
        },
        None => Err(WireError::Missing(String::from_str(name))),
    }
}

/// Reads the whole number of a required field.
pub fn integer_field(fields: &Vec<WireField>, name: &str) -> (r: Result<i64, WireError>)
    ensures
        plain_result_view(r) == integer_of(fields_view(fields@), name@),
{
    match find_field(fields, name) {
        Some(i) => {
            proof {
                lemma_lookup_first(fields_view(fields@), name@, i as int);
            }
            match &fields[i].value {
                WireValue::Number(n) => match n.to_integer() {
                    Some(v) => Ok(v),
                    None => Err(WireError::Mismatch(String::from_str(name))),
                },
                _ => Err(WireError::Mismatch(String::from_str(name))),
            }
        },
        None => Err(WireError::Missing(String::from_str(name))),
    }
}

/// Reads the whole number of a field that may be left out.
pub fn integer_field_or(fields: &Vec<WireField>, name: &str, default: i64) -> (r: Result<
    i64,
    WireError,
>)
    ensures
        plain_result_view(r) == integer_or(fields_view(fields@), name@, default),
{
    match find_field(fields, name) {
        Some(i) => {
            proof {
                lemma_lookup_first(fields_view(fields@), name@, i as int);
            }
            match &fields[i].value {
                WireValue::Number(n) => match n.to_integer() {
                    Some(v) => Ok(v),
                    None => Err(WireError::Mismatch(String::from_str(name))),
                },
                _ => Err(WireError::Mismatch(String::from_str(name))),
            }
        },
        None => Ok(default),
    }
}

/// A field that holds an amount, as a number.
pub fn number(name: &str, value: Amount) -> (r: WireField)
    ensures
        r.name@ == name@,
        r.value@ == WireValueView::Number(value),
{
    WireField { name: String::from_str(name), value: WireValue::Number(value) }
}

/// A field that holds a whole number.
pub fn integer(name: &str, value: i64) -> (r: WireField)
    ensures
        r.name@ == name@,
        r.value@ == WireValueView::Number(Amount { mantissa: value as i128, scale: 0 }),
{
    WireField { name: String::from_str(name), value: WireValue::Number(Amount::from_integer(value)) }
}

/// A value that is read from the fields of a payload.
pub trait WireRead: Sized + View {
    /// The value that a payload holds, or why it holds none.
    spec fn decoded(fields: Seq<FieldView>) -> Result<Self::V, WireErrorView>;

    /// Reads the value from a payload.
    fn from_wire(fields: &Vec<WireField>) -> (r: Result<Self, WireError>)
        ensures
            read_view(r) == Self::decoded(fields_view(fields@)),
    ;
}

/// The view of the outcome of reading a value.
pub open spec fn read_view<T: View>(r: Result<T, WireError>) -> Result<T::V, WireErrorView> {
    match r {
        Ok(v) => Ok(v@),
        Err(e) => Err(e@),
    }
}

/// The payloads of a list of items, as names and values.
pub open spec fn items_view(items: Seq<Vec<WireField>>) -> Seq<Seq<FieldView>> {
    Seq::new(items.len(), |i: int| fields_view(items[i]@))
}

/// What the values of a list hold.
pub open spec fn values_view<T: View>(values: Seq<T>) -> Seq<T::V> {
    Seq::new(values.len(), |i: int| values[i]@)
}

/// The values that the items of a list hold, in their order; the first item
/// that holds no value gives the error.
pub open spec fn decoded_items<T: WireRead>(items: Seq<Seq<FieldView>>) -> Result<
    Seq<T::V>,
    WireErrorView,
>
    decreases items.len(),
{
    if items.len() == 0 {
        Ok(Seq::empty())
    } else {
        match decoded_items::<T>(items.drop_last()) {
            Err(e) => Err(e),
            Ok(front) => match T::decoded(items.last()) {
                Err(e) => Err(e),
                Ok(v) => Ok(front.push(v)),
            },
        }
    }
}

/// Where the first items of a list fail, the list fails in the same way.
pub proof fn lemma_decoded_items_prefix<T: WireRead>(items: Seq<Seq<FieldView>>, n: int)
    requires
        0 <= n <= items.len(),
        decoded_items::<T>(items.take(n)) is Err,
    ensures
        decoded_items::<T>(items) == decoded_items::<T>(items.take(n)),
    decreases items.len(),
{
    if n == items.len() {
        assert(items.take(n) =~= items);
    } else {
        assert(items.drop_last().take(n) =~= items.take(n));
        lemma_decoded_items_prefix::<T>(items.drop_last(), n);
    }
}

/// The view of the outcome of reading a list of values.
pub open spec fn read_items_view<T: View>(r: Result<Vec<T>, WireError>) -> Result<
    Seq<T::V>,
    WireErrorView,
> {
    match r {
        Ok(values) => Ok(values_view(values@)),
        Err(e) => Err(e@),
    }
}

/// Reads the values of a list of items.
pub fn items_from_wire<T: WireRead>(items: &Vec<Vec<WireField>>) -> (r: Result<Vec<T>, WireError>)
    ensures
        read_items_view(r) == decoded_items::<T>(items_view(items@)),
{
    let ghost all = items_view(items@);
    let mut content: Vec<T> = Vec::new();
    let mut i: usize = 0;
    assert(all.take(0) =~= Seq::<Seq<FieldView>>::empty());
    assert(values_view(content@) =~= Seq::<T::V>::empty());
    while i < items.len()
        invariant
            i <= items.len(),
            all == items_view(items@),
            decoded_items::<T>(all.take(i as int)) == Ok::<Seq<T::V>, WireErrorView>(
                values_view(content@),
            ),
        decreases items.len() - i,
    {
        let ghost front = values_view(content@);
        assert(all.take(i + 1).drop_last() =~= all.take(i as int));
        assert(all.take(i + 1).last() == fields_view(items@[i as int]@));
        match T::from_wire(&items[i]) {
            Ok(v) => {
                content.push(v);
                assert(values_view(content@) =~= front.push(v@));
            },
            Err(e) => {
                proof {
                    lemma_decoded_items_prefix::<T>(all, i + 1);
                }
                return Err(e);
            },
        }
        i += 1;
    }
    assert(all.take(i as int) =~= all);
    Ok(content)
}

} // verus!
