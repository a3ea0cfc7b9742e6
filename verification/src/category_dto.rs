//! Categories as they are created and as the service returns them, and their
//! shape on the wire.

use crate::wire::{
    fields_view, optional_text, optional_text_field, optional_text_of, optional_text_value,
    optional_text_view, text, text_field, text_of, FieldView, WireError, WireErrorView, WireField,
    WireRead, WireValueView, is_first, lemma_lookup_first,
};
use vstd::prelude::*;

verus! {

/// A category to create. `category_type` is `"INCOME"` or `"EXPENSE"`.
#[derive(Debug)]
pub struct CreateCategoryDto {
    pub code: String,
    pub name: String,
    pub description: Option<String>,
    pub category_type: String,
}

/// A category of the service, with the identifier that the service gave it.
#[derive(Debug)]
pub struct CategoryDto {
    pub id: String,
    pub code: String,
    pub name: String,
    pub description: Option<String>,
    pub category_type: String,
}

/// What a `CreateCategoryDto` holds.
pub struct CreateCategoryView {
    pub code: Seq<char>,
    pub name: Seq<char>,
    pub description: Option<Seq<char>>,
    pub category_type: Seq<char>,
}

/// What a `CategoryDto` holds.
pub struct CategoryView {
    pub id: Seq<char>,
    pub code: Seq<char>,
    pub name: Seq<char>,
    pub description: Option<Seq<char>>,
    pub category_type: Seq<char>,
}

impl View for CreateCategoryDto {
    type V = CreateCategoryView;

    open spec fn view(&self) -> CreateCategoryView {
        CreateCategoryView {
            code: self.code@,
            name: self.name@,
            description: optional_text_view(self.description),
            category_type: self.category_type@,
        }
    }
}

impl View for CategoryDto {
    type V = CategoryView;

    open spec fn view(&self) -> CategoryView {
        CategoryView {
            id: self.id@,
            code: self.code@,
            name: self.name@,
            description: optional_text_view(self.description),
            category_type: self.category_type@,
        }
    }
}

/// The fields that a category to create is sent as. The category's type
/// goes under the name `type`.
pub open spec fn encoded_create_category(c: CreateCategoryView) -> Seq<FieldView> {
    seq![
        ("code"@, WireValueView::Text(c.code)),
        ("name"@, WireValueView::Text(c.name)),
        ("description"@, optional_text_value(c.description)),
        ("type"@, WireValueView::Text(c.category_type)),
    ]
}

/// The fields that a category is sent as. The category's type goes under
/// the name `type`.
pub open spec fn encoded_category(c: CategoryView) -> Seq<FieldView> {
    seq![
        ("id"@, WireValueView::Text(c.id)),
        ("code"@, WireValueView::Text(c.code)),
        ("name"@, WireValueView::Text(c.name)),
        ("description"@, optional_text_value(c.description)),
        ("type"@, WireValueView::Text(c.category_type)),
    ]
}

/// The category that a payload holds. The fields are read in the order
/// `id`, `code`, `name`, `description`, `type`, and the first that fails
/// gives the error; fields of other names are passed over.
pub open spec fn decoded_category(fields: Seq<FieldView>) -> Result<CategoryView, WireErrorView> {
    match text_of(fields, "id"@) {
        Err(e) => Err(e),
        Ok(id) => match text_of(fields, "code"@) {
            Err(e) => Err(e),
            Ok(code) => match text_of(fields, "name"@) {
                Err(e) => Err(e),
                Ok(name) => match optional_text_of(fields, "description"@) {
                    Err(e) => Err(e),
                    Ok(description) => match text_of(fields, "type"@) {
                        Err(e) => Err(e),
                        Ok(category_type) => Ok(
                            CategoryView { id, code, name, description, category_type },
                        ),
                    },
                },
            },
        },
    }
}

impl CreateCategoryDto {
    /// The payload of the request that creates this category.
    pub fn to_wire(&self) -> (r: Vec<WireField>)
        ensures
            fields_view(r@) == encoded_create_category(self@),
    {
        let mut fields: Vec<WireField> = Vec::new();
        fields.push(text("code", &self.code));
        fields.push(text("name", &self.name));
        fields.push(optional_text("description", &self.description));
        fields.push(text("type", &self.category_type));
        assert(fields_view(fields@) =~= encoded_create_category(self@));
        fields
    }
}

impl CategoryDto {
    /// The payload that carries this category.
    pub fn to_wire(&self) -> (r: Vec<WireField>)
        ensures
            fields_view(r@) == encoded_category(self@),
    {
        let mut fields: Vec<WireField> = Vec::new();
        fields.push(text("id", &self.id));
        fields.push(text("code", &self.code));
        fields.push(text("name", &self.name));
        fields.push(optional_text("description", &self.description));
        fields.push(text("type", &self.category_type));
        assert(fields_view(fields@) =~= encoded_category(self@));
        fields
    }
}

impl WireRead for CategoryDto {
    open spec fn decoded(fields: Seq<FieldView>) -> Result<CategoryView, WireErrorView> {
        decoded_category(fields)
    }

    fn from_wire(fields: &Vec<WireField>) -> (r: Result<CategoryDto, WireError>) {
        let id = match text_field(fields, "id") {
            Ok(t) => t,
            Err(e) => { return Err(e); },
        };
        let code = match text_field(fields, "code") {
            Ok(t) => t,
            Err(e) => { return Err(e); },
        };
        let name = match text_field(fields, "name") {
            Ok(t) => t,
            Err(e) => { return Err(e); },
        };
        let description = match optional_text_field(fields, "description") {
            Ok(t) => t,
            Err(e) => { return Err(e); },
        };
        let category_type = match text_field(fields, "type") {
            Ok(t) => t,
            Err(e) => { return Err(e); },
        };
        Ok(CategoryDto { id, code, name, description, category_type })
    }
}

/// The names of a category's fields differ from one another.
pub proof fn lemma_category_names_differ()
    ensures
        "id"@ != "code"@,
        "id"@ != "name"@,
        "id"@ != "description"@,
        "id"@ != "type"@,
        "code"@ != "name"@,
        "code"@ != "description"@,
        "code"@ != "type"@,
        "name"@ != "description"@,
        "name"@ != "type"@,
        "description"@ != "type"@,
{
    reveal_strlit("id");
    reveal_strlit("code");
    reveal_strlit("name");
    reveal_strlit("description");
    reveal_strlit("type");
    assert("id"@.len() == 2);
    assert("description"@.len() == 11);
    assert("code"@[0] == 'c');
    assert("name"@[0] == 'n');
    assert("type"@[0] == 't');
}

/// A category that is encoded and decoded again is the category it was. In
/// the payload its type stands under the name `type`, and the decoded
/// category has that type.
pub proof fn law_category_round_trip(c: CategoryView)
    ensures
        decoded_category(encoded_category(c)) == Ok::<CategoryView, WireErrorView>(c),
        encoded_category(c)[4] == ("type"@, WireValueView::Text(c.category_type)),
        text_of(encoded_category(c), "type"@) == Ok::<Seq<char>, WireErrorView>(c.category_type),
{
    lemma_category_names_differ();
    let fields = encoded_category(c);
    assert(is_first(fields, "id"@, 0));
    assert(is_first(fields, "code"@, 1));
    assert(is_first(fields, "name"@, 2));
    assert(is_first(fields, "description"@, 3));
    assert(is_first(fields, "type"@, 4));
    lemma_lookup_first(fields, "id"@, 0);
    lemma_lookup_first(fields, "code"@, 1);
    lemma_lookup_first(fields, "name"@, 2);
    lemma_lookup_first(fields, "description"@, 3);
    lemma_lookup_first(fields, "type"@, 4);
}

} // verus!
