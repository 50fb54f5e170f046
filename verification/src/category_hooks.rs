//! Categories and subcategories of causes.

use vstd::prelude::*;
use crate::text::{hex_color, is_blank, is_blank_text, is_text, is_valid_hex_color, utf8_len};
use crate::waqf_types::{view_of, views_of};

verus! {

/// A category of causes.
#[derive(Debug, Clone, PartialEq)]
pub struct Category {
    pub id: String,
    pub name: String,
    pub description: String,
    pub icon: String,
    /// Colour of the category, as `#RRGGBB`.
    pub color: Option<String>,
    pub is_active: bool,
    pub sort_order: i32,
    /// Each `permanent`, `temporary_consumable` or `temporary_revolving`.
    pub associated_waqf_types: Vec<String>,
    pub created_at: String,
    pub updated_at: String,
}

/// Mathematical model of [`Category`].
pub ghost struct CategoryView {
    pub id: Seq<char>,
    pub name: Seq<char>,
    pub description: Seq<char>,
    pub icon: Seq<char>,
    pub color: Option<Seq<char>>,
    pub is_active: bool,
    pub sort_order: i32,
    pub associated_waqf_types: Seq<Seq<char>>,
    pub created_at: Seq<char>,
    pub updated_at: Seq<char>,
}

impl View for Category {
    type V = CategoryView;

    open spec fn view(&self) -> CategoryView {
        CategoryView {
            id: self.id@,
            name: self.name@,
            description: self.description@,
            icon: self.icon@,
            color: view_of(self.color),
            is_active: self.is_active,
            sort_order: self.sort_order,
            associated_waqf_types: views_of(self.associated_waqf_types@),
            created_at: self.created_at@,
            updated_at: self.updated_at@,
        }
    }
}

/// A subcategory of a category.
#[derive(Debug, Clone, PartialEq)]
pub struct Subcategory {
    pub id: String,
    /// The category that this one belongs to.
    pub category_id: String,
    pub name: String,
    pub description: String,
    pub icon: String,
    pub examples: Vec<String>,
    pub is_active: bool,
    pub sort_order: i32,
    pub created_at: String,
    pub updated_at: String,
}

/// Mathematical model of [`Subcategory`].
pub ghost struct SubcategoryView {
    pub id: Seq<char>,
    pub category_id: Seq<char>,
    pub name: Seq<char>,
    pub description: Seq<char>,
    pub icon: Seq<char>,
    pub examples: Seq<Seq<char>>,
    pub is_active: bool,
    pub sort_order: i32,
    pub created_at: Seq<char>,
    pub updated_at: Seq<char>,
}

impl View for Subcategory {
    type V = SubcategoryView;

    open spec fn view(&self) -> SubcategoryView {
        SubcategoryView {
            id: self.id@,
            category_id: self.category_id@,
            name: self.name@,
            description: self.description@,
            icon: self.icon@,
            examples: views_of(self.examples@),
            is_active: self.is_active,
            sort_order: self.sort_order,
            created_at: self.created_at@,
            updated_at: self.updated_at@,
        }
    }
}

/// Greatest length of an identifier, in bytes.
pub const MAX_ID_LENGTH: usize = 100;

/// Greatest length of a name or of an example, in bytes.
pub const MAX_NAME_LENGTH: usize = 200;

/// Greatest length of a description, in bytes.
pub const MAX_DESCRIPTION_LENGTH: usize = 1000;

/// Why a category or subcategory, or its deletion, was rejected.
#[derive(Debug, Clone, PartialEq)]
pub enum CategoryError {
    CategoryIdRequired,
    CategoryIdTooLong,
    CategoryNameRequired,
    CategoryNameTooLong,
    CategoryDescriptionRequired,
    CategoryDescriptionTooLong,
    CategoryIconRequired,
    InvalidColor,
    WaqfTypeRequired,
    /// An associated waqf type is unknown; holds it.
    InvalidWaqfType(String),
    SubcategoryIdRequired,
    SubcategoryIdTooLong,
    ParentRequired,
    SubcategoryNameRequired,
    SubcategoryNameTooLong,
    SubcategoryDescriptionRequired,
    SubcategoryDescriptionTooLong,
    SubcategoryIconRequired,
    ExampleTooLong,
    CreatedAtRequired,
    UpdatedAtRequired,
    NoCurrentDocument,
}

/// Mathematical model of [`CategoryError`].
pub ghost enum CategoryErrorView {
    CategoryIdRequired,
    CategoryIdTooLong,
    CategoryNameRequired,
    CategoryNameTooLong,
    CategoryDescriptionRequired,
    CategoryDescriptionTooLong,
    CategoryIconRequired,
    InvalidColor,
    WaqfTypeRequired,
    InvalidWaqfType(Seq<char>),
    SubcategoryIdRequired,
    SubcategoryIdTooLong,
    ParentRequired,
    SubcategoryNameRequired,
    SubcategoryNameTooLong,
    SubcategoryDescriptionRequired,
    SubcategoryDescriptionTooLong,
    SubcategoryIconRequired,
    ExampleTooLong,
    CreatedAtRequired,
    UpdatedAtRequired,
    NoCurrentDocument,
}

impl View for CategoryError {
    type V = CategoryErrorView;

    open spec fn view(&self) -> CategoryErrorView {
        match self {
            CategoryError::CategoryIdRequired => CategoryErrorView::CategoryIdRequired,
            CategoryError::CategoryIdTooLong => CategoryErrorView::CategoryIdTooLong,
            CategoryError::CategoryNameRequired => CategoryErrorView::CategoryNameRequired,
            CategoryError::CategoryNameTooLong => CategoryErrorView::CategoryNameTooLong,
            CategoryError::CategoryDescriptionRequired => CategoryErrorView::CategoryDescriptionRequired,
            CategoryError::CategoryDescriptionTooLong => CategoryErrorView::CategoryDescriptionTooLong,
            CategoryError::CategoryIconRequired => CategoryErrorView::CategoryIconRequired,
            CategoryError::InvalidColor => CategoryErrorView::InvalidColor,
            CategoryError::WaqfTypeRequired => CategoryErrorView::WaqfTypeRequired,
            CategoryError::InvalidWaqfType(t) => CategoryErrorView::InvalidWaqfType(t@),
            CategoryError::SubcategoryIdRequired => CategoryErrorView::SubcategoryIdRequired,
            CategoryError::SubcategoryIdTooLong => CategoryErrorView::SubcategoryIdTooLong,
            CategoryError::ParentRequired => CategoryErrorView::ParentRequired,
            CategoryError::SubcategoryNameRequired => CategoryErrorView::SubcategoryNameRequired,
            CategoryError::SubcategoryNameTooLong => CategoryErrorView::SubcategoryNameTooLong,
            CategoryError::SubcategoryDescriptionRequired => CategoryErrorView::SubcategoryDescriptionRequired,
            CategoryError::SubcategoryDescriptionTooLong => CategoryErrorView::SubcategoryDescriptionTooLong,
            CategoryError::SubcategoryIconRequired => CategoryErrorView::SubcategoryIconRequired,
            CategoryError::ExampleTooLong => CategoryErrorView::ExampleTooLong,
            CategoryError::CreatedAtRequired => CategoryErrorView::CreatedAtRequired,
            CategoryError::UpdatedAtRequired => CategoryErrorView::UpdatedAtRequired,
            CategoryError::NoCurrentDocument => CategoryErrorView::NoCurrentDocument,
        }
    }
}

impl CategoryErrorView {
    /// The message that describes the error.
    pub open spec fn text(self) -> Seq<char> {
        match self {
            CategoryErrorView::CategoryIdRequired => "Category ID is required"@,
            CategoryErrorView::CategoryIdTooLong => "Category ID must be 100 characters or less"@,
            CategoryErrorView::CategoryNameRequired => "Category name is required"@,
            CategoryErrorView::CategoryNameTooLong => "Category name must be 200 characters or less"@,
            CategoryErrorView::CategoryDescriptionRequired => "Category description is required"@,
            CategoryErrorView::CategoryDescriptionTooLong => "Category description must be 1000 characters or less"@,
            CategoryErrorView::CategoryIconRequired => "Category icon is required"@,
            CategoryErrorView::InvalidColor => "Invalid hex color format. Use #RRGGBB format"@,
            CategoryErrorView::WaqfTypeRequired => "At least one waqf type must be associated with the category"@,
            CategoryErrorView::InvalidWaqfType(t) => "Invalid waqf type '"@ + t
                + "'. Valid types: permanent, temporary_consumable, temporary_revolving"@,
            CategoryErrorView::SubcategoryIdRequired => "Subcategory ID is required"@,
            CategoryErrorView::SubcategoryIdTooLong => "Subcategory ID must be 100 characters or less"@,
            CategoryErrorView::ParentRequired => "Parent category ID is required"@,
            CategoryErrorView::SubcategoryNameRequired => "Subcategory name is required"@,
            CategoryErrorView::SubcategoryNameTooLong => "Subcategory name must be 200 characters or less"@,
            CategoryErrorView::SubcategoryDescriptionRequired => "Subcategory description is required"@,
            CategoryErrorView::SubcategoryDescriptionTooLong => "Subcategory description must be 1000 characters or less"@,
            CategoryErrorView::SubcategoryIconRequired => "Subcategory icon is required"@,
            CategoryErrorView::ExampleTooLong => "Each example must be 200 characters or less"@,
            CategoryErrorView::CreatedAtRequired => "Created at timestamp is required"@,
            CategoryErrorView::UpdatedAtRequired => "Updated at timestamp is required"@,
            CategoryErrorView::NoCurrentDocument => "No current document found for deletion"@,
        }
    }
}

impl CategoryError {
    /// Describes the error in words, with the value that caused it.
    pub fn message(&self) -> (s: String)
        ensures
            s@ == self@.text(),
    {
        match self {
            CategoryError::CategoryIdRequired => String::from_str("Category ID is required"),
            CategoryError::CategoryIdTooLong => String::from_str("Category ID must be 100 characters or less"),
            CategoryError::CategoryNameRequired => String::from_str("Category name is required"),
            CategoryError::CategoryNameTooLong => String::from_str("Category name must be 200 characters or less"),
            CategoryError::CategoryDescriptionRequired => String::from_str("Category description is required"),
            CategoryError::CategoryDescriptionTooLong => String::from_str("Category description must be 1000 characters or less"),
            CategoryError::CategoryIconRequired => String::from_str("Category icon is required"),
            CategoryError::InvalidColor => String::from_str("Invalid hex color format. Use #RRGGBB format"),
            CategoryError::WaqfTypeRequired => String::from_str("At least one waqf type must be associated with the category"),
            CategoryError::InvalidWaqfType(t) => {
                let mut s = String::from_str("Invalid waqf type '");
                s.append(t.as_str());
                s.append("'. Valid types: permanent, temporary_consumable, temporary_revolving");
                s
            },
            CategoryError::SubcategoryIdRequired => String::from_str("Subcategory ID is required"),
            CategoryError::SubcategoryIdTooLong => String::from_str("Subcategory ID must be 100 characters or less"),
            CategoryError::ParentRequired => String::from_str("Parent category ID is required"),
            CategoryError::SubcategoryNameRequired => String::from_str("Subcategory name is required"),
            CategoryError::SubcategoryNameTooLong => String::from_str("Subcategory name must be 200 characters or less"),
            CategoryError::SubcategoryDescriptionRequired => String::from_str("Subcategory description is required"),
            CategoryError::SubcategoryDescriptionTooLong => String::from_str("Subcategory description must be 1000 characters or less"),
            CategoryError::SubcategoryIconRequired => String::from_str("Subcategory icon is required"),
            CategoryError::ExampleTooLong => String::from_str("Each example must be 200 characters or less"),
            CategoryError::CreatedAtRequired => String::from_str("Created at timestamp is required"),
            CategoryError::UpdatedAtRequired => String::from_str("Updated at timestamp is required"),
            CategoryError::NoCurrentDocument => String::from_str("No current document found for deletion"),
        }
    }
}

/// Whether the outcome of a check is the one its rules prescribe: success
/// where no rule is violated, else the error of the first violated rule.
pub open spec fn category_verdict_is(r: Result<(), CategoryError>, verdict: Option<CategoryErrorView>) -> bool {
    match verdict {
        None => r is Ok,
        Some(e) => r is Err && r->Err_0@ == e,
    }
}

/// Whether a text names a kind of waqf that a category can be associated
/// with.
pub open spec fn association_type(s: Seq<char>) -> bool {
    s == "permanent"@ || s == "temporary_consumable"@ || s == "temporary_revolving"@
}

/// Validates a kind of waqf that a category is associated with.
pub fn validate_waqf_type(waqf_type: &String) -> (r: Result<(), CategoryError>)
    ensures
        category_verdict_is(
            r,
            if association_type(waqf_type@) {
                None
            } else {
                Some(CategoryErrorView::InvalidWaqfType(waqf_type@))
            },
        ),
{
    if is_text(waqf_type, "permanent") || is_text(waqf_type, "temporary_consumable") || is_text(
        waqf_type,
        "temporary_revolving",
    ) {
        Ok(())
    } else {
        Err(CategoryError::InvalidWaqfType(waqf_type.clone()))
    }
}

/// The first kind of waqf in a list that is unknown, if any.
pub open spec fn first_unknown_type(types: Seq<Seq<char>>) -> Option<Seq<char>>
    decreases types.len(),
{
    if types.len() == 0 {
        None
    } else if !association_type(types[0]) {
        Some(types[0])
    } else {
        first_unknown_type(types.drop_first())
    }
}

/// The first rule that a category violates, if any: identifier, name,
/// description and icon are given and not too long, the colour is a hex
/// colour where there is one, at least one kind of waqf is associated and
/// each is known, and the timestamps are given.
pub open spec fn category_error(c: CategoryView) -> Option<CategoryErrorView> {
    if is_blank(c.id) {
        Some(CategoryErrorView::CategoryIdRequired)
    } else if utf8_len(c.id) > MAX_ID_LENGTH {
        Some(CategoryErrorView::CategoryIdTooLong)
    } else if is_blank(c.name) {
        Some(CategoryErrorView::CategoryNameRequired)
    } else if utf8_len(c.name) > MAX_NAME_LENGTH {
        Some(CategoryErrorView::CategoryNameTooLong)
    } else if is_blank(c.description) {
        Some(CategoryErrorView::CategoryDescriptionRequired)
    } else if utf8_len(c.description) > MAX_DESCRIPTION_LENGTH {
        Some(CategoryErrorView::CategoryDescriptionTooLong)
    } else if is_blank(c.icon) {
        Some(CategoryErrorView::CategoryIconRequired)
    } else if c.color is Some && c.color->0.len() > 0 && !hex_color(c.color->0) {
        Some(CategoryErrorView::InvalidColor)
    } else if c.associated_waqf_types.len() == 0 {
        Some(CategoryErrorView::WaqfTypeRequired)
    } else if first_unknown_type(c.associated_waqf_types) is Some {
        Some(CategoryErrorView::InvalidWaqfType(first_unknown_type(c.associated_waqf_types)->0))
    } else if is_blank(c.created_at) {
        Some(CategoryErrorView::CreatedAtRequired)
    } else if is_blank(c.updated_at) {
        Some(CategoryErrorView::UpdatedAtRequired)
    } else {
        None
    }
}

fn find_unknown_type(types: &Vec<String>) -> (r: Option<String>)
    ensures
        view_of(r) == first_unknown_type(views_of(types@)),
{
    let ghost all = views_of(types@);
    let mut i: usize = 0;
    assert(all.subrange(0, all.len() as int) =~= all);
    while i < types.len()
        invariant
            i <= types@.len(),
            all == views_of(types@),
            first_unknown_type(all) == first_unknown_type(all.subrange(i as int, all.len() as int)),
        decreases types@.len() - i,
    {
        let ghost rest = all.subrange(i as int, all.len() as int);
        assert(rest[0] == types@[i as int]@);
        assert(rest.drop_first() =~= all.subrange(i as int + 1, all.len() as int));
        match validate_waqf_type(&types[i]) {
            Ok(()) => {},
            Err(_) => {
                return Some(types[i].clone());
            },
        }
        i = i + 1;
    }
    None
}

/// Validates a category.
pub fn validate_category_data(category: &Category) -> (r: Result<(), CategoryError>)
    ensures
        category_verdict_is(r, category_error(category@)),
{
    if is_blank_text(category.id.as_str()) {
        return Err(CategoryError::CategoryIdRequired);
    }
    if category.id.as_str().len() > MAX_ID_LENGTH {
        return Err(CategoryError::CategoryIdTooLong);
    }
    if is_blank_text(category.name.as_str()) {
        return Err(CategoryError::CategoryNameRequired);
    }
    if category.name.as_str().len() > MAX_NAME_LENGTH {
        return Err(CategoryError::CategoryNameTooLong);
    }
    if is_blank_text(category.description.as_str()) {
        return Err(CategoryError::CategoryDescriptionRequired);
    }
    if category.description.as_str().len() > MAX_DESCRIPTION_LENGTH {
        return Err(CategoryError::CategoryDescriptionTooLong);
    }
    if is_blank_text(category.icon.as_str()) {
        return Err(CategoryError::CategoryIconRequired);
    }
    match &category.color {
        Some(color) => {
            if !color.as_str().is_empty() && !is_valid_hex_color(color.as_str()) {
                return Err(CategoryError::InvalidColor);
            }
        },
        None => {},
    }
    if category.associated_waqf_types.len() == 0 {
        return Err(CategoryError::WaqfTypeRequired);
    }
    match find_unknown_type(&category.associated_waqf_types) {
        Some(unknown) => {
            return Err(CategoryError::InvalidWaqfType(unknown));
        },
        None => {},
    }
    if is_blank_text(category.created_at.as_str()) {
        return Err(CategoryError::CreatedAtRequired);
    }
    if is_blank_text(category.updated_at.as_str()) {
        return Err(CategoryError::UpdatedAtRequired);
    }
    Ok(())
}

/// Whether some example of a list is longer than a name may be.
pub open spec fn has_long_example(examples: Seq<Seq<char>>) -> bool {
    exists|i: int| 0 <= i < examples.len() && utf8_len(#[trigger] examples[i]) > MAX_NAME_LENGTH
}

/// The first rule that a subcategory violates, if any: identifier, parent,
/// name, description and icon are given and not too long, no example is too
/// long, and the timestamps are given.
pub open spec fn subcategory_error(c: SubcategoryView) -> Option<CategoryErrorView> {
    if is_blank(c.id) {
        Some(CategoryErrorView::SubcategoryIdRequired)
    } else if utf8_len(c.id) > MAX_ID_LENGTH {
        Some(CategoryErrorView::SubcategoryIdTooLong)
    } else if is_blank(c.category_id) {
        Some(CategoryErrorView::ParentRequired)
    } else if is_blank(c.name) {
        Some(CategoryErrorView::SubcategoryNameRequired)
    } else if utf8_len(c.name) > MAX_NAME_LENGTH {
        Some(CategoryErrorView::SubcategoryNameTooLong)
    } else if is_blank(c.description) {
        Some(CategoryErrorView::SubcategoryDescriptionRequired)
    } else if utf8_len(c.description) > MAX_DESCRIPTION_LENGTH {
        Some(CategoryErrorView::SubcategoryDescriptionTooLong)
    } else if is_blank(c.icon) {
        Some(CategoryErrorView::SubcategoryIconRequired)
    } else if has_long_example(c.examples) {
        Some(CategoryErrorView::ExampleTooLong)
    } else if is_blank(c.created_at) {
        Some(CategoryErrorView::CreatedAtRequired)
    } else if is_blank(c.updated_at) {
        Some(CategoryErrorView::UpdatedAtRequired)
    } else {
        None
    }
}

fn any_long_example(examples: &Vec<String>) -> (r: bool)
    ensures
        r == has_long_example(views_of(examples@)),
{
    let mut i: usize = 0;
    while i < examples.len()
        invariant
            i <= examples@.len(),
            forall|j: int|
                0 <= j < i ==> utf8_len(#[trigger] views_of(examples@)[j]) <= MAX_NAME_LENGTH,
        decreases examples@.len() - i,
    {
        if examples[i].as_str().len() > MAX_NAME_LENGTH {
            assert(utf8_len(views_of(examples@)[i as int]) > MAX_NAME_LENGTH);
            return true;
        }
        i = i + 1;
    }
    false
}

/// Validates a subcategory.
pub fn validate_subcategory_data(subcategory: &Subcategory) -> (r: Result<(), CategoryError>)
    ensures
        category_verdict_is(r, subcategory_error(subcategory@)),
{
    if is_blank_text(subcategory.id.as_str()) {
        return Err(CategoryError::SubcategoryIdRequired);
    }
    if subcategory.id.as_str().len() > MAX_ID_LENGTH {
        return Err(CategoryError::SubcategoryIdTooLong);
    }
    if is_blank_text(subcategory.category_id.as_str()) {
        return Err(CategoryError::ParentRequired);
    }
    if is_blank_text(subcategory.name.as_str()) {
        return Err(CategoryError::SubcategoryNameRequired);
    }
    if subcategory.name.as_str().len() > MAX_NAME_LENGTH {
        return Err(CategoryError::SubcategoryNameTooLong);
    }
    if is_blank_text(subcategory.description.as_str()) {
        return Err(CategoryError::SubcategoryDescriptionRequired);
    }
    if subcategory.description.as_str().len() > MAX_DESCRIPTION_LENGTH {
        return Err(CategoryError::SubcategoryDescriptionTooLong);
    }
    if is_blank_text(subcategory.icon.as_str()) {
        return Err(CategoryError::SubcategoryIconRequired);
    }
    if any_long_example(&subcategory.examples) {
        return Err(CategoryError::ExampleTooLong);
    }
    if is_blank_text(subcategory.created_at.as_str()) {
        return Err(CategoryError::CreatedAtRequired);
    }
    if is_blank_text(subcategory.updated_at.as_str()) {
        return Err(CategoryError::UpdatedAtRequired);
    }
    Ok(())
}

/// Checks a proposed write to the collection of categories.
pub fn assert_category_operations(category: &Category) -> (r: Result<(), CategoryError>)
    ensures
        category_verdict_is(r, category_error(category@)),
{
    validate_category_data(category)
}

/// Checks a proposed write to the collection of subcategories.
pub fn assert_subcategory_operations(subcategory: &Subcategory) -> (r: Result<(), CategoryError>)
    ensures
        category_verdict_is(r, subcategory_error(subcategory@)),
{
    validate_subcategory_data(subcategory)
}

/// Checks the deletion of a category: there must be one to delete.
pub fn assert_category_deletion(current: Option<&Category>) -> (r: Result<(), CategoryError>)
    ensures
        category_verdict_is(
            r,
            if current is None {
                Some(CategoryErrorView::NoCurrentDocument)
            } else {
                None
            },
        ),
{
    match current {
        Some(_) => Ok(()),
        None => Err(CategoryError::NoCurrentDocument),
    }
}

/// Checks the deletion of a subcategory: there must be one to delete.
pub fn assert_subcategory_deletion(current: Option<&Subcategory>) -> (r: Result<(), CategoryError>)
    ensures
        category_verdict_is(
            r,
            if current is None {
                Some(CategoryErrorView::NoCurrentDocument)
            } else {
                None
            },
        ),
{
    match current {
        Some(_) => Ok(()),
        None => Err(CategoryError::NoCurrentDocument),
    }
}

} // verus!
