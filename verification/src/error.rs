//! The errors of parsing a page and of refreshing the data.

use vstd::prelude::*;

verus! {

/// A piece of a page that the parser cannot do without.
#[derive(Debug, Clone, Copy, PartialEq, Eq, Structural)]
pub enum Element {
    /// The element that holds the name of a meal.
    MealName,
    /// The category marker that tells canteen from cafeteria on a shared page.
    MenuLocation,
    /// The attribute that lists the allergen codes of a meal.
    AllergenAttribute,
    /// The date attribute of a day header.
    Date,
    /// The element that holds the prices of a meal.
    Price,
    /// The container of the allergen catalogue.
    AllergenCatalog,
}

impl Element {
    /// The message for each missing piece.
    pub open spec fn spec_description(self) -> Seq<char> {
        match self {
            Element::MealName => "Failed to select meal name element"@,
            Element::MenuLocation => "Failed to select menu location"@,
            Element::AllergenAttribute => "Failed to get allergen attr"@,
            Element::Date => "Failed to extract date info"@,
            Element::Price => "Failed to select price element"@,
            Element::AllergenCatalog => "Failed to get the allergen parent element"@,
        }
    }

    /// A sentence that says which piece was missing.
    pub fn description(&self) -> (text: String)
        ensures
            text@ == self.spec_description(),
    {
        match self {
            Element::MealName => "Failed to select meal name element".to_owned(),
            Element::MenuLocation => "Failed to select menu location".to_owned(),
            Element::AllergenAttribute => "Failed to get allergen attr".to_owned(),
            Element::Date => "Failed to extract date info".to_owned(),
            Element::Price => "Failed to select price element".to_owned(),
            Element::AllergenCatalog => "Failed to get the allergen parent element".to_owned(),
        }
    }
}

/// Why a page, or a price, could not be parsed.
#[derive(Debug, Clone, Copy, PartialEq, Eq, Structural)]
pub enum ParseError {
    /// A required element or attribute is not on the page.
    MissingElement(Element),
    /// A price text does not hold exactly three amounts.
    MalformedPrice,
    /// A text holds character references that do not decode to text.
    MalformedText,
    /// The selector or pattern engine refused one of the parser's patterns.
    InvalidPattern,
    /// The page is longer than the HTML engine takes.
    PageTooLong,
}

/// Why a refresh failed.
#[derive(Debug, PartialEq, Eq)]
pub enum FetchError {
    /// The request did not complete; the text says why.
    Network(String),
    /// The server answered with a status that is no success.
    Status(u16),
    /// A page came back and could not be parsed.
    Parse(ParseError),
    /// A page that the refresh needs was not among the responses.
    Incomplete,
}

/// The mathematical content of a [`FetchError`].
pub enum FetchErrorView {
    Network(Seq<char>),
    Status(u16),
    Parse(ParseError),
    Incomplete,
}

impl View for FetchError {
    type V = FetchErrorView;

    open spec fn view(&self) -> FetchErrorView {
        match self {
            FetchError::Network(reason) => FetchErrorView::Network(reason@),
            FetchError::Status(code) => FetchErrorView::Status(*code),
            FetchError::Parse(error) => FetchErrorView::Parse(*error),
            FetchError::Incomplete => FetchErrorView::Incomplete,
        }
    }
}

impl DeepView for FetchError {
    type V = FetchErrorView;

    open spec fn deep_view(&self) -> FetchErrorView {
        self@
    }
}

impl Clone for FetchError {
    fn clone(&self) -> (copy: Self)
        ensures
            copy == *self,
    {
        match self {
            FetchError::Network(reason) => FetchError::Network(reason.clone()),
            FetchError::Status(code) => FetchError::Status(*code),
            FetchError::Parse(error) => FetchError::Parse(*error),
            FetchError::Incomplete => FetchError::Incomplete,
        }
    }
}

} // verus!
