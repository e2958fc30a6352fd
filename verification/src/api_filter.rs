//! Filters over the records of a snapshot.
//!
//! Every text constraint of a query is lax on purpose: a record passes when
//! its field occurs somewhere in the text of the constraint, so that one
//! constraint can list several codes.

use vstd::prelude::*;
use crate::model::{
    APILocation, APILocationView, Allergen, AllergenView, Language, Meal, MealView,
};
use crate::text::{chars_of, contains, contains_chars, spec_contains};

verus! {

/// A predicate over records of type `T`, with the means to narrow a list.
pub trait APIFilter<T> {
    /// The records that the filter lets pass.
    spec fn spec_accepts(&self, to_filter: &T) -> bool;

    /// Whether the filter lets the record pass.
    fn accepts(&self, to_filter: &T) -> (accepted: bool)
        ensures
            accepted == self.spec_accepts(to_filter),
    ;

    /// The records of the list that the filter lets pass, in their order.
    fn filter<'a>(&self, to_be_filtered: &'a Vec<T>) -> (kept: Vec<&'a T>)
        ensures
            kept@.map_values(|record: &T| *record) == to_be_filtered@.filter(
                |record: T| self.spec_accepts(&record),
            ),
    {
        let mut kept: Vec<&'a T> = Vec::new();
        let mut i: usize = 0;
        let ghost passes = |record: T| self.spec_accepts(&record);
        proof {
            reveal(Seq::filter);
            assert(to_be_filtered@.take(0) =~= Seq::<T>::empty());
            assert(kept@.map_values(|record: &T| *record) =~= Seq::<T>::empty());
        }
        while i < to_be_filtered.len()
            invariant
                i <= to_be_filtered.len(),
                passes == |record: T| self.spec_accepts(&record),
                kept@.map_values(|record: &T| *record) == to_be_filtered@.take(i as int).filter(
                    passes,
                ),
            decreases to_be_filtered.len() - i,
        {
            let ghost before = kept@.map_values(|record: &T| *record);
            proof {
                reveal(Seq::filter);
                assert(to_be_filtered@.take(i + 1).drop_last() =~= to_be_filtered@.take(i as int));
            }
            let record = &to_be_filtered[i];
            if self.accepts(record) {
                kept.push(record);
                assert(kept@.map_values(|record: &T| *record) =~= before.push(*record));
            }
            i += 1;
        }
        assert(to_be_filtered@.take(i as int) =~= to_be_filtered@);
        kept
    }
}

/// A text constraint lets a field pass where the field occurs in the text of
/// the constraint; no constraint lets every field pass.
pub open spec fn text_passes(constraint: Option<Seq<char>>, field: Seq<char>) -> bool {
    match constraint {
        Some(listed) => spec_contains(listed, field),
        None => true,
    }
}

/// A flag constraint lets a flag pass where the two are equal; no constraint
/// lets both values pass.
pub open spec fn flag_passes(constraint: Option<bool>, flag: bool) -> bool {
    match constraint {
        Some(wanted) => flag == wanted,
        None => true,
    }
}

/// The language constraint of a query, or the code of the default language.
pub open spec fn language_or_default(constraint: Option<Seq<char>>) -> Seq<char> {
    match constraint {
        Some(listed) => listed,
        None => Language::spec_german().code,
    }
}

/// None of the allergens has a code that occurs in the excluded list.
pub open spec fn none_excluded(excluded: Option<Seq<char>>, allergens: Seq<AllergenView>) -> bool {
    match excluded {
        Some(listed) => forall|i: int|
            0 <= i < allergens.len() ==> !spec_contains(listed, (#[trigger] allergens[i]).code),
        None => true,
    }
}

/// Whether a text constraint lets a field pass.
pub fn text_constraint_passes(constraint: &Option<String>, field: &str) -> (passes: bool)
    ensures
        passes == text_passes(constraint.deep_view(), field@),
{
    match constraint {
        Some(listed) => contains(listed.as_str(), field),
        None => true,
    }
}

/// Whether a flag constraint lets a flag pass.
pub fn flag_constraint_passes(constraint: &Option<bool>, flag: bool) -> (passes: bool)
    ensures
        passes == flag_passes(*constraint, flag),
{
    match constraint {
        Some(wanted) => flag == *wanted,
        None => true,
    }
}

/// Whether a language constraint lets a language code pass; where there is no
/// constraint, only the default language passes.
pub fn language_constraint_passes(constraint: &Option<String>, code: &str) -> (passes: bool)
    ensures
        passes == spec_contains(language_or_default(constraint.deep_view()), code@),
{
    match constraint {
        Some(listed) => contains(listed.as_str(), code),
        None => contains(Language::german().code.as_str(), code),
    }
}

/// The constraints of a query for meals.
#[derive(Debug, PartialEq, Eq)]
pub struct MealsQuery {
    pub date: Option<String>,
    pub location: Option<String>,
    pub exclude_allergens: Option<String>,
    pub vegan: Option<bool>,
    pub vegetarian: Option<bool>,
    pub language: Option<String>,
}

/// The mathematical content of a [`MealsQuery`].
pub struct MealsQueryView {
    pub date: Option<Seq<char>>,
    pub location: Option<Seq<char>>,
    pub exclude_allergens: Option<Seq<char>>,
    pub vegan: Option<bool>,
    pub vegetarian: Option<bool>,
    pub language: Option<Seq<char>>,
}

impl View for MealsQuery {
    type V = MealsQueryView;

    open spec fn view(&self) -> MealsQueryView {
        MealsQueryView {
            date: self.date.deep_view(),
            location: self.location.deep_view(),
            exclude_allergens: self.exclude_allergens.deep_view(),
            vegan: self.vegan,
            vegetarian: self.vegetarian,
            language: self.language.deep_view(),
        }
    }
}

/// The meals that a query lets pass: the date and the location code occur
/// in their constraints, no allergen of the meal is excluded, the flags are
/// as asked for, and the language code occurs in the language constraint.
pub open spec fn accepts_meal(query: MealsQueryView, meal: MealView) -> bool {
    &&& text_passes(query.date, meal.date)
    &&& text_passes(query.location, meal.location.code)
    &&& none_excluded(query.exclude_allergens, meal.allergens)
    &&& flag_passes(query.vegan, meal.vegan)
    &&& flag_passes(query.vegetarian, meal.vegetarian)
    &&& spec_contains(language_or_default(query.language), meal.language.code)
}

impl MealsQuery {
    /// Whether none of the allergens is excluded by the query.
    fn excludes_none(&self, allergens: &Vec<Allergen>) -> (none: bool)
        ensures
            none == none_excluded(self.exclude_allergens.deep_view(), allergens.deep_view()),
    {
        match &self.exclude_allergens {
            None => true,
            Some(listed) => {
                let listed_chars = chars_of(listed.as_str());
                let mut i: usize = 0;
                while i < allergens.len()
                    invariant
                        i <= allergens.len(),
                        listed_chars@ == listed@,
                        self.exclude_allergens.deep_view() == Some(listed@),
                        forall|k: int|
                            0 <= k < i ==> !spec_contains(
                                listed@,
                                (#[trigger] allergens.deep_view()[k]).code,
                            ),
                    decreases allergens.len() - i,
                {
                    let code = chars_of(allergens[i].code.as_str());
                    if contains_chars(&listed_chars, &code) {
                        assert(allergens.deep_view().len() == allergens.len());
                        assert(allergens.deep_view()[i as int].code == code@);
                        assert(spec_contains(listed@, allergens.deep_view()[i as int].code));
                        return false;
                    }
                    i += 1;
                }
                true
            },
        }
    }
}

impl APIFilter<Meal> for MealsQuery {
    open spec fn spec_accepts(&self, to_filter: &Meal) -> bool {
        accepts_meal(self@, to_filter@)
    }

    fn accepts(&self, meal: &Meal) -> (accepted: bool) {
        text_constraint_passes(&self.date, meal.date.as_str()) && text_constraint_passes(
            &self.location,
            meal.location.code.as_str(),
        ) && self.excludes_none(&meal.allergens) && flag_constraint_passes(&self.vegan, meal.vegan)
            && flag_constraint_passes(&self.vegetarian, meal.vegetarian)
            && language_constraint_passes(&self.language, meal.language.code.as_str())
    }
}

/// The constraints of a query for allergens.
#[derive(Debug, PartialEq, Eq)]
pub struct AllergensQuery {
    pub code: Option<String>,
    pub name: Option<String>,
    /// Carried for the caller; no allergen is bound to a location.
    pub location: Option<String>,
    pub language: Option<String>,
}

/// The mathematical content of an [`AllergensQuery`].
pub struct AllergensQueryView {
    pub code: Option<Seq<char>>,
    pub name: Option<Seq<char>>,
    pub location: Option<Seq<char>>,
    pub language: Option<Seq<char>>,
}

impl View for AllergensQuery {
    type V = AllergensQueryView;

    open spec fn view(&self) -> AllergensQueryView {
        AllergensQueryView {
            code: self.code.deep_view(),
            name: self.name.deep_view(),
            location: self.location.deep_view(),
            language: self.language.deep_view(),
        }
    }
}

/// The allergens that a query lets pass: code and name occur in their
/// constraints, and the language code occurs in the language constraint.
pub open spec fn accepts_allergen(query: AllergensQueryView, allergen: AllergenView) -> bool {
    &&& text_passes(query.code, allergen.code)
    &&& text_passes(query.name, allergen.name)
    &&& spec_contains(language_or_default(query.language), allergen.language.code)
}

impl APIFilter<Allergen> for AllergensQuery {
    open spec fn spec_accepts(&self, to_filter: &Allergen) -> bool {
        accepts_allergen(self@, to_filter@)
    }

    fn accepts(&self, allergen: &Allergen) -> (accepted: bool) {
        text_constraint_passes(&self.code, allergen.code.as_str()) && text_constraint_passes(
            &self.name,
            allergen.name.as_str(),
        ) && language_constraint_passes(&self.language, allergen.language.code.as_str())
    }
}

/// The constraints of a query for locations.
#[derive(Debug, PartialEq, Eq)]
pub struct LocationsQuery {
    pub code: Option<String>,
    pub name: Option<String>,
    pub city: Option<String>,
}

/// The mathematical content of a [`LocationsQuery`].
pub struct LocationsQueryView {
    pub code: Option<Seq<char>>,
    pub name: Option<Seq<char>>,
    pub city: Option<Seq<char>>,
}

impl View for LocationsQuery {
    type V = LocationsQueryView;

    open spec fn view(&self) -> LocationsQueryView {
        LocationsQueryView {
            code: self.code.deep_view(),
            name: self.name.deep_view(),
            city: self.city.deep_view(),
        }
    }
}

/// The locations that a query lets pass: code, name and city occur in their
/// constraints.
pub open spec fn accepts_location(query: LocationsQueryView, location: APILocationView) -> bool {
    &&& text_passes(query.code, location.code)
    &&& text_passes(query.name, location.name)
    &&& text_passes(query.city, location.city)
}

impl APIFilter<APILocation> for LocationsQuery {
    open spec fn spec_accepts(&self, to_filter: &APILocation) -> bool {
        accepts_location(self@, to_filter@)
    }

    fn accepts(&self, location: &APILocation) -> (accepted: bool) {
        text_constraint_passes(&self.code, location.code.as_str()) && text_constraint_passes(
            &self.name,
            location.name.as_str(),
        ) && text_constraint_passes(&self.city, location.city.as_str())
    }
}

} // verus!
