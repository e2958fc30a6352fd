//! A snapshot: everything that one refresh brought, complete and unchanging.

use vstd::prelude::*;
use crate::error::{FetchError, FetchErrorView};
use crate::model::{
    APILocation, APILocationView, Allergen, AllergenView, Language, Location, Meal, MealView,
};
use crate::parser::all_well_formed;
use crate::scrapers::{
    allergens_of_responses, answers, fetch_pages, allergen_urls, meal_urls, meals_of_responses,
    responses_view, spec_allergen_urls, spec_allergens_of_responses, spec_combinations,
    spec_meal_urls, spec_meals_of_responses, Response,
};
use crate::views::result_view;

verus! {

/// The records of one refresh: the allergens of all languages, the meals of
/// all pages and the identities of all locations.
#[derive(Debug, PartialEq, Eq)]
pub struct Data {
    allergens: Vec<Allergen>,
    meals: Vec<Meal>,
    locations: Vec<APILocation>,
}

/// The mathematical content of a snapshot.
pub struct DataView {
    pub allergens: Seq<AllergenView>,
    pub meals: Seq<MealView>,
    pub locations: Seq<APILocationView>,
}

impl View for Data {
    type V = DataView;

    closed spec fn view(&self) -> DataView {
        DataView {
            allergens: self.allergens.deep_view(),
            meals: self.meals.deep_view(),
            locations: self.locations.deep_view(),
        }
    }
}

impl DeepView for Data {
    type V = DataView;

    open spec fn deep_view(&self) -> DataView {
        self@
    }
}

/// The snapshot that the responses of a refresh make. The catalogue is built
/// first; where that fails, the menu pages are not looked at.
pub open spec fn spec_data_of_responses(
    allergen_responses: Seq<Result<Seq<char>, FetchErrorView>>,
    meal_responses: Seq<Result<Seq<char>, FetchErrorView>>,
) -> Result<DataView, FetchErrorView> {
    match spec_allergens_of_responses(Language::spec_supported(), allergen_responses) {
        Err(error) => Err(error),
        Ok(allergens) => match spec_meals_of_responses(
            spec_combinations(),
            meal_responses,
            allergens,
        ) {
            Err(error) => Err(error),
            Ok(meals) => Ok(
                DataView { allergens, meals, locations: Location::spec_all_identities() },
            ),
        },
    }
}

/// `data` is what a refresh through `fetch` brings: the outcome of building
/// a snapshot from what `fetch` gave for the pages of the plan, the menu
/// pages asked for only where the catalogue pages gave a catalogue.
pub open spec fn refreshed_through<F: Fn(String) -> Response>(
    fetch: &F,
    data: Result<Data, FetchError>,
) -> bool {
    exists|allergen_responses: Seq<Response>, meal_responses: Seq<Response>|
        {
            &&& answers(fetch, spec_allergen_urls(), allergen_responses)
            &&& spec_allergens_of_responses(
                Language::spec_supported(),
                responses_view(allergen_responses),
            ) is Ok ==> answers(fetch, spec_meal_urls(), meal_responses)
            &&& result_view(data) == #[trigger] spec_data_of_responses(
                responses_view(allergen_responses),
                responses_view(meal_responses),
            )
        }
}

impl Data {
    /// Every snapshot lists all locations, and all its meals are well formed.
    #[verifier::type_invariant]
    spec fn complete(&self) -> bool {
        &&& self.locations.deep_view() == Location::spec_all_identities()
        &&& all_well_formed(self.meals.deep_view())
    }

    /// Builds a snapshot from the responses of a refresh: those for the
    /// catalogue pages and those for the menu pages, each in plan order.
    ///
    /// There is a snapshot only if every page of the plan came back and
    /// parsed. The first page that did not gives the error, catalogue pages
    /// before menu pages.
    pub fn of_responses(allergen_responses: &Vec<Response>, meal_responses: &Vec<Response>) -> (data:
        Result<Data, FetchError>)
        ensures
            result_view(data) == spec_data_of_responses(
                responses_view(allergen_responses@),
                responses_view(meal_responses@),
            ),
    {
        let allergens = match allergens_of_responses(allergen_responses) {
            Err(error) => {
                return Err(error);
            },
            Ok(allergens) => allergens,
        };
        let meals = match meals_of_responses(meal_responses, &allergens) {
            Err(error) => {
                return Err(error);
            },
            Ok(meals) => meals,
        };
        Ok(Data { allergens, meals, locations: Location::all_identities() })
    }

    /// Fetches the pages of a refresh through `fetch` and builds a snapshot.
    ///
    /// The catalogue pages are asked for first, each once. Only if they give
    /// a catalogue are the menu pages asked for, each once. The outcome is
    /// that of [`Data::of_responses`] on what came back.
    pub fn fetch<F: Fn(String) -> Response>(fetch: &F) -> (data: Result<Data, FetchError>)
        requires
            forall|url: String| call_requires(*fetch, (url,)),
        ensures
            refreshed_through(fetch, data),
    {
        let allergen_responses = fetch_pages(fetch, &allergen_urls());
        let allergens = match allergens_of_responses(&allergen_responses) {
            Err(error) => {
                proof {
                    let none = Seq::<Response>::empty();
                    assert(result_view::<Data, FetchError>(Err(error)) == spec_data_of_responses(
                        responses_view(allergen_responses@),
                        responses_view(none),
                    ));
                }
                return Err(error);
            },
            Ok(allergens) => allergens,
        };
        let meal_responses = fetch_pages(fetch, &meal_urls());
        let data = match meals_of_responses(&meal_responses, &allergens) {
            Err(error) => Err(error),
            Ok(meals) => Ok(Data { allergens, meals, locations: Location::all_identities() }),
        };
        assert(result_view(data) == spec_data_of_responses(
            responses_view(allergen_responses@),
            responses_view(meal_responses@),
        ));
        data
    }

    /// The meals of the snapshot.
    pub fn get_meals(&self) -> (meals: &Vec<Meal>)
        ensures
            meals.deep_view() == self@.meals,
            all_well_formed(meals.deep_view()),
    {
        proof {
            use_type_invariant(self);
        }
        &self.meals
    }

    /// The allergens of the snapshot.
    pub fn get_allergens(&self) -> (allergens: &Vec<Allergen>)
        ensures
            allergens.deep_view() == self@.allergens,
    {
        &self.allergens
    }

    /// The locations of the snapshot: the identities of all locations.
    pub fn get_locations(&self) -> (locations: &Vec<APILocation>)
        ensures
            locations.deep_view() == self@.locations,
            locations.deep_view() == Location::spec_all_identities(),
    {
        proof {
            use_type_invariant(self);
        }
        &self.locations
    }
}

impl Clone for Data {
    fn clone(&self) -> (copy: Self)
        ensures
            copy@ == self@,
    {
        proof {
            use_type_invariant(self);
        }
        let allergens = self.allergens.clone();
        let meals = self.meals.clone();
        let locations = self.locations.clone();
        assert(allergens.deep_view() =~= self.allergens.deep_view());
        assert(meals.deep_view() =~= self.meals.deep_view());
        assert(locations.deep_view() =~= self.locations.deep_view());
        Data { allergens, meals, locations }
    }
}

} // verus!
