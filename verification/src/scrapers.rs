//! The refresh plan: which pages a refresh fetches, and how the responses
//! become allergens and meals.
//!
//! The library never touches the network. It names the pages, takes the
//! responses, in the order of the plan, and turns them into records. Whoever
//! fetches may do so in any order and all at once.

use vstd::prelude::*;
use crate::error::{FetchError, FetchErrorView};
use crate::model::{Allergen, AllergenView, Language, LanguageView, Location, Meal, MealView};
use crate::number::{digits_of, spec_digits};
use crate::parser::{
    all_well_formed, parse_allergens, parse_meals, spec_parse_allergens, spec_parse_meals,
};
use crate::text::{chars_of, same_text, string_of};
use crate::views::result_view;

verus! {

/// One of the locations serves the page of `location`.
pub open spec fn serves_page(locations: Seq<Location>, location: Location) -> bool {
    exists|i: int| 0 <= i < locations.len() && (#[trigger] locations[i]).same_page(location)
}

/// The locations with one location for each page: of the locations that
/// share a page, the first stays.
pub open spec fn spec_unique_pages(locations: Seq<Location>) -> Seq<Location>
    decreases locations.len(),
{
    if locations.len() == 0 {
        Seq::empty()
    } else {
        let before = spec_unique_pages(locations.drop_last());
        if serves_page(before, locations.last()) {
            before
        } else {
            before.push(locations.last())
        }
    }
}

/// Whether one of the locations serves the page of `location`.
pub fn has_page(locations: &Vec<Location>, location: Location) -> (served: bool)
    ensures
        served == serves_page(locations@, location),
{
    let mut i: usize = 0;
    while i < locations.len()
        invariant
            i <= locations.len(),
            forall|k: int| 0 <= k < i ==> !(#[trigger] locations@[k]).same_page(location),
        decreases locations.len() - i,
    {
        let other = locations[i];
        if other.get_mensa_code() == location.get_mensa_code() && other.get_ort_code()
            == location.get_ort_code() {
            assert(locations@[i as int].same_page(location));
            return true;
        }
        i += 1;
    }
    false
}

/// Keeps one location for each page: the first of those that share it.
pub fn unique_pages(locations: &Vec<Location>) -> (unique: Vec<Location>)
    ensures
        unique@ == spec_unique_pages(locations@),
{
    let mut unique: Vec<Location> = Vec::new();
    let mut i: usize = 0;
    assert(locations@.take(0) =~= Seq::<Location>::empty());
    while i < locations.len()
        invariant
            i <= locations.len(),
            unique@ == spec_unique_pages(locations@.take(i as int)),
        decreases locations.len() - i,
    {
        assert(locations@.take(i + 1).drop_last() =~= locations@.take(i as int));
        if !has_page(&unique, locations[i]) {
            unique.push(locations[i]);
        }
        i += 1;
    }
    assert(locations@.take(i as int) =~= locations@);
    unique
}

/// One menu page of a refresh: a week, counted from the current one, a page
/// of the upstream site, named by a location that it serves, and a language.
#[derive(Debug, PartialEq, Eq)]
pub struct Combination {
    pub week: usize,
    pub location: Location,
    pub language: Language,
}

/// The mathematical content of a [`Combination`].
pub struct CombinationView {
    pub week: nat,
    pub location: Location,
    pub language: LanguageView,
}

impl View for Combination {
    type V = CombinationView;

    open spec fn view(&self) -> CombinationView {
        CombinationView {
            week: self.week as nat,
            location: self.location,
            language: self.language@,
        }
    }
}

impl DeepView for Combination {
    type V = CombinationView;

    open spec fn deep_view(&self) -> CombinationView {
        self@
    }
}

/// The number of weeks that a refresh covers: the current and the next.
pub const WEEKS: usize = 2;

/// The combinations of one week and one page, one for each language.
pub open spec fn spec_combinations_of_page(
    week: nat,
    location: Location,
    languages: Seq<LanguageView>,
) -> Seq<CombinationView> {
    languages.map_values(|language: LanguageView| CombinationView { week, location, language })
}

/// The combinations of one week, page after page.
pub open spec fn spec_combinations_of_week(
    week: nat,
    locations: Seq<Location>,
    languages: Seq<LanguageView>,
) -> Seq<CombinationView>
    decreases locations.len(),
{
    if locations.len() == 0 {
        Seq::empty()
    } else {
        spec_combinations_of_week(week, locations.drop_last(), languages)
            + spec_combinations_of_page(week, locations.last(), languages)
    }
}

/// The combinations of the first `weeks` weeks, week after week.
pub open spec fn spec_combinations_of_weeks(
    weeks: nat,
    locations: Seq<Location>,
    languages: Seq<LanguageView>,
) -> Seq<CombinationView>
    decreases weeks,
{
    if weeks == 0 {
        Seq::empty()
    } else {
        spec_combinations_of_weeks((weeks - 1) as nat, locations, languages)
            + spec_combinations_of_week((weeks - 1) as nat, locations, languages)
    }
}

/// The menu pages of a refresh, in plan order: every week, and in it every
/// page of the upstream site once, and for it every supported language.
pub open spec fn spec_combinations() -> Seq<CombinationView> {
    spec_combinations_of_weeks(
        WEEKS as nat,
        spec_unique_pages(Location::spec_all()),
        Language::spec_supported(),
    )
}

/// The menu pages of a refresh, in plan order.
pub fn combinations() -> (plan: Vec<Combination>)
    ensures
        plan.deep_view() == spec_combinations(),
{
    let locations = unique_pages(&Location::all());
    let languages = Language::supported();
    let mut plan: Vec<Combination> = Vec::new();
    let mut week: usize = 0;
    assert(plan.deep_view() =~= Seq::<CombinationView>::empty());
    while week < WEEKS
        invariant
            week <= WEEKS,
            locations@ == spec_unique_pages(Location::spec_all()),
            languages.deep_view() == Language::spec_supported(),
            plan.deep_view() == spec_combinations_of_weeks(
                week as nat,
                locations@,
                languages.deep_view(),
            ),
        decreases WEEKS - week,
    {
        let ghost weeks_before = plan.deep_view();
        let mut i: usize = 0;
        assert(locations@.take(0) =~= Seq::<Location>::empty());
        assert(plan.deep_view() =~= weeks_before + Seq::<CombinationView>::empty());
        while i < locations.len()
            invariant
                i <= locations.len(),
                plan.deep_view() == weeks_before + spec_combinations_of_week(
                    week as nat,
                    locations@.take(i as int),
                    languages.deep_view(),
                ),
            decreases locations.len() - i,
        {
            assert(locations@.take(i + 1).drop_last() =~= locations@.take(i as int));
            let ghost pages_before = plan.deep_view();
            let ghost of_page = spec_combinations_of_page(
                week as nat,
                locations@[i as int],
                languages.deep_view(),
            );
            let mut j: usize = 0;
            assert(plan.deep_view() =~= pages_before + of_page.take(0));
            while j < languages.len()
                invariant
                    j <= languages.len(),
                    i < locations.len(),
                    of_page == spec_combinations_of_page(
                        week as nat,
                        locations@[i as int],
                        languages.deep_view(),
                    ),
                    plan.deep_view() == pages_before + of_page.take(j as int),
                decreases languages.len() - j,
            {
                let ghost languages_before = plan.deep_view();
                let combination = Combination {
                    week,
                    location: locations[i],
                    language: languages[j].clone(),
                };
                assert(combination@ == of_page[j as int]);
                plan.push(combination);
                assert(plan.deep_view() =~= languages_before.push(combination@));
                assert(plan.deep_view() =~= pages_before + of_page.take(j + 1));
                j += 1;
            }
            assert(of_page.take(j as int) =~= of_page);
            assert(plan.deep_view() =~= weeks_before + spec_combinations_of_week(
                week as nat,
                locations@.take(i + 1),
                languages.deep_view(),
            ));
            i += 1;
        }
        assert(locations@.take(i as int) =~= locations@);
        week += 1;
    }
    plan
}

/// The path of the menu overview in a language.
pub open spec fn spec_menu_path(code: Seq<char>) -> Seq<char> {
    if code == "en"@ {
        "food-overview"@
    } else {
        "essen-uebersicht"@
    }
}

/// The address of a menu page:
/// `https://studentenwerk.sh/{lang}/{path}?ort={city}&mensa={site}&nw={week}#mensaplan`.
pub open spec fn spec_menu_url(combination: CombinationView) -> Seq<char> {
    "https://studentenwerk.sh/"@ + combination.language.code + "/"@ + spec_menu_path(
        combination.language.code,
    ) + "?ort="@ + spec_digits(combination.location.spec_ort_code() as nat) + "&mensa="@
        + spec_digits(combination.location.spec_mensa_code() as nat) + "&nw="@ + spec_digits(
        combination.week,
    ) + "#mensaplan"@
}

/// The path of the page that carries the allergen catalogue in a language.
pub open spec fn spec_catalog_path(code: Seq<char>) -> Seq<char> {
    if code == "en"@ {
        "canteens-in-luebeck"@
    } else {
        "mensen-in-luebeck"@
    }
}

/// The address of the page that carries the allergen catalogue in a language.
pub open spec fn spec_allergens_url(language: LanguageView) -> Seq<char> {
    "https://studentenwerk.sh/"@ + language.code + "/"@ + spec_catalog_path(language.code)
        + "?ort=3&mensa=8&nw=0#mensaplan"@
}

impl Combination {
    /// The address of the menu page.
    pub fn url(&self) -> (url: String)
        ensures
            url@ == spec_menu_url(self@),
    {
        let mut out = chars_of("https://studentenwerk.sh/");
        let mut code = chars_of(self.language.code.as_str());
        out.append(&mut code);
        let mut slash = chars_of("/");
        out.append(&mut slash);
        let mut path = if same_text(self.language.code.as_str(), "en") {
            chars_of("food-overview")
        } else {
            chars_of("essen-uebersicht")
        };
        out.append(&mut path);
        let mut ort_key = chars_of("?ort=");
        out.append(&mut ort_key);
        let mut ort = digits_of(self.location.get_ort_code() as u64);
        out.append(&mut ort);
        let mut mensa_key = chars_of("&mensa=");
        out.append(&mut mensa_key);
        let mut mensa = digits_of(self.location.get_mensa_code() as u64);
        out.append(&mut mensa);
        let mut week_key = chars_of("&nw=");
        out.append(&mut week_key);
        let mut week = digits_of(self.week as u64);
        out.append(&mut week);
        let mut anchor = chars_of("#mensaplan");
        out.append(&mut anchor);
        string_of(&out)
    }
}

/// The address of the page that carries the allergen catalogue in a language.
pub fn allergens_url(language: &Language) -> (url: String)
    ensures
        url@ == spec_allergens_url(language@),
{
    let mut out = chars_of("https://studentenwerk.sh/");
    let mut code = chars_of(language.code.as_str());
    out.append(&mut code);
    let mut slash = chars_of("/");
    out.append(&mut slash);
    let mut path = if same_text(language.code.as_str(), "en") {
        chars_of("canteens-in-luebeck")
    } else {
        chars_of("mensen-in-luebeck")
    };
    out.append(&mut path);
    let mut query = chars_of("?ort=3&mensa=8&nw=0#mensaplan");
    out.append(&mut query);
    string_of(&out)
}

/// The addresses of the catalogue pages of a refresh, one for each supported
/// language, in the order of the languages.
pub open spec fn spec_allergen_urls() -> Seq<Seq<char>> {
    Language::spec_supported().map_values(|language: LanguageView| spec_allergens_url(language))
}

/// The addresses of the menu pages of a refresh, in plan order.
pub open spec fn spec_meal_urls() -> Seq<Seq<char>> {
    spec_combinations().map_values(|combination: CombinationView| spec_menu_url(combination))
}

/// The addresses of the catalogue pages of a refresh.
pub fn allergen_urls() -> (urls: Vec<String>)
    ensures
        urls.deep_view() == spec_allergen_urls(),
{
    let languages = Language::supported();
    let mut urls: Vec<String> = Vec::new();
    let mut i: usize = 0;
    while i < languages.len()
        invariant
            i <= languages.len(),
            urls@.len() == i,
            languages.deep_view() == Language::spec_supported(),
            forall|k: int| 0 <= k < i ==> (#[trigger] urls@[k])@ == spec_allergens_url(
                languages@[k]@,
            ),
        decreases languages.len() - i,
    {
        urls.push(allergens_url(&languages[i]));
        i += 1;
    }
    assert(urls.deep_view() =~= spec_allergen_urls()) by {
        assert forall|k: int| 0 <= k < urls.deep_view().len() implies urls.deep_view()[k]
            == spec_allergen_urls()[k] by {
            assert(languages.deep_view()[k] == languages@[k]@);
        }
    }
    urls
}

/// The addresses of the menu pages of a refresh, in plan order.
pub fn meal_urls() -> (urls: Vec<String>)
    ensures
        urls.deep_view() == spec_meal_urls(),
{
    let plan = combinations();
    let mut urls: Vec<String> = Vec::new();
    let mut i: usize = 0;
    while i < plan.len()
        invariant
            i <= plan.len(),
            urls@.len() == i,
            plan.deep_view() == spec_combinations(),
            forall|k: int| 0 <= k < i ==> (#[trigger] urls@[k])@ == spec_menu_url(plan@[k]@),
        decreases plan.len() - i,
    {
        urls.push(plan[i].url());
        i += 1;
    }
    assert(urls.deep_view() =~= spec_meal_urls()) by {
        assert forall|k: int| 0 <= k < urls.deep_view().len() implies urls.deep_view()[k]
            == spec_meal_urls()[k] by {
            assert(plan.deep_view()[k] == plan@[k]@);
        }
    }
    urls
}

/// What came back for one page: its text, or why there is none.
pub type Response = Result<String, FetchError>;

/// The mathematical content of a list of responses.
pub open spec fn responses_view(responses: Seq<Response>) -> Seq<Result<Seq<char>, FetchErrorView>> {
    Seq::new(responses.len(), |i: int| result_view(responses[i]))
}

/// The response for the page at `index` of a plan; a plan that is longer than
/// the list of responses is incomplete from there on.
pub open spec fn spec_response_at(
    responses: Seq<Result<Seq<char>, FetchErrorView>>,
    index: int,
) -> Result<Seq<char>, FetchErrorView> {
    if 0 <= index < responses.len() {
        responses[index]
    } else {
        Err(FetchErrorView::Incomplete)
    }
}

/// The catalogue of all languages, language after language: the response at
/// the place of each language is parsed in that language. The first page that
/// is missing, failed to come back or does not parse gives the error.
pub open spec fn spec_allergens_of_responses(
    languages: Seq<LanguageView>,
    responses: Seq<Result<Seq<char>, FetchErrorView>>,
) -> Result<Seq<AllergenView>, FetchErrorView>
    decreases languages.len(),
{
    if languages.len() == 0 {
        Ok(Seq::empty())
    } else {
        match spec_allergens_of_responses(languages.drop_last(), responses) {
            Err(error) => Err(error),
            Ok(before) => match spec_response_at(responses, languages.len() - 1) {
                Err(error) => Err(error),
                Ok(html) => match spec_parse_allergens(html, languages.last()) {
                    Err(error) => Err(FetchErrorView::Parse(error)),
                    Ok(found) => Ok(before + found),
                },
            },
        }
    }
}

/// The meals of a refresh, page after page in plan order: the response at
/// the place of each combination is parsed for its location and language.
/// The first page that is missing, failed to come back or does not parse
/// gives the error.
pub open spec fn spec_meals_of_responses(
    plan: Seq<CombinationView>,
    responses: Seq<Result<Seq<char>, FetchErrorView>>,
    catalog: Seq<AllergenView>,
) -> Result<Seq<MealView>, FetchErrorView>
    decreases plan.len(),
{
    if plan.len() == 0 {
        Ok(Seq::empty())
    } else {
        match spec_meals_of_responses(plan.drop_last(), responses, catalog) {
            Err(error) => Err(error),
            Ok(before) => match spec_response_at(responses, plan.len() - 1) {
                Err(error) => Err(error),
                Ok(html) => match spec_parse_meals(
                    html,
                    plan.last().location,
                    plan.last().language,
                    catalog,
                ) {
                    Err(error) => Err(FetchErrorView::Parse(error)),
                    Ok(found) => Ok(before + found),
                },
            },
        }
    }
}

/// Once the pages of a prefix of the languages have given an error, the whole
/// gives that error.
pub proof fn lemma_first_allergen_error_stays(
    languages: Seq<LanguageView>,
    k: int,
    responses: Seq<Result<Seq<char>, FetchErrorView>>,
)
    requires
        0 <= k <= languages.len(),
    ensures
        spec_allergens_of_responses(languages.take(k), responses) is Err
            ==> spec_allergens_of_responses(languages, responses) == spec_allergens_of_responses(
            languages.take(k),
            responses,
        ),
    decreases languages.len() - k,
{
    if k == languages.len() {
        assert(languages.take(k) =~= languages);
    } else {
        assert(languages.drop_last().take(k) =~= languages.take(k));
        lemma_first_allergen_error_stays(languages.drop_last(), k, responses);
    }
}

/// Once the pages of a prefix of the plan have given an error, the whole
/// gives that error.
pub proof fn lemma_first_meal_error_stays(
    plan: Seq<CombinationView>,
    k: int,
    responses: Seq<Result<Seq<char>, FetchErrorView>>,
    catalog: Seq<AllergenView>,
)
    requires
        0 <= k <= plan.len(),
    ensures
        spec_meals_of_responses(plan.take(k), responses, catalog) is Err
            ==> spec_meals_of_responses(plan, responses, catalog) == spec_meals_of_responses(
            plan.take(k),
            responses,
            catalog,
        ),
    decreases plan.len() - k,
{
    if k == plan.len() {
        assert(plan.take(k) =~= plan);
    } else {
        assert(plan.drop_last().take(k) =~= plan.take(k));
        lemma_first_meal_error_stays(plan.drop_last(), k, responses, catalog);
    }
}

/// Builds the catalogue of all languages from the responses for the
/// catalogue pages, which stand in the order of [`allergen_urls`].
pub fn allergens_of_responses(responses: &Vec<Response>) -> (allergens: Result<
    Vec<Allergen>,
    FetchError,
>)
    ensures
        result_view(allergens) == spec_allergens_of_responses(
            Language::spec_supported(),
            responses_view(responses@),
        ),
{
    let languages = Language::supported();
    let mut allergens: Vec<Allergen> = Vec::new();
    let mut i: usize = 0;
    let ghost all = languages.deep_view();
    let ghost given = responses_view(responses@);
    assert(all.take(0) =~= Seq::<LanguageView>::empty());
    assert(allergens.deep_view() =~= Seq::<AllergenView>::empty());
    while i < languages.len()
        invariant
            i <= languages.len(),
            all == languages.deep_view(),
            all == Language::spec_supported(),
            given == responses_view(responses@),
            Ok::<Seq<AllergenView>, FetchErrorView>(allergens.deep_view())
                == spec_allergens_of_responses(all.take(i as int), given),
        decreases languages.len() - i,
    {
        let ghost before = allergens.deep_view();
        proof {
            assert(all.take(i + 1).drop_last() =~= all.take(i as int));
            assert(all.take(i + 1).last() == languages@[i as int]@);
            lemma_first_allergen_error_stays(all, i + 1, given);
        }
        if i >= responses.len() {
            return Err(FetchError::Incomplete);
        }
        assert(given[i as int] == result_view(responses@[i as int]));
        match &responses[i] {
            Err(error) => {
                return Err(error.clone());
            },
            Ok(html) => match parse_allergens(html.as_str(), &languages[i]) {
                Err(error) => {
                    return Err(FetchError::Parse(error));
                },
                Ok(mut found) => {
                    let ghost added = found.deep_view();
                    allergens.append(&mut found);
                    assert(allergens.deep_view() =~= before + added);
                },
            },
        }
        i += 1;
    }
    assert(all.take(i as int) =~= all);
    Ok(allergens)
}

/// Builds the meals of a refresh from the responses for the menu pages, which
/// stand in the order of [`meal_urls`].
pub fn meals_of_responses(responses: &Vec<Response>, allergens: &Vec<Allergen>) -> (meals: Result<
    Vec<Meal>,
    FetchError,
>)
    ensures
        result_view(meals) == spec_meals_of_responses(
            spec_combinations(),
            responses_view(responses@),
            allergens.deep_view(),
        ),
        meals matches Ok(built) ==> all_well_formed(built.deep_view()),
{
    let plan = combinations();
    let mut meals: Vec<Meal> = Vec::new();
    let mut i: usize = 0;
    let ghost all = plan.deep_view();
    let ghost given = responses_view(responses@);
    assert(all.take(0) =~= Seq::<CombinationView>::empty());
    assert(meals.deep_view() =~= Seq::<MealView>::empty());
    while i < plan.len()
        invariant
            i <= plan.len(),
            all == plan.deep_view(),
            all == spec_combinations(),
            given == responses_view(responses@),
            Ok::<Seq<MealView>, FetchErrorView>(meals.deep_view()) == spec_meals_of_responses(
                all.take(i as int),
                given,
                allergens.deep_view(),
            ),
            all_well_formed(meals.deep_view()),
        decreases plan.len() - i,
    {
        let ghost before = meals.deep_view();
        proof {
            assert(all.take(i + 1).drop_last() =~= all.take(i as int));
            assert(all.take(i + 1).last() == plan@[i as int]@);
            lemma_first_meal_error_stays(all, i + 1, given, allergens.deep_view());
        }
        if i >= responses.len() {
            return Err(FetchError::Incomplete);
        }
        assert(given[i as int] == result_view(responses@[i as int]));
        match &responses[i] {
            Err(error) => {
                return Err(error.clone());
            },
            Ok(html) => match parse_meals(
                html.as_str(),
                plan[i].location,
                &plan[i].language,
                allergens,
            ) {
                Err(error) => {
                    return Err(FetchError::Parse(error));
                },
                Ok(mut found) => {
                    let ghost added = found.deep_view();
                    meals.append(&mut found);
                    assert(meals.deep_view() =~= before + added);
                },
            },
        }
        i += 1;
    }
    assert(all.take(i as int) =~= all);
    Ok(meals)
}

/// The response is what `fetch` gave when asked for the address.
pub open spec fn answered<F: Fn(String) -> Response>(
    fetch: &F,
    address: Seq<char>,
    response: Response,
) -> bool {
    exists|url: String| url@ == address && call_ensures(*fetch, (url,), response)
}

/// The responses are what `fetch` gave for the addresses, one for each
/// address and in their order.
pub open spec fn answers<F: Fn(String) -> Response>(
    fetch: &F,
    urls: Seq<Seq<char>>,
    responses: Seq<Response>,
) -> bool {
    &&& responses.len() == urls.len()
    &&& forall|i: int| 0 <= i < urls.len() ==> #[trigger] answered(fetch, urls[i], responses[i])
}

/// Fetches every address once, in order, and keeps what came back.
pub fn fetch_pages<F: Fn(String) -> Response>(fetch: &F, urls: &Vec<String>) -> (responses: Vec<
    Response,
>)
    requires
        forall|url: String| call_requires(*fetch, (url,)),
    ensures
        answers(fetch, urls.deep_view(), responses@),
{
    let mut responses: Vec<Response> = Vec::new();
    let mut i: usize = 0;
    while i < urls.len()
        invariant
            i <= urls.len(),
            forall|url: String| call_requires(*fetch, (url,)),
            answers(fetch, urls.deep_view().take(i as int), responses@),
        decreases urls.len() - i,
    {
        let ghost before = responses@;
        let url = urls[i].clone();
        let response = fetch(url);
        responses.push(response);
        assert forall|k: int| 0 <= k < i + 1 implies #[trigger] answered(
            fetch,
            urls.deep_view().take(i + 1)[k],
            responses@[k],
        ) by {
            if k < i {
                assert(answered(fetch, urls.deep_view().take(i as int)[k], before[k]));
            } else {
                assert(url@ == urls.deep_view().take(i + 1)[k]);
                assert(call_ensures(*fetch, (url,), responses@[k]));
            }
        }
        i += 1;
    }
    assert(urls.deep_view().take(i as int) =~= urls.deep_view());
    responses
}

/// Fetches the catalogue pages through `fetch` and builds the catalogue of
/// all languages.
///
/// Each catalogue page is asked for once. The outcome is that of
/// [`allergens_of_responses`] on what came back.
pub fn scrape_allergens<F: Fn(String) -> Response>(fetch: &F) -> (allergens: Result<
    Vec<Allergen>,
    FetchError,
>)
    requires
        forall|url: String| call_requires(*fetch, (url,)),
    ensures
        exists|responses: Seq<Response>|
            answers(fetch, spec_allergen_urls(), responses) && result_view(allergens)
                == spec_allergens_of_responses(
                Language::spec_supported(),
                #[trigger] responses_view(responses),
            ),
{
    let urls = allergen_urls();
    let responses = fetch_pages(fetch, &urls);
    allergens_of_responses(&responses)
}

/// Fetches the menu pages through `fetch` and builds the meals of a refresh.
///
/// Each page of the plan is asked for once. The outcome is that of
/// [`meals_of_responses`] on what came back.
pub fn scrape_meals<F: Fn(String) -> Response>(fetch: &F, allergens: &Vec<Allergen>) -> (meals:
    Result<Vec<Meal>, FetchError>)
    requires
        forall|url: String| call_requires(*fetch, (url,)),
    ensures
        exists|responses: Seq<Response>|
            answers(fetch, spec_meal_urls(), responses) && result_view(meals)
                == spec_meals_of_responses(
                spec_combinations(),
                #[trigger] responses_view(responses),
                allergens.deep_view(),
            ),
        meals matches Ok(built) ==> all_well_formed(built.deep_view()),
{
    let urls = meal_urls();
    let responses = fetch_pages(fetch, &urls);
    meals_of_responses(&responses, allergens)
}

/// No two of the pages that are kept are the same page.
pub proof fn lemma_unique_pages_differ(locations: Seq<Location>, i: int, j: int)
    requires
        0 <= i < j < spec_unique_pages(locations).len(),
    ensures
        !spec_unique_pages(locations)[i].same_page(spec_unique_pages(locations)[j]),
    decreases locations.len(),
{
    if locations.len() > 0 {
        let before = spec_unique_pages(locations.drop_last());
        if j < before.len() {
            lemma_unique_pages_differ(locations.drop_last(), i, j);
        } else {
            assert(!serves_page(before, locations.last()));
            assert(before[i].same_page(locations.last()) ==> serves_page(
                before,
                locations.last(),
            ));
        }
    }
}

/// The page of every location is among the pages that are kept.
pub proof fn lemma_unique_pages_cover(locations: Seq<Location>, k: int)
    requires
        0 <= k < locations.len(),
    ensures
        serves_page(spec_unique_pages(locations), locations[k]),
    decreases locations.len(),
{
    let before = spec_unique_pages(locations.drop_last());
    let kept = spec_unique_pages(locations);
    if k < locations.len() - 1 {
        lemma_unique_pages_cover(locations.drop_last(), k);
        let i = choose|i: int|
            0 <= i < before.len() && (#[trigger] before[i]).same_page(locations.drop_last()[k]);
        assert(kept[i] == before[i]);
        assert(kept[i].same_page(locations[k]));
    } else if !serves_page(before, locations.last()) {
        assert(kept[before.len() as int].same_page(locations[k]));
    } else {
        let i = choose|i: int|
            0 <= i < before.len() && (#[trigger] before[i]).same_page(locations.last());
        assert(kept[i].same_page(locations[k]));
    }
}

/// No value stands at two places of the sequence.
pub open spec fn no_repeats<T>(s: Seq<T>) -> bool {
    forall|i: int, j: int| 0 <= i < j < s.len() ==> s[i] != s[j]
}

/// The combinations of one week name that week and one of the locations.
pub proof fn lemma_week_entries(
    week: nat,
    locations: Seq<Location>,
    languages: Seq<LanguageView>,
    i: int,
)
    requires
        0 <= i < spec_combinations_of_week(week, locations, languages).len(),
    ensures
        spec_combinations_of_week(week, locations, languages)[i].week == week,
        locations.contains(spec_combinations_of_week(week, locations, languages)[i].location),
    decreases locations.len(),
{
    if locations.len() > 0 {
        let before = spec_combinations_of_week(week, locations.drop_last(), languages);
        if i < before.len() {
            lemma_week_entries(week, locations.drop_last(), languages, i);
            let found = before[i].location;
            let k = choose|k: int|
                0 <= k < locations.drop_last().len() && locations.drop_last()[k] == found;
            assert(locations[k] == found);
        } else {
            assert(locations[locations.len() - 1] == locations.last());
        }
    }
}

/// No combination occurs twice among those of one week, where no location
/// and no language is named twice.
pub proof fn lemma_week_has_no_repeats(
    week: nat,
    locations: Seq<Location>,
    languages: Seq<LanguageView>,
)
    requires
        no_repeats(locations),
        no_repeats(languages),
    ensures
        no_repeats(spec_combinations_of_week(week, locations, languages)),
    decreases locations.len(),
{
    if locations.len() > 0 {
        let shorter = locations.drop_last();
        let before = spec_combinations_of_week(week, shorter, languages);
        let of_page = spec_combinations_of_page(week, locations.last(), languages);
        let all = spec_combinations_of_week(week, locations, languages);
        assert(no_repeats(shorter)) by {
            assert forall|i: int, j: int| 0 <= i < j < shorter.len() implies shorter[i]
                != shorter[j] by {
                assert(shorter[i] == locations[i] && shorter[j] == locations[j]);
            }
        }
        lemma_week_has_no_repeats(week, shorter, languages);
        assert forall|i: int, j: int| 0 <= i < j < all.len() implies all[i] != all[j] by {
            if j < before.len() {
                assert(all[i] == before[i] && all[j] == before[j]);
            } else if i >= before.len() {
                assert(all[i] == of_page[i - before.len()]);
                assert(all[j] == of_page[j - before.len()]);
                assert(languages[i - before.len()] != languages[j - before.len()]);
            } else {
                lemma_week_entries(week, shorter, languages, i);
                assert(all[i] == before[i]);
                assert(all[j] == of_page[j - before.len()]);
                let k = choose|k: int| 0 <= k < shorter.len() && shorter[k] == before[i].location;
                assert(locations[k] != locations[locations.len() - 1]);
            }
        }
    }
}

/// The combinations of the first weeks name one of those weeks.
pub proof fn lemma_weeks_entries(
    weeks: nat,
    locations: Seq<Location>,
    languages: Seq<LanguageView>,
    i: int,
)
    requires
        0 <= i < spec_combinations_of_weeks(weeks, locations, languages).len(),
    ensures
        spec_combinations_of_weeks(weeks, locations, languages)[i].week < weeks,
    decreases weeks,
{
    if weeks > 0 {
        let before = spec_combinations_of_weeks((weeks - 1) as nat, locations, languages);
        if i < before.len() {
            lemma_weeks_entries((weeks - 1) as nat, locations, languages, i);
        } else {
            lemma_week_entries((weeks - 1) as nat, locations, languages, i - before.len());
        }
    }
}

/// No combination occurs twice among those of the first weeks, where no
/// location and no language is named twice.
pub proof fn lemma_weeks_have_no_repeats(
    weeks: nat,
    locations: Seq<Location>,
    languages: Seq<LanguageView>,
)
    requires
        no_repeats(locations),
        no_repeats(languages),
    ensures
        no_repeats(spec_combinations_of_weeks(weeks, locations, languages)),
    decreases weeks,
{
    if weeks > 0 {
        let last = (weeks - 1) as nat;
        let before = spec_combinations_of_weeks(last, locations, languages);
        let of_week = spec_combinations_of_week(last, locations, languages);
        let all = spec_combinations_of_weeks(weeks, locations, languages);
        lemma_weeks_have_no_repeats(last, locations, languages);
        lemma_week_has_no_repeats(last, locations, languages);
        assert forall|i: int, j: int| 0 <= i < j < all.len() implies all[i] != all[j] by {
            if j < before.len() {
                assert(all[i] == before[i] && all[j] == before[j]);
            } else if i >= before.len() {
                assert(all[i] == of_week[i - before.len()]);
                assert(all[j] == of_week[j - before.len()]);
            } else {
                lemma_weeks_entries(last, locations, languages, i);
                lemma_week_entries(last, locations, languages, j - before.len());
                assert(all[i] == before[i]);
                assert(all[j] == of_week[j - before.len()]);
            }
        }
    }
}

/// The plan of a refresh names no page twice: no two of its combinations
/// agree in week, page and language, and no two of them name locations that
/// share a page unless they differ in week or language.
pub proof fn lemma_plan_has_no_repeats()
    ensures
        no_repeats(spec_combinations()),
        no_repeats(spec_unique_pages(Location::spec_all())),
        forall|i: int, j: int|
            0 <= i < j < spec_unique_pages(Location::spec_all()).len() ==> !spec_unique_pages(
                Location::spec_all(),
            )[i].same_page(spec_unique_pages(Location::spec_all())[j]),
{
    let pages = spec_unique_pages(Location::spec_all());
    assert forall|i: int, j: int| 0 <= i < j < pages.len() implies !(#[trigger] pages[i]).same_page(
        #[trigger] pages[j],
    ) by {
        lemma_unique_pages_differ(Location::spec_all(), i, j);
    }
    assert(no_repeats(pages));
    let languages = Language::spec_supported();
    assert(no_repeats(languages)) by {
        reveal_strlit("de");
        reveal_strlit("en");
        assert(languages[0].code.len() == 2 && languages[1].code.len() == 2);
        assert(languages[0].code[0] == 'd');
        assert(languages[1].code[0] == 'e');
    }
    lemma_weeks_have_no_repeats(WEEKS as nat, pages, languages);
}

} // verus!
