//! From a page to records: the meals of a menu page and the allergens of a
//! catalogue page.
//!
//! A page is parsed as a whole or not at all: the first meal that lacks a
//! required piece ends the parse of its page with the error of that piece. A
//! price that cannot be read is no such error; the meal then carries the
//! default prices.

use vstd::prelude::*;
use regex::Regex;
use crate::dom::{compile_selector, document, selector_of, spec_document};
use crate::error::{Element, ParseError};
use crate::markup::{decoded_text, meal_name, spec_decoded_text, spec_meal_name};
use crate::model::{
    APILocation, Allergen, AllergenView, Language, LanguageView, Location, Meal, MealView,
};
use crate::page::{
    allergen_entries, day_blocks, spec_allergen_entries, spec_day_blocks, AllergenEntry,
    AllergenEntryView, DayBlock, DayBlockView, MealBlock, MealBlockView, MealPatterns,
};
use crate::price::{spec_parse_prices, Prices};
use crate::text::{chars_of, contains, contains_chars, join, spec_contains, spec_join};
use crate::views::ok_view;

verus! {

/// Whether the dietary kinds of a meal name it vegan.
pub open spec fn spec_is_vegan(kinds: Option<Seq<char>>) -> bool {
    match kinds {
        Some(kinds) => spec_contains(kinds, "vn"@),
        None => false,
    }
}

/// Whether the dietary kinds of a meal name it vegetarian. A vegan meal is
/// vegetarian.
pub open spec fn spec_is_vegetarian(kinds: Option<Seq<char>>) -> bool {
    ||| spec_is_vegan(kinds)
    ||| match kinds {
        Some(kinds) => spec_contains(kinds, "ve"@),
        None => false,
    }
}

/// Whether the dietary kinds of a meal name it vegan.
pub fn is_vegan(kinds: &Option<String>) -> (vegan: bool)
    ensures
        vegan == spec_is_vegan(kinds.deep_view()),
{
    match kinds {
        Some(kinds) => contains(kinds.as_str(), "vn"),
        None => false,
    }
}

/// Whether the dietary kinds of a meal name it vegetarian.
pub fn is_vegetarian(kinds: &Option<String>) -> (vegetarian: bool)
    ensures
        vegetarian == spec_is_vegetarian(kinds.deep_view()),
        spec_is_vegan(kinds.deep_view()) ==> vegetarian,
{
    let marked = match kinds {
        Some(kinds) => contains(kinds.as_str(), "ve"),
        None => false,
    };
    marked || is_vegan(kinds)
}

/// The serving point of a meal. A page that serves one location serves all
/// its meals there. On a shared page the category marker of the meal decides:
/// a canteen keyword sends it to the canteen, anything else to the cafeteria.
pub open spec fn spec_meal_location(requested: Location, category_html: Option<Seq<char>>) -> Result<
    Location,
    ParseError,
> {
    if !requested.spec_is_double() {
        Ok(requested)
    } else {
        match category_html {
            None => Err(ParseError::MissingElement(Element::MenuLocation)),
            Some(html) => if spec_contains(html, "Mensa"@) || spec_contains(html, "Canteen"@) {
                Ok(requested.spec_mensa_option())
            } else {
                Ok(requested.spec_cafeteria_option())
            },
        }
    }
}

/// Resolves the serving point of a meal.
pub fn meal_location(requested: Location, category_html: &Option<String>) -> (location: Result<
    Location,
    ParseError,
>)
    ensures
        location == spec_meal_location(requested, category_html.deep_view()),
{
    if !requested.is_double() {
        return Ok(requested);
    }
    match category_html {
        None => Err(ParseError::MissingElement(Element::MenuLocation)),
        Some(html) => if contains(html.as_str(), "Mensa") || contains(html.as_str(), "Canteen") {
            Ok(requested.get_mensa_option())
        } else {
            Ok(requested.get_cafeteria_option())
        },
    }
}

/// Whether an allergen of the catalogue belongs to a meal: its code occurs
/// somewhere in the raw code list of the meal, and it is in the meal's language.
pub open spec fn belongs_to_meal(raw: Seq<char>, language: LanguageView) -> spec_fn(
    AllergenView,
) -> bool {
    |allergen: AllergenView|
        spec_contains(raw, allergen.code) && allergen.language.code == language.code
}

/// The allergens of a meal: those of the catalogue that belong to it, in the
/// order of the catalogue.
pub open spec fn spec_meal_allergens(
    raw: Seq<char>,
    catalog: Seq<AllergenView>,
    language: LanguageView,
) -> Seq<AllergenView> {
    catalog.filter(belongs_to_meal(raw, language))
}

/// Selects the allergens of a meal from the catalogue.
pub fn meal_allergens(raw: &str, catalog: &Vec<Allergen>, language: &Language) -> (found: Vec<
    Allergen,
>)
    ensures
        found.deep_view() == spec_meal_allergens(raw@, catalog.deep_view(), language@),
{
    let raw_chars = chars_of(raw);
    let mut found: Vec<Allergen> = Vec::new();
    let mut i: usize = 0;
    let ghost all = catalog.deep_view();
    let ghost belongs = belongs_to_meal(raw@, language@);
    proof {
        reveal(Seq::filter);
        assert(all.take(0) =~= Seq::<AllergenView>::empty());
    }
    while i < catalog.len()
        invariant
            i <= catalog.len(),
            all == catalog.deep_view(),
            belongs == belongs_to_meal(raw@, language@),
            raw_chars@ == raw@,
            found.deep_view() == all.take(i as int).filter(belongs),
        decreases catalog.len() - i,
    {
        let allergen = &catalog[i];
        let code = chars_of(allergen.code.as_str());
        let ghost before = found.deep_view();
        proof {
            reveal(Seq::filter);
            assert(all.take(i + 1).drop_last() =~= all.take(i as int));
            assert(all.take(i + 1).last() == allergen@);
        }
        if contains_chars(&raw_chars, &code) && allergen.language.code == language.code {
            found.push(allergen.clone());
            assert(found.deep_view() =~= before.push(allergen@));
        }
        i += 1;
    }
    assert(all.take(i as int) =~= all);
    found
}

/// The prices of a meal, read from the text nodes of its price element. The
/// nodes are joined by slashes and decoded. A text that holds no three
/// amounts gives the default prices.
pub open spec fn spec_meal_price(texts: Seq<Seq<char>>) -> Result<Prices, ParseError> {
    match spec_decoded_text(spec_join(texts, "/"@)) {
        Err(error) => Err(error),
        Ok(text) => match spec_parse_prices(text) {
            Some(prices) => Ok(prices),
            None => Ok(Prices::spec_default()),
        },
    }
}

/// Reads the prices of a meal from the text nodes of its price element.
pub fn meal_price(texts: &Vec<String>) -> (prices: Result<Prices, ParseError>)
    ensures
        prices == spec_meal_price(texts.deep_view()),
{
    let joined = join(texts, "/");
    match decoded_text(joined.as_str()) {
        Err(error) => Err(error),
        Ok(text) => match Prices::parse(text.as_str()) {
            Ok(prices) => Ok(prices),
            Err(_) => Ok(Prices::default()),
        },
    }
}

/// The meal that a block describes, or the first piece that it lacks. The
/// pieces are asked for in this order: name, serving point, allergen list,
/// date, prices.
pub open spec fn spec_meal(
    block: MealBlockView,
    date: Option<Seq<char>>,
    requested: Location,
    language: LanguageView,
    catalog: Seq<AllergenView>,
    tags: Regex,
) -> Result<MealView, ParseError> {
    match block.name_html {
        None => Err(ParseError::MissingElement(Element::MealName)),
        Some(name_html) => match spec_meal_name(name_html, tags) {
            Err(error) => Err(error),
            Ok(name) => match spec_meal_location(requested, block.category_html) {
                Err(error) => Err(error),
                Ok(location) => match (block.allergen_codes, date, block.price_texts) {
                    (None, _, _) => Err(ParseError::MissingElement(Element::AllergenAttribute)),
                    (Some(_), None, _) => Err(ParseError::MissingElement(Element::Date)),
                    (Some(_), Some(_), None) => Err(ParseError::MissingElement(Element::Price)),
                    (Some(raw), Some(date), Some(texts)) => match spec_meal_price(texts) {
                        Err(error) => Err(error),
                        Ok(price) => Ok(
                            MealView {
                                name,
                                date,
                                price,
                                vegan: spec_is_vegan(block.kinds),
                                vegetarian: spec_is_vegetarian(block.kinds),
                                location: location.spec_api_location(),
                                allergens: spec_meal_allergens(raw, catalog, language),
                                language,
                            },
                        ),
                    },
                },
            },
        },
    }
}

/// Builds the meal that a block describes.
pub fn meal_of_block(
    block: &MealBlock,
    date: &Option<String>,
    requested: Location,
    language: &Language,
    catalog: &Vec<Allergen>,
    tags: &Regex,
) -> (meal: Result<Meal, ParseError>)
    ensures
        ok_view(meal) == spec_meal(
            block@,
            date.deep_view(),
            requested,
            language@,
            catalog.deep_view(),
            *tags,
        ),
        meal matches Ok(built) ==> built@.well_formed(),
{
    let name = match &block.name_html {
        None => {
            return Err(ParseError::MissingElement(Element::MealName));
        },
        Some(html) => match meal_name(html.as_str(), tags) {
            Err(error) => {
                return Err(error);
            },
            Ok(name) => name,
        },
    };
    let vegan = is_vegan(&block.kinds);
    let vegetarian = is_vegetarian(&block.kinds);
    let location = match meal_location(requested, &block.category_html) {
        Err(error) => {
            return Err(error);
        },
        Ok(location) => location,
    };
    let allergens = match &block.allergen_codes {
        None => {
            return Err(ParseError::MissingElement(Element::AllergenAttribute));
        },
        Some(raw) => meal_allergens(raw.as_str(), catalog, language),
    };
    let date = match date {
        None => {
            return Err(ParseError::MissingElement(Element::Date));
        },
        Some(date) => date.clone(),
    };
    let price = match &block.price_texts {
        None => {
            return Err(ParseError::MissingElement(Element::Price));
        },
        Some(texts) => match meal_price(texts) {
            Err(error) => {
                return Err(error);
            },
            Ok(price) => price,
        },
    };
    Ok(
        Meal {
            name,
            date,
            price,
            vegan,
            vegetarian,
            location: APILocation::from(location),
            allergens,
            language: language.clone(),
        },
    )
}

/// The meals of one day, in the order of the page, or the error of the first
/// block that gives one.
pub open spec fn spec_meals_of_blocks(
    blocks: Seq<MealBlockView>,
    date: Option<Seq<char>>,
    requested: Location,
    language: LanguageView,
    catalog: Seq<AllergenView>,
    tags: Regex,
) -> Result<Seq<MealView>, ParseError>
    decreases blocks.len(),
{
    if blocks.len() == 0 {
        Ok(Seq::empty())
    } else {
        match spec_meals_of_blocks(blocks.drop_last(), date, requested, language, catalog, tags) {
            Err(error) => Err(error),
            Ok(before) => match spec_meal(blocks.last(), date, requested, language, catalog, tags) {
                Err(error) => Err(error),
                Ok(meal) => Ok(before.push(meal)),
            },
        }
    }
}

/// The meals of a page, day after day, or the error of the first block that
/// gives one.
pub open spec fn spec_meals_of_days(
    days: Seq<DayBlockView>,
    requested: Location,
    language: LanguageView,
    catalog: Seq<AllergenView>,
    tags: Regex,
) -> Result<Seq<MealView>, ParseError>
    decreases days.len(),
{
    if days.len() == 0 {
        Ok(Seq::empty())
    } else {
        match spec_meals_of_days(days.drop_last(), requested, language, catalog, tags) {
            Err(error) => Err(error),
            Ok(before) => match spec_meals_of_blocks(
                days.last().meals,
                days.last().date,
                requested,
                language,
                catalog,
                tags,
            ) {
                Err(error) => Err(error),
                Ok(meals) => Ok(before + meals),
            },
        }
    }
}

/// Every meal of the sequence is well formed.
pub open spec fn all_well_formed(meals: Seq<MealView>) -> bool {
    forall|i: int| 0 <= i < meals.len() ==> (#[trigger] meals[i]).well_formed()
}

/// Builds the meals of one day.
pub fn meals_of_day(
    day: &DayBlock,
    requested: Location,
    language: &Language,
    catalog: &Vec<Allergen>,
    tags: &Regex,
) -> (meals: Result<Vec<Meal>, ParseError>)
    ensures
        ok_view(meals) == spec_meals_of_blocks(
            day@.meals,
            day@.date,
            requested,
            language@,
            catalog.deep_view(),
            *tags,
        ),
        meals matches Ok(built) ==> all_well_formed(built.deep_view()),
{
    let mut meals: Vec<Meal> = Vec::new();
    let mut i: usize = 0;
    let ghost blocks = day@.meals;
    assert(blocks.take(0) =~= Seq::<MealBlockView>::empty());
    assert(meals.deep_view() =~= Seq::<MealView>::empty());
    while i < day.meals.len()
        invariant
            i <= day.meals.len(),
            blocks == day@.meals,
            blocks.len() == day.meals.len(),
            Ok::<Seq<MealView>, ParseError>(meals.deep_view()) == spec_meals_of_blocks(
                blocks.take(i as int),
                day@.date,
                requested,
                language@,
                catalog.deep_view(),
                *tags,
            ),
            all_well_formed(meals.deep_view()),
        decreases day.meals.len() - i,
    {
        let ghost before = meals.deep_view();
        proof {
            assert(blocks.take(i + 1).drop_last() =~= blocks.take(i as int));
            assert(blocks.take(i + 1).last() == day.meals@[i as int]@);
            lemma_first_error_stays(
                blocks,
                i + 1,
                day@.date,
                requested,
                language@,
                catalog.deep_view(),
                *tags,
            );
        }
        match meal_of_block(&day.meals[i], &day.date, requested, language, catalog, tags) {
            Err(error) => {
                return Err(error);
            },
            Ok(meal) => {
                meals.push(meal);
                assert(meals.deep_view() =~= before.push(meal@));
            },
        }
        i += 1;
    }
    assert(blocks.take(i as int) =~= blocks);
    Ok(meals)
}

/// Once a prefix of the blocks has given an error, the whole gives that error.
pub proof fn lemma_first_error_stays(
    blocks: Seq<MealBlockView>,
    k: int,
    date: Option<Seq<char>>,
    requested: Location,
    language: LanguageView,
    catalog: Seq<AllergenView>,
    tags: Regex,
)
    requires
        0 <= k <= blocks.len(),
    ensures
        spec_meals_of_blocks(blocks.take(k), date, requested, language, catalog, tags) is Err
            ==> spec_meals_of_blocks(blocks, date, requested, language, catalog, tags)
            == spec_meals_of_blocks(blocks.take(k), date, requested, language, catalog, tags),
    decreases blocks.len() - k,
{
    if k == blocks.len() {
        assert(blocks.take(k) =~= blocks);
    } else {
        assert(blocks.drop_last().take(k) =~= blocks.take(k));
        lemma_first_error_stays(blocks.drop_last(), k, date, requested, language, catalog, tags);
    }
}

/// Once a prefix of the days has given an error, the whole gives that error.
pub proof fn lemma_first_day_error_stays(
    days: Seq<DayBlockView>,
    k: int,
    requested: Location,
    language: LanguageView,
    catalog: Seq<AllergenView>,
    tags: Regex,
)
    requires
        0 <= k <= days.len(),
    ensures
        spec_meals_of_days(days.take(k), requested, language, catalog, tags) is Err
            ==> spec_meals_of_days(days, requested, language, catalog, tags)
            == spec_meals_of_days(days.take(k), requested, language, catalog, tags),
    decreases days.len() - k,
{
    if k == days.len() {
        assert(days.take(k) =~= days);
    } else {
        assert(days.drop_last().take(k) =~= days.take(k));
        lemma_first_day_error_stays(days.drop_last(), k, requested, language, catalog, tags);
    }
}

/// Builds the meals of a page from its day blocks.
pub fn meals_of_days(
    days: &Vec<DayBlock>,
    requested: Location,
    language: &Language,
    catalog: &Vec<Allergen>,
    tags: &Regex,
) -> (meals: Result<Vec<Meal>, ParseError>)
    ensures
        ok_view(meals) == spec_meals_of_days(
            days.deep_view(),
            requested,
            language@,
            catalog.deep_view(),
            *tags,
        ),
        meals matches Ok(built) ==> all_well_formed(built.deep_view()),
{
    let mut meals: Vec<Meal> = Vec::new();
    let mut i: usize = 0;
    let ghost all = days.deep_view();
    assert(all.take(0) =~= Seq::<DayBlockView>::empty());
    assert(meals.deep_view() =~= Seq::<MealView>::empty());
    while i < days.len()
        invariant
            i <= days.len(),
            all == days.deep_view(),
            Ok::<Seq<MealView>, ParseError>(meals.deep_view()) == spec_meals_of_days(
                all.take(i as int),
                requested,
                language@,
                catalog.deep_view(),
                *tags,
            ),
            all_well_formed(meals.deep_view()),
        decreases days.len() - i,
    {
        let ghost before = meals.deep_view();
        proof {
            assert(all.take(i + 1).drop_last() =~= all.take(i as int));
            assert(all.take(i + 1).last() == days@[i as int]@);
            lemma_first_day_error_stays(
                all,
                i + 1,
                requested,
                language@,
                catalog.deep_view(),
                *tags,
            );
        }
        match meals_of_day(&days[i], requested, language, catalog, tags) {
            Err(error) => {
                return Err(error);
            },
            Ok(mut more) => {
                let ghost added = more.deep_view();
                meals.append(&mut more);
                assert(meals.deep_view() =~= before + added);
            },
        }
        i += 1;
    }
    assert(all.take(i as int) =~= all);
    Ok(meals)
}

/// The meals of a menu page. A page that is longer than a page may be is
/// not read. The page is read with the patterns of a menu page; where an
/// engine refuses one of them, nothing is read.
pub open spec fn spec_parse_meals(
    html: Seq<char>,
    requested: Location,
    language: LanguageView,
    catalog: Seq<AllergenView>,
) -> Result<Seq<MealView>, ParseError> {
    match (spec_document(html), MealPatterns::spec_compile()) {
        (None, _) => Err(ParseError::PageTooLong),
        (Some(_), None) => Err(ParseError::InvalidPattern),
        (Some(document), Some(patterns)) => spec_meals_of_days(
            spec_day_blocks(document, patterns),
            requested,
            language,
            catalog,
            patterns.tags,
        ),
    }
}

/// Parses the menu page of one location, week and language.
///
/// `location` is the location that the page was requested for; on a shared
/// page each meal is assigned to its own serving point. `allergens` is the
/// catalogue of all languages. The result holds the meals in page order, or
/// the error of the first meal that lacks a required piece.
pub fn parse_meals(html: &str, location: Location, language: &Language, allergens: &Vec<Allergen>)
    -> (meals: Result<Vec<Meal>, ParseError>)
    ensures
        ok_view(meals) == spec_parse_meals(html@, location, language@, allergens.deep_view()),
        meals matches Ok(built) ==> all_well_formed(built.deep_view()),
{
    let document = match document(html) {
        None => {
            return Err(ParseError::PageTooLong);
        },
        Some(document) => document,
    };
    let patterns = match MealPatterns::compile() {
        None => {
            return Err(ParseError::InvalidPattern);
        },
        Some(patterns) => patterns,
    };
    let days = day_blocks(&document, &patterns);
    meals_of_days(&days, location, language, allergens, &patterns.tags)
}

/// The allergen that a catalogue entry describes, if the entry has both a
/// code and a label.
pub open spec fn spec_allergen_of_entry(entry: AllergenEntryView, language: LanguageView) -> Option<
    AllergenView,
> {
    match (entry.code, entry.label_html) {
        (Some(code), Some(name)) => Some(AllergenView { code, name, language }),
        _ => None,
    }
}

/// The allergens that the entries of a catalogue describe, in order; entries
/// that lack a code or a label are passed over.
pub open spec fn spec_allergens_of_entries(
    entries: Seq<AllergenEntryView>,
    language: LanguageView,
) -> Seq<AllergenView>
    decreases entries.len(),
{
    if entries.len() == 0 {
        Seq::empty()
    } else {
        let before = spec_allergens_of_entries(entries.drop_last(), language);
        match spec_allergen_of_entry(entries.last(), language) {
            Some(allergen) => before.push(allergen),
            None => before,
        }
    }
}

/// Builds the allergens of a catalogue from its entries.
pub fn allergens_of_entries(entries: &Vec<AllergenEntry>, language: &Language) -> (allergens: Vec<
    Allergen,
>)
    ensures
        allergens.deep_view() == spec_allergens_of_entries(entries.deep_view(), language@),
{
    let mut allergens: Vec<Allergen> = Vec::new();
    let mut i: usize = 0;
    let ghost all = entries.deep_view();
    assert(all.take(0) =~= Seq::<AllergenEntryView>::empty());
    while i < entries.len()
        invariant
            i <= entries.len(),
            all == entries.deep_view(),
            allergens.deep_view() == spec_allergens_of_entries(all.take(i as int), language@),
        decreases entries.len() - i,
    {
        let ghost before = allergens.deep_view();
        assert(all.take(i + 1).drop_last() =~= all.take(i as int));
        assert(all.take(i + 1).last() == entries@[i as int]@);
        let entry = &entries[i];
        match (&entry.code, &entry.label_html) {
            (Some(code), Some(name)) => {
                let allergen = Allergen {
                    code: code.clone(),
                    name: name.clone(),
                    language: language.clone(),
                };
                allergens.push(allergen);
                assert(allergens.deep_view() =~= before.push(allergen@));
            },
            _ => {},
        }
        i += 1;
    }
    assert(all.take(i as int) =~= all);
    allergens
}

/// The allergens of a catalogue page in one language.
pub open spec fn spec_parse_allergens(html: Seq<char>, language: LanguageView) -> Result<
    Seq<AllergenView>,
    ParseError,
> {
    match (spec_document(html), selector_of(".mbf_content"@)) {
        (None, _) => Err(ParseError::PageTooLong),
        (Some(_), None) => Err(ParseError::InvalidPattern),
        (Some(document), Some(catalog)) => match spec_allergen_entries(document, catalog) {
            None => Err(ParseError::MissingElement(Element::AllergenCatalog)),
            Some(entries) => Ok(spec_allergens_of_entries(entries, language)),
        },
    }
}

/// Parses the allergen catalogue of a page in one language.
///
/// The catalogue is read as far as it goes: an entry without a code or a
/// label is passed over. A page without the catalogue container fails, and
/// so does a page that is longer than a page may be.
pub fn parse_allergens(html: &str, language: &Language) -> (allergens: Result<
    Vec<Allergen>,
    ParseError,
>)
    ensures
        ok_view(allergens) == spec_parse_allergens(html@, language@),
{
    let document = match document(html) {
        None => {
            return Err(ParseError::PageTooLong);
        },
        Some(document) => document,
    };
    let catalog = match compile_selector(".mbf_content") {
        None => {
            return Err(ParseError::InvalidPattern);
        },
        Some(catalog) => catalog,
    };
    match allergen_entries(&document, &catalog) {
        None => Err(ParseError::MissingElement(Element::AllergenCatalog)),
        Some(entries) => Ok(allergens_of_entries(&entries, language)),
    }
}

} // verus!
