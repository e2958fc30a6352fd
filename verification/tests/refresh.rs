use std::cell::RefCell;

use itertools::Itertools;

use mensa_api::cache::{moment_of, Cache, CacheError};
use mensa_api::data::Data;
use mensa_api::error::{Element, FetchError, ParseError};
use mensa_api::model::{Language, Location};
use mensa_api::scrapers::{
    allergen_urls, allergens_of_responses, combinations, meal_urls, meals_of_responses,
    scrape_allergens, scrape_meals, unique_pages, Combination, Response,
};

const CATALOGUE: &str = r#"<div class="mbf_content">
    <div data-wert="1"><span>1</span><span>Farbstoff</span></div>
    <div data-wert="Gl"><span>Gl</span><span>Gluten</span></div>
  </div>"#;

const MENU: &str = r#"<div class="tag_headline" data-day="2024-01-15">
    <div class="mensa_menu_detail" data-arten="vn" data-allergene="Gl,1">
      <div class="menu_art">Mensa</div>
      <div class="menu_name">Linsensuppe</div>
      <div class="menu_preis">2,00 € / 3,00 € / 4,00 €</div>
    </div>
  </div>"#;

fn page_for(url: String) -> Response {
    if url.contains("-in-luebeck") {
        Ok(CATALOGUE.to_string())
    } else {
        Ok(MENU.to_string())
    }
}

fn unreachable_fetch(_url: String) -> Response {
    panic!("a fresh cache must not fetch")
}

#[test]
fn plan_covers_each_page_once_per_week_and_language() {
    let pages = unique_pages(&Location::all());
    assert_eq!(pages.len(), 14);
    assert_eq!(pages[1], Location::LuebeckCafeteria);
    assert!(!pages.contains(&Location::LuebeckMensa));
    let plan = combinations();
    assert_eq!(plan.len(), 2 * 14 * 2);
    assert_eq!(plan[0].week, 0);
    assert_eq!(plan[0].location, Location::LuebeckMusikhochschule);
    assert_eq!(plan[0].language, Language::german());
    assert_eq!(plan[1].language, Language::english());
    assert_eq!(plan[2].location, Location::LuebeckCafeteria);
    assert_eq!(plan[28].week, 1);
    assert_eq!(plan[28].location, Location::LuebeckMusikhochschule);
    let mut urls = meal_urls();
    let count = urls.len();
    urls.sort();
    urls.dedup();
    assert_eq!(urls.len(), count);
}

#[test]
fn plan_is_the_product_of_weeks_pages_and_languages() {
    let pages: Vec<Location> = Location::all()
        .into_iter()
        .unique_by(|location| (location.get_mensa_code(), location.get_ort_code()))
        .collect();
    assert_eq!(unique_pages(&Location::all()), pages);
    let expected: Vec<Combination> = (0..2usize)
        .cartesian_product(pages)
        .cartesian_product(Language::supported())
        .map(|((week, location), language)| Combination { week, location, language })
        .collect();
    assert_eq!(combinations(), expected);
}

#[test]
fn addresses_of_pages() {
    let plan = combinations();
    assert_eq!(
        plan[0].url(),
        "https://studentenwerk.sh/de/essen-uebersicht?ort=3&mensa=9&nw=0#mensaplan"
    );
    assert_eq!(
        plan[55].url(),
        "https://studentenwerk.sh/en/food-overview?ort=5&mensa=15&nw=1#mensaplan"
    );
    assert_eq!(
        allergen_urls(),
        vec![
            "https://studentenwerk.sh/de/mensen-in-luebeck?ort=3&mensa=8&nw=0#mensaplan",
            "https://studentenwerk.sh/en/canteens-in-luebeck?ort=3&mensa=8&nw=0#mensaplan",
        ]
    );
    assert_eq!(meal_urls()[0], plan[0].url());
}

#[test]
fn each_page_is_fetched_once() {
    let asked: RefCell<Vec<String>> = RefCell::new(Vec::new());
    let fetch = |url: String| {
        asked.borrow_mut().push(url.clone());
        page_for(url)
    };
    let data = Data::fetch(&fetch).unwrap();
    let mut expected = allergen_urls();
    expected.extend(meal_urls());
    assert_eq!(*asked.borrow(), expected);
    assert_eq!(data.get_allergens().len(), 4);
    assert_eq!(data.get_meals().len(), 56);
    assert_eq!(data.get_locations().len(), 18);
    let meal = &data.get_meals()[1];
    assert_eq!(meal.language, Language::english());
    assert_eq!(meal.allergens.len(), 2);
    assert!(meal.allergens.iter().all(|a| a.language == Language::english()));
    assert_eq!(data.clone(), data);
}

#[test]
fn catalogue_of_all_languages() {
    let allergens = scrape_allergens(&page_for).unwrap();
    let codes: Vec<(&str, &str)> =
        allergens.iter().map(|a| (a.code.as_str(), a.language.code.as_str())).collect();
    assert_eq!(codes, vec![("1", "de"), ("Gl", "de"), ("1", "en"), ("Gl", "en")]);
    let meals = scrape_meals(&page_for, &allergens).unwrap();
    assert_eq!(meals.len(), 56);
    assert!(meals.iter().all(|meal| meal.vegan && meal.vegetarian));
}

#[test]
fn first_failing_page_fails_the_refresh() {
    let down = FetchError::Network("connection refused".to_string());
    let responses = vec![Ok(CATALOGUE.to_string()), Err(down.clone())];
    assert_eq!(allergens_of_responses(&responses), Err(down.clone()));
    let responses = vec![Ok("<p></p>".to_string()), Err(down.clone())];
    assert_eq!(
        allergens_of_responses(&responses),
        Err(FetchError::Parse(ParseError::MissingElement(Element::AllergenCatalog)))
    );
    assert_eq!(allergens_of_responses(&vec![Ok(CATALOGUE.to_string())]), Err(FetchError::Incomplete));

    let mut responses: Vec<Response> = (0..56).map(|_| Ok(MENU.to_string())).collect();
    responses[7] = Err(FetchError::Status(503));
    responses[9] = Err(down);
    assert_eq!(meals_of_responses(&responses, &vec![]), Err(FetchError::Status(503)));
    responses.truncate(5);
    assert_eq!(meals_of_responses(&responses, &vec![]), Err(FetchError::Incomplete));
    let fetch = |url: String| {
        if url.contains("nw=1") {
            Err(FetchError::Status(404))
        } else {
            page_for(url)
        }
    };
    assert_eq!(Data::fetch(&fetch), Err(FetchError::Status(404)));
}

#[test]
fn new_cache_is_empty_and_due() {
    let cache = Cache::new(2700);
    assert!(cache.needs_update(0));
    assert!(cache.needs_update(i64::MIN));
    assert!(cache.needs_update(i64::MAX));
    assert_eq!(cache.get_data().err(), Some(CacheError::Empty));
    assert_eq!(cache.get_last_update_as_string(), "1970-01-01 00:00:00 UTC");
}

#[test]
fn fresh_until_the_time_to_live_has_elapsed() {
    let mut cache = Cache::new(10);
    let start: i64 = 1_700_000_000_000_000_000;
    assert_eq!(cache.ensure_fresh(start, &page_for), Ok(()));
    assert!(cache.get_data().is_ok());
    assert!(!cache.needs_update(start));
    assert!(!cache.needs_update(start + 9_999_999_999));
    assert!(cache.needs_update(start + 10_000_000_000));
    assert!(cache.needs_update(i64::MAX));
    assert_eq!(cache.get_last_update_as_string(), "2023-11-14 22:13:20 UTC");
}

#[test]
fn second_caller_does_not_fetch() {
    let mut cache = Cache::new(10);
    let start: i64 = 1_700_000_000_000_000_000;
    assert_eq!(cache.ensure_fresh(start, &page_for), Ok(()));
    assert_eq!(cache.ensure_fresh(start, &unreachable_fetch), Ok(()));
    assert_eq!(cache.ensure_fresh(start + 5, &unreachable_fetch), Ok(()));
    assert_eq!(cache.get_last_update_as_string(), "2023-11-14 22:13:20 UTC");
}

#[test]
fn failed_refresh_leaves_the_cache_as_it_was() {
    let failing = |_url: String| -> Response { Err(FetchError::Status(500)) };
    let mut cache = Cache::new(1);
    assert_eq!(cache.ensure_fresh(5, &failing), Err(FetchError::Status(500)));
    assert_eq!(cache.get_data().err(), Some(CacheError::Empty));
    assert_eq!(cache.get_last_update_as_string(), "1970-01-01 00:00:00 UTC");

    let start: i64 = 1_700_000_000_000_000_000;
    cache.ensure_fresh(start, &page_for).unwrap();
    let before = cache.get_data().unwrap().clone();
    let later = start + 2_000_000_000;
    assert!(cache.needs_update(later));
    assert_eq!(cache.ensure_fresh(later, &failing), Err(FetchError::Status(500)));
    assert_eq!(cache.get_data().unwrap(), &before);
    assert_eq!(cache.get_last_update_as_string(), "2023-11-14 22:13:20 UTC");
    assert_eq!(cache.fetch(&failing, later), Err(FetchError::Status(500)));
    assert_eq!(cache.get_data().unwrap(), &before);
    assert_eq!(cache.install(Err(FetchError::Incomplete), later), Err(FetchError::Incomplete));
    assert_eq!(cache.get_last_update_as_string(), "2023-11-14 22:13:20 UTC");
}

#[test]
fn refresh_whatever_the_age() {
    let start: i64 = 1_700_000_000_000_000_000;
    let mut cache = Cache::new(3600);
    assert_eq!(cache.fetch(&page_for, start), Ok(()));
    assert!(!cache.needs_update(start + 1));
    let data = Cache::fetch_data(&page_for).unwrap();
    cache.set_data(data, 0);
    assert!(cache.needs_update(start));
    assert_eq!(cache.get_last_update_as_string(), "1970-01-01 00:00:00 UTC");
    assert_eq!(cache.fetch(&page_for, start + 7), Ok(()));
    assert!(!cache.needs_update(start + 8));
    assert_eq!(cache.get_last_update_as_string(), "2023-11-14 22:13:20.000000007 UTC");
    let copy = cache.clone();
    assert_eq!(copy.get_data(), cache.get_data());
    assert_eq!(copy.get_last_update_as_string(), cache.get_last_update_as_string());
    assert_eq!(copy.needs_update(start + 3_600_000_000_007), cache.needs_update(start + 3_600_000_000_007));
    assert!(copy.needs_update(start + 3_600_000_000_007));
    assert!(!copy.needs_update(start + 3_600_000_000_006));
}

#[test]
fn readings_of_the_clock() {
    assert_eq!(moment_of(Some(-5)), -5);
    assert_eq!(moment_of(Some(1_700_000_000_000_000_000)), 1_700_000_000_000_000_000);
    assert_eq!(moment_of(None), i64::MAX);
}
