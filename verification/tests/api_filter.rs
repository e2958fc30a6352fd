use mensa_api::api_filter::{APIFilter, AllergensQuery, LocationsQuery, MealsQuery};
use mensa_api::model::{APILocation, Allergen, Language, Location, Meal};
use mensa_api::price::Prices;

fn meal(name: &str, date: &str, location: Location, codes: &[&str], vegan: bool, language: Language) -> Meal {
    Meal {
        name: name.to_string(),
        date: date.to_string(),
        price: Prices::default(),
        vegan,
        vegetarian: true,
        location: location.into(),
        allergens: codes
            .iter()
            .map(|code| Allergen {
                code: code.to_string(),
                name: String::new(),
                language: language.clone(),
            })
            .collect(),
        language,
    }
}

fn any_meal() -> MealsQuery {
    MealsQuery {
        date: None,
        location: None,
        exclude_allergens: None,
        vegan: None,
        vegetarian: None,
        language: None,
    }
}

fn menu() -> Vec<Meal> {
    vec![
        meal("Suppe", "2024-01-15", Location::KielMensa1, &["Gl", "1"], true, Language::german()),
        meal("Soup", "2024-01-15", Location::KielMensa1, &["Gl", "1"], true, Language::english()),
        meal("Braten", "2024-01-16", Location::HeideMensa, &["3"], false, Language::german()),
    ]
}

fn names(kept: Vec<&Meal>) -> Vec<&str> {
    kept.into_iter().map(|meal| meal.name.as_str()).collect()
}

#[test]
fn no_constraint_keeps_the_default_language() {
    assert_eq!(names(any_meal().filter(&menu())), vec!["Suppe", "Braten"]);
}

#[test]
fn text_constraints_list_what_may_pass() {
    let query = MealsQuery { language: Some("de,en".to_string()), ..any_meal() };
    assert_eq!(names(query.filter(&menu())), vec!["Suppe", "Soup", "Braten"]);
    let query = MealsQuery { date: Some("2024-01-16,2024-01-17".to_string()), ..any_meal() };
    assert_eq!(names(query.filter(&menu())), vec!["Braten"]);
    let query = MealsQuery { location: Some("KI_ME1,KI_CA1".to_string()), ..any_meal() };
    assert_eq!(names(query.filter(&menu())), vec!["Suppe"]);
    let query = MealsQuery { location: Some("KI_ME".to_string()), ..any_meal() };
    assert_eq!(names(query.filter(&menu())), Vec::<&str>::new());
}

#[test]
fn flags_and_excluded_allergens() {
    let query = MealsQuery { vegan: Some(false), ..any_meal() };
    assert_eq!(names(query.filter(&menu())), vec!["Braten"]);
    let query = MealsQuery { vegetarian: Some(false), ..any_meal() };
    assert!(query.filter(&menu()).is_empty());
    let query = MealsQuery { exclude_allergens: Some("Gl,7".to_string()), ..any_meal() };
    assert_eq!(names(query.filter(&menu())), vec!["Braten"]);
    // the excluded list is searched for each code: "13" excludes "1" and "3"
    let query = MealsQuery { exclude_allergens: Some("13".to_string()), ..any_meal() };
    assert!(query.filter(&menu()).is_empty());
    assert!(!query.accepts(&menu()[2]));
}

#[test]
fn allergen_queries() {
    let allergens = vec![
        Allergen { code: "Gl".into(), name: "Gluten".into(), language: Language::german() },
        Allergen { code: "Gl".into(), name: "Gluten".into(), language: Language::english() },
        Allergen { code: "1".into(), name: "Farbstoff".into(), language: Language::german() },
    ];
    let any = AllergensQuery { code: None, name: None, location: None, language: None };
    assert_eq!(any.filter(&allergens), vec![&allergens[0], &allergens[2]]);
    let query = AllergensQuery { name: Some("Farbstoff".into()), ..any };
    assert_eq!(query.filter(&allergens), vec![&allergens[2]]);
    let query = AllergensQuery {
        code: Some("Gl".into()),
        name: None,
        location: Some("KI_ME1".into()),
        language: Some("en".into()),
    };
    assert_eq!(query.filter(&allergens), vec![&allergens[1]]);
}

#[test]
fn location_queries() {
    let locations = Location::all_identities();
    let any = LocationsQuery { code: None, name: None, city: None };
    assert_eq!(any.filter(&locations).len(), 18);
    let query = LocationsQuery { code: None, name: None, city: Some("Kiel,Heide".into()) };
    assert_eq!(query.filter(&locations).len(), 9);
    let query = LocationsQuery { code: Some("HL_ME".into()), name: Some("Mensa".into()), city: None };
    let kept: Vec<&APILocation> = query.filter(&locations);
    assert_eq!(kept, vec![&APILocation::from(Location::LuebeckMensa)]);
}
