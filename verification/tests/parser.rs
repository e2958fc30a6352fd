use mensa_api::error::{Element, ParseError};
use mensa_api::model::{Allergen, Language, Location};
use mensa_api::price::{Decimal, Prices};
use mensa_api::markup::meal_name;
use mensa_api::page::{DayBlock, MealBlock, MealPatterns};
use mensa_api::parser::{
    is_vegan, is_vegetarian, meal_allergens, meal_location, meal_of_block, meal_price,
    meals_of_days, parse_allergens, parse_meals,
};

fn amount(mantissa: u64, scale: u8) -> Decimal {
    Decimal { negative: false, mantissa, scale }
}

fn allergen(code: &str, name: &str, language: Language) -> Allergen {
    Allergen { code: code.to_string(), name: name.to_string(), language }
}

fn catalog() -> Vec<Allergen> {
    vec![
        allergen("1", "Farbstoff", Language::german()),
        allergen("3", "Antioxidationsmittel", Language::german()),
        allergen("13", "Milch", Language::german()),
        allergen("31", "Phantasie", Language::german()),
        allergen("1", "Colourant", Language::english()),
    ]
}

const TWO_DAYS: &str = r#"<html><body>
<div class="tag_headline" data-day="2024-01-15">
  <div class="mensa_menu_detail" data-arten="|ve|" data-allergene="1,3,13">
    <div class="menu_art">Mensa</div>
    <div class="menu_name">Pasta<br>mit   Tomaten <small>(1,3)</small> <span>(BIO)</span> &amp; K&auml;se</div>
    <div class="menu_preis">3,50/4,20/5,00 €</div>
  </div>
</div>
<div class="tag_headline" data-day="2024-01-16">
  <div class="mensa_menu_detail" data-arten="|ve|" data-allergene="3">
    <div class="menu_art">Cafeteria</div>
    <div class="menu_name">Suppe</div>
    <div class="menu_preis">3,50/4,20/5,00 €</div>
  </div>
</div>
</body></html>"#;

#[test]
fn two_days_give_two_vegetarian_meals() {
    let meals =
        parse_meals(TWO_DAYS, Location::LuebeckMusikhochschule, &Language::german(), &catalog())
            .unwrap();
    assert_eq!(meals.len(), 2);
    for meal in &meals {
        assert!(meal.vegetarian);
        assert!(!meal.vegan);
        assert_eq!(
            meal.price,
            Prices { students: amount(350, 2), employees: amount(420, 2), guests: amount(500, 2) }
        );
        assert_eq!(meal.location.code, "HL_MH");
        assert_eq!(meal.language, Language::german());
    }
    assert_eq!(meals[0].date, "2024-01-15");
    assert_eq!(meals[1].date, "2024-01-16");
    assert_eq!(meals[0].name, "Pasta mit Tomaten (BIO) & Käse");
    assert_eq!(meals[1].name, "Suppe");
}

#[test]
fn allergens_are_matched_by_substring_in_the_meal_language() {
    let meals =
        parse_meals(TWO_DAYS, Location::LuebeckMusikhochschule, &Language::german(), &catalog())
            .unwrap();
    let codes: Vec<&str> = meals[0].allergens.iter().map(|a| a.code.as_str()).collect();
    assert_eq!(codes, vec!["1", "3", "13"]);
    assert!(meals[0].allergens.iter().all(|a| a.language.code == "de"));
    // "3" matches the raw list "3"; "13" and "1" do not occur in it.
    let codes: Vec<&str> = meals[1].allergens.iter().map(|a| a.code.as_str()).collect();
    assert_eq!(codes, vec!["3"]);
}

#[test]
fn shared_page_assigns_each_meal_to_its_serving_point() {
    let meals =
        parse_meals(TWO_DAYS, Location::LuebeckCafeteria, &Language::german(), &catalog()).unwrap();
    assert_eq!(meals[0].location.code, "HL_ME");
    assert_eq!(meals[1].location.code, "HL_CA");
}

#[test]
fn empty_price_gives_default_prices() {
    let html = r#"<div class="tag_headline" data-day="d">
      <div class="mensa_menu_detail" data-arten="vn" data-allergene="">
        <div class="menu_name">Salat</div><div class="menu_preis"></div>
      </div></div>"#;
    let meals = parse_meals(html, Location::KielDiner, &Language::english(), &catalog()).unwrap();
    assert_eq!(meals.len(), 1);
    assert_eq!(meals[0].price, Prices::default());
    assert_eq!(meals[0].price.students, amount(0, 0));
    assert!(meals[0].vegan);
    assert!(meals[0].vegetarian);
}

#[test]
fn missing_name_fails_the_page() {
    let html = r#"<div class="tag_headline" data-day="d">
      <div class="mensa_menu_detail" data-allergene="">
        <div class="menu_name">Salat</div><div class="menu_preis">1/2/3</div>
      </div>
      <div class="mensa_menu_detail" data-allergene="">
        <div class="menu_preis">1/2/3</div>
      </div></div>"#;
    let meals = parse_meals(html, Location::KielDiner, &Language::german(), &catalog());
    assert_eq!(meals, Err(ParseError::MissingElement(Element::MealName)));
}

#[test]
fn missing_pieces_are_reported_in_order() {
    let no_marker = r#"<div class="tag_headline" data-day="d">
      <div class="mensa_menu_detail"><div class="menu_name">Salat</div></div></div>"#;
    assert_eq!(
        parse_meals(no_marker, Location::KielMensa1, &Language::german(), &catalog()),
        Err(ParseError::MissingElement(Element::MenuLocation))
    );
    assert_eq!(
        parse_meals(no_marker, Location::KielDiner, &Language::german(), &catalog()),
        Err(ParseError::MissingElement(Element::AllergenAttribute))
    );
    let no_price = r#"<div class="tag_headline" data-day="d">
      <div class="mensa_menu_detail" data-allergene="1"><div class="menu_name">Salat</div></div></div>"#;
    assert_eq!(
        parse_meals(no_price, Location::KielDiner, &Language::german(), &catalog()),
        Err(ParseError::MissingElement(Element::Price))
    );
}

#[test]
fn page_without_days_has_no_meals() {
    let meals = parse_meals("<p>closed</p>", Location::KielDiner, &Language::german(), &catalog());
    assert_eq!(meals, Ok(vec![]));
}

#[test]
fn catalogue_is_read_best_effort() {
    let html = r#"<div class="mbf_content">
        <div data-wert="1"><span>x</span><span>Farbstoff</span></div>
        <div data-wert="2"><span>only one child</span></div>
        <div><span>x</span><span>no code</span></div>
        <div data-wert="Gl"><b>x</b><i>Gluten</i><u>more</u></div>
      </div>
      <div class="mbf_content"><div data-wert="9"><span>x</span><span>second container</span></div></div>"#;
    let allergens = parse_allergens(html, &Language::german()).unwrap();
    assert_eq!(
        allergens,
        vec![
            allergen("1", "Farbstoff", Language::german()),
            allergen("Gl", "Gluten", Language::german()),
        ]
    );
}

#[test]
fn page_without_catalogue_fails() {
    assert_eq!(
        parse_allergens("<p>nothing</p>", &Language::english()),
        Err(ParseError::MissingElement(Element::AllergenCatalog))
    );
}

fn block(name: Option<&str>, kinds: Option<&str>, codes: Option<&str>, prices: Option<&[&str]>) -> MealBlock {
    MealBlock {
        name_html: name.map(str::to_string),
        kinds: kinds.map(str::to_string),
        category_html: None,
        allergen_codes: codes.map(str::to_string),
        price_texts: prices.map(|texts| texts.iter().map(|text| text.to_string()).collect()),
    }
}

#[test]
fn meals_are_built_from_plain_blocks() {
    let patterns = MealPatterns::compile().unwrap();
    let days = vec![
        DayBlock {
            date: Some("Mo".to_string()),
            meals: vec![
                block(Some("Eintopf &amp; Brot"), Some("ve,vn"), Some("1"), Some(&["2,50", "3,50", "4,50 €"])),
                block(Some("<b>Fisch</b>"), None, Some(""), Some(&["n/a"])),
            ],
        },
        DayBlock { date: Some("Di".to_string()), meals: vec![] },
        DayBlock {
            date: Some("Mi".to_string()),
            meals: vec![block(Some("Reis"), Some("ve"), Some("13"), Some(&[]))],
        },
    ];
    let meals =
        meals_of_days(&days, Location::WedelCafeteria, &Language::german(), &catalog(), &patterns.tags)
            .unwrap();
    let seen: Vec<(&str, &str, bool, bool)> = meals
        .iter()
        .map(|meal| (meal.name.as_str(), meal.date.as_str(), meal.vegan, meal.vegetarian))
        .collect();
    assert_eq!(
        seen,
        vec![
            ("Eintopf & Brot", "Mo", true, true),
            ("Fisch", "Mo", false, false),
            ("Reis", "Mi", false, true),
        ]
    );
    assert_eq!(meals[0].price.guests, amount(450, 2));
    assert_eq!(meals[1].price, Prices::default());
    assert_eq!(meals[2].price, Prices::default());
    assert_eq!(meals[0].location.code, "PI_CA1");
    assert_eq!(meals[0].clone(), meals[0]);
}

#[test]
fn day_without_date_fails_its_first_meal() {
    let patterns = MealPatterns::compile().unwrap();
    let meal = block(Some("Reis"), None, Some(""), Some(&["1/2/3"]));
    assert_eq!(
        meal_of_block(&meal, &None, Location::KielDiner, &Language::german(), &catalog(), &patterns.tags),
        Err(ParseError::MissingElement(Element::Date))
    );
    let days = vec![
        DayBlock { date: None, meals: vec![] },
        DayBlock { date: None, meals: vec![meal, block(None, None, None, None)] },
    ];
    assert_eq!(
        meals_of_days(&days, Location::KielDiner, &Language::german(), &catalog(), &patterns.tags),
        Err(ParseError::MissingElement(Element::Date))
    );
}

#[test]
fn location_of_a_meal_on_a_shared_page() {
    let canteen = Some("Canteen &amp; more".to_string());
    let other = Some("Bistro".to_string());
    assert_eq!(meal_location(Location::KielCafeteria2, &canteen), Ok(Location::KielMensa2));
    assert_eq!(meal_location(Location::KielMensa2, &other), Ok(Location::KielCafeteria2));
    assert_eq!(meal_location(Location::KielSchwentine, &None), Ok(Location::KielSchwentine));
    assert_eq!(meal_location(Location::KielSchwentine, &other), Ok(Location::KielSchwentine));
    assert_eq!(
        meal_location(Location::FlensburgMensa, &None),
        Err(ParseError::MissingElement(Element::MenuLocation))
    );
}

#[test]
fn dietary_kinds() {
    for (kinds, vegan, vegetarian) in [
        (None, false, false),
        (Some(""), false, false),
        (Some("ve"), false, true),
        (Some("vn"), true, true),
        (Some("S|vn|ve"), true, true),
        (Some("G,veg"), false, true),
        (Some("v,e,n"), false, false),
    ] {
        let kinds = kinds.map(str::to_string);
        assert_eq!(is_vegan(&kinds), vegan, "{kinds:?}");
        assert_eq!(is_vegetarian(&kinds), vegetarian, "{kinds:?}");
    }
}

#[test]
fn catalogue_code_that_is_no_substring_is_not_matched() {
    let found = meal_allergens("1,3,13", &catalog(), &Language::german());
    let codes: Vec<&str> = found.iter().map(|a| a.code.as_str()).collect();
    assert_eq!(codes, vec!["1", "3", "13"]);
    let found = meal_allergens("13", &catalog(), &Language::german());
    let codes: Vec<&str> = found.iter().map(|a| a.code.as_str()).collect();
    // the raw list is searched for each code: "1" and "3" occur in "13"
    assert_eq!(codes, vec!["1", "3", "13"]);
    assert!(meal_allergens("1,3,13", &catalog(), &Language::english()).len() == 1);
}

#[test]
fn prices_of_text_nodes() {
    let texts = |texts: &[&str]| texts.iter().map(|text| text.to_string()).collect::<Vec<_>>();
    let expected =
        Prices { students: amount(350, 2), employees: amount(420, 2), guests: amount(5, 0) };
    assert_eq!(meal_price(&texts(&["3,50", " 4,20 ", "5&nbsp;&euro;"])), Ok(expected));
    assert_eq!(meal_price(&texts(&["3,50 / 4,20 / 5"])), Ok(expected));
    assert_eq!(meal_price(&texts(&["3,50", "4,20"])), Ok(Prices::default()));
    assert_eq!(meal_name("A<br>B &lt;C&gt;<i class='x'>(v)</i>", &MealPatterns::compile().unwrap().tags), Ok("A B <C>".to_string()));
}

#[test]
fn page_that_is_too_long_is_not_parsed() {
    let page = " ".repeat(0x1000_0000);
    assert_eq!(
        parse_meals(&page, Location::KielDiner, &Language::german(), &catalog()),
        Err(ParseError::PageTooLong)
    );
    assert_eq!(parse_allergens(&page, &Language::german()), Err(ParseError::PageTooLong));
}
