use mensa_api::config::Config;
use mensa_api::error::Element;
use mensa_api::model::{APILocation, Language, Location};

#[test]
fn languages() {
    let german = Language::german();
    assert_eq!(german.name, "Deutsch");
    assert_eq!(german.code, "de");
    let english = Language::english();
    assert_eq!(english.name, "English");
    assert_eq!(english.code, "en");
    assert_eq!(Language::supported(), vec![Language::german(), Language::english()]);
}

#[test]
fn codes_of_locations() {
    assert_eq!(Location::LuebeckMusikhochschule.get_mensa_code(), 9);
    assert_eq!(Location::LuebeckMusikhochschule.get_ort_code(), 3);
    assert_eq!(Location::KielDockside.get_mensa_code(), 16);
    assert_eq!(Location::KielDockside.get_ort_code(), 1);
    assert_eq!(Location::HeideMensa.get_mensa_code(), 16);
    assert_eq!(Location::HeideMensa.get_ort_code(), 4);
    assert_eq!(Location::all().len(), 18);
}

#[test]
fn doubled_locations_share_a_page() {
    let doubled: Vec<Location> = Location::all().into_iter().filter(|l| l.is_double()).collect();
    assert_eq!(
        doubled,
        vec![
            Location::LuebeckCafeteria,
            Location::LuebeckMensa,
            Location::KielMensa1,
            Location::KielCafeteria1,
            Location::KielMensa2,
            Location::KielCafeteria2,
            Location::FlensburgMensa,
            Location::FlensburgCafeteriaA,
        ]
    );
    for location in Location::all() {
        let mensa = location.get_mensa_option();
        let cafeteria = location.get_cafeteria_option();
        assert_eq!(location.is_double(), mensa != cafeteria);
        assert_eq!(mensa.get_mensa_code(), location.get_mensa_code());
        assert_eq!(cafeteria.get_ort_code(), location.get_ort_code());
    }
    assert_eq!(Location::KielCafeteria1.get_mensa_option(), Location::KielMensa1);
    assert_eq!(Location::FlensburgMensa.get_cafeteria_option(), Location::FlensburgCafeteriaA);
}

#[test]
fn identities_of_locations() {
    let identity: APILocation = Location::KielDockside.into();
    assert_eq!(identity.code, "KI_DOCKSIDE");
    assert_eq!(identity.name, "Mensa „Dockside“");
    assert_eq!(identity.city, "Kiel");
    assert_eq!(identity.available_languages, Language::supported());
    let identity = APILocation::from(Location::LuebeckBitsBytes);
    assert_eq!(identity.code, "HL_BB");
    assert_eq!(identity.city, "Lübeck");
    assert_eq!(identity.available_languages, vec![Language::german()]);
    let identities = Location::all_identities();
    assert_eq!(identities.len(), 18);
    assert_eq!(identities[16].city, "Osterrönfeld");
    assert_eq!(identities[0].clone(), APILocation::from(Location::LuebeckMusikhochschule));
}

#[test]
fn default_settings() {
    assert_eq!(Config::default(), Config { port: 3030, ttl: 2700 });
}

#[test]
fn missing_pieces_have_messages() {
    assert_eq!(Element::MealName.description(), "Failed to select meal name element");
    assert_eq!(Element::MenuLocation.description(), "Failed to select menu location");
    assert_eq!(Element::AllergenAttribute.description(), "Failed to get allergen attr");
    assert_eq!(Element::Date.description(), "Failed to extract date info");
    assert_eq!(Element::Price.description(), "Failed to select price element");
    assert_eq!(
        Element::AllergenCatalog.description(),
        "Failed to get the allergen parent element"
    );
}
