//! The record model: languages, serving locations and their public identity.

use vstd::prelude::*;
use vstd::std_specs::convert::FromSpecImpl;
use crate::price::Prices;

verus! {

/// A language in which menus are published.
#[derive(Debug, PartialEq, Eq)]
pub struct Language {
    /// The native name of the language.
    pub name: String,
    /// The ISO 639 language code.
    pub code: String,
}

/// The mathematical content of a [`Language`].
pub struct LanguageView {
    pub name: Seq<char>,
    pub code: Seq<char>,
}

impl View for Language {
    type V = LanguageView;

    open spec fn view(&self) -> LanguageView {
        LanguageView { name: self.name@, code: self.code@ }
    }
}

impl DeepView for Language {
    type V = LanguageView;

    open spec fn deep_view(&self) -> LanguageView {
        self@
    }
}

impl Clone for Language {
    fn clone(&self) -> (copy: Self)
        ensures
            copy == *self,
    {
        Language { name: self.name.clone(), code: self.code.clone() }
    }
}

impl Language {
    /// The content of [`Language::german`].
    pub open spec fn spec_german() -> LanguageView {
        LanguageView { name: "Deutsch"@, code: "de"@ }
    }

    /// The content of [`Language::english`].
    pub open spec fn spec_english() -> LanguageView {
        LanguageView { name: "English"@, code: "en"@ }
    }

    /// German, code `de`.
    pub fn german() -> (language: Self)
        ensures
            language@ == Self::spec_german(),
    {
        Self { name: "Deutsch".to_owned(), code: "de".to_owned() }
    }

    /// English, code `en`.
    pub fn english() -> (language: Self)
        ensures
            language@ == Self::spec_english(),
    {
        Self { name: "English".to_owned(), code: "en".to_owned() }
    }

    /// The languages that menus are fetched in, in fetch order.
    pub open spec fn spec_supported() -> Seq<LanguageView> {
        seq![Self::spec_german(), Self::spec_english()]
    }

    /// The languages that menus are fetched in: German, then English.
    pub fn supported() -> (languages: Vec<Language>)
        ensures
            languages.deep_view() == Self::spec_supported(),
    {
        let languages = vec![Language::german(), Language::english()];
        assert(languages.deep_view() =~= Self::spec_supported());
        languages
    }
}

/// A serving point. Several variants may share one page of the upstream
/// site: the pair of site code and city code identifies the page, not the
/// serving point.
#[derive(Debug, Clone, Copy, PartialEq, Eq, Structural)]
pub enum Location {
    LuebeckMusikhochschule,
    LuebeckCafeteria,
    LuebeckMensa,
    LuebeckBitsBytes,
    KielMensa1,
    KielCafeteria1,
    KielMensa2,
    KielCafeteria2,
    KielMensaKesselhaus,
    KielSchwentine,
    KielDiner,
    KielDockside,
    HeideMensa,
    FlensburgMensa,
    FlensburgCafeteriaA,
    FlensburgCafeteriaB,
    OsterroenfeldMensa,
    WedelCafeteria,
}

impl Location {
    /// The public identities of all locations, in declaration order.
    pub open spec fn spec_all_identities() -> Seq<APILocationView> {
        Self::spec_all().map_values(|location: Location| location.spec_api_location())
    }

    /// The public identities of all locations, in declaration order.
    pub fn all_identities() -> (identities: Vec<APILocation>)
        ensures
            identities.deep_view() == Self::spec_all_identities(),
    {
        let all = Location::all();
        let mut identities: Vec<APILocation> = Vec::new();
        let mut i: usize = 0;
        while i < all.len()
            invariant
                i <= all.len(),
                identities@.len() == i,
                all@ == Self::spec_all(),
                forall|k: int|
                    0 <= k < i ==> (#[trigger] identities@[k])@ == all@[k].spec_api_location(),
            decreases all.len() - i,
        {
            identities.push(APILocation::from(all[i]));
            i += 1;
        }
        assert(identities.deep_view() =~= Self::spec_all_identities());
        identities
    }

    /// Every location, in declaration order.
    pub open spec fn spec_all() -> Seq<Location> {
        seq![
            Location::LuebeckMusikhochschule,
            Location::LuebeckCafeteria,
            Location::LuebeckMensa,
            Location::LuebeckBitsBytes,
            Location::KielMensa1,
            Location::KielCafeteria1,
            Location::KielMensa2,
            Location::KielCafeteria2,
            Location::KielMensaKesselhaus,
            Location::KielSchwentine,
            Location::KielDiner,
            Location::KielDockside,
            Location::HeideMensa,
            Location::FlensburgMensa,
            Location::FlensburgCafeteriaA,
            Location::FlensburgCafeteriaB,
            Location::OsterroenfeldMensa,
            Location::WedelCafeteria,
        ]
    }

    /// The upstream site code of each location.
    pub open spec fn spec_mensa_code(self) -> usize {
        match self {
            Location::LuebeckMusikhochschule => 9,
            Location::LuebeckCafeteria => 8,
            Location::LuebeckMensa => 8,
            Location::LuebeckBitsBytes => 17,
            Location::KielMensa1 => 1,
            Location::KielCafeteria1 => 1,
            Location::KielMensa2 => 2,
            Location::KielCafeteria2 => 2,
            Location::KielMensaKesselhaus => 4,
            Location::KielSchwentine => 5,
            Location::KielDiner => 6,
            Location::KielDockside => 16,
            Location::HeideMensa => 16,
            Location::FlensburgMensa => 7,
            Location::FlensburgCafeteriaA => 7,
            Location::FlensburgCafeteriaB => 14,
            Location::OsterroenfeldMensa => 14,
            Location::WedelCafeteria => 15,
        }
    }

    /// The upstream city code of each location.
    pub open spec fn spec_ort_code(self) -> usize {
        match self {
            Location::LuebeckMusikhochschule => 3,
            Location::LuebeckCafeteria => 3,
            Location::LuebeckMensa => 3,
            Location::LuebeckBitsBytes => 3,
            Location::KielMensa1 => 1,
            Location::KielCafeteria1 => 1,
            Location::KielMensa2 => 1,
            Location::KielCafeteria2 => 1,
            Location::KielMensaKesselhaus => 1,
            Location::KielSchwentine => 1,
            Location::KielDiner => 1,
            Location::KielDockside => 1,
            Location::HeideMensa => 4,
            Location::FlensburgMensa => 2,
            Location::FlensburgCafeteriaA => 2,
            Location::FlensburgCafeteriaB => 2,
            Location::OsterroenfeldMensa => 6,
            Location::WedelCafeteria => 5,
        }
    }

    /// The cafeteria that is served from the same page, or the location itself.
    pub open spec fn spec_cafeteria_option(self) -> Location {
        match self {
            Location::LuebeckMusikhochschule => Location::LuebeckMusikhochschule,
            Location::LuebeckCafeteria => Location::LuebeckCafeteria,
            Location::LuebeckMensa => Location::LuebeckCafeteria,
            Location::LuebeckBitsBytes => Location::LuebeckBitsBytes,
            Location::KielMensa1 => Location::KielCafeteria1,
            Location::KielCafeteria1 => Location::KielCafeteria1,
            Location::KielMensa2 => Location::KielCafeteria2,
            Location::KielCafeteria2 => Location::KielCafeteria2,
            Location::KielMensaKesselhaus => Location::KielMensaKesselhaus,
            Location::KielSchwentine => Location::KielSchwentine,
            Location::KielDiner => Location::KielDiner,
            Location::KielDockside => Location::KielDockside,
            Location::HeideMensa => Location::HeideMensa,
            Location::FlensburgMensa => Location::FlensburgCafeteriaA,
            Location::FlensburgCafeteriaA => Location::FlensburgCafeteriaA,
            Location::FlensburgCafeteriaB => Location::FlensburgCafeteriaB,
            Location::OsterroenfeldMensa => Location::OsterroenfeldMensa,
            Location::WedelCafeteria => Location::WedelCafeteria,
        }
    }

    /// The canteen that is served from the same page, or the location itself.
    pub open spec fn spec_mensa_option(self) -> Location {
        match self {
            Location::LuebeckMusikhochschule => Location::LuebeckMusikhochschule,
            Location::LuebeckCafeteria => Location::LuebeckMensa,
            Location::LuebeckMensa => Location::LuebeckMensa,
            Location::LuebeckBitsBytes => Location::LuebeckBitsBytes,
            Location::KielMensa1 => Location::KielMensa1,
            Location::KielCafeteria1 => Location::KielMensa1,
            Location::KielMensa2 => Location::KielMensa2,
            Location::KielCafeteria2 => Location::KielMensa2,
            Location::KielMensaKesselhaus => Location::KielMensaKesselhaus,
            Location::KielSchwentine => Location::KielSchwentine,
            Location::KielDiner => Location::KielDiner,
            Location::KielDockside => Location::KielDockside,
            Location::HeideMensa => Location::HeideMensa,
            Location::FlensburgMensa => Location::FlensburgMensa,
            Location::FlensburgCafeteriaA => Location::FlensburgMensa,
            Location::FlensburgCafeteriaB => Location::FlensburgCafeteriaB,
            Location::OsterroenfeldMensa => Location::OsterroenfeldMensa,
            Location::WedelCafeteria => Location::WedelCafeteria,
        }
    }

    /// Two locations are served from the same upstream page.
    pub open spec fn same_page(self, other: Location) -> bool {
        self.spec_mensa_code() == other.spec_mensa_code() && self.spec_ort_code()
            == other.spec_ort_code()
    }

    /// Some other location is served from the same upstream page.
    pub open spec fn spec_is_double(self) -> bool {
        exists|other: Location| other != self && #[trigger] self.same_page(other)
    }

    /// Every location, in declaration order.
    pub fn all() -> (all: Vec<Location>)
        ensures
            all@ == Self::spec_all(),
    {
        let mut all: Vec<Location> = Vec::new();
        all.push(Location::LuebeckMusikhochschule);
        all.push(Location::LuebeckCafeteria);
        all.push(Location::LuebeckMensa);
        all.push(Location::LuebeckBitsBytes);
        all.push(Location::KielMensa1);
        all.push(Location::KielCafeteria1);
        all.push(Location::KielMensa2);
        all.push(Location::KielCafeteria2);
        all.push(Location::KielMensaKesselhaus);
        all.push(Location::KielSchwentine);
        all.push(Location::KielDiner);
        all.push(Location::KielDockside);
        all.push(Location::HeideMensa);
        all.push(Location::FlensburgMensa);
        all.push(Location::FlensburgCafeteriaA);
        all.push(Location::FlensburgCafeteriaB);
        all.push(Location::OsterroenfeldMensa);
        all.push(Location::WedelCafeteria);
        assert(all@ =~= Self::spec_all());
        all
    }

    /// The upstream site uses number codes to tell locations apart. This is
    /// the site code of the location.
    pub fn get_mensa_code(&self) -> (code: usize)
        ensures
            code == self.spec_mensa_code(),
    {
        match self {
            Location::LuebeckMusikhochschule => 9,
            Location::LuebeckCafeteria => 8,
            Location::LuebeckMensa => 8,
            Location::LuebeckBitsBytes => 17,
            Location::KielMensa1 => 1,
            Location::KielCafeteria1 => 1,
            Location::KielMensa2 => 2,
            Location::KielCafeteria2 => 2,
            Location::KielMensaKesselhaus => 4,
            Location::KielSchwentine => 5,
            Location::KielDiner => 6,
            Location::KielDockside => 16,
            Location::HeideMensa => 16,
            Location::FlensburgMensa => 7,
            Location::FlensburgCafeteriaA => 7,
            Location::FlensburgCafeteriaB => 14,
            Location::OsterroenfeldMensa => 14,
            Location::WedelCafeteria => 15,
        }
    }

    /// The upstream site uses number codes to tell cities apart. This is the
    /// city code of the location.
    pub fn get_ort_code(&self) -> (code: usize)
        ensures
            code == self.spec_ort_code(),
    {
        match self {
            Location::LuebeckMusikhochschule => 3,
            Location::LuebeckCafeteria => 3,
            Location::LuebeckMensa => 3,
            Location::LuebeckBitsBytes => 3,
            Location::KielMensa1 => 1,
            Location::KielCafeteria1 => 1,
            Location::KielMensa2 => 1,
            Location::KielCafeteria2 => 1,
            Location::KielMensaKesselhaus => 1,
            Location::KielSchwentine => 1,
            Location::KielDiner => 1,
            Location::KielDockside => 1,
            Location::HeideMensa => 4,
            Location::FlensburgMensa => 2,
            Location::FlensburgCafeteriaA => 2,
            Location::FlensburgCafeteriaB => 2,
            Location::OsterroenfeldMensa => 6,
            Location::WedelCafeteria => 5,
        }
    }

    /// The cafeteria served from the page of this location, or the location
    /// itself where the page serves no cafeteria beside it.
    pub fn get_cafeteria_option(&self) -> (option: Self)
        ensures
            option == self.spec_cafeteria_option(),
            option.same_page(*self),
    {
        match self {
            Location::LuebeckMusikhochschule => Location::LuebeckMusikhochschule,
            Location::LuebeckCafeteria => Location::LuebeckCafeteria,
            Location::LuebeckMensa => Location::LuebeckCafeteria,
            Location::LuebeckBitsBytes => Location::LuebeckBitsBytes,
            Location::KielMensa1 => Location::KielCafeteria1,
            Location::KielCafeteria1 => Location::KielCafeteria1,
            Location::KielMensa2 => Location::KielCafeteria2,
            Location::KielCafeteria2 => Location::KielCafeteria2,
            Location::KielMensaKesselhaus => Location::KielMensaKesselhaus,
            Location::KielSchwentine => Location::KielSchwentine,
            Location::KielDiner => Location::KielDiner,
            Location::KielDockside => Location::KielDockside,
            Location::HeideMensa => Location::HeideMensa,
            Location::FlensburgMensa => Location::FlensburgCafeteriaA,
            Location::FlensburgCafeteriaA => Location::FlensburgCafeteriaA,
            Location::FlensburgCafeteriaB => Location::FlensburgCafeteriaB,
            Location::OsterroenfeldMensa => Location::OsterroenfeldMensa,
            Location::WedelCafeteria => Location::WedelCafeteria,
        }
    }

    /// The canteen served from the page of this location, or the location
    /// itself where the page serves no canteen beside it.
    pub fn get_mensa_option(&self) -> (option: Self)
        ensures
            option == self.spec_mensa_option(),
            option.same_page(*self),
    {
        match self {
            Location::LuebeckMusikhochschule => Location::LuebeckMusikhochschule,
            Location::LuebeckCafeteria => Location::LuebeckMensa,
            Location::LuebeckMensa => Location::LuebeckMensa,
            Location::LuebeckBitsBytes => Location::LuebeckBitsBytes,
            Location::KielMensa1 => Location::KielMensa1,
            Location::KielCafeteria1 => Location::KielMensa1,
            Location::KielMensa2 => Location::KielMensa2,
            Location::KielCafeteria2 => Location::KielMensa2,
            Location::KielMensaKesselhaus => Location::KielMensaKesselhaus,
            Location::KielSchwentine => Location::KielSchwentine,
            Location::KielDiner => Location::KielDiner,
            Location::KielDockside => Location::KielDockside,
            Location::HeideMensa => Location::HeideMensa,
            Location::FlensburgMensa => Location::FlensburgMensa,
            Location::FlensburgCafeteriaA => Location::FlensburgMensa,
            Location::FlensburgCafeteriaB => Location::FlensburgCafeteriaB,
            Location::OsterroenfeldMensa => Location::OsterroenfeldMensa,
            Location::WedelCafeteria => Location::WedelCafeteria,
        }
    }

    /// Whether another location shares the upstream page of this one. That is
    /// the case exactly where the canteen and the cafeteria of the page are
    /// two locations.
    pub fn is_double(&self) -> (double: bool)
        ensures
            double == self.spec_is_double(),
            double == (self.spec_mensa_option() != self.spec_cafeteria_option()),
    {
        let all = Location::all();
        let mut i: usize = 0;
        while i < all.len()
            invariant
                i <= all.len(),
                all@ == Self::spec_all(),
                forall|k: int| 0 <= k < i ==> !(all@[k] != *self && self.same_page(all@[k])),
            decreases all.len() - i,
        {
            let other = all[i];
            if other.get_ort_code() == self.get_ort_code() && other.get_mensa_code()
                == self.get_mensa_code() && other != *self {
                assert(self.same_page(other));
                return true;
            }
            i += 1;
        }
        proof {
            assert forall|other: Location| other != *self implies !self.same_page(other) by {
                Self::lemma_all_complete(other);
            }
            assert(self.spec_mensa_option().same_page(*self));
            assert(self.spec_cafeteria_option().same_page(*self));
        }
        false
    }

    /// Every location occurs in [`Location::spec_all`].
    pub proof fn lemma_all_complete(location: Location)
        ensures
            exists|k: int| 0 <= k < Self::spec_all().len() && Self::spec_all()[k] == location,
    {
        let all = Self::spec_all();
        let k: int = match location {
            Location::LuebeckMusikhochschule => 0,
            Location::LuebeckCafeteria => 1,
            Location::LuebeckMensa => 2,
            Location::LuebeckBitsBytes => 3,
            Location::KielMensa1 => 4,
            Location::KielCafeteria1 => 5,
            Location::KielMensa2 => 6,
            Location::KielCafeteria2 => 7,
            Location::KielMensaKesselhaus => 8,
            Location::KielSchwentine => 9,
            Location::KielDiner => 10,
            Location::KielDockside => 11,
            Location::HeideMensa => 12,
            Location::FlensburgMensa => 13,
            Location::FlensburgCafeteriaA => 14,
            Location::FlensburgCafeteriaB => 15,
            Location::OsterroenfeldMensa => 16,
            Location::WedelCafeteria => 17,
        };
        assert(all[k] == location);
    }

    /// The public code of each location.
    pub open spec fn spec_code(self) -> Seq<char> {
        match self {
            Location::LuebeckMusikhochschule => "HL_MH"@,
            Location::LuebeckCafeteria => "HL_CA"@,
            Location::LuebeckMensa => "HL_ME"@,
            Location::LuebeckBitsBytes => "HL_BB"@,
            Location::KielMensa1 => "KI_ME1"@,
            Location::KielCafeteria1 => "KI_CA1"@,
            Location::KielMensa2 => "KI_ME2"@,
            Location::KielCafeteria2 => "KI_CA2"@,
            Location::KielMensaKesselhaus => "KI_KESSELHAUS"@,
            Location::KielSchwentine => "KI_SCHWENTINE"@,
            Location::KielDiner => "KI_DINER"@,
            Location::KielDockside => "KI_DOCKSIDE"@,
            Location::HeideMensa => "HEI_ME1"@,
            Location::FlensburgMensa => "FL_ME1"@,
            Location::FlensburgCafeteriaA => "FL_CA1"@,
            Location::FlensburgCafeteriaB => "FL_CA2"@,
            Location::OsterroenfeldMensa => "RD_ME1"@,
            Location::WedelCafeteria => "PI_CA1"@,
        }
    }

    /// The public name of each location.
    pub open spec fn spec_name(self) -> Seq<char> {
        match self {
            Location::LuebeckMusikhochschule => "Musikhochschule"@,
            Location::LuebeckCafeteria => "Cafeteria"@,
            Location::LuebeckMensa => "Mensa"@,
            Location::LuebeckBitsBytes => "Bits + Bytes"@,
            Location::KielMensa1 => "Mensa I"@,
            Location::KielCafeteria1 => "Cafeteria I"@,
            Location::KielMensa2 => "Mensa II"@,
            Location::KielCafeteria2 => "Cafeteria II"@,
            Location::KielMensaKesselhaus => "Kesselhaus"@,
            Location::KielSchwentine => "Schwentine Mensa"@,
            Location::KielDiner => "American Diner"@,
            Location::KielDockside => "Mensa „Dockside“"@,
            Location::HeideMensa => "Mensa"@,
            Location::FlensburgMensa => "Mensa"@,
            Location::FlensburgCafeteriaA => "Cafeteria A"@,
            Location::FlensburgCafeteriaB => "Cafeteria B"@,
            Location::OsterroenfeldMensa => "Mensa"@,
            Location::WedelCafeteria => "Cafeteria"@,
        }
    }

    /// The city of each location.
    pub open spec fn spec_city(self) -> Seq<char> {
        match self {
            Location::LuebeckMusikhochschule => "Lübeck"@,
            Location::LuebeckCafeteria => "Lübeck"@,
            Location::LuebeckMensa => "Lübeck"@,
            Location::LuebeckBitsBytes => "Lübeck"@,
            Location::KielMensa1 => "Kiel"@,
            Location::KielCafeteria1 => "Kiel"@,
            Location::KielMensa2 => "Kiel"@,
            Location::KielCafeteria2 => "Kiel"@,
            Location::KielMensaKesselhaus => "Kiel"@,
            Location::KielSchwentine => "Kiel"@,
            Location::KielDiner => "Kiel"@,
            Location::KielDockside => "Kiel"@,
            Location::HeideMensa => "Heide"@,
            Location::FlensburgMensa => "Flensburg"@,
            Location::FlensburgCafeteriaA => "Flensburg"@,
            Location::FlensburgCafeteriaB => "Flensburg"@,
            Location::OsterroenfeldMensa => "Osterrönfeld"@,
            Location::WedelCafeteria => "Wedel"@,
        }
    }

    /// The languages in which the menus of each location are published.
    pub open spec fn spec_languages(self) -> Seq<LanguageView> {
        match self {
            Location::LuebeckBitsBytes => seq![Language::spec_german()],
            _ => seq![Language::spec_german(), Language::spec_english()],
        }
    }

    /// The public identity of each location.
    pub open spec fn spec_api_location(self) -> APILocationView {
        APILocationView {
            code: self.spec_code(),
            name: self.spec_name(),
            city: self.spec_city(),
            available_languages: self.spec_languages(),
        }
    }
}

/// The public, locale-independent identity of a serving point.
#[derive(Debug, PartialEq, Eq)]
pub struct APILocation {
    pub code: String,
    pub name: String,
    pub city: String,
    pub available_languages: Vec<Language>,
}

/// The mathematical content of an [`APILocation`].
pub struct APILocationView {
    pub code: Seq<char>,
    pub name: Seq<char>,
    pub city: Seq<char>,
    pub available_languages: Seq<LanguageView>,
}

impl View for APILocation {
    type V = APILocationView;

    open spec fn view(&self) -> APILocationView {
        APILocationView {
            code: self.code@,
            name: self.name@,
            city: self.city@,
            available_languages: self.available_languages.deep_view(),
        }
    }
}

impl DeepView for APILocation {
    type V = APILocationView;

    open spec fn deep_view(&self) -> APILocationView {
        self@
    }
}

impl Clone for APILocation {
    fn clone(&self) -> (copy: Self)
        ensures
            copy@ == self@,
    {
        let copy = APILocation {
            code: self.code.clone(),
            name: self.name.clone(),
            city: self.city.clone(),
            available_languages: self.available_languages.clone(),
        };
        assert(copy.available_languages.deep_view() =~= self.available_languages.deep_view());
        copy
    }
}

impl From<Location> for APILocation {
    /// The public identity of a location, as the lookup table gives it.
    fn from(location: Location) -> (identity: APILocation)
        ensures
            identity@ == location.spec_api_location(),
    {
        let identity = match location {
            Location::LuebeckMusikhochschule => APILocation {
                code: "HL_MH".to_owned(),
                name: "Musikhochschule".to_owned(),
                city: "Lübeck".to_owned(),
                available_languages: vec![Language::german(), Language::english()],
            },
            Location::LuebeckCafeteria => APILocation {
                code: "HL_CA".to_owned(),
                name: "Cafeteria".to_owned(),
                city: "Lübeck".to_owned(),
                available_languages: vec![Language::german(), Language::english()],
            },
            Location::LuebeckMensa => APILocation {
                code: "HL_ME".to_owned(),
                name: "Mensa".to_owned(),
                city: "Lübeck".to_owned(),
                available_languages: vec![Language::german(), Language::english()],
            },
            Location::LuebeckBitsBytes => APILocation {
                code: "HL_BB".to_owned(),
                name: "Bits + Bytes".to_owned(),
                city: "Lübeck".to_owned(),
                available_languages: vec![Language::german()],
            },
            Location::KielMensa1 => APILocation {
                code: "KI_ME1".to_owned(),
                name: "Mensa I".to_owned(),
                city: "Kiel".to_owned(),
                available_languages: vec![Language::german(), Language::english()],
            },
            Location::KielCafeteria1 => APILocation {
                code: "KI_CA1".to_owned(),
                name: "Cafeteria I".to_owned(),
                city: "Kiel".to_owned(),
                available_languages: vec![Language::german(), Language::english()],
            },
            Location::KielMensa2 => APILocation {
                code: "KI_ME2".to_owned(),
                name: "Mensa II".to_owned(),
                city: "Kiel".to_owned(),
                available_languages: vec![Language::german(), Language::english()],
            },
            Location::KielCafeteria2 => APILocation {
                code: "KI_CA2".to_owned(),
                name: "Cafeteria II".to_owned(),
                city: "Kiel".to_owned(),
                available_languages: vec![Language::german(), Language::english()],
            },
            Location::KielMensaKesselhaus => APILocation {
                code: "KI_KESSELHAUS".to_owned(),
                name: "Kesselhaus".to_owned(),
                city: "Kiel".to_owned(),
                available_languages: vec![Language::german(), Language::english()],
            },
            Location::KielSchwentine => APILocation {
                code: "KI_SCHWENTINE".to_owned(),
                name: "Schwentine Mensa".to_owned(),
                city: "Kiel".to_owned(),
                available_languages: vec![Language::german(), Language::english()],
            },
            Location::KielDiner => APILocation {
                code: "KI_DINER".to_owned(),
                name: "American Diner".to_owned(),
                city: "Kiel".to_owned(),
                available_languages: vec![Language::german(), Language::english()],
            },
            Location::KielDockside => APILocation {
                code: "KI_DOCKSIDE".to_owned(),
                name: "Mensa „Dockside“".to_owned(),
                city: "Kiel".to_owned(),
                available_languages: vec![Language::german(), Language::english()],
            },
            Location::HeideMensa => APILocation {
                code: "HEI_ME1".to_owned(),
                name: "Mensa".to_owned(),
                city: "Heide".to_owned(),
                available_languages: vec![Language::german(), Language::english()],
            },
            Location::FlensburgMensa => APILocation {
                code: "FL_ME1".to_owned(),
                name: "Mensa".to_owned(),
                city: "Flensburg".to_owned(),
                available_languages: vec![Language::german(), Language::english()],
            },
            Location::FlensburgCafeteriaA => APILocation {
                code: "FL_CA1".to_owned(),
                name: "Cafeteria A".to_owned(),
                city: "Flensburg".to_owned(),
                available_languages: vec![Language::german(), Language::english()],
            },
            Location::FlensburgCafeteriaB => APILocation {
                code: "FL_CA2".to_owned(),
                name: "Cafeteria B".to_owned(),
                city: "Flensburg".to_owned(),
                available_languages: vec![Language::german(), Language::english()],
            },
            Location::OsterroenfeldMensa => APILocation {
                code: "RD_ME1".to_owned(),
                name: "Mensa".to_owned(),
                city: "Osterrönfeld".to_owned(),
                available_languages: vec![Language::german(), Language::english()],
            },
            Location::WedelCafeteria => APILocation {
                code: "PI_CA1".to_owned(),
                name: "Cafeteria".to_owned(),
                city: "Wedel".to_owned(),
                available_languages: vec![Language::german(), Language::english()],
            },
        };
        assert(identity.available_languages.deep_view() =~= location.spec_languages());
        identity
    }
}

impl FromSpecImpl<Location> for APILocation {
    open spec fn obeys_from_spec() -> bool {
        false
    }

    open spec fn from_spec(location: Location) -> APILocation {
        arbitrary()
    }
}

/// An allergen or additive as the catalogue of one language names it. The
/// same substance has one record for each language it is published in.
#[derive(Debug, PartialEq, Eq)]
pub struct Allergen {
    pub code: String,
    pub name: String,
    pub language: Language,
}

/// The mathematical content of an [`Allergen`].
pub struct AllergenView {
    pub code: Seq<char>,
    pub name: Seq<char>,
    pub language: LanguageView,
}

impl View for Allergen {
    type V = AllergenView;

    open spec fn view(&self) -> AllergenView {
        AllergenView { code: self.code@, name: self.name@, language: self.language@ }
    }
}

impl DeepView for Allergen {
    type V = AllergenView;

    open spec fn deep_view(&self) -> AllergenView {
        self@
    }
}

impl Clone for Allergen {
    fn clone(&self) -> (copy: Self)
        ensures
            copy == *self,
    {
        Allergen {
            code: self.code.clone(),
            name: self.name.clone(),
            language: self.language.clone(),
        }
    }
}

/// One meal on one day at one serving point, in one language.
#[derive(Debug, PartialEq, Eq)]
pub struct Meal {
    pub name: String,
    /// The date as the page gives it.
    pub date: String,
    pub price: Prices,
    pub vegan: bool,
    pub vegetarian: bool,
    pub location: APILocation,
    pub allergens: Vec<Allergen>,
    pub language: Language,
}

/// The mathematical content of a [`Meal`].
pub struct MealView {
    pub name: Seq<char>,
    pub date: Seq<char>,
    pub price: Prices,
    pub vegan: bool,
    pub vegetarian: bool,
    pub location: APILocationView,
    pub allergens: Seq<AllergenView>,
    pub language: LanguageView,
}

impl View for Meal {
    type V = MealView;

    open spec fn view(&self) -> MealView {
        MealView {
            name: self.name@,
            date: self.date@,
            price: self.price,
            vegan: self.vegan,
            vegetarian: self.vegetarian,
            location: self.location@,
            allergens: self.allergens.deep_view(),
            language: self.language@,
        }
    }
}

impl DeepView for Meal {
    type V = MealView;

    open spec fn deep_view(&self) -> MealView {
        self@
    }
}

impl Clone for Meal {
    fn clone(&self) -> (copy: Self)
        ensures
            copy@ == self@,
    {
        let copy = Meal {
            name: self.name.clone(),
            date: self.date.clone(),
            price: self.price,
            vegan: self.vegan,
            vegetarian: self.vegetarian,
            location: self.location.clone(),
            allergens: self.allergens.clone(),
            language: self.language.clone(),
        };
        assert(copy.allergens.deep_view() =~= self.allergens.deep_view());
        copy
    }
}

impl MealView {
    /// A vegan meal is a vegetarian meal.
    pub open spec fn well_formed(self) -> bool {
        self.vegan ==> self.vegetarian
    }
}

} // verus!
