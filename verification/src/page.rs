//! What the parser reads from a page, as plain values: the day blocks with
//! their meal blocks, and the entries of the allergen catalogue.

use vstd::prelude::*;
use regex::Regex;
use scraper::{ElementRef, Html, Selector};
use crate::dom::{
    attribute_of, child_elements_of, compile_selector, element_attribute, element_children,
    element_inner_html, element_texts, inner_html_of, select_in_document, select_in_element,
    selected_in_document, selected_in_element, selector_of, texts_of,
};
use crate::markup::{pattern_of, spec_tag_pattern, tag_pattern};

verus! {

/// The raw fields of one meal as they stand on the page. A field is `None`
/// where the page lacks the element or attribute that holds it.
#[derive(Debug, PartialEq, Eq)]
pub struct MealBlock {
    /// The markup inside the name element.
    pub name_html: Option<String>,
    /// The compact list of dietary kinds.
    pub kinds: Option<String>,
    /// The markup inside the category marker.
    pub category_html: Option<String>,
    /// The raw list of allergen codes.
    pub allergen_codes: Option<String>,
    /// The text nodes of the price element.
    pub price_texts: Option<Vec<String>>,
}

/// The mathematical content of a [`MealBlock`].
pub struct MealBlockView {
    pub name_html: Option<Seq<char>>,
    pub kinds: Option<Seq<char>>,
    pub category_html: Option<Seq<char>>,
    pub allergen_codes: Option<Seq<char>>,
    pub price_texts: Option<Seq<Seq<char>>>,
}

impl View for MealBlock {
    type V = MealBlockView;

    open spec fn view(&self) -> MealBlockView {
        MealBlockView {
            name_html: self.name_html.deep_view(),
            kinds: self.kinds.deep_view(),
            category_html: self.category_html.deep_view(),
            allergen_codes: self.allergen_codes.deep_view(),
            price_texts: self.price_texts.deep_view(),
        }
    }
}

impl DeepView for MealBlock {
    type V = MealBlockView;

    open spec fn deep_view(&self) -> MealBlockView {
        self@
    }
}

/// One day of a page: its date and the meals listed under it.
#[derive(Debug, PartialEq, Eq)]
pub struct DayBlock {
    /// The machine-readable date of the day header.
    pub date: Option<String>,
    pub meals: Vec<MealBlock>,
}

/// The mathematical content of a [`DayBlock`].
pub struct DayBlockView {
    pub date: Option<Seq<char>>,
    pub meals: Seq<MealBlockView>,
}

impl View for DayBlock {
    type V = DayBlockView;

    open spec fn view(&self) -> DayBlockView {
        DayBlockView { date: self.date.deep_view(), meals: self.meals.deep_view() }
    }
}

impl DeepView for DayBlock {
    type V = DayBlockView;

    open spec fn deep_view(&self) -> DayBlockView {
        self@
    }
}

/// One entry of the allergen catalogue as it stands on the page.
#[derive(Debug, PartialEq, Eq)]
pub struct AllergenEntry {
    /// The machine code of the entry.
    pub code: Option<String>,
    /// The markup inside the second child element, which holds the label.
    pub label_html: Option<String>,
}

/// The mathematical content of an [`AllergenEntry`].
pub struct AllergenEntryView {
    pub code: Option<Seq<char>>,
    pub label_html: Option<Seq<char>>,
}

impl View for AllergenEntry {
    type V = AllergenEntryView;

    open spec fn view(&self) -> AllergenEntryView {
        AllergenEntryView { code: self.code.deep_view(), label_html: self.label_html.deep_view() }
    }
}

impl DeepView for AllergenEntry {
    type V = AllergenEntryView;

    open spec fn deep_view(&self) -> AllergenEntryView {
        self@
    }
}

/// The compiled selectors and the tag pattern that reading a menu page takes.
pub struct MealPatterns {
    pub day: Selector,
    pub meal: Selector,
    pub name: Selector,
    pub price: Selector,
    pub category: Selector,
    pub tags: Regex,
}

impl MealPatterns {
    /// The patterns of a menu page, if the engines accept every one of them.
    pub open spec fn spec_compile() -> Option<MealPatterns> {
        match (
            selector_of(".tag_headline[data-day]"@),
            selector_of(".mensa_menu_detail"@),
            selector_of(".menu_name"@),
            selector_of(".menu_preis"@),
            selector_of(".menu_art"@),
            pattern_of(spec_tag_pattern()),
        ) {
            (Some(day), Some(meal), Some(name), Some(price), Some(category), Some(tags)) => Some(
                MealPatterns { day, meal, name, price, category, tags },
            ),
            _ => None,
        }
    }

    /// Compiles the patterns of a menu page.
    pub fn compile() -> (patterns: Option<MealPatterns>)
        ensures
            patterns == Self::spec_compile(),
    {
        let day = compile_selector(".tag_headline[data-day]");
        let meal = compile_selector(".mensa_menu_detail");
        let name = compile_selector(".menu_name");
        let price = compile_selector(".menu_preis");
        let category = compile_selector(".menu_art");
        let tags = tag_pattern();
        match (day, meal, name, price, category, tags) {
            (Some(day), Some(meal), Some(name), Some(price), Some(category), Some(tags)) => Some(
                MealPatterns { day, meal, name, price, category, tags },
            ),
            _ => None,
        }
    }
}

/// The markup inside the first of the elements, if there is any.
pub open spec fn spec_first_inner_html(found: Seq<ElementRef>) -> Option<Seq<char>> {
    if found.len() > 0 {
        Some(inner_html_of(found[0]))
    } else {
        None
    }
}

/// The text nodes of the first of the elements, if there is any.
pub open spec fn spec_first_texts(found: Seq<ElementRef>) -> Option<Seq<Seq<char>>> {
    if found.len() > 0 {
        Some(texts_of(found[0]))
    } else {
        None
    }
}

/// The raw fields of the meal that an element of the page describes.
pub open spec fn spec_meal_block(element: ElementRef, patterns: MealPatterns) -> MealBlockView {
    MealBlockView {
        name_html: spec_first_inner_html(selected_in_element(element, patterns.name)),
        kinds: attribute_of(element, "data-arten"@),
        category_html: spec_first_inner_html(selected_in_element(element, patterns.category)),
        allergen_codes: attribute_of(element, "data-allergene"@),
        price_texts: spec_first_texts(selected_in_element(element, patterns.price)),
    }
}

/// The day that a day header of the page describes, with the meals below it.
pub open spec fn spec_day_block(element: ElementRef, patterns: MealPatterns) -> DayBlockView {
    DayBlockView {
        date: attribute_of(element, "data-day"@),
        meals: selected_in_element(element, patterns.meal).map_values(
            |meal: ElementRef| spec_meal_block(meal, patterns),
        ),
    }
}

/// The days of a menu page, in the order of the page.
pub open spec fn spec_day_blocks(document: Html, patterns: MealPatterns) -> Seq<DayBlockView> {
    selected_in_document(document, patterns.day).map_values(
        |day: ElementRef| spec_day_block(day, patterns),
    )
}

/// The markup inside the first of the elements, if there is any.
pub fn first_inner_html(found: &Vec<ElementRef>) -> (html: Option<String>)
    ensures
        html.deep_view() == spec_first_inner_html(found@),
{
    if found.len() > 0 {
        Some(element_inner_html(found[0]))
    } else {
        None
    }
}

/// Reads the raw fields of one meal.
pub fn meal_block(element: ElementRef, patterns: &MealPatterns) -> (block: MealBlock)
    ensures
        block@ == spec_meal_block(element, *patterns),
{
    let names = select_in_element(element, &patterns.name);
    let categories = select_in_element(element, &patterns.category);
    let prices = select_in_element(element, &patterns.price);
    let price_texts = if prices.len() > 0 {
        Some(element_texts(prices[0]))
    } else {
        None
    };
    MealBlock {
        name_html: first_inner_html(&names),
        kinds: element_attribute(element, "data-arten"),
        category_html: first_inner_html(&categories),
        allergen_codes: element_attribute(element, "data-allergene"),
        price_texts,
    }
}

/// Reads one day with the meals below it.
pub fn day_block(element: ElementRef, patterns: &MealPatterns) -> (block: DayBlock)
    ensures
        block@ == spec_day_block(element, *patterns),
{
    let found = select_in_element(element, &patterns.meal);
    let mut meals: Vec<MealBlock> = Vec::new();
    let mut i: usize = 0;
    while i < found.len()
        invariant
            i <= found.len(),
            meals@.len() == i,
            meals.deep_view() == found@.take(i as int).map_values(
                |meal: ElementRef| spec_meal_block(meal, *patterns),
            ),
        decreases found.len() - i,
    {
        let block = meal_block(found[i], patterns);
        let ghost before = meals.deep_view();
        meals.push(block);
        assert forall|k: int| 0 <= k < i + 1 implies meals.deep_view()[k] == spec_meal_block(
            found@[k], *patterns,
        ) by {
            if k < i {
                assert(meals.deep_view()[k] == before[k]);
                assert(found@.take(i as int)[k] == found@[k]);
            }
        }
        assert(meals.deep_view() =~= found@.take(i + 1).map_values(
            |meal: ElementRef| spec_meal_block(meal, *patterns),
        ));
        i += 1;
    }
    assert(found@.take(i as int) =~= found@);
    DayBlock { date: element_attribute(element, "data-day"), meals }
}

/// Reads the days of a menu page.
pub fn day_blocks(document: &Html, patterns: &MealPatterns) -> (days: Vec<DayBlock>)
    ensures
        days.deep_view() == spec_day_blocks(*document, *patterns),
{
    let found = select_in_document(document, &patterns.day);
    let mut days: Vec<DayBlock> = Vec::new();
    let mut i: usize = 0;
    while i < found.len()
        invariant
            i <= found.len(),
            days@.len() == i,
            days.deep_view() == found@.take(i as int).map_values(
                |day: ElementRef| spec_day_block(day, *patterns),
            ),
        decreases found.len() - i,
    {
        let block = day_block(found[i], patterns);
        let ghost before = days.deep_view();
        days.push(block);
        assert forall|k: int| 0 <= k < i + 1 implies days.deep_view()[k] == spec_day_block(
            found@[k], *patterns,
        ) by {
            if k < i {
                assert(days.deep_view()[k] == before[k]);
                assert(found@.take(i as int)[k] == found@[k]);
            }
        }
        assert(days.deep_view() =~= found@.take(i + 1).map_values(
            |day: ElementRef| spec_day_block(day, *patterns),
        ));
        i += 1;
    }
    assert(found@.take(i as int) =~= found@);
    days
}

/// The entry that a child of the catalogue container describes.
pub open spec fn spec_allergen_entry(element: ElementRef) -> AllergenEntryView {
    let children = child_elements_of(element);
    AllergenEntryView {
        code: attribute_of(element, "data-wert"@),
        label_html: if children.len() > 1 {
            Some(inner_html_of(children[1]))
        } else {
            None
        },
    }
}

/// The entries of the allergen catalogue of a page: the child elements of
/// the first catalogue container, or `None` where the page has no container.
pub open spec fn spec_allergen_entries(document: Html, catalog: Selector) -> Option<
    Seq<AllergenEntryView>,
> {
    let containers = selected_in_document(document, catalog);
    if containers.len() > 0 {
        Some(
            child_elements_of(containers[0]).map_values(
                |entry: ElementRef| spec_allergen_entry(entry),
            ),
        )
    } else {
        None
    }
}

/// Reads one entry of the allergen catalogue.
pub fn allergen_entry(element: ElementRef) -> (entry: AllergenEntry)
    ensures
        entry@ == spec_allergen_entry(element),
{
    let children = element_children(element);
    let label_html = if children.len() > 1 {
        Some(element_inner_html(children[1]))
    } else {
        None
    };
    AllergenEntry { code: element_attribute(element, "data-wert"), label_html }
}

/// Reads the entries of the allergen catalogue of a page.
pub fn allergen_entries(document: &Html, catalog: &Selector) -> (entries: Option<
    Vec<AllergenEntry>,
>)
    ensures
        entries.deep_view() == spec_allergen_entries(*document, *catalog),
{
    let containers = select_in_document(document, catalog);
    if containers.len() == 0 {
        return None;
    }
    let found = element_children(containers[0]);
    let mut entries: Vec<AllergenEntry> = Vec::new();
    let mut i: usize = 0;
    while i < found.len()
        invariant
            i <= found.len(),
            entries@.len() == i,
            entries.deep_view() == found@.take(i as int).map_values(
                |entry: ElementRef| spec_allergen_entry(entry),
            ),
        decreases found.len() - i,
    {
        let entry = allergen_entry(found[i]);
        let ghost before = entries.deep_view();
        entries.push(entry);
        assert forall|k: int| 0 <= k < i + 1 implies entries.deep_view()[k] == spec_allergen_entry(
            found@[k],
        ) by {
            if k < i {
                assert(entries.deep_view()[k] == before[k]);
                assert(found@.take(i as int)[k] == found@[k]);
            }
        }
        assert(entries.deep_view() =~= found@.take(i + 1).map_values(
            |entry: ElementRef| spec_allergen_entry(entry),
        ));
        i += 1;
    }
    assert(found@.take(i as int) =~= found@);
    Some(entries)
}

} // verus!
