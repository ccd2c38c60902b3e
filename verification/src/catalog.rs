//! Catalog data model and request-building rules.
//!
//! The upstream catalog is a four-level hierarchy: company -> location ->
//! menu-group/category -> menu-item, with raw materials attached to one
//! item.  Every entity here is an immutable value record for the duration
//! of one request; the unverified shell decodes the catalog's `{data: T}`
//! envelopes into these records and hands them to the state machines.

use vstd::prelude::*;

verus! {

/// Root of the catalog hierarchy; fetched fresh on every request.
#[derive(Clone, Debug)]
pub struct Company {
    pub id: String,
}

/// One entry of a location's special-group tag list; the first entry's
/// free-text name carries the venue tag used for matching.
#[derive(Clone, Debug)]
pub struct GroupTag {
    pub name: String,
}

/// A physical location returned by the nearby-restaurants call.  An empty
/// tag list means the location is unmatchable, which excludes it from the
/// candidate set without being an error.
#[derive(Clone, Debug)]
pub struct Location {
    pub id: String,
    pub group_tags: Vec<GroupTag>,
}

/// A menu group, conceptually keyed by day through its free-text name.
#[derive(Clone, Debug)]
pub struct MenuGroup {
    pub id: String,
    pub name: String,
}

/// A menu category, conceptually keyed by meal through its free-text name.
#[derive(Clone, Debug)]
pub struct MenuCategory {
    pub id: String,
    pub name: String,
}

/// The groups and categories of one location.
#[derive(Clone, Debug)]
pub struct MenuGroups {
    pub menu_groups: Vec<MenuGroup>,
    pub menu_categories: Vec<MenuCategory>,
}

/// One dish on a menu.
#[derive(Clone, Debug)]
pub struct MenuItem {
    pub id: String,
    pub name: String,
    pub description: String,
}

/// One ingredient/nutrition line attached to a menu item.
#[derive(Clone, Debug)]
pub struct RawMaterial {
    pub name: String,
}

/// One titled block of rendered text handed to the display collaborator.
#[derive(Clone, Debug)]
pub struct Section {
    pub title: String,
    pub body: String,
}

/// The abstract value of a `Section`: its title and body as character
/// sequences.
pub struct SectionV {
    pub title: Seq<char>,
    pub body: Seq<char>,
}

impl View for Section {
    type V = SectionV;

    open spec fn view(&self) -> SectionV {
        SectionV { title: self.title@, body: self.body@ }
    }
}

/// The abstract value of a section list.
pub open spec fn sv(v: Vec<Section>) -> Seq<SectionV> {
    v@.map_values(|s: Section| s@)
}

/// Build a `SectionV` from a title and a body.
pub open spec fn sec_v(title: Seq<char>, body: Seq<char>) -> SectionV {
    SectionV { title, body }
}

/// The fixed user-preferences document sent, verbatim, as the
/// `userPreferences` query parameter of the menu-items call: empty
/// allergy/lifestyle/goal lists and preferences not applied.  The
/// upstream API requires this exact JSON text when no dietary
/// preferences are set.
pub fn user_preferences_json() -> (r: &'static str)
    ensures
        r@
            == "{\"allergies\":[],\"lifestyleChoices\":[],\"medicalGoals\":[],\"preferenceApplyStatus\":false}"@,
{
    "{\"allergies\":[],\"lifestyleChoices\":[],\"medicalGoals\":[],\"preferenceApplyStatus\":false}"
}

/// The raw-materials POST body is a fixed JSON template with the item and
/// location identifiers substituted into its two placeholder slots; this
/// is the text before the item identifier.
pub fn raw_materials_body_prefix() -> (r: &'static str)
    ensures
        r@ == "{ \"menuId\": \""@,
{
    "{ \"menuId\": \""
}

/// The raw-materials template text between the item identifier and the
/// location identifier.
pub fn raw_materials_body_middle() -> (r: &'static str)
    ensures
        r@
            == "\", \"fdaRounding\": true, \"allergyIds\": [], \"lifestyleChoiceIds\": [], \"nutritionGoals\": [], \"preferenceApplyStatus\": false, \"skipCommonIngredients\": [], \"locationId\": \""@,
{
    "\", \"fdaRounding\": true, \"allergyIds\": [], \"lifestyleChoiceIds\": [], \"nutritionGoals\": [], \"preferenceApplyStatus\": false, \"skipCommonIngredients\": [], \"locationId\": \""
}

/// The raw-materials template text after the location identifier.
pub fn raw_materials_body_suffix() -> (r: &'static str)
    ensures
        r@ == "\" }"@,
{
    "\" }"
}

/// The raw-materials POST body for one item at one location: the fixed
/// template with the two identifiers substituted by exact string
/// replacement.
pub fn raw_materials_body(item_id: &str, location_id: &str) -> (r: String)
    ensures
        r@ == "{ \"menuId\": \""@ + item_id@
            + "\", \"fdaRounding\": true, \"allergyIds\": [], \"lifestyleChoiceIds\": [], \"nutritionGoals\": [], \"preferenceApplyStatus\": false, \"skipCommonIngredients\": [], \"locationId\": \""@
            + location_id@ + "\" }"@,
{
    let mut body = String::from_str(raw_materials_body_prefix());
    body.append(item_id);
    body.append(raw_materials_body_middle());
    body.append(location_id);
    body.append(raw_materials_body_suffix());
    body
}

} // verus!
