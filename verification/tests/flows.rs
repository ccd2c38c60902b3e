use pav_dining::catalog::{
    Company, GroupTag, Location, MenuGroup, MenuGroups, MenuCategory, MenuItem, RawMaterial,
};
use pav_dining::menu_flow::{MenuFlow, MenuEvent, MenuAction};
use pav_dining::announce_flow::{AnnFlow, AnnEvent, AnnAction};
use pav_dining::temporal::{Day, Meal};

fn company() -> Company {
    Company { id: "comp1".to_string() }
}

fn loc(id: &str, tag: &str) -> Location {
    Location {
        id: id.to_string(),
        group_tags: vec![GroupTag { name: tag.to_string() }],
    }
}

fn groups(gs: &[(&str, &str)], cs: &[(&str, &str)]) -> MenuGroups {
    MenuGroups {
        menu_groups: gs
            .iter()
            .map(|(id, name)| MenuGroup { id: id.to_string(), name: name.to_string() })
            .collect(),
        menu_categories: cs
            .iter()
            .map(|(id, name)| MenuCategory { id: id.to_string(), name: name.to_string() })
            .collect(),
    }
}

fn item(name: &str, desc: &str) -> MenuItem {
    MenuItem { id: "it1".to_string(), name: name.to_string(), description: desc.to_string() }
}

#[test]
fn company_failure_yields_one_error_section_and_stops() {
    let (flow, act) = MenuFlow::start(Day::Monday, Meal::Lunch);
    assert!(matches!(act, MenuAction::FetchCompany));
    let (flow, act) = flow.step(MenuEvent::Company(None));
    assert!(matches!(act, MenuAction::Finished));
    let sections = flow.into_sections();
    assert_eq!(sections.len(), 1);
    assert_eq!(sections[0].title, "Error~");
    assert_eq!(sections[0].body, "Failed to get company info!");
}

#[test]
fn locations_failure_yields_one_error_section_and_stops() {
    let (flow, _) = MenuFlow::start(Day::Monday, Meal::Lunch);
    let (flow, act) = flow.step(MenuEvent::Company(Some(company())));
    match act {
        MenuAction::FetchLocations { company_id } => assert_eq!(company_id, "comp1"),
        _ => panic!("expected a locations fetch"),
    }
    let (flow, act) = flow.step(MenuEvent::Locations(None));
    assert!(matches!(act, MenuAction::Finished));
    let sections = flow.into_sections();
    assert_eq!(sections.len(), 1);
    assert_eq!(sections[0].body, "Failed to load restaurant info!");
}

#[test]
fn unmatched_primary_still_attempts_secondary_on_a_qualifying_day() {
    let (flow, _) = MenuFlow::start(Day::Wednesday, Meal::Lunch);
    let (flow, _) = flow.step(MenuEvent::Company(Some(company())));
    let locs = vec![loc("l-yab", "YWDC spring")];
    let (flow, act) = flow.step(MenuEvent::Locations(Some(locs)));
    match act {
        MenuAction::FetchGroups { company_id, location_id } => {
            assert_eq!(company_id, "comp1");
            assert_eq!(location_id, "l-yab");
        },
        _ => panic!("secondary venue was not attempted"),
    }
    let (flow, act) = flow.step(MenuEvent::Groups(None));
    assert!(matches!(act, MenuAction::Finished));
    let sections = flow.into_sections();
    assert_eq!(sections.len(), 2);
    assert_eq!(sections[0].title, "Error~");
    assert!(sections[0].body.contains("restaurant link"));
    assert_eq!(sections[1].title, "Yablokoff Error~");
    assert_eq!(
        sections[1].body,
        "Failed to get groups and categories from the website!"
    );
}

#[test]
fn unmatched_primary_on_weekend_stops_with_one_section() {
    let (flow, _) = MenuFlow::start(Day::Saturday, Meal::Lunch);
    let (flow, _) = flow.step(MenuEvent::Company(Some(company())));
    let (flow, act) = flow.step(MenuEvent::Locations(Some(vec![loc("l-yab", "ywdc")])));
    assert!(matches!(act, MenuAction::Finished));
    let sections = flow.into_sections();
    assert_eq!(sections.len(), 1);
    assert_eq!(sections[0].title, "Error~");
}

#[test]
fn no_group_for_day_yields_labeled_section() {
    let (flow, _) = MenuFlow::start(Day::Sunday, Meal::Lunch);
    let (flow, _) = flow.step(MenuEvent::Company(Some(company())));
    let (flow, act) = flow.step(MenuEvent::Locations(Some(vec![loc("l-pav", "Spring pvl")])));
    assert!(matches!(act, MenuAction::FetchGroups { .. }));
    let g = groups(&[("g1", "Week of Monday")], &[("c1", "Lunch")]);
    let (flow, act) = flow.step(MenuEvent::Groups(Some(g)));
    assert!(matches!(act, MenuAction::Finished));
    let sections = flow.into_sections();
    assert_eq!(sections.len(), 1);
    assert_eq!(sections[0].title, "Error~");
    assert_eq!(sections[0].body, "Could not find a group for the given day!");
}

#[test]
fn secondary_dinner_is_unfiltered_and_drops_housekeeping_categories() {
    let (flow, _) = MenuFlow::start(Day::Tuesday, Meal::Dinner);
    let (flow, _) = flow.step(MenuEvent::Company(Some(company())));
    let locs = vec![loc("l-pav", "spring PVL"), loc("l-yab", "spring YWDC")];
    let (flow, act) = flow.step(MenuEvent::Locations(Some(locs)));
    match act {
        MenuAction::FetchGroups { location_id, .. } => assert_eq!(location_id, "l-pav"),
        _ => panic!("expected the primary groups fetch"),
    }

    // Primary branch: one category matches "dinner".
    let g = groups(&[("g1", "Tuesday")], &[("c1", "Dinner"), ("c2", "Lunch")]);
    let (flow, act) = flow.step(MenuEvent::Groups(Some(g)));
    match &act {
        MenuAction::FetchItems { category_id, group_id, location_id, .. } => {
            assert_eq!(category_id, "c1");
            assert_eq!(group_id, "g1");
            assert_eq!(location_id, "l-pav");
        },
        _ => panic!("expected an items fetch for the primary dinner"),
    }
    let (flow, act) = flow.step(MenuEvent::Items(Some(vec![item("Pasta", "good")])));

    // Primary exhausted; secondary branch starts.
    match &act {
        MenuAction::FetchGroups { location_id, .. } => assert_eq!(location_id, "l-yab"),
        _ => panic!("expected the secondary groups fetch"),
    }

    // Secondary branch: meal is Dinner, so every category is queued.
    let g2 = groups(
        &[("g2", "Tuesday")],
        &[("d1", "Entrees"), ("d2", "Weekly Schedule"), ("d3", "HOW TO order"), ("d4", "Dessert")],
    );
    let (flow, act) = flow.step(MenuEvent::Groups(Some(g2)));
    match &act {
        MenuAction::FetchItems { category_id, .. } => assert_eq!(category_id, "d1"),
        _ => panic!("expected items for the first secondary category"),
    }
    let (flow, act) = flow.step(MenuEvent::Items(Some(vec![item("Stew", "hot")])));
    assert!(matches!(act, MenuAction::FetchItems { .. }));
    let (flow, act) = flow.step(MenuEvent::Items(Some(vec![item("Hours", "calendar")])));
    assert!(matches!(act, MenuAction::FetchItems { .. }));
    let (flow, act) = flow.step(MenuEvent::Items(Some(vec![item("Steps", "ordering")])));
    assert!(matches!(act, MenuAction::FetchItems { .. }));
    let (flow, act) = flow.step(MenuEvent::Items(None));
    assert!(matches!(act, MenuAction::Finished));

    let sections = flow.into_sections();
    let titles: Vec<&str> = sections.iter().map(|s| s.title.as_str()).collect();
    assert_eq!(titles, vec!["Dinner", "Yablokoff Entrees", "Yablokoff Dessert"]);
    assert_eq!(sections[0].body, "**Pasta** - good");
    assert_eq!(sections[1].body, "**Stew** - hot");
    assert_eq!(sections[2].body, "Failed to get the menu from the website!");
}

#[test]
fn secondary_non_dinner_meal_keeps_the_normal_filter() {
    let (flow, _) = MenuFlow::start(Day::Monday, Meal::Breakfast);
    let (flow, _) = flow.step(MenuEvent::Company(Some(company())));
    let locs = vec![loc("l-pav", "pvl"), loc("l-yab", "ywdc")];
    let (flow, _) = flow.step(MenuEvent::Locations(Some(locs)));
    let g = groups(&[("g1", "Monday")], &[("c1", "Breakfast")]);
    let (flow, _) = flow.step(MenuEvent::Groups(Some(g)));
    let (flow, _) = flow.step(MenuEvent::Items(Some(vec![item("Eggs", "fried")])));
    // Secondary branch with Breakfast: only categories containing
    // "breakfast" are queued, and there are none.
    let g2 = groups(&[("g2", "Monday")], &[("d1", "Dinner Entrees")]);
    let (flow, act) = flow.step(MenuEvent::Groups(Some(g2)));
    assert!(matches!(act, MenuAction::Finished));
    let sections = flow.into_sections();
    assert_eq!(sections.len(), 1);
    assert_eq!(sections[0].title, "Breakfast");
}

#[test]
fn unmatched_secondary_tag_contributes_its_retitled_link_error() {
    let (flow, _) = MenuFlow::start(Day::Monday, Meal::Lunch);
    let (flow, _) = flow.step(MenuEvent::Company(Some(company())));
    let (flow, _) = flow.step(MenuEvent::Locations(Some(vec![loc("l-pav", "pvl")])));
    let g = groups(&[("g1", "Monday")], &[("c1", "Lunch")]);
    let (flow, _) = flow.step(MenuEvent::Groups(Some(g)));
    let (flow, act) = flow.step(MenuEvent::Items(Some(vec![item("Wrap", "fresh")])));
    // Monday qualifies, but no location carries the secondary tag.
    assert!(matches!(act, MenuAction::Finished));
    let sections = flow.into_sections();
    assert_eq!(sections.len(), 2);
    assert_eq!(sections[0].title, "Lunch");
    assert_eq!(sections[1].title, "Yablokoff Error~");
    assert!(sections[1].body.contains("restaurant link"));
}

#[test]
fn every_matching_primary_category_becomes_one_section_in_order() {
    let (flow, _) = MenuFlow::start(Day::Saturday, Meal::Lunch);
    let (flow, _) = flow.step(MenuEvent::Company(Some(company())));
    let (flow, _) = flow.step(MenuEvent::Locations(Some(vec![loc("l-pav", "pvl")])));
    let g = groups(
        &[("g1", "Saturday")],
        &[("c1", "Lunch Entrees"), ("c2", "Dinner"), ("c3", "LUNCH Desserts")],
    );
    let (flow, act) = flow.step(MenuEvent::Groups(Some(g)));
    match &act {
        MenuAction::FetchItems { category_id, .. } => assert_eq!(category_id, "c1"),
        _ => panic!("expected items for the first matching category"),
    }
    let (flow, act) = flow.step(MenuEvent::Items(Some(vec![item("Soup", "warm")])));
    match &act {
        MenuAction::FetchItems { category_id, .. } => assert_eq!(category_id, "c3"),
        _ => panic!("expected items for the second matching category"),
    }
    let (flow, act) = flow.step(MenuEvent::Items(Some(Vec::new())));
    // Saturday does not qualify for the secondary venue.
    assert!(matches!(act, MenuAction::Finished));
    let sections = flow.into_sections();
    assert_eq!(sections.len(), 2);
    assert_eq!(sections[0].title, "Lunch Entrees");
    assert_eq!(sections[0].body, "**Soup** - warm");
    assert_eq!(sections[1].title, "LUNCH Desserts");
    assert_eq!(sections[1].body, "There is nothing on the menu?");
}

#[test]
fn primary_groups_failure_still_attempts_secondary() {
    let (flow, _) = MenuFlow::start(Day::Friday, Meal::Dinner);
    let (flow, _) = flow.step(MenuEvent::Company(Some(company())));
    let locs = vec![loc("l-pav", "pvl"), loc("l-yab", "ywdc")];
    let (flow, _) = flow.step(MenuEvent::Locations(Some(locs)));
    let (flow, act) = flow.step(MenuEvent::Groups(None));
    match &act {
        MenuAction::FetchGroups { location_id, .. } => assert_eq!(location_id, "l-yab"),
        _ => panic!("secondary venue was not attempted after the primary failure"),
    }
    let g2 = groups(&[("g2", "Friday")], &[("d1", "Dinner")]);
    let (flow, _) = flow.step(MenuEvent::Groups(Some(g2)));
    let (flow, act) = flow.step(MenuEvent::Items(Some(vec![item("Roast", "nightly")])));
    assert!(matches!(act, MenuAction::Finished));
    let sections = flow.into_sections();
    assert_eq!(sections.len(), 2);
    assert_eq!(sections[0].title, "Error~");
    assert_eq!(
        sections[0].body,
        "Failed to get groups and categories from the website!"
    );
    assert_eq!(sections[1].title, "Yablokoff Dinner");
    assert_eq!(sections[1].body, "**Roast** - nightly");
}

#[test]
fn announcement_without_help_group_stops_without_further_fetches() {
    let (flow, act) = AnnFlow::start("pav".to_string());
    assert!(matches!(act, AnnAction::FetchCompany));
    let (flow, _) = flow.step(AnnEvent::Company(Some(company())));
    let (flow, act) = flow.step(AnnEvent::Locations(Some(vec![loc("l1", "pavilion tag")])));
    assert!(matches!(act, AnnAction::FetchGroups { .. }));
    let g = groups(&[("g1", "Tuesday")], &[("c1", "Schedule")]);
    let (flow, act) = flow.step(AnnEvent::Groups(Some(g)));
    assert!(matches!(act, AnnAction::Finished));
    assert_eq!(flow.into_result(), "Failed to find a group for info.");
}

#[test]
fn announcement_without_schedule_category() {
    let (flow, _) = AnnFlow::start("pav".to_string());
    let (flow, _) = flow.step(AnnEvent::Company(Some(company())));
    let (flow, _) = flow.step(AnnEvent::Locations(Some(vec![loc("l1", "pav")])));
    let g = groups(&[("g1", "Help and info")], &[("c1", "Lunch")]);
    let (flow, act) = flow.step(AnnEvent::Groups(Some(g)));
    assert!(matches!(act, AnnAction::Finished));
    assert_eq!(flow.into_result(), "Failed to find a category for announcements.");
}

#[test]
fn announcement_full_success_path() {
    let (flow, _) = AnnFlow::start("ywdc".to_string());
    let (flow, _) = flow.step(AnnEvent::Company(Some(company())));
    let (flow, act) = flow.step(AnnEvent::Locations(Some(vec![loc("l2", "YWDC spring")])));
    match &act {
        AnnAction::FetchGroups { location_id, .. } => assert_eq!(location_id, "l2"),
        _ => panic!("expected a groups fetch"),
    }
    let g = groups(&[("g1", "HELP desk")], &[("c1", "Weekly Schedule")]);
    let (flow, act) = flow.step(AnnEvent::Groups(Some(g)));
    match &act {
        AnnAction::FetchItems { group_id, category_id, .. } => {
            assert_eq!(group_id, "g1");
            assert_eq!(category_id, "c1");
        },
        _ => panic!("expected an items fetch"),
    }
    let mut announcement = item("ignored", "This Week at Yablokoff");
    announcement.id = "it9".to_string();
    let (flow, act) = flow.step(AnnEvent::Items(Some(vec![announcement])));
    match &act {
        AnnAction::FetchMaterials { item_id, location_id, .. } => {
            assert_eq!(item_id, "it9");
            assert_eq!(location_id, "l2");
        },
        _ => panic!("expected a raw-materials fetch"),
    }
    let mats = vec![
        RawMaterial { name: "Mon-Fri 5pm".to_string() },
        RawMaterial { name: "Closed weekends".to_string() },
    ];
    let (flow, act) = flow.step(AnnEvent::Materials(Some(mats)));
    assert!(matches!(act, AnnAction::Finished));
    assert_eq!(
        flow.into_result(),
        "**This Week at Yablokoff**\n\nMon-Fri 5pm\nClosed weekends"
    );
}

#[test]
fn announcement_empty_items_and_empty_materials() {
    let (flow, _) = AnnFlow::start("pav".to_string());
    let (flow, _) = flow.step(AnnEvent::Company(Some(company())));
    let (flow, _) = flow.step(AnnEvent::Locations(Some(vec![loc("l1", "pav")])));
    let g = groups(&[("g1", "help")], &[("c1", "schedule")]);
    let (flow, _) = flow.step(AnnEvent::Groups(Some(g)));
    let (flow, act) = flow.step(AnnEvent::Items(Some(Vec::new())));
    assert!(matches!(act, AnnAction::Finished));
    assert_eq!(flow.into_result(), "No announcement could be found.");

    let (flow, _) = AnnFlow::start("pav".to_string());
    let (flow, _) = flow.step(AnnEvent::Company(Some(company())));
    let (flow, _) = flow.step(AnnEvent::Locations(Some(vec![loc("l1", "pav")])));
    let g = groups(&[("g1", "help")], &[("c1", "schedule")]);
    let (flow, _) = flow.step(AnnEvent::Groups(Some(g)));
    let (flow, _) = flow.step(AnnEvent::Items(Some(vec![item("x", "Headline")])));
    let (flow, act) = flow.step(AnnEvent::Materials(Some(Vec::new())));
    assert!(matches!(act, AnnAction::Finished));
    assert_eq!(flow.into_result(), "**Headline**\n\nThe announcement is empty?");
}

#[test]
fn announcement_fetch_failures_give_their_fallbacks() {
    let (flow, _) = AnnFlow::start("pav".to_string());
    let (flow, _) = flow.step(AnnEvent::Company(None));
    assert_eq!(flow.into_result(), "Failed to get company info!");

    let (flow, _) = AnnFlow::start("pav".to_string());
    let (flow, _) = flow.step(AnnEvent::Company(Some(company())));
    let (flow, _) = flow.step(AnnEvent::Locations(Some(vec![loc("l1", "other")])));
    assert!(flow.into_result().contains("restaurant link"));

    let (flow, _) = AnnFlow::start("pav".to_string());
    let (flow, _) = flow.step(AnnEvent::Company(Some(company())));
    let (flow, _) = flow.step(AnnEvent::Locations(Some(vec![loc("l1", "pav")])));
    let g = groups(&[("g1", "help")], &[("c1", "schedule")]);
    let (flow, _) = flow.step(AnnEvent::Groups(Some(g)));
    let (flow, _) = flow.step(AnnEvent::Items(None));
    assert_eq!(flow.into_result(), "Failed to get the menu from the website.");

    let (flow, _) = AnnFlow::start("pav".to_string());
    let (flow, _) = flow.step(AnnEvent::Company(Some(company())));
    let (flow, _) = flow.step(AnnEvent::Locations(Some(vec![loc("l1", "pav")])));
    let g = groups(&[("g1", "help")], &[("c1", "schedule")]);
    let (flow, _) = flow.step(AnnEvent::Groups(Some(g)));
    let (flow, _) = flow.step(AnnEvent::Items(Some(vec![item("x", "H")])));
    let (flow, _) = flow.step(AnnEvent::Materials(None));
    assert_eq!(flow.into_result(), "Failed to get announcement data.");
}
