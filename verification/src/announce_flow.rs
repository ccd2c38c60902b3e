//! Announcement resolution state machine.
//!
//! Structurally the same company -> locations -> venue-match -> groups
//! chain as the menu flow, but it digs into the "help" group's
//! "schedule" category, takes the first item only, and renders that
//! item's description over its raw-material lines.  Absence at any step
//! yields a specific fallback string rather than an error; a missing
//! step also means nothing further is fetched.

use vstd::prelude::*;
use crate::catalog::{Company, Location, MenuGroups, MenuItem, RawMaterial};
use crate::matching::{
    match_venue, find_group_containing, find_category_containing, is_first_loc_match,
    is_first_group_match, is_first_cat_match, loc_matches, group_matches, cat_matches,
};
use crate::menu_flow::{first_loc_id};
use crate::render::{announcement_text, announcement_text_s};

verus! {

/// Which answer the announcement flow is waiting for.
#[derive(Clone, Copy, Debug, PartialEq, Eq, Structural)]
pub enum AnnPhase {
    WaitCompany,
    WaitLocations,
    WaitGroups,
    WaitMenu,
    WaitMaterials,
    Complete,
}

/// The outcome of one fetch, handed back by the driver; `None` stands
/// for any fetch failure.
pub enum AnnEvent {
    Company(Option<Company>),
    Locations(Option<Vec<Location>>),
    Groups(Option<MenuGroups>),
    Items(Option<Vec<MenuItem>>),
    Materials(Option<Vec<RawMaterial>>),
}

/// The next fetch the driver must perform, or `Finished`.
pub enum AnnAction {
    FetchCompany,
    FetchLocations { company_id: String },
    FetchGroups { company_id: String, location_id: String },
    FetchItems { company_id: String, location_id: String, group_id: String, category_id: String },
    FetchMaterials { company_id: String, location_id: String, item_id: String },
    Finished,
}

/// The announcement flow for one venue tag.
pub struct AnnFlow {
    pub tag: String,
    pub phase: AnnPhase,
    pub company_id: String,
    pub location_id: String,
    pub group_id: String,
    pub category_id: String,
    pub item_id: String,
    pub headline: String,
    pub result: String,
}

/// Fallback when the company fetch fails.
pub open spec fn ann_company_err() -> Seq<char> {
    "Failed to get company info!"@
}

/// Fallback when the locations fetch fails.
pub open spec fn ann_locations_err() -> Seq<char> {
    "Failed to load restaurant info!"@
}

/// Fallback when the venue tag matches no location.
pub open spec fn ann_link_err() -> Seq<char> {
    "Could not find an appropriate restaurant link for the week! Current algorithm might be outdated."@
}

/// Fallback when the groups fetch fails.
pub open spec fn ann_groups_err() -> Seq<char> {
    "Failed to get groups and categories from the website!"@
}

/// Fallback when no group's name contains "help".
pub open spec fn ann_no_group() -> Seq<char> {
    "Failed to find a group for info."@
}

/// Fallback when no category's name contains "schedule".
pub open spec fn ann_no_category() -> Seq<char> {
    "Failed to find a category for announcements."@
}

/// Fallback when the menu fetch fails.
pub open spec fn ann_menu_err() -> Seq<char> {
    "Failed to get the menu from the website."@
}

/// Fallback when the schedule category has no items at all.
pub open spec fn ann_no_item() -> Seq<char> {
    "No announcement could be found."@
}

/// Fallback when the raw-materials fetch fails.
pub open spec fn ann_materials_err() -> Seq<char> {
    "Failed to get announcement data."@
}

/// The flow stops with `msg` as its result and nothing further fetched.
pub open spec fn ann_stop(pre: AnnFlow, post: AnnFlow, act: AnnAction, msg: Seq<char>) -> bool {
    &&& post.tag == pre.tag
    &&& post.phase is Complete
    &&& post.result@ == msg
    &&& act is Finished
}

/// The transition on a groups answer: first a group containing "help",
/// then a category containing "schedule"; only with both does the flow
/// fetch that category's items.
pub open spec fn ann_groups_spec(pre: AnnFlow, g: MenuGroups, post: AnnFlow, act: AnnAction) -> bool {
    if exists|i: int| is_first_group_match(g.menu_groups@, "help"@, i) {
        let i = choose|i: int| is_first_group_match(g.menu_groups@, "help"@, i);
        if exists|j: int| is_first_cat_match(g.menu_categories@, "schedule"@, j) {
            let j = choose|j: int| is_first_cat_match(g.menu_categories@, "schedule"@, j);
            &&& post.tag == pre.tag
            &&& post.company_id == pre.company_id
            &&& post.location_id == pre.location_id
            &&& post.phase is WaitMenu
            &&& post.group_id@ == g.menu_groups@[i].id@
            &&& post.category_id@ == g.menu_categories@[j].id@
            &&& (act matches AnnAction::FetchItems { company_id, location_id, group_id, category_id }
                && company_id@ == pre.company_id@ && location_id@ == pre.location_id@
                && group_id@ == g.menu_groups@[i].id@ && category_id@ == g.menu_categories@[j].id@)
        } else {
            ann_stop(pre, post, act, ann_no_category())
        }
    } else {
        ann_stop(pre, post, act, ann_no_group())
    }
}

/// The full transition relation of the announcement flow: one case per
/// phase and matching event; an event of the wrong kind changes nothing
/// and the awaited action is handed back.
pub open spec fn ann_step_spec(pre: AnnFlow, e: AnnEvent, post: AnnFlow, act: AnnAction) -> bool {
    match (pre.phase, e) {
        (AnnPhase::WaitCompany, AnnEvent::Company(res)) => match res {
            None => ann_stop(pre, post, act, ann_company_err()),
            Some(c) => {
                &&& post.tag == pre.tag
                &&& post.phase is WaitLocations
                &&& post.company_id@ == c.id@
                &&& (act matches AnnAction::FetchLocations { company_id } && company_id@ == c.id@)
            },
        },
        (AnnPhase::WaitLocations, AnnEvent::Locations(res)) => match res {
            None => ann_stop(pre, post, act, ann_locations_err()),
            Some(locs) => match first_loc_id(locs@, pre.tag@) {
                Some(loc) => {
                    &&& post.tag == pre.tag
                    &&& post.company_id == pre.company_id
                    &&& post.phase is WaitGroups
                    &&& post.location_id@ == loc
                    &&& (act matches AnnAction::FetchGroups { company_id, location_id }
                        && company_id@ == pre.company_id@ && location_id@ == loc)
                },
                None => ann_stop(pre, post, act, ann_link_err()),
            },
        },
        (AnnPhase::WaitGroups, AnnEvent::Groups(res)) => match res {
            None => ann_stop(pre, post, act, ann_groups_err()),
            Some(g) => ann_groups_spec(pre, g, post, act),
        },
        (AnnPhase::WaitMenu, AnnEvent::Items(res)) => match res {
            None => ann_stop(pre, post, act, ann_menu_err()),
            Some(items) => {
                if items@.len() == 0 {
                    ann_stop(pre, post, act, ann_no_item())
                } else {
                    &&& post.tag == pre.tag
                    &&& post.company_id == pre.company_id
                    &&& post.location_id == pre.location_id
                    &&& post.phase is WaitMaterials
                    &&& post.item_id@ == items@[0].id@
                    &&& post.headline@ == items@[0].description@
                    &&& (act matches AnnAction::FetchMaterials { company_id, location_id, item_id }
                        && company_id@ == pre.company_id@ && location_id@ == pre.location_id@
                        && item_id@ == items@[0].id@)
                }
            },
        },
        (AnnPhase::WaitMaterials, AnnEvent::Materials(res)) => match res {
            None => ann_stop(pre, post, act, ann_materials_err()),
            Some(mats) => ann_stop(
                pre,
                post,
                act,
                announcement_text_s(pre.headline@, mats@),
            ),
        },
        _ => {
            &&& post == pre
            &&& ann_action_for(pre, act)
        },
    }
}

/// The action an announcement flow is still waiting to have performed.
pub open spec fn ann_action_for(f: AnnFlow, act: AnnAction) -> bool {
    match f.phase {
        AnnPhase::WaitCompany => act is FetchCompany,
        AnnPhase::WaitLocations => act matches AnnAction::FetchLocations { company_id }
            && company_id@ == f.company_id@,
        AnnPhase::WaitGroups => act matches AnnAction::FetchGroups { company_id, location_id }
            && company_id@ == f.company_id@ && location_id@ == f.location_id@,
        AnnPhase::WaitMenu => act matches AnnAction::FetchItems {
            company_id,
            location_id,
            group_id,
            category_id,
        } && company_id@ == f.company_id@ && location_id@ == f.location_id@
            && group_id@ == f.group_id@ && category_id@ == f.category_id@,
        AnnPhase::WaitMaterials => act matches AnnAction::FetchMaterials {
            company_id,
            location_id,
            item_id,
        } && company_id@ == f.company_id@ && location_id@ == f.location_id@
            && item_id@ == f.item_id@,
        AnnPhase::Complete => act is Finished,
    }
}

/// The first match of a "help" group is unique.
proof fn lemma_ann_group_unique(
    groups: Seq<crate::catalog::MenuGroup>,
    needle: Seq<char>,
    i: int,
    j: int,
)
    requires
        is_first_group_match(groups, needle, i),
        is_first_group_match(groups, needle, j),
    ensures
        i == j,
{
    if i < j {
        assert(!group_matches(groups[i], needle));
    } else if j < i {
        assert(!group_matches(groups[j], needle));
    }
}

/// The first match of a "schedule" category is unique.
proof fn lemma_ann_cat_unique(
    cats: Seq<crate::catalog::MenuCategory>,
    needle: Seq<char>,
    i: int,
    j: int,
)
    requires
        is_first_cat_match(cats, needle, i),
        is_first_cat_match(cats, needle, j),
    ensures
        i == j,
{
    if i < j {
        assert(!cat_matches(cats[i], needle));
    } else if j < i {
        assert(!cat_matches(cats[j], needle));
    }
}

/// The first match of a venue tag is unique.
proof fn lemma_ann_loc_unique(locs: Seq<Location>, tag: Seq<char>, i: int, j: int)
    requires
        is_first_loc_match(locs, tag, i),
        is_first_loc_match(locs, tag, j),
    ensures
        i == j,
{
    if i < j {
        assert(!loc_matches(locs[i], tag));
    } else if j < i {
        assert(!loc_matches(locs[j], tag));
    }
}

impl AnnFlow {
    /// Begin resolving the announcement for one venue tag; the driver
    /// must perform the returned fetch first.
    pub fn start(tag: String) -> (r: (AnnFlow, AnnAction))
        ensures
            r.0.tag == tag,
            r.0.phase is WaitCompany,
            r.1 is FetchCompany,
    {
        let flow = AnnFlow {
            tag,
            phase: AnnPhase::WaitCompany,
            company_id: String::new(),
            location_id: String::new(),
            group_id: String::new(),
            category_id: String::new(),
            item_id: String::new(),
            headline: String::new(),
            result: String::new(),
        };
        (flow, AnnAction::FetchCompany)
    }

    /// The action the flow is waiting to have performed.
    pub fn pending_action(&self) -> (r: AnnAction)
        ensures
            ann_action_for(*self, r),
    {
        match self.phase {
            AnnPhase::WaitCompany => AnnAction::FetchCompany,
            AnnPhase::WaitLocations => AnnAction::FetchLocations {
                company_id: self.company_id.clone(),
            },
            AnnPhase::WaitGroups => AnnAction::FetchGroups {
                company_id: self.company_id.clone(),
                location_id: self.location_id.clone(),
            },
            AnnPhase::WaitMenu => AnnAction::FetchItems {
                company_id: self.company_id.clone(),
                location_id: self.location_id.clone(),
                group_id: self.group_id.clone(),
                category_id: self.category_id.clone(),
            },
            AnnPhase::WaitMaterials => AnnAction::FetchMaterials {
                company_id: self.company_id.clone(),
                location_id: self.location_id.clone(),
                item_id: self.item_id.clone(),
            },
            AnnPhase::Complete => AnnAction::Finished,
        }
    }

    /// Feed the outcome of the last fetch in; the flow decides what the
    /// driver must do next.
    pub fn step(self, e: AnnEvent) -> (r: (AnnFlow, AnnAction))
        ensures
            ann_step_spec(self, e, r.0, r.1),
    {
        let mut flow = self;
        match (flow.phase, e) {
            (AnnPhase::WaitCompany, AnnEvent::Company(res)) => match res {
                None => {
                    flow.result = String::from_str("Failed to get company info!");
                    flow.phase = AnnPhase::Complete;
                    (flow, AnnAction::Finished)
                },
                Some(c) => {
                    flow.company_id = c.id;
                    flow.phase = AnnPhase::WaitLocations;
                    let act = AnnAction::FetchLocations { company_id: flow.company_id.clone() };
                    (flow, act)
                },
            },
            (AnnPhase::WaitLocations, AnnEvent::Locations(res)) => match res {
                None => {
                    flow.result = String::from_str("Failed to load restaurant info!");
                    flow.phase = AnnPhase::Complete;
                    (flow, AnnAction::Finished)
                },
                Some(locs) => {
                    let m = match_venue(&locs, flow.tag.as_str());
                    match m {
                        Some(i) => {
                            proof {
                                assert(exists|k: int| is_first_loc_match(locs@, flow.tag@, k));
                                let i0 = choose|k: int| is_first_loc_match(locs@, flow.tag@, k);
                                lemma_ann_loc_unique(locs@, flow.tag@, i as int, i0);
                            }
                            flow.location_id = locs[i].id.clone();
                            flow.phase = AnnPhase::WaitGroups;
                            let act = AnnAction::FetchGroups {
                                company_id: flow.company_id.clone(),
                                location_id: flow.location_id.clone(),
                            };
                            (flow, act)
                        },
                        None => {
                            proof {
                                assert forall|k: int| !is_first_loc_match(
                                    locs@,
                                    flow.tag@,
                                    k,
                                ) by {}
                            }
                            flow.result = String::from_str(
                                "Could not find an appropriate restaurant link for the week! Current algorithm might be outdated.",
                            );
                            flow.phase = AnnPhase::Complete;
                            (flow, AnnAction::Finished)
                        },
                    }
                },
            },
            (AnnPhase::WaitGroups, AnnEvent::Groups(res)) => match res {
                None => {
                    flow.result = String::from_str(
                        "Failed to get groups and categories from the website!",
                    );
                    flow.phase = AnnPhase::Complete;
                    (flow, AnnAction::Finished)
                },
                Some(g) => {
                    let gi = find_group_containing(&g.menu_groups, "help");
                    match gi {
                        None => {
                            flow.result = String::from_str("Failed to find a group for info.");
                            flow.phase = AnnPhase::Complete;
                            (flow, AnnAction::Finished)
                        },
                        Some(i) => {
                            proof {
                                let i0 = choose|k: int|
                                    is_first_group_match(g.menu_groups@, "help"@, k);
                                lemma_ann_group_unique(g.menu_groups@, "help"@, i as int, i0);
                            }
                            let ci = find_category_containing(&g.menu_categories, "schedule");
                            match ci {
                                None => {
                                    flow.result = String::from_str(
                                        "Failed to find a category for announcements.",
                                    );
                                    flow.phase = AnnPhase::Complete;
                                    (flow, AnnAction::Finished)
                                },
                                Some(j) => {
                                    proof {
                                        let j0 = choose|k: int|
                                            is_first_cat_match(g.menu_categories@, "schedule"@, k);
                                        lemma_ann_cat_unique(
                                            g.menu_categories@,
                                            "schedule"@,
                                            j as int,
                                            j0,
                                        );
                                    }
                                    flow.phase = AnnPhase::WaitMenu;
                                    flow.group_id = g.menu_groups[i].id.clone();
                                    flow.category_id = g.menu_categories[j].id.clone();
                                    let act = AnnAction::FetchItems {
                                        company_id: flow.company_id.clone(),
                                        location_id: flow.location_id.clone(),
                                        group_id: flow.group_id.clone(),
                                        category_id: flow.category_id.clone(),
                                    };
                                    (flow, act)
                                },
                            }
                        },
                    }
                },
            },
            (AnnPhase::WaitMenu, AnnEvent::Items(res)) => match res {
                None => {
                    flow.result = String::from_str("Failed to get the menu from the website.");
                    flow.phase = AnnPhase::Complete;
                    (flow, AnnAction::Finished)
                },
                Some(items) => {
                    if items.len() == 0 {
                        flow.result = String::from_str("No announcement could be found.");
                        flow.phase = AnnPhase::Complete;
                        (flow, AnnAction::Finished)
                    } else {
                        flow.headline = items[0].description.clone();
                        flow.item_id = items[0].id.clone();
                        flow.phase = AnnPhase::WaitMaterials;
                        let act = AnnAction::FetchMaterials {
                            company_id: flow.company_id.clone(),
                            location_id: flow.location_id.clone(),
                            item_id: flow.item_id.clone(),
                        };
                        (flow, act)
                    }
                },
            },
            (AnnPhase::WaitMaterials, AnnEvent::Materials(res)) => match res {
                None => {
                    flow.result = String::from_str("Failed to get announcement data.");
                    flow.phase = AnnPhase::Complete;
                    (flow, AnnAction::Finished)
                },
                Some(mats) => {
                    flow.result = announcement_text(flow.headline.as_str(), &mats);
                    flow.phase = AnnPhase::Complete;
                    (flow, AnnAction::Finished)
                },
            },
            (_, _) => {
                let act = flow.pending_action();
                (flow, act)
            },
        }
    }

    /// The resolved announcement text, or the fallback that took its
    /// place.
    pub fn into_result(self) -> (r: String)
        ensures
            r == self.result,
    {
        self.result
    }
}

} // verus!
