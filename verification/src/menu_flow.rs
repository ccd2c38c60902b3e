//! Menu aggregation state machine.
//!
//! Aggregating a menu needs a chain of remote fetches whose later requests
//! depend on earlier answers, so the decision logic is a state machine:
//! every transition consumes the outcome of the previous fetch and yields
//! the next fetch to perform, until `Finished`.  An unverified driver
//! performs the fetches and feeds the outcomes back in; every decision —
//! which venue matches, which group and categories apply, what fallback
//! section a failed branch contributes, when the secondary venue is
//! queried — is made and verified here.
//!
//! Failure policy: a failed fetch or an unmatched entity never aborts a
//! sibling branch; it contributes one labeled error section in its place.

use vstd::prelude::*;
use crate::catalog::{Company, Location, MenuGroups, MenuCategory, MenuItem, Section, sv, sec_v};
use crate::matching::{
    match_venue, find_group_for_day, matching_category_indices, is_first_loc_match,
    is_first_group_match, matching_idxs, loc_matches, group_matches,
};
use crate::render::{render_items, items_body_s};
use crate::temporal::{Day, Meal, spec_day_name, spec_meal_query, spec_secondary_venue_dinner_slot,
    is_secondary_venue_dinner_slot};
use crate::text::{contains_ci, contains_ci_s};

verus! {

/// Which answer the flow is waiting for.
#[derive(Clone, Copy, Debug, PartialEq, Eq, Structural)]
pub enum MenuPhase {
    WaitCompany,
    WaitLocations,
    WaitGroups,
    WaitItems,
    Complete,
}

/// The outcome of one fetch, handed back by the driver.  `None` stands
/// for any fetch failure — network error, bad status or decode failure;
/// the flow never distinguishes the cause, it only picks a fallback.
pub enum MenuEvent {
    Company(Option<Company>),
    Locations(Option<Vec<Location>>),
    Groups(Option<MenuGroups>),
    Items(Option<Vec<MenuItem>>),
}

/// The next fetch the driver must perform, or `Finished`.
pub enum MenuAction {
    FetchCompany,
    FetchLocations { company_id: String },
    FetchGroups { company_id: String, location_id: String },
    FetchItems { company_id: String, location_id: String, group_id: String, category_id: String },
    Finished,
}

/// The menu aggregation flow for one `(day, meal)` request.
pub struct MenuFlow {
    pub day: Day,
    pub meal: Meal,
    pub phase: MenuPhase,
    pub company_id: String,
    pub branch_location_id: String,
    pub secondary_location_id: Option<String>,
    pub on_secondary: bool,
    pub group_id: String,
    pub categories: Vec<MenuCategory>,
    pub pending: Vec<usize>,
    pub pos: usize,
    pub sections: Vec<Section>,
}

/// Title of every fallback section.
pub open spec fn err_title() -> Seq<char> {
    "Error~"@
}

/// Fallback body when the company fetch fails.
pub open spec fn company_err() -> Seq<char> {
    "Failed to get company info!"@
}

/// Fallback body when the locations fetch fails.
pub open spec fn locations_err() -> Seq<char> {
    "Failed to load restaurant info!"@
}

/// Fallback body when a venue tag matches no location.
pub open spec fn link_err() -> Seq<char> {
    "Could not find an appropriate restaurant link for the week! Current algorithm might be outdated."@
}

/// Fallback body when the groups fetch fails.
pub open spec fn groups_err() -> Seq<char> {
    "Failed to get groups and categories from the website!"@
}

/// Fallback body when no group matches the requested day.
pub open spec fn no_group_err() -> Seq<char> {
    "Could not find a group for the given day!"@
}

/// Fallback body when a category's menu fetch fails.
pub open spec fn menu_err() -> Seq<char> {
    "Failed to get the menu from the website!"@
}

/// What one branch section becomes in the final output.  Sections of the
/// secondary branch are retitled with the venue name, and its
/// housekeeping categories — anything containing "schedule" or "how to"
/// — are dropped entirely so they never leak to users.
pub open spec fn branch_sec(
    on_secondary: bool,
    title: Seq<char>,
    body: Seq<char>,
) -> Option<crate::catalog::SectionV> {
    if on_secondary {
        if contains_ci_s(title, "schedule"@) || contains_ci_s(title, "how to"@) {
            None
        } else {
            Some(sec_v("Yablokoff "@ + title, body))
        }
    } else {
        Some(sec_v(title, body))
    }
}

/// Append an optional section.
pub open spec fn pushed(
    s: Seq<crate::catalog::SectionV>,
    o: Option<crate::catalog::SectionV>,
) -> Seq<crate::catalog::SectionV> {
    match o {
        Some(x) => s.push(x),
        None => s,
    }
}

/// The id of the first location matching `tag`, if any.
pub open spec fn first_loc_id(locs: Seq<Location>, tag: Seq<char>) -> Option<Seq<char>> {
    if exists|j: int| is_first_loc_match(locs, tag, j) {
        Some(locs[choose|j: int| is_first_loc_match(locs, tag, j)].id@)
    } else {
        None
    }
}

/// The view of an optional location id.
pub open spec fn opt_id_view(o: Option<String>) -> Option<Seq<char>> {
    match o {
        Some(s) => Some(s@),
        None => None,
    }
}

/// The category filter in force for the current branch: the meal's
/// textual form, widened to match everything when the secondary venue is
/// asked for dinner — its naming for the one nightly meal does not line
/// up with "Dinner" literally in all categories.
pub open spec fn effective_query(m: Meal, on_secondary: bool) -> Seq<char> {
    if on_secondary && m is Dinner {
        Seq::empty()
    } else {
        spec_meal_query(m)
    }
}

impl MenuFlow {
    /// While waiting for item answers, the cursor and the pending
    /// category indices are in range.
    pub open spec fn wf(self) -> bool {
        self.phase is WaitItems ==> {
            &&& self.pos < self.pending@.len()
            &&& forall|k: int|
                0 <= k < self.pending@.len() ==> self.pending@[k] < self.categories@.len()
        }
    }
}

/// The day and meal of the request never change.
pub open spec fn same_query(pre: MenuFlow, post: MenuFlow) -> bool {
    &&& post.day == pre.day
    &&& post.meal == pre.meal
}

/// A failure that stops the whole flow: exactly one error section is
/// appended and nothing further is fetched.
pub open spec fn fail_stop(pre: MenuFlow, post: MenuFlow, act: MenuAction, msg: Seq<char>) -> bool {
    &&& same_query(pre, post)
    &&& post.phase is Complete
    &&& sv(post.sections) == sv(pre.sections).push(sec_v(err_title(), msg))
    &&& act is Finished
}

/// What follows once the current branch is exhausted, given the
/// secondary location id in force and the sections accumulated so far
/// (`mid`).  From the primary branch, on a day the secondary venue
/// serves dinner, the flow moves on to that venue — or, if its tag
/// matched no location, records its link error; otherwise the flow is
/// complete.
pub open spec fn advanced_with(
    pre: MenuFlow,
    sec_loc: Option<Seq<char>>,
    mid: Seq<crate::catalog::SectionV>,
    post: MenuFlow,
    act: MenuAction,
) -> bool {
    &&& same_query(pre, post)
    &&& post.company_id == pre.company_id
    &&& opt_id_view(post.secondary_location_id) == sec_loc
    &&& if !pre.on_secondary && spec_secondary_venue_dinner_slot(pre.day) {
        match sec_loc {
            Some(loc) => {
                &&& post.phase is WaitGroups
                &&& post.on_secondary
                &&& post.branch_location_id@ == loc
                &&& sv(post.sections) == mid
                &&& (act matches MenuAction::FetchGroups { company_id, location_id }
                    && company_id@ == pre.company_id@ && location_id@ == loc)
            },
            None => {
                &&& post.phase is Complete
                &&& sv(post.sections) == pushed(mid, branch_sec(true, err_title(), link_err()))
                &&& act is Finished
            },
        }
    } else {
        &&& post.phase is Complete
        &&& sv(post.sections) == mid
        &&& act is Finished
    }
}

/// The transition on a locations answer: both venue tags are resolved;
/// the primary branch starts at its matched location, or contributes its
/// link error and hands over to the secondary venue's branch.
pub open spec fn locations_spec(
    pre: MenuFlow,
    locs: Vec<Location>,
    post: MenuFlow,
    act: MenuAction,
) -> bool {
    let sec = first_loc_id(locs@, "ywdc"@);
    &&& same_query(pre, post)
    &&& opt_id_view(post.secondary_location_id) == sec
    &&& match first_loc_id(locs@, "pvl"@) {
        Some(loc) => {
            &&& post.company_id == pre.company_id
            &&& post.phase is WaitGroups
            &&& post.on_secondary == pre.on_secondary
            &&& post.branch_location_id@ == loc
            &&& sv(post.sections) == sv(pre.sections)
            &&& (act matches MenuAction::FetchGroups { company_id, location_id }
                && company_id@ == pre.company_id@ && location_id@ == loc)
        },
        None => advanced_with(
            pre,
            sec,
            sv(pre.sections).push(sec_v(err_title(), link_err())),
            post,
            act,
        ),
    }
}

/// The transition on a groups answer: the group is matched by day name;
/// without one the branch contributes its fallback and is over.  With
/// one, the categories matching the filter in force are queued; a branch
/// with no matching category contributes nothing at all.
pub open spec fn groups_spec(
    pre: MenuFlow,
    g: MenuGroups,
    post: MenuFlow,
    act: MenuAction,
) -> bool {
    let sec = opt_id_view(pre.secondary_location_id);
    if exists|i: int| is_first_group_match(g.menu_groups@, spec_day_name(pre.day), i) {
        let i = choose|i: int| is_first_group_match(g.menu_groups@, spec_day_name(pre.day), i);
        let q = effective_query(pre.meal, pre.on_secondary);
        let idxs = matching_idxs(g.menu_categories@, q);
        if idxs.len() == 0 {
            advanced_with(pre, sec, sv(pre.sections), post, act)
        } else {
            &&& same_query(pre, post)
            &&& post.company_id == pre.company_id
            &&& post.phase is WaitItems
            &&& post.on_secondary == pre.on_secondary
            &&& post.branch_location_id == pre.branch_location_id
            &&& post.secondary_location_id == pre.secondary_location_id
            &&& post.group_id@ == g.menu_groups@[i].id@
            &&& post.categories@ == g.menu_categories@
            &&& post.pending@.map_values(|u: usize| u as int) == idxs
            &&& post.pos == 0
            &&& sv(post.sections) == sv(pre.sections)
            &&& (act matches MenuAction::FetchItems {
                company_id,
                location_id,
                group_id,
                category_id,
            } && company_id@ == pre.company_id@ && location_id@ == pre.branch_location_id@
                && group_id@ == g.menu_groups@[i].id@ && category_id@ == g.menu_categories@[idxs[0]].id@)
        }
    } else {
        advanced_with(
            pre,
            sec,
            pushed(sv(pre.sections), branch_sec(pre.on_secondary, err_title(), no_group_err())),
            post,
            act,
        )
    }
}

/// The transition on an items answer: the current category becomes one
/// section — its rendered menu, or the fetch-failure fallback — and the
/// cursor moves to the next queued category, or the branch is exhausted.
pub open spec fn items_spec(
    pre: MenuFlow,
    res: Option<Vec<MenuItem>>,
    post: MenuFlow,
    act: MenuAction,
) -> bool {
    let cat = pre.categories@[pre.pending@[pre.pos as int] as int];
    let body = match res {
        Some(items) => items_body_s(items@),
        None => menu_err(),
    };
    let mid = pushed(sv(pre.sections), branch_sec(pre.on_secondary, cat.name@, body));
    if pre.pos + 1 < pre.pending@.len() {
        &&& same_query(pre, post)
        &&& post.company_id == pre.company_id
        &&& post.phase is WaitItems
        &&& post.on_secondary == pre.on_secondary
        &&& post.branch_location_id == pre.branch_location_id
        &&& post.secondary_location_id == pre.secondary_location_id
        &&& post.group_id == pre.group_id
        &&& post.categories == pre.categories
        &&& post.pending == pre.pending
        &&& post.pos == pre.pos + 1
        &&& sv(post.sections) == mid
        &&& (act matches MenuAction::FetchItems { company_id, location_id, group_id, category_id }
            && company_id@ == pre.company_id@ && location_id@ == pre.branch_location_id@
            && group_id@ == pre.group_id@
            && category_id@ == pre.categories@[pre.pending@[pre.pos + 1] as int].id@)
    } else {
        advanced_with(pre, opt_id_view(pre.secondary_location_id), mid, post, act)
    }
}

/// The action a flow is still waiting to have performed.
pub open spec fn action_for(f: MenuFlow, act: MenuAction) -> bool {
    match f.phase {
        MenuPhase::WaitCompany => act is FetchCompany,
        MenuPhase::WaitLocations => act matches MenuAction::FetchLocations { company_id }
            && company_id@ == f.company_id@,
        MenuPhase::WaitGroups => act matches MenuAction::FetchGroups { company_id, location_id }
            && company_id@ == f.company_id@ && location_id@ == f.branch_location_id@,
        MenuPhase::WaitItems => act matches MenuAction::FetchItems {
            company_id,
            location_id,
            group_id,
            category_id,
        } && company_id@ == f.company_id@ && location_id@ == f.branch_location_id@
            && group_id@ == f.group_id@
            && category_id@ == f.categories@[f.pending@[f.pos as int] as int].id@,
        MenuPhase::Complete => act is Finished,
    }
}

/// The full transition relation of the flow: one case per phase and
/// matching event; an event of the wrong kind changes nothing and the
/// awaited action is handed back.
pub open spec fn step_spec(pre: MenuFlow, e: MenuEvent, post: MenuFlow, act: MenuAction) -> bool {
    match (pre.phase, e) {
        (MenuPhase::WaitCompany, MenuEvent::Company(res)) => match res {
            None => fail_stop(pre, post, act, company_err()),
            Some(c) => {
                &&& same_query(pre, post)
                &&& post.phase is WaitLocations
                &&& post.company_id@ == c.id@
                &&& sv(post.sections) == sv(pre.sections)
                &&& (act matches MenuAction::FetchLocations { company_id } && company_id@ == c.id@)
            },
        },
        (MenuPhase::WaitLocations, MenuEvent::Locations(res)) => match res {
            None => fail_stop(pre, post, act, locations_err()),
            Some(locs) => locations_spec(pre, locs, post, act),
        },
        (MenuPhase::WaitGroups, MenuEvent::Groups(res)) => match res {
            None => advanced_with(
                pre,
                opt_id_view(pre.secondary_location_id),
                pushed(sv(pre.sections), branch_sec(pre.on_secondary, err_title(), groups_err())),
                post,
                act,
            ),
            Some(g) => groups_spec(pre, g, post, act),
        },
        (MenuPhase::WaitItems, MenuEvent::Items(res)) => items_spec(pre, res, post, act),
        _ => {
            &&& post == pre
            &&& action_for(pre, act)
        },
    }
}

/// Append one plain (primary-level) error section.
fn push_error(sections: &mut Vec<Section>, msg: &str)
    ensures
        sv(*final(sections)) == sv(*old(sections)).push(sec_v(err_title(), msg@)),
{
    sections.push(
        Section { title: String::from_str("Error~"), body: String::from_str(msg) },
    );
    proof {
        assert(sv(*sections) =~= sv(*old(sections)).push(sec_v(err_title(), msg@)));
    }
}

/// Append one branch section, applying the secondary venue's retitling
/// and housekeeping filter.
fn push_branch_section(sections: &mut Vec<Section>, on_secondary: bool, title: String, body: String)
    ensures
        sv(*final(sections)) == pushed(
            sv(*old(sections)),
            branch_sec(on_secondary, title@, body@),
        ),
{
    if on_secondary {
        if contains_ci(title.as_str(), "schedule") || contains_ci(title.as_str(), "how to") {
            return ;
        }
        let mut t = String::from_str("Yablokoff ");
        t.append(title.as_str());
        sections.push(Section { title: t, body });
        proof {
            assert(sv(*sections) =~= pushed(
                sv(*old(sections)),
                branch_sec(on_secondary, title@, body@),
            ));
        }
    } else {
        sections.push(Section { title, body });
        proof {
            assert(sv(*sections) =~= pushed(
                sv(*old(sections)),
                branch_sec(on_secondary, title@, body@),
            ));
        }
    }
}

/// The first match of a venue tag is unique.
proof fn lemma_first_loc_unique(locs: Seq<Location>, tag: Seq<char>, i: int, j: int)
    requires
        is_first_loc_match(locs, tag, i),
        is_first_loc_match(locs, tag, j),
    ensures
        i == j,
{
    if i < j {
        assert(!loc_matches(locs[i], tag));
    } else if j < i {
        assert(!loc_matches(locs[j], tag));
    }
}

/// The first match of a group needle is unique.
proof fn lemma_first_group_unique(
    groups: Seq<crate::catalog::MenuGroup>,
    needle: Seq<char>,
    i: int,
    j: int,
)
    requires
        is_first_group_match(groups, needle, i),
        is_first_group_match(groups, needle, j),
    ensures
        i == j,
{
    if i < j {
        assert(!group_matches(groups[i], needle));
    } else if j < i {
        assert(!group_matches(groups[j], needle));
    }
}

/// Exhaust the current branch: hand over to the secondary venue when it
/// is due, else complete the flow.
fn advance(flow: MenuFlow) -> (r: (MenuFlow, MenuAction))
    ensures
        r.0.wf(),
        advanced_with(flow, opt_id_view(flow.secondary_location_id), sv(flow.sections), r.0, r.1),
{
    let mut f = flow;
    if !f.on_secondary && is_secondary_venue_dinner_slot(f.day) {
        let loc_opt: Option<String> = match &f.secondary_location_id {
            Some(id) => Some(id.clone()),
            None => None,
        };
        match loc_opt {
            Some(loc) => {
                f.on_secondary = true;
                f.phase = MenuPhase::WaitGroups;
                f.branch_location_id = loc;
                let act = MenuAction::FetchGroups {
                    company_id: f.company_id.clone(),
                    location_id: f.branch_location_id.clone(),
                };
                (f, act)
            },
            None => {
                push_branch_section(
                    &mut f.sections,
                    true,
                    String::from_str("Error~"),
                    String::from_str(
                        "Could not find an appropriate restaurant link for the week! Current algorithm might be outdated.",
                    ),
                );
                f.phase = MenuPhase::Complete;
                (f, MenuAction::Finished)
            },
        }
    } else {
        f.phase = MenuPhase::Complete;
        (f, MenuAction::Finished)
    }
}

impl MenuFlow {
    /// Begin aggregating the menu for one `(day, meal)` request; the
    /// driver must perform the returned fetch first.
    pub fn start(day: Day, meal: Meal) -> (r: (MenuFlow, MenuAction))
        ensures
            r.0.wf(),
            r.0.day == day,
            r.0.meal == meal,
            r.0.phase is WaitCompany,
            !r.0.on_secondary,
            r.0.sections@.len() == 0,
            r.1 is FetchCompany,
    {
        let flow = MenuFlow {
            day,
            meal,
            phase: MenuPhase::WaitCompany,
            company_id: String::new(),
            branch_location_id: String::new(),
            secondary_location_id: None,
            on_secondary: false,
            group_id: String::new(),
            categories: Vec::new(),
            pending: Vec::new(),
            pos: 0,
            sections: Vec::new(),
        };
        (flow, MenuAction::FetchCompany)
    }

    /// The action the flow is waiting to have performed.
    pub fn pending_action(&self) -> (r: MenuAction)
        requires
            self.wf(),
        ensures
            action_for(*self, r),
    {
        match self.phase {
            MenuPhase::WaitCompany => MenuAction::FetchCompany,
            MenuPhase::WaitLocations => MenuAction::FetchLocations {
                company_id: self.company_id.clone(),
            },
            MenuPhase::WaitGroups => MenuAction::FetchGroups {
                company_id: self.company_id.clone(),
                location_id: self.branch_location_id.clone(),
            },
            MenuPhase::WaitItems => MenuAction::FetchItems {
                company_id: self.company_id.clone(),
                location_id: self.branch_location_id.clone(),
                group_id: self.group_id.clone(),
                category_id: self.categories[self.pending[self.pos]].id.clone(),
            },
            MenuPhase::Complete => MenuAction::Finished,
        }
    }

    /// Feed the outcome of the last fetch in; the flow decides what the
    /// driver must do next.
    pub fn step(self, e: MenuEvent) -> (r: (MenuFlow, MenuAction))
        requires
            self.wf(),
        ensures
            r.0.wf(),
            step_spec(self, e, r.0, r.1),
    {
        let mut flow = self;
        match (flow.phase, e) {
            (MenuPhase::WaitCompany, MenuEvent::Company(res)) => match res {
                None => {
                    push_error(&mut flow.sections, "Failed to get company info!");
                    flow.phase = MenuPhase::Complete;
                    (flow, MenuAction::Finished)
                },
                Some(c) => {
                    flow.company_id = c.id;
                    flow.phase = MenuPhase::WaitLocations;
                    let act = MenuAction::FetchLocations { company_id: flow.company_id.clone() };
                    (flow, act)
                },
            },
            (MenuPhase::WaitLocations, MenuEvent::Locations(res)) => match res {
                None => {
                    push_error(&mut flow.sections, "Failed to load restaurant info!");
                    flow.phase = MenuPhase::Complete;
                    (flow, MenuAction::Finished)
                },
                Some(locs) => {
                    let pri = match_venue(&locs, "pvl");
                    let sec = match_venue(&locs, "ywdc");
                    flow.secondary_location_id = match sec {
                        Some(j) => Some(locs[j].id.clone()),
                        None => None,
                    };
                    proof {
                        match sec {
                            Some(j) => {
                                assert(exists|k: int| is_first_loc_match(locs@, "ywdc"@, k));
                                let j0 = choose|k: int| is_first_loc_match(locs@, "ywdc"@, k);
                                lemma_first_loc_unique(locs@, "ywdc"@, j as int, j0);
                                assert(first_loc_id(locs@, "ywdc"@) == Some(
                                    locs@[j as int].id@,
                                ));
                            },
                            None => {
                                assert forall|k: int| !is_first_loc_match(
                                    locs@,
                                    "ywdc"@,
                                    k,
                                ) by {}
                                assert(first_loc_id(locs@, "ywdc"@) is None);
                            },
                        }
                        assert(opt_id_view(flow.secondary_location_id) == first_loc_id(
                            locs@,
                            "ywdc"@,
                        ));
                    }
                    match pri {
                        Some(i) => {
                            proof {
                                let i0 = choose|k: int| is_first_loc_match(locs@, "pvl"@, k);
                                lemma_first_loc_unique(locs@, "pvl"@, i as int, i0);
                            }
                            flow.branch_location_id = locs[i].id.clone();
                            flow.phase = MenuPhase::WaitGroups;
                            let act = MenuAction::FetchGroups {
                                company_id: flow.company_id.clone(),
                                location_id: flow.branch_location_id.clone(),
                            };
                            (flow, act)
                        },
                        None => {
                            push_error(
                                &mut flow.sections,
                                "Could not find an appropriate restaurant link for the week! Current algorithm might be outdated.",
                            );
                            advance(flow)
                        },
                    }
                },
            },
            (MenuPhase::WaitGroups, MenuEvent::Groups(res)) => match res {
                None => {
                    push_branch_section(
                        &mut flow.sections,
                        flow.on_secondary,
                        String::from_str("Error~"),
                        String::from_str("Failed to get groups and categories from the website!"),
                    );
                    advance(flow)
                },
                Some(g) => {
                    let gi = find_group_for_day(&g.menu_groups, flow.day);
                    match gi {
                        None => {
                            push_branch_section(
                                &mut flow.sections,
                                flow.on_secondary,
                                String::from_str("Error~"),
                                String::from_str("Could not find a group for the given day!"),
                            );
                            advance(flow)
                        },
                        Some(i) => {
                            proof {
                                let i0 = choose|k: int|
                                    is_first_group_match(
                                        g.menu_groups@,
                                        spec_day_name(flow.day),
                                        k,
                                    );
                                lemma_first_group_unique(
                                    g.menu_groups@,
                                    spec_day_name(flow.day),
                                    i as int,
                                    i0,
                                );
                            }
                            let query: String = if flow.on_secondary && matches!(
                                flow.meal,
                                Meal::Dinner,
                            ) {
                                String::new()
                            } else {
                                crate::temporal::meal_query(&flow.meal)
                            };
                            let pending = matching_category_indices(
                                &g.menu_categories,
                                query.as_str(),
                            );
                            if pending.len() == 0 {
                                advance(flow)
                            } else {
                                flow.group_id = g.menu_groups[i].id.clone();
                                flow.categories = g.menu_categories;
                                flow.pending = pending;
                                flow.pos = 0;
                                flow.phase = MenuPhase::WaitItems;
                                let act = MenuAction::FetchItems {
                                    company_id: flow.company_id.clone(),
                                    location_id: flow.branch_location_id.clone(),
                                    group_id: flow.group_id.clone(),
                                    category_id: flow.categories[flow.pending[0]].id.clone(),
                                };
                                (flow, act)
                            }
                        },
                    }
                },
            },
            (MenuPhase::WaitItems, MenuEvent::Items(res)) => {
                let ci = flow.pending[flow.pos];
                let title = flow.categories[ci].name.clone();
                let body = match res {
                    Some(items) => render_items(&items),
                    None => String::from_str("Failed to get the menu from the website!"),
                };
                push_branch_section(&mut flow.sections, flow.on_secondary, title, body);
                let npend = flow.pending.len();
                let next = flow.pos + 1;
                if next < npend {
                    flow.pos = next;
                    let act = MenuAction::FetchItems {
                        company_id: flow.company_id.clone(),
                        location_id: flow.branch_location_id.clone(),
                        group_id: flow.group_id.clone(),
                        category_id: flow.categories[flow.pending[flow.pos]].id.clone(),
                    };
                    (flow, act)
                } else {
                    advance(flow)
                }
            },
            (_, _) => {
                let act = flow.pending_action();
                (flow, act)
            },
        }
    }

    /// The aggregated sections, primary venue first, in catalog order.
    pub fn into_sections(self) -> (r: Vec<Section>)
        ensures
            r == self.sections,
    {
        self.sections
    }
}

} // verus!
