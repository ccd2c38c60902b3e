use pav_dining::command::{split_spaces, route_tokens, Route};
use pav_dining::temporal::{Day, Meal};

fn toks(s: &str) -> Vec<String> {
    split_spaces(s)
}

#[test]
fn splitting_on_spaces() {
    assert_eq!(split_spaces("a b c"), vec!["a", "b", "c"]);
    assert_eq!(split_spaces(""), vec![""]);
    assert_eq!(split_spaces("lunch"), vec!["lunch"]);
    assert_eq!(split_spaces("a  b"), vec!["a", "", "b"]);
    assert_eq!(split_spaces("trailing "), vec!["trailing", ""]);
}

#[test]
fn single_meta_token_routes_to_hours_or_announcements() {
    let r = route_tokens(&toks("hours"), Day::Monday, Meal::Lunch);
    assert!(matches!(r, Route::Hours));
    let r = route_tokens(&toks("TIME"), Day::Monday, Meal::Lunch);
    assert!(matches!(r, Route::Hours));
    let r = route_tokens(&toks("announcements"), Day::Monday, Meal::Lunch);
    assert!(matches!(r, Route::Announcements));
    let r = route_tokens(&toks("schedule"), Day::Monday, Meal::Lunch);
    assert!(matches!(r, Route::Announcements));
}

#[test]
fn meta_tokens_are_only_recognized_alone() {
    let r = route_tokens(&toks("schedule tuesday"), Day::Monday, Meal::Lunch);
    match r {
        Route::Menu { day, meal } => {
            assert_eq!(day, Day::Tuesday);
            assert_eq!(meal, Meal::Other("schedule".to_string()));
        },
        _ => panic!("two tokens must not route to announcements"),
    }
}

#[test]
fn day_and_meal_overrides() {
    let r = route_tokens(&toks("wed dinner"), Day::Monday, Meal::Lunch);
    match r {
        Route::Menu { day, meal } => {
            assert_eq!(day, Day::Wednesday);
            assert_eq!(meal, Meal::Dinner);
        },
        _ => panic!("expected a menu route"),
    }
}

#[test]
fn unrecognized_tokens_become_a_custom_meal() {
    let r = route_tokens(&toks("fri taco bar"), Day::Monday, Meal::Lunch);
    match r {
        Route::Menu { day, meal } => {
            assert_eq!(day, Day::Friday);
            assert_eq!(meal, Meal::Other("taco bar".to_string()));
        },
        _ => panic!("expected a menu route"),
    }
}

#[test]
fn empty_input_keeps_both_defaults() {
    let r = route_tokens(&toks(""), Day::Thursday, Meal::Breakfast);
    match r {
        Route::Menu { day, meal } => {
            assert_eq!(day, Day::Thursday);
            assert_eq!(meal, Meal::Breakfast);
        },
        _ => panic!("expected a menu route"),
    }
}

#[test]
fn last_day_token_wins() {
    let r = route_tokens(&toks("mon tue"), Day::Sunday, Meal::Lunch);
    match r {
        Route::Menu { day, meal } => {
            assert_eq!(day, Day::Tuesday);
            assert_eq!(meal, Meal::Lunch);
        },
        _ => panic!("expected a menu route"),
    }
}
