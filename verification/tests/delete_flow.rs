use whats_cooking::ingredient::{
    emoji, food_emoji, group_tag, Action, FoodGroup, Ingredient, Msg, Props, States,
};

fn props() -> Props {
    Props {
        id: 42,
        name: String::from("Banana"),
        group: String::from("Fruits"),
        description: Some(String::from("yellow")),
    }
}

#[test]
fn delete_flow_scenario() {
    // Initial -> Delete -> Deleting with the handle stored; success -> Deleted;
    // a second Delete while Deleting is a no-op
    let mut c = Ingredient::create(props());
    assert!(matches!(c.state, States::Initial));
    let (render, action) = c.update(Msg::DeleteIngredient);
    assert!(render);
    assert!(matches!(c.state, States::Deleting));
    assert!(matches!(action, Some(Action::StartDelete(42, 0))));
    assert_eq!(c.fetch_task.current, Some(0));

    let (render2, action2) = c.update(Msg::DeleteIngredient);
    assert!(!render2);
    assert!(action2.is_none());
    assert!(matches!(c.state, States::Deleting));

    let (render3, action3) = c.complete(0, Ok(String::from("deleted")));
    assert!(render3);
    assert!(action3.is_none());
    assert!(matches!(c.state, States::Deleted));
}

#[test]
fn delete_error_returns_to_initial() {
    let mut c = Ingredient::create(props());
    let (_, _) = c.update(Msg::DeleteIngredient);
    let (render, _) = c.complete(0, Err(String::from("boom")));
    assert!(render);
    assert!(matches!(c.state, States::Initial));
    assert!(c.fetch_task.current.is_none());
    // the row can be retried, and gets a fresh handle
    let (_, action) = c.update(Msg::DeleteIngredient);
    assert!(matches!(action, Some(Action::StartDelete(42, 1))));
}

#[test]
fn stale_delete_completion_is_dropped() {
    let mut c = Ingredient::create(props());
    let (_, _) = c.update(Msg::DeleteIngredient);
    let (_, _) = c.complete(0, Err(String::from("boom")));
    let (_, _) = c.update(Msg::DeleteIngredient);
    // handle 0 was superseded by handle 1; its late success must not land
    let (render, action) = c.complete(0, Ok(String::from("late")));
    assert!(!render);
    assert!(action.is_none());
    assert!(matches!(c.state, States::Deleting));
    let (render2, _) = c.complete(1, Ok(String::from("ok")));
    assert!(render2);
    assert!(matches!(c.state, States::Deleted));
}

#[test]
fn toggle_works_in_every_state() {
    let mut c = Ingredient::create(props());
    assert!(!c.is_open);
    let (render, action) = c.update(Msg::Toggle);
    assert!(render);
    assert!(action.is_none());
    assert!(c.is_open);
    let (_, _) = c.update(Msg::DeleteIngredient);
    let (_, _) = c.update(Msg::Toggle);
    assert!(!c.is_open);
    assert!(matches!(c.state, States::Deleting));
    let (_, _) = c.complete(0, Ok(String::from("gone")));
    let (_, _) = c.update(Msg::Toggle);
    assert!(c.is_open);
    assert!(matches!(c.state, States::Deleted));
}

#[test]
fn deleted_is_terminal() {
    let mut c = Ingredient::create(props());
    let (_, _) = c.update(Msg::DeleteIngredient);
    let (_, _) = c.complete(0, Ok(String::from("gone")));
    let (render, action) = c.update(Msg::DeleteIngredient);
    assert!(!render);
    assert!(action.is_none());
    assert!(matches!(c.state, States::Deleted));
}

#[test]
fn known_groups_get_their_emoji() {
    assert_eq!(food_emoji("Fruits"), "\u{1F34C}");
    assert_eq!(food_emoji("Vegetables"), "\u{1F966}");
    assert_eq!(food_emoji("Teas"), "\u{2615}");
    assert_eq!(food_emoji("Coffee and coffee products"), "\u{2615}");
    assert_eq!(food_emoji("Milk and milk products"), "\u{1F9C0}");
}

#[test]
fn unknown_groups_fall_back() {
    assert_eq!(food_emoji("Rocks"), "\u{274C}");
    assert_eq!(food_emoji(""), "\u{274C}");
    assert_eq!(food_emoji("fruits"), "\u{274C}");
}

#[test]
fn group_tags_round_through_emoji() {
    assert_eq!(group_tag("Gourds"), FoodGroup::Gourds);
    assert_eq!(group_tag("nope"), FoodGroup::Other);
    assert_eq!(emoji(FoodGroup::Gourds), "\u{1F952}");
    assert_eq!(emoji(FoodGroup::Other), "\u{274C}");
}
