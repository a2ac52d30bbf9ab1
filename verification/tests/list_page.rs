use whats_cooking::ingredients_page::{Action, IIngredient, IngredientsPage, Msg, States};

fn ing(id: i32, name: &str, group: Option<&str>) -> IIngredient {
    IIngredient {
        id,
        name: String::from(name),
        name_scientific: None,
        description: None,
        food_group: group.map(String::from),
        food_subgroup: None,
    }
}

fn fixture() -> Vec<IIngredient> {
    vec![
        ing(1, "Banana", Some("Fruits")),
        ing(2, "Broccoli", Some("Vegetables")),
    ]
}

#[test]
fn first_paint_starts_the_fetch() {
    let mut p = IngredientsPage::create();
    assert!(matches!(p.state, States::Initial));
    let (render, actions) = p.rendered(true);
    assert!(render);
    assert!(matches!(p.state, States::Fetching));
    assert_eq!(actions.len(), 1);
    assert!(matches!(actions[0], Action::StartFetch(0)));
}

#[test]
fn later_paints_do_not_refetch() {
    let mut p = IngredientsPage::create();
    let (_, _) = p.rendered(true);
    let (render, actions) = p.rendered(false);
    assert!(!render);
    assert!(actions.is_empty());
    assert!(matches!(p.state, States::Fetching));
}

#[test]
fn fetch_success_replaces_the_collection() {
    let mut p = IngredientsPage::create();
    let (_, _) = p.rendered(true);
    let (render, actions) = p.complete(0, Ok(fixture()));
    assert!(render);
    assert!(actions.is_empty());
    match &p.state {
        States::Success { ingredients } => {
            assert_eq!(ingredients.len(), 2);
            assert_eq!(ingredients[0].id, 1);
            assert_eq!(ingredients[1].name, "Broccoli");
        }
        _ => panic!("expected the success state"),
    }
}

#[test]
fn fetch_error_surfaces_the_message() {
    let mut p = IngredientsPage::create();
    let (_, _) = p.rendered(true);
    let (render, _) = p.complete(0, Err(String::from("There was an error")));
    assert!(render);
    match &p.state {
        States::Error(e) => assert_eq!(e, "There was an error"),
        _ => panic!("expected the error state"),
    }
    assert!(p.fetch_task.current.is_none());
}

#[test]
fn error_retry_reissues_the_fetch_exactly_once() {
    // the error-retry scenario: Error -> FetchIngredients passes through
    // Initial and lands in Fetching with one started request
    let mut p = IngredientsPage::create();
    let (_, _) = p.rendered(true);
    let (_, _) = p.complete(0, Err(String::from("There was an error")));
    assert!(matches!(p.state, States::Error(_)));
    let (render, actions) = p.dispatch(Msg::FetchIngredients);
    assert!(render);
    assert!(matches!(p.state, States::Fetching));
    assert_eq!(actions.len(), 1);
    assert!(matches!(actions[0], Action::StartFetch(1)));
}

#[test]
fn stale_completion_is_dropped() {
    let mut p = IngredientsPage::create();
    let (_, _) = p.rendered(true);
    let (_, _) = p.complete(0, Err(String::from("boom")));
    let (_, _) = p.dispatch(Msg::FetchIngredients);
    // handle 0 was superseded by handle 1; its late success must not land
    let (render, actions) = p.complete(0, Ok(fixture()));
    assert!(!render);
    assert!(actions.is_empty());
    assert!(matches!(p.state, States::Fetching));
    // the current handle still lands
    let (render2, _) = p.complete(1, Ok(fixture()));
    assert!(render2);
    assert!(matches!(p.state, States::Success { .. }));
}

#[test]
fn filter_is_editable_once_loaded() {
    let mut p = IngredientsPage::create();
    let (_, _) = p.rendered(true);
    let (_, _) = p.complete(0, Ok(fixture()));
    let (render, actions) = p.dispatch(Msg::UpdateFilter(String::from("ban")));
    assert!(render);
    assert!(actions.is_empty());
    assert_eq!(p.current_filter, "ban");
    assert!(matches!(p.state, States::Success { .. }));
}

#[test]
fn filter_edits_are_ignored_before_load() {
    let mut p = IngredientsPage::create();
    let (render, actions) = p.dispatch(Msg::UpdateFilter(String::from("ban")));
    assert!(!render);
    assert!(actions.is_empty());
    assert_eq!(p.current_filter, "");
}

#[test]
fn fetch_is_ignored_while_fetching() {
    let mut p = IngredientsPage::create();
    let (_, _) = p.rendered(true);
    let (render, actions) = p.dispatch(Msg::FetchIngredients);
    assert!(!render);
    assert!(actions.is_empty());
    assert!(matches!(p.state, States::Fetching));
}
