use whats_cooking::new_ingredients_form as ing_form;
use whats_cooking::new_recipe_form as rec_form;

fn filled_ing_form() -> ing_form::NewIngredientsForm {
    let mut f = ing_form::NewIngredientsForm::create();
    let (_, _) = f.dispatch(ing_form::Msg::UpdateFormField(
        ing_form::FormFieldName::Name,
        String::from("Banana"),
    ));
    let (_, _) = f.dispatch(ing_form::Msg::UpdateFormField(
        ing_form::FormFieldName::FoodGroup,
        String::from("Fruits"),
    ));
    f
}

#[test]
fn ingredient_form_starts_empty() {
    let f = ing_form::NewIngredientsForm::create();
    assert!(matches!(f.state, ing_form::States::Initial));
    assert_eq!(f.form_data.name, "");
    assert_eq!(f.form_data.food_group, "");
    assert!(f.form_data.description.is_none());
    assert!(f.form_data.name_scientific.is_none());
    assert!(f.form_data.food_subgroup.is_none());
}

#[test]
fn ingredient_submit_with_empty_required_field_is_invalid() {
    // name filled, food group empty: validation fails, nothing starts
    let mut f = ing_form::NewIngredientsForm::create();
    let (_, _) = f.dispatch(ing_form::Msg::UpdateFormField(
        ing_form::FormFieldName::Name,
        String::from("Banana"),
    ));
    let (render, actions) = f.dispatch(ing_form::Msg::Submit);
    assert!(render);
    assert!(matches!(f.state, ing_form::States::Invalid));
    assert!(actions.is_empty());
    assert!(f.fetch_task.current.is_none());
}

#[test]
fn ingredient_submit_with_blank_required_field_is_invalid() {
    // spaces only do not count as filled
    let mut f = filled_ing_form();
    let (_, _) = f.dispatch(ing_form::Msg::UpdateFormField(
        ing_form::FormFieldName::FoodGroup,
        String::from("   "),
    ));
    let (_, actions) = f.dispatch(ing_form::Msg::Submit);
    assert!(matches!(f.state, ing_form::States::Invalid));
    assert!(actions.is_empty());
}

#[test]
fn ingredient_submit_with_filled_fields_starts_one_request() {
    let mut f = filled_ing_form();
    let (render, actions) = f.dispatch(ing_form::Msg::Submit);
    assert!(render);
    assert!(matches!(f.state, ing_form::States::Submitting));
    assert_eq!(actions.len(), 1);
    match &actions[0] {
        ing_form::Action::StartPost(data, handle) => {
            assert_eq!(data.name, "Banana");
            assert_eq!(data.food_group, "Fruits");
            assert_eq!(*handle, 0);
        }
    }
    assert_eq!(f.fetch_task.current, Some(0));
}

#[test]
fn ingredient_form_clears_after_success() {
    // the form-reset scenario: success, then the next cycle finds defaults
    let mut f = filled_ing_form();
    let (_, _) = f.dispatch(ing_form::Msg::Submit);
    let (render, _) = f.complete(0, Ok(String::from("created")));
    assert!(render);
    assert!(matches!(f.state, ing_form::States::Success));
    // fields still hold their values for this frame
    assert_eq!(f.form_data.name, "Banana");
    let (render2, actions) = f.dispatch(ing_form::Msg::Submit);
    assert!(render2);
    assert!(actions.is_empty());
    assert!(matches!(f.state, ing_form::States::Initial));
    assert_eq!(f.form_data.name, "");
    assert_eq!(f.form_data.food_group, "");
    assert!(f.form_data.description.is_none());
}

#[test]
fn ingredient_form_error_keeps_fields_and_allows_retry() {
    let mut f = filled_ing_form();
    let (_, _) = f.dispatch(ing_form::Msg::Submit);
    let (_, _) = f.complete(0, Err(String::from("There was an error")));
    match &f.state {
        ing_form::States::Error(e) => assert_eq!(e, "There was an error"),
        _ => panic!("expected the error state"),
    }
    assert_eq!(f.form_data.name, "Banana");
    let (_, actions) = f.dispatch(ing_form::Msg::Submit);
    assert!(matches!(f.state, ing_form::States::Submitting));
    assert_eq!(actions.len(), 1);
    match &actions[0] {
        ing_form::Action::StartPost(_, handle) => assert_eq!(*handle, 1),
    }
}

#[test]
fn ingredient_form_ignores_edits_while_submitting() {
    let mut f = filled_ing_form();
    let (_, _) = f.dispatch(ing_form::Msg::Submit);
    let (render, actions) = f.dispatch(ing_form::Msg::UpdateFormField(
        ing_form::FormFieldName::Name,
        String::from("Mango"),
    ));
    assert!(!render);
    assert!(actions.is_empty());
    assert_eq!(f.form_data.name, "Banana");
}

#[test]
fn ingredient_form_drops_stale_completion() {
    let mut f = filled_ing_form();
    let (_, _) = f.dispatch(ing_form::Msg::Submit);
    let (_, _) = f.complete(0, Err(String::from("boom")));
    let (_, _) = f.dispatch(ing_form::Msg::Submit);
    // handle 0 was superseded by handle 1
    let (render, actions) = f.complete(0, Ok(String::from("late")));
    assert!(!render);
    assert!(actions.is_empty());
    assert!(matches!(f.state, ing_form::States::Submitting));
    let (_, _) = f.complete(1, Ok(String::from("created")));
    assert!(matches!(f.state, ing_form::States::Success));
}

#[test]
fn recipe_form_starts_with_present_empty_description() {
    let f = rec_form::NewRecipesForm::create();
    assert!(matches!(f.state, rec_form::States::Initial));
    assert_eq!(f.form_data.name, "");
    assert_eq!(f.form_data.description.as_deref(), Some(""));
    assert!(f.form_data.link.is_none());
    assert!(f.form_data.url.is_none());
}

#[test]
fn recipe_submit_without_name_is_invalid() {
    let mut f = rec_form::NewRecipesForm::create();
    let (_, actions) = f.dispatch(rec_form::Msg::Submit);
    assert!(matches!(f.state, rec_form::States::Invalid));
    assert!(actions.is_empty());
    assert!(f.fetch_task.current.is_none());
}

#[test]
fn recipe_submit_with_name_starts_one_request() {
    let mut f = rec_form::NewRecipesForm::create();
    let (_, _) = f.dispatch(rec_form::Msg::UpdateFormField(
        rec_form::FormFieldName::Name,
        String::from("Smoothie"),
    ));
    let (_, _) = f.dispatch(rec_form::Msg::UpdateFormField(
        rec_form::FormFieldName::Url,
        String::from("http://example.test/banana.jpg"),
    ));
    let (render, actions) = f.dispatch(rec_form::Msg::Submit);
    assert!(render);
    assert!(matches!(f.state, rec_form::States::Submitting));
    assert_eq!(actions.len(), 1);
    match &actions[0] {
        rec_form::Action::StartPost(data, handle) => {
            assert_eq!(data.name, "Smoothie");
            assert_eq!(data.url.as_deref(), Some("http://example.test/banana.jpg"));
            assert_eq!(*handle, 0);
        }
    }
}

#[test]
fn recipe_start_submit_alone_is_ignored_when_editable() {
    let mut f = rec_form::NewRecipesForm::create();
    let (render, actions) = f.dispatch(rec_form::Msg::StartSubmit);
    assert!(!render);
    assert!(actions.is_empty());
    assert!(matches!(f.state, rec_form::States::Initial));
}

#[test]
fn recipe_form_clears_after_success() {
    let mut f = rec_form::NewRecipesForm::create();
    let (_, _) = f.dispatch(rec_form::Msg::UpdateFormField(
        rec_form::FormFieldName::Name,
        String::from("Smoothie"),
    ));
    let (_, _) = f.dispatch(rec_form::Msg::Submit);
    let (_, _) = f.complete(0, Ok(String::from("created")));
    assert!(matches!(f.state, rec_form::States::Success));
    let (_, _) = f.dispatch(rec_form::Msg::Submit);
    assert!(matches!(f.state, rec_form::States::Initial));
    assert_eq!(f.form_data.name, "");
    assert_eq!(f.form_data.description.as_deref(), Some(""));
    assert!(f.form_data.url.is_none());
}

#[test]
fn recipe_form_error_surfaces_message() {
    let mut f = rec_form::NewRecipesForm::create();
    let (_, _) = f.dispatch(rec_form::Msg::UpdateFormField(
        rec_form::FormFieldName::Name,
        String::from("Smoothie"),
    ));
    let (_, _) = f.dispatch(rec_form::Msg::Submit);
    let (_, _) = f.complete(0, Err(String::from("There was an error")));
    match &f.state {
        rec_form::States::Error(e) => assert_eq!(e, "There was an error"),
        _ => panic!("expected the error state"),
    }
}
