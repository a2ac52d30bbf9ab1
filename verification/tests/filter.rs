use whats_cooking::ingredients_page::{
    filter_ingredients, filter_ingredients_with, ingredient_matches, IIngredient,
    MIN_FILTER_CHARS,
};
use whats_cooking::text::{chars_contain, chars_of, lower_chars, str_eq, str_is_blank};

fn ing(id: i32, name: &str, group: Option<&str>) -> IIngredient {
    IIngredient {
        id,
        name: String::from(name),
        name_scientific: None,
        description: None,
        food_group: group.map(String::from),
        food_subgroup: None,
    }
}

fn ids(list: &[IIngredient]) -> Vec<i32> {
    list.iter().map(|r| r.id).collect()
}

#[test]
fn short_query_passes_everything() {
    let list = vec![
        ing(1, "Banana", Some("Fruits")),
        ing(2, "Broccoli", Some("Vegetables")),
        ing(3, "Salt", Some("Herbs and Spices")),
    ];
    assert_eq!(ids(&filter_ingredients(&list, "")), vec![1, 2, 3]);
    assert_eq!(ids(&filter_ingredients(&list, "z")), vec![1, 2, 3]);
    assert_eq!(ids(&filter_ingredients(&list, "zz")), vec![1, 2, 3]);
}

#[test]
fn threshold_boundary_filters_at_three_chars() {
    let list = vec![
        ing(1, "Banana", Some("Fruits")),
        ing(2, "Broccoli", Some("Vegetables")),
    ];
    // two characters: below the threshold, everything passes
    assert_eq!(ids(&filter_ingredients(&list, "xy")), vec![1, 2]);
    // three characters: the filter applies
    assert_eq!(ids(&filter_ingredients(&list, "xyz")), Vec::<i32>::new());
    assert_eq!(MIN_FILTER_CHARS, 3);
}

#[test]
fn ingredient_fetch_scenario() {
    // the concrete fetch-then-filter scenario: "ban" keeps only Banana
    let list = vec![
        ing(1, "Banana", Some("Fruits")),
        ing(2, "Broccoli", Some("Vegetables")),
    ];
    let out = filter_ingredients(&list, "ban");
    assert_eq!(ids(&out), vec![1]);
    assert_eq!(out[0].name, "Banana");
}

#[test]
fn filter_is_case_insensitive() {
    let list = vec![ing(1, "Banana", Some("Fruits")), ing(2, "Kiwi", None)];
    assert_eq!(ids(&filter_ingredients(&list, "BAN")), vec![1]);
    assert_eq!(ids(&filter_ingredients(&list, "NANA")), vec![1]);
}

#[test]
fn filter_matches_group_field_too() {
    let list = vec![
        ing(1, "Banana", Some("Fruits")),
        ing(2, "Apple", Some("Fruits")),
        ing(3, "Broccoli", Some("Vegetables")),
    ];
    assert_eq!(ids(&filter_ingredients(&list, "fruit")), vec![1, 2]);
}

#[test]
fn filter_keeps_collection_order() {
    let list = vec![
        ing(5, "Green tea", Some("Teas")),
        ing(1, "Black tea", Some("Teas")),
        ing(9, "Mint tea", Some("Teas")),
    ];
    assert_eq!(ids(&filter_ingredients(&list, "tea")), vec![5, 1, 9]);
}

#[test]
fn record_without_group_matches_on_name_only() {
    let list = vec![ing(1, "Banana", None)];
    assert_eq!(ids(&filter_ingredients(&list, "ban")), vec![1]);
    assert_eq!(ids(&filter_ingredients(&list, "fruits")), Vec::<i32>::new());
}

#[test]
fn custom_threshold_is_respected() {
    let list = vec![ing(1, "Banana", Some("Fruits")), ing(2, "Kiwi", None)];
    // with a threshold of one, even a single character filters
    assert_eq!(ids(&filter_ingredients_with(&list, "k", 1)), vec![2]);
    // with a high threshold, a long query still passes everything
    assert_eq!(ids(&filter_ingredients_with(&list, "banana", 10)), vec![1, 2]);
}

#[test]
fn single_record_matching() {
    let r = ing(7, "Cheddar", Some("Milk and milk products"));
    assert!(ingredient_matches(&r, "ched"));
    assert!(ingredient_matches(&r, "MILK"));
    assert!(!ingredient_matches(&r, "fish"));
    assert!(ingredient_matches(&r, ""));
}

#[test]
fn lower_chars_folds_ascii_only() {
    assert_eq!(lower_chars("AbC"), vec!['a', 'b', 'c']);
    assert_eq!(lower_chars("a-1Z"), vec!['a', '-', '1', 'z']);
    assert_eq!(lower_chars(""), Vec::<char>::new());
}

#[test]
fn chars_contain_finds_runs() {
    let hay = chars_of("broccoli");
    assert!(chars_contain(&hay, &chars_of("cco")));
    assert!(chars_contain(&hay, &chars_of("")));
    assert!(chars_contain(&hay, &chars_of("broccoli")));
    assert!(!chars_contain(&hay, &chars_of("cob")));
    assert!(!chars_contain(&hay, &chars_of("broccolis")));
}

#[test]
fn str_eq_compares_by_characters() {
    assert!(str_eq("abc", "abc"));
    assert!(!str_eq("abc", "abd"));
    assert!(!str_eq("abc", "ab"));
    assert!(str_eq("", ""));
}

#[test]
fn blankness_after_trimming() {
    assert!(str_is_blank(""));
    assert!(str_is_blank("   \t\r\n"));
    assert!(!str_is_blank(" a "));
}
