use sprout::naming::identifier::{ends_with_vowel_y, pluralize, NameSet};

#[test]
fn converts_simple_name() {
    let n = NameSet::from_raw("user");
    assert_eq!(n.pascal, "User");
    assert_eq!(n.camel, "user");
    assert_eq!(n.kebab, "user");
    assert_eq!(n.snake, "user");
    assert_eq!(n.plural_kebab, "users");
}

#[test]
fn converts_compound_name() {
    let n = NameSet::from_raw("user-account");
    assert_eq!(n.pascal, "UserAccount");
    assert_eq!(n.camel, "userAccount");
    assert_eq!(n.kebab, "user-account");
    assert_eq!(n.snake, "user_account");
}

#[test]
fn pluralizes_y() {
    let n = NameSet::from_raw("Category");
    assert_eq!(n.plural_kebab, "categories");
}

#[test]
fn pluralizes_x() {
    let n = NameSet::from_raw("Box");
    assert_eq!(n.plural_kebab, "boxes");
}

#[test]
fn case_spellings_of_one_name_agree() {
    for raw in ["user-account", "UserAccount", "user_account", "userAccount"] {
        let n = NameSet::from_raw(raw);
        assert_eq!(n.pascal, "UserAccount");
        assert_eq!(n.plural_kebab, "user-accounts");
        assert_eq!(n.plural_snake, "user_accounts");
        assert_eq!(n.plural_camel, "userAccounts");
    }
    assert_eq!(NameSet::from_raw("user").pascal, NameSet::from_raw("User").pascal);
}

#[test]
fn from_cases_pluralizes_each_spelling() {
    let n = NameSet::from_cases(
        "Company".to_string(),
        "company".to_string(),
        "company".to_string(),
        "company".to_string(),
    );
    assert_eq!(n.pascal, "Company");
    assert_eq!(n.plural_kebab, "companies");
    assert_eq!(n.plural_snake, "companies");
    assert_eq!(n.plural_camel, "companies");
}

#[test]
fn pluralize_rules() {
    assert_eq!(pluralize(""), "");
    assert_eq!(pluralize("y"), "ies");
    assert_eq!(pluralize("day"), "days");
    assert_eq!(pluralize("key"), "keys");
    assert_eq!(pluralize("city"), "cities");
    assert_eq!(pluralize("bus"), "buses");
    assert_eq!(pluralize("fox"), "foxes");
    assert_eq!(pluralize("match"), "matches");
    assert_eq!(pluralize("dish"), "dishes");
    assert_eq!(pluralize("order"), "orders");
    assert_eq!(pluralize("Day"), "Days");
    assert_eq!(pluralize("DAY"), "DAYs");
}

#[test]
fn plural_extends_word() {
    for w in ["a", "category", "box", "user", "dish", "toy"] {
        let p = pluralize(w);
        assert!(p.len() > w.len());
        assert!(p.ends_with('s'));
        assert!(p.starts_with(&w[..w.len() - 1]));
    }
}

#[test]
fn vowel_before_final_letter() {
    assert!(!ends_with_vowel_y(""));
    assert!(!ends_with_vowel_y("y"));
    assert!(ends_with_vowel_y("ay"));
    assert!(ends_with_vowel_y("toy"));
    assert!(!ends_with_vowel_y("city"));
    assert!(!ends_with_vowel_y("Ay"));
}
