use gid::model::Error;
use gid::model::Item;
use gid::resolve::resolve;
use gid::resolve::resolve_all;
use gid::resolve::resolve_optional;

fn it(id: &str, title: &str) -> Item {
    Item { id: id.to_string(), title: title.to_string() }
}

fn milk_and_clean() -> Vec<Item> {
    vec![it("a", "Buy milk"), it("b", "Clean")]
}

#[test]
fn title_token_resolves_to_that_item() {
    let items = milk_and_clean();
    let id = resolve(&"Buy milk".to_string(), &items).unwrap();
    assert_eq!(id, "a");
    let id = resolve(&"Clean".to_string(), &items).unwrap();
    assert_eq!(id, "b");
}

#[test]
fn duplicate_titles_resolve_to_first_in_enumeration_order() {
    let items = vec![it("x", "dup"), it("y", "dup"), it("z", "other")];
    let id = resolve(&"dup".to_string(), &items).unwrap();
    assert_eq!(id, "x");
}

#[test]
fn numeric_token_resolves_by_index_when_no_title_matches() {
    let items = milk_and_clean();
    let id = resolve(&"1".to_string(), &items).unwrap();
    assert_eq!(id, "b");
    let id = resolve(&"0".to_string(), &items).unwrap();
    assert_eq!(id, "a");
}

#[test]
fn plus_prefixed_numeric_token_counts_as_an_index() {
    let items = milk_and_clean();
    let id = resolve(&"+1".to_string(), &items).unwrap();
    assert_eq!(id, "b");
}

#[test]
fn unmatched_token_fails_with_identifier_not_found() {
    let items = milk_and_clean();
    let e = resolve(&"nope".to_string(), &items).unwrap_err();
    assert!(matches!(e, Error::IdentifierNotFound { ref token } if token.as_str() == "nope"));
}

#[test]
fn index_out_of_range_fails() {
    let items = milk_and_clean();
    assert!(resolve(&"2".to_string(), &items).is_err());
    assert!(resolve(&"17".to_string(), &items).is_err());
}

#[test]
fn overflowing_numeric_token_is_no_index() {
    let items = milk_and_clean();
    assert!(resolve(&"99999999999999999999999999".to_string(), &items).is_err());
}

#[test]
fn empty_enumeration_resolves_nothing() {
    let items: Vec<Item> = Vec::new();
    assert!(resolve(&"0".to_string(), &items).is_err());
    assert!(resolve(&"anything".to_string(), &items).is_err());
}

#[test]
fn first_match_wins_between_index_and_later_title() {
    // the token "0" indexes the first item and names the second; the
    // scan binds it to whichever comes first in enumeration order
    let items = vec![it("x", "1"), it("y", "0")];
    let id = resolve(&"0".to_string(), &items).unwrap();
    assert_eq!(id, "x");
}

#[test]
fn title_looking_numeric_is_still_reachable_by_exact_name() {
    let items = vec![it("x", "7"), it("y", "other")];
    let id = resolve(&"7".to_string(), &items).unwrap();
    assert_eq!(id, "x");
}

#[test]
fn resolve_optional_distinguishes_no_match_from_a_match() {
    let items = milk_and_clean();
    assert_eq!(resolve_optional(&"Clean".to_string(), &items), Some("b".to_string()));
    assert_eq!(resolve_optional(&"nope".to_string(), &items), None);
}

#[test]
fn resolve_all_returns_identifiers_in_input_order() {
    let items = milk_and_clean();
    let tokens = vec!["1".to_string(), "Buy milk".to_string()];
    let ids = resolve_all(&tokens, &items).unwrap();
    assert_eq!(ids, vec!["b".to_string(), "a".to_string()]);
}

#[test]
fn resolve_all_reports_the_first_unresolved_token() {
    let items = milk_and_clean();
    let tokens = vec!["Buy milk".to_string(), "nope".to_string(), "Clean".to_string()];
    assert_eq!(resolve_all(&tokens, &items).unwrap_err(), 1);
}
