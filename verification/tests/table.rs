use jokes::handler::create::add;
use jokes::handler::delete::{delete_joke, remove};
use jokes::handler::read::{get_all_jokes, get_joke, pick_random};
use jokes::models::{Joke, NewJoke};
use jokes::status::QueryError;
use jokes::store::Table;

fn new_joke(url: &str) -> NewJoke {
    NewJoke { url: String::from(url) }
}

fn joke(id: i32, url: &str) -> Joke {
    Joke { id, url: String::from(url) }
}

#[test]
fn a_new_table_is_empty() {
    let table = Table::new();
    assert_eq!(table.len(), 0);
    assert_eq!(get_all_jokes(&table), Ok(Vec::new()));
}

#[test]
fn the_first_joke_gets_identifier_one() {
    let mut table = Table::new();
    assert_eq!(add(new_joke("http://a"), &mut table), Ok(joke(1, "http://a")));
    assert_eq!(table.len(), 1);
}

#[test]
fn identifiers_go_up_by_one() {
    let mut table = Table::new();
    assert_eq!(add(new_joke("http://a"), &mut table), Ok(joke(1, "http://a")));
    assert_eq!(add(new_joke("http://b"), &mut table), Ok(joke(2, "http://b")));
    assert_eq!(add(new_joke("http://c"), &mut table), Ok(joke(3, "http://c")));
}

#[test]
fn inserted_identifiers_are_unique() {
    let mut table = Table::new();
    let mut seen: Vec<i32> = Vec::new();
    for round in 0..50 {
        let stored = add(new_joke("http://same"), &mut table).unwrap();
        assert!(!seen.contains(&stored.id));
        seen.push(stored.id);
        if round % 3 == 0 {
            assert_eq!(delete_joke(stored.id, &mut table), Ok(1));
        }
        if round % 17 == 16 {
            remove(&mut table).unwrap();
        }
    }
    assert_eq!(seen.len(), 50);
}

#[test]
fn an_identifier_is_not_reused_after_its_row_was_removed() {
    let mut table = Table::new();
    let first = add(new_joke("http://a"), &mut table).unwrap();
    assert_eq!(first.id, 1);
    assert_eq!(delete_joke(1, &mut table), Ok(1));
    let second = add(new_joke("http://b"), &mut table).unwrap();
    assert_eq!(second.id, 2);
}

#[test]
fn an_identifier_is_not_reused_after_all_rows_were_removed() {
    let mut table = Table::new();
    add(new_joke("http://a"), &mut table).unwrap();
    add(new_joke("http://b"), &mut table).unwrap();
    assert_eq!(remove(&mut table), Ok(2));
    assert_eq!(add(new_joke("http://c"), &mut table), Ok(joke(3, "http://c")));
}

#[test]
fn the_same_url_may_be_stored_twice() {
    let mut table = Table::new();
    assert_eq!(add(new_joke("http://a"), &mut table), Ok(joke(1, "http://a")));
    assert_eq!(add(new_joke("http://a"), &mut table), Ok(joke(2, "http://a")));
    assert_eq!(table.len(), 2);
}

#[test]
fn any_text_is_accepted_as_url() {
    let mut table = Table::new();
    assert_eq!(add(new_joke(""), &mut table), Ok(joke(1, "")));
    assert_eq!(add(new_joke("not a url"), &mut table), Ok(joke(2, "not a url")));
    assert_eq!(get_joke(1, &table), Ok(Some(joke(1, ""))));
}

#[test]
fn a_stored_joke_is_found_by_its_identifier() {
    let mut table = Table::new();
    add(new_joke("http://a"), &mut table).unwrap();
    let stored = add(new_joke("http://b"), &mut table).unwrap();
    add(new_joke("http://c"), &mut table).unwrap();
    let found = get_joke(stored.id, &table).unwrap().unwrap();
    assert_eq!(found.url, "http://b");
    assert_eq!(found, stored);
}

#[test]
fn a_lookup_of_an_unknown_identifier_is_absent() {
    let mut table = Table::new();
    assert_eq!(get_joke(1, &table), Ok(None));
    add(new_joke("http://a"), &mut table).unwrap();
    assert_eq!(get_joke(2, &table), Ok(None));
    assert_eq!(get_joke(0, &table), Ok(None));
    assert_eq!(get_joke(-1, &table), Ok(None));
    assert_eq!(get_joke(i32::MAX, &table), Ok(None));
    assert_eq!(get_joke(i32::MIN, &table), Ok(None));
}

#[test]
fn listing_gives_the_rows_in_the_order_in_which_they_were_stored() {
    let mut table = Table::new();
    add(new_joke("http://a"), &mut table).unwrap();
    add(new_joke("http://b"), &mut table).unwrap();
    add(new_joke("http://c"), &mut table).unwrap();
    delete_joke(2, &mut table).unwrap();
    assert_eq!(get_all_jokes(&table), Ok(vec![joke(1, "http://a"), joke(3, "http://c")]));
}

#[test]
fn listing_an_empty_table_gives_an_empty_list() {
    let mut table = Table::new();
    assert_eq!(get_all_jokes(&table), Ok(Vec::new()));
    add(new_joke("http://a"), &mut table).unwrap();
    delete_joke(1, &mut table).unwrap();
    assert_eq!(get_all_jokes(&table), Ok(Vec::new()));
}

#[test]
fn a_random_pick_from_an_empty_table_is_absent() {
    let table = Table::new();
    assert_eq!(pick_random(0, &table), Ok(None));
    assert_eq!(pick_random(12345, &table), Ok(None));
    assert_eq!(pick_random(usize::MAX, &table), Ok(None));
}

#[test]
fn a_random_pick_is_a_row_of_the_table() {
    let mut table = Table::new();
    add(new_joke("http://a"), &mut table).unwrap();
    add(new_joke("http://b"), &mut table).unwrap();
    add(new_joke("http://c"), &mut table).unwrap();
    let rows = get_all_jokes(&table).unwrap();
    for draw in [0usize, 1, 2, 3, 4, 100, 9999, usize::MAX - 1, usize::MAX] {
        let picked = pick_random(draw, &table).unwrap().unwrap();
        assert!(rows.contains(&picked));
    }
}

#[test]
fn a_random_pick_is_the_row_at_the_remainder_of_the_draw() {
    let mut table = Table::new();
    add(new_joke("http://a"), &mut table).unwrap();
    add(new_joke("http://b"), &mut table).unwrap();
    add(new_joke("http://c"), &mut table).unwrap();
    assert_eq!(pick_random(0, &table), Ok(Some(joke(1, "http://a"))));
    assert_eq!(pick_random(1, &table), Ok(Some(joke(2, "http://b"))));
    assert_eq!(pick_random(2, &table), Ok(Some(joke(3, "http://c"))));
    assert_eq!(pick_random(3, &table), Ok(Some(joke(1, "http://a"))));
    assert_eq!(pick_random(10, &table), Ok(Some(joke(2, "http://b"))));
}

#[test]
fn a_random_pick_from_one_row_is_that_row() {
    let mut table = Table::new();
    add(new_joke("http://only"), &mut table).unwrap();
    for draw in [0usize, 1, 7, usize::MAX] {
        assert_eq!(pick_random(draw, &table), Ok(Some(joke(1, "http://only"))));
    }
}

#[test]
fn deleting_an_unknown_identifier_removes_nothing() {
    let mut table = Table::new();
    assert_eq!(delete_joke(1, &mut table), Ok(0));
    add(new_joke("http://a"), &mut table).unwrap();
    assert_eq!(delete_joke(2, &mut table), Ok(0));
    assert_eq!(delete_joke(-5, &mut table), Ok(0));
    assert_eq!(get_all_jokes(&table), Ok(vec![joke(1, "http://a")]));
}

#[test]
fn deleting_a_known_identifier_removes_one_row() {
    let mut table = Table::new();
    add(new_joke("http://a"), &mut table).unwrap();
    add(new_joke("http://b"), &mut table).unwrap();
    assert_eq!(delete_joke(1, &mut table), Ok(1));
    assert_eq!(get_joke(1, &table), Ok(None));
    assert_eq!(get_joke(2, &table), Ok(Some(joke(2, "http://b"))));
    assert_eq!(table.len(), 1);
}

#[test]
fn deleting_twice_removes_once() {
    let mut table = Table::new();
    add(new_joke("http://a"), &mut table).unwrap();
    assert_eq!(delete_joke(1, &mut table), Ok(1));
    assert_eq!(delete_joke(1, &mut table), Ok(0));
}

#[test]
fn removing_all_counts_the_rows() {
    let mut table = Table::new();
    assert_eq!(remove(&mut table), Ok(0));
    add(new_joke("http://a"), &mut table).unwrap();
    add(new_joke("http://b"), &mut table).unwrap();
    add(new_joke("http://c"), &mut table).unwrap();
    assert_eq!(remove(&mut table), Ok(3));
    assert_eq!(remove(&mut table), Ok(0));
}

#[test]
fn nothing_is_listed_after_all_rows_were_removed() {
    let mut table = Table::new();
    for url in ["http://a", "http://b", "http://c", "http://d"] {
        add(new_joke(url), &mut table).unwrap();
    }
    remove(&mut table).unwrap();
    assert_eq!(get_all_jokes(&table), Ok(Vec::new()));
    assert_eq!(table.len(), 0);
    assert_eq!(get_joke(1, &table), Ok(None));
    assert_eq!(pick_random(3, &table), Ok(None));
}

#[test]
fn a_resumed_table_goes_on_after_its_last_identifier() {
    let mut table = Table::resumed(41);
    assert_eq!(table.len(), 0);
    assert_eq!(add(new_joke("http://a"), &mut table), Ok(joke(42, "http://a")));
}

#[test]
fn a_table_resumed_below_zero_goes_on_from_there() {
    let mut table = Table::resumed(-3);
    assert_eq!(add(new_joke("http://a"), &mut table), Ok(joke(-2, "http://a")));
    assert_eq!(get_joke(-2, &table), Ok(Some(joke(-2, "http://a"))));
    assert_eq!(delete_joke(-2, &mut table), Ok(1));
    assert_eq!(add(new_joke("http://b"), &mut table), Ok(joke(-1, "http://b")));
}

#[test]
fn storing_fails_where_every_identifier_was_given_out() {
    let mut table = Table::resumed(i32::MAX - 1);
    assert_eq!(add(new_joke("http://last"), &mut table), Ok(joke(i32::MAX, "http://last")));
    assert_eq!(add(new_joke("http://none"), &mut table), Err(QueryError));
    assert_eq!(get_all_jokes(&table), Ok(vec![joke(i32::MAX, "http://last")]));
    assert_eq!(add(new_joke("http://none"), &mut table), Err(QueryError));
    assert_eq!(table.len(), 1);
}

#[test]
fn a_clone_of_a_joke_equals_it() {
    let stored = joke(9, "http://nine");
    assert_eq!(stored.clone(), stored);
    let fresh = new_joke("http://new");
    assert_eq!(fresh.clone(), fresh);
}
