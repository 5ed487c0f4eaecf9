use std_reset::split::{Split, TokenStream};

fn stream(tokens: &[&str]) -> TokenStream {
    TokenStream {
        tokens: tokens.iter().map(|t| t.to_string()).collect(),
    }
}

#[test]
fn splits_on_a_single_token() {
    let input = stream(&["a", "b", ",", "c"]);
    let sep = stream(&[","]);
    let groups = input.split(&sep).unwrap();
    assert_eq!(groups, vec![stream(&["a", "b"]), stream(&["c"])]);
}

#[test]
fn splits_on_a_token_pair() {
    let input = stream(&["a", "-", ">", "b", "-", ">", "c"]);
    let sep = stream(&["-", ">"]);
    let groups = input.split(&sep).unwrap();
    assert_eq!(
        groups,
        vec![stream(&["a"]), stream(&["b"]), stream(&["c"])]
    );
}

#[test]
fn separator_at_the_edges() {
    let input = stream(&[",", "a", ","]);
    let sep = stream(&[","]);
    let groups = input.split(&sep).unwrap();
    assert_eq!(
        groups,
        vec![stream(&[]), stream(&["a"]), stream(&[])]
    );
}

#[test]
fn separator_only() {
    let input = stream(&["a"]);
    let sep = stream(&["a"]);
    let groups = input.split(&sep).unwrap();
    assert_eq!(groups, vec![stream(&[]), stream(&[])]);
}

#[test]
fn empty_input_has_no_groups() {
    let input = stream(&[]);
    let sep = stream(&[","]);
    assert_eq!(input.split(&sep), Some(vec![]));
}

#[test]
fn partial_separator_at_the_end_has_no_answer() {
    let input = stream(&["a", "-"]);
    let sep = stream(&["-", ">"]);
    assert_eq!(input.split(&sep), None);
}

#[test]
fn greedy_from_the_left() {
    // the first two tokens already form a separator, so the third starts a group
    let input = stream(&["-", "-", "-"]);
    let sep = stream(&["-", "-"]);
    assert_eq!(input.split(&sep), None);
}

#[test]
fn mismatch_inside_a_separator_is_a_token() {
    let input = stream(&["-", "a", "-", "-"]);
    let sep = stream(&["-", "-"]);
    let groups = input.split(&sep).unwrap();
    assert_eq!(groups, vec![stream(&["-", "a"]), stream(&[])]);
}
