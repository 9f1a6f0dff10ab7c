use boomai::race::RaceTally;
use boomai::red_flag::RedFlagFilter;
use boomai::voting::{normalize, VotingMechanism};

fn strings(items: &[&str]) -> Vec<String> {
    items.iter().map(|s| s.to_string()).collect()
}

#[test]
fn vote_on_empty_list_has_no_winner() {
    assert_eq!(VotingMechanism::new(2).vote(Vec::new()), None);
}

#[test]
fn vote_winner_is_a_member_of_the_input() {
    let lists: Vec<Vec<String>> = vec![
        strings(&["x"]),
        strings(&["a", "b", "a", "c", "b", "b"]),
        strings(&["one", "two", "three", "four"]),
        strings(&["Paris", "paris.", " PARIS "]),
    ];
    for list in lists {
        for k in 0..4 {
            let w = VotingMechanism::new(k).vote(list.clone()).expect("non-empty list has a winner");
            assert!(list.contains(&w));
        }
    }
}

#[test]
fn margin_two_decides_on_second_matching_candidate() {
    let v = VotingMechanism::new(2);
    assert_eq!(v.vote(strings(&["4", "4", "5"])), Some("4".to_string()));
}

#[test]
fn race_decides_after_two_and_ignores_the_third() {
    let mut race = RaceTally::new(2);
    assert_eq!(race.offer("4"), None);
    assert_eq!(race.offer("4"), Some("4".to_string()));
    assert!(race.is_closed());
    assert_eq!(race.offer("5"), None);
    assert_eq!(race.fallback(), "4");
}

#[test]
fn no_margin_falls_back_to_first_of_tied_groups() {
    let v = VotingMechanism::new(2);
    let w = v.vote(strings(&["A", "B", "C"])).unwrap();
    assert!(["A", "B", "C"].contains(&w.as_str()));
    assert_eq!(w, "A");
}

#[test]
fn fallback_prefers_the_highest_count() {
    let v = VotingMechanism::new(5);
    assert_eq!(v.vote(strings(&["x", "y", "y", "z"])), Some("y".to_string()));
}

#[test]
fn margin_zero_takes_the_first_candidate() {
    let v = VotingMechanism::new(0);
    assert_eq!(v.vote(strings(&["first", "second"])), Some("first".to_string()));
}

#[test]
fn grouping_ignores_case_whitespace_and_final_period() {
    assert_eq!(normalize("  Paris. "), "paris");
    assert_eq!(normalize("ÄBC"), "äbc");
    assert_eq!(normalize("end.."), "end.");
    let v = VotingMechanism::new(2);
    assert_eq!(v.vote(strings(&["Paris.", " paris", "Rome"])), Some(" paris".to_string()));
}

#[test]
fn closed_race_admits_nothing() {
    let mut race = RaceTally::new(3);
    assert_eq!(race.offer("a"), None);
    race.close();
    assert_eq!(race.offer("a"), None);
    assert_eq!(race.offer("a"), None);
    assert_eq!(race.offer("a"), None);
    assert!(race.is_closed());
    assert_eq!(race.fallback(), "a");
}

#[test]
fn race_skips_empty_and_oversized_answers() {
    let mut race = RaceTally::new(1);
    assert_eq!(race.offer("   "), None);
    let long = "x".repeat(1001);
    assert_eq!(race.offer(&long), None);
    assert_eq!(race.offer(&"é".repeat(501)), None);
    assert_eq!(race.fallback(), "");
    assert_eq!(race.offer(&"x".repeat(1000)), Some("x".repeat(1000)));
}

#[test]
fn race_without_answers_returns_empty_text() {
    let race = RaceTally::new(2);
    assert_eq!(race.fallback(), "");
}

#[test]
fn red_flag_rejects_long_and_looping_text() {
    let f = RedFlagFilter::new();
    assert!(!f.is_flagged("a short answer"));
    assert!(!f.is_flagged(&"x".repeat(2800)));
    assert!(f.is_flagged(&"x".repeat(2801)));
    assert!(f.is_flagged("I apologize, let me try again."));
    assert!(!f.is_flagged("I apologize for the delay."));
}

#[test]
fn race_skips_flagged_answers() {
    let mut race = RaceTally::new(1);
    assert_eq!(race.offer("I apologize, let me try again: 4"), None);
    assert_eq!(race.admitted(), 0);
    assert_eq!(race.offer("4"), Some("4".to_string()));
}
