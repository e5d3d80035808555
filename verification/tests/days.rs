use primer::days::Day;
use primer::days::is_it_already_friday;

#[test]
fn friday_is_friday() {
    assert!(is_it_already_friday(Day::Friday));
}

#[test]
fn other_days_are_not_friday() {
    assert!(!is_it_already_friday(Day::Monday));
    assert!(!is_it_already_friday(Day::Tuesday));
    assert!(!is_it_already_friday(Day::Wednesday));
    assert!(!is_it_already_friday(Day::Thursday));
    assert!(!is_it_already_friday(Day::Saturday));
    assert!(!is_it_already_friday(Day::Sunday));
}
