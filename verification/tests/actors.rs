//! Tests for the actor states and their handlers, exercised directly:
//! the async plumbing around them carries values unchanged, so every
//! handler's behaviour is observable here. Grades are in hundredths of a
//! grade point: 5990 stands for 59.90 points.

use vip_roster::admin::Admin;
use vip_roster::booster::{boost_all, Booster};
use vip_roster::brightspace::Brightspace;
use vip_roster::career::derive_career_id;
use vip_roster::john::John;

fn names(list: &[&str]) -> Vec<String> {
    list.iter().map(|s| s.to_string()).collect()
}

#[test]
fn dump_then_read_returns_exact_values() {
    let mut admin = Admin::new();
    admin.process_student_dump(names(&["Ada Lovelace", "Grace Hopper"]));
    admin.process_grade_dump(vec![5990, 7000]);
    assert_eq!(
        admin.get_all_student_names(),
        names(&["Ada Lovelace", "Grace Hopper"])
    );
    assert_eq!(admin.get_all_student_grades(), vec![5990, 7000]);
}

#[test]
fn reads_hand_out_independent_copies() {
    let mut admin = Admin::new();
    admin.process_student_dump(names(&["Ada Lovelace"]));
    admin.process_grade_dump(vec![5990]);
    let mut read_names = admin.get_all_student_names();
    let mut read_grades = admin.get_all_student_grades();
    read_names.push("Intruder Unwanted".to_string());
    read_grades.clear();
    assert_eq!(admin.get_all_student_names(), names(&["Ada Lovelace"]));
    assert_eq!(admin.get_all_student_grades(), vec![5990]);
}

#[test]
fn new_dump_discards_previous_list() {
    let mut admin = Admin::new();
    admin.process_student_dump(names(&["Ada Lovelace", "Grace Hopper"]));
    admin.process_student_dump(names(&["Alan Turing"]));
    assert_eq!(admin.get_all_student_names(), names(&["Alan Turing"]));
    admin.process_grade_dump(vec![1000, 2000]);
    admin.process_grade_dump(vec![]);
    assert_eq!(admin.get_all_student_grades(), Vec::<u64>::new());
}

#[test]
fn register_then_read_includes_new_name_with_default_grade() {
    let mut john: John<()> = John::new();
    john.add_underling("Ada Lovelace".to_string());
    john.set_brightspace(());
    let (roster_names, roster_grades) = john.report_for_brightspace().unwrap();
    assert_eq!(roster_names, names(&["Ada Lovelace"]));
    assert_eq!(roster_grades, vec![0]);
    assert_eq!(roster_names.len(), roster_grades.len());
}

#[test]
fn assign_grade_overwrites_first_match_only() {
    let mut john: John<()> = John::new();
    john.add_underling("Ada Lovelace".to_string());
    john.add_underling("Ada Lovelace".to_string());
    john.add_underling("Grace Hopper".to_string());
    john.set_underling_grade("Ada Lovelace".to_string(), 9500);
    john.set_brightspace(());
    let (_, roster_grades) = john.report_for_brightspace().unwrap();
    assert_eq!(roster_grades, vec![9500, 0, 0]);
}

#[test]
fn assign_grade_to_absent_name_is_a_no_op() {
    let mut john: John<()> = John::new();
    john.add_underling("Ada Lovelace".to_string());
    john.set_underling_grade("Bob Woods".to_string(), 9500);
    john.set_brightspace(());
    let (roster_names, roster_grades) = john.report_for_brightspace().unwrap();
    assert_eq!(roster_names, names(&["Ada Lovelace"]));
    assert_eq!(roster_grades, vec![0]);
}

#[test]
fn career_id_for_two_token_name() {
    let suffix = derive_career_id("Ada Lovelace").unwrap();
    assert_eq!(suffix, " (alovelace)".to_string());
}

#[test]
fn career_id_lowercases_only_ascii_letters() {
    let suffix = derive_career_id("Grace Brewster Murray Hopper").unwrap();
    assert_eq!(suffix, " (gbrewster murray hopper)".to_string());
}

#[test]
fn career_id_for_single_token_name_is_an_error() {
    assert!(derive_career_id("Ada").is_none());
    assert!(derive_career_id("").is_none());
    assert!(derive_career_id(" Ada").is_none());
}

#[test]
fn append_career_ids_rewrites_every_name() {
    let mut gradebook: Brightspace<()> = Brightspace::new();
    gradebook.process_student_dump(names(&["Ada Lovelace", "Grace Hopper"]));
    gradebook.process_grade_dump(vec![5990, 7000]);
    gradebook.set_admin(());
    assert!(gradebook.append_student_career_ids().is_ok());
    let (book_names, book_grades) = gradebook.report_for_admin().unwrap();
    assert_eq!(
        book_names,
        names(&["Ada Lovelace (alovelace)", "Grace Hopper (ghopper)"])
    );
    assert_eq!(book_grades, vec![5990, 7000]);
}

#[test]
fn append_career_ids_fails_loudly_and_changes_nothing() {
    let mut gradebook: Brightspace<()> = Brightspace::new();
    gradebook.process_student_dump(names(&["Ada Lovelace", "Solo", "Grace Hopper"]));
    gradebook.set_admin(());
    let err = gradebook.append_student_career_ids().unwrap_err();
    assert_eq!(err.index, 1);
    let (book_names, _) = gradebook.report_for_admin().unwrap();
    assert_eq!(book_names, names(&["Ada Lovelace", "Solo", "Grace Hopper"]));
}

#[test]
fn count_failing_uses_strictly_less_than() {
    let mut admin = Admin::new();
    admin.process_grade_dump(vec![5990, 6000, 6010]);
    assert_eq!(admin.count_number_of_failing_students(), 1);
}

#[test]
fn count_failing_on_empty_registry_is_zero() {
    let admin = Admin::new();
    assert_eq!(admin.count_number_of_failing_students(), 0);
}

#[test]
fn boost_overwrites_every_grade_to_the_maximum() {
    let boosted = boost_all(&vec![1000, 2000]);
    assert_eq!(boosted, vec![10000, 10000]);
    assert_eq!(boost_all(&Vec::new()), Vec::<u64>::new());
}

#[test]
fn boost_twice_is_idempotent() {
    let mut admin = Admin::new();
    admin.process_grade_dump(vec![1000, 2000]);
    let once = boost_all(&admin.get_all_student_grades());
    admin.process_grade_dump(once);
    assert_eq!(admin.get_all_student_grades(), vec![10000, 10000]);
    let twice = boost_all(&admin.get_all_student_grades());
    admin.process_grade_dump(twice);
    assert_eq!(admin.get_all_student_grades(), vec![10000, 10000]);
}

#[test]
fn forwarding_with_unset_peer_is_a_safe_no_op() {
    let john: John<()> = John::new();
    assert!(john.report_for_brightspace().is_none());
    let gradebook: Brightspace<()> = Brightspace::new();
    assert!(gradebook.report_for_admin().is_none());
    let booster: Booster<()> = Booster::new();
    assert!(booster.peer_handle().is_none());
}

#[test]
fn forward_and_confirm_payload_copies_both_lists() {
    let mut gradebook: Brightspace<()> = Brightspace::new();
    gradebook.process_student_dump(names(&["Ada Lovelace"]));
    gradebook.process_grade_dump(vec![5990]);
    gradebook.set_admin(());
    let (book_names, book_grades) = gradebook.report_for_admin().unwrap();
    let mut admin = Admin::new();
    admin.process_student_dump(book_names);
    admin.process_grade_dump(book_grades);
    assert_eq!(admin.get_all_student_names(), names(&["Ada Lovelace"]));
    assert_eq!(admin.get_all_student_grades(), vec![5990]);
}

#[test]
fn setting_a_peer_again_overwrites_silently() {
    let mut booster: Booster<u8> = Booster::new();
    booster.set_admin(1);
    booster.set_admin(2);
    assert_eq!(booster.peer_handle(), &Some(2));
}

#[test]
fn roster_stays_aligned_through_every_mutation() {
    let mut john: John<()> = John::new();
    assert!(john.is_aligned());
    john.add_underling("Ada Lovelace".to_string());
    john.add_underling("Grace Hopper".to_string());
    assert!(john.is_aligned());
    john.set_underling_grade("Grace Hopper".to_string(), 7000);
    assert!(john.is_aligned());
}
