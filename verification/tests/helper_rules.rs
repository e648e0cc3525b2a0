use breeze_wh::dialog::{
    classify_automation_id, decide_dialog, is_credential_dialog_class, scan_elements, scan_start,
    scan_step, DialogAction, ElementInfo, ElementKind,
};
use breeze_wh::handlers::{
    ancestor_step, focus_followup, from_own_process, runtime_ids_equal, structure_followup,
    AncestorStep, HandleOutcome, SharedState, WatcherAction,
};

fn el(kind: ElementKind, is_button: bool) -> ElementInfo {
    ElementInfo { kind, is_button }
}

#[test]
fn automation_ids() {
    assert_eq!(classify_automation_id("PasswordField_4"), ElementKind::PasswordField);
    assert_eq!(classify_automation_id("OkButton"), ElementKind::OkButton);
    assert_eq!(classify_automation_id("PasswordField"), ElementKind::Other);
    assert_eq!(classify_automation_id(""), ElementKind::Other);
}

#[test]
fn credential_dialog_class() {
    assert!(is_credential_dialog_class("Credential Dialog Xaml Host"));
    assert!(!is_credential_dialog_class("credential dialog xaml host"));
    assert!(!is_credential_dialog_class("Windows.UI.Core.CoreWindow"));
}

#[test]
fn face_recognition_clicks_ok() {
    let elems = vec![el(ElementKind::Other, false), el(ElementKind::OkButton, true), el(ElementKind::Other, false)];
    let scan = scan_elements(&elems);
    assert!(!scan.has_password_field);
    assert_eq!(scan.ok_button, Some(1));
    assert_eq!(decide_dialog(scan), DialogAction::Click(1));
}

#[test]
fn pin_mode_skips() {
    let elems = vec![el(ElementKind::OkButton, true), el(ElementKind::PasswordField, false), el(ElementKind::OkButton, true)];
    let scan = scan_elements(&elems);
    assert!(scan.has_password_field);
    assert_eq!(scan.ok_button, None);
    assert_eq!(decide_dialog(scan), DialogAction::SkipPinMode);
}

#[test]
fn ok_id_that_is_not_a_button_is_ignored() {
    let elems = vec![el(ElementKind::OkButton, false)];
    assert_eq!(decide_dialog(scan_elements(&elems)), DialogAction::NoButtonYet);
    assert_eq!(decide_dialog(scan_elements(&vec![])), DialogAction::NoButtonYet);
}

#[test]
fn last_ok_button_wins() {
    let elems = vec![el(ElementKind::OkButton, true), el(ElementKind::OkButton, true)];
    assert_eq!(decide_dialog(scan_elements(&elems)), DialogAction::Click(1));
}

#[test]
fn stepwise_scan() {
    let s0 = scan_start();
    let s1 = scan_step(s0, 0, el(ElementKind::OkButton, true));
    assert_eq!(s1.ok_button, Some(0));
    let s2 = scan_step(s1, 1, el(ElementKind::Other, false));
    assert_eq!(s2.ok_button, Some(0));
    let s3 = scan_step(s2, 2, el(ElementKind::PasswordField, false));
    assert!(s3.has_password_field);
    assert_eq!(s3.ok_button, None);
}

#[test]
fn debounce_same_dialog() {
    let mut st = SharedState::new(2000);
    assert_eq!(st.debounce_ms(), 2000);
    assert!(!st.is_debounced(&[42, 7], 0));
    st.record_click(vec![42, 7], 10_000);
    assert!(st.is_debounced(&[42, 7], 10_000));
    assert!(st.is_debounced(&[42, 7], 11_999));
    assert!(!st.is_debounced(&[42, 7], 12_000));
    assert!(!st.is_debounced(&[42, 8], 10_500));
    assert!(!st.is_debounced(&[42], 10_500));
    // a clock reading before the click counts as no time passed
    assert!(st.is_debounced(&[42, 7], 5_000));
}

#[test]
fn zero_debounce_never_debounces() {
    let mut st = SharedState::new(0);
    st.record_click(vec![1], 5);
    assert!(!st.is_debounced(&[1], 5));
}

#[test]
fn runtime_id_comparison() {
    assert!(runtime_ids_equal(&[], &[]));
    assert!(runtime_ids_equal(&[1, 2, 3], &[1, 2, 3]));
    assert!(!runtime_ids_equal(&[1, 2, 3], &[1, 2, 4]));
    assert!(!runtime_ids_equal(&[1, 2], &[1, 2, 3]));
}

#[test]
fn watcher_followups() {
    assert_eq!(focus_followup(HandleOutcome::Clicked), WatcherAction::Keep);
    assert_eq!(focus_followup(HandleOutcome::NotClicked), WatcherAction::Register);
    assert_eq!(focus_followup(HandleOutcome::Failed), WatcherAction::Keep);
    assert_eq!(structure_followup(HandleOutcome::Clicked), WatcherAction::Keep);
    assert_eq!(structure_followup(HandleOutcome::NotClicked), WatcherAction::Keep);
    assert_eq!(structure_followup(HandleOutcome::Failed), WatcherAction::Remove);
}

#[test]
fn ancestor_search() {
    assert_eq!(ancestor_step(0, true), AncestorStep::Found);
    assert_eq!(ancestor_step(0, false), AncestorStep::GoUp);
    assert_eq!(ancestor_step(8, false), AncestorStep::GoUp);
    assert_eq!(ancestor_step(9, false), AncestorStep::GiveUp);
    assert_eq!(ancestor_step(9, true), AncestorStep::Found);
}

#[test]
fn own_process_events() {
    assert!(from_own_process(1234, 1234));
    assert!(!from_own_process(0, 1234));
    assert!(from_own_process(-1, u32::MAX));
}

#[test]
fn finished_scan_stays_finished() {
    let s = scan_step(scan_start(), 0, el(ElementKind::PasswordField, false));
    let t = scan_step(s, 1, el(ElementKind::OkButton, true));
    assert_eq!(t, s);
}

#[test]
fn ancestor_search_far_depths() {
    assert_eq!(ancestor_step(10, false), AncestorStep::GiveUp);
    assert_eq!(ancestor_step(usize::MAX, false), AncestorStep::GiveUp);
}
