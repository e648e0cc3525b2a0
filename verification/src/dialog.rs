use vstd::prelude::*;

use crate::constants::{CREDENTIAL_DIALOG_CLASS, OK_BUTTON_AUTOMATION_ID, PASSWORD_FIELD_AUTOMATION_ID};
use crate::text::str_eq;

verus! {

/// What an element of the credential dialog is, by its automation id.
#[derive(Debug, Clone, Copy, PartialEq, Eq, Structural)]
pub enum ElementKind {
    /// The PIN entry field: the dialog is in PIN mode.
    PasswordField,
    /// An element with the automation id of the OK button.
    OkButton,
    Other,
}

/// An element as the scan sees it: its kind, and whether its control type is
/// a button (asked only for elements of kind `OkButton`).
#[derive(Debug, Clone, Copy, PartialEq, Eq, Structural)]
pub struct ElementInfo {
    pub kind: ElementKind,
    pub is_button: bool,
}

/// The result of scanning a credential dialog's descendants: whether a PIN field
/// was found, and the position of the OK button among the descendants.
#[derive(Debug, Clone, Copy, PartialEq, Eq, Structural)]
pub struct DialogScanResult {
    pub has_password_field: bool,
    pub ok_button: Option<usize>,
}

/// What to do with a scanned credential dialog.
#[derive(Debug, Clone, Copy, PartialEq, Eq, Structural)]
pub enum DialogAction {
    /// PIN mode: never confirm.
    SkipPinMode,
    /// Face recognition succeeded: invoke the OK button at this position.
    Click(usize),
    /// The OK button is not visible yet.
    NoButtonYet,
}

/// The kind of an element with this automation id.
pub open spec fn kind_spec(id: Seq<char>) -> ElementKind {
    if id == PASSWORD_FIELD_AUTOMATION_ID@ {
        ElementKind::PasswordField
    } else if id == OK_BUTTON_AUTOMATION_ID@ {
        ElementKind::OkButton
    } else {
        ElementKind::Other
    }
}

/// The kind of an element, by its automation id (language independent).
pub fn classify_automation_id(id: &str) -> (r: ElementKind)
    ensures
        r == kind_spec(id@),
{
    if str_eq(id, PASSWORD_FIELD_AUTOMATION_ID) {
        ElementKind::PasswordField
    } else if str_eq(id, OK_BUTTON_AUTOMATION_ID) {
        ElementKind::OkButton
    } else {
        ElementKind::Other
    }
}

/// Whether a window class is that of the credential dialog.
pub fn is_credential_dialog_class(class_name: &str) -> (r: bool)
    ensures
        r == (class_name@ == CREDENTIAL_DIALOG_CLASS@),
{
    str_eq(class_name, CREDENTIAL_DIALOG_CLASS)
}

/// Whether an element is the OK button of the dialog.
pub open spec fn is_ok_button(e: ElementInfo) -> bool {
    e.kind == ElementKind::OkButton && e.is_button
}

/// Whether some element is the PIN field.
pub open spec fn has_password_field_spec(elems: Seq<ElementInfo>) -> bool {
    exists|i: int| 0 <= i < elems.len() && (#[trigger] elems[i]).kind == ElementKind::PasswordField
}

/// The position of the last OK button among the elements.
pub open spec fn last_ok_button(elems: Seq<ElementInfo>) -> Option<nat>
    decreases elems.len(),
{
    if elems.len() == 0 {
        None
    } else if is_ok_button(elems.last()) {
        Some((elems.len() - 1) as nat)
    } else {
        last_ok_button(elems.drop_last())
    }
}

/// The scan of a dialog's descendants: a PIN field anywhere means PIN mode and
/// no button; otherwise the last OK button found, if any.
pub open spec fn scan_spec(elems: Seq<ElementInfo>) -> (bool, Option<nat>) {
    if has_password_field_spec(elems) {
        (true, None)
    } else {
        (false, last_ok_button(elems))
    }
}

/// The scan result as the spec-level pair.
pub open spec fn scan_view(r: DialogScanResult) -> (bool, Option<nat>) {
    (
        r.has_password_field,
        match r.ok_button {
            Some(i) => Some(i as nat),
            None => None,
        },
    )
}

/// A scan that has seen nothing yet.
pub fn scan_start() -> (r: DialogScanResult)
    ensures
        scan_view(r) == scan_spec(Seq::empty()),
{
    DialogScanResult { has_password_field: false, ok_button: None }
}

/// Takes in the element at position `index`. A scan that found the PIN field is
/// finished: it stays as it is, and the caller looks at no further element.
pub fn scan_step(prev: DialogScanResult, index: usize, e: ElementInfo) -> (r: DialogScanResult)
    ensures
        prev.has_password_field ==> r == prev,
        !prev.has_password_field ==> r.has_password_field == (e.kind == ElementKind::PasswordField),
        !prev.has_password_field && r.has_password_field ==> r.ok_button is None,
        !prev.has_password_field && !r.has_password_field ==> r.ok_button == (if is_ok_button(e) {
            Some(index)
        } else {
            prev.ok_button
        }),
{
    if prev.has_password_field {
        return prev;
    }
    match e.kind {
        ElementKind::PasswordField => DialogScanResult { has_password_field: true, ok_button: None },
        ElementKind::OkButton => {
            if e.is_button {
                DialogScanResult { has_password_field: false, ok_button: Some(index) }
            } else {
                prev
            }
        },
        ElementKind::Other => prev,
    }
}

/// Scans all descendants of a dialog in one pass, stopping at the PIN field.
pub fn scan_elements(elems: &Vec<ElementInfo>) -> (r: DialogScanResult)
    ensures
        scan_view(r) == scan_spec(elems@),
{
    let n = elems.len();
    let mut res = scan_start();
    let mut i: usize = 0;
    while i < n
        invariant
            n == elems@.len(),
            i <= n,
            !res.has_password_field,
            !has_password_field_spec(elems@.subrange(0, i as int)),
            scan_view(res).1 == last_ok_button(elems@.subrange(0, i as int)),
        decreases n - i,
    {
        let e = elems[i];
        let ghost prefix = elems@.subrange(0, i as int);
        let ghost next = elems@.subrange(0, i + 1);
        assert(next.drop_last() =~= prefix);
        assert(next.last() == e);
        res = scan_step(res, i, e);
        if res.has_password_field {
            assert(elems@[i as int].kind == ElementKind::PasswordField);
            assert(has_password_field_spec(elems@));
            return res;
        }
        assert(!has_password_field_spec(next)) by {
            if has_password_field_spec(next) {
                let k = choose|k: int| 0 <= k < next.len() && (#[trigger] next[k]).kind == ElementKind::PasswordField;
                if k < i {
                    assert(prefix[k] == next[k]);
                }
            }
        }
        i = i + 1;
    }
    assert(elems@.subrange(0, n as int) =~= elems@);
    res
}

/// The decision for a scanned dialog.
pub open spec fn action_spec(scan: (bool, Option<nat>)) -> DialogAction {
    if scan.0 {
        DialogAction::SkipPinMode
    } else {
        match scan.1 {
            Some(i) => DialogAction::Click(i as usize),
            None => DialogAction::NoButtonYet,
        }
    }
}

/// Decides what to do with a scanned dialog: skip PIN mode, click a visible OK
/// button, or wait for the button to appear.
pub fn decide_dialog(scan: DialogScanResult) -> (r: DialogAction)
    ensures
        r == action_spec(scan_view(scan)),
{
    if scan.has_password_field {
        DialogAction::SkipPinMode
    } else {
        match scan.ok_button {
            Some(i) => DialogAction::Click(i),
            None => DialogAction::NoButtonYet,
        }
    }
}

/// Whether a decision confirms the dialog.
pub open spec fn is_click(a: DialogAction) -> bool {
    a matches DialogAction::Click(_)
}

/// PIN mode is never confirmed: a dialog with the PIN field among its
/// descendants is skipped, whatever else it holds.
pub proof fn lemma_pin_mode_never_clicked(elems: Seq<ElementInfo>)
    requires
        exists|i: int| 0 <= i < elems.len() && (#[trigger] elems[i]).kind == ElementKind::PasswordField,
    ensures
        action_spec(scan_spec(elems)) == DialogAction::SkipPinMode,
{
}

/// The lemma behind the next two: the last OK button found is an OK button.
pub proof fn lemma_last_ok_button_is_ok(elems: Seq<ElementInfo>)
    ensures
        last_ok_button(elems) matches Some(i) ==> i < elems.len() && is_ok_button(elems[i as int]),
        last_ok_button(elems) is None <==> (forall|i: int| 0 <= i < elems.len() ==> !is_ok_button(#[trigger] elems[i])),
    decreases elems.len(),
{
    if elems.len() > 0 {
        lemma_last_ok_button_is_ok(elems.drop_last());
        if !is_ok_button(elems.last()) {
            if last_ok_button(elems) is None {
                assert forall|i: int| 0 <= i < elems.len() implies !is_ok_button(#[trigger] elems[i]) by {
                    if i < elems.len() - 1 {
                        assert(elems.drop_last()[i] == elems[i]);
                    }
                }
            } else {
                let i = last_ok_button(elems).unwrap();
                assert(elems.drop_last()[i as int] == elems[i as int]);
            }
            if forall|i: int| 0 <= i < elems.len() ==> !is_ok_button(#[trigger] elems[i]) {
                assert forall|i: int| 0 <= i < elems.drop_last().len() implies !is_ok_button(#[trigger] elems.drop_last()[i]) by {
                    assert(elems.drop_last()[i] == elems[i]);
                }
            }
        }
    }
}

/// No OK button comes after the one that the scan keeps: it is the last one.
proof fn lemma_last_ok_button_is_last(elems: Seq<ElementInfo>)
    ensures
        last_ok_button(elems) matches Some(i) ==> forall|j: int|
            i < j < elems.len() ==> !is_ok_button(#[trigger] elems[j]),
    decreases elems.len(),
{
    if elems.len() > 0 && !is_ok_button(elems.last()) {
        lemma_last_ok_button_is_last(elems.drop_last());
        if let Some(i) = last_ok_button(elems) {
            assert forall|j: int| i < j < elems.len() implies !is_ok_button(#[trigger] elems[j]) by {
                if j < elems.len() - 1 {
                    assert(elems.drop_last()[j] == elems[j]);
                }
            }
        }
    }
}

/// Face recognition is confirmed: with no PIN field, a visible OK button is
/// clicked, and what is clicked is always an OK button of the dialog, the last
/// one among the descendants.
pub proof fn lemma_click_only_ok_button(elems: Seq<ElementInfo>)
    requires
        elems.len() <= usize::MAX,
    ensures
        action_spec(scan_spec(elems)) matches DialogAction::Click(i) ==> i < elems.len()
            && is_ok_button(elems[i as int]) && !has_password_field_spec(elems),
        !has_password_field_spec(elems) && (exists|i: int| 0 <= i < elems.len() && is_ok_button(#[trigger] elems[i]))
            ==> is_click(action_spec(scan_spec(elems))),
        action_spec(scan_spec(elems)) matches DialogAction::Click(i) ==> forall|j: int|
            i < j < elems.len() ==> !is_ok_button(#[trigger] elems[j]),
{
    lemma_last_ok_button_is_last(elems);
    lemma_last_ok_button_is_ok(elems);
}

/// Without a PIN field and without a visible OK button, the dialog is watched
/// until the button appears.
pub proof fn lemma_no_button_waits(elems: Seq<ElementInfo>)
    requires
        !has_password_field_spec(elems),
        forall|i: int| 0 <= i < elems.len() ==> !is_ok_button(#[trigger] elems[i]),
    ensures
        action_spec(scan_spec(elems)) == DialogAction::NoButtonYet,
{
    lemma_last_ok_button_is_ok(elems);
}

/// Only the OK button's own automation id makes an element the OK button, and
/// only the PIN field's own id makes it the PIN field; every other id (such as
/// `CancelButton`) is neither.
pub proof fn lemma_kind_by_exact_id(id: Seq<char>)
    ensures
        kind_spec(id) == ElementKind::OkButton <==> id == "OkButton"@,
        kind_spec(id) == ElementKind::PasswordField <==> id == "PasswordField_4"@,
        kind_spec(id) == ElementKind::Other <==> (id != "OkButton"@ && id != "PasswordField_4"@),
{
    reveal_strlit("OkButton");
    reveal_strlit("PasswordField_4");
    assert("OkButton"@.len() != "PasswordField_4"@.len());
}

/// An element with any other id (a Cancel button, say) is never the one clicked,
/// wherever it stands among the descendants.
pub proof fn lemma_other_ids_never_clicked(elems: Seq<ElementInfo>, i: int)
    requires
        elems.len() <= usize::MAX,
        0 <= i < elems.len(),
        elems[i].kind == ElementKind::Other,
    ensures
        action_spec(scan_spec(elems)) != DialogAction::Click(i as usize),
{
    lemma_last_ok_button_is_ok(elems);
}

} // verus!
