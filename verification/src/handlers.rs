use vstd::prelude::*;

use crate::clock::{elapsed, elapsed_ms};

verus! {

/// How far up the UI tree the focus handler looks for the credential dialog:
/// the focused element and its ancestors, this many elements in all.
pub const ANCESTOR_SEARCH_DEPTH: usize = 10;

/// The debounce state of the helper: the runtime id of the last dialog clicked
/// and when (in milliseconds of a monotonic clock).
pub struct SharedStateView {
    pub debounce_ms: u64,
    pub last_click: Option<(Seq<i32>, u64)>,
}

/// Whether a dialog with this runtime id counts as just handled at `now`.
pub open spec fn debounced_spec(s: SharedStateView, runtime_id: Seq<i32>, now: u64) -> bool {
    s.last_click matches Some((id, at)) && id == runtime_id && elapsed(at, now) < s.debounce_ms
}

/// State shared by the helper's event handlers: the debounce window and the
/// last dialog clicked.
pub struct SharedState {
    debounce_ms: u64,
    last_click: Option<(Vec<i32>, u64)>,
}

impl View for SharedState {
    type V = SharedStateView;

    closed spec fn view(&self) -> SharedStateView {
        SharedStateView {
            debounce_ms: self.debounce_ms,
            last_click: match self.last_click {
                Some((id, at)) => Some((id@, at)),
                None => None,
            },
        }
    }
}

/// Whether two runtime ids are the same.
pub fn runtime_ids_equal(a: &[i32], b: &[i32]) -> (r: bool)
    ensures
        r == (a@ == b@),
{
    if a.len() != b.len() {
        return false;
    }
    let n = a.len();
    let mut i: usize = 0;
    while i < n
        invariant
            n == a@.len(),
            n == b@.len(),
            i <= n,
            forall|k: int| 0 <= k < i ==> a@[k] == b@[k],
        decreases n - i,
    {
        if a[i] != b[i] {
            return false;
        }
        i = i + 1;
    }
    assert(a@ =~= b@);
    true
}

impl SharedState {
    /// No dialog clicked yet.
    pub fn new(debounce_ms: u64) -> (r: Self)
        ensures
            r@ == (SharedStateView { debounce_ms, last_click: None }),
    {
        SharedState { debounce_ms, last_click: None }
    }

    /// The debounce window.
    pub fn debounce_ms(&self) -> (r: u64)
        ensures
            r == self@.debounce_ms,
    {
        self.debounce_ms
    }

    /// Whether this dialog was clicked less than the debounce window ago.
    pub fn is_debounced(&self, runtime_id: &[i32], now: u64) -> (r: bool)
        ensures
            r == debounced_spec(self@, runtime_id@, now),
    {
        match &self.last_click {
            Some((id, at)) => {
                let at = *at;
                if runtime_ids_equal(id.as_slice(), runtime_id) {
                    elapsed_ms(at, now) < self.debounce_ms
                } else {
                    false
                }
            },
            None => false,
        }
    }

    /// Records that the dialog with this runtime id was clicked at `now`.
    pub fn record_click(&mut self, runtime_id: Vec<i32>, now: u64)
        ensures
            final(self)@ == (SharedStateView { last_click: Some((runtime_id@, now)), ..old(self)@ }),
    {
        self.last_click = Some((runtime_id, now));
    }
}

/// Right after a click, the same dialog is debounced for exactly the debounce
/// window, and no other dialog is.
pub proof fn lemma_click_debounces_same_dialog(
    s: SharedStateView,
    clicked: Seq<i32>,
    at: u64,
    other: Seq<i32>,
    now: u64,
)
    ensures
        debounced_spec(SharedStateView { last_click: Some((clicked, at)), ..s }, clicked, now)
            <==> elapsed(at, now) < s.debounce_ms,
        other != clicked ==> !debounced_spec(
            SharedStateView { last_click: Some((clicked, at)), ..s },
            other,
            now,
        ),
{
}

/// Before any click nothing is debounced.
pub proof fn lemma_fresh_state_debounces_nothing(debounce_ms: u64, id: Seq<i32>, now: u64)
    ensures
        !debounced_spec(SharedStateView { debounce_ms, last_click: None }, id, now),
{
}

/// How an attempt to handle a dialog ended.
#[derive(Debug, Clone, Copy, PartialEq, Eq, Structural)]
pub enum HandleOutcome {
    /// The OK button was invoked.
    Clicked,
    /// Nothing was clicked (PIN mode, or no button yet).
    NotClicked,
    /// A UI Automation call failed (the dialog may have closed).
    Failed,
}

/// What to do with the structure-change watcher after an attempt.
#[derive(Debug, Clone, Copy, PartialEq, Eq, Structural)]
pub enum WatcherAction {
    /// Leave the watcher as it is.
    Keep,
    /// Replace any watcher by a new one on this dialog.
    Register,
    /// Remove the watcher.
    Remove,
}

/// After an attempt started by a focus event: if nothing was clicked, watch the
/// dialog's structure until the button appears.
pub fn focus_followup(o: HandleOutcome) -> (r: WatcherAction)
    ensures
        r == (if o == HandleOutcome::NotClicked {
            WatcherAction::Register
        } else {
            WatcherAction::Keep
        }),
{
    match o {
        HandleOutcome::NotClicked => WatcherAction::Register,
        _ => WatcherAction::Keep,
    }
}

/// After an attempt started by a structure change: a failure means the dialog
/// is probably gone, so the watcher is removed.
pub fn structure_followup(o: HandleOutcome) -> (r: WatcherAction)
    ensures
        r == (if o == HandleOutcome::Failed {
            WatcherAction::Remove
        } else {
            WatcherAction::Keep
        }),
{
    match o {
        HandleOutcome::Failed => WatcherAction::Remove,
        _ => WatcherAction::Keep,
    }
}

/// The next step of the search for the credential dialog among the focused
/// element (depth 0) and its ancestors.
#[derive(Debug, Clone, Copy, PartialEq, Eq, Structural)]
pub enum AncestorStep {
    /// This element is the credential dialog.
    Found,
    /// Look at the parent.
    GoUp,
    /// Stop: no credential dialog close enough.
    GiveUp,
}

/// The step at `depth`, given whether the element there is the credential dialog.
pub fn ancestor_step(depth: usize, is_dialog: bool) -> (r: AncestorStep)
    ensures
        r == (if is_dialog {
            AncestorStep::Found
        } else if depth + 1 < ANCESTOR_SEARCH_DEPTH {
            AncestorStep::GoUp
        } else {
            AncestorStep::GiveUp
        }),
{
    if is_dialog {
        AncestorStep::Found
    } else if depth < ANCESTOR_SEARCH_DEPTH - 1 {
        AncestorStep::GoUp
    } else {
        AncestorStep::GiveUp
    }
}

/// Whether a focus event comes from this very process (it is then ignored).
/// The element's process id is read as a signed number, 0 when unknown.
pub fn from_own_process(element_pid: i32, own_pid: u32) -> (r: bool)
    ensures
        r == (element_pid as u32 == own_pid),
{
    element_pid as u32 == own_pid
}

} // verus!
