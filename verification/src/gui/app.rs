//! The queue-based window: packages are ticked into an update queue, and a
//! batch installs the queue one package after the other, each install
//! answering with a fresh package list.
use vstd::prelude::*;

use crate::gui::strings_view;
use crate::winget_manager::{package_views, Package, PackageView};

verus! {

// ---------------------------------------------------------------------------
// Model
// ---------------------------------------------------------------------------

/// What the window must do after a decision.
pub enum QueueAction {
    /// Nothing.
    Idle,
    /// Start listing the available updates in the background.
    StartFetch,
    /// Start updating `package_id` in the background.
    StartUpdate { package_id: String },
}

/// The mathematical value of a [`QueueAction`].
pub enum QueueActionView {
    Idle,
    StartFetch,
    StartUpdate { package_id: Seq<char> },
}

impl View for QueueAction {
    type V = QueueActionView;

    open spec fn view(&self) -> QueueActionView {
        match self {
            QueueAction::Idle => QueueActionView::Idle,
            QueueAction::StartFetch => QueueActionView::StartFetch,
            QueueAction::StartUpdate { package_id } => QueueActionView::StartUpdate {
                package_id: package_id@,
            },
        }
    }
}

/// How a package's row offers its update.
#[derive(Debug, PartialEq, Eq, Structural)]
pub enum PackageRowState {
    /// The package is being updated; its button is inactive.
    Updating,
    /// The package waits in the queue; its button is inactive.
    Queued,
    /// The package can be updated by its button.
    Available,
}

/// The state of the queue-based window.
pub struct PackageApp {
    packages: Vec<Package>,
    error_message: String,
    /// A listing runs in the background.
    fetch_pending: bool,
    /// An update runs in the background.
    update_pending: bool,
    is_loading: bool,
    updating_package_id: Option<String>,
    update_queue: Vec<String>,
    is_batch_updating: bool,
}

/// The mathematical value of a queue-based window.
#[verifier::ext_equal]
pub struct QueueAppView {
    pub packages: Seq<PackageView>,
    pub error_message: Seq<char>,
    pub fetch_pending: bool,
    pub update_pending: bool,
    pub is_loading: bool,
    pub updating_package_id: Option<Seq<char>>,
    pub queue: Seq<Seq<char>>,
    pub is_batch_updating: bool,
}

impl View for PackageApp {
    type V = QueueAppView;

    closed spec fn view(&self) -> QueueAppView {
        QueueAppView {
            packages: package_views(self.packages@),
            error_message: self.error_message@,
            fetch_pending: self.fetch_pending,
            update_pending: self.update_pending,
            is_loading: self.is_loading,
            updating_package_id: match self.updating_package_id {
                Some(x) => Some(x@),
                None => None,
            },
            queue: strings_view(self.update_queue@),
            is_batch_updating: self.is_batch_updating,
        }
    }
}

// ---------------------------------------------------------------------------
// Specification of the transitions
// ---------------------------------------------------------------------------

/// The state the window opens in, before its first listing.
pub open spec fn queue_initial_state() -> QueueAppView {
    QueueAppView {
        packages: Seq::empty(),
        error_message: Seq::empty(),
        fetch_pending: false,
        update_pending: false,
        is_loading: false,
        updating_package_id: None,
        queue: Seq::empty(),
        is_batch_updating: false,
    }
}

/// The consistency that every reachable state keeps: a listing runs exactly
/// while the window shows it loading, an update runs exactly while a
/// package is marked as updating, and no id waits twice in the queue.
pub open spec fn queue_consistent(s: QueueAppView) -> bool {
    &&& s.fetch_pending == s.is_loading
    &&& s.update_pending == (s.updating_package_id is Some)
    &&& s.queue.no_duplicates()
}

/// Asking for a listing: ignored while one runs, else one starts.
pub open spec fn queue_spec_fetch(s: QueueAppView) -> (QueueAppView, QueueActionView) {
    if s.fetch_pending || s.is_loading {
        (s, QueueActionView::Idle)
    } else {
        (QueueAppView { is_loading: true, fetch_pending: true, ..s }, QueueActionView::StartFetch)
    }
}

/// Asking to update `id`: ignored while a package is marked as updating,
/// else its update starts.
pub open spec fn queue_spec_update_single(s: QueueAppView, id: Seq<char>) -> (
    QueueAppView,
    QueueActionView,
) {
    if s.updating_package_id is Some {
        (s, QueueActionView::Idle)
    } else {
        (
            QueueAppView { updating_package_id: Some(id), update_pending: true, ..s },
            QueueActionView::StartUpdate { package_id: id },
        )
    }
}

/// Moving the queue on: nothing while an update runs; else the first queued
/// id is taken off and asked to update; with the queue empty the batch ends.
pub open spec fn queue_spec_process(s: QueueAppView) -> (QueueAppView, QueueActionView) {
    if s.update_pending || s.updating_package_id is Some {
        (s, QueueActionView::Idle)
    } else if s.queue.len() > 0 {
        let (s1, a) = queue_spec_update_single(s, s.queue[0]);
        (QueueAppView { queue: s.queue.drop_first(), ..s1 }, a)
    } else {
        (QueueAppView { is_batch_updating: false, ..s }, QueueActionView::Idle)
    }
}

/// Adding `id` to the queue, unless it already waits there.
pub open spec fn queue_spec_add(s: QueueAppView, id: Seq<char>) -> QueueAppView {
    if s.queue.contains(id) {
        s
    } else {
        QueueAppView { queue: s.queue.push(id), ..s }
    }
}

/// The test that keeps every id but `id`.
pub open spec fn other_than(id: Seq<char>) -> spec_fn(Seq<char>) -> bool {
    |q: Seq<char>| q != id
}

/// Taking `id` out of the queue.
pub open spec fn queue_spec_remove(s: QueueAppView, id: Seq<char>) -> QueueAppView {
    QueueAppView { queue: s.queue.filter(other_than(id)), ..s }
}

/// Starting the batch: the window enters batch mode and moves the queue on.
pub open spec fn queue_spec_start_batch(s: QueueAppView) -> (QueueAppView, QueueActionView) {
    queue_spec_process(QueueAppView { is_batch_updating: true, ..s })
}

/// A click on the batch button: honoured only when no batch runs.
pub open spec fn queue_spec_request_start_batch(s: QueueAppView) -> (QueueAppView, QueueActionView) {
    if !s.is_batch_updating {
        queue_spec_start_batch(s)
    } else {
        (s, QueueActionView::Idle)
    }
}

/// Cancelling the batch: the queue is emptied and batch mode left.
pub open spec fn queue_spec_cancel_batch(s: QueueAppView) -> QueueAppView {
    QueueAppView { queue: Seq::empty(), is_batch_updating: false, ..s }
}

/// A finished listing: its packages replace the list and the error message
/// is cleared, or its message is shown and the list emptied.
pub open spec fn queue_spec_fetch_done(
    s: QueueAppView,
    result: Result<Seq<PackageView>, Seq<char>>,
) -> QueueAppView {
    match result {
        Ok(p) => QueueAppView {
            packages: p,
            error_message: Seq::empty(),
            fetch_pending: false,
            is_loading: false,
            ..s
        },
        Err(e) => QueueAppView {
            error_message: e,
            packages: Seq::empty(),
            fetch_pending: false,
            is_loading: false,
            ..s
        },
    }
}

/// A finished update: the package list it answers with replaces the list
/// (the error message cleared), or its message is shown; the update ends and
/// the queue moves on.
pub open spec fn queue_spec_update_done(
    s: QueueAppView,
    result: Result<Seq<PackageView>, Seq<char>>,
) -> (QueueAppView, QueueActionView) {
    let s1 = match result {
        Ok(p) => QueueAppView { packages: p, error_message: Seq::empty(), ..s },
        Err(e) => QueueAppView { error_message: e, ..s },
    };
    queue_spec_process(QueueAppView { update_pending: false, updating_package_id: None, ..s1 })
}

/// One edit made in the package list: an empty id starts the batch, else the
/// id is ticked into the queue (`true`) or out of it (`false`).
pub open spec fn queue_spec_edit(s: QueueAppView, edit: (Seq<char>, bool)) -> (
    QueueAppView,
    QueueActionView,
) {
    if edit.0.len() == 0 {
        queue_spec_start_batch(s)
    } else if edit.1 {
        (queue_spec_add(s, edit.0), QueueActionView::Idle)
    } else {
        (queue_spec_remove(s, edit.0), QueueActionView::Idle)
    }
}

/// The edits of one frame, applied in order; the actions that are not
/// `Idle` are collected in order.
pub open spec fn queue_spec_edits(s: QueueAppView, edits: Seq<(Seq<char>, bool)>) -> (
    QueueAppView,
    Seq<QueueActionView>,
)
    decreases edits.len(),
{
    if edits.len() == 0 {
        (s, Seq::empty())
    } else {
        let (s1, acts) = queue_spec_edits(s, edits.drop_last());
        let (s2, a) = queue_spec_edit(s1, edits.last());
        (
            s2,
            if a is Idle {
                acts
            } else {
                acts.push(a)
            },
        )
    }
}

/// How a package's row offers its update.
pub open spec fn queue_spec_row(s: QueueAppView, id: Seq<char>) -> PackageRowState {
    if s.updating_package_id == Some(id) {
        PackageRowState::Updating
    } else if s.queue.contains(id) {
        PackageRowState::Queued
    } else {
        PackageRowState::Available
    }
}

/// The views of the edits of one frame.
pub open spec fn edits_view(v: Seq<(String, bool)>) -> Seq<(Seq<char>, bool)> {
    v.map_values(|e: (String, bool)| (e.0@, e.1))
}

/// The view of a listing's outcome.
pub open spec fn listing_view(r: Result<Vec<Package>, String>) -> Result<Seq<PackageView>, Seq<char>> {
    match r {
        Ok(p) => Ok(package_views(p@)),
        Err(e) => Err(e@),
    }
}

// ---------------------------------------------------------------------------
// Laws
// ---------------------------------------------------------------------------

/// Removing items keeps a sequence free of duplicates.
proof fn lemma_filter_no_duplicates(q: Seq<Seq<char>>, id: Seq<char>)
    requires
        q.no_duplicates(),
    ensures
        q.filter(other_than(id)).no_duplicates(),
    decreases q.len(),
{
    let pred = other_than(id);
    reveal_with_fuel(Seq::filter, 1);
    if q.len() > 0 {
        let rest = q.drop_last();
        assert(rest.no_duplicates());
        lemma_filter_no_duplicates(rest, id);
        if pred(q.last()) {
            let f = rest.filter(pred);
            if f.contains(q.last()) {
                rest.lemma_filter_contains_rev(pred, q.last());
                let k = choose|k: int| 0 <= k < rest.len() && rest[k] == q.last();
                assert(q[k] == q[q.len() - 1]);
            }
            assert forall|i: int, j: int|
                0 <= i < f.push(q.last()).len() && 0 <= j < f.push(q.last()).len() && i != j
                    implies f.push(q.last())[i] != f.push(q.last())[j] by {
                if i == f.len() {
                    assert(f.contains(f[j]));
                } else if j == f.len() {
                    assert(f.contains(f[i]));
                }
            }
        }
    }
}

/// The window opens consistent.
pub proof fn law_queue_initial_consistent()
    ensures
        queue_consistent(queue_initial_state()),
{
}

/// Every transition keeps the queue-based window consistent; in particular
/// no package id ever waits twice in the queue.
pub proof fn law_queue_transitions_keep_consistency(
    s: QueueAppView,
    id: Seq<char>,
    result: Result<Seq<PackageView>, Seq<char>>,
)
    requires
        queue_consistent(s),
    ensures
        queue_consistent(queue_spec_fetch(s).0),
        queue_consistent(queue_spec_process(s).0),
        queue_consistent(queue_spec_add(s, id)),
        queue_consistent(queue_spec_remove(s, id)),
        queue_consistent(queue_spec_start_batch(s).0),
        queue_consistent(queue_spec_request_start_batch(s).0),
        queue_consistent(queue_spec_cancel_batch(s)),
        queue_consistent(queue_spec_fetch_done(s, result)),
        queue_consistent(queue_spec_update_done(s, result).0),
        s.updating_package_id is None ==> queue_consistent(queue_spec_update_single(s, id).0),
{
    lemma_filter_no_duplicates(s.queue, id);
    assert(Seq::<Seq<char>>::empty().no_duplicates());
}

/// A frame's worth of edits keeps the queue-based window consistent: its
/// flags keep matching and no id waits twice.
pub proof fn law_queue_edits_keep_consistency(s: QueueAppView, edits: Seq<(Seq<char>, bool)>)
    requires
        queue_consistent(s),
    ensures
        queue_consistent(queue_spec_edits(s, edits).0),
    decreases edits.len(),
{
    if edits.len() > 0 {
        law_queue_edits_keep_consistency(s, edits.drop_last());
        let s1 = queue_spec_edits(s, edits.drop_last()).0;
        law_queue_transitions_keep_consistency(s1, edits.last().0, Ok(Seq::empty()));
    }
}

/// One edit keeps the queue free of duplicates, whatever else holds.
proof fn lemma_queue_edit_keeps_unique(s: QueueAppView, e: (Seq<char>, bool))
    requires
        s.queue.no_duplicates(),
    ensures
        queue_spec_edit(s, e).0.queue.no_duplicates(),
{
    if e.0.len() == 0 {
        let s2 = QueueAppView { is_batch_updating: true, ..s };
        if !(s2.update_pending || s2.updating_package_id is Some) && s2.queue.len() > 0 {
            let q = s.queue.drop_first();
            assert forall|i: int, j: int| 0 <= i < q.len() && 0 <= j < q.len() && i != j implies q[i]
                != q[j] by {
                assert(q[i] == s.queue[i + 1]);
                assert(q[j] == s.queue[j + 1]);
            }
        }
    } else if e.1 {
        if !s.queue.contains(e.0) {
            let q = s.queue.push(e.0);
            assert forall|i: int, j: int| 0 <= i < q.len() && 0 <= j < q.len() && i != j implies q[i]
                != q[j] by {
                if i == s.queue.len() {
                    assert(s.queue.contains(q[j]));
                } else if j == s.queue.len() {
                    assert(s.queue.contains(q[i]));
                }
            }
        }
    } else {
        lemma_filter_no_duplicates(s.queue, e.0);
    }
}

/// A frame's worth of edits never queues an id twice: however packages are
/// ticked in and out and batches started, a queue free of duplicates stays
/// so.
pub proof fn law_queue_edits_keep_queue_unique(s: QueueAppView, edits: Seq<(Seq<char>, bool)>)
    requires
        s.queue.no_duplicates(),
    ensures
        queue_spec_edits(s, edits).0.queue.no_duplicates(),
    decreases edits.len(),
{
    if edits.len() > 0 {
        law_queue_edits_keep_queue_unique(s, edits.drop_last());
        lemma_queue_edit_keeps_unique(queue_spec_edits(s, edits.drop_last()).0, edits.last());
    }
}

/// The flag of the last edit of a frame that names `id`, if any.
pub open spec fn last_tick(edits: Seq<(Seq<char>, bool)>, id: Seq<char>) -> Option<bool>
    decreases edits.len(),
{
    if edits.len() == 0 {
        None
    } else if edits.last().0 == id {
        Some(edits.last().1)
    } else {
        last_tick(edits.drop_last(), id)
    }
}

/// What a frame's edits leave for one package id: unticked last, it is not
/// queued; ticked last, it is queued or already updating (a batch started
/// later in the frame may have taken it off the queue to update it). Only
/// the queue, batch mode and the running update change.
pub proof fn law_queue_edits_membership(
    s: QueueAppView,
    edits: Seq<(Seq<char>, bool)>,
    id: Seq<char>,
)
    requires
        id.len() > 0,
    ensures
        ({
            let f = queue_spec_edits(s, edits).0;
            &&& last_tick(edits, id) == Some(false) ==> !f.queue.contains(id)
            &&& last_tick(edits, id) == Some(true) ==> (f.queue.contains(id)
                || f.updating_package_id == Some(id))
            &&& s.update_pending == (s.updating_package_id is Some) ==> f.update_pending == (
            f.updating_package_id is Some)
            &&& f.packages == s.packages
            &&& f.error_message == s.error_message
            &&& f.fetch_pending == s.fetch_pending
            &&& f.is_loading == s.is_loading
        }),
    decreases edits.len(),
{
    if edits.len() > 0 {
        let prefix = edits.drop_last();
        law_queue_edits_membership(s, prefix, id);
        let s1 = queue_spec_edits(s, prefix).0;
        let e = edits.last();
        let f = queue_spec_edits(s, edits).0;
        assert(f == queue_spec_edit(s1, e).0);
        if e.0.len() == 0 {
            let s2 = QueueAppView { is_batch_updating: true, ..s1 };
            if !(s2.update_pending || s2.updating_package_id is Some) && s2.queue.len() > 0 {
                assert(f.queue == s1.queue.drop_first());
                assert(f.updating_package_id == Some(s1.queue[0]));
                if s1.queue.contains(id) {
                    let k = choose|k: int| 0 <= k < s1.queue.len() && s1.queue[k] == id;
                    if k > 0 {
                        assert(f.queue[k - 1] == id);
                    }
                }
                if f.queue.contains(id) {
                    let k = choose|k: int| 0 <= k < f.queue.len() && f.queue[k] == id;
                    assert(s1.queue[k + 1] == id);
                }
            }
        } else if e.1 {
            if e.0 == id {
                assert(f.queue[f.queue.len() - 1] == id || s1.queue.contains(id));
            } else if !s1.queue.contains(e.0) {
                assert(f.queue == s1.queue.push(e.0));
                if s1.queue.contains(id) {
                    let k = choose|k: int| 0 <= k < s1.queue.len() && s1.queue[k] == id;
                    assert(f.queue[k] == id);
                }
                if f.queue.contains(id) {
                    let k = choose|k: int| 0 <= k < f.queue.len() && f.queue[k] == id;
                    assert(k < s1.queue.len());
                    assert(s1.queue[k] == id);
                }
            }
        } else {
            if e.0 != id {
                law_remove_takes_out(s1, e.0, id);
            } else {
                let pred = other_than(id);
                let q = s1.queue.filter(pred);
                if q.contains(id) {
                    let k = choose|k: int| 0 <= k < q.len() && q[k] == id;
                    s1.queue.lemma_filter_pred(pred, k);
                }
            }
        }
    }
}

/// What a finished update shows: its package list and no error message,
/// or its error message with the package list left as it was (only a failed
/// listing empties the list). The queue then moves on.
pub proof fn law_update_outcome_shown(s: QueueAppView, p: Seq<PackageView>, e: Seq<char>)
    ensures
        queue_spec_update_done(s, Ok(p)).0.packages == p,
        queue_spec_update_done(s, Ok(p)).0.error_message == Seq::<char>::empty(),
        queue_spec_update_done(s, Err(e)).0.packages == s.packages,
        queue_spec_update_done(s, Err(e)).0.error_message == e,
        queue_spec_fetch_done(s, Ok(p)).packages == p,
        queue_spec_fetch_done(s, Ok(p)).error_message == Seq::<char>::empty(),
        queue_spec_fetch_done(s, Err(e)).packages == Seq::<PackageView>::empty(),
        queue_spec_fetch_done(s, Err(e)).error_message == e,
        !queue_spec_fetch_done(s, Err(e)).is_loading,
        queue_spec_fetch_done(s, Err(e)).queue == s.queue,
{
}

/// Ticking a package in twice queues it once.
pub proof fn law_add_idempotent(s: QueueAppView, id: Seq<char>)
    ensures
        queue_spec_add(queue_spec_add(s, id), id) == queue_spec_add(s, id),
        queue_spec_add(s, id).queue.contains(id),
{
    if !s.queue.contains(id) {
        assert(s.queue.push(id)[s.queue.len() as int] == id);
    }
}

/// Ticking a package out leaves no trace of it in the queue, and keeps the
/// other ids in their order.
pub proof fn law_remove_takes_out(s: QueueAppView, id: Seq<char>, other: Seq<char>)
    requires
        other != id,
    ensures
        !queue_spec_remove(s, id).queue.contains(id),
        queue_spec_remove(s, id).queue.contains(other) == s.queue.contains(other),
{
    let pred = other_than(id);
    let f = s.queue.filter(pred);
    if f.contains(id) {
        let k = choose|k: int| 0 <= k < f.len() && f[k] == id;
        s.queue.lemma_filter_pred(pred, k);
    }
    if s.queue.contains(other) {
        let k = choose|k: int| 0 <= k < s.queue.len() && s.queue[k] == other;
        s.queue.lemma_filter_contains(pred, k);
    }
    if f.contains(other) {
        s.queue.lemma_filter_contains_rev(pred, other);
    }
}

/// A batch runs the queue in order: when nothing updates, moving the queue
/// on starts the update of its first id and keeps the rest waiting.
pub proof fn law_batch_takes_queue_in_order(s: QueueAppView)
    requires
        queue_consistent(s),
        !s.update_pending,
        s.queue.len() > 0,
    ensures
        queue_spec_process(s).1 == (QueueActionView::StartUpdate { package_id: s.queue[0] }),
        queue_spec_process(s).0.queue == s.queue.drop_first(),
        queue_spec_process(s).0.updating_package_id == Some(s.queue[0]),
{
}

/// A finished update moves the batch on: the next queued id starts.
pub proof fn law_update_done_starts_next(
    s: QueueAppView,
    result: Result<Seq<PackageView>, Seq<char>>,
)
    requires
        queue_consistent(s),
        s.queue.len() > 0,
    ensures
        queue_spec_update_done(s, result).1 == (QueueActionView::StartUpdate {
            package_id: s.queue[0],
        }),
        queue_spec_update_done(s, result).0.queue == s.queue.drop_first(),
{
}

// ---------------------------------------------------------------------------
// Operations
// ---------------------------------------------------------------------------

/// Whether `id` is in `v`.
fn strings_contain(v: &Vec<String>, id: &String) -> (r: bool)
    ensures
        r == strings_view(v@).contains(id@),
{
    let mut i: usize = 0;
    while i < v.len()
        invariant
            i <= v.len(),
            forall|k: int| 0 <= k < i ==> v@[k]@ != id@,
        decreases v.len() - i,
    {
        if v[i] == *id {
            assert(strings_view(v@)[i as int] == id@);
            return true;
        }
        i = i + 1;
    }
    proof {
        if strings_view(v@).contains(id@) {
            let k = choose|k: int| 0 <= k < strings_view(v@).len() && strings_view(v@)[k] == id@;
            assert(v@[k]@ == id@);
        }
    }
    false
}

impl PackageApp {
    /// The window's state before its first listing.
    fn empty() -> (r: PackageApp)
        ensures
            r@ == queue_initial_state(),
    {
        let r = PackageApp {
            packages: Vec::new(),
            error_message: String::new(),
            fetch_pending: false,
            update_pending: false,
            is_loading: false,
            updating_package_id: None,
            update_queue: Vec::new(),
            is_batch_updating: false,
        };
        assert(r@ =~= queue_initial_state());
        r
    }

    /// A new window: the initial state with a first listing asked for.
    pub fn new() -> (r: (PackageApp, QueueAction))
        ensures
            (r.0@, r.1@) == queue_spec_fetch(queue_initial_state()),
    {
        let mut app = Self::default();
        let action = app.fetch_updates_async();
        (app, action)
    }

    /// Asks for a listing of the available updates.
    pub fn fetch_updates_async(&mut self) -> (r: QueueAction)
        ensures
            (final(self)@, r@) == queue_spec_fetch(old(self)@),
    {
        if self.fetch_pending || self.is_loading {
            return QueueAction::Idle;
        }
        self.is_loading = true;
        self.fetch_pending = true;
        assert(self@ =~= queue_spec_fetch(old(self)@).0);
        QueueAction::StartFetch
    }

    /// Asks to update `package_id`.
    pub fn update_single_async(&mut self, package_id: &str) -> (r: QueueAction)
        ensures
            (final(self)@, r@) == queue_spec_update_single(old(self)@, package_id@),
    {
        if self.updating_package_id.is_some() {
            return QueueAction::Idle;
        }
        self.updating_package_id = Some(String::from_str(package_id));
        self.update_pending = true;
        assert(self@ =~= queue_spec_update_single(old(self)@, package_id@).0);
        QueueAction::StartUpdate { package_id: String::from_str(package_id) }
    }

    /// Moves the queue on (see [`queue_spec_process`]).
    pub fn process_update_queue(&mut self) -> (r: QueueAction)
        ensures
            (final(self)@, r@) == queue_spec_process(old(self)@),
    {
        if self.update_pending || self.updating_package_id.is_some() {
            return QueueAction::Idle;
        }
        if self.update_queue.len() > 0 {
            let next = self.update_queue[0].clone();
            let action = self.update_single_async(next.as_str());
            self.update_queue.remove(0);
            proof {
                assert(strings_view(self.update_queue@) =~= old(self)@.queue.drop_first());
                assert(self@ =~= queue_spec_process(old(self)@).0);
            }
            action
        } else {
            self.is_batch_updating = false;
            assert(self@ =~= queue_spec_process(old(self)@).0);
            QueueAction::Idle
        }
    }

    /// Ticks `package_id` into the queue, unless it already waits there.
    pub fn add_to_update_queue(&mut self, package_id: String)
        ensures
            final(self)@ == queue_spec_add(old(self)@, package_id@),
    {
        if !strings_contain(&self.update_queue, &package_id) {
            let ghost id = package_id@;
            self.update_queue.push(package_id);
            proof {
                assert(strings_view(self.update_queue@) =~= old(self)@.queue.push(id));
                assert(self@ =~= queue_spec_add(old(self)@, id));
            }
        }
    }

    /// Ticks `package_id` out of the queue.
    pub fn remove_from_update_queue(&mut self, package_id: &String)
        ensures
            final(self)@ == queue_spec_remove(old(self)@, package_id@),
    {
        let ghost id = package_id@;
        let ghost pred = other_than(id);
        let ghost all = old(self)@.queue;
        let mut kept: Vec<String> = Vec::new();
        let mut i: usize = 0;
        while i < self.update_queue.len()
            invariant
                i <= self.update_queue.len(),
                self.update_queue@ == old(self).update_queue@,
                all == strings_view(self.update_queue@),
                id == package_id@,
                pred == other_than(id),
                strings_view(kept@) =~= all.take(i as int).filter(pred),
            decreases self.update_queue.len() - i,
        {
            let ghost before = strings_view(kept@);
            let keep = !(self.update_queue[i] == *package_id);
            if keep {
                kept.push(self.update_queue[i].clone());
                proof {
                    assert(strings_view(kept@) =~= before.push(all[i as int]));
                }
            }
            proof {
                let t = all.take(i + 1);
                reveal_with_fuel(Seq::filter, 1);
                assert(t.drop_last() =~= all.take(i as int));
                assert(t.last() == all[i as int]);
                assert(pred(all[i as int]) == keep);
                assert(t.filter(pred) == (if pred(t.last()) {
                    t.drop_last().filter(pred).push(t.last())
                } else {
                    t.drop_last().filter(pred)
                }));
            }
            i = i + 1;
        }
        proof {
            assert(all.take(i as int) =~= all);
        }
        self.update_queue = kept;
        assert(self@ =~= queue_spec_remove(old(self)@, id));
    }

    /// Starts the batch.
    pub fn start_batch_update(&mut self) -> (r: QueueAction)
        ensures
            (final(self)@, r@) == queue_spec_start_batch(old(self)@),
    {
        self.is_batch_updating = true;
        assert(self@ =~= QueueAppView { is_batch_updating: true, ..old(self)@ });
        self.process_update_queue()
    }

    /// A click on the batch button.
    pub fn request_start_batch(&mut self) -> (r: QueueAction)
        ensures
            (final(self)@, r@) == queue_spec_request_start_batch(old(self)@),
    {
        if !self.is_batch_updating {
            self.start_batch_update()
        } else {
            QueueAction::Idle
        }
    }

    /// Cancels the batch.
    pub fn cancel_batch_update(&mut self)
        ensures
            final(self)@ == queue_spec_cancel_batch(old(self)@),
    {
        self.update_queue.clear();
        self.is_batch_updating = false;
        assert(self@ =~= queue_spec_cancel_batch(old(self)@));
    }

    /// Takes in a finished listing (`Err` carries its message).
    pub fn handle_fetch_promise(&mut self, result: Result<Vec<Package>, String>)
        ensures
            final(self)@ == queue_spec_fetch_done(old(self)@, listing_view(result)),
    {
        match result {
            Ok(packages) => {
                self.packages = packages;
                self.error_message = String::new();
            },
            Err(error) => {
                self.error_message = error;
                self.packages.clear();
            },
        }
        self.fetch_pending = false;
        self.is_loading = false;
        assert(self@ =~= queue_spec_fetch_done(old(self)@, listing_view(result)));
    }

    /// Takes in a finished update, which answers with the new package list
    /// (`Err` carries its message), and moves the queue on.
    pub fn handle_update_promise(&mut self, result: Result<Vec<Package>, String>) -> (r:
        QueueAction)
        ensures
            (final(self)@, r@) == queue_spec_update_done(old(self)@, listing_view(result)),
    {
        let ghost s0 = self@;
        let ghost res = listing_view(result);
        match result {
            Ok(packages) => {
                self.packages = packages;
                self.error_message = String::new();
            },
            Err(error) => {
                self.error_message = error;
            },
        }
        self.update_pending = false;
        self.updating_package_id = None;
        proof {
            let s1 = match res {
                Ok(p) => QueueAppView { packages: p, error_message: Seq::empty(), ..s0 },
                Err(e) => QueueAppView { error_message: e, ..s0 },
            };
            assert(self@ =~= QueueAppView {
                update_pending: false,
                updating_package_id: None,
                ..s1
            });
        }
        self.process_update_queue()
    }

    /// Applies the edits made in the package list during one frame, in
    /// order, and returns the actions they call for.
    pub fn apply_queue_edits(&mut self, edits: Vec<(String, bool)>) -> (r: Vec<QueueAction>)
        ensures
            (final(self)@, r@.map_values(|a: QueueAction| a@)) == queue_spec_edits(
                old(self)@,
                edits_view(edits@),
            ),
    {
        let ghost all = edits_view(edits@);
        let mut actions: Vec<QueueAction> = Vec::new();
        let mut i: usize = 0;
        while i < edits.len()
            invariant
                i <= edits.len(),
                all == edits_view(edits@),
                (self@, actions@.map_values(|a: QueueAction| a@)) == queue_spec_edits(
                    old(self)@,
                    all.take(i as int),
                ),
            decreases edits.len() - i,
        {
            let ghost s_before = self@;
            let ghost acts_before = actions@.map_values(|a: QueueAction| a@);
            let id = &edits[i].0;
            let add = edits[i].1;
            let ghost edit = all[i as int];
            assert(edit == (id@, add));
            if id.as_str().is_empty() {
                let a = self.start_batch_update();
                match a {
                    QueueAction::Idle => {},
                    _ => {
                        actions.push(a);
                        proof {
                            assert(actions@.map_values(|a: QueueAction| a@) =~= acts_before.push(
                                a@,
                            ));
                        }
                    },
                }
            } else if add {
                self.add_to_update_queue(id.clone());
            } else {
                self.remove_from_update_queue(id);
            }
            proof {
                assert(all.take(i + 1).drop_last() =~= all.take(i as int));
                assert(all.take(i + 1).last() == edit);
            }
            i = i + 1;
        }
        proof {
            assert(all.take(i as int) =~= all);
        }
        actions
    }

    /// How the row of `package_id` offers its update.
    pub fn package_row_state(&self, package_id: &String) -> (r: PackageRowState)
        ensures
            r == queue_spec_row(self@, package_id@),
    {
        let updating_this = match &self.updating_package_id {
            Some(id) => *id == *package_id,
            None => false,
        };
        if updating_this {
            PackageRowState::Updating
        } else if strings_contain(&self.update_queue, package_id) {
            PackageRowState::Queued
        } else {
            PackageRowState::Available
        }
    }
}

impl Default for PackageApp {
    /// The window's state before its first listing.
    fn default() -> (r: PackageApp)
        ensures
            r@ == queue_initial_state(),
    {
        PackageApp::empty()
    }
}

impl PackageApp {
    /// The listed packages.
    pub fn packages(&self) -> (r: &Vec<Package>)
        ensures
            package_views(r@) == self@.packages,
    {
        &self.packages
    }

    /// The error message shown (empty when there is none).
    pub fn error_message(&self) -> (r: &String)
        ensures
            r@ == self@.error_message,
    {
        &self.error_message
    }

    /// Whether a listing runs.
    pub fn is_loading(&self) -> (r: bool)
        ensures
            r == self@.is_loading,
    {
        self.is_loading
    }

    /// Whether a batch runs.
    pub fn is_batch_updating(&self) -> (r: bool)
        ensures
            r == self@.is_batch_updating,
    {
        self.is_batch_updating
    }

    /// The number of queued packages.
    pub fn queued_count(&self) -> (r: usize)
        ensures
            r == self@.queue.len(),
    {
        self.update_queue.len()
    }

    /// Whether an update or a listing runs, so that the window keeps
    /// repainting until it ends.
    pub fn has_pending_work(&self) -> (r: bool)
        ensures
            r == (self@.fetch_pending || self@.update_pending),
    {
        self.fetch_pending || self.update_pending
    }
}

} // verus!
