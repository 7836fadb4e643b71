//! The decisions of the update manager's window: when a listing or an
//! install is started, what a finished listing or install does to the state,
//! how "update all" walks its queue, and how cancellation is escalated.
//!
//! The window itself (drawing, promises, threads) lives outside the library;
//! it feeds the events here and performs the [`AppAction`] that comes back.
use vstd::prelude::*;

use crate::cancellation::CancellationToken;
use crate::text::{has_infix, lemma_infix_transitive, lowercase, str_contains, to_lowercase};
use crate::winget_manager::{
    package_views, packages_result_view, InstallResult, InstallResultView, Package, PackageView,
    WingetError, WingetErrorView,
};

pub mod app;
pub mod notices;

verus! {

// ---------------------------------------------------------------------------
// Model
// ---------------------------------------------------------------------------

/// What the window must do after a decision.
pub enum AppAction {
    /// Nothing.
    Idle,
    /// Start listing the available updates in the background.
    StartFetch,
    /// Start installing `package_id` in the background, watching `token`.
    StartInstall { package_id: String, token: CancellationToken },
}

/// The mathematical value of an [`AppAction`].
pub enum AppActionView {
    Idle,
    StartFetch,
    StartInstall { package_id: Seq<char> },
}

impl View for AppAction {
    type V = AppActionView;

    open spec fn view(&self) -> AppActionView {
        match self {
            AppAction::Idle => AppActionView::Idle,
            AppAction::StartFetch => AppActionView::StartFetch,
            AppAction::StartInstall { package_id, .. } => AppActionView::StartInstall {
                package_id: package_id@,
            },
        }
    }
}

/// Which request a press of the cancel button sent to the running install.
#[derive(Debug, PartialEq, Eq, Structural)]
pub enum CancelRequest {
    /// No install is running.
    NoInstall,
    /// The first press: the install is asked to stop.
    Cancel,
    /// A later press: the install's process is to be killed.
    ForceCancel,
}

/// The state of the update manager's window.
pub struct PackageApp {
    packages: Vec<Package>,
    error: Option<WingetError>,
    install_result: Option<InstallResult>,
    /// A listing runs in the background.
    fetch_pending: bool,
    /// An install runs in the background.
    install_pending: bool,
    is_loading: bool,
    updating_package_id: Option<String>,
    cancel_token: Option<CancellationToken>,
    cancel_clicked: bool,
    search_filter: String,
    updating_all: bool,
    packages_to_update_all: Vec<String>,
    reboot_required: bool,
}

/// The mathematical value of a [`PackageApp`].
#[verifier::ext_equal]
pub struct PackageAppView {
    pub packages: Seq<PackageView>,
    pub error: Option<WingetErrorView>,
    pub install_result: Option<InstallResultView>,
    pub fetch_pending: bool,
    pub install_pending: bool,
    pub is_loading: bool,
    pub updating_package_id: Option<Seq<char>>,
    pub has_cancel_token: bool,
    pub cancel_clicked: bool,
    pub search_filter: Seq<char>,
    pub updating_all: bool,
    pub queue: Seq<Seq<char>>,
    pub reboot_required: bool,
}

/// The view of an optional error.
pub open spec fn error_view(e: Option<WingetError>) -> Option<WingetErrorView> {
    match e {
        Some(x) => Some(x@),
        None => None,
    }
}

/// The view of an optional install report.
pub open spec fn install_result_view(r: Option<InstallResult>) -> Option<InstallResultView> {
    match r {
        Some(x) => Some(x@),
        None => None,
    }
}

/// The view of an optional string.
pub open spec fn opt_string_view(s: Option<String>) -> Option<Seq<char>> {
    match s {
        Some(x) => Some(x@),
        None => None,
    }
}

/// The views of a vector of strings.
pub open spec fn strings_view(v: Seq<String>) -> Seq<Seq<char>> {
    v.map_values(|s: String| s@)
}

impl View for PackageApp {
    type V = PackageAppView;

    closed spec fn view(&self) -> PackageAppView {
        PackageAppView {
            packages: package_views(self.packages@),
            error: error_view(self.error),
            install_result: install_result_view(self.install_result),
            fetch_pending: self.fetch_pending,
            install_pending: self.install_pending,
            is_loading: self.is_loading,
            updating_package_id: opt_string_view(self.updating_package_id),
            has_cancel_token: self.cancel_token is Some,
            cancel_clicked: self.cancel_clicked,
            search_filter: self.search_filter@,
            updating_all: self.updating_all,
            queue: strings_view(self.packages_to_update_all@),
            reboot_required: self.reboot_required,
        }
    }
}

impl PackageApp {
    /// The token kept for the cancel button of the running install.
    pub closed spec fn kept_token(&self) -> Option<CancellationToken> {
        self.cancel_token
    }
}

/// The token that an action hands to the install it starts, if any.
pub open spec fn action_token(a: AppAction) -> Option<CancellationToken> {
    match a {
        AppAction::StartInstall { token, .. } => Some(token),
        _ => None,
    }
}

// ---------------------------------------------------------------------------
// Specification of the transitions
// ---------------------------------------------------------------------------

/// The state the window opens in, before its first listing.
pub open spec fn initial_state() -> PackageAppView {
    PackageAppView {
        packages: Seq::empty(),
        error: None,
        install_result: None,
        fetch_pending: false,
        install_pending: false,
        is_loading: false,
        updating_package_id: None,
        has_cancel_token: false,
        cancel_clicked: false,
        search_filter: Seq::empty(),
        updating_all: false,
        queue: Seq::empty(),
        reboot_required: false,
    }
}

/// The consistency that every reachable state keeps: a listing runs exactly
/// while the window shows it loading, and an install runs exactly while a
/// package is marked as updating and a cancellation token is held; the
/// cancel button can only have been pressed while an install runs.
pub open spec fn consistent(s: PackageAppView) -> bool {
    &&& s.fetch_pending == s.is_loading
    &&& s.install_pending == (s.updating_package_id is Some)
    &&& s.install_pending == s.has_cancel_token
    &&& s.cancel_clicked ==> s.install_pending
}

/// Asking for a listing: ignored while one runs, else one starts.
pub open spec fn spec_fetch(s: PackageAppView) -> (PackageAppView, AppActionView) {
    if s.fetch_pending || s.is_loading {
        (s, AppActionView::Idle)
    } else {
        (PackageAppView { is_loading: true, fetch_pending: true, ..s }, AppActionView::StartFetch)
    }
}

/// Asking to install `id`: ignored while an install runs, else it starts
/// with a fresh token and the cancel button reset.
pub open spec fn spec_update_single(s: PackageAppView, id: Seq<char>) -> (
    PackageAppView,
    AppActionView,
) {
    if s.install_pending || s.updating_package_id is Some {
        (s, AppActionView::Idle)
    } else {
        (
            PackageAppView {
                updating_package_id: Some(id),
                has_cancel_token: true,
                cancel_clicked: false,
                install_pending: true,
                ..s
            },
            AppActionView::StartInstall { package_id: id },
        )
    }
}

/// The ids of some packages, in order.
pub open spec fn package_ids(p: Seq<PackageView>) -> Seq<Seq<char>> {
    p.map_values(|q: PackageView| q.id)
}

/// Starting "update all": every listed package id goes to the queue, and
/// the first one is taken off and asked to install.
pub open spec fn spec_start_update_all(s: PackageAppView) -> (PackageAppView, AppActionView) {
    let q = package_ids(s.packages);
    if q.len() > 0 {
        spec_update_single(
            PackageAppView { updating_all: true, queue: q.drop_first(), ..s },
            q[0],
        )
    } else {
        (PackageAppView { updating_all: true, queue: q, ..s }, AppActionView::Idle)
    }
}

/// A finished listing: its packages replace the list, or its error is shown
/// and the list emptied; the window stops loading.
pub open spec fn spec_fetch_done(
    s: PackageAppView,
    result: Result<Seq<PackageView>, WingetErrorView>,
) -> PackageAppView {
    match result {
        Ok(p) => PackageAppView {
            error: None,
            packages: p,
            fetch_pending: false,
            is_loading: false,
            ..s
        },
        Err(e) => PackageAppView {
            error: Some(e),
            packages: Seq::empty(),
            fetch_pending: false,
            is_loading: false,
            ..s
        },
    }
}

/// Marks the running install as finished.
pub open spec fn clear_install(s: PackageAppView) -> PackageAppView {
    PackageAppView {
        install_pending: false,
        updating_package_id: None,
        has_cancel_token: false,
        cancel_clicked: false,
        ..s
    }
}

/// A finished install. It stops counting as running; a report is shown (and
/// a required reboot noted), or an error is shown instead. In "update all"
/// mode with ids left, the next id is taken off the queue and its install
/// starts; otherwise "update all" ends, and after a report a new listing is
/// asked for.
///
/// The order matters: the finished install is ended before the next id is
/// asked to install. Asked while the finished one still counted as running,
/// the request would be ignored, the id lost, and "update all" would never
/// end; ending it first is what lets the batch reach every queued id.
pub open spec fn spec_install_done(
    s: PackageAppView,
    result: Result<InstallResultView, WingetErrorView>,
) -> (PackageAppView, AppActionView) {
    match result {
        Ok(r) => {
            let s1 = clear_install(
                PackageAppView {
                    install_result: Some(r),
                    reboot_required: if r.reboot_required {
                        true
                    } else {
                        s.reboot_required
                    },
                    error: None,
                    ..s
                },
            );
            if s1.updating_all && s1.queue.len() > 0 {
                spec_update_single(PackageAppView { queue: s1.queue.drop_first(), ..s1 }, s1.queue[0])
            } else if s1.updating_all {
                spec_fetch(PackageAppView { updating_all: false, ..s1 })
            } else {
                spec_fetch(s1)
            }
        },
        Err(e) => {
            let s1 = clear_install(PackageAppView { error: Some(e), install_result: None, ..s });
            if s1.updating_all && s1.queue.len() > 0 {
                spec_update_single(PackageAppView { queue: s1.queue.drop_first(), ..s1 }, s1.queue[0])
            } else {
                (PackageAppView { updating_all: false, ..s1 }, AppActionView::Idle)
            }
        },
    }
}

/// A press of the cancel button: with an install running, the first press
/// asks it to stop and arms the button, a later press asks for a kill.
pub open spec fn spec_press_cancel(s: PackageAppView) -> (PackageAppView, CancelRequest) {
    if !s.has_cancel_token {
        (s, CancelRequest::NoInstall)
    } else if s.cancel_clicked {
        (s, CancelRequest::ForceCancel)
    } else {
        (PackageAppView { cancel_clicked: true, ..s }, CancelRequest::Cancel)
    }
}

/// Whether the "install all" button is enabled: there are packages, no
/// listing runs, no package is updating and "update all" is not under way.
pub open spec fn spec_update_all_enabled(s: PackageAppView) -> bool {
    s.packages.len() > 0 && !s.is_loading && s.updating_package_id is None && !s.updating_all
}

/// The view of a result that carries an install report or an error.
pub open spec fn install_outcome_view(r: Result<InstallResult, WingetError>) -> Result<
    InstallResultView,
    WingetErrorView,
> {
    match r {
        Ok(x) => Ok(x@),
        Err(e) => Err(e@),
    }
}

/// Whether a package answers a search: its lower-cased name or id holds
/// the lower-cased search text.
pub open spec fn package_matches_filter(p: PackageView, filter: Seq<char>) -> bool {
    has_infix(lowercase(p.name), lowercase(filter)) || has_infix(lowercase(p.id), lowercase(filter))
}

/// The test that a search applies to each package.
pub open spec fn search_pred(filter: Seq<char>) -> spec_fn(PackageView) -> bool {
    |p: PackageView| package_matches_filter(p, filter)
}

/// The packages shown for the current search: all of them when the search
/// is empty, else those that answer it, in list order.
pub open spec fn spec_filtered(s: PackageAppView) -> Seq<PackageView> {
    if s.search_filter.len() == 0 {
        s.packages
    } else {
        s.packages.filter(search_pred(s.search_filter))
    }
}

/// A click on a package's update button: honoured only when no package is
/// updating and "update all" is not under way.
pub open spec fn spec_request_update(s: PackageAppView, id: Seq<char>) -> (
    PackageAppView,
    AppActionView,
) {
    if s.updating_package_id is None && !s.updating_all {
        spec_update_single(s, id)
    } else {
        (s, AppActionView::Idle)
    }
}

/// A click on the refresh button: honoured only when no listing runs.
pub open spec fn spec_request_refresh(s: PackageAppView) -> (PackageAppView, AppActionView) {
    if !s.is_loading {
        spec_fetch(s)
    } else {
        (s, AppActionView::Idle)
    }
}

/// A click on the "install all" button: honoured only when it is enabled.
pub open spec fn spec_request_update_all(s: PackageAppView) -> (PackageAppView, AppActionView) {
    if spec_update_all_enabled(s) {
        spec_start_update_all(s)
    } else {
        (s, AppActionView::Idle)
    }
}

// ---------------------------------------------------------------------------
// Laws
// ---------------------------------------------------------------------------

/// The window opens consistent.
pub proof fn law_initial_consistent()
    ensures
        consistent(initial_state()),
{
}

/// Every transition keeps the state consistent.
pub proof fn law_transitions_keep_consistency(
    s: PackageAppView,
    id: Seq<char>,
    fetched: Result<Seq<PackageView>, WingetErrorView>,
    installed: Result<InstallResultView, WingetErrorView>,
)
    requires
        consistent(s),
    ensures
        consistent(spec_fetch(s).0),
        consistent(spec_update_single(s, id).0),
        consistent(spec_start_update_all(s).0),
        consistent(spec_fetch_done(s, fetched)),
        s.install_pending ==> consistent(spec_install_done(s, installed).0),
        consistent(spec_press_cancel(s).0),
        consistent(spec_request_update(s, id).0),
        consistent(spec_request_refresh(s).0),
        consistent(spec_request_update_all(s).0),
{
}

/// At most one listing runs at a time: asking for one while one runs
/// changes nothing and starts nothing.
pub proof fn law_single_fetch(s: PackageAppView)
    requires
        s.fetch_pending,
    ensures
        spec_fetch(s) == (s, AppActionView::Idle),
{
}

/// At most one install runs at a time: asking for one while one runs
/// changes nothing and starts nothing.
pub proof fn law_single_install(s: PackageAppView, id: Seq<char>)
    requires
        s.install_pending,
    ensures
        spec_update_single(s, id) == (s, AppActionView::Idle),
{
}

/// Cancellation escalates: the first press of the cancel button asks the
/// running install to stop, the next press asks for a kill, and so does
/// every press after that.
pub proof fn law_cancel_escalates(s: PackageAppView)
    requires
        consistent(s),
        s.install_pending,
        !s.cancel_clicked,
    ensures
        spec_press_cancel(s).1 == CancelRequest::Cancel,
        spec_press_cancel(spec_press_cancel(s).0).1 == CancelRequest::ForceCancel,
        spec_press_cancel(spec_press_cancel(s).0).0 == spec_press_cancel(s).0,
{
}

/// A finished install always frees the install slot unless "update all"
/// moves on to its next id: outside that case no install counts as running
/// afterwards, so the next request to install is honoured.
pub proof fn law_install_done_frees_slot(
    s: PackageAppView,
    installed: Result<InstallResultView, WingetErrorView>,
    id: Seq<char>,
)
    requires
        consistent(s),
        s.install_pending,
        !(s.updating_all && s.queue.len() > 0),
    ensures
        !spec_install_done(s, installed).0.install_pending,
        spec_update_single(spec_install_done(s, installed).0, id).1
            == (AppActionView::StartInstall { package_id: id }),
{
}

/// An empty search shows every package, in list order.
pub proof fn law_empty_search_shows_all(s: PackageAppView)
    requires
        s.search_filter.len() == 0,
    ensures
        spec_filtered(s) == s.packages,
{
}

/// A search shows exactly the packages whose lower-cased name or id holds
/// the lower-cased search text: every package it shows is listed and
/// answers the search, and every listed package that answers it is shown.
pub proof fn law_search_shows_matches(s: PackageAppView)
    requires
        s.search_filter.len() > 0,
    ensures
        spec_filtered(s).len() <= s.packages.len(),
        forall|i: int|
            0 <= i < spec_filtered(s).len() ==> (has_infix(
                lowercase(#[trigger] spec_filtered(s)[i].name),
                lowercase(s.search_filter),
            ) || has_infix(lowercase(spec_filtered(s)[i].id), lowercase(s.search_filter)))
                && s.packages.contains(spec_filtered(s)[i]),
        forall|k: int|
            0 <= k < s.packages.len() && (has_infix(
                lowercase(#[trigger] s.packages[k].name),
                lowercase(s.search_filter),
            ) || has_infix(lowercase(s.packages[k].id), lowercase(s.search_filter)))
                ==> spec_filtered(s).contains(s.packages[k]),
{
    let pred = search_pred(s.search_filter);
    s.packages.lemma_filter_len(pred);
    assert forall|i: int| 0 <= i < spec_filtered(s).len() implies (has_infix(
        lowercase(#[trigger] spec_filtered(s)[i].name),
        lowercase(s.search_filter),
    ) || has_infix(lowercase(spec_filtered(s)[i].id), lowercase(s.search_filter)))
        && s.packages.contains(spec_filtered(s)[i]) by {
        s.packages.lemma_filter_pred(pred, i);
        assert(s.packages.filter(pred).contains(spec_filtered(s)[i]));
        s.packages.lemma_filter_contains_rev(pred, spec_filtered(s)[i]);
    }
    assert forall|k: int|
        0 <= k < s.packages.len() && (has_infix(
            lowercase(#[trigger] s.packages[k].name),
            lowercase(s.search_filter),
        ) || has_infix(lowercase(s.packages[k].id), lowercase(s.search_filter)))
            implies spec_filtered(s).contains(s.packages[k]) by {
        assert(pred(s.packages[k]));
        s.packages.lemma_filter_contains(pred, k);
    }
}

/// After an install report outside "update all", or after the last one of
/// "update all", the package list is refreshed: a listing starts unless one
/// already runs, and "update all" is over.
pub proof fn law_install_report_refreshes(s: PackageAppView, r: InstallResultView)
    requires
        consistent(s),
        s.install_pending,
        !s.is_loading,
        !s.updating_all || s.queue.len() == 0,
    ensures
        spec_install_done(s, Ok(r)).1 == AppActionView::StartFetch,
        spec_install_done(s, Ok(r)).0.is_loading,
        !spec_install_done(s, Ok(r)).0.updating_all,
{
}

/// The reboot notice sticks: an install that requires a reboot raises it,
/// and nothing but its dismissal lowers it.
pub proof fn law_reboot_notice_sticks(
    s: PackageAppView,
    installed: Result<InstallResultView, WingetErrorView>,
    fetched: Result<Seq<PackageView>, WingetErrorView>,
)
    requires
        s.install_pending,
    ensures
        (installed matches Ok(r) && r.reboot_required) ==> spec_install_done(
            s,
            installed,
        ).0.reboot_required,
        s.reboot_required ==> spec_install_done(s, installed).0.reboot_required,
        spec_fetch_done(s, fetched).reboot_required == s.reboot_required,
{
}

/// A narrower search never shows more: when the lower-cased text of one
/// search holds the lower-cased text of another, every package the first
/// shows the second shows too; searches that lower-case alike show the same
/// packages.
///
/// An empty search shows everything without being lower-cased, and the
/// library states nothing of how the empty text lower-cases. So when the
/// narrower search is empty and the wider is not, the wider one is taken to
/// lower-case to the empty text; and searches compared as alike are both
/// empty or both not. Neither condition leaves out a case that can arise:
/// the empty text lower-cases to itself, and no other text lower-cases to it.
pub proof fn law_narrower_search_shows_less(a: PackageAppView, b: PackageAppView)
    requires
        a.packages == b.packages,
        has_infix(lowercase(b.search_filter), lowercase(a.search_filter)),
        a.search_filter.len() > 0 && b.search_filter.len() == 0 ==> lowercase(
            a.search_filter,
        ).len() == 0,
    ensures
        forall|p: PackageView| #[trigger] spec_filtered(b).contains(p) ==> spec_filtered(a).contains(p),
        lowercase(a.search_filter) == lowercase(b.search_filter) && (a.search_filter.len() == 0
            <==> b.search_filter.len() == 0) ==> spec_filtered(a) == spec_filtered(b),
{
    let pa = search_pred(a.search_filter);
    let pb = search_pred(b.search_filter);
    assert forall|p: PackageView| #[trigger] spec_filtered(b).contains(p) implies spec_filtered(
        a,
    ).contains(p) by {
        if a.search_filter.len() == 0 {
            if b.search_filter.len() > 0 {
                b.packages.lemma_filter_contains_rev(pb, p);
            }
        } else if b.search_filter.len() == 0 {
            let n = lowercase(a.search_filter);
            assert(lowercase(p.name).subrange(0, 0 + n.len() as int) =~= n);
            assert(has_infix(lowercase(p.name), n));
            assert(pa(p));
            let k = choose|k: int| 0 <= k < a.packages.len() && a.packages[k] == p;
            a.packages.lemma_filter_contains(pa, k);
        } else {
            b.packages.lemma_filter_contains_rev(pb, p);
            assert(pb(p));
            if has_infix(lowercase(p.name), lowercase(b.search_filter)) {
                lemma_infix_transitive(lowercase(p.name), lowercase(b.search_filter), lowercase(a.search_filter));
            } else {
                lemma_infix_transitive(lowercase(p.id), lowercase(b.search_filter), lowercase(a.search_filter));
            }
            assert(pa(p));
            let k = choose|k: int| 0 <= k < a.packages.len() && a.packages[k] == p;
            a.packages.lemma_filter_contains(pa, k);
        }
    }
    if lowercase(a.search_filter) == lowercase(b.search_filter) && (a.search_filter.len() == 0
        <==> b.search_filter.len() == 0) {
        assert(pa =~= pb);
    }
}

/// What a finished install shows: after a report, exactly that report and
/// no error, with the reboot notice raised when the report asks for a reboot
/// and kept otherwise; after an error, exactly that error and no report (an
/// earlier report is not left next to the failure). Either way the listed
/// packages, the search and any running listing stay as they were.
pub proof fn law_install_outcome_shown(
    s: PackageAppView,
    r: InstallResultView,
    e: WingetErrorView,
)
    ensures
        spec_install_done(s, Ok(r)).0.install_result == Some(r),
        spec_install_done(s, Ok(r)).0.error == None::<WingetErrorView>,
        spec_install_done(s, Ok(r)).0.reboot_required == (s.reboot_required || r.reboot_required),
        spec_install_done(s, Err(e)).0.install_result == None::<InstallResultView>,
        spec_install_done(s, Err(e)).0.error == Some(e),
        spec_install_done(s, Err(e)).0.reboot_required == s.reboot_required,
        spec_install_done(s, Ok(r)).0.packages == s.packages,
        spec_install_done(s, Err(e)).0.packages == s.packages,
        spec_install_done(s, Ok(r)).0.search_filter == s.search_filter,
        spec_install_done(s, Err(e)).0.search_filter == s.search_filter,
        s.fetch_pending ==> spec_install_done(s, Err(e)).0.fetch_pending,
        s.fetch_pending ==> spec_install_done(s, Ok(r)).0.fetch_pending,
{
}

/// After a failed install outside "update all" (or after the last id of
/// it) nothing starts and "update all" is over; after a report outside it
/// only a listing can start.
pub proof fn law_install_outcome_next_step(s: PackageAppView, r: InstallResultView, e: WingetErrorView)
    requires
        !s.updating_all || s.queue.len() == 0,
    ensures
        spec_install_done(s, Err(e)).1 == AppActionView::Idle,
        !spec_install_done(s, Err(e)).0.updating_all,
        !spec_install_done(s, Err(e)).0.install_pending,
        spec_install_done(s, Ok(r)).1 is Idle || spec_install_done(s, Ok(r)).1 is StartFetch,
        !spec_install_done(s, Ok(r)).0.install_pending,
{
}

/// What a finished listing shows: its packages and no error, or its error
/// and an empty list; the window stops loading, and the install side
/// (running install, its token, "update all" and its queue) is untouched.
pub proof fn law_listing_outcome_shown(s: PackageAppView, p: Seq<PackageView>, e: WingetErrorView)
    ensures
        spec_fetch_done(s, Ok(p)).packages == p,
        spec_fetch_done(s, Ok(p)).error == None::<WingetErrorView>,
        spec_fetch_done(s, Err(e)).packages == Seq::<PackageView>::empty(),
        spec_fetch_done(s, Err(e)).error == Some(e),
        !spec_fetch_done(s, Ok(p)).is_loading && !spec_fetch_done(s, Ok(p)).fetch_pending,
        !spec_fetch_done(s, Err(e)).is_loading && !spec_fetch_done(s, Err(e)).fetch_pending,
        spec_fetch_done(s, Ok(p)).install_pending == s.install_pending,
        spec_fetch_done(s, Ok(p)).updating_package_id == s.updating_package_id,
        spec_fetch_done(s, Ok(p)).updating_all == s.updating_all,
        spec_fetch_done(s, Ok(p)).queue == s.queue,
        spec_fetch_done(s, Ok(p)).install_result == s.install_result,
        spec_fetch_done(s, Err(e)).install_result == s.install_result,
{
}

/// The "install all" button is enabled exactly when there are packages, no
/// listing runs, no package is updating and "update all" is not under way;
/// while it is disabled (in particular while a listing runs) a click on it
/// changes nothing and starts nothing, and when enabled a click starts the
/// install of the first listed package.
pub proof fn law_update_all_button(s: PackageAppView)
    ensures
        s.is_loading ==> !spec_update_all_enabled(s),
        s.packages.len() == 0 ==> !spec_update_all_enabled(s),
        s.updating_package_id is Some ==> !spec_update_all_enabled(s),
        s.updating_all ==> !spec_update_all_enabled(s),
        (s.packages.len() > 0 && !s.is_loading && s.updating_package_id is None && !s.updating_all)
            ==> spec_update_all_enabled(s),
        !spec_update_all_enabled(s) ==> spec_request_update_all(s) == (s, AppActionView::Idle),
        (spec_update_all_enabled(s) && !s.install_pending) ==> spec_request_update_all(s).1
            == (AppActionView::StartInstall { package_id: s.packages[0].id }),
{
}

/// A click on a package's update button starts its install exactly when no
/// package is updating and "update all" is not under way; otherwise nothing
/// changes.
pub proof fn law_update_button(s: PackageAppView, id: Seq<char>)
    requires
        consistent(s),
    ensures
        (s.updating_package_id is None && !s.updating_all) ==> spec_request_update(s, id).1
            == (AppActionView::StartInstall { package_id: id }) && spec_request_update(
            s,
            id,
        ).0.updating_package_id == Some(id),
        (s.updating_package_id is Some || s.updating_all) ==> spec_request_update(s, id) == (
            s,
            AppActionView::Idle,
        ),
{
}

/// A click on the refresh button starts a listing exactly when none runs.
pub proof fn law_refresh_button(s: PackageAppView)
    requires
        consistent(s),
    ensures
        !s.is_loading ==> spec_request_refresh(s).1 == AppActionView::StartFetch
            && spec_request_refresh(s).0.is_loading,
        s.is_loading ==> spec_request_refresh(s) == (s, AppActionView::Idle),
{
}

/// "Update all" walks its queue: in that mode a finished install, whatever
/// its outcome, takes the next id off the queue and starts its install, so
/// the batch goes on until the queue is empty.
pub proof fn law_update_all_starts_next(
    s: PackageAppView,
    installed: Result<InstallResultView, WingetErrorView>,
)
    requires
        consistent(s),
        s.install_pending,
        s.updating_all,
        s.queue.len() > 0,
    ensures
        spec_install_done(s, installed).1 == (AppActionView::StartInstall {
            package_id: s.queue[0],
        }),
        spec_install_done(s, installed).0.queue == s.queue.drop_first(),
        spec_install_done(s, installed).0.updating_package_id == Some(s.queue[0]),
        spec_install_done(s, installed).0.install_pending,
        spec_install_done(s, installed).0.updating_all,
        consistent(spec_install_done(s, installed).0),
{
}

// ---------------------------------------------------------------------------
// Operations
// ---------------------------------------------------------------------------

impl PackageApp {
    /// The window's state before its first listing.
    fn empty() -> (r: PackageApp)
        ensures
            r@ == initial_state(),
            r.kept_token() is None,
    {
        let r = PackageApp {
            packages: Vec::new(),
            error: None,
            install_result: None,
            fetch_pending: false,
            install_pending: false,
            is_loading: false,
            updating_package_id: None,
            cancel_token: None,
            cancel_clicked: false,
            search_filter: String::new(),
            updating_all: false,
            packages_to_update_all: Vec::new(),
            reboot_required: false,
        };
        assert(r@ =~= initial_state());
        r
    }

    /// A new window: the initial state with a first listing asked for.
    pub fn new() -> (r: (PackageApp, AppAction))
        ensures
            (r.0@, r.1@) == spec_fetch(initial_state()),
            consistent(r.0@),
            r.0.kept_token() is None,
    {
        let mut app = Self::default();
        let action = app.fetch_updates_async();
        (app, action)
    }

    /// Asks for a listing of the available updates.
    pub fn fetch_updates_async(&mut self) -> (r: AppAction)
        ensures
            (final(self)@, r@) == spec_fetch(old(self)@),
            final(self).kept_token() == old(self).kept_token(),
    {
        if self.fetch_pending || self.is_loading {
            return AppAction::Idle;
        }
        self.is_loading = true;
        self.fetch_pending = true;
        assert(self@ =~= spec_fetch(old(self)@).0);
        AppAction::StartFetch
    }

    /// Asks to install the update of `package_id`.
    pub fn update_single_async(&mut self, package_id: &str) -> (r: AppAction)
        ensures
            (final(self)@, r@) == spec_update_single(old(self)@, package_id@),
            action_token(r) is Some ==> final(self).kept_token() == action_token(r),
            action_token(r) is None ==> final(self).kept_token() == old(self).kept_token(),
    {
        if self.install_pending || self.updating_package_id.is_some() {
            return AppAction::Idle;
        }
        self.updating_package_id = Some(String::from_str(package_id));
        let token = CancellationToken::new();
        self.cancel_token = Some(token.share());
        self.cancel_clicked = false;
        self.install_pending = true;
        assert(self@ =~= spec_update_single(old(self)@, package_id@).0);
        AppAction::StartInstall { package_id: String::from_str(package_id), token }
    }

    /// Starts "update all": queues every listed package and asks to install
    /// the first.
    pub fn start_update_all(&mut self) -> (r: AppAction)
        ensures
            (final(self)@, r@) == spec_start_update_all(old(self)@),
            action_token(r) is Some ==> final(self).kept_token() == action_token(r),
            action_token(r) is None ==> final(self).kept_token() == old(self).kept_token(),
    {
        let mut ids: Vec<String> = Vec::new();
        let mut i: usize = 0;
        while i < self.packages.len()
            invariant
                i <= self.packages.len(),
                self.packages@ == old(self).packages@,
                strings_view(ids@) =~= package_ids(package_views(self.packages@)).subrange(
                    0,
                    i as int,
                ),
            decreases self.packages.len() - i,
        {
            let ghost before = ids@;
            let id = self.packages[i].id.clone();
            ids.push(id);
            proof {
                let full = package_ids(package_views(self.packages@));
                assert(strings_view(before) =~= full.subrange(0, i as int));
                assert forall|k: int| 0 <= k < i + 1 implies strings_view(ids@)[k] == full.subrange(
                    0,
                    i + 1,
                )[k] by {
                    if k < i {
                        assert(ids@[k] == before[k]);
                        assert(strings_view(before)[k] == full.subrange(0, i as int)[k]);
                    }
                }
                assert(strings_view(ids@) =~= full.subrange(0, i + 1));
            }
            i = i + 1;
        }
        proof {
            assert(package_ids(package_views(self.packages@)).subrange(
                0,
                self.packages.len() as int,
            ) =~= package_ids(package_views(self.packages@)));
        }
        self.updating_all = true;
        self.packages_to_update_all = ids;
        if self.packages_to_update_all.len() > 0 {
            let next = self.packages_to_update_all.remove(0);
            proof {
                assert(strings_view(self.packages_to_update_all@) =~= package_ids(
                    package_views(old(self).packages@),
                ).drop_first());
                assert(self@ =~= PackageAppView {
                    updating_all: true,
                    queue: package_ids(old(self)@.packages).drop_first(),
                    ..old(self)@
                });
            }
            self.update_single_async(next.as_str())
        } else {
            assert(self@ =~= spec_start_update_all(old(self)@).0);
            AppAction::Idle
        }
    }

    /// Takes in a finished listing.
    pub fn handle_fetch_result(&mut self, result: Result<Vec<Package>, WingetError>)
        ensures
            final(self)@ == spec_fetch_done(old(self)@, packages_result_view(result)),
            final(self).kept_token() == old(self).kept_token(),
    {
        self.error = None;
        match result {
            Ok(packages) => {
                self.packages = packages;
            },
            Err(error) => {
                self.error = Some(error);
                self.packages.clear();
            },
        }
        self.fetch_pending = false;
        self.is_loading = false;
        assert(self@ =~= spec_fetch_done(old(self)@, packages_result_view(result)));
    }

    /// Marks the running install as finished.
    fn finish_install(&mut self)
        ensures
            final(self)@ == clear_install(old(self)@),
            final(self).kept_token() is None,
    {
        self.install_pending = false;
        self.updating_package_id = None;
        self.cancel_token = None;
        self.cancel_clicked = false;
        assert(self@ =~= clear_install(old(self)@));
    }

    /// Takes the next id off the "update all" queue and asks to install it.
    fn install_next_queued(&mut self) -> (r: AppAction)
        requires
            old(self)@.queue.len() > 0,
        ensures
            (final(self)@, r@) == spec_update_single(
                PackageAppView { queue: old(self)@.queue.drop_first(), ..old(self)@ },
                old(self)@.queue[0],
            ),
            action_token(r) is Some ==> final(self).kept_token() == action_token(r),
            action_token(r) is None ==> final(self).kept_token() == old(self).kept_token(),
    {
        let next = self.packages_to_update_all.remove(0);
        proof {
            assert(self@ =~= PackageAppView {
                queue: old(self)@.queue.drop_first(),
                ..old(self)@
            });
        }
        self.update_single_async(next.as_str())
    }

    /// Takes in a finished install (see [`spec_install_done`]).
    pub fn handle_install_result(&mut self, result: Result<InstallResult, WingetError>) -> (r:
        AppAction)
        requires
            old(self)@.install_pending,
        ensures
            (final(self)@, r@) == spec_install_done(old(self)@, install_outcome_view(result)),
            action_token(r) is Some ==> final(self).kept_token() == action_token(r),
            action_token(r) is None ==> final(self).kept_token() is None,
    {
        match result {
            Ok(install_result) => {
                let reboot = install_result.reboot_required;
                self.install_result = Some(install_result);
                if reboot {
                    self.reboot_required = true;
                }
                self.error = None;
                self.finish_install();
                if self.updating_all && self.packages_to_update_all.len() > 0 {
                    self.install_next_queued()
                } else if self.updating_all {
                    let ghost s1 = self@;
                    self.updating_all = false;
                    assert(self@ =~= PackageAppView { updating_all: false, ..s1 });
                    self.fetch_updates_async()
                } else {
                    self.fetch_updates_async()
                }
            },
            Err(error) => {
                self.error = Some(error);
                self.install_result = None;
                self.finish_install();
                if self.updating_all && self.packages_to_update_all.len() > 0 {
                    self.install_next_queued()
                } else {
                    let ghost s1 = self@;
                    self.updating_all = false;
                    assert(self@ =~= PackageAppView { updating_all: false, ..s1 });
                    AppAction::Idle
                }
            },
        }
    }

    /// A press of the cancel button of the updating package.
    pub fn press_cancel(&mut self) -> (r: CancelRequest)
        ensures
            (final(self)@, r) == spec_press_cancel(old(self)@),
            final(self).kept_token() == old(self).kept_token(),
    {
        match &self.cancel_token {
            Some(token) => {
                if self.cancel_clicked {
                    token.force_cancel();
                    CancelRequest::ForceCancel
                } else {
                    token.cancel();
                    self.cancel_clicked = true;
                    assert(self@ =~= spec_press_cancel(old(self)@).0);
                    CancelRequest::Cancel
                }
            },
            None => CancelRequest::NoInstall,
        }
    }

    /// The packages shown for the current search (see [`spec_filtered`]).
    pub fn get_filtered_packages(&self) -> (r: Vec<&Package>)
        ensures
            r@.map_values(|p: &Package| p@) == spec_filtered(self@),
    {
        let mut r: Vec<&Package> = Vec::new();
        if self.search_filter.as_str().is_empty() {
            let mut i: usize = 0;
            while i < self.packages.len()
                invariant
                    i <= self.packages.len(),
                    r@.map_values(|p: &Package| p@) =~= package_views(self.packages@).subrange(
                        0,
                        i as int,
                    ),
                decreases self.packages.len() - i,
            {
                let ghost before = r@.map_values(|p: &Package| p@);
                r.push(&self.packages[i]);
                proof {
                    assert(r@.map_values(|p: &Package| p@) =~= before.push(self.packages@[i as int]@));
                    assert(before.push(self.packages@[i as int]@) =~= package_views(
                        self.packages@,
                    ).subrange(0, i + 1));
                }
                i = i + 1;
            }
            proof {
                assert(package_views(self.packages@).subrange(0, i as int) =~= package_views(
                    self.packages@,
                ));
                assert(self@.search_filter.len() == 0);
            }
            return r;
        }
        let filter_lower = to_lowercase(self.search_filter.as_str());
        let ghost pred = search_pred(self@.search_filter);
        let ghost all = package_views(self.packages@);
        let mut i: usize = 0;
        while i < self.packages.len()
            invariant
                i <= self.packages.len(),
                all == package_views(self.packages@),
                filter_lower@ == lowercase(self.search_filter@),
                pred == search_pred(self@.search_filter),
                r@.map_values(|p: &Package| p@) =~= all.take(i as int).filter(pred),
            decreases self.packages.len() - i,
        {
            let p = &self.packages[i];
            let name_lower = to_lowercase(p.name.as_str());
            let id_lower = to_lowercase(p.id.as_str());
            let ghost before = r@.map_values(|p: &Package| p@);
            let hit = package_matches(name_lower.as_str(), id_lower.as_str(), filter_lower.as_str());
            if hit {
                r.push(p);
                proof {
                    assert(r@.map_values(|p: &Package| p@) =~= before.push(p@));
                }
            }
            proof {
                assert(all.take(i + 1).drop_last() =~= all.take(i as int));
                assert(all.take(i + 1).last() == p@);
                assert(all[i as int] == p@);
                assert(pred(p@) == hit);
                let t = all.take(i + 1);
                reveal_with_fuel(Seq::filter, 1);
                assert(t.filter(pred) == (if pred(t.last()) {
                    t.drop_last().filter(pred).push(t.last())
                } else {
                    t.drop_last().filter(pred)
                }));
                if hit {
                    assert(r@.map_values(|p: &Package| p@) == before.push(p@));
                } else {
                    assert(r@.map_values(|p: &Package| p@) == before);
                }
                assert(r@.map_values(|p: &Package| p@) =~= all.take(i + 1).filter(pred));
            }
            i = i + 1;
        }
        proof {
            assert(all.take(i as int) =~= all);
        }
        r
    }

    /// A click on a package's update button.
    pub fn request_update(&mut self, package_id: &str) -> (r: AppAction)
        ensures
            (final(self)@, r@) == spec_request_update(old(self)@, package_id@),
            action_token(r) is Some ==> final(self).kept_token() == action_token(r),
            action_token(r) is None ==> final(self).kept_token() == old(self).kept_token(),
    {
        if self.updating_package_id.is_none() && !self.updating_all {
            self.update_single_async(package_id)
        } else {
            AppAction::Idle
        }
    }

    /// A click on the refresh button.
    pub fn request_refresh(&mut self) -> (r: AppAction)
        ensures
            (final(self)@, r@) == spec_request_refresh(old(self)@),
            final(self).kept_token() == old(self).kept_token(),
    {
        if !self.is_loading {
            self.fetch_updates_async()
        } else {
            AppAction::Idle
        }
    }

    /// Whether the "install all" button is enabled.
    pub fn update_all_enabled(&self) -> (r: bool)
        ensures
            r == spec_update_all_enabled(self@),
    {
        self.packages.len() > 0 && !self.is_loading && self.updating_package_id.is_none()
            && !self.updating_all
    }

    /// A click on the "install all" button.
    pub fn request_update_all(&mut self) -> (r: AppAction)
        ensures
            (final(self)@, r@) == spec_request_update_all(old(self)@),
            action_token(r) is Some ==> final(self).kept_token() == action_token(r),
            action_token(r) is None ==> final(self).kept_token() == old(self).kept_token(),
    {
        if self.update_all_enabled() {
            self.start_update_all()
        } else {
            AppAction::Idle
        }
    }
}

/// Whether a package answers a search, from its lower-cased name and id
/// and the lower-cased search text.
pub fn package_matches(name_lower: &str, id_lower: &str, filter_lower: &str) -> (r: bool)
    ensures
        r == (has_infix(name_lower@, filter_lower@) || has_infix(id_lower@, filter_lower@)),
{
    str_contains(name_lower, filter_lower) || str_contains(id_lower, filter_lower)
}

impl Default for PackageApp {
    /// The window's state before its first listing.
    fn default() -> (r: PackageApp)
        ensures
            r@ == initial_state(),
            r.kept_token() is None,
    {
        PackageApp::empty()
    }
}

impl PackageApp {
    /// Closes the reboot notice.
    pub fn dismiss_reboot_notice(&mut self)
        ensures
            final(self)@ == (PackageAppView { reboot_required: false, ..old(self)@ }),
            final(self).kept_token() == old(self).kept_token(),
    {
        self.reboot_required = false;
        assert(self@ =~= PackageAppView { reboot_required: false, ..old(self)@ });
    }

    /// Closes the install report.
    pub fn dismiss_install_result(&mut self)
        ensures
            final(self)@ == (PackageAppView { install_result: None, ..old(self)@ }),
            final(self).kept_token() == old(self).kept_token(),
    {
        self.install_result = None;
        assert(self@ =~= PackageAppView { install_result: None, ..old(self)@ });
    }

    /// Closes the error banner.
    pub fn dismiss_error(&mut self)
        ensures
            final(self)@ == (PackageAppView { error: None, ..old(self)@ }),
            final(self).kept_token() == old(self).kept_token(),
    {
        self.error = None;
        assert(self@ =~= PackageAppView { error: None, ..old(self)@ });
    }

    /// Replaces the search text.
    pub fn set_search_filter(&mut self, filter: String)
        ensures
            final(self)@ == (PackageAppView { search_filter: filter@, ..old(self)@ }),
            final(self).kept_token() == old(self).kept_token(),
    {
        self.search_filter = filter;
        assert(self@ =~= PackageAppView { search_filter: filter@, ..old(self)@ });
    }

    /// The search text.
    pub fn search_filter(&self) -> (r: &String)
        ensures
            r@ == self@.search_filter,
    {
        &self.search_filter
    }

    /// The listed packages.
    pub fn packages(&self) -> (r: &Vec<Package>)
        ensures
            package_views(r@) == self@.packages,
    {
        &self.packages
    }

    /// The error shown, if any.
    pub fn error(&self) -> (r: &Option<WingetError>)
        ensures
            error_view(*r) == self@.error,
    {
        &self.error
    }

    /// The install report shown, if any.
    pub fn install_result(&self) -> (r: &Option<InstallResult>)
        ensures
            install_result_view(*r) == self@.install_result,
    {
        &self.install_result
    }

    /// Whether a listing runs.
    pub fn is_loading(&self) -> (r: bool)
        ensures
            r == self@.is_loading,
    {
        self.is_loading
    }

    /// Whether an install runs, so that its outcome may be taken in.
    pub fn install_running(&self) -> (r: bool)
        ensures
            r == self@.install_pending,
    {
        self.install_pending
    }

    /// Whether "update all" is under way.
    pub fn updating_all(&self) -> (r: bool)
        ensures
            r == self@.updating_all,
    {
        self.updating_all
    }

    /// Whether a reboot is required by an install.
    pub fn reboot_required(&self) -> (r: bool)
        ensures
            r == self@.reboot_required,
    {
        self.reboot_required
    }

    /// Whether the cancel button has been pressed once for the running
    /// install.
    pub fn cancel_clicked(&self) -> (r: bool)
        ensures
            r == self@.cancel_clicked,
    {
        self.cancel_clicked
    }

    /// Whether `package_id` is the package being updated.
    pub fn is_updating(&self, package_id: &String) -> (r: bool)
        ensures
            r == (self@.updating_package_id == Some(package_id@)),
    {
        match &self.updating_package_id {
            Some(id) => *id == *package_id,
            None => false,
        }
    }
}

} // verus!
