//! The window inventory: how the children of a window are enumerated.
//!
//! An enumeration takes two round-trips. The first asks for the children of
//! a window. The second asks three things about every child, all of them
//! handed out at once: its attributes, its geometry and its `WM_CLASS`
//! property. A child for which the server does not answer all three is left
//! out; the other children are not affected.

use vstd::prelude::*;

use crate::x11::error::{ParseError, X11Error};
use crate::x11::request::{Outcome, Reply, Request};
use crate::x11::screens::X11Screen;
use crate::x11::windows::{
    resolved_window, views, window_view, MapState, X11Window, X11WindowId, X11WindowView,
};
use crate::x11::X11Result;

verus! {

/// The three requests about one window, in the order in which they are
/// handed out.
pub open spec fn window_requests(window: X11WindowId) -> Seq<Request> {
    seq![
        Request::GetWindowAttributes { window },
        Request::GetGeometry { drawable: window },
        Request::GetWmClass { window },
    ]
}

/// `window_requests` as a function value.
pub open spec fn per_window() -> spec_fn(X11WindowId) -> Seq<Request> {
    |window: X11WindowId| window_requests(window)
}

/// The requests of the second round-trip: three for every child, children
/// in the order of the tree reply.
pub open spec fn window_data_requests(children: Seq<X11WindowId>) -> Seq<Request> {
    children.flat_map(per_window())
}

/// The window that the outcomes hold for the child at index `i`: the
/// outcomes at `3 * i`, `3 * i + 1` and `3 * i + 2` answer its requests. A
/// child whose outcomes are missing did not resolve.
pub open spec fn window_at(children: Seq<X11WindowId>, outcomes: Seq<Outcome>, i: int) -> Option<
    X11WindowView,
> {
    if 0 <= i < children.len() && 3 * i + 2 < outcomes.len() {
        resolved_window(children[i], outcomes[3 * i], outcomes[3 * i + 1], outcomes[3 * i + 2])
    } else {
        None
    }
}

/// For every child, in order, the window it resolved to or `None`.
pub open spec fn candidates(children: Seq<X11WindowId>, outcomes: Seq<Outcome>) -> Seq<
    Option<X11WindowView>,
> {
    Seq::new(children.len(), |i: int| window_at(children, outcomes, i))
}

/// Whether a resolved window goes into the inventory.
pub open spec fn listed(window: X11WindowView, include_unmanaged: bool) -> bool {
    include_unmanaged || window.attributes.manageable()
}

/// The filter of an enumeration: keeps a candidate that resolved and is
/// listed.
pub open spec fn keep(include_unmanaged: bool) -> spec_fn(Option<X11WindowView>) -> Option<
    X11WindowView,
> {
    |candidate: Option<X11WindowView>|
        match candidate {
            Some(window) => if listed(window, include_unmanaged) {
                Some(window)
            } else {
                None
            },
            None => None,
        }
}

/// The inventory: the children that resolved and are listed, in the order
/// in which the server reported them.
pub open spec fn inventory(
    children: Seq<X11WindowId>,
    outcomes: Seq<Outcome>,
    include_unmanaged: bool,
) -> Seq<X11WindowView> {
    candidates(children, outcomes).filter_map(keep(include_unmanaged))
}

/// The children that a query-tree request resolved to.
pub open spec fn tree_children(outcomes: Seq<Outcome>) -> X11Result<Seq<X11WindowId>> {
    if outcomes.len() == 0 {
        Err(X11Error::ParseError(ParseError::InsufficientData))
    } else {
        match outcomes[0] {
            Ok(Reply::QueryTree(tree)) => Ok(tree.children@),
            Ok(_) => Err(X11Error::ParseError(ParseError::InvalidValue)),
            Err(e) => Err(e),
        }
    }
}

/// Asks for what the inventory holds about every child: attributes,
/// geometry and class, three requests per child and none of them waiting
/// for another.
pub fn request_window_data(children: &Vec<X11WindowId>) -> (r: Vec<Request>)
    ensures
        r@ == window_data_requests(children@),
{
    let mut requests: Vec<Request> = Vec::new();
    let mut i: usize = 0;
    while i < children.len()
        invariant
            i <= children.len(),
            requests@ == window_data_requests(children@.take(i as int)),
        decreases children.len() - i,
    {
        let window = children[i];
        requests.push(Request::GetWindowAttributes { window });
        requests.push(Request::GetGeometry { drawable: window });
        requests.push(Request::GetWmClass { window });
        proof {
            children@.lemma_flat_map_take_append(per_window(), i as int);
            assert(requests@ == window_data_requests(children@.take(i as int)) + window_requests(
                window,
            ));
        }
        i += 1;
    }
    assert(children@.take(i as int) == children@);
    requests
}

/// The window of the child at index `i`, if its three requests resolved.
fn resolve_child(children: &Vec<X11WindowId>, outcomes: &Vec<Outcome>, i: usize) -> (r: Option<
    X11Window,
>)
    requires
        i < children.len(),
    ensures
        window_view(r) == window_at(children@, outcomes@, i as int),
{
    if i < outcomes.len() / 3 {
        let first: usize = 3 * i;
        X11Window::resolve(children[i], &outcomes[first], &outcomes[first + 1], &outcomes[first + 2])
    } else {
        None
    }
}

/// Turns the children of a query-tree reply into the inventory, given the
/// outcomes of `request_window_data` in the order of its requests.
///
/// A child goes into the result if its three requests resolved and, unless
/// `include_unmanaged` is set, if it neither overrides redirection nor is
/// unmapped. The result keeps the order of the children. A child that did
/// not resolve is left out and changes nothing for the others.
pub fn query_tree_reply_to_windows(
    children: &Vec<X11WindowId>,
    outcomes: &Vec<Outcome>,
    include_unmanaged: bool,
) -> (r: Vec<X11Window>)
    ensures
        views(r@) == inventory(children@, outcomes@, include_unmanaged),
{
    let mut windows: Vec<X11Window> = Vec::new();
    let mut i: usize = 0;
    assert(views(windows@) == Seq::<X11WindowView>::empty());
    while i < children.len()
        invariant
            i <= children.len(),
            views(windows@) == candidates(children@, outcomes@).take(i as int).filter_map(
                keep(include_unmanaged),
            ),
        decreases children.len() - i,
    {
        let ghost before = views(windows@);
        let child = resolve_child(children, outcomes, i);
        proof {
            candidates(children@, outcomes@).lemma_filter_map_take_succ(
                keep(include_unmanaged),
                i as int,
            );
        }
        match child {
            Some(window) => {
                if include_unmanaged || window.attributes.is_manageable() {
                    let ghost view = window@;
                    windows.push(window);
                    assert(views(windows@) == before + seq![view]);
                }
            },
            None => {},
        }
        i += 1;
    }
    assert(candidates(children@, outcomes@).take(i as int) == candidates(children@, outcomes@));
    windows
}

/// An enumeration that waits for the display server. It is used up by the
/// step that reads the answer, so no answer can be read twice.
#[must_use]
#[derive(Debug, PartialEq, Eq)]
pub enum WindowQuery {
    /// The children of a window were asked for.
    Tree { include_unmanaged: bool },
    /// Attributes, geometry and class of these children were asked for.
    Windows { include_unmanaged: bool, children: Vec<X11WindowId> },
}

/// How an enumeration goes on after the server answered.
#[must_use]
#[derive(Debug, PartialEq, Eq)]
pub enum QueryStep {
    /// Send these requests, then resume the query with their outcomes.
    Continue(WindowQuery, Vec<Request>),
    /// The enumeration is over.
    Finished(X11Result<Vec<X11Window>>),
}

fn copy_ids(ids: &Vec<X11WindowId>) -> (r: Vec<X11WindowId>)
    ensures
        r@ == ids@,
{
    let mut copy: Vec<X11WindowId> = Vec::new();
    let mut i: usize = 0;
    while i < ids.len()
        invariant
            i <= ids.len(),
            copy@ == ids@.take(i as int),
        decreases ids.len() - i,
    {
        copy.push(ids[i]);
        assert(ids@.take(i + 1) == ids@.take(i as int).push(ids@[i as int]));
        i += 1;
    }
    assert(ids@.take(i as int) == ids@);
    copy
}

impl WindowQuery {
    /// Starts the enumeration of the children of `window`: the query and
    /// the request to send first.
    pub fn start(window: X11WindowId, include_unmanaged: bool) -> (r: (WindowQuery, Vec<Request>))
        ensures
            r.0 == (WindowQuery::Tree { include_unmanaged }),
            r.1@ == seq![Request::QueryTree { window }],
    {
        let mut requests: Vec<Request> = Vec::new();
        requests.push(Request::QueryTree { window });
        (WindowQuery::Tree { include_unmanaged }, requests)
    }

    /// Goes on with the enumeration, given the outcomes of the requests that
    /// were handed out last, in the order of those requests.
    ///
    /// After the tree reply the query asks about every child. Where the tree
    /// request failed the enumeration ends with that error, and with a parse
    /// error where its answer is missing or is no tree reply. After the
    /// answers about the children the enumeration ends with the inventory;
    /// no failure about a child ends it otherwise.
    pub fn resume(self, outcomes: &Vec<Outcome>) -> (r: QueryStep)
        ensures
            match self {
                WindowQuery::Tree { include_unmanaged } => match tree_children(outcomes@) {
                    Ok(children) => r matches QueryStep::Continue(
                        WindowQuery::Windows { include_unmanaged: flag, children: ids },
                        requests,
                    ) && flag == include_unmanaged && ids@ == children && requests@
                        == window_data_requests(children),
                    Err(e) => r matches QueryStep::Finished(Err(error)) && error == e,
                },
                WindowQuery::Windows { include_unmanaged, children } => r matches QueryStep::Finished(
                    Ok(windows),
                ) && views(windows@) == inventory(children@, outcomes@, include_unmanaged),
            },
    {
        match self {
            WindowQuery::Tree { include_unmanaged } => {
                if outcomes.len() == 0 {
                    QueryStep::Finished(Err(X11Error::ParseError(ParseError::InsufficientData)))
                } else {
                    match &outcomes[0] {
                        Ok(Reply::QueryTree(tree)) => {
                            let children = copy_ids(&tree.children);
                            let requests = request_window_data(&children);
                            QueryStep::Continue(
                                WindowQuery::Windows { include_unmanaged, children },
                                requests,
                            )
                        },
                        Ok(_) => QueryStep::Finished(
                            Err(X11Error::ParseError(ParseError::InvalidValue)),
                        ),
                        Err(e) => QueryStep::Finished(Err(*e)),
                    }
                }
            },
            WindowQuery::Windows { include_unmanaged, children } => QueryStep::Finished(
                Ok(query_tree_reply_to_windows(&children, outcomes, include_unmanaged)),
            ),
        }
    }
}

/// Fetches all windows which exist on a given screen, managed or not.
pub fn get_all_windows(screen: &X11Screen) -> (r: (WindowQuery, Vec<Request>))
    ensures
        r.0 == (WindowQuery::Tree { include_unmanaged: true }),
        r.1@ == seq![Request::QueryTree { window: screen.root }],
{
    WindowQuery::start(screen.root, true)
}

/// Fetches the windows of a given screen that a window manager takes care
/// of: those that neither override redirection nor are unmapped.
pub fn get_unmapped_windows(screen: &X11Screen) -> (r: (WindowQuery, Vec<Request>))
    ensures
        r.0 == (WindowQuery::Tree { include_unmanaged: false }),
        r.1@ == seq![Request::QueryTree { window: screen.root }],
{
    WindowQuery::start(screen.root, false)
}

/// The managed windows of a given screen.
pub fn get_windows(screen: &X11Screen) -> (r: (WindowQuery, Vec<Request>))
    ensures
        r.0 == (WindowQuery::Tree { include_unmanaged: false }),
        r.1@ == seq![Request::QueryTree { window: screen.root }],
{
    get_unmapped_windows(screen)
}

/// The requests about the children are laid out three to a child: those at
/// `3 * i`, `3 * i + 1` and `3 * i + 2` ask for the attributes, the
/// geometry and the class of the child at index `i`. These are the
/// positions at which `window_at` reads the outcomes.
pub proof fn lemma_window_data_requests_layout(children: Seq<X11WindowId>, i: int)
    requires
        0 <= i < children.len(),
    ensures
        window_data_requests(children).len() == 3 * children.len(),
        window_data_requests(children)[3 * i] == (Request::GetWindowAttributes {
            window: children[i],
        }),
        window_data_requests(children)[3 * i + 1] == (Request::GetGeometry {
            drawable: children[i],
        }),
        window_data_requests(children)[3 * i + 2] == (Request::GetWmClass { window: children[i] }),
    decreases children.len(),
{
    let front = children.drop_last();
    let last = children.last();
    assert(front.push(last) == children);
    front.lemma_flat_map_push(per_window(), last);
    assert(window_data_requests(children) == window_data_requests(front) + window_requests(last));
    lemma_window_data_requests_len(front);
    if i < front.len() {
        lemma_window_data_requests_layout(front, i);
    }
}

/// There are three requests for every child.
pub proof fn lemma_window_data_requests_len(children: Seq<X11WindowId>)
    ensures
        window_data_requests(children).len() == 3 * children.len(),
    decreases children.len(),
{
    if children.len() == 0 {
        assert(children.map_values(per_window()) == Seq::<Seq<Request>>::empty());
    } else {
        let front = children.drop_last();
        let last = children.last();
        assert(front.push(last) == children);
        front.lemma_flat_map_push(per_window(), last);
        lemma_window_data_requests_len(front);
    }
}

/// The inventory of the first `n` children.
pub open spec fn inventory_upto(
    children: Seq<X11WindowId>,
    outcomes: Seq<Outcome>,
    include_unmanaged: bool,
    n: int,
) -> Seq<X11WindowView> {
    candidates(children, outcomes).take(n).filter_map(keep(include_unmanaged))
}

proof fn lemma_inventory_upto_step(
    children: Seq<X11WindowId>,
    outcomes: Seq<Outcome>,
    include_unmanaged: bool,
    n: int,
)
    requires
        0 <= n < children.len(),
    ensures
        inventory_upto(children, outcomes, include_unmanaged, n + 1) == match window_at(
            children,
            outcomes,
            n,
        ) {
            Some(window) => if listed(window, include_unmanaged) {
                inventory_upto(children, outcomes, include_unmanaged, n).push(window)
            } else {
                inventory_upto(children, outcomes, include_unmanaged, n)
            },
            None => inventory_upto(children, outcomes, include_unmanaged, n),
        },
{
    candidates(children, outcomes).lemma_filter_map_take_succ(keep(include_unmanaged), n);
}

proof fn lemma_inventory_upto_members(
    children: Seq<X11WindowId>,
    outcomes: Seq<Outcome>,
    include_unmanaged: bool,
    n: int,
    window: X11WindowView,
)
    requires
        0 <= n <= children.len(),
    ensures
        inventory_upto(children, outcomes, include_unmanaged, n).contains(window) <==> listed(
            window,
            include_unmanaged,
        ) && exists|i: int| 0 <= i < n && window_at(children, outcomes, i) == Some(window),
    decreases n,
{
    if n == 0 {
        assert(candidates(children, outcomes).take(0) == Seq::<Option<X11WindowView>>::empty());
    } else {
        let before = inventory_upto(children, outcomes, include_unmanaged, n - 1);
        let now = inventory_upto(children, outcomes, include_unmanaged, n);
        lemma_inventory_upto_step(children, outcomes, include_unmanaged, n - 1);
        lemma_inventory_upto_members(children, outcomes, include_unmanaged, n - 1, window);
        if now.contains(window) {
            let k = choose|k: int| 0 <= k < now.len() && now[k] == window;
            if k < before.len() {
                assert(before[k] == window);
                assert(before.contains(window));
            } else {
                assert(window_at(children, outcomes, n - 1) == Some(window));
            }
        }
        if listed(window, include_unmanaged) && exists|i: int|
            0 <= i < n && window_at(children, outcomes, i) == Some(window) {
            let i = choose|i: int| 0 <= i < n && window_at(children, outcomes, i) == Some(window);
            if i < n - 1 {
                assert(before.contains(window));
                let k = choose|k: int| 0 <= k < before.len() && before[k] == window;
                assert(now[k] == window);
            } else {
                assert(now[before.len() as int] == window);
            }
        }
    }
}

/// What is in an inventory: exactly the windows that some child resolved to
/// and that are listed.
pub proof fn lemma_inventory_members(
    children: Seq<X11WindowId>,
    outcomes: Seq<Outcome>,
    include_unmanaged: bool,
    window: X11WindowView,
)
    ensures
        inventory(children, outcomes, include_unmanaged).contains(window) <==> listed(
            window,
            include_unmanaged,
        ) && exists|i: int|
            0 <= i < children.len() && window_at(children, outcomes, i) == Some(window),
{
    assert(candidates(children, outcomes).take(children.len() as int) == candidates(
        children,
        outcomes,
    ));
    lemma_inventory_upto_members(
        children,
        outcomes,
        include_unmanaged,
        children.len() as int,
        window,
    );
}

/// A filtered inventory holds no window that overrides redirection and none
/// that is unmapped, and it holds every other window that a child resolved
/// to.
pub proof fn lemma_filtered_inventory(
    children: Seq<X11WindowId>,
    outcomes: Seq<Outcome>,
    window: X11WindowView,
)
    ensures
        inventory(children, outcomes, false).contains(window) ==> !window.attributes.override_redirect
            && window.attributes.map_state != MapState::Unmapped,
        (!window.attributes.override_redirect && window.attributes.map_state != MapState::Unmapped
            && exists|i: int|
            0 <= i < children.len() && window_at(children, outcomes, i) == Some(window))
            ==> inventory(children, outcomes, false).contains(window),
{
    lemma_inventory_members(children, outcomes, false, window);
}

/// An unfiltered inventory holds every window that a child resolved to.
pub proof fn lemma_unfiltered_inventory(
    children: Seq<X11WindowId>,
    outcomes: Seq<Outcome>,
    i: int,
)
    requires
        0 <= i < children.len(),
        window_at(children, outcomes, i) is Some,
    ensures
        inventory(children, outcomes, true).contains(window_at(children, outcomes, i).unwrap()),
{
    lemma_inventory_members(
        children,
        outcomes,
        true,
        window_at(children, outcomes, i).unwrap(),
    );
}

proof fn lemma_inventory_upto_order(
    children: Seq<X11WindowId>,
    outcomes: Seq<Outcome>,
    include_unmanaged: bool,
    n: int,
    a: int,
    b: int,
)
    requires
        0 <= n <= children.len(),
        0 <= a < b < inventory_upto(children, outcomes, include_unmanaged, n).len(),
    ensures
        exists|i: int, j: int|
            0 <= i < j < n && window_at(children, outcomes, i) == Some(
                inventory_upto(children, outcomes, include_unmanaged, n)[a],
            ) && window_at(children, outcomes, j) == Some(
                inventory_upto(children, outcomes, include_unmanaged, n)[b],
            ),
    decreases n,
{
    if n == 0 {
        assert(candidates(children, outcomes).take(0) == Seq::<Option<X11WindowView>>::empty());
    } else {
        let before = inventory_upto(children, outcomes, include_unmanaged, n - 1);
        let now = inventory_upto(children, outcomes, include_unmanaged, n);
        lemma_inventory_upto_step(children, outcomes, include_unmanaged, n - 1);
        if b < before.len() {
            lemma_inventory_upto_order(children, outcomes, include_unmanaged, n - 1, a, b);
            let (i, j) = choose|i: int, j: int|
                0 <= i < j < n - 1 && window_at(children, outcomes, i) == Some(before[a])
                    && window_at(children, outcomes, j) == Some(before[b]);
            assert(0 <= i < j < n && window_at(children, outcomes, i) == Some(now[a])
                && window_at(children, outcomes, j) == Some(now[b]));
        } else {
            assert(before.contains(before[a]));
            lemma_inventory_upto_members(
                children,
                outcomes,
                include_unmanaged,
                n - 1,
                before[a],
            );
            let i = choose|i: int|
                0 <= i < n - 1 && window_at(children, outcomes, i) == Some(before[a]);
            assert(0 <= i < n - 1 < n && window_at(children, outcomes, i) == Some(now[a])
                && window_at(children, outcomes, n - 1) == Some(now[b]));
        }
    }
}

/// An inventory keeps the order of the server: of two of its windows, the
/// one that comes first belongs to a child that comes first.
pub proof fn lemma_inventory_order(
    children: Seq<X11WindowId>,
    outcomes: Seq<Outcome>,
    include_unmanaged: bool,
    a: int,
    b: int,
)
    requires
        0 <= a < b < inventory(children, outcomes, include_unmanaged).len(),
    ensures
        exists|i: int, j: int|
            0 <= i < j < children.len() && window_at(children, outcomes, i) == Some(
                inventory(children, outcomes, include_unmanaged)[a],
            ) && window_at(children, outcomes, j) == Some(
                inventory(children, outcomes, include_unmanaged)[b],
            ),
{
    assert(candidates(children, outcomes).take(children.len() as int) == candidates(
        children,
        outcomes,
    ));
    lemma_inventory_upto_order(
        children,
        outcomes,
        include_unmanaged,
        children.len() as int,
        a,
        b,
    );
}

/// Whether the child at index `i` goes into the inventory.
pub open spec fn child_listed(
    children: Seq<X11WindowId>,
    outcomes: Seq<Outcome>,
    include_unmanaged: bool,
    i: int,
) -> bool {
    window_at(children, outcomes, i) matches Some(window) && listed(window, include_unmanaged)
}

proof fn lemma_inventory_upto_all_but_one(
    children: Seq<X11WindowId>,
    outcomes: Seq<Outcome>,
    include_unmanaged: bool,
    failed: int,
    n: int,
)
    requires
        0 <= n <= children.len(),
        0 <= failed < children.len(),
        !child_listed(children, outcomes, include_unmanaged, failed),
        forall|i: int|
            0 <= i < children.len() && i != failed ==> child_listed(
                children,
                outcomes,
                include_unmanaged,
                i,
            ),
    ensures
        inventory_upto(children, outcomes, include_unmanaged, n).len() == if failed < n {
            n - 1
        } else {
            n
        },
    decreases n,
{
    if n == 0 {
        assert(candidates(children, outcomes).take(0) == Seq::<Option<X11WindowView>>::empty());
    } else {
        lemma_inventory_upto_all_but_one(children, outcomes, include_unmanaged, failed, n - 1);
        lemma_inventory_upto_step(children, outcomes, include_unmanaged, n - 1);
        if n - 1 != failed {
            assert(child_listed(children, outcomes, include_unmanaged, n - 1));
        }
    }
}

/// One child that is left out costs the inventory one entry and no more:
/// where every child but one goes in, the inventory has one entry less than
/// there are children.
pub proof fn lemma_one_child_left_out(
    children: Seq<X11WindowId>,
    outcomes: Seq<Outcome>,
    include_unmanaged: bool,
    failed: int,
)
    requires
        0 <= failed < children.len(),
        !child_listed(children, outcomes, include_unmanaged, failed),
        forall|i: int|
            0 <= i < children.len() && i != failed ==> child_listed(
                children,
                outcomes,
                include_unmanaged,
                i,
            ),
    ensures
        inventory(children, outcomes, include_unmanaged).len() == children.len() - 1,
{
    assert(candidates(children, outcomes).take(children.len() as int) == candidates(
        children,
        outcomes,
    ));
    lemma_inventory_upto_all_but_one(
        children,
        outcomes,
        include_unmanaged,
        failed,
        children.len() as int,
    );
}

/// A child whose attributes or geometry the server did not deliver is left
/// out of every inventory, whatever else was answered about it.
pub proof fn lemma_failed_child_is_left_out(
    children: Seq<X11WindowId>,
    outcomes: Seq<Outcome>,
    include_unmanaged: bool,
    i: int,
)
    requires
        0 <= i < children.len(),
        3 * i + 2 < outcomes.len(),
        outcomes[3 * i] is Err || outcomes[3 * i + 1] is Err,
    ensures
        !child_listed(children, outcomes, include_unmanaged, i),
{
}

/// One failure does not abort an enumeration. Of `n` children of which one
/// fails on its attributes or its geometry while the others resolve, the
/// unfiltered inventory holds `n - 1`.
pub proof fn lemma_one_failure_costs_one_window(
    children: Seq<X11WindowId>,
    outcomes: Seq<Outcome>,
    failed: int,
)
    requires
        0 <= failed < children.len(),
        3 * failed + 2 < outcomes.len(),
        outcomes[3 * failed] is Err || outcomes[3 * failed + 1] is Err,
        forall|i: int|
            0 <= i < children.len() && i != failed ==> window_at(children, outcomes, i) is Some,
    ensures
        inventory(children, outcomes, true).len() == children.len() - 1,
{
    lemma_failed_child_is_left_out(children, outcomes, true, failed);
    assert forall|i: int| 0 <= i < children.len() && i != failed implies child_listed(
        children,
        outcomes,
        true,
        i,
    ) by {
        assert(window_at(children, outcomes, i) is Some);
    }
    lemma_one_child_left_out(children, outcomes, true, failed);
}

/// An inventory never holds more windows than there are children.
pub proof fn lemma_inventory_len(
    children: Seq<X11WindowId>,
    outcomes: Seq<Outcome>,
    include_unmanaged: bool,
)
    ensures
        inventory(children, outcomes, include_unmanaged).len() <= children.len(),
{
    assert(candidates(children, outcomes).take(children.len() as int) == candidates(
        children,
        outcomes,
    ));
    lemma_inventory_upto_len(children, outcomes, include_unmanaged, children.len() as int);
}

proof fn lemma_inventory_upto_len(
    children: Seq<X11WindowId>,
    outcomes: Seq<Outcome>,
    include_unmanaged: bool,
    n: int,
)
    requires
        0 <= n <= children.len(),
    ensures
        inventory_upto(children, outcomes, include_unmanaged, n).len() <= n,
    decreases n,
{
    if n == 0 {
        assert(candidates(children, outcomes).take(0) == Seq::<Option<X11WindowView>>::empty());
    } else {
        lemma_inventory_upto_len(children, outcomes, include_unmanaged, n - 1);
        lemma_inventory_upto_step(children, outcomes, include_unmanaged, n - 1);
    }
}

} // verus!
