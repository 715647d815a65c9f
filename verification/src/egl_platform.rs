//! What the setup of an OpenGL ES renderer comes to on a given machine.

use vstd::prelude::*;

use crate::display_cache::DrmNode;
use crate::egl_setup::{DeviceTarget, EglAction, EglError, EglEventView, EglState, SearchState};

verus! {

/// The replies of a machine.
pub struct EglPlatform {
    /// A display of the node is still alive.
    pub alive: bool,
    /// The render node that belongs to the requested node.
    pub render_node: Option<Result<DrmNode, ()>>,
    /// The number of devices.
    pub devices: Result<usize, ()>,
    /// The render node of each device.
    pub nodes: Seq<Result<Option<DrmNode>, ()>>,
    /// The extensions of each device.
    pub extensions: Seq<Seq<Seq<char>>>,
    /// The display can be created.
    pub display: bool,
    /// The context can be created.
    pub context: bool,
    /// The renderer can be created.
    pub renderer: bool,
}

/// The device that a renderer on the node has to be on.
pub open spec fn wanted_device(p: EglPlatform, node: Option<DrmNode>) -> DeviceTarget {
    match node {
        Some(node) => DeviceTarget::Node(crate::egl_setup::search_node(node, p.render_node)),
        None => DeviceTarget::Software,
    }
}

/// The `i`-th device of the platform is the wanted one.
pub open spec fn is_wanted(p: EglPlatform, target: DeviceTarget, i: int) -> bool {
    match target {
        DeviceTarget::Node(node) => p.nodes[i] == Ok::<Option<DrmNode>, ()>(Some(node)),
        DeviceTarget::Software => p.extensions[i].contains("EGL_MESA_device_software"@),
    }
}

/// The `i`-th device of the platform is the first that is wanted.
pub open spec fn is_first_wanted(p: EglPlatform, target: DeviceTarget, i: int) -> bool {
    &&& 0 <= i < p.devices->Ok_0
    &&& is_wanted(p, target, i)
    &&& forall|j: int| 0 <= j < i ==> !#[trigger] is_wanted(p, target, j)
}

/// What a search for the wanted device comes to.
pub open spec fn search_result(p: EglPlatform, target: DeviceTarget) -> SearchState {
    if p.devices is Err {
        SearchState::Failed(EglError::EnumerateDevices)
    } else if exists|i: int| is_first_wanted(p, target, i) {
        SearchState::Found((choose|i: int| is_first_wanted(p, target, i)) as usize)
    } else {
        SearchState::Failed(crate::egl_setup::not_found(target))
    }
}

/// What a setup ends with once it has a display.
pub open spec fn result_on_display(p: EglPlatform) -> EglState {
    if !p.context {
        EglState::Failed(EglError::CreateContext)
    } else if !p.renderer {
        EglState::Failed(EglError::CreateRenderer)
    } else {
        EglState::Ready
    }
}

/// What a setup for the node ends with on a platform.
pub open spec fn egl_result_on(p: EglPlatform, node: Option<DrmNode>) -> EglState {
    if p.alive {
        result_on_display(p)
    } else {
        match search_result(p, wanted_device(p, node)) {
            SearchState::Failed(error) => EglState::Failed(error),
            _ => if !p.display {
                EglState::Failed(EglError::CreateDisplay)
            } else {
                result_on_display(p)
            },
        }
    }
}

/// The reply of a platform to the call that a search asks for.
pub open spec fn search_reply(p: EglPlatform, search: SearchState) -> EglEventView {
    match search {
        SearchState::FindingRenderNode(_) => EglEventView::RenderNodeFound(p.render_node),
        SearchState::ListingDevices(_) => EglEventView::DevicesListed(p.devices),
        SearchState::CheckingDevice { target, count, next } => match target {
            DeviceTarget::Node(_) => EglEventView::RenderNode(p.nodes[next as int]),
            DeviceTarget::Software => EglEventView::Extensions(p.extensions[next as int]),
        },
        _ => EglEventView::DisplayStored,
    }
}

/// The reply of a platform to the call that a setup asks for.
pub open spec fn egl_reply(p: EglPlatform, setup: EglState) -> EglEventView {
    match setup {
        EglState::LookingUpDisplay(_) => EglEventView::DisplayLookedUp(p.alive),
        EglState::Searching { node, search } => search_reply(p, search),
        EglState::CreatingDisplay { .. } => EglEventView::DisplayCreated(p.display),
        EglState::CreatingContext => EglEventView::ContextCreated(p.context),
        EglState::CreatingRenderer => EglEventView::RendererCreated(p.renderer),
        _ => EglEventView::DisplayStored,
    }
}

/// How many kinds of call a setup has still before it.
pub open spec fn egl_phases_left(setup: EglState) -> nat {
    match setup {
        EglState::LookingUpDisplay(_) => 8,
        EglState::Searching { node, search } => match search {
            SearchState::FindingRenderNode(_) => 7,
            SearchState::ListingDevices(_) => 6,
            _ => 5,
        },
        EglState::CreatingDisplay { .. } => 4,
        EglState::StoringDisplay(_) => 3,
        EglState::CreatingContext => 2,
        EglState::CreatingRenderer => 1,
        EglState::Ready => 0,
        EglState::Failed(_) => 0,
    }
}

/// How many devices a setup has still to look at.
pub open spec fn egl_devices_left(setup: EglState) -> nat {
    match setup {
        EglState::Searching { node, search } => match search {
            SearchState::CheckingDevice { target, count, next } => if next < count {
                (count - next) as nat
            } else {
                0
            },
            _ => 0,
        },
        _ => 0,
    }
}

/// A setup can be in this state: it is looking at a device that there is, and it
/// has gone on from a search that has ended.
pub open spec fn is_reachable(setup: EglState) -> bool {
    match setup {
        EglState::Searching { node, search } => match search {
            SearchState::CheckingDevice { target, count, next } => next < count,
            SearchState::Found(_) => false,
            SearchState::Failed(_) => false,
            _ => true,
        },
        _ => true,
    }
}

/// What a setup ends with when a platform answers all its calls from here on.
pub open spec fn egl_run(p: EglPlatform, setup: EglState) -> EglState
    decreases egl_phases_left(setup), egl_devices_left(setup),
    when is_reachable(setup)
{
    if crate::egl_setup::egl_action(setup) is None {
        setup
    } else {
        egl_run(p, crate::egl_setup::egl_step(setup, egl_reply(p, setup)))
    }
}

/// The calls that a setup asks for, in order, when a platform answers all of them.
pub open spec fn egl_calls(p: EglPlatform, setup: EglState) -> Seq<EglAction>
    decreases egl_phases_left(setup), egl_devices_left(setup),
    when is_reachable(setup)
{
    match crate::egl_setup::egl_action(setup) {
        None => seq![],
        Some(action) => seq![action] + egl_calls(
            p,
            crate::egl_setup::egl_step(setup, egl_reply(p, setup)),
        ),
    }
}

/// The call only asks for something: it creates nothing and stores nothing.
pub open spec fn is_query(action: EglAction) -> bool {
    match action {
        EglAction::LookUpDisplay(_) => true,
        EglAction::FindRenderNode(_) => true,
        EglAction::ListDevices => true,
        EglAction::QueryRenderNode(_) => true,
        EglAction::QueryExtensions(_) => true,
        _ => false,
    }
}

/// The calls end with `last`, and all the calls before that only ask for something.
pub open spec fn ends_after_queries(calls: Seq<EglAction>, last: Seq<EglAction>) -> bool {
    &&& calls.len() >= last.len()
    &&& calls.skip(calls.len() - last.len()) == last
    &&& forall|k: int| 0 <= k < calls.len() - last.len() ==> is_query(#[trigger] calls[k])
}

proof fn lemma_query_before(action: EglAction, calls: Seq<EglAction>, last: Seq<EglAction>)
    requires
        is_query(action),
        ends_after_queries(calls, last),
    ensures
        ends_after_queries(seq![action] + calls, last),
{
    let all = seq![action] + calls;
    assert(all.skip(all.len() - last.len()) =~= calls.skip(calls.len() - last.len()));
    assert forall|k: int| 0 <= k < all.len() - last.len() implies is_query(#[trigger] all[k]) by {
        if k > 0 {
            assert(all[k] == calls[k - 1]);
        }
    }
}

/// A setup makes progress with every reply, whatever the reply is, so it ends.
pub proof fn law_egl_setup_makes_progress(setup: EglState, event: EglEventView)
    requires
        is_reachable(setup),
        crate::egl_setup::egl_awaits(setup, event),
    ensures
        ({
            let after = crate::egl_setup::egl_step(setup, event);
            &&& is_reachable(after)
            &&& {
                ||| egl_phases_left(after) < egl_phases_left(setup)
                ||| egl_phases_left(after) == egl_phases_left(setup) && egl_devices_left(after)
                    < egl_devices_left(setup)
            }
        }),
{
}

/// A setup asks for a call exactly as long as it has not ended, and what it waits
/// for then is a reply to that call.
pub proof fn law_egl_setup_asks_until_it_ends(p: EglPlatform, setup: EglState)
    requires
        is_reachable(setup),
    ensures
        crate::egl_setup::egl_action(setup) is None <==> setup is Ready || setup is Failed,
        crate::egl_setup::egl_action(setup) is Some ==> crate::egl_setup::egl_awaits(
            setup,
            egl_reply(p, setup),
        ),
{
}

proof fn lemma_first_wanted_is_unique(p: EglPlatform, target: DeviceTarget, i: int, j: int)
    requires
        is_first_wanted(p, target, i),
        is_first_wanted(p, target, j),
    ensures
        i == j,
{
    assert(is_wanted(p, target, i));
    assert(is_wanted(p, target, j));
}

/// The end of a setup's run from the point where its search has ended.
pub open spec fn after_search(
    p: EglPlatform,
    node: Option<DrmNode>,
    search: SearchState,
) -> EglState {
    egl_run(p, crate::egl_setup::searching(node, search))
}

proof fn lemma_run_checks_devices(
    p: EglPlatform,
    node: Option<DrmNode>,
    target: DeviceTarget,
    next: int,
)
    requires
        p.devices is Ok,
        0 <= next <= p.devices->Ok_0,
        forall|j: int| 0 <= j < next ==> !#[trigger] is_wanted(p, target, j),
    ensures
        after_search(p, node, crate::egl_setup::search_from(target, p.devices->Ok_0, next))
            == after_search(p, node, search_result(p, target)),
        search_result(p, target) is Found ==> ends_after_queries(
            egl_calls(
                p,
                crate::egl_setup::searching(
                    node,
                    crate::egl_setup::search_from(target, p.devices->Ok_0, next),
                ),
            ),
            egl_calls(
                p,
                EglState::CreatingDisplay { node, device: search_result(p, target)->Found_0 },
            ),
        ),
    decreases p.devices->Ok_0 - next,
{
    let count = p.devices->Ok_0;
    if next < count {
        let search = SearchState::CheckingDevice { target, count, next: next as usize };
        let setup = EglState::Searching { node, search };
        let after = crate::egl_setup::egl_step(setup, egl_reply(p, setup));
        assert(crate::egl_setup::searching(
            node,
            crate::egl_setup::search_from(target, count, next),
        ) == setup);
        assert(egl_run(p, setup) == egl_run(p, after));
        let action = crate::egl_setup::egl_action(setup)->0;
        assert(egl_calls(p, setup) == seq![action] + egl_calls(p, after));
        if is_wanted(p, target, next) {
            assert(is_first_wanted(p, target, next));
            let first = choose|i: int| is_first_wanted(p, target, i);
            lemma_first_wanted_is_unique(p, target, first, next);
            assert(after == crate::egl_setup::searching(node, SearchState::Found(next as usize)));
            let rest = egl_calls(p, after);
            assert(rest.skip(0) =~= rest);
            lemma_query_before(action, rest, rest);
        } else {
            lemma_run_checks_devices(p, node, target, next + 1);
            assert(after == crate::egl_setup::searching(
                node,
                crate::egl_setup::search_from(target, count, next + 1),
            ));
            if search_result(p, target) is Found {
                let rest = egl_calls(
                    p,
                    EglState::CreatingDisplay { node, device: search_result(p, target)->Found_0 },
                );
                lemma_query_before(action, egl_calls(p, after), rest);
            }
        }
    } else {
        assert(!exists|i: int| is_first_wanted(p, target, i)) by {
            assert forall|i: int| !is_first_wanted(p, target, i) by {
                if 0 <= i < count {
                    assert(!is_wanted(p, target, i));
                }
            }
        }
    }
}

proof fn lemma_run_searches(p: EglPlatform, node: Option<DrmNode>)
    ensures
        after_search(p, node, crate::egl_setup::search_for(node)) == after_search(
            p,
            node,
            search_result(p, wanted_device(p, node)),
        ),
        search_result(p, wanted_device(p, node)) is Found ==> ends_after_queries(
            egl_calls(p, crate::egl_setup::searching(node, crate::egl_setup::search_for(node))),
            egl_calls(
                p,
                EglState::CreatingDisplay {
                    node,
                    device: search_result(p, wanted_device(p, node))->Found_0,
                },
            ),
        ),
{
    let target = wanted_device(p, node);
    let listing = EglState::Searching { node, search: SearchState::ListingDevices(target) };
    let listed = crate::egl_setup::egl_step(listing, egl_reply(p, listing));
    assert(egl_run(p, listing) == egl_run(p, listed));
    assert(egl_calls(p, listing) == seq![EglAction::ListDevices] + egl_calls(p, listed));
    if p.devices is Ok {
        lemma_run_checks_devices(p, node, target, 0);
    }
    if node is Some {
        let start = EglState::Searching {
            node,
            search: SearchState::FindingRenderNode(node->0),
        };
        assert(crate::egl_setup::egl_step(start, egl_reply(p, start)) == listing);
        assert(egl_run(p, start) == egl_run(p, listing));
        assert(egl_calls(p, start) == seq![EglAction::FindRenderNode(node->0)] + egl_calls(
            p,
            listing,
        ));
    }
    if search_result(p, target) is Found {
        let rest = egl_calls(
            p,
            EglState::CreatingDisplay { node, device: search_result(p, target)->Found_0 },
        );
        lemma_query_before(EglAction::ListDevices, egl_calls(p, listed), rest);
        if node is Some {
            lemma_query_before(
                EglAction::FindRenderNode(node->0),
                egl_calls(p, listing),
                rest,
            );
        }
    }
}

/// A setup, answered by any platform from its start, ends with exactly what
/// [`egl_result_on`] says: a live display is used as it is; otherwise the display
/// is on the first wanted device, and the first thing that fails decides the error.
pub proof fn law_egl_setup_result(p: EglPlatform, node: Option<DrmNode>)
    ensures
        egl_run(p, EglState::LookingUpDisplay(node)) == egl_result_on(p, node),
{
    lemma_run_searches(p, node);
    reveal_with_fuel(egl_run, 7);
}

/// The device that is found is there, is the wanted one, and none before it is.
pub proof fn law_search_finds_first_wanted(p: EglPlatform, target: DeviceTarget)
    requires
        p.devices is Ok,
    ensures
        search_result(p, target) matches SearchState::Found(i) ==> is_first_wanted(
            p,
            target,
            i as int,
        ),
        !(search_result(p, target) is Found) ==> forall|i: int|
            0 <= i < p.devices->Ok_0 ==> !#[trigger] is_wanted(p, target, i),
{
    if exists|i: int| is_first_wanted(p, target, i) {
    } else {
        lemma_no_first_means_none(p, target, p.devices->Ok_0 as int);
    }
}

proof fn lemma_no_first_means_none(p: EglPlatform, target: DeviceTarget, n: int)
    requires
        0 <= n <= p.devices->Ok_0,
        !exists|i: int| is_first_wanted(p, target, i),
    ensures
        forall|i: int| 0 <= i < n ==> !#[trigger] is_wanted(p, target, i),
    decreases n,
{
    if n > 0 {
        lemma_no_first_means_none(p, target, n - 1);
        if is_wanted(p, target, n - 1) {
            assert(is_first_wanted(p, target, n - 1));
        }
    }
}

/// How many kinds of call a search has still before it.
pub open spec fn search_phases_left(search: SearchState) -> nat {
    match search {
        SearchState::FindingRenderNode(_) => 3,
        SearchState::ListingDevices(_) => 2,
        SearchState::CheckingDevice { .. } => 1,
        _ => 0,
    }
}

/// How many devices a search has still to look at.
pub open spec fn search_devices_left(search: SearchState) -> nat {
    match search {
        SearchState::CheckingDevice { target, count, next } => if next < count {
            (count - next) as nat
        } else {
            0
        },
        _ => 0,
    }
}

/// A search can be in this state: a device that it looks at is one of the listed.
pub open spec fn is_reachable_search(search: SearchState) -> bool {
    match search {
        SearchState::CheckingDevice { target, count, next } => next < count,
        _ => true,
    }
}

/// What a search ends with when a platform answers all its calls from here on.
pub open spec fn search_run(p: EglPlatform, search: SearchState) -> SearchState
    decreases search_phases_left(search), search_devices_left(search),
    when is_reachable_search(search)
{
    if crate::egl_setup::search_action(search) is None {
        search
    } else {
        search_run(p, crate::egl_setup::search_step(search, search_reply(p, search)))
    }
}

/// A search makes progress with every reply, whatever the reply is, so it ends. It
/// asks for a call exactly as long as it has not.
pub proof fn law_search_makes_progress(search: SearchState, event: EglEventView)
    requires
        is_reachable_search(search),
        crate::egl_setup::search_awaits(search, event),
    ensures
        ({
            let after = crate::egl_setup::search_step(search, event);
            &&& crate::egl_setup::search_action(search) is Some
            &&& is_reachable_search(after)
            &&& {
                ||| search_phases_left(after) < search_phases_left(search)
                ||| search_phases_left(after) == search_phases_left(search)
                    && search_devices_left(after) < search_devices_left(search)
            }
            &&& crate::egl_setup::search_action(after) is None <==> after is Found
                || after is Failed
        }),
{
}

proof fn lemma_search_checks_devices(p: EglPlatform, target: DeviceTarget, next: int)
    requires
        p.devices is Ok,
        0 <= next <= p.devices->Ok_0,
        forall|j: int| 0 <= j < next ==> !#[trigger] is_wanted(p, target, j),
    ensures
        search_run(p, crate::egl_setup::search_from(target, p.devices->Ok_0, next))
            == search_result(p, target),
    decreases p.devices->Ok_0 - next,
{
    let count = p.devices->Ok_0;
    if next < count {
        let search = SearchState::CheckingDevice { target, count, next: next as usize };
        let after = crate::egl_setup::search_step(search, search_reply(p, search));
        assert(search_run(p, search) == search_run(p, after));
        if is_wanted(p, target, next) {
            assert(is_first_wanted(p, target, next));
            let first = choose|i: int| is_first_wanted(p, target, i);
            lemma_first_wanted_is_unique(p, target, first, next);
        } else {
            lemma_search_checks_devices(p, target, next + 1);
        }
    } else {
        assert(!exists|i: int| is_first_wanted(p, target, i)) by {
            assert forall|i: int| !is_first_wanted(p, target, i) by {
                if 0 <= i < count {
                    assert(!is_wanted(p, target, i));
                }
            }
        }
    }
}

/// A search, answered by any platform from its start, ends with exactly what
/// [`search_result`] says of the device that it is for: the one with the render node
/// of the given node, or with the node itself where it has no usable render node; or
/// a software device.
pub proof fn law_search_result(p: EglPlatform, node: DrmNode)
    ensures
        search_run(p, SearchState::FindingRenderNode(node)) == search_result(
            p,
            DeviceTarget::Node(crate::egl_setup::search_node(node, p.render_node)),
        ),
        search_run(p, SearchState::ListingDevices(DeviceTarget::Software)) == search_result(
            p,
            DeviceTarget::Software,
        ),
{
    let target = DeviceTarget::Node(crate::egl_setup::search_node(node, p.render_node));
    if p.devices is Ok {
        lemma_search_checks_devices(p, target, 0);
        lemma_search_checks_devices(p, DeviceTarget::Software, 0);
    }
    reveal_with_fuel(search_run, 3);
}

/// While a display of the node is alive, a setup makes no other: it only creates a
/// context and a renderer on that display.
pub proof fn law_live_display_is_shared(p: EglPlatform, node: Option<DrmNode>)
    requires
        p.alive,
    ensures
        egl_calls(p, EglState::LookingUpDisplay(node)) == (if p.context {
            seq![
                EglAction::LookUpDisplay(node),
                EglAction::CreateContext,
                EglAction::CreateRenderer,
            ]
        } else {
            seq![EglAction::LookUpDisplay(node), EglAction::CreateContext]
        }),
{
    reveal_with_fuel(egl_calls, 4);
    if p.context {
        assert(egl_calls(p, EglState::LookingUpDisplay(node)) =~= seq![
            EglAction::LookUpDisplay(node),
            EglAction::CreateContext,
            EglAction::CreateRenderer,
        ]);
    } else {
        assert(egl_calls(p, EglState::LookingUpDisplay(node)) =~= seq![
            EglAction::LookUpDisplay(node),
            EglAction::CreateContext,
        ]);
    }
}

/// A setup that succeeds without a live display makes one, on the first wanted
/// device, and stores it under the node that was asked for. Up to there it only asks
/// for things; after that it creates a context and a renderer, and nothing more.
pub proof fn law_new_display_is_stored(p: EglPlatform, node: Option<DrmNode>)
    requires
        !p.alive,
        egl_run(p, EglState::LookingUpDisplay(node)) is Ready,
    ensures
        exists|device: usize| #[trigger]
            is_first_wanted(p, wanted_device(p, node), device as int) && ends_after_queries(
                egl_calls(p, EglState::LookingUpDisplay(node)),
                seq![
                    EglAction::CreateDisplay(device),
                    EglAction::StoreDisplay(node),
                    EglAction::CreateContext,
                    EglAction::CreateRenderer,
                ],
            ),
{
    law_egl_setup_result(p, node);
    lemma_run_searches(p, node);
    let target = wanted_device(p, node);
    law_search_finds_first_wanted(p, target);
    let device = search_result(p, target)->Found_0;
    let making = EglState::CreatingDisplay { node, device };
    let last = seq![
        EglAction::CreateDisplay(device),
        EglAction::StoreDisplay(node),
        EglAction::CreateContext,
        EglAction::CreateRenderer,
    ];
    assert(egl_calls(p, making) =~= last) by {
        reveal_with_fuel(egl_calls, 5);
    }
    let start = EglState::LookingUpDisplay(node);
    let searching = crate::egl_setup::egl_step(start, egl_reply(p, start));
    assert(egl_calls(p, start) == seq![EglAction::LookUpDisplay(node)] + egl_calls(p, searching));
    lemma_query_before(EglAction::LookUpDisplay(node), egl_calls(p, searching), last);
    assert(is_first_wanted(p, target, device as int));
}

/// The displays known after a setup, of those known before, when a platform answers
/// all its calls from here on and `display` is the display that it makes.
pub open spec fn displays_after<W>(
    p: EglPlatform,
    setup: EglState,
    known: Map<Option<DrmNode>, W>,
    display: W,
) -> Map<Option<DrmNode>, W>
    decreases egl_phases_left(setup), egl_devices_left(setup),
    when is_reachable(setup)
{
    let after = crate::egl_setup::egl_step(setup, egl_reply(p, setup));
    match crate::egl_setup::egl_action(setup) {
        None => known,
        Some(EglAction::StoreDisplay(node)) => displays_after(
            p,
            after,
            known.insert(node, display),
            display,
        ),
        Some(_) => displays_after(p, after, known, display),
    }
}

/// The displays known after a search has come to its end, and the setup with it.
pub open spec fn displays_after_search<W>(
    p: EglPlatform,
    node: Option<DrmNode>,
    search: SearchState,
    known: Map<Option<DrmNode>, W>,
    display: W,
) -> Map<Option<DrmNode>, W> {
    displays_after(p, crate::egl_setup::searching(node, search), known, display)
}

proof fn lemma_checking_stores_nothing<W>(
    p: EglPlatform,
    node: Option<DrmNode>,
    target: DeviceTarget,
    next: int,
    known: Map<Option<DrmNode>, W>,
    display: W,
)
    requires
        p.devices is Ok,
        0 <= next <= p.devices->Ok_0,
        forall|j: int| 0 <= j < next ==> !#[trigger] is_wanted(p, target, j),
    ensures
        displays_after_search(
            p,
            node,
            crate::egl_setup::search_from(target, p.devices->Ok_0, next),
            known,
            display,
        ) == displays_after_search(p, node, search_result(p, target), known, display),
    decreases p.devices->Ok_0 - next,
{
    let count = p.devices->Ok_0;
    if next < count {
        let search = SearchState::CheckingDevice { target, count, next: next as usize };
        let setup = EglState::Searching { node, search };
        let after = crate::egl_setup::egl_step(setup, egl_reply(p, setup));
        assert(displays_after(p, setup, known, display) == displays_after(
            p,
            after,
            known,
            display,
        ));
        if is_wanted(p, target, next) {
            assert(is_first_wanted(p, target, next));
            let first = choose|i: int| is_first_wanted(p, target, i);
            lemma_first_wanted_is_unique(p, target, first, next);
            assert(after == crate::egl_setup::searching(node, SearchState::Found(next as usize)));
        } else {
            lemma_checking_stores_nothing(p, node, target, next + 1, known, display);
            assert(after == crate::egl_setup::searching(
                node,
                crate::egl_setup::search_from(target, count, next + 1),
            ));
        }
    } else {
        assert(!exists|i: int| is_first_wanted(p, target, i)) by {
            assert forall|i: int| !is_first_wanted(p, target, i) by {
                if 0 <= i < count {
                    assert(!is_wanted(p, target, i));
                }
            }
        }
    }
}

/// What a setup does to the known displays: it stores the display that it makes
/// under the requested node, whether or not a context and a renderer come about on
/// it, and it changes nothing where it makes no display.
pub proof fn law_setup_changes_known_displays<W>(
    p: EglPlatform,
    node: Option<DrmNode>,
    known: Map<Option<DrmNode>, W>,
    display: W,
)
    ensures
        displays_after(p, EglState::LookingUpDisplay(node), known, display) == (if !p.alive
            && p.display && search_result(p, wanted_device(p, node)) is Found {
            known.insert(node, display)
        } else {
            known
        }),
{
    let target = wanted_device(p, node);
    let listing = EglState::Searching { node, search: SearchState::ListingDevices(target) };
    let listed = crate::egl_setup::egl_step(listing, egl_reply(p, listing));
    assert(displays_after(p, listing, known, display) == displays_after(
        p,
        listed,
        known,
        display,
    ));
    if p.devices is Ok {
        lemma_checking_stores_nothing(p, node, target, 0, known, display);
    }
    if node is Some {
        let start = EglState::Searching {
            node,
            search: SearchState::FindingRenderNode(node->0),
        };
        assert(crate::egl_setup::egl_step(start, egl_reply(p, start)) == listing);
        assert(displays_after(p, start, known, display) == displays_after(
            p,
            listing,
            known,
            display,
        ));
    }
    reveal_with_fuel(displays_after, 6);
}

/// The display that a setup makes is the one that the next setup for the same node
/// looks up, and no setup touches the displays of other nodes.
pub proof fn law_next_setup_finds_display<W>(
    p: EglPlatform,
    node: Option<DrmNode>,
    known: Map<Option<DrmNode>, W>,
    display: W,
    other: Option<DrmNode>,
)
    requires
        !p.alive,
        egl_run(p, EglState::LookingUpDisplay(node)) is Ready,
        other != node,
    ensures
        ({
            let after = displays_after(p, EglState::LookingUpDisplay(node), known, display);
            &&& crate::egl_setup::egl_action(EglState::LookingUpDisplay(node)) == Some(
                EglAction::LookUpDisplay(node),
            )
            &&& after.dom().contains(node)
            &&& after[node] == display
            &&& after.dom().contains(other) == known.dom().contains(other)
            &&& known.dom().contains(other) ==> after[other] == known[other]
        }),
{
    law_setup_changes_known_displays(p, node, known, display);
    law_egl_setup_result(p, node);
}

} // verus!
