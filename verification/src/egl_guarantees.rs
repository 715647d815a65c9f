//! What a caller of the EGL setup can rely on.
//!
//! The laws speak of the operations through what they return for what they are given:
//! the replies that a search or a setup was handed and the calls that it asked for.

use vstd::prelude::*;

use crate::display_cache::DrmNode;
use crate::egl_setup::{
    get_egl_device_for_node, is_software_device, setup_renderer, DeviceSearch, DeviceTarget,
    EglAction, EglError, EglEvent, EglSetup, EglState, SearchState,
};

verus! {

/// A device renders in software exactly when some extension of it, at any position, is
/// `EGL_MESA_device_software`.
pub proof fn law_software_name_at_any_position(extensions: Vec<String>, software: bool)
    requires
        call_ensures(is_software_device, (&extensions,), software),
    ensures
        software <==> exists|j: int|
            0 <= j < extensions@.len() && #[trigger] extensions@[j]@
                == "EGL_MESA_device_software"@,
{
    lemma_software_name(extensions);
}

proof fn lemma_software_name(extensions: Vec<String>)
    ensures
        extensions.deep_view().contains("EGL_MESA_device_software"@) <==> exists|j: int|
            0 <= j < extensions@.len() && #[trigger] extensions@[j]@
                == "EGL_MESA_device_software"@,
{
    let names = extensions.deep_view();
    assert(names.len() == extensions@.len());
    assert forall|j: int| 0 <= j < extensions@.len() implies #[trigger] extensions@[j]@
        == names[j] by {
        assert(names[j] == extensions@[j].deep_view());
    }
    if names.contains("EGL_MESA_device_software"@) {
        let j = choose|j: int| 0 <= j < names.len() && names[j] == "EGL_MESA_device_software"@;
        assert(extensions@[j]@ == "EGL_MESA_device_software"@);
    }
}

/// Only which names a device reports decides whether it renders in software: the order
/// of the names and how often each occurs make no difference.
pub proof fn law_software_ignores_order(
    extensions: Vec<String>,
    others: Vec<String>,
    software: bool,
    also: bool,
)
    requires
        call_ensures(is_software_device, (&extensions,), software),
        call_ensures(is_software_device, (&others,), also),
        forall|j: int|
            0 <= j < extensions@.len() ==> exists|k: int|
                0 <= k < others@.len() && #[trigger] others@[k]@ == #[trigger] extensions@[j]@,
        forall|k: int|
            0 <= k < others@.len() ==> exists|j: int|
                0 <= j < extensions@.len() && #[trigger] extensions@[j]@
                    == #[trigger] others@[k]@,
    ensures
        software == also,
{
    lemma_software_name(extensions);
    lemma_software_name(others);
}

/// The texts that the errors are reported with.
pub proof fn law_egl_error_texts(error: EglError, text: &'static str)
    requires
        call_ensures(EglError::message, (&error,), text),
    ensures
        error is EnumerateDevices ==> text@ == "Failed to enumerate EGLDevices"@,
        error is NoDeviceForNode ==> text@ == "Unable to find EGLDevice for drm-node"@,
        error is NoSoftwareDevice ==> text@ == "Failed to find software device"@,
        error is CreateDisplay ==> text@ == "Failed to create EGLDisplay"@,
        error is CreateContext ==> text@ == "Failed to initialize EGL context"@,
        error is CreateRenderer ==> text@ == "Failed to initialize renderer"@,
{
}

/// The search asks for the call, takes the reply to it and goes on.
pub open spec fn search_goes_on(
    search: DeviceSearch,
    action: EglAction,
    event: EglEvent,
    next: DeviceSearch,
) -> bool {
    &&& call_ensures(DeviceSearch::action, (&search,), Some(action))
    &&& call_ensures(DeviceSearch::accepts, (&search, &event), true)
    &&& call_ensures(DeviceSearch::advance, (search, event), next)
}

/// A run of a new search, for the device of a node or, without a node, for a software
/// device: at each point it asked for `actions[i]` and was handed `events[i]`.
pub open spec fn is_search(
    node: Option<DrmNode>,
    searches: Seq<DeviceSearch>,
    actions: Seq<EglAction>,
    events: Seq<EglEvent>,
) -> bool {
    &&& searches.len() == events.len() + 1
    &&& actions.len() == events.len()
    &&& match node {
        Some(n) => call_ensures(get_egl_device_for_node, (&n,), searches[0]),
        None => call_ensures(DeviceSearch::for_software, (), searches[0]),
    }
    &&& forall|i: int|
        #![trigger actions[i]]
        #![trigger events[i]]
        0 <= i < events.len() ==> search_goes_on(
            searches[i],
            actions[i],
            events[i],
            searches[i + 1],
        )
}

/// What a search shows to its driver: the call that it asks for and its state.
pub open spec fn search_shows(
    search: DeviceSearch,
    asked: Option<EglAction>,
    state: SearchState,
) -> bool {
    &&& call_ensures(DeviceSearch::action, (&search,), asked)
    &&& call_ensures(DeviceSearch::state, (&search,), state)
}

/// The target of a search for which the reply about the render node is the `o`-th.
spec fn aims(
    target: DeviceTarget,
    node: Option<DrmNode>,
    events: Seq<EglEvent>,
    o: int,
) -> bool {
    match node {
        Some(n) => {
            &&& events[o] is RenderNodeFound
            &&& target == DeviceTarget::Node(
                match events[o]->RenderNodeFound_0 {
                    Some(Ok(r)) => r,
                    _ => n,
                },
            )
        },
        None => target == DeviceTarget::Software,
    }
}

/// The position of the reply that lists the devices.
spec fn listed_at(node: Option<DrmNode>, o: int) -> int {
    if node is Some {
        o + 1
    } else {
        o
    }
}

/// How the point that a search has reached goes together with the replies.
spec fn search_fits(
    search: SearchState,
    node: Option<DrmNode>,
    events: Seq<EglEvent>,
    o: int,
    i: int,
) -> bool {
    let listed = listed_at(node, o);
    match search {
        SearchState::FindingRenderNode(n) => i == o && node == Some(n),
        SearchState::ListingDevices(target) => i == listed && aims(target, node, events, o),
        SearchState::CheckingDevice { target, count, next } => {
            &&& aims(target, node, events, o)
            &&& next < count
            &&& i == listed + 1 + next
            &&& events[listed] == EglEvent::DevicesListed(Ok(count))
            &&& forall|j: int|
                listed < j < i ==> !crate::egl_setup::is_match(target, #[trigger] events[j]@)
        },
        SearchState::Found(device) => {
            &&& i == listed + 2 + device
            &&& events[listed] is DevicesListed
            &&& events[listed]->DevicesListed_0 is Ok
            &&& device < events[listed]->DevicesListed_0->Ok_0
            &&& exists|target: DeviceTarget| #[trigger]
                aims(target, node, events, o) && crate::egl_setup::is_match(
                    target,
                    events[i - 1]@,
                ) && forall|j: int|
                    listed < j < i - 1 ==> !crate::egl_setup::is_match(target, #[trigger] events[j]@)
        },
        SearchState::Failed(error) => {
            &&& i > listed
            &&& events[listed] is DevicesListed
            &&& match events[listed]->DevicesListed_0 {
                Ok(count) => {
                    &&& i == listed + 1 + count
                    &&& error == if node is Some {
                        EglError::NoDeviceForNode
                    } else {
                        EglError::NoSoftwareDevice
                    }
                    &&& exists|target: DeviceTarget| #[trigger]
                        aims(target, node, events, o) && forall|j: int|
                            listed < j < i ==> !crate::egl_setup::is_match(
                                target,
                                #[trigger] events[j]@,
                            )
                },
                Err(_) => error == EglError::EnumerateDevices && i == listed + 1,
            }
        },
    }
}

proof fn lemma_search_step_fits(
    search: SearchState,
    node: Option<DrmNode>,
    events: Seq<EglEvent>,
    o: int,
    i: int,
)
    requires
        0 <= o <= i < events.len(),
        search_fits(search, node, events, o, i),
        crate::egl_setup::search_awaits(search, events[i]@),
    ensures
        search_fits(crate::egl_setup::search_step(search, events[i]@), node, events, o, i + 1),
{
    match search {
        SearchState::ListingDevices(target) => {
            assert(aims(target, node, events, o));
        },
        SearchState::CheckingDevice { target, count, next } => {
            assert(aims(target, node, events, o));
        },
        _ => {},
    }
}

proof fn lemma_search_fits(
    node: Option<DrmNode>,
    searches: Seq<DeviceSearch>,
    actions: Seq<EglAction>,
    events: Seq<EglEvent>,
    i: int,
)
    requires
        is_search(node, searches, actions, events),
        0 <= i <= events.len(),
    ensures
        search_fits(searches[i]@, node, events, 0, i),
    decreases i,
{
    if i > 0 {
        lemma_search_fits(node, searches, actions, events, i - 1);
        assert(search_goes_on(
            searches[i - 1],
            actions[i - 1],
            events[i - 1],
            searches[i - 1 + 1],
        ));
        lemma_search_step_fits(searches[i - 1]@, node, events, 0, i - 1);
    }
}

/// A search for the device of a node first asks for the render node of that node, then
/// for the devices, whatever the first reply was.
pub proof fn law_node_search_starts(
    node: DrmNode,
    searches: Seq<DeviceSearch>,
    actions: Seq<EglAction>,
    events: Seq<EglEvent>,
    asked: Option<EglAction>,
    state: SearchState,
)
    requires
        is_search(Some(node), searches, actions, events),
        search_shows(searches[events.len() as int], asked, state),
    ensures
        events.len() == 0 ==> asked == Some(EglAction::FindRenderNode(node)) && state
            == SearchState::FindingRenderNode(node),
        events.len() == 1 ==> actions[0] == EglAction::FindRenderNode(node) && events[0]
            is RenderNodeFound && asked == Some(EglAction::ListDevices),
        events.len() == 1 ==> (events[0]->RenderNodeFound_0 matches Some(Ok(r)) ==> state
            == SearchState::ListingDevices(DeviceTarget::Node(r))),
        events.len() == 1 && (events[0]->RenderNodeFound_0 is None
            || events[0]->RenderNodeFound_0->0 is Err) ==> state == SearchState::ListingDevices(
            DeviceTarget::Node(node),
        ),
        events.len() >= 2 ==> actions[1] == EglAction::ListDevices && events[1] is DevicesListed,
{
    lemma_search_fits(Some(node), searches, actions, events, events.len() as int);
    lemma_search_fits(Some(node), searches, actions, events, 0);
    if events.len() >= 1 {
        lemma_search_fits(Some(node), searches, actions, events, 1);
        assert(search_goes_on(searches[0], actions[0], events[0], searches[1]));
    }
    if events.len() >= 2 {
        assert(search_goes_on(searches[1], actions[1], events[1], searches[2]));
    }
}

/// A search for the device of a node is by its render node where that could be opened,
/// else by the node itself, whatever type the node has. The devices are asked in order,
/// the first that reports the wanted node is found, and where none does there is no
/// device for the node.
pub proof fn law_node_search(
    node: DrmNode,
    wanted: DrmNode,
    searches: Seq<DeviceSearch>,
    actions: Seq<EglAction>,
    events: Seq<EglEvent>,
    asked: Option<EglAction>,
    state: SearchState,
)
    requires
        is_search(Some(node), searches, actions, events),
        events.len() >= 2,
        events[0] == EglEvent::RenderNodeFound(Some(Ok(wanted))) || (events[0]
            == EglEvent::RenderNodeFound(None) && wanted == node) || (events[0]
            == EglEvent::RenderNodeFound(Some(Err(()))) && wanted == node),
        search_shows(searches[events.len() as int], asked, state),
    ensures
        ({
            let n = events.len() as int;
            match events[1]->DevicesListed_0 {
                Err(_) => n == 2 && state == SearchState::Failed(EglError::EnumerateDevices)
                    && asked is None,
                Ok(count) => {
                    &&& n <= count + 2
                    &&& forall|j: int|
                        2 <= j < n ==> #[trigger] actions[j] == EglAction::QueryRenderNode(
                            (j - 2) as usize,
                        ) && events[j] is RenderNode
                    &&& forall|j: int|
                        2 <= j < n - 1 ==> #[trigger] events[j] != EglEvent::RenderNode(
                            Ok(Some(wanted)),
                        )
                    &&& if n > 2 && events[n - 1] == EglEvent::RenderNode(Ok(Some(wanted))) {
                        state == SearchState::Found((n - 3) as usize) && asked is None
                    } else if n < count + 2 {
                        asked == Some(EglAction::QueryRenderNode((n - 2) as usize)) && state
                            == (SearchState::CheckingDevice {
                            target: DeviceTarget::Node(wanted),
                            count,
                            next: (n - 2) as usize,
                        })
                    } else {
                        state == SearchState::Failed(EglError::NoDeviceForNode) && asked is None
                    }
                },
            }
        }),
{
    let n = events.len() as int;
    lemma_search_fits(Some(node), searches, actions, events, n);
    assert forall|j: int| 0 <= j < n implies search_fits(
        (#[trigger] searches[j])@,
        Some(node),
        events,
        0,
        j,
    ) by {
        lemma_search_fits(Some(node), searches, actions, events, j);
    }
    assert(search_goes_on(searches[1], actions[1], events[1], searches[2]));
    assert forall|j: int| 2 <= j < n implies #[trigger] actions[j] == EglAction::QueryRenderNode(
        (j - 2) as usize,
    ) && events[j] is RenderNode by {
        assert(search_goes_on(searches[j], actions[j], events[j], searches[j + 1]));
    }
    assert forall|j: int| 2 <= j < n implies (#[trigger] events[j] == EglEvent::RenderNode(
        Ok(Some(wanted)),
    ) <==> crate::egl_setup::is_match(DeviceTarget::Node(wanted), events[j]@)) by {
        assert(search_goes_on(searches[j], actions[j], events[j], searches[j + 1]));
    }
}

/// A search for a software device starts with the listing of the devices.
pub proof fn law_software_search_starts(
    searches: Seq<DeviceSearch>,
    actions: Seq<EglAction>,
    events: Seq<EglEvent>,
    asked: Option<EglAction>,
    state: SearchState,
)
    requires
        is_search(None, searches, actions, events),
        search_shows(searches[events.len() as int], asked, state),
    ensures
        events.len() == 0 ==> asked == Some(EglAction::ListDevices) && state
            == SearchState::ListingDevices(DeviceTarget::Software),
        events.len() >= 1 ==> actions[0] == EglAction::ListDevices && events[0] is DevicesListed,
{
    lemma_search_fits(None, searches, actions, events, 0);
    if events.len() >= 1 {
        assert(search_goes_on(searches[0], actions[0], events[0], searches[1]));
    }
}

/// A search for a software device asks the devices in order for their extensions. The
/// first with `EGL_MESA_device_software` at any position of its list is found, and where
/// none has it there is no software device.
pub proof fn law_software_search(
    searches: Seq<DeviceSearch>,
    actions: Seq<EglAction>,
    events: Seq<EglEvent>,
    asked: Option<EglAction>,
    state: SearchState,
)
    requires
        is_search(None, searches, actions, events),
        events.len() >= 1,
        search_shows(searches[events.len() as int], asked, state),
    ensures
        ({
            let n = events.len() as int;
            match events[0]->DevicesListed_0 {
                Err(_) => n == 1 && state == SearchState::Failed(EglError::EnumerateDevices)
                    && asked is None,
                Ok(count) => {
                    &&& n <= count + 1
                    &&& forall|j: int|
                        1 <= j < n ==> #[trigger] actions[j] == EglAction::QueryExtensions(
                            (j - 1) as usize,
                        ) && events[j] is Extensions
                    &&& forall|j: int, k: int|
                        1 <= j < n - 1 && 0 <= k < events[j]->Extensions_0@.len()
                            ==> #[trigger] events[j]->Extensions_0@[k]@
                            != "EGL_MESA_device_software"@
                    &&& if n > 1 && exists|k: int|
                        0 <= k < events[n - 1]->Extensions_0@.len() && #[trigger] events[n
                            - 1]->Extensions_0@[k]@ == "EGL_MESA_device_software"@ {
                        state == SearchState::Found((n - 2) as usize) && asked is None
                    } else if n < count + 1 {
                        asked == Some(EglAction::QueryExtensions((n - 1) as usize)) && state
                            == (SearchState::CheckingDevice {
                            target: DeviceTarget::Software,
                            count,
                            next: (n - 1) as usize,
                        })
                    } else {
                        state == SearchState::Failed(EglError::NoSoftwareDevice) && asked is None
                    }
                },
            }
        }),
{
    let n = events.len() as int;
    lemma_search_fits(None, searches, actions, events, n);
    assert forall|j: int| 0 <= j < n implies search_fits(
        (#[trigger] searches[j])@,
        None,
        events,
        0,
        j,
    ) by {
        lemma_search_fits(None, searches, actions, events, j);
    }
    assert(search_goes_on(searches[0], actions[0], events[0], searches[1]));
    assert forall|j: int| 1 <= j < n implies #[trigger] actions[j] == EglAction::QueryExtensions(
        (j - 1) as usize,
    ) && events[j] is Extensions by {
        assert(search_goes_on(searches[j], actions[j], events[j], searches[j + 1]));
    }
    assert forall|j: int| 1 <= j < n implies (crate::egl_setup::is_match(
        DeviceTarget::Software,
        #[trigger] events[j]@,
    ) <==> exists|k: int|
        0 <= k < events[j]->Extensions_0@.len() && #[trigger] events[j]->Extensions_0@[k]@
            == "EGL_MESA_device_software"@) by {
        assert(search_goes_on(searches[j], actions[j], events[j], searches[j + 1]));
        lemma_software_name(events[j]->Extensions_0);
    }
}

/// The setup asks for the call, takes the reply to it and goes on.
pub open spec fn setup_goes_on(
    setup: EglSetup,
    action: EglAction,
    event: EglEvent,
    next: EglSetup,
) -> bool {
    &&& call_ensures(EglSetup::action, (&setup,), Some(action))
    &&& call_ensures(EglSetup::accepts, (&setup, &event), true)
    &&& call_ensures(EglSetup::advance, (setup, event), next)
}

/// A run of a new setup on a node: at each point it asked for `actions[i]` and was
/// handed `events[i]`.
pub open spec fn is_setup(
    node: Option<DrmNode>,
    setups: Seq<EglSetup>,
    actions: Seq<EglAction>,
    events: Seq<EglEvent>,
) -> bool {
    &&& setups.len() == events.len() + 1
    &&& actions.len() == events.len()
    &&& call_ensures(setup_renderer, (node,), setups[0])
    &&& forall|i: int|
        #![trigger actions[i]]
        #![trigger events[i]]
        0 <= i < events.len() ==> setup_goes_on(setups[i], actions[i], events[i], setups[i + 1])
}

/// What a setup shows to its driver: the call that it asks for and its state.
pub open spec fn setup_shows(setup: EglSetup, asked: Option<EglAction>, state: EglState) -> bool {
    &&& call_ensures(EglSetup::action, (&setup,), asked)
    &&& call_ensures(EglSetup::state, (&setup,), state)
}

/// How the point that a setup has reached goes together with what was asked and replied.
spec fn setup_fits(
    setup: EglState,
    node: Option<DrmNode>,
    actions: Seq<EglAction>,
    events: Seq<EglEvent>,
    i: int,
) -> bool {
    match setup {
        EglState::LookingUpDisplay(n) => i == 0 && n == node,
        EglState::Searching { node: n, search } => {
            &&& n == node
            &&& i >= 1
            &&& events[0] == EglEvent::DisplayLookedUp(false)
            &&& search_fits(search, node, events, 1, i)
            &&& !(search is Found)
            &&& !(search is Failed)
        },
        EglState::CreatingDisplay { node: n, device } => {
            &&& n == node
            &&& i >= 1
            &&& events[0] == EglEvent::DisplayLookedUp(false)
            &&& search_fits(SearchState::Found(device), node, events, 1, i)
        },
        EglState::StoringDisplay(n) => {
            &&& n == node
            &&& i >= 1
            &&& actions[i - 1] is CreateDisplay
        },
        EglState::CreatingContext => {
            &&& i >= 1
            &&& (i == 1 && events[0] == EglEvent::DisplayLookedUp(true)) || actions[i - 1]
                == EglAction::StoreDisplay(node)
        },
        EglState::CreatingRenderer => i >= 2 && actions[i - 1] is CreateContext,
        EglState::Ready => i >= 3 && actions[i - 1] is CreateRenderer,
        EglState::Failed(_) => i >= 1,
    }
}

proof fn lemma_setup_fits(
    node: Option<DrmNode>,
    setups: Seq<EglSetup>,
    actions: Seq<EglAction>,
    events: Seq<EglEvent>,
    i: int,
)
    requires
        is_setup(node, setups, actions, events),
        0 <= i <= events.len(),
    ensures
        setup_fits(setups[i]@, node, actions, events, i),
    decreases i,
{
    if i > 0 {
        lemma_setup_fits(node, setups, actions, events, i - 1);
        assert(setup_goes_on(setups[i - 1], actions[i - 1], events[i - 1], setups[i - 1 + 1]));
        match setups[i - 1]@ {
            EglState::Searching { node: n, search } => {
                lemma_search_step_fits(search, node, events, 1, i - 1);
            },
            _ => {},
        }
    }
}

/// A setup starts by looking for a display of its node.
pub proof fn law_egl_setup_starts_with_lookup(
    node: Option<DrmNode>,
    setup: EglSetup,
    asked: Option<EglAction>,
    state: EglState,
)
    requires
        call_ensures(setup_renderer, (node,), setup),
        setup_shows(setup, asked, state),
    ensures
        asked == Some(EglAction::LookUpDisplay(node)),
        state == EglState::LookingUpDisplay(node),
{
}

/// At every point of a run there is a call to make exactly where the setup has neither
/// succeeded nor failed.
pub proof fn law_egl_setup_asks_or_has_ended(
    node: Option<DrmNode>,
    setups: Seq<EglSetup>,
    actions: Seq<EglAction>,
    events: Seq<EglEvent>,
    i: int,
    asked: Option<EglAction>,
    state: EglState,
)
    requires
        is_setup(node, setups, actions, events),
        0 <= i < events.len(),
        setup_shows(setups[i + 1], asked, state),
    ensures
        asked is None <==> state is Ready || state is Failed,
{
    lemma_setup_fits(node, setups, actions, events, i);
    lemma_setup_fits(node, setups, actions, events, i + 1);
    assert(setup_goes_on(setups[i], actions[i], events[i], setups[i + 1]));
}

/// A display that is still alive is used at once. Otherwise a device is searched for: by
/// the node where there is one, else one that renders in software.
pub proof fn law_after_lookup(
    node: Option<DrmNode>,
    setups: Seq<EglSetup>,
    actions: Seq<EglAction>,
    events: Seq<EglEvent>,
    i: int,
    asked: Option<EglAction>,
    state: EglState,
)
    requires
        is_setup(node, setups, actions, events),
        0 <= i < events.len(),
        setup_shows(setups[i + 1], asked, state),
        events[i] is DisplayLookedUp,
    ensures
        i == 0,
        actions[i] == EglAction::LookUpDisplay(node),
        events[i]->DisplayLookedUp_0 ==> asked == Some(EglAction::CreateContext) && state
            == EglState::CreatingContext,
        !events[i]->DisplayLookedUp_0 && node is Some ==> asked == Some(
            EglAction::FindRenderNode(node->0),
        ) && state == (EglState::Searching {
            node,
            search: SearchState::FindingRenderNode(node->0),
        }),
        !events[i]->DisplayLookedUp_0 && node is None ==> asked == Some(EglAction::ListDevices)
            && state == (EglState::Searching {
            node,
            search: SearchState::ListingDevices(DeviceTarget::Software),
        }),
{
    lemma_setup_fits(node, setups, actions, events, i);
    lemma_setup_fits(node, setups, actions, events, i + 1);
    assert(setup_goes_on(setups[i], actions[i], events[i], setups[i + 1]));
}

/// Whether or not a render node was found, the devices are listed next.
pub proof fn law_after_render_node(
    node: Option<DrmNode>,
    setups: Seq<EglSetup>,
    actions: Seq<EglAction>,
    events: Seq<EglEvent>,
    i: int,
    asked: Option<EglAction>,
    state: EglState,
)
    requires
        is_setup(node, setups, actions, events),
        0 <= i < events.len(),
        setup_shows(setups[i + 1], asked, state),
        events[i] is RenderNodeFound,
    ensures
        i == 1,
        node is Some,
        events[0] == EglEvent::DisplayLookedUp(false),
        actions[i] == EglAction::FindRenderNode(node->0),
        asked == Some(EglAction::ListDevices),
        state == (EglState::Searching {
            node,
            search: SearchState::ListingDevices(
                DeviceTarget::Node(
                    match events[i]->RenderNodeFound_0 {
                        Some(Ok(r)) => r,
                        _ => node->0,
                    },
                ),
            ),
        }),
{
    lemma_setup_fits(node, setups, actions, events, i);
    lemma_setup_fits(node, setups, actions, events, i + 1);
    assert(setup_goes_on(setups[i], actions[i], events[i], setups[i + 1]));
}

/// The listed devices are asked from the first on, for their render node or, in a setup
/// without a node, for their extensions. No devices, and a list that could not be had, each
/// have their own error.
pub proof fn law_after_devices_listed(
    node: Option<DrmNode>,
    setups: Seq<EglSetup>,
    actions: Seq<EglAction>,
    events: Seq<EglEvent>,
    i: int,
    asked: Option<EglAction>,
    state: EglState,
)
    requires
        is_setup(node, setups, actions, events),
        0 <= i < events.len(),
        setup_shows(setups[i + 1], asked, state),
        events[i] is DevicesListed,
    ensures
        i == if node is Some {
            2int
        } else {
            1int
        },
        events[0] == EglEvent::DisplayLookedUp(false),
        actions[i] == EglAction::ListDevices,
        events[i]->DevicesListed_0 is Err ==> state == EglState::Failed(
            EglError::EnumerateDevices,
        ),
        events[i]->DevicesListed_0 == Ok::<usize, ()>(0) ==> state == EglState::Failed(
            if node is Some {
                EglError::NoDeviceForNode
            } else {
                EglError::NoSoftwareDevice
            },
        ),
        events[i]->DevicesListed_0 matches Ok(count) ==> count > 0 ==> asked == Some(
            if node is Some {
                EglAction::QueryRenderNode(0)
            } else {
                EglAction::QueryExtensions(0)
            },
        ) && state == (EglState::Searching {
            node,
            search: SearchState::CheckingDevice {
                target: match node {
                    Some(n) => DeviceTarget::Node(
                        match events[1]->RenderNodeFound_0 {
                            Some(Ok(r)) => r,
                            _ => n,
                        },
                    ),
                    None => DeviceTarget::Software,
                },
                count,
                next: 0,
            },
        }),
{
    lemma_setup_fits(node, setups, actions, events, i);
    lemma_setup_fits(node, setups, actions, events, i + 1);
    assert(setup_goes_on(setups[i], actions[i], events[i], setups[i + 1]));
}

/// In a setup on a node the display is created on the device that reports the wanted
/// node: the render node that was found for the node, or the node itself where none could
/// be opened. Past another device the next is asked, and past the last there is none.
pub proof fn law_after_device_node(
    node: Option<DrmNode>,
    setups: Seq<EglSetup>,
    actions: Seq<EglAction>,
    events: Seq<EglEvent>,
    i: int,
    asked: Option<EglAction>,
    state: EglState,
    wanted: DrmNode,
)
    requires
        is_setup(node, setups, actions, events),
        0 <= i < events.len(),
        setup_shows(setups[i + 1], asked, state),
        events[i] is RenderNode,
        events[1] == EglEvent::RenderNodeFound(Some(Ok(wanted))) || (events[1]
            == EglEvent::RenderNodeFound(None) && node == Some(wanted)) || (events[1]
            == EglEvent::RenderNodeFound(Some(Err(()))) && node == Some(wanted)),
    ensures
        i >= 3,
        node is Some,
        events[2] is DevicesListed,
        events[2]->DevicesListed_0 is Ok,
        ({
            let count = events[2]->DevicesListed_0->Ok_0;
            &&& i - 3 < count
            &&& actions[i] == EglAction::QueryRenderNode((i - 3) as usize)
            &&& if events[i]->RenderNode_0 == Ok::<Option<DrmNode>, ()>(Some(wanted)) {
                asked == Some(EglAction::CreateDisplay((i - 3) as usize)) && state
                    == (EglState::CreatingDisplay { node, device: (i - 3) as usize })
            } else if i - 2 < count {
                asked == Some(EglAction::QueryRenderNode((i - 2) as usize)) && state
                    == (EglState::Searching {
                    node,
                    search: SearchState::CheckingDevice {
                        target: DeviceTarget::Node(wanted),
                        count,
                        next: (i - 2) as usize,
                    },
                })
            } else {
                state == EglState::Failed(EglError::NoDeviceForNode)
            }
        }),
{
    lemma_setup_fits(node, setups, actions, events, i);
    lemma_setup_fits(node, setups, actions, events, i + 1);
    assert(setup_goes_on(setups[i], actions[i], events[i], setups[i + 1]));
}

/// In a setup without a node the display is created on the device with
/// `EGL_MESA_device_software` at any position of its extensions. Past another device the
/// next is asked, and past the last there is none.
pub proof fn law_after_device_extensions(
    node: Option<DrmNode>,
    setups: Seq<EglSetup>,
    actions: Seq<EglAction>,
    events: Seq<EglEvent>,
    i: int,
    asked: Option<EglAction>,
    state: EglState,
)
    requires
        is_setup(node, setups, actions, events),
        0 <= i < events.len(),
        setup_shows(setups[i + 1], asked, state),
        events[i] is Extensions,
    ensures
        i >= 2,
        node is None,
        events[1] is DevicesListed,
        events[1]->DevicesListed_0 is Ok,
        ({
            let count = events[1]->DevicesListed_0->Ok_0;
            let names = events[i]->Extensions_0@;
            &&& i - 2 < count
            &&& actions[i] == EglAction::QueryExtensions((i - 2) as usize)
            &&& if exists|k: int|
                0 <= k < names.len() && #[trigger] names[k]@ == "EGL_MESA_device_software"@ {
                asked == Some(EglAction::CreateDisplay((i - 2) as usize)) && state
                    == (EglState::CreatingDisplay { node, device: (i - 2) as usize })
            } else if i - 1 < count {
                asked == Some(EglAction::QueryExtensions((i - 1) as usize)) && state
                    == (EglState::Searching {
                    node,
                    search: SearchState::CheckingDevice {
                        target: DeviceTarget::Software,
                        count,
                        next: (i - 1) as usize,
                    },
                })
            } else {
                state == EglState::Failed(EglError::NoSoftwareDevice)
            }
        }),
{
    lemma_setup_fits(node, setups, actions, events, i);
    lemma_setup_fits(node, setups, actions, events, i + 1);
    assert(setup_goes_on(setups[i], actions[i], events[i], setups[i + 1]));
    lemma_software_name(events[i]->Extensions_0);
}

/// A new display is stored under the node of the setup.
pub proof fn law_after_display(
    node: Option<DrmNode>,
    setups: Seq<EglSetup>,
    actions: Seq<EglAction>,
    events: Seq<EglEvent>,
    i: int,
    asked: Option<EglAction>,
    state: EglState,
)
    requires
        is_setup(node, setups, actions, events),
        0 <= i < events.len(),
        setup_shows(setups[i + 1], asked, state),
        events[i] is DisplayCreated,
    ensures
        actions[i] is CreateDisplay,
        events[0] == EglEvent::DisplayLookedUp(false),
        events[i]->DisplayCreated_0 ==> asked == Some(EglAction::StoreDisplay(node)) && state
            == EglState::StoringDisplay(node),
        !events[i]->DisplayCreated_0 ==> state == EglState::Failed(EglError::CreateDisplay),
{
    lemma_setup_fits(node, setups, actions, events, i);
    lemma_setup_fits(node, setups, actions, events, i + 1);
    assert(setup_goes_on(setups[i], actions[i], events[i], setups[i + 1]));
}

/// Once the display is stored, a context is created.
pub proof fn law_after_store(
    node: Option<DrmNode>,
    setups: Seq<EglSetup>,
    actions: Seq<EglAction>,
    events: Seq<EglEvent>,
    i: int,
    asked: Option<EglAction>,
    state: EglState,
)
    requires
        is_setup(node, setups, actions, events),
        0 <= i < events.len(),
        setup_shows(setups[i + 1], asked, state),
        events[i] is DisplayStored,
    ensures
        i >= 1,
        actions[i] == EglAction::StoreDisplay(node),
        actions[i - 1] is CreateDisplay,
        asked == Some(EglAction::CreateContext),
        state == EglState::CreatingContext,
{
    lemma_setup_fits(node, setups, actions, events, i);
    lemma_setup_fits(node, setups, actions, events, i + 1);
    assert(setup_goes_on(setups[i], actions[i], events[i], setups[i + 1]));
}

/// A context is created on the display that was found alive or was just stored. With it
/// the renderer is created.
pub proof fn law_after_context(
    node: Option<DrmNode>,
    setups: Seq<EglSetup>,
    actions: Seq<EglAction>,
    events: Seq<EglEvent>,
    i: int,
    asked: Option<EglAction>,
    state: EglState,
)
    requires
        is_setup(node, setups, actions, events),
        0 <= i < events.len(),
        setup_shows(setups[i + 1], asked, state),
        events[i] is ContextCreated,
    ensures
        i >= 1,
        actions[i] == EglAction::CreateContext,
        (i == 1 && events[0] == EglEvent::DisplayLookedUp(true)) || actions[i - 1]
            == EglAction::StoreDisplay(node),
        events[i]->ContextCreated_0 ==> asked == Some(EglAction::CreateRenderer) && state
            == EglState::CreatingRenderer,
        !events[i]->ContextCreated_0 ==> state == EglState::Failed(EglError::CreateContext),
{
    lemma_setup_fits(node, setups, actions, events, i);
    lemma_setup_fits(node, setups, actions, events, i + 1);
    assert(setup_goes_on(setups[i], actions[i], events[i], setups[i + 1]));
}

/// With the renderer the setup is done.
pub proof fn law_after_renderer(
    node: Option<DrmNode>,
    setups: Seq<EglSetup>,
    actions: Seq<EglAction>,
    events: Seq<EglEvent>,
    i: int,
    asked: Option<EglAction>,
    state: EglState,
)
    requires
        is_setup(node, setups, actions, events),
        0 <= i < events.len(),
        setup_shows(setups[i + 1], asked, state),
        events[i] is RendererCreated,
    ensures
        i >= 2,
        actions[i] == EglAction::CreateRenderer,
        actions[i - 1] == EglAction::CreateContext,
        events[i]->RendererCreated_0 ==> state == EglState::Ready,
        !events[i]->RendererCreated_0 ==> state == EglState::Failed(EglError::CreateRenderer),
{
    lemma_setup_fits(node, setups, actions, events, i);
    lemma_setup_fits(node, setups, actions, events, i + 1);
    assert(setup_goes_on(setups[i], actions[i], events[i], setups[i + 1]));
}

/// A setup on a node creates its display on the first listed device that reports the
/// wanted node: the render node that was found for the node, or the node itself where
/// none could be opened.
pub proof fn law_display_on_first_device_of_node(
    node: DrmNode,
    wanted: DrmNode,
    setups: Seq<EglSetup>,
    actions: Seq<EglAction>,
    events: Seq<EglEvent>,
    c: int,
)
    requires
        is_setup(Some(node), setups, actions, events),
        0 <= c < events.len(),
        actions[c] is CreateDisplay,
        events[1] == EglEvent::RenderNodeFound(Some(Ok(wanted))) || (events[1]
            == EglEvent::RenderNodeFound(None) && wanted == node) || (events[1]
            == EglEvent::RenderNodeFound(Some(Err(()))) && wanted == node),
    ensures
        ({
            let device = actions[c]->CreateDisplay_0;
            &&& c == device + 4
            &&& events[2] is DevicesListed
            &&& events[2]->DevicesListed_0 is Ok
            &&& device < events[2]->DevicesListed_0->Ok_0
            &&& forall|j: int|
                3 <= j < c ==> #[trigger] actions[j] == EglAction::QueryRenderNode(
                    (j - 3) as usize,
                ) && (events[j] == EglEvent::RenderNode(Ok(Some(wanted))) <==> j == c - 1)
        }),
{
    lemma_setup_fits(Some(node), setups, actions, events, c);
    assert(setup_goes_on(setups[c], actions[c], events[c], setups[c + 1]));
    assert forall|j: int| 3 <= j < c implies #[trigger] actions[j] == EglAction::QueryRenderNode(
        (j - 3) as usize,
    ) && (events[j] == EglEvent::RenderNode(Ok(Some(wanted))) <==> j == c - 1) by {
        lemma_search_until(Some(node), setups, actions, events, j, c);
        lemma_setup_fits(Some(node), setups, actions, events, j);
        assert(setup_goes_on(setups[j], actions[j], events[j], setups[j + 1]));
        assert(crate::egl_setup::is_match(DeviceTarget::Node(wanted), events[j]@) <==> events[j]
            == EglEvent::RenderNode(Ok(Some(wanted))));
    }
}

/// A setup without a node creates its display on the first listed device that has
/// `EGL_MESA_device_software` among its extensions, at any position.
pub proof fn law_display_on_first_software_device(
    setups: Seq<EglSetup>,
    actions: Seq<EglAction>,
    events: Seq<EglEvent>,
    c: int,
)
    requires
        is_setup(None, setups, actions, events),
        0 <= c < events.len(),
        actions[c] is CreateDisplay,
    ensures
        ({
            let device = actions[c]->CreateDisplay_0;
            &&& c == device + 3
            &&& events[1] is DevicesListed
            &&& events[1]->DevicesListed_0 is Ok
            &&& device < events[1]->DevicesListed_0->Ok_0
            &&& forall|j: int|
                2 <= j < c ==> #[trigger] actions[j] == EglAction::QueryExtensions(
                    (j - 2) as usize,
                ) && ((exists|k: int|
                    0 <= k < events[j]->Extensions_0@.len() && #[trigger] events[j]->Extensions_0@[k]@
                        == "EGL_MESA_device_software"@) <==> j == c - 1)
        }),
{
    lemma_setup_fits(None, setups, actions, events, c);
    assert(setup_goes_on(setups[c], actions[c], events[c], setups[c + 1]));
    assert forall|j: int| 2 <= j < c implies #[trigger] actions[j] == EglAction::QueryExtensions(
        (j - 2) as usize,
    ) && ((exists|k: int|
        0 <= k < events[j]->Extensions_0@.len() && #[trigger] events[j]->Extensions_0@[k]@
            == "EGL_MESA_device_software"@) <==> j == c - 1) by {
        lemma_search_until(None, setups, actions, events, j, c);
        lemma_setup_fits(None, setups, actions, events, j);
        assert(setup_goes_on(setups[j], actions[j], events[j], setups[j + 1]));
        lemma_software_name(events[j]->Extensions_0);
        assert(crate::egl_setup::is_match(DeviceTarget::Software, events[j]@) <==> exists|k: int|
            0 <= k < events[j]->Extensions_0@.len() && #[trigger] events[j]->Extensions_0@[k]@
                == "EGL_MESA_device_software"@);
    }
}

/// Until it creates a display a setup only searches.
proof fn lemma_search_until(
    node: Option<DrmNode>,
    setups: Seq<EglSetup>,
    actions: Seq<EglAction>,
    events: Seq<EglEvent>,
    j: int,
    c: int,
)
    requires
        is_setup(node, setups, actions, events),
        1 <= j < c < events.len(),
        setups[c]@ is CreatingDisplay,
    ensures
        setups[j]@ is Searching,
    decreases c - j,
{
    lemma_setup_fits(node, setups, actions, events, j);
    assert(setup_goes_on(setups[j], actions[j], events[j], setups[j + 1]));
    if j + 1 < c {
        lemma_search_until(node, setups, actions, events, j + 1, c);
    }
}

/// A reply is taken exactly where it is of the kind that the call asked for gives. A
/// search and a setup that have ended take none.
pub proof fn law_egl_takes_matching_replies(
    search: DeviceSearch,
    setup: EglSetup,
    asked: Option<EglAction>,
    event: EglEvent,
    ok: bool,
)
    requires
        (call_ensures(DeviceSearch::action, (&search,), asked) && call_ensures(
            DeviceSearch::accepts,
            (&search, &event),
            ok,
        )) || (call_ensures(EglSetup::action, (&setup,), asked) && call_ensures(
            EglSetup::accepts,
            (&setup, &event),
            ok,
        )),
    ensures
        ok <==> asked is Some && match asked->0 {
            EglAction::LookUpDisplay(_) => event is DisplayLookedUp,
            EglAction::FindRenderNode(_) => event is RenderNodeFound,
            EglAction::ListDevices => event is DevicesListed,
            EglAction::QueryRenderNode(_) => event is RenderNode,
            EglAction::QueryExtensions(_) => event is Extensions,
            EglAction::CreateDisplay(_) => event is DisplayCreated,
            EglAction::StoreDisplay(_) => event is DisplayStored,
            EglAction::CreateContext => event is ContextCreated,
            EglAction::CreateRenderer => event is RendererCreated,
        },
{
}

/// A search and a setup can be handed any reply that they accept.
pub proof fn law_accepted_reply_can_be_handed_in(
    search: DeviceSearch,
    setup: EglSetup,
    event: EglEvent,
)
    ensures
        call_ensures(DeviceSearch::accepts, (&search, &event), true) ==> call_requires(
            DeviceSearch::advance,
            (search, event),
        ),
        call_ensures(EglSetup::accepts, (&setup, &event), true) ==> call_requires(
            EglSetup::advance,
            (setup, event),
        ),
{
}

} // verus!
