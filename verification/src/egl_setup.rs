//! Bringing up an OpenGL ES renderer on EGL.
//!
//! As with the Vulkan setup, nothing here calls EGL: a setup says which call comes
//! next, takes the reply and decides how to go on. A display that is still alive
//! is shared; otherwise a device is searched for and a new display is made on it.

use vstd::prelude::*;

use crate::display_cache::{same_node, DrmNode};

verus! {

/// Why no renderer could be set up.
#[derive(Debug, Clone, Copy, PartialEq, Eq, Structural)]
pub enum EglError {
    /// The devices could not be listed.
    EnumerateDevices,
    /// No device belongs to the DRM node.
    NoDeviceForNode,
    /// No device renders in software.
    NoSoftwareDevice,
    /// The display could not be created.
    CreateDisplay,
    /// The context could not be created.
    CreateContext,
    /// The renderer could not be created.
    CreateRenderer,
}

/// The text that an error is reported with.
pub open spec fn egl_error_message(error: EglError) -> Seq<char> {
    match error {
        EglError::EnumerateDevices => "Failed to enumerate EGLDevices"@,
        EglError::NoDeviceForNode => "Unable to find EGLDevice for drm-node"@,
        EglError::NoSoftwareDevice => "Failed to find software device"@,
        EglError::CreateDisplay => "Failed to create EGLDisplay"@,
        EglError::CreateContext => "Failed to initialize EGL context"@,
        EglError::CreateRenderer => "Failed to initialize renderer"@,
    }
}

impl EglError {
    /// The text that this error is reported with.
    pub fn message(&self) -> (text: &'static str)
        ensures
            text@ == egl_error_message(*self),
    {
        match self {
            EglError::EnumerateDevices => "Failed to enumerate EGLDevices",
            EglError::NoDeviceForNode => "Unable to find EGLDevice for drm-node",
            EglError::NoSoftwareDevice => "Failed to find software device",
            EglError::CreateDisplay => "Failed to create EGLDisplay",
            EglError::CreateContext => "Failed to initialize EGL context",
            EglError::CreateRenderer => "Failed to initialize renderer",
        }
    }
}

/// The device that a search is for.
#[derive(Debug, Clone, Copy, PartialEq, Eq, Structural)]
pub enum DeviceTarget {
    /// The device whose render node is this one.
    Node(DrmNode),
    /// A device that renders in software.
    Software,
}

/// The next call that a search or a setup asks for. Devices are named by their
/// position in the list of devices.
#[derive(Debug, Clone, Copy, PartialEq, Eq, Structural)]
pub enum EglAction {
    /// Look for a display that is stored under the node and still alive.
    LookUpDisplay(Option<DrmNode>),
    /// Find the render node that belongs to the same device as this node.
    FindRenderNode(DrmNode),
    /// List the devices.
    ListDevices,
    /// Ask a device for its render node.
    QueryRenderNode(usize),
    /// Ask a device for its extensions.
    QueryExtensions(usize),
    /// Create a display on a device.
    CreateDisplay(usize),
    /// Store the new display under the node.
    StoreDisplay(Option<DrmNode>),
    /// Create a context on the display.
    CreateContext,
    /// Create the renderer on the context.
    CreateRenderer,
}

/// The reply to an [`EglAction`].
#[derive(Debug)]
pub enum EglEvent {
    /// Whether a display was found alive.
    DisplayLookedUp(bool),
    /// The render node, where the device has one and it can be opened.
    RenderNodeFound(Option<Result<DrmNode, ()>>),
    /// The number of devices.
    DevicesListed(Result<usize, ()>),
    /// The render node of a device, where it has one.
    RenderNode(Result<Option<DrmNode>, ()>),
    /// The extensions of a device.
    Extensions(Vec<String>),
    /// Whether the display was created.
    DisplayCreated(bool),
    /// The display was stored.
    DisplayStored,
    /// Whether the context was created.
    ContextCreated(bool),
    /// Whether the renderer was created.
    RendererCreated(bool),
}

/// An [`EglEvent`] with its list as a sequence.
pub enum EglEventView {
    DisplayLookedUp(bool),
    RenderNodeFound(Option<Result<DrmNode, ()>>),
    DevicesListed(Result<usize, ()>),
    RenderNode(Result<Option<DrmNode>, ()>),
    Extensions(Seq<Seq<char>>),
    DisplayCreated(bool),
    DisplayStored,
    ContextCreated(bool),
    RendererCreated(bool),
}

impl View for EglEvent {
    type V = EglEventView;

    open spec fn view(&self) -> EglEventView {
        match *self {
            EglEvent::DisplayLookedUp(alive) => EglEventView::DisplayLookedUp(alive),
            EglEvent::RenderNodeFound(reply) => EglEventView::RenderNodeFound(reply),
            EglEvent::DevicesListed(reply) => EglEventView::DevicesListed(reply),
            EglEvent::RenderNode(reply) => EglEventView::RenderNode(reply),
            EglEvent::Extensions(names) => EglEventView::Extensions(names.deep_view()),
            EglEvent::DisplayCreated(done) => EglEventView::DisplayCreated(done),
            EglEvent::DisplayStored => EglEventView::DisplayStored,
            EglEvent::ContextCreated(done) => EglEventView::ContextCreated(done),
            EglEvent::RendererCreated(done) => EglEventView::RendererCreated(done),
        }
    }
}

/// How far a search for a device has come.
#[derive(Debug, Clone, Copy, PartialEq, Eq, Structural)]
pub enum SearchState {
    /// The render node of the wanted device is being found.
    FindingRenderNode(DrmNode),
    /// The devices are being listed.
    ListingDevices(DeviceTarget),
    /// One of the listed devices is being looked at.
    CheckingDevice { target: DeviceTarget, count: usize, next: usize },
    /// A device was found.
    Found(usize),
    /// The search failed.
    Failed(EglError),
}

/// The node that a device is searched by: the render node where there is a usable
/// one, else the node itself.
pub open spec fn search_node(node: DrmNode, render_node: Option<Result<DrmNode, ()>>) -> DrmNode {
    match render_node {
        Some(Ok(render_node)) => render_node,
        _ => node,
    }
}

/// The error of a search that has looked at every device.
pub open spec fn not_found(target: DeviceTarget) -> EglError {
    match target {
        DeviceTarget::Node(_) => EglError::NoDeviceForNode,
        DeviceTarget::Software => EglError::NoSoftwareDevice,
    }
}

/// A reply shows a device to be the one that is searched for.
pub open spec fn is_match(target: DeviceTarget, event: EglEventView) -> bool {
    match (target, event) {
        (DeviceTarget::Node(node), EglEventView::RenderNode(reply)) => reply == Ok::<
            Option<DrmNode>,
            (),
        >(Some(node)),
        (DeviceTarget::Software, EglEventView::Extensions(names)) => names.contains(
            "EGL_MESA_device_software"@,
        ),
        _ => false,
    }
}

/// Goes on to look at a device, if there is one left.
pub open spec fn search_from(target: DeviceTarget, count: usize, next: int) -> SearchState {
    if next < count {
        SearchState::CheckingDevice { target, count, next: next as usize }
    } else {
        SearchState::Failed(not_found(target))
    }
}

/// The call that a search asks for at this point; none when it has ended.
pub open spec fn search_action(search: SearchState) -> Option<EglAction> {
    match search {
        SearchState::FindingRenderNode(node) => Some(EglAction::FindRenderNode(node)),
        SearchState::ListingDevices(_) => Some(EglAction::ListDevices),
        SearchState::CheckingDevice { target, count, next } => match target {
            DeviceTarget::Node(_) => Some(EglAction::QueryRenderNode(next)),
            DeviceTarget::Software => Some(EglAction::QueryExtensions(next)),
        },
        SearchState::Found(_) => None,
        SearchState::Failed(_) => None,
    }
}

/// The event is a reply to the call that the search asks for.
pub open spec fn search_awaits(search: SearchState, event: EglEventView) -> bool {
    match search {
        SearchState::FindingRenderNode(_) => event is RenderNodeFound,
        SearchState::ListingDevices(_) => event is DevicesListed,
        SearchState::CheckingDevice { target, .. } => match target {
            DeviceTarget::Node(_) => event is RenderNode,
            DeviceTarget::Software => event is Extensions,
        },
        SearchState::Found(_) => false,
        SearchState::Failed(_) => false,
    }
}

/// Where a search goes on to when it gets a reply.
pub open spec fn search_step(search: SearchState, event: EglEventView) -> SearchState {
    match (search, event) {
        (SearchState::FindingRenderNode(node), EglEventView::RenderNodeFound(reply)) => {
            SearchState::ListingDevices(DeviceTarget::Node(search_node(node, reply)))
        },
        (SearchState::ListingDevices(target), EglEventView::DevicesListed(reply)) => match reply {
            Ok(count) => search_from(target, count, 0),
            Err(_) => SearchState::Failed(EglError::EnumerateDevices),
        },
        (SearchState::CheckingDevice { target, count, next }, _) => {
            if is_match(target, event) {
                SearchState::Found(next)
            } else {
                search_from(target, count, next + 1)
            }
        },
        _ => search,
    }
}

/// Whether the extensions of a device say that it renders in software.
pub fn is_software_device(extensions: &Vec<String>) -> (software: bool)
    ensures
        software == extensions.deep_view().contains("EGL_MESA_device_software"@),
{
    let wanted = "EGL_MESA_device_software".to_string();
    let mut i: usize = 0;
    while i < extensions.len()
        invariant
            i <= extensions@.len(),
            wanted@ == "EGL_MESA_device_software"@,
            forall|j: int| 0 <= j < i ==> #[trigger] extensions.deep_view()[j] != wanted@,
        decreases extensions@.len() - i,
    {
        if extensions[i] == wanted {
            assert(extensions.deep_view()[i as int] == wanted@);
            return true;
        }
        i += 1;
    }
    false
}

/// A search for an EGL device.
pub struct DeviceSearch {
    state: SearchState,
}

impl View for DeviceSearch {
    type V = SearchState;

    closed spec fn view(&self) -> SearchState {
        self.state
    }
}

impl DeviceSearch {
    #[verifier::type_invariant]
    spec fn has_device_to_check(self) -> bool {
        match self.state {
            SearchState::CheckingDevice { target, count, next } => next < count,
            _ => true,
        }
    }

    /// A search for a device that renders in software.
    pub fn for_software() -> (search: DeviceSearch)
        ensures
            search@ == SearchState::ListingDevices(DeviceTarget::Software),
    {
        DeviceSearch { state: SearchState::ListingDevices(DeviceTarget::Software) }
    }

    /// How far this search has come.
    pub fn state(&self) -> (state: SearchState)
        ensures
            state == self@,
    {
        self.state
    }

    /// The call to make next; none when the search has ended.
    pub fn action(&self) -> (action: Option<EglAction>)
        ensures
            action == search_action(self@),
    {
        match self.state {
            SearchState::FindingRenderNode(node) => Some(EglAction::FindRenderNode(node)),
            SearchState::ListingDevices(_) => Some(EglAction::ListDevices),
            SearchState::CheckingDevice { target, count: _, next } => match target {
                DeviceTarget::Node(_) => Some(EglAction::QueryRenderNode(next)),
                DeviceTarget::Software => Some(EglAction::QueryExtensions(next)),
            },
            SearchState::Found(_) => None,
            SearchState::Failed(_) => None,
        }
    }

    /// Whether the event is a reply to the call that this search asks for.
    pub fn accepts(&self, event: &EglEvent) -> (ok: bool)
        ensures
            ok == search_awaits(self@, event@),
    {
        match (self.state, event) {
            (SearchState::FindingRenderNode(_), EglEvent::RenderNodeFound(_)) => true,
            (SearchState::ListingDevices(_), EglEvent::DevicesListed(_)) => true,
            (
                SearchState::CheckingDevice { target: DeviceTarget::Node(_), .. },
                EglEvent::RenderNode(_),
            ) => true,
            (
                SearchState::CheckingDevice { target: DeviceTarget::Software, .. },
                EglEvent::Extensions(_),
            ) => true,
            _ => false,
        }
    }

    fn check_from(target: DeviceTarget, count: usize, next: usize) -> (search: DeviceSearch)
        ensures
            search@ == search_from(target, count, next as int),
    {
        if next < count {
            DeviceSearch { state: SearchState::CheckingDevice { target, count, next } }
        } else {
            let error = match target {
                DeviceTarget::Node(_) => EglError::NoDeviceForNode,
                DeviceTarget::Software => EglError::NoSoftwareDevice,
            };
            DeviceSearch { state: SearchState::Failed(error) }
        }
    }

    fn matches_target(target: &DeviceTarget, event: &EglEvent) -> (found: bool)
        ensures
            found == is_match(*target, event@),
    {
        match (target, event) {
            (DeviceTarget::Node(node), EglEvent::RenderNode(reply)) => {
                let reported: Option<DrmNode> = match reply {
                    Ok(reported) => *reported,
                    Err(_) => None,
                };
                same_node(&reported, &Some(*node))
            },
            (DeviceTarget::Software, EglEvent::Extensions(names)) => is_software_device(names),
            _ => false,
        }
    }

    /// Goes on with the reply to the call that this search asked for.
    pub fn advance(self, event: EglEvent) -> (next: DeviceSearch)
        requires
            search_awaits(self@, event@),
        ensures
            next@ == search_step(self@, event@),
    {
        proof {
            use_type_invariant(&self);
        }
        match self.state {
            SearchState::FindingRenderNode(node) => match event {
                EglEvent::RenderNodeFound(reply) => {
                    let node: DrmNode = match reply {
                        Some(Ok(render_node)) => render_node,
                        _ => node,
                    };
                    DeviceSearch { state: SearchState::ListingDevices(DeviceTarget::Node(node)) }
                },
                _ => self,
            },
            SearchState::ListingDevices(target) => match event {
                EglEvent::DevicesListed(reply) => match reply {
                    Ok(count) => Self::check_from(target, count, 0),
                    Err(_) => DeviceSearch {
                        state: SearchState::Failed(EglError::EnumerateDevices),
                    },
                },
                _ => self,
            },
            SearchState::CheckingDevice { target, count, next } => {
                if Self::matches_target(&target, &event) {
                    DeviceSearch { state: SearchState::Found(next) }
                } else {
                    Self::check_from(target, count, next + 1)
                }
            },
            _ => self,
        }
    }
}

/// Searches for the EGL device of a DRM node.
pub fn get_egl_device_for_node(drm_node: &DrmNode) -> (search: DeviceSearch)
    ensures
        search@ == SearchState::FindingRenderNode(*drm_node),
{
    DeviceSearch { state: SearchState::FindingRenderNode(*drm_node) }
}

/// How far the setup of a renderer has come.
#[derive(Debug, Clone, Copy, PartialEq, Eq, Structural)]
pub enum EglState {
    /// A display of the node is being looked for.
    LookingUpDisplay(Option<DrmNode>),
    /// A device is being searched for.
    Searching { node: Option<DrmNode>, search: SearchState },
    /// A display is being created on a device.
    CreatingDisplay { node: Option<DrmNode>, device: usize },
    /// The new display is being stored.
    StoringDisplay(Option<DrmNode>),
    /// A context is being created.
    CreatingContext,
    /// The renderer is being created.
    CreatingRenderer,
    /// The renderer stands.
    Ready,
    /// The setup failed.
    Failed(EglError),
}

/// The search that a renderer on the node needs: for the device of the node, or for
/// a software device where there is no node.
pub open spec fn search_for(node: Option<DrmNode>) -> SearchState {
    match node {
        Some(node) => SearchState::FindingRenderNode(node),
        None => SearchState::ListingDevices(DeviceTarget::Software),
    }
}

/// Goes on with a search, or with what it has come to.
pub open spec fn searching(node: Option<DrmNode>, search: SearchState) -> EglState {
    match search {
        SearchState::Found(device) => EglState::CreatingDisplay { node, device },
        SearchState::Failed(error) => EglState::Failed(error),
        _ => EglState::Searching { node, search },
    }
}

/// The call that a setup asks for at this point; none when it has ended.
pub open spec fn egl_action(setup: EglState) -> Option<EglAction> {
    match setup {
        EglState::LookingUpDisplay(node) => Some(EglAction::LookUpDisplay(node)),
        EglState::Searching { node, search } => search_action(search),
        EglState::CreatingDisplay { node, device } => Some(EglAction::CreateDisplay(device)),
        EglState::StoringDisplay(node) => Some(EglAction::StoreDisplay(node)),
        EglState::CreatingContext => Some(EglAction::CreateContext),
        EglState::CreatingRenderer => Some(EglAction::CreateRenderer),
        EglState::Ready => None,
        EglState::Failed(_) => None,
    }
}

/// The event is a reply to the call that the setup asks for.
pub open spec fn egl_awaits(setup: EglState, event: EglEventView) -> bool {
    match setup {
        EglState::LookingUpDisplay(_) => event is DisplayLookedUp,
        EglState::Searching { node, search } => search_awaits(search, event),
        EglState::CreatingDisplay { .. } => event is DisplayCreated,
        EglState::StoringDisplay(_) => event is DisplayStored,
        EglState::CreatingContext => event is ContextCreated,
        EglState::CreatingRenderer => event is RendererCreated,
        EglState::Ready => false,
        EglState::Failed(_) => false,
    }
}

/// Where a setup goes on to when it gets a reply.
pub open spec fn egl_step(setup: EglState, event: EglEventView) -> EglState {
    match (setup, event) {
        (EglState::LookingUpDisplay(node), EglEventView::DisplayLookedUp(alive)) => {
            if alive {
                EglState::CreatingContext
            } else {
                searching(node, search_for(node))
            }
        },
        (EglState::Searching { node, search }, _) => searching(node, search_step(search, event)),
        (EglState::CreatingDisplay { node, device }, EglEventView::DisplayCreated(done)) => {
            if done {
                EglState::StoringDisplay(node)
            } else {
                EglState::Failed(EglError::CreateDisplay)
            }
        },
        (EglState::StoringDisplay(_), EglEventView::DisplayStored) => EglState::CreatingContext,
        (EglState::CreatingContext, EglEventView::ContextCreated(done)) => {
            if done {
                EglState::CreatingRenderer
            } else {
                EglState::Failed(EglError::CreateContext)
            }
        },
        (EglState::CreatingRenderer, EglEventView::RendererCreated(done)) => {
            if done {
                EglState::Ready
            } else {
                EglState::Failed(EglError::CreateRenderer)
            }
        },
        _ => setup,
    }
}

/// An OpenGL ES renderer that is being set up.
pub struct EglSetup {
    state: EglState,
}

impl View for EglSetup {
    type V = EglState;

    closed spec fn view(&self) -> EglState {
        self.state
    }
}

impl EglSetup {
    #[verifier::type_invariant]
    spec fn has_device_to_check(self) -> bool {
        match self.state {
            EglState::Searching { node, search } => (DeviceSearch {
                state: search,
            }).has_device_to_check(),
            _ => true,
        }
    }

    fn search(node: Option<DrmNode>, search: DeviceSearch) -> (setup: EglSetup)
        ensures
            setup@ == searching(node, search@),
    {
        proof {
            use_type_invariant(&search);
        }
        match search.state {
            SearchState::Found(device) => EglSetup {
                state: EglState::CreatingDisplay { node, device },
            },
            SearchState::Failed(error) => EglSetup { state: EglState::Failed(error) },
            search => EglSetup { state: EglState::Searching { node, search } },
        }
    }

    /// How far this setup has come.
    pub fn state(&self) -> (state: EglState)
        ensures
            state == self@,
    {
        self.state
    }

    /// The call to make next; none when the setup has ended.
    pub fn action(&self) -> (action: Option<EglAction>)
        ensures
            action == egl_action(self@),
    {
        proof {
            use_type_invariant(self);
        }
        match self.state {
            EglState::LookingUpDisplay(node) => Some(EglAction::LookUpDisplay(node)),
            EglState::Searching { node: _, search } => DeviceSearch { state: search }.action(),
            EglState::CreatingDisplay { node: _, device } => Some(
                EglAction::CreateDisplay(device),
            ),
            EglState::StoringDisplay(node) => Some(EglAction::StoreDisplay(node)),
            EglState::CreatingContext => Some(EglAction::CreateContext),
            EglState::CreatingRenderer => Some(EglAction::CreateRenderer),
            EglState::Ready => None,
            EglState::Failed(_) => None,
        }
    }

    /// Whether the event is a reply to the call that this setup asks for.
    pub fn accepts(&self, event: &EglEvent) -> (ok: bool)
        ensures
            ok == egl_awaits(self@, event@),
    {
        proof {
            use_type_invariant(self);
        }
        match (self.state, event) {
            (EglState::LookingUpDisplay(_), EglEvent::DisplayLookedUp(_)) => true,
            (EglState::Searching { node: _, search }, _) => {
                DeviceSearch { state: search }.accepts(event)
            },
            (EglState::CreatingDisplay { .. }, EglEvent::DisplayCreated(_)) => true,
            (EglState::StoringDisplay(_), EglEvent::DisplayStored) => true,
            (EglState::CreatingContext, EglEvent::ContextCreated(_)) => true,
            (EglState::CreatingRenderer, EglEvent::RendererCreated(_)) => true,
            _ => false,
        }
    }

    /// Goes on with the reply to the call that this setup asked for.
    pub fn advance(self, event: EglEvent) -> (next: EglSetup)
        requires
            egl_awaits(self@, event@),
        ensures
            next@ == egl_step(self@, event@),
    {
        proof {
            use_type_invariant(&self);
        }
        match (self.state, event) {
            (EglState::LookingUpDisplay(node), EglEvent::DisplayLookedUp(alive)) => {
                if alive {
                    EglSetup { state: EglState::CreatingContext }
                } else {
                    let search = match &node {
                        Some(node) => get_egl_device_for_node(node),
                        None => DeviceSearch::for_software(),
                    };
                    Self::search(node, search)
                }
            },
            (EglState::Searching { node, search }, event) => {
                Self::search(node, DeviceSearch { state: search }.advance(event))
            },
            (EglState::CreatingDisplay { node, device: _ }, EglEvent::DisplayCreated(done)) => {
                if done {
                    EglSetup { state: EglState::StoringDisplay(node) }
                } else {
                    EglSetup { state: EglState::Failed(EglError::CreateDisplay) }
                }
            },
            (EglState::StoringDisplay(_), EglEvent::DisplayStored) => {
                EglSetup { state: EglState::CreatingContext }
            },
            (EglState::CreatingContext, EglEvent::ContextCreated(done)) => {
                if done {
                    EglSetup { state: EglState::CreatingRenderer }
                } else {
                    EglSetup { state: EglState::Failed(EglError::CreateContext) }
                }
            },
            (EglState::CreatingRenderer, EglEvent::RendererCreated(done)) => {
                if done {
                    EglSetup { state: EglState::Ready }
                } else {
                    EglSetup { state: EglState::Failed(EglError::CreateRenderer) }
                }
            },
            _ => self,
        }
    }
}

/// Setup the renderer
///
/// This is the default EGL/OpenGL ES renderer setup. It starts by looking for a
/// display that another renderer on the node already uses.
pub fn setup_renderer(render_node: Option<DrmNode>) -> (setup: EglSetup)
    ensures
        setup@ == EglState::LookingUpDisplay(render_node),
{
    EglSetup { state: EglState::LookingUpDisplay(render_node) }
}

} // verus!
