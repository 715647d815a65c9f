use wayland_display_core::display_cache::{same_node, DisplayCache, DrmNode, NodeType};
use wayland_display_core::egl_setup::{
    get_egl_device_for_node, is_software_device, setup_renderer, DeviceSearch, EglAction, EglError,
    EglEvent, EglSetup, EglState, SearchState,
};

fn card(minor: u64) -> DrmNode {
    DrmNode { dev: 226 * 256 + minor, ty: NodeType::Primary }
}

fn render(minor: u64) -> DrmNode {
    DrmNode { dev: 226 * 256 + minor, ty: NodeType::Render }
}

struct Machine {
    alive: bool,
    render_node: Option<Result<DrmNode, ()>>,
    devices: Result<usize, ()>,
    nodes: Vec<Result<Option<DrmNode>, ()>>,
    extensions: Vec<Vec<String>>,
    display: bool,
    context: bool,
    renderer: bool,
}

fn machine() -> Machine {
    Machine {
        alive: false,
        render_node: Some(Ok(render(129))),
        devices: Ok(4),
        nodes: vec![Err(()), Ok(None), Ok(Some(render(129))), Ok(Some(render(129)))],
        extensions: vec![
            vec!["EGL_EXT_device_drm".to_string()],
            vec![],
            vec!["EGL_EXT_device_drm".to_string(), "EGL_MESA_device_software".to_string()],
            vec!["EGL_MESA_device_software".to_string()],
        ],
        display: true,
        context: true,
        renderer: true,
    }
}

impl Machine {
    fn reply(&self, action: EglAction) -> EglEvent {
        match action {
            EglAction::LookUpDisplay(_) => EglEvent::DisplayLookedUp(self.alive),
            EglAction::FindRenderNode(_) => EglEvent::RenderNodeFound(self.render_node),
            EglAction::ListDevices => EglEvent::DevicesListed(self.devices),
            EglAction::QueryRenderNode(i) => EglEvent::RenderNode(self.nodes[i]),
            EglAction::QueryExtensions(i) => EglEvent::Extensions(self.extensions[i].clone()),
            EglAction::CreateDisplay(_) => EglEvent::DisplayCreated(self.display),
            EglAction::StoreDisplay(_) => EglEvent::DisplayStored,
            EglAction::CreateContext => EglEvent::ContextCreated(self.context),
            EglAction::CreateRenderer => EglEvent::RendererCreated(self.renderer),
        }
    }

    fn run(&self, setup: EglSetup) -> (EglState, Vec<EglAction>) {
        let mut setup = setup;
        let mut calls = Vec::new();
        while let Some(action) = setup.action() {
            let event = self.reply(action);
            assert!(setup.accepts(&event));
            setup = setup.advance(event);
            calls.push(action);
        }
        (setup.state(), calls)
    }

    fn search(&self, search: DeviceSearch) -> SearchState {
        let mut search = search;
        while let Some(action) = search.action() {
            let event = self.reply(action);
            assert!(search.accepts(&event));
            search = search.advance(event);
        }
        search.state()
    }
}

#[test]
fn live_display_is_reused() {
    let mut machine = machine();
    machine.alive = true;
    let node = Some(card(1));
    let (state, calls) = machine.run(setup_renderer(node));
    assert_eq!(state, EglState::Ready);
    assert_eq!(
        calls,
        vec![EglAction::LookUpDisplay(node), EglAction::CreateContext, EglAction::CreateRenderer]
    );
}

#[test]
fn new_display_is_on_first_device_of_node() {
    let node = Some(card(1));
    let (state, calls) = machine().run(setup_renderer(node));
    assert_eq!(state, EglState::Ready);
    assert_eq!(
        calls,
        vec![
            EglAction::LookUpDisplay(node),
            EglAction::FindRenderNode(card(1)),
            EglAction::ListDevices,
            EglAction::QueryRenderNode(0),
            EglAction::QueryRenderNode(1),
            EglAction::QueryRenderNode(2),
            EglAction::CreateDisplay(2),
            EglAction::StoreDisplay(node),
            EglAction::CreateContext,
            EglAction::CreateRenderer,
        ]
    );
}

#[test]
fn software_display_is_on_first_software_device() {
    let (state, calls) = machine().run(setup_renderer(None));
    assert_eq!(state, EglState::Ready);
    assert_eq!(
        calls,
        vec![
            EglAction::LookUpDisplay(None),
            EglAction::ListDevices,
            EglAction::QueryExtensions(0),
            EglAction::QueryExtensions(1),
            EglAction::QueryExtensions(2),
            EglAction::CreateDisplay(2),
            EglAction::StoreDisplay(None),
            EglAction::CreateContext,
            EglAction::CreateRenderer,
        ]
    );
}

#[test]
fn node_itself_is_used_without_render_node() {
    for missing in [None, Some(Err(()))] {
        let mut machine = machine();
        machine.render_node = missing;
        assert_eq!(
            machine.search(get_egl_device_for_node(&card(1))),
            SearchState::Failed(EglError::NoDeviceForNode)
        );
        machine.nodes[1] = Ok(Some(card(1)));
        assert_eq!(machine.search(get_egl_device_for_node(&card(1))), SearchState::Found(1));
    }
    assert_eq!(machine().search(get_egl_device_for_node(&card(1))), SearchState::Found(2));
    assert_eq!(machine().search(DeviceSearch::for_software()), SearchState::Found(2));
}

#[test]
fn each_failure_has_its_error() {
    let node = Some(card(1));
    let mut m = machine();
    m.devices = Err(());
    assert_eq!(m.run(setup_renderer(node)).0, EglState::Failed(EglError::EnumerateDevices));
    assert_eq!(m.run(setup_renderer(None)).0, EglState::Failed(EglError::EnumerateDevices));
    let mut m = machine();
    m.devices = Ok(2);
    assert_eq!(m.run(setup_renderer(node)).0, EglState::Failed(EglError::NoDeviceForNode));
    assert_eq!(m.run(setup_renderer(None)).0, EglState::Failed(EglError::NoSoftwareDevice));
    let mut m = machine();
    m.devices = Ok(0);
    assert_eq!(m.run(setup_renderer(None)).0, EglState::Failed(EglError::NoSoftwareDevice));
    let mut m = machine();
    m.display = false;
    assert_eq!(m.run(setup_renderer(node)).0, EglState::Failed(EglError::CreateDisplay));
    let mut m = machine();
    m.context = false;
    assert_eq!(m.run(setup_renderer(node)).0, EglState::Failed(EglError::CreateContext));
    let mut m = machine();
    m.renderer = false;
    assert_eq!(m.run(setup_renderer(node)).0, EglState::Failed(EglError::CreateRenderer));
}

#[test]
fn egl_errors_have_their_messages() {
    assert_eq!(EglError::EnumerateDevices.message(), "Failed to enumerate EGLDevices");
    assert_eq!(EglError::NoDeviceForNode.message(), "Unable to find EGLDevice for drm-node");
    assert_eq!(EglError::NoSoftwareDevice.message(), "Failed to find software device");
    assert_eq!(EglError::CreateDisplay.message(), "Failed to create EGLDisplay");
    assert_eq!(EglError::CreateContext.message(), "Failed to initialize EGL context");
    assert_eq!(EglError::CreateRenderer.message(), "Failed to initialize renderer");
}

#[test]
fn egl_setup_accepts_only_the_awaited_reply() {
    let setup = setup_renderer(None);
    assert!(setup.accepts(&EglEvent::DisplayLookedUp(false)));
    assert!(!setup.accepts(&EglEvent::ContextCreated(true)));
    let search = DeviceSearch::for_software();
    assert!(search.accepts(&EglEvent::DevicesListed(Ok(1))));
    assert!(!search.accepts(&EglEvent::RenderNodeFound(None)));
}

#[test]
fn software_devices_are_recognised() {
    assert!(is_software_device(&vec!["a".to_string(), "EGL_MESA_device_software".to_string()]));
    assert!(!is_software_device(&vec!["EGL_MESA_device_software2".to_string()]));
    assert!(!is_software_device(&vec![]));
}

#[test]
fn cache_keeps_one_display_per_node() {
    let mut cache: DisplayCache<u32> = DisplayCache::new();
    assert!(cache.get(&None).is_none());
    cache.insert(None, 1);
    cache.insert(Some(card(1)), 2);
    cache.insert(Some(render(1)), 3);
    assert_eq!(cache.get(&None), Some(&1));
    assert_eq!(cache.get(&Some(card(1))), Some(&2));
    assert_eq!(cache.get(&Some(render(1))), Some(&3));
    assert!(cache.get(&Some(card(2))).is_none());
    cache.insert(Some(card(1)), 4);
    assert_eq!(cache.get(&Some(card(1))), Some(&4));
    assert_eq!(cache.get(&None), Some(&1));
    assert_eq!(cache.get(&Some(render(1))), Some(&3));
}

#[test]
fn nodes_differ_by_number_and_type() {
    assert!(same_node(&None, &None));
    assert!(same_node(&Some(card(1)), &Some(card(1))));
    assert!(!same_node(&Some(card(1)), &Some(card(2))));
    assert!(!same_node(&Some(card(1)), &Some(render(1))));
    assert!(!same_node(&Some(card(1)), &None));
}

#[test]
fn second_setup_shares_the_display() {
    let mut known: DisplayCache<usize> = DisplayCache::new();
    known.insert(None, 90);
    let mut made = Vec::new();
    for _ in 0..2 {
        let mut setup = setup_renderer(Some(card(1)));
        let mut display: Option<usize> = None;
        while let Some(action) = setup.action() {
            let event = match action {
                EglAction::LookUpDisplay(node) => {
                    display = known.get(&node).copied();
                    EglEvent::DisplayLookedUp(display.is_some())
                }
                EglAction::CreateDisplay(i) => {
                    made.push(i);
                    display = Some(i);
                    EglEvent::DisplayCreated(true)
                }
                EglAction::StoreDisplay(node) => {
                    known.insert(node, display.unwrap());
                    EglEvent::DisplayStored
                }
                action => machine().reply(action),
            };
            setup = setup.advance(event);
        }
        assert_eq!(setup.state(), EglState::Ready);
        assert_eq!(display, Some(2));
    }
    assert_eq!(made, vec![2]);
    assert_eq!(known.get(&Some(card(1))), Some(&2));
    assert_eq!(known.get(&None), Some(&90));
}

#[test]
fn display_is_stored_though_the_context_fails() {
    let mut m = machine();
    m.context = false;
    let node = Some(card(1));
    let (state, calls) = m.run(setup_renderer(node));
    assert_eq!(state, EglState::Failed(EglError::CreateContext));
    assert!(calls.contains(&EglAction::StoreDisplay(node)));
    assert!(!calls.contains(&EglAction::CreateRenderer));
}
