//! Bringing up a Vulkan renderer.
//!
//! The setup performs no Vulkan call itself. It says which call comes next
//! ([`RendererSetup::action`]), takes the reply ([`RendererSetup::advance`]) and
//! decides how to go on, until it ends with a renderer or an error.

use vstd::prelude::*;

use crate::error::{ErrorView, VkResult, VulkanError};
use crate::extensions::{required_device_extensions, required_instance_extensions};
use crate::version::meets_minimum_version;
use crate::vulkan_renderer::{RendererView, VulkanRenderer};

verus! {

/// The flag of a queue family that supports graphics operations.
pub const QUEUE_GRAPHICS: u32 = 0x1;

/// The flag of a command pool whose buffers can be reset one by one.
pub const POOL_RESET_COMMAND_BUFFER: u32 = 0x2;

/// The instance to create.
#[derive(Debug)]
pub struct InstanceRequest {
    pub application_name: &'static str,
    pub application_version: u32,
    pub engine_name: &'static str,
    pub engine_version: u32,
    pub api_version: u32,
    pub extensions: Vec<&'static str>,
}

/// The logical device to create. Each of its queues has full priority.
#[derive(Debug)]
pub struct DeviceRequest {
    pub physical_device: usize,
    pub queue_family_index: u32,
    pub queue_count: u32,
    pub extensions: Vec<&'static str>,
}

/// The next call that a setup asks for.
#[derive(Debug)]
pub enum SetupAction {
    /// Load the Vulkan library.
    LoadLibrary,
    /// Ask the loader for the instance version.
    QueryInstanceVersion,
    /// Create an instance.
    CreateInstance(InstanceRequest),
    /// List the physical devices.
    ListPhysicalDevices,
    /// List the extensions of a physical device.
    ListDeviceExtensions(usize),
    /// List the queue families of a physical device.
    ListQueueFamilies(usize),
    /// Create a logical device.
    CreateDevice(DeviceRequest),
    /// Fetch a queue of the logical device.
    GetDeviceQueue { queue_family_index: u32, queue_index: u32 },
    /// Load the functions of the external memory extension.
    LoadExternalMemoryFd,
    /// Create a command pool.
    CreateCommandPool { queue_family_index: u32, flags: u32 },
}

/// The reply to a [`SetupAction`].
pub enum SetupEvent {
    /// Whether the library could be loaded.
    LibraryLoaded(bool),
    /// The instance version, if the loader can tell it.
    InstanceVersion(Result<Option<u32>, VkResult>),
    /// Whether the instance was created.
    InstanceCreated(Result<(), VkResult>),
    /// The handles of the physical devices.
    PhysicalDevices(Result<Vec<usize>, VkResult>),
    /// The name buffers of the extensions of a device.
    DeviceExtensions(Result<Vec<Vec<u8>>, VkResult>),
    /// The flags of each queue family of a device.
    QueueFamilies(Vec<u32>),
    /// Whether the logical device was created.
    DeviceCreated(Result<(), VkResult>),
    /// The handle of the queue.
    DeviceQueue(usize),
    /// The functions of the external memory extension were loaded.
    ExternalMemoryFdLoaded,
    /// The handle of the command pool.
    CommandPoolCreated(Result<u64, VkResult>),
}

/// A [`SetupAction`] with its lists as sequences and its names as texts.
pub enum ActionView {
    LoadLibrary,
    QueryInstanceVersion,
    CreateInstance {
        application_name: Seq<char>,
        application_version: u32,
        engine_name: Seq<char>,
        engine_version: u32,
        api_version: u32,
        extensions: Seq<Seq<char>>,
    },
    ListPhysicalDevices,
    ListDeviceExtensions(usize),
    ListQueueFamilies(usize),
    CreateDevice {
        physical_device: usize,
        queue_family_index: u32,
        queue_count: u32,
        extensions: Seq<Seq<char>>,
    },
    GetDeviceQueue { queue_family_index: u32, queue_index: u32 },
    LoadExternalMemoryFd,
    CreateCommandPool { queue_family_index: u32, flags: u32 },
}

/// A [`SetupEvent`] with its lists as sequences.
pub enum EventView {
    LibraryLoaded(bool),
    InstanceVersion(Result<Option<u32>, VkResult>),
    InstanceCreated(Result<(), VkResult>),
    PhysicalDevices(Result<Seq<usize>, VkResult>),
    DeviceExtensions(Result<Seq<Seq<u8>>, VkResult>),
    QueueFamilies(Seq<u32>),
    DeviceCreated(Result<(), VkResult>),
    DeviceQueue(usize),
    ExternalMemoryFdLoaded,
    CommandPoolCreated(Result<u64, VkResult>),
}

impl View for SetupAction {
    type V = ActionView;

    open spec fn view(&self) -> ActionView {
        match *self {
            SetupAction::LoadLibrary => ActionView::LoadLibrary,
            SetupAction::QueryInstanceVersion => ActionView::QueryInstanceVersion,
            SetupAction::CreateInstance(request) => ActionView::CreateInstance {
                application_name: request.application_name@,
                application_version: request.application_version,
                engine_name: request.engine_name@,
                engine_version: request.engine_version,
                api_version: request.api_version,
                extensions: crate::extensions::texts(request.extensions@),
            },
            SetupAction::ListPhysicalDevices => ActionView::ListPhysicalDevices,
            SetupAction::ListDeviceExtensions(device) => ActionView::ListDeviceExtensions(device),
            SetupAction::ListQueueFamilies(device) => ActionView::ListQueueFamilies(device),
            SetupAction::CreateDevice(request) => ActionView::CreateDevice {
                physical_device: request.physical_device,
                queue_family_index: request.queue_family_index,
                queue_count: request.queue_count,
                extensions: crate::extensions::texts(request.extensions@),
            },
            SetupAction::GetDeviceQueue { queue_family_index, queue_index } => {
                ActionView::GetDeviceQueue { queue_family_index, queue_index }
            },
            SetupAction::LoadExternalMemoryFd => ActionView::LoadExternalMemoryFd,
            SetupAction::CreateCommandPool { queue_family_index, flags } => {
                ActionView::CreateCommandPool { queue_family_index, flags }
            },
        }
    }
}

impl View for SetupEvent {
    type V = EventView;

    open spec fn view(&self) -> EventView {
        match *self {
            SetupEvent::LibraryLoaded(loaded) => EventView::LibraryLoaded(loaded),
            SetupEvent::InstanceVersion(reply) => EventView::InstanceVersion(reply),
            SetupEvent::InstanceCreated(reply) => EventView::InstanceCreated(reply),
            SetupEvent::PhysicalDevices(reply) => EventView::PhysicalDevices(
                match reply {
                    Ok(devices) => Ok(devices@),
                    Err(e) => Err(e),
                },
            ),
            SetupEvent::DeviceExtensions(reply) => EventView::DeviceExtensions(
                crate::extensions::listing(reply),
            ),
            SetupEvent::QueueFamilies(flags) => EventView::QueueFamilies(flags@),
            SetupEvent::DeviceCreated(reply) => EventView::DeviceCreated(reply),
            SetupEvent::DeviceQueue(queue) => EventView::DeviceQueue(queue),
            SetupEvent::ExternalMemoryFdLoaded => EventView::ExternalMemoryFdLoaded,
            SetupEvent::CommandPoolCreated(reply) => EventView::CommandPoolCreated(reply),
        }
    }
}

/// How far a setup has come.
pub enum SetupView {
    LoadingLibrary,
    QueryingVersion,
    CreatingInstance,
    ListingDevices,
    CheckingDevice { devices: Seq<usize>, next: int },
    ListingQueueFamilies { device: usize },
    CreatingDevice { device: usize, family: u32 },
    FetchingQueue { device: usize, family: u32 },
    LoadingFunctions { device: usize, family: u32, queue: usize },
    CreatingPool { device: usize, family: u32, queue: usize },
    Finished(Result<RendererView, ErrorView>),
}

enum Stage {
    LoadingLibrary,
    QueryingVersion,
    CreatingInstance,
    ListingDevices,
    CheckingDevice { devices: Vec<usize>, next: usize },
    ListingQueueFamilies { device: usize },
    CreatingDevice { device: usize, family: u32 },
    FetchingQueue { device: usize, family: u32 },
    LoadingFunctions { device: usize, family: u32, queue: usize },
    CreatingPool { device: usize, family: u32, queue: usize },
    Finished(Result<VulkanRenderer, VulkanError>),
}

/// What a setup ended with, by its view.
pub open spec fn outcome_view(outcome: Result<VulkanRenderer, VulkanError>) -> Result<
    RendererView,
    ErrorView,
> {
    match outcome {
        Ok(renderer) => Ok(renderer@),
        Err(e) => Err(e@),
    }
}

/// A queue family with these flags supports graphics operations.
pub open spec fn supports_graphics(flags: u32) -> bool {
    flags & QUEUE_GRAPHICS == QUEUE_GRAPHICS
}

/// The `i`-th queue family is the first that supports graphics operations.
pub open spec fn is_first_graphics(families: Seq<u32>, i: int) -> bool {
    &&& 0 <= i < families.len()
    &&& supports_graphics(families[i])
    &&& forall|j: int| 0 <= j < i ==> !supports_graphics(#[trigger] families[j])
}

/// The index of the first queue family that supports graphics operations.
pub open spec fn graphics_family(families: Seq<u32>) -> Option<u32> {
    if exists|i: int| is_first_graphics(families, i) {
        Some((choose|i: int| is_first_graphics(families, i)) as u32)
    } else {
        None
    }
}

/// The call that a setup asks for at this point; none when it has ended.
pub open spec fn action_at(setup: SetupView) -> Option<ActionView> {
    match setup {
        SetupView::LoadingLibrary => Some(ActionView::LoadLibrary),
        SetupView::QueryingVersion => Some(ActionView::QueryInstanceVersion),
        SetupView::CreatingInstance => Some(
            ActionView::CreateInstance {
                application_name: "Wolf Compositor"@,
                application_version: crate::version::packed(0, 1, 0, 0),
                engine_name: "Smithay"@,
                engine_version: crate::version::packed(0, 1, 0, 0),
                api_version: crate::version::packed(0, 1, 1, 0),
                extensions: crate::extensions::instance_extension_names(),
            },
        ),
        SetupView::ListingDevices => Some(ActionView::ListPhysicalDevices),
        SetupView::CheckingDevice { devices, next } => Some(
            ActionView::ListDeviceExtensions(devices[next]),
        ),
        SetupView::ListingQueueFamilies { device } => Some(ActionView::ListQueueFamilies(device)),
        SetupView::CreatingDevice { device, family } => Some(
            ActionView::CreateDevice {
                physical_device: device,
                queue_family_index: family,
                queue_count: 1,
                extensions: crate::extensions::device_extension_names(),
            },
        ),
        SetupView::FetchingQueue { device, family } => Some(
            ActionView::GetDeviceQueue { queue_family_index: family, queue_index: 0 },
        ),
        SetupView::LoadingFunctions { device, family, queue } => Some(
            ActionView::LoadExternalMemoryFd,
        ),
        SetupView::CreatingPool { device, family, queue } => Some(
            ActionView::CreateCommandPool {
                queue_family_index: family,
                flags: POOL_RESET_COMMAND_BUFFER,
            },
        ),
        SetupView::Finished(_) => None,
    }
}

/// The event is a reply to the call that the setup asks for.
pub open spec fn awaits(setup: SetupView, event: EventView) -> bool {
    match setup {
        SetupView::LoadingLibrary => event is LibraryLoaded,
        SetupView::QueryingVersion => event is InstanceVersion,
        SetupView::CreatingInstance => event is InstanceCreated,
        SetupView::ListingDevices => event is PhysicalDevices,
        SetupView::CheckingDevice { .. } => event is DeviceExtensions,
        SetupView::ListingQueueFamilies { .. } => event is QueueFamilies,
        SetupView::CreatingDevice { .. } => event is DeviceCreated,
        SetupView::FetchingQueue { .. } => event is DeviceQueue,
        SetupView::LoadingFunctions { .. } => event is ExternalMemoryFdLoaded,
        SetupView::CreatingPool { .. } => event is CommandPoolCreated,
        SetupView::Finished(_) => false,
    }
}

/// A setup that has ended with an error.
pub open spec fn failed(error: ErrorView) -> SetupView {
    SetupView::Finished(Err(error))
}

/// Goes on to look at a device, if there is one left.
pub open spec fn checking_from(devices: Seq<usize>, next: int) -> SetupView {
    if next < devices.len() {
        SetupView::CheckingDevice { devices, next }
    } else {
        failed(ErrorView::NoDevice)
    }
}

/// Where a setup goes on to when it gets a reply.
pub open spec fn step(setup: SetupView, event: EventView) -> SetupView {
    match (setup, event) {
        (SetupView::LoadingLibrary, EventView::LibraryLoaded(loaded)) => {
            if loaded {
                SetupView::QueryingVersion
            } else {
                failed(ErrorView::LoadError)
            }
        },
        (SetupView::QueryingVersion, EventView::InstanceVersion(Ok(version))) => {
            if crate::version::is_supported(crate::version::reported_version(version)) {
                SetupView::CreatingInstance
            } else {
                failed(ErrorView::MissingExtension("Vulkan 1.1"@))
            }
        },
        (SetupView::CreatingInstance, EventView::InstanceCreated(Ok(_))) => {
            SetupView::ListingDevices
        },
        (SetupView::ListingDevices, EventView::PhysicalDevices(Ok(devices))) => {
            checking_from(devices, 0)
        },
        (SetupView::CheckingDevice { devices, next }, EventView::DeviceExtensions(reply)) => {
            if crate::extensions::is_suitable(reply) {
                SetupView::ListingQueueFamilies { device: devices[next] }
            } else {
                checking_from(devices, next + 1)
            }
        },
        (SetupView::ListingQueueFamilies { device }, EventView::QueueFamilies(families)) => {
            match graphics_family(families) {
                Some(family) => SetupView::CreatingDevice { device, family },
                None => failed(ErrorView::NoDevice),
            }
        },
        (SetupView::CreatingDevice { device, family }, EventView::DeviceCreated(Ok(_))) => {
            SetupView::FetchingQueue { device, family }
        },
        (SetupView::FetchingQueue { device, family }, EventView::DeviceQueue(queue)) => {
            SetupView::LoadingFunctions { device, family, queue }
        },
        (
            SetupView::LoadingFunctions { device, family, queue },
            EventView::ExternalMemoryFdLoaded,
        ) => { SetupView::CreatingPool { device, family, queue } },
        (
            SetupView::CreatingPool { device, family, queue },
            EventView::CommandPoolCreated(Ok(pool)),
        ) => {
            SetupView::Finished(
                Ok(crate::vulkan_renderer::fresh_renderer(device, queue, family, pool)),
            )
        },
        (_, EventView::InstanceVersion(Err(e))) => failed(ErrorView::VkError(e.code)),
        (_, EventView::InstanceCreated(Err(e))) => failed(ErrorView::VkError(e.code)),
        (_, EventView::PhysicalDevices(Err(e))) => failed(ErrorView::VkError(e.code)),
        (_, EventView::DeviceCreated(Err(e))) => failed(ErrorView::VkError(e.code)),
        (_, EventView::CommandPoolCreated(Err(e))) => failed(ErrorView::VkError(e.code)),
        _ => setup,
    }
}

/// `ash::vk::QueueFlags::contains`: every flag of `other` is among `flags`. Both
/// sets are given as their bits.
#[verifier::external_body]
fn queue_flags_contain(flags: u32, other: u32) -> (all: bool)
    ensures
        all == (flags & other == other),
{
    ash::vk::QueueFlags::from_raw(flags).contains(ash::vk::QueueFlags::from_raw(other))
}

/// The index of the first queue family, of those with the given flags, that
/// supports graphics operations.
pub fn find_graphics_family(families: &Vec<u32>) -> (found: Option<u32>)
    ensures
        found == graphics_family(families@),
{
    let mut i: usize = 0;
    while i < families.len()
        invariant
            i <= families@.len(),
            forall|j: int| 0 <= j < i ==> !supports_graphics(#[trigger] families@[j]),
        decreases families@.len() - i,
    {
        if queue_flags_contain(families[i], QUEUE_GRAPHICS) {
            assert(is_first_graphics(families@, i as int));
            let ghost chosen = choose|k: int| is_first_graphics(families@, k);
            assert(chosen == i) by {
                assert(is_first_graphics(families@, chosen));
                assert(supports_graphics(families@[chosen]));
                assert(supports_graphics(families@[i as int]));
            }
            return Some(i as u32);
        }
        i += 1;
    }
    None
}

/// A renderer that is being set up.
pub struct RendererSetup {
    stage: Stage,
}

impl View for RendererSetup {
    type V = SetupView;

    closed spec fn view(&self) -> SetupView {
        match self.stage {
            Stage::LoadingLibrary => SetupView::LoadingLibrary,
            Stage::QueryingVersion => SetupView::QueryingVersion,
            Stage::CreatingInstance => SetupView::CreatingInstance,
            Stage::ListingDevices => SetupView::ListingDevices,
            Stage::CheckingDevice { devices, next } => SetupView::CheckingDevice {
                devices: devices@,
                next: next as int,
            },
            Stage::ListingQueueFamilies { device } => SetupView::ListingQueueFamilies { device },
            Stage::CreatingDevice { device, family } => SetupView::CreatingDevice {
                device,
                family,
            },
            Stage::FetchingQueue { device, family } => SetupView::FetchingQueue { device, family },
            Stage::LoadingFunctions { device, family, queue } => SetupView::LoadingFunctions {
                device,
                family,
                queue,
            },
            Stage::CreatingPool { device, family, queue } => SetupView::CreatingPool {
                device,
                family,
                queue,
            },
            Stage::Finished(outcome) => SetupView::Finished(outcome_view(outcome)),
        }
    }
}

impl RendererSetup {
    #[verifier::type_invariant]
    spec fn has_device_to_check(self) -> bool {
        match self.stage {
            Stage::CheckingDevice { devices, next } => next < devices@.len(),
            _ => true,
        }
    }

    fn at(stage: Stage) -> (setup: RendererSetup)
        requires
            (RendererSetup { stage }).has_device_to_check(),
        ensures
            setup == (RendererSetup { stage }),
    {
        RendererSetup { stage }
    }

    fn fail(error: VulkanError) -> (setup: RendererSetup)
        ensures
            setup@ == failed(error@),
    {
        RendererSetup { stage: Stage::Finished(Err(error)) }
    }

    fn check_from(devices: Vec<usize>, next: usize) -> (setup: RendererSetup)
        ensures
            setup@ == checking_from(devices@, next as int),
    {
        if next < devices.len() {
            RendererSetup { stage: Stage::CheckingDevice { devices, next } }
        } else {
            Self::fail(VulkanError::NoDevice)
        }
    }

    /// The call to make next; none when the setup has ended.
    pub fn action(&self) -> (action: Option<SetupAction>)
        ensures
            action is Some <==> action_at(self@) is Some,
            action is Some ==> action->0@ == action_at(self@)->0,
    {
        proof {
            use_type_invariant(self);
        }
        match &self.stage {
            Stage::LoadingLibrary => Some(SetupAction::LoadLibrary),
            Stage::QueryingVersion => Some(SetupAction::QueryInstanceVersion),
            Stage::CreatingInstance => Some(
                SetupAction::CreateInstance(
                    InstanceRequest {
                        application_name: "Wolf Compositor",
                        application_version: ash::vk::make_api_version(0, 1, 0, 0),
                        engine_name: "Smithay",
                        engine_version: ash::vk::make_api_version(0, 1, 0, 0),
                        api_version: ash::vk::make_api_version(0, 1, 1, 0),
                        extensions: required_instance_extensions(),
                    },
                ),
            ),
            Stage::ListingDevices => Some(SetupAction::ListPhysicalDevices),
            Stage::CheckingDevice { devices, next } => Some(
                SetupAction::ListDeviceExtensions(devices[*next]),
            ),
            Stage::ListingQueueFamilies { device } => Some(
                SetupAction::ListQueueFamilies(*device),
            ),
            Stage::CreatingDevice { device, family } => Some(
                SetupAction::CreateDevice(
                    DeviceRequest {
                        physical_device: *device,
                        queue_family_index: *family,
                        queue_count: 1,
                        extensions: required_device_extensions(),
                    },
                ),
            ),
            Stage::FetchingQueue { device: _, family } => Some(
                SetupAction::GetDeviceQueue { queue_family_index: *family, queue_index: 0 },
            ),
            Stage::LoadingFunctions { .. } => Some(SetupAction::LoadExternalMemoryFd),
            Stage::CreatingPool { device: _, family, queue: _ } => Some(
                SetupAction::CreateCommandPool {
                    queue_family_index: *family,
                    flags: POOL_RESET_COMMAND_BUFFER,
                },
            ),
            Stage::Finished(_) => None,
        }
    }

    /// Whether the event is a reply to the call that this setup asks for.
    pub fn accepts(&self, event: &SetupEvent) -> (ok: bool)
        ensures
            ok == awaits(self@, event@),
    {
        match (&self.stage, event) {
            (Stage::LoadingLibrary, SetupEvent::LibraryLoaded(_)) => true,
            (Stage::QueryingVersion, SetupEvent::InstanceVersion(_)) => true,
            (Stage::CreatingInstance, SetupEvent::InstanceCreated(_)) => true,
            (Stage::ListingDevices, SetupEvent::PhysicalDevices(_)) => true,
            (Stage::CheckingDevice { .. }, SetupEvent::DeviceExtensions(_)) => true,
            (Stage::ListingQueueFamilies { .. }, SetupEvent::QueueFamilies(_)) => true,
            (Stage::CreatingDevice { .. }, SetupEvent::DeviceCreated(_)) => true,
            (Stage::FetchingQueue { .. }, SetupEvent::DeviceQueue(_)) => true,
            (Stage::LoadingFunctions { .. }, SetupEvent::ExternalMemoryFdLoaded) => true,
            (Stage::CreatingPool { .. }, SetupEvent::CommandPoolCreated(_)) => true,
            _ => false,
        }
    }

    /// Goes on with the reply to the call that this setup asked for.
    pub fn advance(self, event: SetupEvent) -> (next: RendererSetup)
        requires
            awaits(self@, event@),
        ensures
            next@ == step(self@, event@),
    {
        proof {
            use_type_invariant(&self);
        }
        match (self.stage, event) {
            (Stage::LoadingLibrary, SetupEvent::LibraryLoaded(loaded)) => {
                if loaded {
                    Self::at(Stage::QueryingVersion)
                } else {
                    Self::fail(VulkanError::LoadError)
                }
            },
            (Stage::QueryingVersion, SetupEvent::InstanceVersion(reply)) => {
                match reply {
                    Ok(version) => {
                        if meets_minimum_version(version) {
                            Self::at(Stage::CreatingInstance)
                        } else {
                            Self::fail(VulkanError::MissingExtension("Vulkan 1.1"))
                        }
                    },
                    Err(e) => Self::fail(VulkanError::from(e)),
                }
            },
            (Stage::CreatingInstance, SetupEvent::InstanceCreated(reply)) => {
                match reply {
                    Ok(_) => Self::at(Stage::ListingDevices),
                    Err(e) => Self::fail(VulkanError::from(e)),
                }
            },
            (Stage::ListingDevices, SetupEvent::PhysicalDevices(reply)) => {
                match reply {
                    Ok(devices) => Self::check_from(devices, 0),
                    Err(e) => Self::fail(VulkanError::from(e)),
                }
            },
            (Stage::CheckingDevice { devices, next }, SetupEvent::DeviceExtensions(reply)) => {
                if VulkanRenderer::is_device_suitable(&reply) {
                    Self::at(Stage::ListingQueueFamilies { device: devices[next] })
                } else {
                    assert(next < devices.len());
                    Self::check_from(devices, next + 1)
                }
            },
            (Stage::ListingQueueFamilies { device }, SetupEvent::QueueFamilies(families)) => {
                match find_graphics_family(&families) {
                    Some(family) => Self::at(Stage::CreatingDevice { device, family }),
                    None => Self::fail(VulkanError::NoDevice),
                }
            },
            (Stage::CreatingDevice { device, family }, SetupEvent::DeviceCreated(reply)) => {
                match reply {
                    Ok(_) => Self::at(Stage::FetchingQueue { device, family }),
                    Err(e) => Self::fail(VulkanError::from(e)),
                }
            },
            (Stage::FetchingQueue { device, family }, SetupEvent::DeviceQueue(queue)) => {
                Self::at(Stage::LoadingFunctions { device, family, queue })
            },
            (
                Stage::LoadingFunctions { device, family, queue },
                SetupEvent::ExternalMemoryFdLoaded,
            ) => { Self::at(Stage::CreatingPool { device, family, queue }) },
            (
                Stage::CreatingPool { device, family, queue },
                SetupEvent::CommandPoolCreated(reply),
            ) => {
                match reply {
                    Ok(pool) => {
                        let renderer = VulkanRenderer::from_handles(device, queue, family, pool);
                        Self::at(Stage::Finished(Ok(renderer)))
                    },
                    Err(e) => Self::fail(VulkanError::from(e)),
                }
            },
            (stage, _) => Self::at(stage),
        }
    }

    /// What the setup ended with; none while it still goes on.
    pub fn outcome(self) -> (outcome: Option<Result<VulkanRenderer, VulkanError>>)
        ensures
            outcome is Some <==> self@ is Finished,
            outcome is Some ==> self@ == SetupView::Finished(outcome_view(outcome->0)),
    {
        match self.stage {
            Stage::Finished(outcome) => Some(outcome),
            _ => None,
        }
    }
}

impl VulkanRenderer {
    /// Create a new Vulkan renderer
    ///
    /// The setup starts with the loading of the Vulkan library.
    pub fn new() -> (setup: RendererSetup)
        ensures
            setup@ == SetupView::LoadingLibrary,
    {
        RendererSetup { stage: Stage::LoadingLibrary }
    }
}

} // verus!
