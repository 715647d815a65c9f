use wayland_display_core::error::{VkResult, VulkanError};
use wayland_display_core::extensions::{
    buffer_spells, reports_extension, required_device_extensions, required_instance_extensions,
};
use wayland_display_core::renderer::{is_vulkan_available, setup_vulkan_renderer};
use wayland_display_core::version::meets_minimum_version;
use wayland_display_core::vulkan_renderer::{TeardownStep, VulkanRenderer};
use wayland_display_core::vulkan_setup::{
    find_graphics_family, RendererSetup, SetupAction, SetupEvent, POOL_RESET_COMMAND_BUFFER,
    QUEUE_GRAPHICS,
};

/// A machine with fixed replies.
struct Machine {
    loads: bool,
    version: Result<Option<u32>, VkResult>,
    instance: Result<(), VkResult>,
    devices: Result<Vec<usize>, VkResult>,
    extensions: Vec<Result<Vec<Vec<u8>>, VkResult>>,
    families: Vec<Vec<u32>>,
    device: Result<(), VkResult>,
    queue: usize,
    pool: Result<u64, VkResult>,
}

fn name_buffer(name: &str) -> Vec<u8> {
    let mut buffer = vec![0u8; 256];
    buffer[..name.len()].copy_from_slice(name.as_bytes());
    buffer
}

fn all_required() -> Vec<Vec<u8>> {
    required_device_extensions()
        .iter()
        .map(|name| name_buffer(name))
        .collect()
}

fn good_machine() -> Machine {
    Machine {
        loads: true,
        version: Ok(Some(ash::vk::API_VERSION_1_3)),
        instance: Ok(()),
        devices: Ok(vec![0x10, 0x20, 0x30]),
        extensions: vec![Ok(vec![]), Ok(all_required()), Ok(all_required())],
        families: vec![vec![1], vec![0xe, 0x6, 0xf, 0x1], vec![1]],
        device: Ok(()),
        queue: 0x77,
        pool: Ok(0x99),
    }
}

impl Machine {
    fn position(&self, handle: usize) -> usize {
        let devices = self.devices.as_ref().ok().unwrap();
        devices.iter().position(|d| *d == handle).unwrap()
    }

    fn reply(&self, action: &SetupAction) -> SetupEvent {
        match action {
            SetupAction::LoadLibrary => SetupEvent::LibraryLoaded(self.loads),
            SetupAction::QueryInstanceVersion => SetupEvent::InstanceVersion(self.version),
            SetupAction::CreateInstance(_) => SetupEvent::InstanceCreated(self.instance),
            SetupAction::ListPhysicalDevices => SetupEvent::PhysicalDevices(self.devices.clone()),
            SetupAction::ListDeviceExtensions(device) => {
                SetupEvent::DeviceExtensions(self.extensions[self.position(*device)].clone())
            }
            SetupAction::ListQueueFamilies(device) => {
                SetupEvent::QueueFamilies(self.families[self.position(*device)].clone())
            }
            SetupAction::CreateDevice(_) => SetupEvent::DeviceCreated(self.device),
            SetupAction::GetDeviceQueue { .. } => SetupEvent::DeviceQueue(self.queue),
            SetupAction::LoadExternalMemoryFd => SetupEvent::ExternalMemoryFdLoaded,
            SetupAction::CreateCommandPool { .. } => SetupEvent::CommandPoolCreated(self.pool),
        }
    }

    fn run(&self, setup: RendererSetup) -> (Result<VulkanRenderer, VulkanError>, Vec<SetupAction>) {
        let mut setup = setup;
        let mut calls = Vec::new();
        while let Some(action) = setup.action() {
            let event = self.reply(&action);
            assert!(setup.accepts(&event));
            setup = setup.advance(event);
            calls.push(action);
        }
        (setup.outcome().unwrap(), calls)
    }

    fn error(&self) -> String {
        match self.run(VulkanRenderer::new()).0 {
            Ok(_) => panic!("the setup succeeded"),
            Err(e) => e.message(),
        }
    }
}

#[test]
fn test_vulkan_renderer_creation() {
    let mut without_vulkan = good_machine();
    without_vulkan.loads = false;
    for machine in [good_machine(), without_vulkan] {
        match machine.run(VulkanRenderer::new()).0 {
            Ok(_renderer) => {
                assert!(machine.loads);
                println!("Created Vulkan renderer");
            }
            Err(e) => {
                assert!(!machine.loads);
                println!(
                    "Could not create Vulkan renderer (expected if no Vulkan): {}",
                    e.message()
                );
            }
        }
    }
}

#[test]
fn setup_ends_on_first_suitable_device() {
    let (outcome, calls) = good_machine().run(setup_vulkan_renderer());
    let renderer = outcome.unwrap_or_else(|e| panic!("{}", e.message()));
    assert_eq!(renderer.physical_device(), 0x20);
    assert_eq!(renderer.queue(), 0x77);
    assert_eq!(renderer.queue_family_index(), 2);
    assert_eq!(renderer.command_pool(), 0x99);
    assert_eq!(renderer.next_texture_id(), 1);
    assert_eq!(renderer.debug_flags().bits, 0);
    assert_eq!(calls.len(), 11);
    assert!(matches!(calls[4], SetupAction::ListDeviceExtensions(0x10)));
    assert!(matches!(calls[5], SetupAction::ListDeviceExtensions(0x20)));
    assert!(matches!(calls[6], SetupAction::ListQueueFamilies(0x20)));
    match &calls[2] {
        SetupAction::CreateInstance(request) => {
            assert_eq!(request.application_name, "Wolf Compositor");
            assert_eq!(request.application_version, ash::vk::API_VERSION_1_0);
            assert_eq!(request.engine_name, "Smithay");
            assert_eq!(request.engine_version, ash::vk::API_VERSION_1_0);
            assert_eq!(request.api_version, ash::vk::API_VERSION_1_1);
            assert_eq!(request.extensions, required_instance_extensions());
        }
        other => panic!("{:?}", other),
    }
    match &calls[7] {
        SetupAction::CreateDevice(request) => {
            assert_eq!(request.physical_device, 0x20);
            assert_eq!(request.queue_family_index, 2);
            assert_eq!(request.queue_count, 1);
            assert_eq!(request.extensions, required_device_extensions());
        }
        other => panic!("{:?}", other),
    }
    assert!(matches!(
        calls[8],
        SetupAction::GetDeviceQueue { queue_family_index: 2, queue_index: 0 }
    ));
    assert!(matches!(calls[9], SetupAction::LoadExternalMemoryFd));
    match calls[10] {
        SetupAction::CreateCommandPool { queue_family_index, flags } => {
            assert_eq!(queue_family_index, 2);
            let reset = ash::vk::CommandPoolCreateFlags::RESET_COMMAND_BUFFER;
            assert_eq!(flags, reset.as_raw());
        }
        _ => panic!("no command pool"),
    }
}

#[test]
fn released_in_reverse_order() {
    let renderer = good_machine().run(VulkanRenderer::new()).0.ok().unwrap();
    assert_eq!(
        renderer.teardown(),
        vec![
            TeardownStep::WaitIdle,
            TeardownStep::DestroyCommandPool(0x99),
            TeardownStep::DestroyDevice,
            TeardownStep::DestroyInstance,
        ]
    );
}

#[test]
fn missing_library_is_load_error() {
    let mut machine = good_machine();
    machine.loads = false;
    assert_eq!(machine.error(), "Failed to load Vulkan library");
    assert_eq!(machine.run(VulkanRenderer::new()).1.len(), 1);
}

#[test]
fn old_or_silent_loader_is_missing_extension() {
    let mut machine = good_machine();
    machine.version = Ok(None);
    assert_eq!(machine.error(), "Missing extension: Vulkan 1.1");
    machine.version = Ok(Some(ash::vk::API_VERSION_1_0));
    assert_eq!(machine.error(), "Missing extension: Vulkan 1.1");
    machine.version = Ok(Some(ash::vk::API_VERSION_1_1));
    assert!(machine.run(VulkanRenderer::new()).0.is_ok());
}

#[test]
fn vulkan_errors_are_passed_on() {
    let lost = VkResult { code: ash::vk::Result::ERROR_DEVICE_LOST.as_raw() };
    let text = "Vulkan error: ERROR_DEVICE_LOST";
    let mut machine = good_machine();
    machine.version = Err(lost);
    assert_eq!(machine.error(), text);
    let mut machine = good_machine();
    machine.instance = Err(lost);
    assert_eq!(machine.error(), text);
    let mut machine = good_machine();
    machine.devices = Err(lost);
    assert_eq!(machine.error(), text);
    let mut machine = good_machine();
    machine.device = Err(lost);
    assert_eq!(machine.error(), text);
    let mut machine = good_machine();
    machine.pool = Err(lost);
    assert_eq!(machine.error(), text);
}

#[test]
fn no_usable_device_is_no_device() {
    let text = "No suitable Vulkan device found";
    let mut machine = good_machine();
    machine.devices = Ok(vec![]);
    assert_eq!(machine.error(), text);
    let mut machine = good_machine();
    machine.devices = Ok(vec![0x10]);
    assert_eq!(machine.error(), text);
    // The first suitable device decides, though the last one could draw.
    let mut machine = good_machine();
    machine.families[1] = vec![0x6, 0xe];
    assert_eq!(machine.error(), text);
}

#[test]
fn device_that_does_not_list_extensions_is_skipped() {
    let mut machine = good_machine();
    machine.extensions[1] = Err(VkResult { code: -1 });
    let renderer = machine.run(VulkanRenderer::new()).0.ok().unwrap();
    assert_eq!(renderer.physical_device(), 0x30);
    assert_eq!(renderer.queue_family_index(), 0);
}

#[test]
fn availability_follows_the_attempt() {
    let mut machine = good_machine();
    let success = machine.run(setup_vulkan_renderer()).0;
    machine.loads = false;
    let failure = machine.run(setup_vulkan_renderer()).0;
    assert!(is_vulkan_available(Some(&success)));
    assert!(!is_vulkan_available(Some(&failure)));
    assert!(!is_vulkan_available(None));
}

#[test]
fn setup_accepts_only_the_awaited_reply() {
    let setup = VulkanRenderer::new();
    assert!(setup.accepts(&SetupEvent::LibraryLoaded(true)));
    assert!(!setup.accepts(&SetupEvent::DeviceQueue(1)));
    assert!(setup.outcome().is_none());
}

#[test]
fn suitability_needs_every_extension() {
    assert!(VulkanRenderer::is_device_suitable(&Ok(all_required())));
    for i in 0..6 {
        let mut names = all_required();
        names.remove(i);
        assert!(!VulkanRenderer::is_device_suitable(&Ok(names)));
    }
    let mut shuffled = all_required();
    shuffled.reverse();
    shuffled.push(name_buffer("VK_KHR_swapchain"));
    for buffer in shuffled.iter_mut() {
        buffer[255] = b'x';
    }
    assert!(VulkanRenderer::is_device_suitable(&Ok(shuffled)));
    assert!(!VulkanRenderer::is_device_suitable(&Ok(vec![])));
    assert!(!VulkanRenderer::is_device_suitable(&Err(VkResult { code: -3 })));
}

#[test]
fn names_end_at_the_first_nul() {
    let mut buffer = name_buffer("VK_KHR_external_memory");
    assert!(buffer_spells(&buffer, "VK_KHR_external_memory"));
    assert!(!buffer_spells(&buffer, "VK_KHR_external_memory_fd"));
    assert!(!buffer_spells(&buffer, "VK_KHR_external"));
    assert!(!buffer_spells(&buffer, "VK_KHR_external_memorx"));
    buffer[40] = b'x';
    assert!(buffer_spells(&buffer, "VK_KHR_external_memory"));
    assert!(buffer_spells(&b"abc".to_vec(), "abc"));
    assert!(!buffer_spells(&b"ab".to_vec(), "abc"));
    assert!(!reports_extension(&vec![buffer], "VK_KHR_external_memory_fd"));
}

#[test]
fn extension_names_are_those_of_the_bindings() {
    let instance: Vec<&str> = vec![
        ash::khr::external_memory_capabilities::NAME.to_str().unwrap(),
        ash::khr::external_semaphore_capabilities::NAME.to_str().unwrap(),
        ash::khr::get_physical_device_properties2::NAME.to_str().unwrap(),
    ];
    let device: Vec<&str> = vec![
        ash::khr::external_memory::NAME.to_str().unwrap(),
        ash::khr::external_memory_fd::NAME.to_str().unwrap(),
        ash::ext::external_memory_dma_buf::NAME.to_str().unwrap(),
        ash::ext::image_drm_format_modifier::NAME.to_str().unwrap(),
        ash::khr::external_semaphore::NAME.to_str().unwrap(),
        ash::khr::external_semaphore_fd::NAME.to_str().unwrap(),
    ];
    assert_eq!(required_instance_extensions(), instance);
    assert_eq!(required_device_extensions(), device);
}

#[test]
fn flags_are_those_of_the_bindings() {
    assert_eq!(QUEUE_GRAPHICS, ash::vk::QueueFlags::GRAPHICS.as_raw());
    let reset = ash::vk::CommandPoolCreateFlags::RESET_COMMAND_BUFFER;
    assert_eq!(POOL_RESET_COMMAND_BUFFER, reset.as_raw());
}

#[test]
fn first_graphics_family_is_found() {
    assert_eq!(find_graphics_family(&vec![0x2, 0x4, 0x7, 0x1]), Some(2));
    assert_eq!(find_graphics_family(&vec![0x1]), Some(0));
    assert_eq!(find_graphics_family(&vec![0x2, 0xe]), None);
    assert_eq!(find_graphics_family(&vec![]), None);
}

#[test]
fn versions_from_one_one_on_are_accepted() {
    assert!(!meets_minimum_version(None));
    assert!(!meets_minimum_version(Some(0)));
    assert!(!meets_minimum_version(Some(ash::vk::make_api_version(0, 0, 9, 0))));
    assert!(!meets_minimum_version(Some(ash::vk::make_api_version(0, 1, 0, 4095))));
    assert!(meets_minimum_version(Some(ash::vk::make_api_version(0, 1, 1, 0))));
    assert!(meets_minimum_version(Some(ash::vk::make_api_version(0, 1, 3, 281))));
    assert!(meets_minimum_version(Some(ash::vk::make_api_version(0, 2, 0, 0))));
    assert!(meets_minimum_version(Some(ash::vk::make_api_version(3, 1, 1, 0))));
    assert!(!meets_minimum_version(Some(ash::vk::make_api_version(7, 1, 0, 0))));
}
