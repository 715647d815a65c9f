use wayland_display_core::error::{VkResult, VulkanError};
use wayland_display_core::geometry::{
    DebugFlags, Format, Fourcc, Kind, Point, Rectangle, Size, TextureFilter, Transform, ABGR8888,
    ARGB8888, XBGR8888, XRGB8888,
};
use wayland_display_core::text::decimal;
use wayland_display_core::vulkan_renderer::{
    Dmabuf, TeardownStep, VulkanRenderer, VulkanTexture,
};
use wayland_display_core::vulkan_setup::{SetupAction, SetupEvent};

fn extension_buffers() -> Vec<Vec<u8>> {
    wayland_display_core::extensions::required_device_extensions()
        .iter()
        .map(|name| name.as_bytes().to_vec())
        .collect()
}

fn renderer() -> VulkanRenderer {
    let mut setup = VulkanRenderer::new();
    while let Some(action) = setup.action() {
        setup = setup.advance(match action {
            SetupAction::LoadLibrary => SetupEvent::LibraryLoaded(true),
            SetupAction::QueryInstanceVersion => {
                SetupEvent::InstanceVersion(Ok(Some(ash::vk::API_VERSION_1_2)))
            }
            SetupAction::CreateInstance(_) => SetupEvent::InstanceCreated(Ok(())),
            SetupAction::ListPhysicalDevices => SetupEvent::PhysicalDevices(Ok(vec![0xabc])),
            SetupAction::ListDeviceExtensions(_) => {
                SetupEvent::DeviceExtensions(Ok(extension_buffers()))
            }
            SetupAction::ListQueueFamilies(_) => SetupEvent::QueueFamilies(vec![1]),
            SetupAction::CreateDevice(_) => SetupEvent::DeviceCreated(Ok(())),
            SetupAction::GetDeviceQueue { .. } => SetupEvent::DeviceQueue(5),
            SetupAction::LoadExternalMemoryFd => SetupEvent::ExternalMemoryFdLoaded,
            SetupAction::CreateCommandPool { .. } => SetupEvent::CommandPoolCreated(Ok(6)),
        });
    }
    match setup.outcome() {
        Some(Ok(renderer)) => renderer,
        _ => panic!("no renderer"),
    }
}

fn argb() -> Fourcc {
    Fourcc { code: ARGB8888 }
}

fn dmabuf(width: u32, height: u32) -> Dmabuf {
    Dmabuf { width, height, format: Format { code: Fourcc { code: XBGR8888 }, modifier: 7 } }
}

fn rectangle() -> Rectangle {
    Rectangle { loc: Point { x: 1, y: 2 }, size: Size { w: 3, h: 4 } }
}

#[test]
fn imports_count_up_from_one() {
    let mut renderer = renderer();
    let size = Size { w: 64, h: 32 };
    let a = renderer.import_memory(&[1, 2, 3], argb(), size, true).ok().unwrap();
    let b = renderer.import_dmabuf(&dmabuf(1920, 1080), None).ok().unwrap();
    let c = renderer.import_dmabuf(&dmabuf(0, 2147483647), Some(&[rectangle()])).ok().unwrap();
    assert!(a == VulkanTexture { id: 1, size, format: argb() });
    assert_eq!(b.id, 2);
    assert_eq!(b.size, Size { w: 1920, h: 1080 });
    assert_eq!(b.format, Fourcc { code: XBGR8888 });
    assert_eq!(c.id, 3);
    assert_eq!(c.size, Size { w: 0, h: 2147483647 });
    assert_eq!(renderer.next_texture_id(), 4);
}

#[test]
fn other_operations_use_no_identifier() {
    let mut renderer = renderer();
    let texture = renderer.import_memory(&[], argb(), Size { w: 1, h: 1 }, false).ok().unwrap();
    renderer.set_debug_flags(DebugFlags { bits: 1 });
    assert!(renderer.downscale_filter(TextureFilter::Linear).is_ok());
    assert!(renderer.upscale_filter(TextureFilter::Nearest).is_ok());
    assert!(renderer.update_memory(&texture, &[9], rectangle()).is_ok());
    assert!(renderer.unbind().is_ok());
    assert!(renderer.bind(dmabuf(1, 1)).is_err());
    assert_eq!(renderer.next_texture_id(), 2);
}

#[test]
fn handles_are_released_as_they_were_set_up() {
    let mut renderer = renderer();
    let before = renderer.teardown();
    let _ = renderer.import_dmabuf(&dmabuf(4, 4), None);
    renderer.set_debug_flags(DebugFlags { bits: 1 });
    assert!(renderer.bind(dmabuf(1, 1)).is_err());
    assert_eq!(renderer.teardown(), before);
    assert!(before.contains(&TeardownStep::DestroyCommandPool(6)));
    assert_eq!(renderer.physical_device(), 0xabc);
    assert_eq!(renderer.queue(), 5);
    assert_eq!(renderer.queue_family_index(), 0);
}

#[test]
fn debug_flags_are_kept() {
    let mut renderer = renderer();
    assert_eq!(renderer.debug_flags(), DebugFlags { bits: 0 });
    renderer.set_debug_flags(DebugFlags { bits: 5 });
    assert_eq!(renderer.debug_flags(), DebugFlags { bits: 5 });
}

#[test]
fn binding_is_not_implemented() {
    let mut renderer = renderer();
    match renderer.bind(dmabuf(8, 8)) {
        Err(e) => assert_eq!(e.message(), "Not implemented: Bind<Dmabuf>"),
        Ok(()) => panic!("bound"),
    }
    assert!(renderer.supported_formats().is_none());
    assert!(renderer.dmabuf_formats().is_empty());
}

#[test]
fn memory_formats_are_listed_in_order() {
    let codes: Vec<u32> = renderer().mem_formats().iter().map(|f| f.code).collect();
    assert_eq!(codes, vec![ARGB8888, XRGB8888, ABGR8888, XBGR8888]);
    assert_eq!(
        codes,
        vec![
            drm_fourcc::DrmFourcc::Argb8888 as u32,
            drm_fourcc::DrmFourcc::Xrgb8888 as u32,
            drm_fourcc::DrmFourcc::Abgr8888 as u32,
            drm_fourcc::DrmFourcc::Xbgr8888 as u32,
        ]
    );
}

#[test]
fn frame_leaves_the_renderer_unchanged() {
    let mut renderer = renderer();
    let size = Size { w: 800, h: 600 };
    let texture = renderer.import_memory(&[], argb(), size, false).ok().unwrap();
    let mut frame = renderer.render(size, Transform::Flipped90).ok().unwrap();
    assert_eq!(frame.size, size);
    assert_eq!(frame.id(), 0);
    assert_eq!(frame.transformation(), Transform::Normal);
    assert!(frame.clear(&[rectangle()]).is_ok());
    assert!(frame.draw_solid_rect(rectangle()).is_ok());
    assert!(frame
        .render_texture_at(
            &texture,
            Point { x: 0, y: 0 },
            1,
            None,
            &[rectangle()],
            None,
            Kind::Unspecified
        )
        .is_ok());
    assert!(frame
        .render_texture_from_to(&texture, rectangle(), &[], Some(&[]), Transform::Normal)
        .is_ok());
    let sync = frame.finish().ok().unwrap();
    assert!(sync.is_reached());
    assert!(sync.wait().is_ok());
    assert_eq!(renderer.next_texture_id(), 2);
}

#[test]
fn debug_text_names_device_and_next_id() {
    let mut renderer = renderer();
    assert_eq!(
        renderer.debug_text(),
        "VulkanRenderer { physical_device: 0xabc, next_texture_id: 1 }"
    );
    for _ in 0..12 {
        let _ = renderer.import_memory(&[], argb(), Size { w: 1, h: 1 }, false);
    }
    assert_eq!(
        renderer.debug_text_with("?"),
        "VulkanRenderer { physical_device: ?, next_texture_id: 13 }"
    );
}

#[test]
fn decimal_text_of_numbers() {
    for n in [0, 1, 9, 10, 99, 100, 1234567890, u64::MAX] {
        assert_eq!(decimal(n), n.to_string());
    }
}

#[test]
fn every_error_has_its_message() {
    assert_eq!(VulkanError::LoadError.message(), "Failed to load Vulkan library");
    assert_eq!(VulkanError::NoDevice.message(), "No suitable Vulkan device found");
    assert_eq!(VulkanError::MissingExtension("X").message(), "Missing extension: X");
    assert_eq!(
        VulkanError::DmabufImport("bad fd".to_string()).message(),
        "DMA-BUF import failed: bad fd"
    );
    assert_eq!(VulkanError::RenderError("lost".to_string()).message(), "Render error: lost");
    assert_eq!(VulkanError::NotImplemented("Y").message(), "Not implemented: Y");
    assert_eq!(
        VulkanError::from(VkResult { code: -1 }).message(),
        "Vulkan error: ERROR_OUT_OF_HOST_MEMORY"
    );
    assert_eq!(VulkanError::VkError(VkResult { code: 123456 }).message(), "Vulkan error: 123456");
    assert_eq!(
        VulkanError::VkError(VkResult { code: 3 }).describe("code"),
        "Vulkan error: code"
    );
    assert_eq!(VulkanError::NoDevice.describe("code"), "No suitable Vulkan device found");
}
