//! What a caller of the Vulkan setup can rely on.
//!
//! Each law speaks of the operations themselves, through what they return for what
//! they are given: the replies that a setup was handed and the calls that it asked
//! for. None of them looks inside a setup.

use vstd::prelude::*;

use crate::error::{VkResult, VulkanError};
use crate::extensions::{
    buffer_spells, reports_extension, required_device_extensions, required_instance_extensions,
};
use crate::renderer::{is_vulkan_available, setup_vulkan_renderer};
use crate::version::meets_minimum_version;
use crate::vulkan_renderer::VulkanRenderer;
use crate::vulkan_setup::{
    find_graphics_family, RendererSetup, SetupAction, SetupEvent, SetupView,
};

verus! {

/// A loader is recent enough exactly when it reports a version whose major number,
/// the seven bits from bit 22 up, and minor number, the ten bits from bit 12 up, are
/// at least 1 and 1.
pub proof fn law_version_gate(reported: Option<u32>, ok: bool)
    requires
        call_ensures(meets_minimum_version, (reported,), ok),
    ensures
        reported is None ==> !ok,
        reported matches Some(v) ==> (ok <==> (v / 0x40_0000) % 0x80 > 1 || ((v / 0x40_0000) % 0x80
            == 1 && (v / 0x1000) % 0x400 >= 1)),
{
    crate::version::law_silent_loader_is_too_old();
    if reported is Some {
        let v = reported->0;
        assert((v >> 22) & 0x7f == (v / 0x40_0000) % 0x80) by (bit_vector);
        assert((v >> 12) & 0x3ff == (v / 0x1000) % 0x400) by (bit_vector);
    }
}

/// A buffer spells a name exactly when it starts with the bytes of the name, none of
/// them NUL, and these are followed by a NUL or by nothing.
pub proof fn law_buffer_spells_its_c_string(buffer: Vec<u8>, name: &str, same: bool)
    requires
        call_ensures(buffer_spells, (&buffer, name), same),
    ensures
        ({
            let bytes = vstd::utf8::encode_utf8(name@);
            same <==> {
                &&& bytes.len() <= buffer@.len()
                &&& forall|j: int|
                    0 <= j < bytes.len() ==> #[trigger] buffer@[j] == bytes[j] && buffer@[j] != 0
                &&& (bytes.len() == buffer@.len() || buffer@[bytes.len() as int] == 0)
            }
        }),
{
    lemma_spells(buffer@, vstd::utf8::encode_utf8(name@));
}

proof fn lemma_spells(buffer: Seq<u8>, bytes: Seq<u8>)
    ensures
        crate::extensions::spells(buffer, bytes) <==> {
            &&& bytes.len() <= buffer.len()
            &&& forall|j: int|
                0 <= j < bytes.len() ==> #[trigger] buffer[j] == bytes[j] && buffer[j] != 0
            &&& (bytes.len() == buffer.len() || buffer[bytes.len() as int] == 0)
        },
{
    if crate::extensions::spells(buffer, bytes) {
        assert forall|j: int| 0 <= j < bytes.len() implies #[trigger] buffer[j] == bytes[j]
            && buffer[j] != 0 by {
            assert(buffer.subrange(0, bytes.len() as int)[j] == bytes[j]);
            assert(bytes.contains(bytes[j]));
        }
    }
    if {
        &&& bytes.len() <= buffer.len()
        &&& forall|j: int|
            0 <= j < bytes.len() ==> #[trigger] buffer[j] == bytes[j] && buffer[j] != 0
        &&& (bytes.len() == buffer.len() || buffer[bytes.len() as int] == 0)
    } {
        assert(buffer.subrange(0, bytes.len() as int) =~= bytes);
        assert(!bytes.contains(0u8)) by {
            if bytes.contains(0u8) {
                let j = choose|j: int| 0 <= j < bytes.len() && bytes[j] == 0;
                assert(buffer[j] == bytes[j]);
            }
        }
    }
}

/// A name is reported exactly when some buffer spells it.
pub proof fn law_name_is_reported(reported: Vec<Vec<u8>>, name: &str, found: bool)
    requires
        call_ensures(reports_extension, (&reported, name), found),
    ensures
        ({
            let bytes = vstd::utf8::encode_utf8(name@);
            found <==> exists|b: int|
                0 <= b < reported@.len() && {
                    let buffer = #[trigger] reported@[b]@;
                    &&& bytes.len() <= buffer.len()
                    &&& forall|j: int|
                        0 <= j < bytes.len() ==> #[trigger] buffer[j] == bytes[j] && buffer[j] != 0
                    &&& (bytes.len() == buffer.len() || buffer[bytes.len() as int] == 0)
                }
        }),
{
    lemma_offers(reported, name@);
}

proof fn lemma_offers(reported: Vec<Vec<u8>>, name: Seq<char>)
    ensures
        ({
            let bytes = vstd::utf8::encode_utf8(name);
            crate::extensions::offers(reported.deep_view(), name) <==> exists|b: int|
                0 <= b < reported@.len() && {
                    let buffer = #[trigger] reported@[b]@;
                    &&& bytes.len() <= buffer.len()
                    &&& forall|j: int|
                        0 <= j < bytes.len() ==> #[trigger] buffer[j] == bytes[j] && buffer[j] != 0
                    &&& (bytes.len() == buffer.len() || buffer[bytes.len() as int] == 0)
                }
        }),
{
    let bytes = vstd::utf8::encode_utf8(name);
    let views = reported.deep_view();
    assert(views.len() == reported@.len());
    assert forall|b: int| 0 <= b < reported@.len() implies #[trigger] views[b] == reported@[b]@ by {
        assert(views[b] == reported@[b].deep_view());
        assert(reported@[b].deep_view() =~= reported@[b]@);
    }
    if crate::extensions::offers(views, name) {
        let b = choose|b: int|
            0 <= b < views.len() && crate::extensions::spells(#[trigger] views[b], bytes);
        lemma_spells(reported@[b]@, bytes);
    }
    if exists|b: int|
        0 <= b < reported@.len() && {
            let buffer = #[trigger] reported@[b]@;
            &&& bytes.len() <= buffer.len()
            &&& forall|j: int|
                0 <= j < bytes.len() ==> #[trigger] buffer[j] == bytes[j] && buffer[j] != 0
            &&& (bytes.len() == buffer.len() || buffer[bytes.len() as int] == 0)
        } {
        let b = choose|b: int|
            0 <= b < reported@.len() && {
                let buffer = #[trigger] reported@[b]@;
                &&& bytes.len() <= buffer.len()
                &&& forall|j: int|
                    0 <= j < bytes.len() ==> #[trigger] buffer[j] == bytes[j] && buffer[j] != 0
                &&& (bytes.len() == buffer.len() || buffer[bytes.len() as int] == 0)
            };
        lemma_spells(reported@[b]@, bytes);
        assert(crate::extensions::spells(views[b], bytes));
    }
}

/// A device is suitable exactly when its extensions could be listed and each of the
/// six names that DMA-BUF import needs is spelled by one of the reported buffers. What
/// else is reported makes no difference: with any of the six missing it is refused.
pub proof fn law_suitable_needs_all_six(extensions: Result<Vec<Vec<u8>>, VkResult>, ok: bool)
    requires
        call_ensures(VulkanRenderer::is_device_suitable, (&extensions,), ok),
    ensures
        extensions is Err ==> !ok,
        extensions matches Ok(reported) ==> (ok <==> forall|name: Seq<char>|
            #![trigger vstd::utf8::encode_utf8(name)]
            {
                ||| name == "VK_KHR_external_memory"@
                ||| name == "VK_KHR_external_memory_fd"@
                ||| name == "VK_EXT_external_memory_dma_buf"@
                ||| name == "VK_EXT_image_drm_format_modifier"@
                ||| name == "VK_KHR_external_semaphore"@
                ||| name == "VK_KHR_external_semaphore_fd"@
            } ==> exists|b: int|
                0 <= b < reported@.len() && {
                    let buffer = #[trigger] reported@[b]@;
                    let bytes = vstd::utf8::encode_utf8(name);
                    &&& bytes.len() <= buffer.len()
                    &&& forall|j: int|
                        0 <= j < bytes.len() ==> #[trigger] buffer[j] == bytes[j] && buffer[j] != 0
                    &&& (bytes.len() == buffer.len() || buffer[bytes.len() as int] == 0)
                }),
{
    let names = crate::extensions::device_extension_names();
    assert(names[0] == "VK_KHR_external_memory"@);
    assert(names[1] == "VK_KHR_external_memory_fd"@);
    assert(names[2] == "VK_EXT_external_memory_dma_buf"@);
    assert(names[3] == "VK_EXT_image_drm_format_modifier"@);
    assert(names[4] == "VK_KHR_external_semaphore"@);
    assert(names[5] == "VK_KHR_external_semaphore_fd"@);
    if extensions is Ok {
        let reported = extensions->Ok_0;
        assert forall|k: int| 0 <= k < 6 implies {
            ||| names[k] == "VK_KHR_external_memory"@
            ||| names[k] == "VK_KHR_external_memory_fd"@
            ||| names[k] == "VK_EXT_external_memory_dma_buf"@
            ||| names[k] == "VK_EXT_image_drm_format_modifier"@
            ||| names[k] == "VK_KHR_external_semaphore"@
            ||| names[k] == "VK_KHR_external_semaphore_fd"@
        } by {
            assert(k == 0 || k == 1 || k == 2 || k == 3 || k == 4 || k == 5);
        }
        assert forall|name: Seq<char>|
            #![trigger vstd::utf8::encode_utf8(name)]
            true implies crate::extensions::offers(reported.deep_view(), name) <==> exists|b: int|
            0 <= b < reported@.len() && {
                let buffer = #[trigger] reported@[b]@;
                let bytes = vstd::utf8::encode_utf8(name);
                &&& bytes.len() <= buffer.len()
                &&& forall|j: int|
                    0 <= j < bytes.len() ==> #[trigger] buffer[j] == bytes[j] && buffer[j] != 0
                &&& (bytes.len() == buffer.len() || buffer[bytes.len() as int] == 0)
            } by {
            lemma_offers(reported, name);
        }
        assert forall|k: int| 0 <= k < 6 implies crate::extensions::offers(
            reported.deep_view(),
            #[trigger] names[k],
        ) == crate::extensions::reports(
            reported.deep_view(),
            vstd::utf8::encode_utf8(names[k]),
        ) by {
        }
    }
}

/// The required extensions are listed in a fixed order.
pub proof fn law_required_extensions(
    instance: Vec<&'static str>,
    device: Vec<&'static str>,
)
    requires
        call_ensures(required_instance_extensions, (), instance),
        call_ensures(required_device_extensions, (), device),
    ensures
        instance@.len() == 3,
        instance@[0]@ == "VK_KHR_external_memory_capabilities"@,
        instance@[1]@ == "VK_KHR_external_semaphore_capabilities"@,
        instance@[2]@ == "VK_KHR_get_physical_device_properties2"@,
        device@.len() == 6,
        device@[0]@ == "VK_KHR_external_memory"@,
        device@[1]@ == "VK_KHR_external_memory_fd"@,
        device@[2]@ == "VK_EXT_external_memory_dma_buf"@,
        device@[3]@ == "VK_EXT_image_drm_format_modifier"@,
        device@[4]@ == "VK_KHR_external_semaphore"@,
        device@[5]@ == "VK_KHR_external_semaphore_fd"@,
{
    lemma_instance_texts(instance@);
    lemma_device_texts(device@);
}

proof fn lemma_instance_texts(names: Seq<&'static str>)
    requires
        crate::extensions::texts(names) == crate::extensions::instance_extension_names(),
    ensures
        names.len() == 3,
        names[0]@ == "VK_KHR_external_memory_capabilities"@,
        names[1]@ == "VK_KHR_external_semaphore_capabilities"@,
        names[2]@ == "VK_KHR_get_physical_device_properties2"@,
{
    let texts = crate::extensions::texts(names);
    assert(texts.len() == names.len());
    assert(texts[0] == names[0]@);
    assert(texts[1] == names[1]@);
    assert(texts[2] == names[2]@);
}

proof fn lemma_device_texts(names: Seq<&'static str>)
    requires
        crate::extensions::texts(names) == crate::extensions::device_extension_names(),
    ensures
        names.len() == 6,
        names[0]@ == "VK_KHR_external_memory"@,
        names[1]@ == "VK_KHR_external_memory_fd"@,
        names[2]@ == "VK_EXT_external_memory_dma_buf"@,
        names[3]@ == "VK_EXT_image_drm_format_modifier"@,
        names[4]@ == "VK_KHR_external_semaphore"@,
        names[5]@ == "VK_KHR_external_semaphore_fd"@,
{
    let texts = crate::extensions::texts(names);
    assert(texts.len() == names.len());
    assert(texts[0] == names[0]@);
    assert(texts[1] == names[1]@);
    assert(texts[2] == names[2]@);
    assert(texts[3] == names[3]@);
    assert(texts[4] == names[4]@);
    assert(texts[5] == names[5]@);
}

/// The graphics family is the first whose flags have the lowest bit; there is none
/// exactly where no flags have it.
pub proof fn law_first_family_with_graphics(families: Vec<u32>, found: Option<u32>)
    requires
        call_ensures(find_graphics_family, (&families,), found),
    ensures
        found is None <==> forall|i: int|
            0 <= i < families@.len() ==> #[trigger] families@[i] % 2 == 0,
        found matches Some(k) ==> exists|i: int|
            {
                &&& 0 <= i < families@.len()
                &&& #[trigger] families@[i] % 2 == 1
                &&& forall|j: int| 0 <= j < i ==> #[trigger] families@[j] % 2 == 0
                &&& k == i as u32
            },
{
    lemma_graphics_family(families@);
}

proof fn lemma_graphics_family(families: Seq<u32>)
    ensures
        ({
            let found = crate::vulkan_setup::graphics_family(families);
            &&& found is None <==> forall|i: int|
                0 <= i < families.len() ==> #[trigger] families[i] % 2 == 0
            &&& found matches Some(k) ==> exists|i: int|
                {
                    &&& 0 <= i < families.len()
                    &&& #[trigger] families[i] % 2 == 1
                    &&& forall|j: int| 0 <= j < i ==> #[trigger] families[j] % 2 == 0
                    &&& k == i as u32
                }
        }),
{
    assert forall|flags: u32| #[trigger]
        crate::vulkan_setup::supports_graphics(flags) <==> flags % 2 == 1 by {
        assert(flags & 0x1 == 0x1 <==> flags % 2 == 1) by (bit_vector);
    }
    assert forall|i: int| 0 <= i < families.len() implies (
    #[trigger] families[i] % 2 == 1 <==> crate::vulkan_setup::supports_graphics(families[i])) by {
    }
    if exists|i: int| crate::vulkan_setup::is_first_graphics(families, i) {
        let i = choose|i: int| crate::vulkan_setup::is_first_graphics(families, i);
        assert(families[i] % 2 == 1);
        assert forall|j: int| 0 <= j < i implies #[trigger] families[j] % 2 == 0 by {
            assert(!crate::vulkan_setup::supports_graphics(families[j]));
        }
    } else {
        lemma_no_first_graphics(families, families.len() as int);
        assert forall|i: int| 0 <= i < families.len() implies #[trigger] families[i] % 2 == 0 by {
            assert(!crate::vulkan_setup::supports_graphics(families[i]));
        }
    }
}

proof fn lemma_no_first_graphics(families: Seq<u32>, n: int)
    requires
        0 <= n <= families.len(),
        !exists|i: int| crate::vulkan_setup::is_first_graphics(families, i),
    ensures
        forall|i: int|
            0 <= i < n ==> !crate::vulkan_setup::supports_graphics(#[trigger] families[i]),
    decreases n,
{
    if n > 0 {
        lemma_no_first_graphics(families, n - 1);
        if crate::vulkan_setup::supports_graphics(families[n - 1]) {
            assert(crate::vulkan_setup::is_first_graphics(families, n - 1));
        }
    }
}

/// Vulkan is available exactly where an attempt was made and gave a renderer.
pub proof fn law_available_with_a_renderer(
    attempt: Option<&Result<VulkanRenderer, VulkanError>>,
    ok: bool,
)
    requires
        call_ensures(is_vulkan_available, (attempt,), ok),
    ensures
        ok <==> attempt is Some && *attempt->0 is Ok,
{
}

/// The setup asks for the call, takes the reply to it and goes on.
pub open spec fn goes_on(
    setup: RendererSetup,
    action: SetupAction,
    event: SetupEvent,
    next: RendererSetup,
) -> bool {
    &&& call_ensures(RendererSetup::action, (&setup,), Some(action))
    &&& call_ensures(RendererSetup::accepts, (&setup, &event), true)
    &&& call_ensures(RendererSetup::advance, (setup, event), next)
}

/// A run of a new setup: at each point it asked for `actions[i]` and was handed
/// `events[i]`.
pub open spec fn is_run(
    setups: Seq<RendererSetup>,
    actions: Seq<SetupAction>,
    events: Seq<SetupEvent>,
) -> bool {
    &&& setups.len() == events.len() + 1
    &&& actions.len() == events.len()
    &&& (call_ensures(VulkanRenderer::new, (), setups[0]) || call_ensures(
        setup_vulkan_renderer,
        (),
        setups[0],
    ))
    &&& forall|i: int|
        #![trigger actions[i]]
        #![trigger events[i]]
        0 <= i < events.len() ==> goes_on(setups[i], actions[i], events[i], setups[i + 1])
}

/// How the point that a run has reached goes together with what was asked and replied.
spec fn fits(
    setup: SetupView,
    actions: Seq<SetupAction>,
    events: Seq<SetupEvent>,
    i: int,
) -> bool {
    match setup {
        SetupView::LoadingLibrary => i == 0,
        SetupView::QueryingVersion => i == 1,
        SetupView::CreatingInstance => i == 2,
        SetupView::ListingDevices => i == 3,
        SetupView::CheckingDevice { devices, next } => {
            &&& 0 <= next < devices.len()
            &&& i == 4 + next
            &&& events[3] is PhysicalDevices
            &&& events[3]->PhysicalDevices_0 is Ok
            &&& events[3]->PhysicalDevices_0->Ok_0@ == devices
        },
        SetupView::ListingQueueFamilies { device } => {
            &&& i >= 5
            &&& events[3] is PhysicalDevices
            &&& events[3]->PhysicalDevices_0 is Ok
            &&& i - 5 < events[3]->PhysicalDevices_0->Ok_0@.len()
            &&& device == events[3]->PhysicalDevices_0->Ok_0@[i - 5]
            &&& actions[i - 1] == SetupAction::ListDeviceExtensions(device)
        },
        SetupView::CreatingDevice { device, family } => {
            &&& i >= 6
            &&& actions[i - 1] == SetupAction::ListQueueFamilies(device)
            &&& events[i - 1] is QueueFamilies
            &&& crate::vulkan_setup::graphics_family(events[i - 1]->QueueFamilies_0@) == Some(
                family,
            )
        },
        SetupView::FetchingQueue { device, family } => {
            &&& i >= 7
            &&& actions[i - 1] is CreateDevice
            &&& actions[i - 1]->CreateDevice_0.physical_device == device
            &&& actions[i - 1]->CreateDevice_0.queue_family_index == family
        },
        SetupView::LoadingFunctions { device, family, queue } => {
            &&& i >= 8
            &&& actions[i - 2] is CreateDevice
            &&& actions[i - 2]->CreateDevice_0.physical_device == device
            &&& actions[i - 2]->CreateDevice_0.queue_family_index == family
            &&& events[i - 1] == SetupEvent::DeviceQueue(queue)
        },
        SetupView::CreatingPool { device, family, queue } => {
            &&& i >= 9
            &&& actions[i - 3] is CreateDevice
            &&& actions[i - 3]->CreateDevice_0.physical_device == device
            &&& actions[i - 3]->CreateDevice_0.queue_family_index == family
            &&& events[i - 2] == SetupEvent::DeviceQueue(queue)
        },
        SetupView::Finished(_) => i >= 1,
    }
}

proof fn lemma_run_fits(
    setups: Seq<RendererSetup>,
    actions: Seq<SetupAction>,
    events: Seq<SetupEvent>,
    i: int,
)
    requires
        is_run(setups, actions, events),
        0 <= i <= events.len(),
    ensures
        fits(setups[i]@, actions, events, i),
    decreases i,
{
    if i > 0 {
        lemma_run_fits(setups, actions, events, i - 1);
        assert(goes_on(setups[i - 1], actions[i - 1], events[i - 1], setups[i - 1 + 1]));
        assert(setups[i]@ == crate::vulkan_setup::step(setups[i - 1]@, events[i - 1]@));
        assert(crate::vulkan_setup::awaits(setups[i - 1]@, events[i - 1]@));
        assert(actions[i - 1]@ == crate::vulkan_setup::action_at(setups[i - 1]@)->0);
    }
}

/// What a setup shows to its driver: the call that it asks for and its outcome.
pub open spec fn shows(
    setup: RendererSetup,
    asked: Option<SetupAction>,
    ended: Option<Result<VulkanRenderer, VulkanError>>,
) -> bool {
    &&& call_ensures(RendererSetup::action, (&setup,), asked)
    &&& call_ensures(RendererSetup::outcome, (setup,), ended)
}

/// A setup starts with the loading of the library and has no outcome yet.
pub proof fn law_setup_starts_with_library(
    setup: RendererSetup,
    asked: Option<SetupAction>,
    ended: Option<Result<VulkanRenderer, VulkanError>>,
)
    requires
        call_ensures(VulkanRenderer::new, (), setup) || call_ensures(
            setup_vulkan_renderer,
            (),
            setup,
        ),
        shows(setup, asked, ended),
    ensures
        asked == Some(SetupAction::LoadLibrary),
        ended is None,
{
}

/// At every point of a run there is either a call to make or an outcome, never both
/// and never neither.
pub proof fn law_setup_asks_or_has_ended(
    setups: Seq<RendererSetup>,
    actions: Seq<SetupAction>,
    events: Seq<SetupEvent>,
    i: int,
    asked: Option<SetupAction>,
    ended: Option<Result<VulkanRenderer, VulkanError>>,
)
    requires
        is_run(setups, actions, events),
        0 <= i < events.len(),
        shows(setups[i + 1], asked, ended),
    ensures
        asked is Some <==> ended is None,
{
    lemma_run_fits(setups, actions, events, i);
    lemma_run_fits(setups, actions, events, i + 1);
    assert(goes_on(setups[i], actions[i], events[i], setups[i + 1]));
}

/// The library is loaded first. Once it is there, the loader is asked for its version;
/// without it the setup ends with the load error.
pub proof fn law_after_library(
    setups: Seq<RendererSetup>,
    actions: Seq<SetupAction>,
    events: Seq<SetupEvent>,
    i: int,
    asked: Option<SetupAction>,
    ended: Option<Result<VulkanRenderer, VulkanError>>,
)
    requires
        is_run(setups, actions, events),
        0 <= i < events.len(),
        shows(setups[i + 1], asked, ended),
        events[i] is LibraryLoaded,
    ensures
        i == 0,
        actions[i] == SetupAction::LoadLibrary,
        events[i]->LibraryLoaded_0 ==> asked == Some(SetupAction::QueryInstanceVersion),
        !events[i]->LibraryLoaded_0 ==> ended is Some && ended->0 is Err && ended->0->Err_0
            is LoadError,
{
    lemma_run_fits(setups, actions, events, i);
    lemma_run_fits(setups, actions, events, i + 1);
    assert(goes_on(setups[i], actions[i], events[i], setups[i + 1]));
}

/// An instance is asked for exactly where the reported version meets the minimum. The
/// request carries the fixed names, versions and extensions.
pub proof fn law_after_version(
    setups: Seq<RendererSetup>,
    actions: Seq<SetupAction>,
    events: Seq<SetupEvent>,
    i: int,
    asked: Option<SetupAction>,
    ended: Option<Result<VulkanRenderer, VulkanError>>,
    recent: bool,
)
    requires
        is_run(setups, actions, events),
        0 <= i < events.len(),
        shows(setups[i + 1], asked, ended),
        events[i] is InstanceVersion,
        events[i]->InstanceVersion_0 is Ok ==> call_ensures(
            meets_minimum_version,
            (events[i]->InstanceVersion_0->Ok_0,),
            recent,
        ),
    ensures
        i == 1,
        actions[i] == SetupAction::QueryInstanceVersion,
        events[i]->InstanceVersion_0 matches Err(e) ==> ended is Some && ended->0 is Err
            && ended->0->Err_0 == VulkanError::VkError(e),
        events[i]->InstanceVersion_0 is Ok && !recent ==> ended is Some && ended->0 is Err
            && ended->0->Err_0 is MissingExtension && ended->0->Err_0->MissingExtension_0@
            == "Vulkan 1.1"@,
        events[i]->InstanceVersion_0 is Ok && recent ==> {
            &&& asked is Some
            &&& asked->0 is CreateInstance
            &&& {
                let request = asked->0->CreateInstance_0;
                &&& request.application_name@ == "Wolf Compositor"@
                &&& request.application_version == 0x40_0000
                &&& request.engine_name@ == "Smithay"@
                &&& request.engine_version == 0x40_0000
                &&& request.api_version == 0x40_1000
                &&& request.extensions@.len() == 3
                &&& request.extensions@[0]@ == "VK_KHR_external_memory_capabilities"@
                &&& request.extensions@[1]@ == "VK_KHR_external_semaphore_capabilities"@
                &&& request.extensions@[2]@ == "VK_KHR_get_physical_device_properties2"@
            }
        },
{
    lemma_run_fits(setups, actions, events, i);
    lemma_run_fits(setups, actions, events, i + 1);
    assert(goes_on(setups[i], actions[i], events[i], setups[i + 1]));
    if asked is Some {
        assert((0u32 << 29) | (1u32 << 22) | (0u32 << 12) | 0u32 == 0x40_0000u32) by (bit_vector);
        assert((0u32 << 29) | (1u32 << 22) | (1u32 << 12) | 0u32 == 0x40_1000u32) by (bit_vector);
        lemma_instance_texts(asked->0->CreateInstance_0.extensions@);
    }
}

/// With an instance the physical devices are listed; without one the setup ends with
/// the error that the creation gave.
pub proof fn law_after_instance(
    setups: Seq<RendererSetup>,
    actions: Seq<SetupAction>,
    events: Seq<SetupEvent>,
    i: int,
    asked: Option<SetupAction>,
    ended: Option<Result<VulkanRenderer, VulkanError>>,
)
    requires
        is_run(setups, actions, events),
        0 <= i < events.len(),
        shows(setups[i + 1], asked, ended),
        events[i] is InstanceCreated,
    ensures
        i == 2,
        actions[i] is CreateInstance,
        events[i]->InstanceCreated_0 is Ok ==> asked == Some(SetupAction::ListPhysicalDevices),
        events[i]->InstanceCreated_0 matches Err(e) ==> ended is Some && ended->0 is Err
            && ended->0->Err_0 == VulkanError::VkError(e),
{
    lemma_run_fits(setups, actions, events, i);
    lemma_run_fits(setups, actions, events, i + 1);
    assert(goes_on(setups[i], actions[i], events[i], setups[i + 1]));
}

/// The listed devices are looked at from the first on; an empty list is the error that
/// there is no device.
pub proof fn law_after_devices(
    setups: Seq<RendererSetup>,
    actions: Seq<SetupAction>,
    events: Seq<SetupEvent>,
    i: int,
    asked: Option<SetupAction>,
    ended: Option<Result<VulkanRenderer, VulkanError>>,
)
    requires
        is_run(setups, actions, events),
        0 <= i < events.len(),
        shows(setups[i + 1], asked, ended),
        events[i] is PhysicalDevices,
    ensures
        i == 3,
        actions[i] == SetupAction::ListPhysicalDevices,
        events[i]->PhysicalDevices_0 matches Err(e) ==> ended is Some && ended->0 is Err
            && ended->0->Err_0 == VulkanError::VkError(e),
        events[i]->PhysicalDevices_0 matches Ok(devices) ==> if devices@.len() == 0 {
            ended is Some && ended->0 is Err && ended->0->Err_0 is NoDevice
        } else {
            asked == Some(SetupAction::ListDeviceExtensions(devices@[0]))
        },
{
    lemma_run_fits(setups, actions, events, i);
    lemma_run_fits(setups, actions, events, i + 1);
    assert(goes_on(setups[i], actions[i], events[i], setups[i + 1]));
}

/// The devices are looked at one by one, in the order in which they were listed. A
/// suitable device is taken at once and asked for its queue families; past an unsuitable
/// one the next is looked at, and past the last there is no device.
pub proof fn law_after_extensions(
    setups: Seq<RendererSetup>,
    actions: Seq<SetupAction>,
    events: Seq<SetupEvent>,
    i: int,
    asked: Option<SetupAction>,
    ended: Option<Result<VulkanRenderer, VulkanError>>,
    suitable: bool,
)
    requires
        is_run(setups, actions, events),
        0 <= i < events.len(),
        shows(setups[i + 1], asked, ended),
        events[i] is DeviceExtensions,
        call_ensures(
            VulkanRenderer::is_device_suitable,
            (&events[i]->DeviceExtensions_0,),
            suitable,
        ),
    ensures
        i >= 4,
        events[3] is PhysicalDevices,
        events[3]->PhysicalDevices_0 is Ok,
        ({
            let devices = events[3]->PhysicalDevices_0->Ok_0@;
            &&& i - 4 < devices.len()
            &&& actions[i] == SetupAction::ListDeviceExtensions(devices[i - 4])
            &&& suitable ==> asked == Some(SetupAction::ListQueueFamilies(devices[i - 4]))
            &&& !suitable && i - 3 < devices.len() ==> asked == Some(
                SetupAction::ListDeviceExtensions(devices[i - 3]),
            )
            &&& !suitable && i - 3 == devices.len() ==> ended is Some && ended->0 is Err
                && ended->0->Err_0 is NoDevice
        }),
{
    lemma_run_fits(setups, actions, events, i);
    lemma_run_fits(setups, actions, events, i + 1);
    assert(goes_on(setups[i], actions[i], events[i], setups[i + 1]));
}

/// The logical device is asked for on the device whose extensions and queue families
/// were listed last, with one queue in the first family that supports graphics and the
/// six required extensions. Without such a family there is no device.
pub proof fn law_after_families(
    setups: Seq<RendererSetup>,
    actions: Seq<SetupAction>,
    events: Seq<SetupEvent>,
    i: int,
    asked: Option<SetupAction>,
    ended: Option<Result<VulkanRenderer, VulkanError>>,
    family: Option<u32>,
)
    requires
        is_run(setups, actions, events),
        0 <= i < events.len(),
        shows(setups[i + 1], asked, ended),
        events[i] is QueueFamilies,
        call_ensures(find_graphics_family, (&events[i]->QueueFamilies_0,), family),
    ensures
        i >= 5,
        actions[i] is ListQueueFamilies,
        actions[i - 1] == SetupAction::ListDeviceExtensions(actions[i]->ListQueueFamilies_0),
        family is None ==> ended is Some && ended->0 is Err && ended->0->Err_0 is NoDevice,
        family is Some ==> {
            &&& asked is Some
            &&& asked->0 is CreateDevice
            &&& {
                let request = asked->0->CreateDevice_0;
                &&& request.physical_device == actions[i]->ListQueueFamilies_0
                &&& request.queue_family_index == family->0
                &&& request.queue_count == 1
                &&& request.extensions@.len() == 6
                &&& request.extensions@[0]@ == "VK_KHR_external_memory"@
                &&& request.extensions@[1]@ == "VK_KHR_external_memory_fd"@
                &&& request.extensions@[2]@ == "VK_EXT_external_memory_dma_buf"@
                &&& request.extensions@[3]@ == "VK_EXT_image_drm_format_modifier"@
                &&& request.extensions@[4]@ == "VK_KHR_external_semaphore"@
                &&& request.extensions@[5]@ == "VK_KHR_external_semaphore_fd"@
            }
        },
{
    lemma_run_fits(setups, actions, events, i);
    lemma_run_fits(setups, actions, events, i + 1);
    assert(goes_on(setups[i], actions[i], events[i], setups[i + 1]));
    if family is Some {
        lemma_device_texts(asked->0->CreateDevice_0.extensions@);
    }
}

/// The first queue is fetched of the family that the logical device was asked for with.
pub proof fn law_after_device(
    setups: Seq<RendererSetup>,
    actions: Seq<SetupAction>,
    events: Seq<SetupEvent>,
    i: int,
    asked: Option<SetupAction>,
    ended: Option<Result<VulkanRenderer, VulkanError>>,
)
    requires
        is_run(setups, actions, events),
        0 <= i < events.len(),
        shows(setups[i + 1], asked, ended),
        events[i] is DeviceCreated,
    ensures
        i >= 6,
        actions[i] is CreateDevice,
        events[i]->DeviceCreated_0 is Ok ==> asked == Some(
            SetupAction::GetDeviceQueue {
                queue_family_index: actions[i]->CreateDevice_0.queue_family_index,
                queue_index: 0,
            },
        ),
        events[i]->DeviceCreated_0 matches Err(e) ==> ended is Some && ended->0 is Err
            && ended->0->Err_0 == VulkanError::VkError(e),
{
    lemma_run_fits(setups, actions, events, i);
    lemma_run_fits(setups, actions, events, i + 1);
    assert(goes_on(setups[i], actions[i], events[i], setups[i + 1]));
}

/// With the queue at hand the external memory functions are loaded.
pub proof fn law_after_queue(
    setups: Seq<RendererSetup>,
    actions: Seq<SetupAction>,
    events: Seq<SetupEvent>,
    i: int,
    asked: Option<SetupAction>,
    ended: Option<Result<VulkanRenderer, VulkanError>>,
)
    requires
        is_run(setups, actions, events),
        0 <= i < events.len(),
        shows(setups[i + 1], asked, ended),
        events[i] is DeviceQueue,
    ensures
        i >= 7,
        actions[i] is GetDeviceQueue,
        actions[i - 1] is CreateDevice,
        asked == Some(SetupAction::LoadExternalMemoryFd),
{
    lemma_run_fits(setups, actions, events, i);
    lemma_run_fits(setups, actions, events, i + 1);
    assert(goes_on(setups[i], actions[i], events[i], setups[i + 1]));
    lemma_run_fits(setups, actions, events, i - 1);
}

/// The command pool is asked for in the family of the logical device, with buffers
/// that can be reset one by one.
pub proof fn law_after_functions(
    setups: Seq<RendererSetup>,
    actions: Seq<SetupAction>,
    events: Seq<SetupEvent>,
    i: int,
    asked: Option<SetupAction>,
    ended: Option<Result<VulkanRenderer, VulkanError>>,
)
    requires
        is_run(setups, actions, events),
        0 <= i < events.len(),
        shows(setups[i + 1], asked, ended),
        events[i] is ExternalMemoryFdLoaded,
    ensures
        i >= 8,
        actions[i] == SetupAction::LoadExternalMemoryFd,
        actions[i - 2] is CreateDevice,
        asked == Some(
            SetupAction::CreateCommandPool {
                queue_family_index: actions[i - 2]->CreateDevice_0.queue_family_index,
                flags: 2,
            },
        ),
{
    lemma_run_fits(setups, actions, events, i);
    lemma_run_fits(setups, actions, events, i + 1);
    assert(goes_on(setups[i], actions[i], events[i], setups[i + 1]));
}

/// With the command pool the setup has its renderer, which holds the physical device
/// and the queue family of the logical device, the queue that was fetched and the pool. It
/// has handed out no texture yet and has no debug flags.
pub proof fn law_after_pool(
    setups: Seq<RendererSetup>,
    actions: Seq<SetupAction>,
    events: Seq<SetupEvent>,
    i: int,
    asked: Option<SetupAction>,
    ended: Option<Result<VulkanRenderer, VulkanError>>,
)
    requires
        is_run(setups, actions, events),
        0 <= i < events.len(),
        shows(setups[i + 1], asked, ended),
        events[i] is CommandPoolCreated,
    ensures
        i >= 9,
        actions[i] is CreateCommandPool,
        actions[i - 3] is CreateDevice,
        events[i - 2] is DeviceQueue,
        events[i]->CommandPoolCreated_0 matches Ok(pool) ==> {
            &&& ended is Some
            &&& ended->0 is Ok
            &&& {
                let renderer = ended->0->Ok_0@;
                &&& renderer.physical_device == actions[i - 3]->CreateDevice_0.physical_device
                &&& renderer.queue_family_index
                    == actions[i - 3]->CreateDevice_0.queue_family_index
                &&& renderer.queue == events[i - 2]->DeviceQueue_0
                &&& renderer.command_pool == pool
                &&& renderer.next_texture_id == 1
                &&& renderer.debug_flags.bits == 0
            }
        },
        events[i]->CommandPoolCreated_0 matches Err(e) ==> ended is Some && ended->0 is Err
            && ended->0->Err_0 == VulkanError::VkError(e),
{
    lemma_run_fits(setups, actions, events, i);
    lemma_run_fits(setups, actions, events, i + 1);
    assert(goes_on(setups[i], actions[i], events[i], setups[i + 1]));
}

/// A reply is taken exactly where it is of the kind that the call asked for gives; a
/// setup that has ended takes none.
pub proof fn law_setup_takes_matching_replies(
    setup: RendererSetup,
    asked: Option<SetupAction>,
    event: SetupEvent,
    ok: bool,
)
    requires
        call_ensures(RendererSetup::action, (&setup,), asked),
        call_ensures(RendererSetup::accepts, (&setup, &event), ok),
    ensures
        ok <==> asked is Some && match asked->0 {
            SetupAction::LoadLibrary => event is LibraryLoaded,
            SetupAction::QueryInstanceVersion => event is InstanceVersion,
            SetupAction::CreateInstance(_) => event is InstanceCreated,
            SetupAction::ListPhysicalDevices => event is PhysicalDevices,
            SetupAction::ListDeviceExtensions(_) => event is DeviceExtensions,
            SetupAction::ListQueueFamilies(_) => event is QueueFamilies,
            SetupAction::CreateDevice(_) => event is DeviceCreated,
            SetupAction::GetDeviceQueue { .. } => event is DeviceQueue,
            SetupAction::LoadExternalMemoryFd => event is ExternalMemoryFdLoaded,
            SetupAction::CreateCommandPool { .. } => event is CommandPoolCreated,
        },
{
}

/// In every run the logical device is asked for on the first suitable physical device,
/// with its queue in that device's first graphics family: every device before it was
/// found unsuitable, and no family before it supports graphics.
pub proof fn law_device_is_first_suitable(
    setups: Seq<RendererSetup>,
    actions: Seq<SetupAction>,
    events: Seq<SetupEvent>,
    c: int,
    judged: Seq<bool>,
)
    requires
        is_run(setups, actions, events),
        0 <= c < events.len(),
        actions[c] is CreateDevice,
        judged.len() == events.len(),
        forall|j: int|
            0 <= j < events.len() && #[trigger] events[j] is DeviceExtensions ==> call_ensures(
                VulkanRenderer::is_device_suitable,
                (&events[j]->DeviceExtensions_0,),
                judged[j],
            ),
    ensures
        c >= 6,
        events[3] is PhysicalDevices,
        events[3]->PhysicalDevices_0 is Ok,
        c - 6 < events[3]->PhysicalDevices_0->Ok_0@.len(),
        actions[c]->CreateDevice_0.physical_device == events[3]->PhysicalDevices_0->Ok_0@[c - 6],
        forall|j: int|
            4 <= j <= c - 2 ==> #[trigger] events[j] is DeviceExtensions && actions[j]
                == SetupAction::ListDeviceExtensions(events[3]->PhysicalDevices_0->Ok_0@[j - 4])
                && (judged[j] <==> j == c - 2),
        events[c - 1] is QueueFamilies,
        ({
            let flags = events[c - 1]->QueueFamilies_0@;
            exists|k: int|
                {
                    &&& 0 <= k < flags.len()
                    &&& #[trigger] flags[k] % 2 == 1
                    &&& forall|m: int| 0 <= m < k ==> #[trigger] flags[m] % 2 == 0
                    &&& actions[c]->CreateDevice_0.queue_family_index == k as u32
                }
        }),
{
    lemma_run_fits(setups, actions, events, c);
    assert(goes_on(setups[c], actions[c], events[c], setups[c + 1]));
    lemma_run_fits(setups, actions, events, c - 1);
    assert(goes_on(setups[c - 1], actions[c - 1], events[c - 1], setups[c - 1 + 1]));
    lemma_graphics_family(events[c - 1]->QueueFamilies_0@);
    lemma_run_fits(setups, actions, events, c - 2);
    assert(goes_on(setups[c - 2], actions[c - 2], events[c - 2], setups[c - 2 + 1]));
    assert(setups[c - 1]@ is ListingQueueFamilies);
    lemma_checked_before(setups, actions, events, c - 2, judged);
}

proof fn lemma_checked_before(
    setups: Seq<RendererSetup>,
    actions: Seq<SetupAction>,
    events: Seq<SetupEvent>,
    c: int,
    judged: Seq<bool>,
)
    requires
        is_run(setups, actions, events),
        0 <= c < events.len(),
        setups[c]@ is CheckingDevice,
        judged.len() == events.len(),
        forall|j: int|
            0 <= j < events.len() && #[trigger] events[j] is DeviceExtensions ==> call_ensures(
                VulkanRenderer::is_device_suitable,
                (&events[j]->DeviceExtensions_0,),
                judged[j],
            ),
    ensures
        c >= 4,
        events[c] is DeviceExtensions,
        actions[c] == SetupAction::ListDeviceExtensions(
            events[3]->PhysicalDevices_0->Ok_0@[c - 4],
        ),
        forall|j: int|
            4 <= j < c ==> #[trigger] events[j] is DeviceExtensions && actions[j]
                == SetupAction::ListDeviceExtensions(events[3]->PhysicalDevices_0->Ok_0@[j - 4])
                && !judged[j],
    decreases c,
{
    lemma_run_fits(setups, actions, events, c);
    assert(goes_on(setups[c], actions[c], events[c], setups[c + 1]));
    if c > 4 {
        lemma_run_fits(setups, actions, events, c - 1);
        assert(goes_on(setups[c - 1], actions[c - 1], events[c - 1], setups[c - 1 + 1]));
        assert(setups[c - 1]@ is CheckingDevice);
        lemma_checked_before(setups, actions, events, c - 1, judged);
    }
}

/// The queue that a run fetches, the command pool that it asks for and the renderer
/// that it ends with are all in the queue family of the logical device; the renderer is
/// on the physical device of the logical device.
pub proof fn law_one_family_throughout(
    setups: Seq<RendererSetup>,
    actions: Seq<SetupAction>,
    events: Seq<SetupEvent>,
    c: int,
    d: int,
    ended: Option<Result<VulkanRenderer, VulkanError>>,
)
    requires
        is_run(setups, actions, events),
        0 <= c < events.len(),
        actions[c] is CreateDevice,
        0 <= d < events.len(),
        call_ensures(RendererSetup::outcome, (setups[events.len() as int],), ended),
    ensures
        actions[d] is CreateDevice ==> d == c,
        actions[d] is GetDeviceQueue ==> d == c + 1 && actions[d]
            == (SetupAction::GetDeviceQueue {
            queue_family_index: actions[c]->CreateDevice_0.queue_family_index,
            queue_index: 0,
        }),
        actions[d] is CreateCommandPool ==> d == c + 3 && actions[d]
            == (SetupAction::CreateCommandPool {
            queue_family_index: actions[c]->CreateDevice_0.queue_family_index,
            flags: 2,
        }),
        ended is Some && ended->0 is Ok ==> {
            &&& events.len() == c + 4
            &&& ended->0->Ok_0@.queue_family_index
                == actions[c]->CreateDevice_0.queue_family_index
            &&& ended->0->Ok_0@.physical_device == actions[c]->CreateDevice_0.physical_device
        },
{
    let n = events.len() as int;
    lemma_after_device(setups, actions, events, c, n);
    lemma_after_device(setups, actions, events, c, d);
    assert(goes_on(setups[d], actions[d], events[d], setups[d + 1]));
    assert(goes_on(setups[c], actions[c], events[c], setups[c + 1]));
    lemma_run_fits(setups, actions, events, d);
    lemma_run_fits(setups, actions, events, c);
    if d < c {
        lemma_before_device(setups, actions, events, d, c);
    }
}

proof fn lemma_after_device(
    setups: Seq<RendererSetup>,
    actions: Seq<SetupAction>,
    events: Seq<SetupEvent>,
    c: int,
    d: int,
)
    requires
        is_run(setups, actions, events),
        0 <= c < events.len(),
        actions[c] is CreateDevice,
        0 <= d <= events.len(),
    ensures
        ({
            let device = actions[c]->CreateDevice_0.physical_device;
            let family = actions[c]->CreateDevice_0.queue_family_index;
            d > c ==> match setups[d]@ {
                SetupView::FetchingQueue { device: v, family: f } => d == c + 1 && v == device && f
                    == family,
                SetupView::LoadingFunctions { device: v, family: f, .. } => d == c + 2 && v
                    == device && f == family,
                SetupView::CreatingPool { device: v, family: f, .. } => d == c + 3 && v == device
                    && f == family,
                SetupView::Finished(Ok(r)) => d == c + 4 && r.physical_device == device
                    && r.queue_family_index == family,
                SetupView::Finished(Err(_)) => true,
                _ => false,
            }
        }),
    decreases d,
{
    if d > c {
        lemma_after_device(setups, actions, events, c, d - 1);
        assert(goes_on(setups[d - 1], actions[d - 1], events[d - 1], setups[d - 1 + 1]));
        assert(goes_on(setups[c], actions[c], events[c], setups[c + 1]));
    }
}

proof fn lemma_before_device(
    setups: Seq<RendererSetup>,
    actions: Seq<SetupAction>,
    events: Seq<SetupEvent>,
    d: int,
    c: int,
)
    requires
        is_run(setups, actions, events),
        0 <= d < c < events.len(),
        setups[c]@ is CreatingDevice,
    ensures
        match setups[d]@ {
            SetupView::LoadingLibrary
            | SetupView::QueryingVersion
            | SetupView::CreatingInstance
            | SetupView::ListingDevices
            | SetupView::CheckingDevice { .. }
            | SetupView::ListingQueueFamilies { .. } => true,
            _ => false,
        },
    decreases c - d,
{
    assert(goes_on(setups[d], actions[d], events[d], setups[d + 1]));
    if d + 1 < c {
        lemma_before_device(setups, actions, events, d + 1, c);
    }
}

/// A setup can be handed any reply that it accepts.
pub proof fn law_accepted_reply_can_be_handed_in(setup: RendererSetup, event: SetupEvent)
    requires
        call_ensures(RendererSetup::accepts, (&setup, &event), true),
    ensures
        call_requires(RendererSetup::advance, (setup, event)),
{
}

} // verus!
