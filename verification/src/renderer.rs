//! Entry to the Vulkan renderer.

use vstd::prelude::*;

use crate::error::{ErrorView, VulkanError};
use crate::platform::Platform;
use crate::vulkan_renderer::{RendererView, VulkanRenderer};
use crate::vulkan_setup::{RendererSetup, SetupView};

verus! {

/// Setup Vulkan renderer
pub fn setup_vulkan_renderer() -> (setup: RendererSetup)
    ensures
        setup@ == SetupView::LoadingLibrary,
{
    VulkanRenderer::new()
}

/// What an attempt at a renderer came to, by its view.
pub open spec fn attempt_view(attempt: Option<&Result<VulkanRenderer, VulkanError>>) -> Option<
    Result<RendererView, ErrorView>,
> {
    match attempt {
        Some(outcome) => Some(crate::vulkan_setup::outcome_view(*outcome)),
        None => None,
    }
}

/// Vulkan rendering is available: an attempt at a renderer was made and succeeded.
pub open spec fn vulkan_available(attempt: Option<Result<RendererView, ErrorView>>) -> bool {
    match attempt {
        Some(outcome) => outcome is Ok,
        None => false,
    }
}

/// Check if Vulkan rendering is available and should be used
///
/// `attempt` is what the setup of a renderer ended with. It is `None` where the
/// program is built without Vulkan, which is then never available.
pub fn is_vulkan_available(attempt: Option<&Result<VulkanRenderer, VulkanError>>) -> (ok: bool)
    ensures
        ok == vulkan_available(attempt_view(attempt)),
{
    match attempt {
        Some(Ok(_)) => true,
        Some(Err(_)) => false,
        None => false,
    }
}

/// Vulkan is available on a platform exactly where it has what a renderer needs: a
/// loader of version 1.1 or later, an instance, a first suitable device with a
/// graphics queue family, and a logical device and a command pool on it.
pub proof fn law_vulkan_available_iff(p: Platform)
    requires
        crate::platform::is_consistent(p),
    ensures
        vulkan_available(Some(crate::platform::run(p, SetupView::LoadingLibrary))) <==> {
            &&& crate::platform::lists_devices(p)
            &&& exists|i: int| #[trigger]
                crate::platform::is_first_suitable(p, i) && crate::vulkan_setup::graphics_family(
                    crate::platform::families_of(p, i),
                ) is Some
            &&& p.device is Ok
            &&& p.pool is Ok
        },
{
    crate::platform::law_setup_succeeds_iff(p);
}

} // verus!
