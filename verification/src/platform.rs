//! What a renderer setup comes to on a given machine.
//!
//! A [`Platform`] says what a machine replies to each call that a setup can ask
//! for. The laws here follow a setup from its start to its end on any platform.

use vstd::prelude::*;

use crate::error::{ErrorView, VkResult};
use crate::vulkan_renderer::{RendererView, TeardownStep};
use crate::vulkan_setup::{EventView, SetupView};

verus! {

/// The replies of a machine.
pub struct Platform {
    /// The Vulkan library can be loaded.
    pub loads: bool,
    /// The instance version.
    pub version: Result<Option<u32>, VkResult>,
    /// The creation of the instance.
    pub instance: Result<(), VkResult>,
    /// The physical devices.
    pub devices: Result<Seq<usize>, VkResult>,
    /// The extensions of each physical device.
    pub extensions: Seq<Result<Seq<Seq<u8>>, VkResult>>,
    /// The queue families of a physical device, by its handle.
    pub families: spec_fn(usize) -> Seq<u32>,
    /// The creation of the logical device.
    pub device: Result<(), VkResult>,
    /// The queue of the logical device.
    pub queue: usize,
    /// The creation of the command pool.
    pub pool: Result<u64, VkResult>,
}

/// Every listed device has a reply to the listing of its extensions.
pub open spec fn is_consistent(p: Platform) -> bool {
    p.devices matches Ok(devices) ==> p.extensions.len() == devices.len()
}

/// The queue families of the `i`-th device.
pub open spec fn families_of(p: Platform, i: int) -> Seq<u32> {
    (p.families)(p.devices->Ok_0[i])
}

/// The `i`-th device of the platform is the first suitable one.
pub open spec fn is_first_suitable(p: Platform, i: int) -> bool {
    &&& 0 <= i < p.extensions.len()
    &&& crate::extensions::is_suitable(p.extensions[i])
    &&& forall|j: int| 0 <= j < i ==> !crate::extensions::is_suitable(#[trigger] p.extensions[j])
}

/// The platform has Vulkan 1.1 or later, and an instance on it lists its devices.
pub open spec fn lists_devices(p: Platform) -> bool {
    &&& p.loads
    &&& p.version is Ok
    &&& crate::version::is_supported(crate::version::reported_version(p.version->Ok_0))
    &&& p.instance is Ok
    &&& p.devices is Ok
}

/// What a setup ends with on a platform whose first suitable device is the `i`-th.
pub open spec fn result_on_device(p: Platform, i: int) -> Result<RendererView, ErrorView> {
    match (crate::vulkan_setup::graphics_family(families_of(p, i)), p.device, p.pool) {
        (None, _, _) => Err(ErrorView::NoDevice),
        (Some(_), Err(e), _) => Err(ErrorView::VkError(e.code)),
        (Some(_), Ok(_), Err(e)) => Err(ErrorView::VkError(e.code)),
        (Some(family), Ok(_), Ok(pool)) => Ok(
            crate::vulkan_renderer::fresh_renderer(p.devices->Ok_0[i], p.queue, family, pool),
        ),
    }
}

/// What a setup ends with on a platform.
pub open spec fn result_on(p: Platform) -> Result<RendererView, ErrorView> {
    if !p.loads {
        Err(ErrorView::LoadError)
    } else if p.version is Err {
        Err(ErrorView::VkError(p.version->Err_0.code))
    } else if !crate::version::is_supported(crate::version::reported_version(p.version->Ok_0)) {
        Err(ErrorView::MissingExtension("Vulkan 1.1"@))
    } else if p.instance is Err {
        Err(ErrorView::VkError(p.instance->Err_0.code))
    } else if p.devices is Err {
        Err(ErrorView::VkError(p.devices->Err_0.code))
    } else if exists|i: int| is_first_suitable(p, i) {
        result_on_device(p, choose|i: int| is_first_suitable(p, i))
    } else {
        Err(ErrorView::NoDevice)
    }
}

/// The reply of a platform to the call that a setup asks for.
pub open spec fn reply(p: Platform, setup: SetupView) -> EventView {
    match setup {
        SetupView::LoadingLibrary => EventView::LibraryLoaded(p.loads),
        SetupView::QueryingVersion => EventView::InstanceVersion(p.version),
        SetupView::CreatingInstance => EventView::InstanceCreated(p.instance),
        SetupView::ListingDevices => EventView::PhysicalDevices(p.devices),
        SetupView::CheckingDevice { devices, next } => EventView::DeviceExtensions(
            p.extensions[next],
        ),
        SetupView::ListingQueueFamilies { device } => EventView::QueueFamilies((p.families)(device)),
        SetupView::CreatingDevice { .. } => EventView::DeviceCreated(p.device),
        SetupView::FetchingQueue { .. } => EventView::DeviceQueue(p.queue),
        SetupView::LoadingFunctions { .. } => EventView::ExternalMemoryFdLoaded,
        _ => EventView::CommandPoolCreated(p.pool),
    }
}

/// How many kinds of call a setup has still before it.
pub open spec fn phases_left(setup: SetupView) -> nat {
    match setup {
        SetupView::LoadingLibrary => 10,
        SetupView::QueryingVersion => 9,
        SetupView::CreatingInstance => 8,
        SetupView::ListingDevices => 7,
        SetupView::CheckingDevice { .. } => 6,
        SetupView::ListingQueueFamilies { .. } => 5,
        SetupView::CreatingDevice { .. } => 4,
        SetupView::FetchingQueue { .. } => 3,
        SetupView::LoadingFunctions { .. } => 2,
        SetupView::CreatingPool { .. } => 1,
        SetupView::Finished(_) => 0,
    }
}

/// How many devices a setup has still to look at.
pub open spec fn devices_left(setup: SetupView) -> nat {
    match setup {
        SetupView::CheckingDevice { devices, next } => if next < devices.len() {
            (devices.len() - next) as nat
        } else {
            0
        },
        _ => 0,
    }
}

/// What a setup ends with when a platform answers all its calls from here on.
pub open spec fn run(p: Platform, setup: SetupView) -> Result<RendererView, ErrorView>
    decreases phases_left(setup), devices_left(setup),
{
    match setup {
        SetupView::Finished(outcome) => outcome,
        _ => run(p, crate::vulkan_setup::step(setup, reply(p, setup))),
    }
}

/// A setup can be in this state: a device that it looks at is one of the listed.
pub open spec fn is_reachable(setup: SetupView) -> bool {
    match setup {
        SetupView::CheckingDevice { devices, next } => 0 <= next < devices.len(),
        _ => true,
    }
}

/// A setup makes progress with every reply, whatever the reply is, so it ends:
/// it leaves one kind of call behind it, or it has one device less to look at. It
/// never looks at a device that is not there.
pub proof fn law_setup_makes_progress(setup: SetupView, event: EventView)
    requires
        is_reachable(setup),
        crate::vulkan_setup::awaits(setup, event),
    ensures
        ({
            let after = crate::vulkan_setup::step(setup, event);
            &&& is_reachable(after)
            &&& {
                ||| phases_left(after) < phases_left(setup)
                ||| phases_left(after) == phases_left(setup) && devices_left(after)
                    < devices_left(setup)
            }
        }),
{
}

/// A setup asks for a call exactly as long as it has not ended, and what it waits
/// for then is a reply to that call.
pub proof fn law_setup_asks_until_it_ends(p: Platform, setup: SetupView)
    ensures
        crate::vulkan_setup::action_at(setup) is None <==> setup is Finished,
        setup !is Finished ==> crate::vulkan_setup::awaits(setup, reply(p, setup)),
        setup is Finished ==> forall|event: EventView|
            !crate::vulkan_setup::awaits(setup, event),
{
}

proof fn lemma_first_suitable_is_unique(p: Platform, i: int, j: int)
    requires
        is_first_suitable(p, i),
        is_first_suitable(p, j),
    ensures
        i == j,
{
    assert(crate::extensions::is_suitable(p.extensions[i]));
    assert(crate::extensions::is_suitable(p.extensions[j]));
}

proof fn lemma_run_on_device(p: Platform, i: int)
    requires
        p.devices is Ok,
    ensures
        run(p, SetupView::ListingQueueFamilies { device: p.devices->Ok_0[i] })
            == result_on_device(p, i),
{
    reveal_with_fuel(run, 6);
}

proof fn lemma_run_checks_devices(p: Platform, next: int)
    requires
        is_consistent(p),
        lists_devices(p),
        0 <= next <= p.devices->Ok_0.len(),
        forall|j: int|
            0 <= j < next ==> !crate::extensions::is_suitable(#[trigger] p.extensions[j]),
    ensures
        run(p, crate::vulkan_setup::checking_from(p.devices->Ok_0, next)) == result_on(p),
    decreases p.devices->Ok_0.len() - next,
{
    let devices = p.devices->Ok_0;
    if next < devices.len() {
        let setup = SetupView::CheckingDevice { devices, next };
        if crate::extensions::is_suitable(p.extensions[next]) {
            assert(is_first_suitable(p, next));
            let first = choose|i: int| is_first_suitable(p, i);
            lemma_first_suitable_is_unique(p, first, next);
            lemma_run_on_device(p, next);
            assert(run(p, setup) == run(
                p,
                SetupView::ListingQueueFamilies { device: devices[next] },
            ));
        } else {
            lemma_run_checks_devices(p, next + 1);
            assert(run(p, setup) == run(
                p,
                crate::vulkan_setup::checking_from(devices, next + 1),
            ));
        }
    } else {
        assert(!exists|i: int| is_first_suitable(p, i)) by {
            assert forall|i: int| !is_first_suitable(p, i) by {
                if 0 <= i < p.extensions.len() {
                    assert(!crate::extensions::is_suitable(p.extensions[i]));
                }
            }
        }
    }
}

/// A setup, answered by any platform from its start, ends with exactly what
/// [`result_on`] says: the first thing that is missing decides the error, and
/// otherwise the renderer is on the first suitable device, with its first
/// graphics queue family, and starts fresh.
pub proof fn law_setup_result(p: Platform)
    requires
        is_consistent(p),
    ensures
        run(p, SetupView::LoadingLibrary) == result_on(p),
{
    if lists_devices(p) {
        lemma_run_checks_devices(p, 0);
    }
    reveal_with_fuel(run, 5);
}

/// A setup succeeds exactly where the library loads, the version is 1.1 or later,
/// the instance is created and lists its devices, the first suitable device has a
/// graphics queue family, and its logical device and command pool are created.
pub proof fn law_setup_succeeds_iff(p: Platform)
    requires
        is_consistent(p),
    ensures
        run(p, SetupView::LoadingLibrary) is Ok <==> {
            &&& lists_devices(p)
            &&& exists|i: int| #[trigger]
                is_first_suitable(p, i) && crate::vulkan_setup::graphics_family(
                    families_of(p, i),
                ) is Some
            &&& p.device is Ok
            &&& p.pool is Ok
        },
{
    law_setup_result(p);
    if exists|i: int| is_first_suitable(p, i) {
        let first = choose|i: int| is_first_suitable(p, i);
        assert forall|i: int| #[trigger] is_first_suitable(p, i) implies i == first by {
            lemma_first_suitable_is_unique(p, i, first);
        }
    }
}

/// A setup succeeds only on a device that offers every required extension, and on
/// a queue family that supports graphics operations. Vulkan counts the families of
/// a device in 32 bits.
pub proof fn law_renderer_is_on_suitable_device(p: Platform)
    requires
        is_consistent(p),
        run(p, SetupView::LoadingLibrary) is Ok,
        forall|i: int| (#[trigger] families_of(p, i)).len() <= u32::MAX,
    ensures
        ({
            let renderer = run(p, SetupView::LoadingLibrary)->Ok_0;
            exists|i: int|
                {
                    &&& 0 <= i < p.devices->Ok_0.len()
                    &&& #[trigger] p.devices->Ok_0[i] == renderer.physical_device
                    &&& crate::extensions::is_suitable(p.extensions[i])
                    &&& renderer.queue_family_index < families_of(p, i).len()
                    &&& crate::vulkan_setup::supports_graphics(
                        families_of(p, i)[renderer.queue_family_index as int],
                    )
                }
        }),
{
    law_setup_result(p);
    law_setup_succeeds_iff(p);
    let first = choose|i: int| is_first_suitable(p, i);
    let families = families_of(p, first);
    let k = choose|k: int| crate::vulkan_setup::is_first_graphics(families, k);
    assert(crate::vulkan_setup::is_first_graphics(families, k));
    assert(p.devices->Ok_0[first] == run(p, SetupView::LoadingLibrary)->Ok_0.physical_device);
}

/// Something that a setup creates and that has to be destroyed again.
pub enum Resource {
    Instance,
    Device,
    CommandPool,
}

/// What a reply to a setup's call shows to have been created.
pub open spec fn created_by(event: EventView) -> Seq<Resource> {
    match event {
        EventView::InstanceCreated(Ok(_)) => seq![Resource::Instance],
        EventView::DeviceCreated(Ok(_)) => seq![Resource::Device],
        EventView::CommandPoolCreated(Ok(_)) => seq![Resource::CommandPool],
        _ => seq![],
    }
}

/// What is created, in order, when a platform answers all calls from here on.
pub open spec fn created(p: Platform, setup: SetupView) -> Seq<Resource>
    decreases phases_left(setup), devices_left(setup),
{
    match setup {
        SetupView::Finished(_) => seq![],
        _ => created_by(reply(p, setup)) + created(
            p,
            crate::vulkan_setup::step(setup, reply(p, setup)),
        ),
    }
}

/// What a release destroys, in order.
pub open spec fn destroyed(steps: Seq<TeardownStep>) -> Seq<Resource>
    decreases steps.len(),
{
    if steps.len() == 0 {
        seq![]
    } else {
        let rest = destroyed(steps.drop_first());
        match steps.first() {
            TeardownStep::WaitIdle => rest,
            TeardownStep::DestroyCommandPool(_) => seq![Resource::CommandPool] + rest,
            TeardownStep::DestroyDevice => seq![Resource::Device] + rest,
            TeardownStep::DestroyInstance => seq![Resource::Instance] + rest,
        }
    }
}

proof fn lemma_created_on_device(p: Platform, device: usize)
    requires
        run(p, SetupView::ListingQueueFamilies { device }) is Ok,
    ensures
        created(p, SetupView::ListingQueueFamilies { device }) =~= seq![
            Resource::Device,
            Resource::CommandPool,
        ],
{
    reveal_with_fuel(run, 6);
    reveal_with_fuel(created, 6);
}

proof fn lemma_created_while_checking(p: Platform, devices: Seq<usize>, next: int)
    requires
        run(p, crate::vulkan_setup::checking_from(devices, next)) is Ok,
    ensures
        created(p, crate::vulkan_setup::checking_from(devices, next)) =~= seq![
            Resource::Device,
            Resource::CommandPool,
        ],
    decreases devices.len() - next,
{
    if next < devices.len() {
        let setup = SetupView::CheckingDevice { devices, next };
        let after = crate::vulkan_setup::step(setup, reply(p, setup));
        assert(run(p, setup) == run(p, after));
        assert(created(p, setup) =~= created_by(reply(p, setup)) + created(p, after));
        if crate::extensions::is_suitable(p.extensions[next]) {
            lemma_created_on_device(p, devices[next]);
        } else {
            lemma_created_while_checking(p, devices, next + 1);
        }
    } else {
        assert(run(p, crate::vulkan_setup::checking_from(devices, next)) is Err);
    }
}

/// What a successful setup has created, a release destroys, whatever was done with
/// the renderer in between: each exactly once, in the reverse order, and only after
/// the device was waited for.
pub proof fn law_teardown_mirrors_setup(
    p: Platform,
    states: Seq<RendererView>,
    issued: Seq<Option<u64>>,
)
    requires
        run(p, SetupView::LoadingLibrary) == Ok::<RendererView, ErrorView>(states[0]),
        crate::vulkan_renderer::is_history(states, issued),
    ensures
        ({
            let steps = crate::vulkan_renderer::teardown_order(states.last());
            &&& created(p, SetupView::LoadingLibrary) == seq![
                Resource::Instance,
                Resource::Device,
                Resource::CommandPool,
            ]
            &&& destroyed(steps) == created(p, SetupView::LoadingLibrary).reverse()
            &&& steps.first() == TeardownStep::WaitIdle
        }),
{
    let steps = crate::vulkan_renderer::teardown_order(states.last());
    reveal_with_fuel(run, 5);
    reveal_with_fuel(created, 5);
    lemma_created_while_checking(p, p.devices->Ok_0, 0);
    assert(created(p, SetupView::LoadingLibrary) =~= seq![
        Resource::Instance,
        Resource::Device,
        Resource::CommandPool,
    ]);
    reveal_with_fuel(destroyed, 5);
    assert(destroyed(steps) =~= seq![
        Resource::CommandPool,
        Resource::Device,
        Resource::Instance,
    ]);
}

/// The pool that a release destroys is the one that the setup created, whatever was
/// done with the renderer in between, and no other pool is destroyed.
pub proof fn law_teardown_destroys_created_pool(
    p: Platform,
    states: Seq<RendererView>,
    issued: Seq<Option<u64>>,
)
    requires
        is_consistent(p),
        run(p, SetupView::LoadingLibrary) == Ok::<RendererView, ErrorView>(states[0]),
        crate::vulkan_renderer::is_history(states, issued),
    ensures
        p.pool is Ok,
        forall|pool: u64|
            #![auto]
            crate::vulkan_renderer::teardown_order(states.last()).contains(
                TeardownStep::DestroyCommandPool(pool),
            ) <==> pool == p.pool->Ok_0,
{
    law_setup_result(p);
    law_setup_succeeds_iff(p);
    crate::vulkan_renderer::law_handles_never_change(states, issued, states.len() - 1);
    let steps = crate::vulkan_renderer::teardown_order(states.last());
    assert(steps[1] == TeardownStep::DestroyCommandPool(p.pool->Ok_0));
    assert forall|pool: u64|
        #![auto]
        steps.contains(TeardownStep::DestroyCommandPool(pool)) implies pool == p.pool->Ok_0 by {
        let i = choose|i: int|
            0 <= i < steps.len() && steps[i] == TeardownStep::DestroyCommandPool(pool);
        assert(i == 0 || i == 1 || i == 2 || i == 3);
    }
}

} // verus!
