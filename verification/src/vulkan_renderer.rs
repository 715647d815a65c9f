//! Vulkan renderer state: textures and their identifiers, frames, imports from
//! memory and from DMA-BUFs, and the order of release.

use vstd::prelude::*;

use crate::error::{ErrorView, VkResult, VulkanError};
use crate::extensions::{reports_extension, required_device_extensions};
use crate::geometry::{
    DebugFlags, Format, Fourcc, Kind, Point, Rectangle, Size, TextureFilter, Transform, ABGR8888,
    ARGB8888, XBGR8888, XRGB8888,
};
use crate::text::decimal;

verus! {

/// Texture handle for Vulkan renderer
#[derive(Clone, Copy, PartialEq, Eq, Structural)]
pub struct VulkanTexture {
    pub id: u64,
    pub size: Size,
    pub format: Fourcc,
}

/// What the renderer reads of a DMA-BUF.
#[derive(Debug, Clone, Copy, PartialEq, Eq, Structural)]
pub struct Dmabuf {
    pub width: u32,
    pub height: u32,
    pub format: Format,
}

/// Sync point for Vulkan operations
#[derive(Debug)]
pub struct VulkanSyncPoint {}

impl VulkanSyncPoint {
    /// Waits for the sync point. Nothing is ever pending, so this returns at once.
    pub fn wait(&self) -> (r: Result<(), ()>)
        ensures
            r is Ok,
    {
        Ok(())
    }

    /// Whether the sync point has been reached, which it always has.
    pub fn is_reached(&self) -> (reached: bool)
        ensures
            reached,
    {
        true
    }
}

/// One act of releasing what a renderer holds.
#[derive(Debug, Clone, Copy, PartialEq, Eq, Structural)]
pub enum TeardownStep {
    /// Wait until the device has finished all work. A failure is ignored.
    WaitIdle,
    /// Destroy the command pool with this handle.
    DestroyCommandPool(u64),
    /// Destroy the logical device.
    DestroyDevice,
    /// Destroy the instance.
    DestroyInstance,
}

/// Vulkan Renderer
///
/// Holds the handles that a renderer was set up with, hands out texture
/// identifiers, and keeps the debug flags.
pub struct VulkanRenderer {
    physical_device: usize,
    queue: usize,
    queue_family_index: u32,
    command_pool: u64,
    next_texture_id: u64,
    debug_flags: DebugFlags,
}

/// The state of a [`VulkanRenderer`].
pub struct RendererView {
    pub physical_device: usize,
    pub queue: usize,
    pub queue_family_index: u32,
    pub command_pool: u64,
    pub next_texture_id: u64,
    pub debug_flags: DebugFlags,
}

impl View for VulkanRenderer {
    type V = RendererView;

    closed spec fn view(&self) -> RendererView {
        RendererView {
            physical_device: self.physical_device,
            queue: self.queue,
            queue_family_index: self.queue_family_index,
            command_pool: self.command_pool,
            next_texture_id: self.next_texture_id,
            debug_flags: self.debug_flags,
        }
    }
}

/// The state of a renderer that has just been set up.
pub open spec fn fresh_renderer(
    physical_device: usize,
    queue: usize,
    queue_family_index: u32,
    command_pool: u64,
) -> RendererView {
    RendererView {
        physical_device,
        queue,
        queue_family_index,
        command_pool,
        next_texture_id: 1,
        debug_flags: (DebugFlags { bits: 0 }),
    }
}

/// The state of a renderer after it has handed out one more texture identifier.
pub open spec fn after_import(before: RendererView) -> RendererView {
    RendererView { next_texture_id: (before.next_texture_id + 1) as u64, ..before }
}

/// The pixel formats that can be imported from memory, in order of listing.
pub open spec fn memory_formats() -> Seq<Fourcc> {
    seq![
        Fourcc { code: ARGB8888 },
        Fourcc { code: XRGB8888 },
        Fourcc { code: ABGR8888 },
        Fourcc { code: XBGR8888 },
    ]
}

/// The order in which a renderer's handles are released.
pub open spec fn teardown_order(renderer: RendererView) -> Seq<TeardownStep> {
    seq![
        TeardownStep::WaitIdle,
        TeardownStep::DestroyCommandPool(renderer.command_pool),
        TeardownStep::DestroyDevice,
        TeardownStep::DestroyInstance,
    ]
}

/// The text that `ash` prints for the handle of a physical device with `{:?}`.
pub uninterp spec fn physical_device_debug(handle: usize) -> Seq<char>;

/// The `Debug` text of `ash::vk::PhysicalDevice` for a handle. The contract says
/// only that it is a function of the handle.
#[verifier::external_body]
fn physical_device_text(handle: usize) -> (text: String)
    ensures
        text@ == physical_device_debug(handle),
{
    let device: ash::vk::PhysicalDevice = ash::vk::Handle::from_raw(handle as u64);
    format!("{:?}", device)
}

/// The debug text of a renderer, given the text of its device handle.
pub open spec fn renderer_debug(renderer: RendererView, device_text: Seq<char>) -> Seq<char> {
    "VulkanRenderer { physical_device: "@ + device_text + ", next_texture_id: "@
        + crate::text::decimal_digits(renderer.next_texture_id as nat) + " }"@
}

impl VulkanRenderer {
    #[verifier::type_invariant]
    spec fn issues_positive_ids(self) -> bool {
        self.next_texture_id >= 1
    }

    /// A renderer on handles that have just been created.
    pub(crate) fn from_handles(
        physical_device: usize,
        queue: usize,
        queue_family_index: u32,
        command_pool: u64,
    ) -> (renderer: Self)
        ensures
            renderer@ == fresh_renderer(
                physical_device,
                queue,
                queue_family_index,
                command_pool,
            ),
    {
        VulkanRenderer {
            physical_device,
            queue,
            queue_family_index,
            command_pool,
            next_texture_id: 1,
            debug_flags: DebugFlags { bits: 0 },
        }
    }

    /// Check if a physical device supports required extensions
    ///
    /// `extensions` is the reply to a listing of the device's extensions, each as
    /// the fixed-size name buffer that the driver filled.
    pub fn is_device_suitable(extensions: &Result<Vec<Vec<u8>>, VkResult>) -> (ok: bool)
        ensures
            ok == crate::extensions::is_suitable(crate::extensions::listing(*extensions)),
    {
        let reported = match extensions {
            Ok(reported) => reported,
            Err(_) => return false,
        };
        let required = required_device_extensions();
        let ghost names = crate::extensions::device_extension_names();
        let mut k: usize = 0;
        while k < required.len()
            invariant
                k <= required@.len(),
                crate::extensions::texts(required@) == names,
                names == crate::extensions::device_extension_names(),
                crate::extensions::listing(*extensions) == Ok::<Seq<Seq<u8>>, VkResult>(
                    reported.deep_view(),
                ),
                forall|j: int|
                    0 <= j < k ==> crate::extensions::offers(
                        reported.deep_view(),
                        #[trigger] names[j],
                    ),
            decreases required@.len() - k,
        {
            assert(crate::extensions::texts(required@)[k as int] == required@[k as int]@);
            if !reports_extension(reported, required[k]) {
                assert(!crate::extensions::offers(reported.deep_view(), names[k as int]));
                return false;
            }
            k += 1;
        }
        true
    }

    /// The physical device that this renderer was set up on.
    pub fn physical_device(&self) -> (handle: usize)
        ensures
            handle == self@.physical_device,
    {
        self.physical_device
    }

    /// The queue that work is submitted to.
    pub fn queue(&self) -> (handle: usize)
        ensures
            handle == self@.queue,
    {
        self.queue
    }

    /// The index of the family that the queue belongs to.
    pub fn queue_family_index(&self) -> (index: u32)
        ensures
            index == self@.queue_family_index,
    {
        self.queue_family_index
    }

    /// The command pool of this renderer.
    pub fn command_pool(&self) -> (handle: u64)
        ensures
            handle == self@.command_pool,
    {
        self.command_pool
    }

    /// The identifier that the next imported texture gets.
    pub fn next_texture_id(&self) -> (id: u64)
        ensures
            id == self@.next_texture_id,
            id >= 1,
    {
        proof {
            use_type_invariant(self);
        }
        self.next_texture_id
    }

    /// The text of this renderer for debug output.
    pub fn debug_text(&self) -> (text: String)
        ensures
            text@ == renderer_debug(self@, physical_device_debug(self@.physical_device)),
    {
        let device_text = physical_device_text(self.physical_device);
        self.debug_text_with(device_text.as_str())
    }

    /// The text of this renderer for debug output, where `device_text` stands for
    /// its device handle.
    pub fn debug_text_with(&self, device_text: &str) -> (text: String)
        ensures
            text@ == renderer_debug(self@, device_text@),
    {
        let id_text = decimal(self.next_texture_id);
        "VulkanRenderer { physical_device: ".to_string().concat(device_text).concat(
            ", next_texture_id: ",
        ).concat(id_text.as_str()).concat(" }")
    }

    fn allocate_texture_id(&mut self) -> (id: u64)
        requires
            old(self)@.next_texture_id < u64::MAX,
        ensures
            id == old(self)@.next_texture_id,
            final(self)@ == after_import(old(self)@),
            id >= 1,
    {
        proof {
            use_type_invariant(&*self);
        }
        let id: u64 = self.next_texture_id;
        self.next_texture_id = id + 1;
        id
    }

    /// Import a DMA-BUF as a Vulkan texture
    fn import_dmabuf_internal(&mut self, dmabuf: &Dmabuf) -> (r: Result<VulkanTexture, VulkanError>)
        requires
            old(self)@.next_texture_id < u64::MAX,
            dmabuf.width <= i32::MAX,
            dmabuf.height <= i32::MAX,
        ensures
            r is Ok,
            r->Ok_0.id == old(self)@.next_texture_id,
            r->Ok_0.id >= 1,
            r->Ok_0.size.w == dmabuf.width,
            r->Ok_0.size.h == dmabuf.height,
            r->Ok_0.format == dmabuf.format.code,
            final(self)@ == after_import(old(self)@),
    {
        let id = self.allocate_texture_id();
        Ok(
            VulkanTexture {
                id,
                size: Size { w: dmabuf.width as i32, h: dmabuf.height as i32 },
                format: dmabuf.format.code,
            },
        )
    }

    /// The release of everything that this renderer was set up with, in order.
    pub fn teardown(&self) -> (steps: Vec<TeardownStep>)
        ensures
            steps@ == teardown_order(self@),
    {
        let steps: Vec<TeardownStep> = vec![
            TeardownStep::WaitIdle,
            TeardownStep::DestroyCommandPool(self.command_pool),
            TeardownStep::DestroyDevice,
            TeardownStep::DestroyInstance,
        ];
        assert(steps@ =~= teardown_order(self@));
        steps
    }

    /// Sets the filter for drawing a texture smaller than it is. The choice has no effect.
    pub fn downscale_filter(&mut self, _filter: TextureFilter) -> (r: Result<(), VulkanError>)
        ensures
            r is Ok,
            final(self)@ == old(self)@,
    {
        Ok(())
    }

    /// Sets the filter for drawing a texture larger than it is. The choice has no effect.
    pub fn upscale_filter(&mut self, _filter: TextureFilter) -> (r: Result<(), VulkanError>)
        ensures
            r is Ok,
            final(self)@ == old(self)@,
    {
        Ok(())
    }

    /// Replaces the debug flags.
    pub fn set_debug_flags(&mut self, flags: DebugFlags)
        ensures
            final(self)@ == (RendererView { debug_flags: flags, ..old(self)@ }),
    {
        proof {
            use_type_invariant(&*self);
        }
        self.debug_flags = flags;
    }

    /// The debug flags that were set last.
    pub fn debug_flags(&self) -> (flags: DebugFlags)
        ensures
            flags == self@.debug_flags,
    {
        self.debug_flags
    }

    /// Starts a frame of the given size on this renderer.
    pub fn render<'a>(&'a mut self, output_size: Size, _dst_transform: Transform) -> (r: Result<
        VulkanFrame<'a>,
        VulkanError,
    >)
        ensures
            r is Ok,
            r->Ok_0.size == output_size,
            *r->Ok_0.renderer == *old(self),
            *final(r->Ok_0.renderer) == *final(self),
    {
        Ok(VulkanFrame { renderer: self, size: output_size })
    }

    /// Rendering into a DMA-BUF is not available: this always reports so.
    pub fn bind(&mut self, _target: Dmabuf) -> (r: Result<(), VulkanError>)
        ensures
            r is Err,
            r->Err_0@ == ErrorView::NotImplemented("Bind<Dmabuf>"@),
            final(self)@ == old(self)@,
    {
        Err(VulkanError::NotImplemented("Bind<Dmabuf>"))
    }

    /// The formats that can be rendered into: unknown.
    pub fn supported_formats(&self) -> (formats: Option<Vec<Format>>)
        ensures
            formats is None,
    {
        None
    }

    /// Gives up the current render target, of which there is none.
    pub fn unbind(&mut self) -> (r: Result<(), VulkanError>)
        ensures
            r is Ok,
            final(self)@ == old(self)@,
    {
        Ok(())
    }

    /// Imports a DMA-BUF as a texture of the same size and pixel format, under the
    /// next free identifier.
    pub fn import_dmabuf(&mut self, dmabuf: &Dmabuf, _damage: Option<&[Rectangle]>) -> (r: Result<
        VulkanTexture,
        VulkanError,
    >)
        requires
            old(self)@.next_texture_id < u64::MAX,
            dmabuf.width <= i32::MAX,
            dmabuf.height <= i32::MAX,
        ensures
            r is Ok,
            r->Ok_0.id == old(self)@.next_texture_id,
            r->Ok_0.id >= 1,
            r->Ok_0.size.w == dmabuf.width,
            r->Ok_0.size.h == dmabuf.height,
            r->Ok_0.format == dmabuf.format.code,
            final(self)@ == after_import(old(self)@),
    {
        self.import_dmabuf_internal(dmabuf)
    }

    /// The DMA-BUF formats that are advertised: none.
    pub fn dmabuf_formats(&self) -> (formats: Vec<Format>)
        ensures
            formats@.len() == 0,
    {
        Vec::new()
    }

    /// Imports a bitmap as a texture of the given size and pixel format, under the
    /// next free identifier.
    pub fn import_memory(
        &mut self,
        _data: &[u8],
        format: Fourcc,
        size: Size,
        _flipped: bool,
    ) -> (r: Result<VulkanTexture, VulkanError>)
        requires
            old(self)@.next_texture_id < u64::MAX,
        ensures
            r is Ok,
            r->Ok_0 == (VulkanTexture { id: old(self)@.next_texture_id, size, format }),
            r->Ok_0.id >= 1,
            final(self)@ == after_import(old(self)@),
    {
        let id = self.allocate_texture_id();
        Ok(VulkanTexture { id, size, format })
    }

    /// The pixel formats that can be imported from memory.
    pub fn mem_formats(&self) -> (formats: Vec<Fourcc>)
        ensures
            formats@ == memory_formats(),
    {
        let formats: Vec<Fourcc> = vec![
            Fourcc { code: ARGB8888 },
            Fourcc { code: XRGB8888 },
            Fourcc { code: ABGR8888 },
            Fourcc { code: XBGR8888 },
        ];
        assert(formats@ =~= memory_formats());
        formats
    }

    /// Updates a region of a texture. Accepted, with no effect on the renderer.
    pub fn update_memory(
        &mut self,
        _texture: &VulkanTexture,
        _data: &[u8],
        _region: Rectangle,
    ) -> (r: Result<(), VulkanError>)
        ensures
            r is Ok,
            final(self)@ == old(self)@,
    {
        Ok(())
    }
}

/// Frame for Vulkan rendering operations
pub struct VulkanFrame<'a> {
    pub renderer: &'a mut VulkanRenderer,
    pub size: Size,
}

impl<'a> VulkanFrame<'a> {
    /// The identifier of the rendering context.
    pub fn id(&self) -> (id: usize)
        ensures
            id == 0,
    {
        0
    }

    /// Clears the given regions. Accepted, with no effect on the frame.
    pub fn clear(&mut self, _at: &[Rectangle]) -> (r: Result<(), VulkanError>)
        ensures
            r is Ok,
            *final(self) == *old(self),
    {
        Ok(())
    }

    /// Draws a solid rectangle. Accepted, with no effect on the frame.
    pub fn draw_solid_rect(&mut self, _dst: Rectangle) -> (r: Result<(), VulkanError>)
        ensures
            r is Ok,
            *final(self) == *old(self),
    {
        Ok(())
    }

    /// Draws a texture at a position. Accepted, with no effect on the frame.
    pub fn render_texture_at(
        &mut self,
        _texture: &VulkanTexture,
        _pos: Point,
        _texture_scale: i32,
        _dst: Option<Rectangle>,
        _damage: &[Rectangle],
        _opaque_regions: Option<&[Rectangle]>,
        _kind: Kind,
    ) -> (r: Result<(), VulkanError>)
        ensures
            r is Ok,
            *final(self) == *old(self),
    {
        Ok(())
    }

    /// Draws part of a texture into a rectangle. Accepted, with no effect on the frame.
    pub fn render_texture_from_to(
        &mut self,
        _texture: &VulkanTexture,
        _dst: Rectangle,
        _damage: &[Rectangle],
        _opaque_regions: Option<&[Rectangle]>,
        _transform: Transform,
    ) -> (r: Result<(), VulkanError>)
        ensures
            r is Ok,
            *final(self) == *old(self),
    {
        Ok(())
    }

    /// The transformation that applies to this frame: none, whatever was asked for
    /// when the frame was started.
    pub fn transformation(&self) -> (transform: Transform)
        ensures
            transform == Transform::Normal,
    {
        Transform::Normal
    }

    /// Ends the frame, which leaves the renderer as the frame has it.
    pub fn finish(self) -> (r: Result<VulkanSyncPoint, VulkanError>)
        ensures
            r is Ok,
            *final(self.renderer) == *old(self.renderer),
    {
        Ok(VulkanSyncPoint {  })
    }
}

/// One operation on a renderer leads from `before` to `after`: it hands out the
/// next identifier, or it changes nothing but the debug flags.
pub open spec fn is_operation(
    before: RendererView,
    issued: Option<u64>,
    after: RendererView,
) -> bool {
    match issued {
        Some(id) => before.next_texture_id < u64::MAX && id == before.next_texture_id && after
            == after_import(before),
        None => after == (RendererView { debug_flags: after.debug_flags, ..before }),
    }
}

/// `states` is a history of a renderer and `issued` what each of its operations
/// handed out.
pub open spec fn is_history(states: Seq<RendererView>, issued: Seq<Option<u64>>) -> bool {
    &&& states.len() == issued.len() + 1
    &&& forall|i: int|
        0 <= i < issued.len() ==> is_operation(
            #[trigger] states[i],
            issued[i],
            states[i + 1],
        )
}

proof fn lemma_counter_never_goes_back(
    states: Seq<RendererView>,
    issued: Seq<Option<u64>>,
    i: int,
    j: int,
)
    requires
        is_history(states, issued),
        0 <= i <= j < states.len(),
    ensures
        states[i].next_texture_id <= states[j].next_texture_id,
    decreases j - i,
{
    if i < j {
        lemma_counter_never_goes_back(states, issued, i, j - 1);
        assert(is_operation(states[j - 1], issued[j - 1], states[j]));
    }
}

/// Texture identifiers are never reused: in any history of a renderer, whatever
/// mix of imports and other operations it has, a later texture has a larger
/// identifier than an earlier one.
pub proof fn law_texture_ids_are_unique(
    states: Seq<RendererView>,
    issued: Seq<Option<u64>>,
    i: int,
    j: int,
)
    requires
        is_history(states, issued),
        0 <= i < j < issued.len(),
        issued[i] is Some,
        issued[j] is Some,
    ensures
        issued[i]->0 < issued[j]->0,
{
    assert(is_operation(states[i], issued[i], states[i + 1]));
    assert(is_operation(states[j], issued[j], states[j + 1]));
    lemma_counter_never_goes_back(states, issued, i + 1, j);
}

/// The handles of a renderer stay what they were set up as, in any history.
pub proof fn law_handles_never_change(states: Seq<RendererView>, issued: Seq<Option<u64>>, i: int)
    requires
        is_history(states, issued),
        0 <= i < states.len(),
    ensures
        states[i].physical_device == states[0].physical_device,
        states[i].queue == states[0].queue,
        states[i].queue_family_index == states[0].queue_family_index,
        states[i].command_pool == states[0].command_pool,
    decreases i,
{
    if i > 0 {
        law_handles_never_change(states, issued, i - 1);
        assert(is_operation(states[i - 1], issued[i - 1], states[i]));
    }
}

/// A renderer that starts fresh hands out the identifiers from one upwards
/// without a gap: after `n` textures the next identifier is `n + 1`.
pub proof fn law_texture_ids_have_no_gaps(states: Seq<RendererView>, issued: Seq<Option<u64>>)
    requires
        is_history(states, issued),
        states[0].next_texture_id == 1,
    ensures
        states.last().next_texture_id == 1 + issued.filter(|id: Option<u64>| id is Some).len(),
    decreases issued.len(),
{
    let given = |id: Option<u64>| id is Some;
    if issued.len() == 0 {
        assert(issued.filter(given).len() == 0) by {
            reveal(Seq::filter);
        }
    } else {
        let n = issued.len() - 1;
        let earlier = states.drop_last();
        assert forall|i: int| 0 <= i < n implies is_operation(
            #[trigger] earlier[i],
            issued.drop_last()[i],
            earlier[i + 1],
        ) by {
            assert(is_operation(states[i], issued[i], states[i + 1]));
        }
        law_texture_ids_have_no_gaps(earlier, issued.drop_last());
        assert(is_operation(states[n], issued[n], states[n + 1]));
        assert(issued.filter(given).len() == issued.drop_last().filter(given).len() + (if given(
            issued.last(),
        ) {
            1int
        } else {
            0
        })) by {
            reveal(Seq::filter);
        }
    }
}

} // verus!
