//! What a caller of a renderer can rely on: its imports, settings and frames, the
//! texts it is reported with, and the displays that renderers share.

use vstd::prelude::*;

use crate::display_cache::{same_node, DisplayCache, DrmNode};
use crate::error::{VkResult, VulkanError};
use crate::geometry::{
    DebugFlags, Format, Fourcc, Kind, Point, Rectangle, Size, TextureFilter, Transform,
};
use crate::text::decimal;
use crate::vulkan_renderer::{
    Dmabuf, TeardownStep, VulkanFrame, VulkanRenderer, VulkanSyncPoint, VulkanTexture,
};

verus! {

/// A bitmap becomes a texture of the given size and format under the next identifier.
/// The identifier moves on by one, and nothing else of the renderer changes.
pub proof fn law_import_from_memory(
    renderer: &mut VulkanRenderer,
    data: &[u8],
    format: Fourcc,
    size: Size,
    flipped: bool,
    imported: Result<VulkanTexture, VulkanError>,
)
    requires
        old(renderer)@.next_texture_id < u64::MAX,
        call_ensures(
            VulkanRenderer::import_memory,
            (renderer, data, format, size, flipped),
            imported,
        ),
    ensures
        imported is Ok,
        imported->Ok_0.id == old(renderer)@.next_texture_id,
        imported->Ok_0.size == size,
        imported->Ok_0.format == format,
        final(renderer)@.next_texture_id == old(renderer)@.next_texture_id + 1,
        final(renderer)@.physical_device == old(renderer)@.physical_device,
        final(renderer)@.queue == old(renderer)@.queue,
        final(renderer)@.queue_family_index == old(renderer)@.queue_family_index,
        final(renderer)@.command_pool == old(renderer)@.command_pool,
        final(renderer)@.debug_flags == old(renderer)@.debug_flags,
{
}

/// A stored display is what is found under its node afterwards; what is found under any
/// other node stays the same.
pub proof fn law_cache_gives_back<W>(
    cache: &mut DisplayCache<W>,
    node: Option<DrmNode>,
    display: W,
    other: Option<DrmNode>,
    done: (),
)
    requires
        call_ensures(DisplayCache::<W>::insert, (cache, node, display), done),
        other != node,
    ensures
        forall|found: Option<&W>|
            call_ensures(DisplayCache::<W>::get, (&*final(cache), &node), found) ==> found
                == Some(&display),
        forall|before: Option<&W>, after: Option<&W>|
            call_ensures(DisplayCache::<W>::get, (&*old(cache), &other), before) && call_ensures(
                DisplayCache::<W>::get,
                (&*final(cache), &other),
                after,
            ) ==> before == after,
{
}

/// A code turns into the error that carries it.
pub proof fn law_code_is_kept(code: VkResult, error: VulkanError)
    requires
        call_ensures(<VulkanError as From<VkResult>>::from, (code,), error),
    ensures
        error == VulkanError::VkError(code),
{
}

/// A DMA-BUF becomes a texture of its size and pixel format under the next identifier.
/// The identifier moves on by one, and nothing else of the renderer changes.
pub proof fn law_import_from_dmabuf(
    renderer: &mut VulkanRenderer,
    dmabuf: Dmabuf,
    damage: Option<&[Rectangle]>,
    imported: Result<VulkanTexture, VulkanError>,
)
    requires
        old(renderer)@.next_texture_id < u64::MAX,
        dmabuf.width <= i32::MAX,
        dmabuf.height <= i32::MAX,
        call_ensures(VulkanRenderer::import_dmabuf, (renderer, &dmabuf, damage), imported),
    ensures
        imported is Ok,
        imported->Ok_0.id == old(renderer)@.next_texture_id,
        imported->Ok_0.size.w == dmabuf.width,
        imported->Ok_0.size.h == dmabuf.height,
        imported->Ok_0.format == dmabuf.format.code,
        final(renderer)@.next_texture_id == old(renderer)@.next_texture_id + 1,
        final(renderer)@.physical_device == old(renderer)@.physical_device,
        final(renderer)@.queue == old(renderer)@.queue,
        final(renderer)@.queue_family_index == old(renderer)@.queue_family_index,
        final(renderer)@.command_pool == old(renderer)@.command_pool,
        final(renderer)@.debug_flags == old(renderer)@.debug_flags,
{
}

/// Two imports in a row give textures with consecutive identifiers, from memory and
/// from a DMA-BUF alike.
pub proof fn law_imports_share_one_counter(
    renderer: &mut VulkanRenderer,
    later: &mut VulkanRenderer,
    data: &[u8],
    format: Fourcc,
    size: Size,
    flipped: bool,
    dmabuf: Dmabuf,
    damage: Option<&[Rectangle]>,
    first: Result<VulkanTexture, VulkanError>,
    second: Result<VulkanTexture, VulkanError>,
)
    requires
        old(renderer)@.next_texture_id < u64::MAX - 1,
        dmabuf.width <= i32::MAX,
        dmabuf.height <= i32::MAX,
        *old(later) == *final(renderer),
        (call_ensures(
            VulkanRenderer::import_memory,
            (renderer, data, format, size, flipped),
            first,
        ) && call_ensures(VulkanRenderer::import_dmabuf, (later, &dmabuf, damage), second)) || (
        call_ensures(VulkanRenderer::import_dmabuf, (renderer, &dmabuf, damage), first)
            && call_ensures(
            VulkanRenderer::import_memory,
            (later, data, format, size, flipped),
            second,
        )),
    ensures
        first is Ok,
        second is Ok,
        second->Ok_0.id == first->Ok_0.id + 1,
{
}

/// What the getters return is what the renderer was set up with, the identifier that the
/// next texture gets, and the debug flags.
pub proof fn law_getters_agree_with_state(
    renderer: VulkanRenderer,
    physical_device: usize,
    queue: usize,
    queue_family_index: u32,
    command_pool: u64,
    next_texture_id: u64,
    debug_flags: DebugFlags,
)
    requires
        call_ensures(VulkanRenderer::physical_device, (&renderer,), physical_device),
        call_ensures(VulkanRenderer::queue, (&renderer,), queue),
        call_ensures(VulkanRenderer::queue_family_index, (&renderer,), queue_family_index),
        call_ensures(VulkanRenderer::command_pool, (&renderer,), command_pool),
        call_ensures(VulkanRenderer::next_texture_id, (&renderer,), next_texture_id),
        call_ensures(VulkanRenderer::debug_flags, (&renderer,), debug_flags),
    ensures
        renderer@.physical_device == physical_device,
        renderer@.queue == queue,
        renderer@.queue_family_index == queue_family_index,
        renderer@.command_pool == command_pool,
        renderer@.next_texture_id == next_texture_id,
        next_texture_id >= 1,
        renderer@.debug_flags == debug_flags,
{
}

/// Debug flags are read back as they were set, and setting them changes nothing else.
pub proof fn law_debug_flags_are_kept(
    renderer: &mut VulkanRenderer,
    flags: DebugFlags,
    done: (),
)
    requires
        call_ensures(VulkanRenderer::set_debug_flags, (renderer, flags), done),
    ensures
        forall|read: DebugFlags|
            call_ensures(VulkanRenderer::debug_flags, (&*final(renderer),), read) ==> read
                == flags,
        final(renderer)@.next_texture_id == old(renderer)@.next_texture_id,
        final(renderer)@.physical_device == old(renderer)@.physical_device,
        final(renderer)@.queue == old(renderer)@.queue,
        final(renderer)@.queue_family_index == old(renderer)@.queue_family_index,
        final(renderer)@.command_pool == old(renderer)@.command_pool,
{
}

/// Filters, updates of a texture and the release of a target are accepted and leave the
/// renderer as it is.
pub proof fn law_accepted_without_effect(
    renderer: &mut VulkanRenderer,
    filter: TextureFilter,
    texture: VulkanTexture,
    data: &[u8],
    region: Rectangle,
    r: Result<(), VulkanError>,
)
    requires
        call_ensures(VulkanRenderer::downscale_filter, (renderer, filter), r) || call_ensures(
            VulkanRenderer::upscale_filter,
            (renderer, filter),
            r,
        ) || call_ensures(VulkanRenderer::unbind, (renderer,), r) || call_ensures(
            VulkanRenderer::update_memory,
            (renderer, &texture, data, region),
            r,
        ),
    ensures
        r is Ok,
        final(renderer)@ == old(renderer)@,
{
}

/// A DMA-BUF is never bound: the renderer says that it cannot and stays as it is.
pub proof fn law_bind_is_refused(
    renderer: &mut VulkanRenderer,
    target: Dmabuf,
    r: Result<(), VulkanError>,
)
    requires
        call_ensures(VulkanRenderer::bind, (renderer, target), r),
    ensures
        r is Err,
        r->Err_0 is NotImplemented,
        r->Err_0->NotImplemented_0@ == "Bind<Dmabuf>"@,
        final(renderer)@ == old(renderer)@,
{
}

/// The formats that any renderer lists: four for bitmaps, `AR24`, `XR24`, `AB24` and
/// `XB24` in this order, none for DMA-BUFs, and no statement on targets.
pub proof fn law_listed_formats(
    renderer: VulkanRenderer,
    memory: Vec<Fourcc>,
    dmabuf: Vec<Format>,
    target: Option<Vec<Format>>,
)
    requires
        call_ensures(VulkanRenderer::mem_formats, (&renderer,), memory),
        call_ensures(VulkanRenderer::dmabuf_formats, (&renderer,), dmabuf),
        call_ensures(VulkanRenderer::supported_formats, (&renderer,), target),
    ensures
        memory@.len() == 4,
        memory@[0].code == 0x3432_5241,
        memory@[1].code == 0x3432_5258,
        memory@[2].code == 0x3432_4241,
        memory@[3].code == 0x3432_4258,
        dmabuf@.len() == 0,
        target is None,
{
}

/// Any renderer is released in four steps: the work is waited for, then its command pool
/// is destroyed, then the device, and the instance last.
pub proof fn law_release_order(renderer: VulkanRenderer, pool: u64, steps: Vec<TeardownStep>)
    requires
        call_ensures(VulkanRenderer::command_pool, (&renderer,), pool),
        call_ensures(VulkanRenderer::teardown, (&renderer,), steps),
    ensures
        steps@.len() == 4,
        steps@[0] == TeardownStep::WaitIdle,
        steps@[1] == TeardownStep::DestroyCommandPool(pool),
        steps@[2] == TeardownStep::DestroyDevice,
        steps@[3] == TeardownStep::DestroyInstance,
{
}

/// The debug text of a renderer holds the text of its device and its next identifier in
/// decimal, and no other part of the renderer.
pub proof fn law_debug_text(
    renderer: VulkanRenderer,
    device: usize,
    device_text: &str,
    id: u64,
    id_text: String,
    given: String,
    own: String,
)
    requires
        call_ensures(VulkanRenderer::physical_device, (&renderer,), device),
        call_ensures(VulkanRenderer::next_texture_id, (&renderer,), id),
        call_ensures(decimal, (id,), id_text),
        call_ensures(VulkanRenderer::debug_text_with, (&renderer, device_text), given),
        call_ensures(VulkanRenderer::debug_text, (&renderer,), own),
    ensures
        given@ == "VulkanRenderer { physical_device: "@ + device_text@ + ", next_texture_id: "@
            + id_text@ + " }"@,
        own@ == "VulkanRenderer { physical_device: "@
            + crate::vulkan_renderer::physical_device_debug(device) + ", next_texture_id: "@
            + id_text@ + " }"@,
{
}

/// A frame has the size that it was started with and works on the renderer as it was.
pub proof fn law_frame_starts(
    renderer: &mut VulkanRenderer,
    size: Size,
    transform: Transform,
    frame: Result<VulkanFrame, VulkanError>,
)
    requires
        call_ensures(VulkanRenderer::render, (renderer, size, transform), frame),
    ensures
        frame is Ok,
        frame->Ok_0.size == size,
        *frame->Ok_0.renderer == *old(renderer),
        *final(frame->Ok_0.renderer) == *final(renderer),
{
}

/// Drawing is accepted and leaves the frame as it is.
pub proof fn law_drawing_has_no_effect(
    frame: &mut VulkanFrame,
    at: &[Rectangle],
    dst: Rectangle,
    texture: VulkanTexture,
    pos: Point,
    scale: i32,
    part: Option<Rectangle>,
    regions: Option<&[Rectangle]>,
    kind: Kind,
    transform: Transform,
    r: Result<(), VulkanError>,
)
    requires
        call_ensures(VulkanFrame::clear, (frame, at), r) || call_ensures(
            VulkanFrame::draw_solid_rect,
            (frame, dst),
            r,
        ) || call_ensures(
            VulkanFrame::render_texture_at,
            (frame, &texture, pos, scale, part, at, regions, kind),
            r,
        ) || call_ensures(
            VulkanFrame::render_texture_from_to,
            (frame, &texture, dst, at, regions, transform),
            r,
        ),
    ensures
        r is Ok,
        *final(frame) == *old(frame),
{
}

/// A frame can always be finished, which leaves the renderer as the frame has it.
pub proof fn law_frame_finishes(
    frame: VulkanFrame,
    finished: Result<VulkanSyncPoint, VulkanError>,
)
    requires
        call_ensures(VulkanFrame::finish, (frame,), finished),
    ensures
        finished is Ok,
        *final(frame.renderer) == *old(frame.renderer),
{
}

/// Every frame has the identifier zero and no transformation.
pub proof fn law_frame_is_plain(frame: VulkanFrame, id: usize, transform: Transform)
    requires
        call_ensures(VulkanFrame::id, (&frame,), id),
        call_ensures(VulkanFrame::transformation, (&frame,), transform),
    ensures
        id == 0,
        transform == Transform::Normal,
{
}

/// A sync point has always been reached, and waiting for it succeeds.
pub proof fn law_nothing_is_pending(
    point: VulkanSyncPoint,
    reached: bool,
    waited: Result<(), ()>,
)
    requires
        call_ensures(VulkanSyncPoint::is_reached, (&point,), reached),
        call_ensures(VulkanSyncPoint::wait, (&point,), waited),
    ensures
        reached,
        waited is Ok,
{
}

/// Each error is reported by its label, followed by what it carries; a Vulkan code by
/// the text that stands for it.
pub proof fn law_error_texts(
    error: VulkanError,
    code_text: &str,
    given: String,
    own: String,
)
    requires
        call_ensures(VulkanError::describe, (&error, code_text), given),
        call_ensures(VulkanError::message, (&error,), own),
    ensures
        match error {
            VulkanError::LoadError => own@ == "Failed to load Vulkan library"@,
            VulkanError::NoDevice => own@ == "No suitable Vulkan device found"@,
            VulkanError::MissingExtension(name) => own@ == "Missing extension: "@ + name@,
            VulkanError::VkError(result) => own@ == "Vulkan error: "@
                + crate::error::vk_result_debug(result.code),
            VulkanError::DmabufImport(reason) => own@ == "DMA-BUF import failed: "@ + reason@,
            VulkanError::RenderError(reason) => own@ == "Render error: "@ + reason@,
            VulkanError::NotImplemented(feature) => own@ == "Not implemented: "@ + feature@,
        },
        error is VkError ==> given@ == "Vulkan error: "@ + code_text@,
        !(error is VkError) ==> given@ == own@,
{
}

/// The number that a text of decimal digits stands for.
pub open spec fn number_of(text: Seq<char>) -> int
    decreases text.len(),
{
    if text.len() == 0 {
        0
    } else {
        10 * number_of(text.drop_last()) + (text.last() as int - '0' as int)
    }
}

/// A number in decimal is made of digits alone, has no leading zero, and reads back as
/// the number.
pub proof fn law_decimal_reads_back(n: u64, text: String)
    requires
        call_ensures(decimal, (n,), text),
    ensures
        number_of(text@) == n,
        text@.len() >= 1,
        text@.len() == 1 || text@[0] != '0',
        forall|i: int| 0 <= i < text@.len() ==> '0' <= #[trigger] text@[i] <= '9',
{
    lemma_decimal_digits(n as nat);
}

proof fn lemma_decimal_digits(n: nat)
    ensures
        ({
            let text = crate::text::decimal_digits(n);
            &&& number_of(text) == n
            &&& text.len() >= 1
            &&& n > 0 ==> text[0] != '0'
            &&& n < 10 ==> text.len() == 1
            &&& forall|i: int| 0 <= i < text.len() ==> '0' <= #[trigger] text[i] <= '9'
        }),
    decreases n,
{
    let text = crate::text::decimal_digits(n);
    if n >= 10 {
        lemma_decimal_digits(n / 10);
        let front = crate::text::decimal_digits(n / 10);
        assert(text == front.push(crate::text::digit(n % 10)));
        assert(text.drop_last() =~= front);
        assert(text[0] == front[0]);
    } else {
        assert(text.drop_last() =~= Seq::<char>::empty());
        assert(number_of(text.drop_last()) == 0);
    }
}

/// A new cache holds no display under any node.
pub proof fn law_new_cache_is_empty<W>(
    cache: DisplayCache<W>,
    node: Option<DrmNode>,
    found: Option<&W>,
)
    requires
        call_ensures(DisplayCache::<W>::new, (), cache),
        call_ensures(DisplayCache::<W>::get, (&cache, &node), found),
    ensures
        found is None,
{
}

/// Nodes are the same exactly when both the device number and the type agree. No node is
/// the same only as no node.
pub proof fn law_same_node(a: Option<DrmNode>, b: Option<DrmNode>, same: bool)
    requires
        call_ensures(same_node, (&a, &b), same),
    ensures
        a is None && b is None ==> same,
        a is None != b is None ==> !same,
        a is Some && b is Some ==> (same <==> a->0.dev == b->0.dev && a->0.ty == b->0.ty),
{
}

/// As long as identifiers are left, a bitmap of any size and format can be imported, and
/// a DMA-BUF of any format whose size fits a texture.
pub proof fn law_imports_are_accepted(
    renderer: &mut VulkanRenderer,
    data: &[u8],
    format: Fourcc,
    size: Size,
    flipped: bool,
    dmabuf: Dmabuf,
    damage: Option<&[Rectangle]>,
)
    requires
        old(renderer)@.next_texture_id < u64::MAX,
    ensures
        call_requires(
            VulkanRenderer::import_memory,
            (renderer, data, format, size, flipped),
        ),
        dmabuf.width <= i32::MAX && dmabuf.height <= i32::MAX ==> call_requires(
            VulkanRenderer::import_dmabuf,
            (renderer, &dmabuf, damage),
        ),
{
}

} // verus!
