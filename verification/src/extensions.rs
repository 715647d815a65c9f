//! The Vulkan extensions that DMA-BUF import rests on, and the test that a
//! device offers them.

use vstd::prelude::*;

use crate::error::VkResult;

verus! {

/// Required instance extensions for DMA-BUF support
pub open spec fn instance_extension_names() -> Seq<Seq<char>> {
    seq![
        "VK_KHR_external_memory_capabilities"@,
        "VK_KHR_external_semaphore_capabilities"@,
        "VK_KHR_get_physical_device_properties2"@,
    ]
}

/// Required device extensions for DMA-BUF import
pub open spec fn device_extension_names() -> Seq<Seq<char>> {
    seq![
        "VK_KHR_external_memory"@,
        "VK_KHR_external_memory_fd"@,
        "VK_EXT_external_memory_dma_buf"@,
        "VK_EXT_image_drm_format_modifier"@,
        "VK_KHR_external_semaphore"@,
        "VK_KHR_external_semaphore_fd"@,
    ]
}

/// The texts of a list of names.
pub open spec fn texts(names: Seq<&'static str>) -> Seq<Seq<char>> {
    names.map_values(|name: &'static str| name@)
}

/// The instance extensions to enable, in the order in which they are passed on.
pub fn required_instance_extensions() -> (names: Vec<&'static str>)
    ensures
        texts(names@) == instance_extension_names(),
{
    let names: Vec<&'static str> = vec![
        "VK_KHR_external_memory_capabilities",
        "VK_KHR_external_semaphore_capabilities",
        "VK_KHR_get_physical_device_properties2",
    ];
    assert(texts(names@) =~= instance_extension_names());
    names
}

/// The device extensions to demand and to enable, in the order in which they are passed on.
pub fn required_device_extensions() -> (names: Vec<&'static str>)
    ensures
        texts(names@) == device_extension_names(),
{
    let names: Vec<&'static str> = vec![
        "VK_KHR_external_memory",
        "VK_KHR_external_memory_fd",
        "VK_EXT_external_memory_dma_buf",
        "VK_EXT_image_drm_format_modifier",
        "VK_KHR_external_semaphore",
        "VK_KHR_external_semaphore_fd",
    ];
    assert(texts(names@) =~= device_extension_names());
    names
}

/// A fixed-size name buffer holds `name`: the bytes of `name`, none of them NUL,
/// then a NUL or the end of the buffer.
pub open spec fn spells(buffer: Seq<u8>, name: Seq<u8>) -> bool {
    &&& name.is_prefix_of(buffer)
    &&& !name.contains(0u8)
    &&& (name.len() == buffer.len() || buffer[name.len() as int] == 0)
}

/// Some of the reported name buffers holds the name with these bytes.
pub open spec fn reports(reported: Seq<Seq<u8>>, name: Seq<u8>) -> bool {
    exists|i: int| 0 <= i < reported.len() && spells(#[trigger] reported[i], name)
}

/// Some of the reported name buffers holds `name`.
pub open spec fn offers(reported: Seq<Seq<u8>>, name: Seq<char>) -> bool {
    reports(reported, vstd::utf8::encode_utf8(name))
}

/// A device is suitable when its extensions could be listed and every required
/// one is among them.
pub open spec fn is_suitable(extensions: Result<Seq<Seq<u8>>, VkResult>) -> bool {
    match extensions {
        Ok(reported) => forall|k: int|
            0 <= k < device_extension_names().len() ==> offers(
                reported,
                #[trigger] device_extension_names()[k],
            ),
        Err(_) => false,
    }
}

/// The reply to a listing of extensions, with its buffers as sequences of bytes.
pub open spec fn listing(extensions: Result<Vec<Vec<u8>>, VkResult>) -> Result<
    Seq<Seq<u8>>,
    VkResult,
> {
    match extensions {
        Ok(reported) => Ok(reported.deep_view()),
        Err(e) => Err(e),
    }
}

/// Whether a fixed-size, NUL-padded name buffer holds `name`.
pub fn buffer_spells(buffer: &Vec<u8>, name: &str) -> (same: bool)
    ensures
        same == spells(buffer@, vstd::utf8::encode_utf8(name@)),
{
    let bytes = name.as_bytes();
    let mut i: usize = 0;
    while i < bytes.len()
        invariant
            i <= bytes@.len(),
            i <= buffer@.len(),
            bytes@ == vstd::utf8::encode_utf8(name@),
            forall|j: int| 0 <= j < i ==> bytes@[j] == buffer@[j] && bytes@[j] != 0,
        decreases bytes@.len() - i,
    {
        if i >= buffer.len() || buffer[i] == 0 || buffer[i] != bytes[i] {
            assert(!spells(buffer@, bytes@)) by {
                if bytes@.is_prefix_of(buffer@) {
                    assert(buffer@.subrange(0, bytes@.len() as int)[i as int] == bytes@[i as int]);
                    assert(bytes@.contains(bytes@[i as int]));
                }
            }
            return false;
        }
        i += 1;
    }
    assert(buffer@.subrange(0, bytes@.len() as int) =~= bytes@);
    i == buffer.len() || buffer[i] == 0
}

/// Whether some reported name buffer holds `name`.
pub fn reports_extension(reported: &Vec<Vec<u8>>, name: &str) -> (found: bool)
    ensures
        found == offers(reported.deep_view(), name@),
{
    let mut i: usize = 0;
    while i < reported.len()
        invariant
            i <= reported@.len(),
            forall|j: int|
                0 <= j < i ==> !spells(#[trigger] reported.deep_view()[j], vstd::utf8::encode_utf8(name@)),
        decreases reported@.len() - i,
    {
        if buffer_spells(&reported[i], name) {
            assert(spells(reported.deep_view()[i as int], vstd::utf8::encode_utf8(name@)));
            return true;
        }
        i += 1;
    }
    false
}

/// A name buffer holds one name only.
pub proof fn law_buffer_spells_one_name(buffer: Seq<u8>, a: Seq<u8>, b: Seq<u8>)
    requires
        spells(buffer, a),
        spells(buffer, b),
    ensures
        a == b,
{
    if a.len() < b.len() {
        assert(b[a.len() as int] == buffer[a.len() as int]);
        assert(b.contains(b[a.len() as int]));
    } else if b.len() < a.len() {
        assert(a[b.len() as int] == buffer[b.len() as int]);
        assert(a.contains(a[b.len() as int]));
    }
    assert(a =~= b);
}

/// What a buffer holds after the NUL that ends its name does not matter.
pub proof fn law_bytes_after_nul_are_ignored(buffer: Seq<u8>, other: Seq<u8>, name: Seq<u8>)
    requires
        name.len() < buffer.len(),
        name.len() < other.len(),
        buffer.take(name.len() as int + 1) == other.take(name.len() as int + 1),
    ensures
        spells(buffer, name) == spells(other, name),
{
    let n = name.len() as int;
    assert forall|i: int| 0 <= i <= n implies buffer[i] == other[i] by {
        assert(buffer.take(n + 1)[i] == other.take(n + 1)[i]);
    }
    assert(buffer.subrange(0, n) =~= other.subrange(0, n));
}

/// Suitability depends only on which extension names are reported: a device that
/// reports at least the names that a suitable one reports is suitable, whatever the
/// order, the repetitions and the bytes behind the names are.
pub proof fn law_more_extensions_stay_suitable(fewer: Seq<Seq<u8>>, more: Seq<Seq<u8>>)
    requires
        is_suitable(Ok(fewer)),
        forall|name: Seq<u8>| reports(fewer, name) ==> #[trigger] reports(more, name),
    ensures
        is_suitable(Ok(more)),
{
    assert forall|k: int| 0 <= k < device_extension_names().len() implies offers(
        more,
        #[trigger] device_extension_names()[k],
    ) by {
        assert(offers(fewer, device_extension_names()[k]));
    }
}

} // verus!
