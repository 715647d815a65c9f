//! Errors of the Vulkan renderer and the text they are reported with.

use vstd::prelude::*;

verus! {

/// A Vulkan result code, as the API returns it.
#[derive(Clone, Copy, PartialEq, Eq, Structural)]
pub struct VkResult {
    pub code: i32,
}

/// Error type for Vulkan renderer operations
#[derive(Clone)]
pub enum VulkanError {
    /// Failed to load Vulkan library
    LoadError,
    /// No suitable physical device found
    NoDevice,
    /// Required extension not available
    MissingExtension(&'static str),
    /// Vulkan API error
    VkError(VkResult),
    /// Failed to import DMA-BUF
    DmabufImport(String),
    /// Rendering failed
    RenderError(String),
    /// Feature not yet implemented
    NotImplemented(&'static str),
}

/// What a [`VulkanError`] says, with its texts as sequences of characters.
pub enum ErrorView {
    LoadError,
    NoDevice,
    MissingExtension(Seq<char>),
    VkError(i32),
    DmabufImport(Seq<char>),
    RenderError(Seq<char>),
    NotImplemented(Seq<char>),
}

impl View for VulkanError {
    type V = ErrorView;

    open spec fn view(&self) -> ErrorView {
        match *self {
            VulkanError::LoadError => ErrorView::LoadError,
            VulkanError::NoDevice => ErrorView::NoDevice,
            VulkanError::MissingExtension(name) => ErrorView::MissingExtension(name@),
            VulkanError::VkError(result) => ErrorView::VkError(result.code),
            VulkanError::DmabufImport(reason) => ErrorView::DmabufImport(reason@),
            VulkanError::RenderError(reason) => ErrorView::RenderError(reason@),
            VulkanError::NotImplemented(feature) => ErrorView::NotImplemented(feature@),
        }
    }
}

/// The text that `ash` prints for a result code with `{:?}`: the name of the
/// code where it knows one, the number otherwise.
pub uninterp spec fn vk_result_debug(code: i32) -> Seq<char>;

/// The `Debug` text of `ash::vk::Result` for a code. The contract says only that
/// it is a function of the code; the table of names stays with `ash`.
#[verifier::external_body]
fn vk_result_text(code: i32) -> (text: String)
    ensures
        text@ == vk_result_debug(code),
{
    format!("{:?}", ash::vk::Result::from_raw(code))
}

/// The text of an error, given what the Vulkan bindings print for its result code.
pub open spec fn described(error: ErrorView, code_text: Seq<char>) -> Seq<char> {
    match error {
        ErrorView::LoadError => "Failed to load Vulkan library"@,
        ErrorView::NoDevice => "No suitable Vulkan device found"@,
        ErrorView::MissingExtension(name) => "Missing extension: "@ + name,
        ErrorView::VkError(_) => "Vulkan error: "@ + code_text,
        ErrorView::DmabufImport(reason) => "DMA-BUF import failed: "@ + reason,
        ErrorView::RenderError(reason) => "Render error: "@ + reason,
        ErrorView::NotImplemented(feature) => "Not implemented: "@ + feature,
    }
}

/// The text that an error is reported with.
pub open spec fn error_message(error: ErrorView) -> Seq<char> {
    match error {
        ErrorView::VkError(code) => described(error, vk_result_debug(code)),
        _ => described(error, seq![]),
    }
}

fn labelled(label: &str, text: &str) -> (s: String)
    ensures
        s@ == label@ + text@,
{
    label.to_string().concat(text)
}

impl VulkanError {
    /// The text that this error is reported with.
    pub fn message(&self) -> (text: String)
        ensures
            text@ == error_message(self@),
    {
        match self {
            VulkanError::VkError(result) => {
                let code_text = vk_result_text(result.code);
                self.describe(code_text.as_str())
            },
            _ => self.describe(""),
        }
    }

    /// The text of this error, where `code_text` is what stands for a Vulkan result code.
    pub fn describe(&self, code_text: &str) -> (text: String)
        ensures
            text@ == described(self@, code_text@),
    {
        match self {
            VulkanError::LoadError => "Failed to load Vulkan library".to_string(),
            VulkanError::NoDevice => "No suitable Vulkan device found".to_string(),
            VulkanError::MissingExtension(name) => labelled("Missing extension: ", name),
            VulkanError::VkError(_) => labelled("Vulkan error: ", code_text),
            VulkanError::DmabufImport(reason) => {
                labelled("DMA-BUF import failed: ", reason.as_str())
            },
            VulkanError::RenderError(reason) => labelled("Render error: ", reason.as_str()),
            VulkanError::NotImplemented(feature) => labelled("Not implemented: ", feature),
        }
    }
}

impl From<VkResult> for VulkanError {
    fn from(result: VkResult) -> (error: Self) {
        VulkanError::VkError(result)
    }
}

impl vstd::std_specs::convert::FromSpecImpl<VkResult> for VulkanError {
    open spec fn obeys_from_spec() -> bool {
        true
    }

    open spec fn from_spec(result: VkResult) -> Self {
        VulkanError::VkError(result)
    }
}

} // verus!
