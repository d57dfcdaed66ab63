use vstd::prelude::*;
use vstd::slice::slice_subrange;
use vstd::string::StringSliceAdditionalSpecFns;
use crate::fixtures::bytes_eq;

verus! {

/// The prefix that every exported operation name carries.
pub const API_PREFIX: &'static str = "vk";

/// How many operations the driver exports.
pub const ENTRY_POINT_COUNT: usize = 142;

/// The exported symbol of the operation with canonical name `name`.
pub open spec fn exported(name: &str) -> Seq<u8> {
    API_PREFIX.spec_bytes() + name.spec_bytes()
}

/// Whether `symbol` is the exported symbol of `name`.
pub fn is_exported_as(symbol: &[u8], name: &str) -> (r: bool)
    ensures
        r == (symbol@ == exported(name)),
{
    let prefix = API_PREFIX.as_bytes();
    if symbol.len() < prefix.len() {
        return false;
    }
    let head = slice_subrange(symbol, 0, prefix.len());
    let tail = slice_subrange(symbol, prefix.len(), symbol.len());
    assert(symbol@ =~= head@ + tail@);
    let r = bytes_eq(head, prefix) && bytes_eq(tail, name.as_bytes());
    proof {
        if symbol@ == exported(name) {
            assert(head@ =~= exported(name).subrange(0, prefix@.len() as int));
            assert(exported(name).subrange(0, prefix@.len() as int) =~= prefix@);
            assert(tail@ =~= exported(name).subrange(prefix@.len() as int, symbol@.len() as int));
            assert(exported(name).subrange(prefix@.len() as int, symbol@.len() as int)
                =~= name.spec_bytes());
        }
    }
    r
}

/// The canonical names of the exported operations, in table order, which is
/// strictly increasing.
pub open spec fn declared_names() -> Seq<&'static str> {
    seq![
        "AllocateCommandBuffers",
        "AllocateDescriptorSets",
        "AllocateMemory",
        "BeginCommandBuffer",
        "BindBufferMemory",
        "BindImageMemory",
        "CmdBeginQuery",
        "CmdBeginRenderPass",
        "CmdBindDescriptorSets",
        "CmdBindIndexBuffer",
        "CmdBindPipeline",
        "CmdBindVertexBuffers",
        "CmdBlitImage",
        "CmdClearAttachments",
        "CmdClearColorImage",
        "CmdClearDepthStencilImage",
        "CmdCopyBuffer",
        "CmdCopyBufferToImage",
        "CmdCopyImage",
        "CmdCopyImageToBuffer",
        "CmdCopyQueryPoolResults",
        "CmdDispatch",
        "CmdDispatchIndirect",
        "CmdDraw",
        "CmdDrawIndexed",
        "CmdDrawIndexedIndirect",
        "CmdDrawIndirect",
        "CmdEndQuery",
        "CmdEndRenderPass",
        "CmdExecuteCommands",
        "CmdFillBuffer",
        "CmdNextSubpass",
        "CmdPipelineBarrier",
        "CmdPushConstants",
        "CmdResetEvent",
        "CmdResetQueryPool",
        "CmdResolveImage",
        "CmdSetBlendConstants",
        "CmdSetDepthBias",
        "CmdSetDepthBounds",
        "CmdSetEvent",
        "CmdSetLineWidth",
        "CmdSetScissor",
        "CmdSetStencilCompareMask",
        "CmdSetStencilReference",
        "CmdSetStencilWriteMask",
        "CmdSetViewport",
        "CmdUpdateBuffer",
        "CmdWaitEvents",
        "CmdWriteTimestamp",
        "CreateBuffer",
        "CreateBufferView",
        "CreateCommandPool",
        "CreateComputePipelines",
        "CreateDescriptorPool",
        "CreateDescriptorSetLayout",
        "CreateDevice",
        "CreateEvent",
        "CreateFence",
        "CreateFramebuffer",
        "CreateGraphicsPipelines",
        "CreateImage",
        "CreateImageView",
        "CreateInstance",
        "CreatePipelineCache",
        "CreatePipelineLayout",
        "CreateQueryPool",
        "CreateRenderPass",
        "CreateSampler",
        "CreateSemaphore",
        "CreateShaderModule",
        "CreateSwapchainKHR",
        "DestroyBuffer",
        "DestroyBufferView",
        "DestroyCommandPool",
        "DestroyDescriptorPool",
        "DestroyDescriptorSetLayout",
        "DestroyDevice",
        "DestroyEvent",
        "DestroyFence",
        "DestroyFramebuffer",
        "DestroyImage",
        "DestroyImageView",
        "DestroyInstance",
        "DestroyPipeline",
        "DestroyPipelineCache",
        "DestroyPipelineLayout",
        "DestroyQueryPool",
        "DestroyRenderPass",
        "DestroySampler",
        "DestroySemaphore",
        "DestroyShaderModule",
        "DestroySwapchainKHR",
        "DeviceWaitIdle",
        "EndCommandBuffer",
        "EnumerateDeviceExtensionProperties",
        "EnumerateInstanceExtensionProperties",
        "EnumeratePhysicalDevices",
        "FlushMappedMemoryRanges",
        "FreeCommandBuffers",
        "FreeDescriptorSets",
        "FreeMemory",
        "GetBufferMemoryRequirements",
        "GetDeviceMemoryCommitment",
        "GetDeviceProcAddr",
        "GetDeviceQueue",
        "GetEventStatus",
        "GetFenceStatus",
        "GetImageMemoryRequirements",
        "GetImageSparseMemoryRequirements",
        "GetImageSubresourceLayout",
        "GetPhysicalDeviceFeatures",
        "GetPhysicalDeviceFormatProperties",
        "GetPhysicalDeviceImageFormatProperties",
        "GetPhysicalDeviceMemoryProperties",
        "GetPhysicalDeviceProperties",
        "GetPhysicalDeviceQueueFamilyProperties",
        "GetPhysicalDeviceSparseImageFormatProperties",
        "GetPhysicalDeviceSurfaceCapabilitiesKHR",
        "GetPhysicalDeviceSurfaceFormatsKHR",
        "GetPhysicalDeviceSurfacePresentModesKHR",
        "GetPhysicalDeviceSurfaceSupportKHR",
        "GetPhysicalDeviceXcbPresentationSupportKHR",
        "GetPipelineCacheData",
        "GetQueryPoolResults",
        "GetRenderAreaGranularity",
        "GetSwapchainImagesKHR",
        "InvalidateMappedMemoryRanges",
        "MapMemory",
        "MergePipelineCaches",
        "QueueBindSparse",
        "QueueSubmit",
        "QueueWaitIdle",
        "ResetCommandBuffer",
        "ResetCommandPool",
        "ResetDescriptorPool",
        "ResetEvent",
        "ResetFences",
        "SetEvent",
        "UnmapMemory",
        "UpdateDescriptorSets",
        "WaitForFences",
    ]
}

/// `a` comes before `b` in lexicographic order, and `k` is where they part:
/// they agree below `k`, and there `a` has ended or holds a smaller character.
pub open spec fn precedes_at(a: Seq<char>, b: Seq<char>, k: int) -> bool {
    &&& 0 <= k <= a.len()
    &&& k < b.len()
    &&& agree_below(a, b, k)
    &&& (k == a.len() || a[k] < b[k])
}

/// `a` and `b` hold the same characters at every position below `k`.
pub open spec fn agree_below(a: Seq<char>, b: Seq<char>, k: int) -> bool
    decreases k,
{
    if k <= 0 {
        true
    } else {
        a[k - 1] == b[k - 1] && agree_below(a, b, k - 1)
    }
}

/// `agree_below` says that the characters agree at every position below `k`.
proof fn lemma_agree_below(a: Seq<char>, b: Seq<char>, k: int)
    requires
        0 <= k,
    ensures
        agree_below(a, b, k) <==> forall|t: int| 0 <= t < k ==> a[t] == b[t],
    decreases k,
{
    if k > 0 {
        lemma_agree_below(a, b, k - 1);
    }
}

/// `a` comes strictly before `b` in lexicographic order.
pub open spec fn precedes(a: Seq<char>, b: Seq<char>) -> bool {
    exists|k: int| precedes_at(a, b, k)
}

/// Lexicographic order is irreflexive.
pub proof fn lemma_precedes_irreflexive(a: Seq<char>)
    ensures
        !precedes(a, a),
{
}

/// Lexicographic order is transitive.
pub proof fn lemma_precedes_transitive(a: Seq<char>, b: Seq<char>, c: Seq<char>)
    requires
        precedes(a, b),
        precedes(b, c),
    ensures
        precedes(a, c),
{
    let i = choose|i: int| precedes_at(a, b, i);
    let j = choose|j: int| precedes_at(b, c, j);
    let k = if i <= j {
        i
    } else {
        j
    };
    lemma_agree_below(a, b, i);
    lemma_agree_below(b, c, j);
    lemma_agree_below(a, c, k);
    if i < j {
        assert(b[i] == c[i]);
    } else if j < i {
        assert(a[j] == b[j]);
    }
    assert(precedes_at(a, c, k));
}

/// Every name of `s` from position `k` on comes strictly before the next one.
pub open spec fn ordered_from(s: Seq<&'static str>, k: int) -> bool
    decreases s.len() - k,
{
    if k < 0 || k + 1 >= s.len() {
        true
    } else {
        precedes(s[k]@, s[k + 1]@) && ordered_from(s, k + 1)
    }
}

/// What `ordered_from` gives at one position.
proof fn lemma_ordered_at(s: Seq<&'static str>, k: int, i: int)
    requires
        0 <= k <= i,
        i + 1 < s.len(),
        ordered_from(s, k),
    ensures
        precedes(s[i]@, s[i + 1]@),
    decreases i - k,
{
    if k < i {
        lemma_ordered_at(s, k + 1, i);
    }
}

/// Each declared name comes strictly before the next one.
proof fn lemma_declared_names_sorted()
    ensures
        forall|i: int|
            0 <= i < declared_names().len() - 1 ==> precedes(
                #[trigger] declared_names()[i]@,
                declared_names()[i + 1]@,
            ),
{
    reveal_with_fuel(agree_below, 25);
    assert(precedes_at("AllocateCommandBuffers"@, "AllocateDescriptorSets"@, 8)) by {
        reveal_strlit("AllocateCommandBuffers");
        reveal_strlit("AllocateDescriptorSets");
    }
    assert(precedes_at("AllocateDescriptorSets"@, "AllocateMemory"@, 8)) by {
        reveal_strlit("AllocateDescriptorSets");
        reveal_strlit("AllocateMemory");
    }
    assert(precedes_at("AllocateMemory"@, "BeginCommandBuffer"@, 0)) by {
        reveal_strlit("AllocateMemory");
        reveal_strlit("BeginCommandBuffer");
    }
    assert(precedes_at("BeginCommandBuffer"@, "BindBufferMemory"@, 1)) by {
        reveal_strlit("BeginCommandBuffer");
        reveal_strlit("BindBufferMemory");
    }
    assert(precedes_at("BindBufferMemory"@, "BindImageMemory"@, 4)) by {
        reveal_strlit("BindBufferMemory");
        reveal_strlit("BindImageMemory");
    }
    assert(precedes_at("BindImageMemory"@, "CmdBeginQuery"@, 0)) by {
        reveal_strlit("BindImageMemory");
        reveal_strlit("CmdBeginQuery");
    }
    assert(precedes_at("CmdBeginQuery"@, "CmdBeginRenderPass"@, 8)) by {
        reveal_strlit("CmdBeginQuery");
        reveal_strlit("CmdBeginRenderPass");
    }
    assert(precedes_at("CmdBeginRenderPass"@, "CmdBindDescriptorSets"@, 4)) by {
        reveal_strlit("CmdBeginRenderPass");
        reveal_strlit("CmdBindDescriptorSets");
    }
    assert(precedes_at("CmdBindDescriptorSets"@, "CmdBindIndexBuffer"@, 7)) by {
        reveal_strlit("CmdBindDescriptorSets");
        reveal_strlit("CmdBindIndexBuffer");
    }
    assert(precedes_at("CmdBindIndexBuffer"@, "CmdBindPipeline"@, 7)) by {
        reveal_strlit("CmdBindIndexBuffer");
        reveal_strlit("CmdBindPipeline");
    }
    assert(precedes_at("CmdBindPipeline"@, "CmdBindVertexBuffers"@, 7)) by {
        reveal_strlit("CmdBindPipeline");
        reveal_strlit("CmdBindVertexBuffers");
    }
    assert(precedes_at("CmdBindVertexBuffers"@, "CmdBlitImage"@, 4)) by {
        reveal_strlit("CmdBindVertexBuffers");
        reveal_strlit("CmdBlitImage");
    }
    assert(precedes_at("CmdBlitImage"@, "CmdClearAttachments"@, 3)) by {
        reveal_strlit("CmdBlitImage");
        reveal_strlit("CmdClearAttachments");
    }
    assert(precedes_at("CmdClearAttachments"@, "CmdClearColorImage"@, 8)) by {
        reveal_strlit("CmdClearAttachments");
        reveal_strlit("CmdClearColorImage");
    }
    assert(precedes_at("CmdClearColorImage"@, "CmdClearDepthStencilImage"@, 8)) by {
        reveal_strlit("CmdClearColorImage");
        reveal_strlit("CmdClearDepthStencilImage");
    }
    assert(precedes_at("CmdClearDepthStencilImage"@, "CmdCopyBuffer"@, 4)) by {
        reveal_strlit("CmdClearDepthStencilImage");
        reveal_strlit("CmdCopyBuffer");
    }
    assert(precedes_at("CmdCopyBuffer"@, "CmdCopyBufferToImage"@, 13)) by {
        reveal_strlit("CmdCopyBuffer");
        reveal_strlit("CmdCopyBufferToImage");
    }
    assert(precedes_at("CmdCopyBufferToImage"@, "CmdCopyImage"@, 7)) by {
        reveal_strlit("CmdCopyBufferToImage");
        reveal_strlit("CmdCopyImage");
    }
    assert(precedes_at("CmdCopyImage"@, "CmdCopyImageToBuffer"@, 12)) by {
        reveal_strlit("CmdCopyImage");
        reveal_strlit("CmdCopyImageToBuffer");
    }
    assert(precedes_at("CmdCopyImageToBuffer"@, "CmdCopyQueryPoolResults"@, 7)) by {
        reveal_strlit("CmdCopyImageToBuffer");
        reveal_strlit("CmdCopyQueryPoolResults");
    }
    assert(precedes_at("CmdCopyQueryPoolResults"@, "CmdDispatch"@, 3)) by {
        reveal_strlit("CmdCopyQueryPoolResults");
        reveal_strlit("CmdDispatch");
    }
    assert(precedes_at("CmdDispatch"@, "CmdDispatchIndirect"@, 11)) by {
        reveal_strlit("CmdDispatch");
        reveal_strlit("CmdDispatchIndirect");
    }
    assert(precedes_at("CmdDispatchIndirect"@, "CmdDraw"@, 4)) by {
        reveal_strlit("CmdDispatchIndirect");
        reveal_strlit("CmdDraw");
    }
    assert(precedes_at("CmdDraw"@, "CmdDrawIndexed"@, 7)) by {
        reveal_strlit("CmdDraw");
        reveal_strlit("CmdDrawIndexed");
    }
    assert(precedes_at("CmdDrawIndexed"@, "CmdDrawIndexedIndirect"@, 14)) by {
        reveal_strlit("CmdDrawIndexed");
        reveal_strlit("CmdDrawIndexedIndirect");
    }
    assert(precedes_at("CmdDrawIndexedIndirect"@, "CmdDrawIndirect"@, 10)) by {
        reveal_strlit("CmdDrawIndexedIndirect");
        reveal_strlit("CmdDrawIndirect");
    }
    assert(precedes_at("CmdDrawIndirect"@, "CmdEndQuery"@, 3)) by {
        reveal_strlit("CmdDrawIndirect");
        reveal_strlit("CmdEndQuery");
    }
    assert(precedes_at("CmdEndQuery"@, "CmdEndRenderPass"@, 6)) by {
        reveal_strlit("CmdEndQuery");
        reveal_strlit("CmdEndRenderPass");
    }
    assert(precedes_at("CmdEndRenderPass"@, "CmdExecuteCommands"@, 4)) by {
        reveal_strlit("CmdEndRenderPass");
        reveal_strlit("CmdExecuteCommands");
    }
    assert(precedes_at("CmdExecuteCommands"@, "CmdFillBuffer"@, 3)) by {
        reveal_strlit("CmdExecuteCommands");
        reveal_strlit("CmdFillBuffer");
    }
    assert(precedes_at("CmdFillBuffer"@, "CmdNextSubpass"@, 3)) by {
        reveal_strlit("CmdFillBuffer");
        reveal_strlit("CmdNextSubpass");
    }
    assert(precedes_at("CmdNextSubpass"@, "CmdPipelineBarrier"@, 3)) by {
        reveal_strlit("CmdNextSubpass");
        reveal_strlit("CmdPipelineBarrier");
    }
    assert(precedes_at("CmdPipelineBarrier"@, "CmdPushConstants"@, 4)) by {
        reveal_strlit("CmdPipelineBarrier");
        reveal_strlit("CmdPushConstants");
    }
    assert(precedes_at("CmdPushConstants"@, "CmdResetEvent"@, 3)) by {
        reveal_strlit("CmdPushConstants");
        reveal_strlit("CmdResetEvent");
    }
    assert(precedes_at("CmdResetEvent"@, "CmdResetQueryPool"@, 8)) by {
        reveal_strlit("CmdResetEvent");
        reveal_strlit("CmdResetQueryPool");
    }
    assert(precedes_at("CmdResetQueryPool"@, "CmdResolveImage"@, 6)) by {
        reveal_strlit("CmdResetQueryPool");
        reveal_strlit("CmdResolveImage");
    }
    assert(precedes_at("CmdResolveImage"@, "CmdSetBlendConstants"@, 3)) by {
        reveal_strlit("CmdResolveImage");
        reveal_strlit("CmdSetBlendConstants");
    }
    assert(precedes_at("CmdSetBlendConstants"@, "CmdSetDepthBias"@, 6)) by {
        reveal_strlit("CmdSetBlendConstants");
        reveal_strlit("CmdSetDepthBias");
    }
    assert(precedes_at("CmdSetDepthBias"@, "CmdSetDepthBounds"@, 12)) by {
        reveal_strlit("CmdSetDepthBias");
        reveal_strlit("CmdSetDepthBounds");
    }
    assert(precedes_at("CmdSetDepthBounds"@, "CmdSetEvent"@, 6)) by {
        reveal_strlit("CmdSetDepthBounds");
        reveal_strlit("CmdSetEvent");
    }
    assert(precedes_at("CmdSetEvent"@, "CmdSetLineWidth"@, 6)) by {
        reveal_strlit("CmdSetEvent");
        reveal_strlit("CmdSetLineWidth");
    }
    assert(precedes_at("CmdSetLineWidth"@, "CmdSetScissor"@, 6)) by {
        reveal_strlit("CmdSetLineWidth");
        reveal_strlit("CmdSetScissor");
    }
    assert(precedes_at("CmdSetScissor"@, "CmdSetStencilCompareMask"@, 7)) by {
        reveal_strlit("CmdSetScissor");
        reveal_strlit("CmdSetStencilCompareMask");
    }
    assert(precedes_at("CmdSetStencilCompareMask"@, "CmdSetStencilReference"@, 13)) by {
        reveal_strlit("CmdSetStencilCompareMask");
        reveal_strlit("CmdSetStencilReference");
    }
    assert(precedes_at("CmdSetStencilReference"@, "CmdSetStencilWriteMask"@, 13)) by {
        reveal_strlit("CmdSetStencilReference");
        reveal_strlit("CmdSetStencilWriteMask");
    }
    assert(precedes_at("CmdSetStencilWriteMask"@, "CmdSetViewport"@, 6)) by {
        reveal_strlit("CmdSetStencilWriteMask");
        reveal_strlit("CmdSetViewport");
    }
    assert(precedes_at("CmdSetViewport"@, "CmdUpdateBuffer"@, 3)) by {
        reveal_strlit("CmdSetViewport");
        reveal_strlit("CmdUpdateBuffer");
    }
    assert(precedes_at("CmdUpdateBuffer"@, "CmdWaitEvents"@, 3)) by {
        reveal_strlit("CmdUpdateBuffer");
        reveal_strlit("CmdWaitEvents");
    }
    assert(precedes_at("CmdWaitEvents"@, "CmdWriteTimestamp"@, 4)) by {
        reveal_strlit("CmdWaitEvents");
        reveal_strlit("CmdWriteTimestamp");
    }
    assert(precedes_at("CmdWriteTimestamp"@, "CreateBuffer"@, 1)) by {
        reveal_strlit("CmdWriteTimestamp");
        reveal_strlit("CreateBuffer");
    }
    assert(precedes_at("CreateBuffer"@, "CreateBufferView"@, 12)) by {
        reveal_strlit("CreateBuffer");
        reveal_strlit("CreateBufferView");
    }
    assert(precedes_at("CreateBufferView"@, "CreateCommandPool"@, 6)) by {
        reveal_strlit("CreateBufferView");
        reveal_strlit("CreateCommandPool");
    }
    assert(precedes_at("CreateCommandPool"@, "CreateComputePipelines"@, 9)) by {
        reveal_strlit("CreateCommandPool");
        reveal_strlit("CreateComputePipelines");
    }
    assert(precedes_at("CreateComputePipelines"@, "CreateDescriptorPool"@, 6)) by {
        reveal_strlit("CreateComputePipelines");
        reveal_strlit("CreateDescriptorPool");
    }
    assert(precedes_at("CreateDescriptorPool"@, "CreateDescriptorSetLayout"@, 16)) by {
        reveal_strlit("CreateDescriptorPool");
        reveal_strlit("CreateDescriptorSetLayout");
    }
    assert(precedes_at("CreateDescriptorSetLayout"@, "CreateDevice"@, 8)) by {
        reveal_strlit("CreateDescriptorSetLayout");
        reveal_strlit("CreateDevice");
    }
    assert(precedes_at("CreateDevice"@, "CreateEvent"@, 6)) by {
        reveal_strlit("CreateDevice");
        reveal_strlit("CreateEvent");
    }
    assert(precedes_at("CreateEvent"@, "CreateFence"@, 6)) by {
        reveal_strlit("CreateEvent");
        reveal_strlit("CreateFence");
    }
    assert(precedes_at("CreateFence"@, "CreateFramebuffer"@, 7)) by {
        reveal_strlit("CreateFence");
        reveal_strlit("CreateFramebuffer");
    }
    assert(precedes_at("CreateFramebuffer"@, "CreateGraphicsPipelines"@, 6)) by {
        reveal_strlit("CreateFramebuffer");
        reveal_strlit("CreateGraphicsPipelines");
    }
    assert(precedes_at("CreateGraphicsPipelines"@, "CreateImage"@, 6)) by {
        reveal_strlit("CreateGraphicsPipelines");
        reveal_strlit("CreateImage");
    }
    assert(precedes_at("CreateImage"@, "CreateImageView"@, 11)) by {
        reveal_strlit("CreateImage");
        reveal_strlit("CreateImageView");
    }
    assert(precedes_at("CreateImageView"@, "CreateInstance"@, 7)) by {
        reveal_strlit("CreateImageView");
        reveal_strlit("CreateInstance");
    }
    assert(precedes_at("CreateInstance"@, "CreatePipelineCache"@, 6)) by {
        reveal_strlit("CreateInstance");
        reveal_strlit("CreatePipelineCache");
    }
    assert(precedes_at("CreatePipelineCache"@, "CreatePipelineLayout"@, 14)) by {
        reveal_strlit("CreatePipelineCache");
        reveal_strlit("CreatePipelineLayout");
    }
    assert(precedes_at("CreatePipelineLayout"@, "CreateQueryPool"@, 6)) by {
        reveal_strlit("CreatePipelineLayout");
        reveal_strlit("CreateQueryPool");
    }
    assert(precedes_at("CreateQueryPool"@, "CreateRenderPass"@, 6)) by {
        reveal_strlit("CreateQueryPool");
        reveal_strlit("CreateRenderPass");
    }
    assert(precedes_at("CreateRenderPass"@, "CreateSampler"@, 6)) by {
        reveal_strlit("CreateRenderPass");
        reveal_strlit("CreateSampler");
    }
    assert(precedes_at("CreateSampler"@, "CreateSemaphore"@, 7)) by {
        reveal_strlit("CreateSampler");
        reveal_strlit("CreateSemaphore");
    }
    assert(precedes_at("CreateSemaphore"@, "CreateShaderModule"@, 7)) by {
        reveal_strlit("CreateSemaphore");
        reveal_strlit("CreateShaderModule");
    }
    assert(precedes_at("CreateShaderModule"@, "CreateSwapchainKHR"@, 7)) by {
        reveal_strlit("CreateShaderModule");
        reveal_strlit("CreateSwapchainKHR");
    }
    assert(precedes_at("CreateSwapchainKHR"@, "DestroyBuffer"@, 0)) by {
        reveal_strlit("CreateSwapchainKHR");
        reveal_strlit("DestroyBuffer");
    }
    assert(precedes_at("DestroyBuffer"@, "DestroyBufferView"@, 13)) by {
        reveal_strlit("DestroyBuffer");
        reveal_strlit("DestroyBufferView");
    }
    assert(precedes_at("DestroyBufferView"@, "DestroyCommandPool"@, 7)) by {
        reveal_strlit("DestroyBufferView");
        reveal_strlit("DestroyCommandPool");
    }
    assert(precedes_at("DestroyCommandPool"@, "DestroyDescriptorPool"@, 7)) by {
        reveal_strlit("DestroyCommandPool");
        reveal_strlit("DestroyDescriptorPool");
    }
    assert(precedes_at("DestroyDescriptorPool"@, "DestroyDescriptorSetLayout"@, 17)) by {
        reveal_strlit("DestroyDescriptorPool");
        reveal_strlit("DestroyDescriptorSetLayout");
    }
    assert(precedes_at("DestroyDescriptorSetLayout"@, "DestroyDevice"@, 9)) by {
        reveal_strlit("DestroyDescriptorSetLayout");
        reveal_strlit("DestroyDevice");
    }
    assert(precedes_at("DestroyDevice"@, "DestroyEvent"@, 7)) by {
        reveal_strlit("DestroyDevice");
        reveal_strlit("DestroyEvent");
    }
    assert(precedes_at("DestroyEvent"@, "DestroyFence"@, 7)) by {
        reveal_strlit("DestroyEvent");
        reveal_strlit("DestroyFence");
    }
    assert(precedes_at("DestroyFence"@, "DestroyFramebuffer"@, 8)) by {
        reveal_strlit("DestroyFence");
        reveal_strlit("DestroyFramebuffer");
    }
    assert(precedes_at("DestroyFramebuffer"@, "DestroyImage"@, 7)) by {
        reveal_strlit("DestroyFramebuffer");
        reveal_strlit("DestroyImage");
    }
    assert(precedes_at("DestroyImage"@, "DestroyImageView"@, 12)) by {
        reveal_strlit("DestroyImage");
        reveal_strlit("DestroyImageView");
    }
    assert(precedes_at("DestroyImageView"@, "DestroyInstance"@, 8)) by {
        reveal_strlit("DestroyImageView");
        reveal_strlit("DestroyInstance");
    }
    assert(precedes_at("DestroyInstance"@, "DestroyPipeline"@, 7)) by {
        reveal_strlit("DestroyInstance");
        reveal_strlit("DestroyPipeline");
    }
    assert(precedes_at("DestroyPipeline"@, "DestroyPipelineCache"@, 15)) by {
        reveal_strlit("DestroyPipeline");
        reveal_strlit("DestroyPipelineCache");
    }
    assert(precedes_at("DestroyPipelineCache"@, "DestroyPipelineLayout"@, 15)) by {
        reveal_strlit("DestroyPipelineCache");
        reveal_strlit("DestroyPipelineLayout");
    }
    assert(precedes_at("DestroyPipelineLayout"@, "DestroyQueryPool"@, 7)) by {
        reveal_strlit("DestroyPipelineLayout");
        reveal_strlit("DestroyQueryPool");
    }
    assert(precedes_at("DestroyQueryPool"@, "DestroyRenderPass"@, 7)) by {
        reveal_strlit("DestroyQueryPool");
        reveal_strlit("DestroyRenderPass");
    }
    assert(precedes_at("DestroyRenderPass"@, "DestroySampler"@, 7)) by {
        reveal_strlit("DestroyRenderPass");
        reveal_strlit("DestroySampler");
    }
    assert(precedes_at("DestroySampler"@, "DestroySemaphore"@, 8)) by {
        reveal_strlit("DestroySampler");
        reveal_strlit("DestroySemaphore");
    }
    assert(precedes_at("DestroySemaphore"@, "DestroyShaderModule"@, 8)) by {
        reveal_strlit("DestroySemaphore");
        reveal_strlit("DestroyShaderModule");
    }
    assert(precedes_at("DestroyShaderModule"@, "DestroySwapchainKHR"@, 8)) by {
        reveal_strlit("DestroyShaderModule");
        reveal_strlit("DestroySwapchainKHR");
    }
    assert(precedes_at("DestroySwapchainKHR"@, "DeviceWaitIdle"@, 2)) by {
        reveal_strlit("DestroySwapchainKHR");
        reveal_strlit("DeviceWaitIdle");
    }
    assert(precedes_at("DeviceWaitIdle"@, "EndCommandBuffer"@, 0)) by {
        reveal_strlit("DeviceWaitIdle");
        reveal_strlit("EndCommandBuffer");
    }
    assert(precedes_at("EndCommandBuffer"@, "EnumerateDeviceExtensionProperties"@, 2)) by {
        reveal_strlit("EndCommandBuffer");
        reveal_strlit("EnumerateDeviceExtensionProperties");
    }
    assert(precedes_at("EnumerateDeviceExtensionProperties"@, "EnumerateInstanceExtensionProperties"@, 9)) by {
        reveal_strlit("EnumerateDeviceExtensionProperties");
        reveal_strlit("EnumerateInstanceExtensionProperties");
    }
    assert(precedes_at("EnumerateInstanceExtensionProperties"@, "EnumeratePhysicalDevices"@, 9)) by {
        reveal_strlit("EnumerateInstanceExtensionProperties");
        reveal_strlit("EnumeratePhysicalDevices");
    }
    assert(precedes_at("EnumeratePhysicalDevices"@, "FlushMappedMemoryRanges"@, 0)) by {
        reveal_strlit("EnumeratePhysicalDevices");
        reveal_strlit("FlushMappedMemoryRanges");
    }
    assert(precedes_at("FlushMappedMemoryRanges"@, "FreeCommandBuffers"@, 1)) by {
        reveal_strlit("FlushMappedMemoryRanges");
        reveal_strlit("FreeCommandBuffers");
    }
    assert(precedes_at("FreeCommandBuffers"@, "FreeDescriptorSets"@, 4)) by {
        reveal_strlit("FreeCommandBuffers");
        reveal_strlit("FreeDescriptorSets");
    }
    assert(precedes_at("FreeDescriptorSets"@, "FreeMemory"@, 4)) by {
        reveal_strlit("FreeDescriptorSets");
        reveal_strlit("FreeMemory");
    }
    assert(precedes_at("FreeMemory"@, "GetBufferMemoryRequirements"@, 0)) by {
        reveal_strlit("FreeMemory");
        reveal_strlit("GetBufferMemoryRequirements");
    }
    assert(precedes_at("GetBufferMemoryRequirements"@, "GetDeviceMemoryCommitment"@, 3)) by {
        reveal_strlit("GetBufferMemoryRequirements");
        reveal_strlit("GetDeviceMemoryCommitment");
    }
    assert(precedes_at("GetDeviceMemoryCommitment"@, "GetDeviceProcAddr"@, 9)) by {
        reveal_strlit("GetDeviceMemoryCommitment");
        reveal_strlit("GetDeviceProcAddr");
    }
    assert(precedes_at("GetDeviceProcAddr"@, "GetDeviceQueue"@, 9)) by {
        reveal_strlit("GetDeviceProcAddr");
        reveal_strlit("GetDeviceQueue");
    }
    assert(precedes_at("GetDeviceQueue"@, "GetEventStatus"@, 3)) by {
        reveal_strlit("GetDeviceQueue");
        reveal_strlit("GetEventStatus");
    }
    assert(precedes_at("GetEventStatus"@, "GetFenceStatus"@, 3)) by {
        reveal_strlit("GetEventStatus");
        reveal_strlit("GetFenceStatus");
    }
    assert(precedes_at("GetFenceStatus"@, "GetImageMemoryRequirements"@, 3)) by {
        reveal_strlit("GetFenceStatus");
        reveal_strlit("GetImageMemoryRequirements");
    }
    assert(precedes_at("GetImageMemoryRequirements"@, "GetImageSparseMemoryRequirements"@, 8)) by {
        reveal_strlit("GetImageMemoryRequirements");
        reveal_strlit("GetImageSparseMemoryRequirements");
    }
    assert(precedes_at("GetImageSparseMemoryRequirements"@, "GetImageSubresourceLayout"@, 9)) by {
        reveal_strlit("GetImageSparseMemoryRequirements");
        reveal_strlit("GetImageSubresourceLayout");
    }
    assert(precedes_at("GetImageSubresourceLayout"@, "GetPhysicalDeviceFeatures"@, 3)) by {
        reveal_strlit("GetImageSubresourceLayout");
        reveal_strlit("GetPhysicalDeviceFeatures");
    }
    assert(precedes_at("GetPhysicalDeviceFeatures"@, "GetPhysicalDeviceFormatProperties"@, 18)) by {
        reveal_strlit("GetPhysicalDeviceFeatures");
        reveal_strlit("GetPhysicalDeviceFormatProperties");
    }
    assert(precedes_at("GetPhysicalDeviceFormatProperties"@, "GetPhysicalDeviceImageFormatProperties"@, 17)) by {
        reveal_strlit("GetPhysicalDeviceFormatProperties");
        reveal_strlit("GetPhysicalDeviceImageFormatProperties");
    }
    assert(precedes_at("GetPhysicalDeviceImageFormatProperties"@, "GetPhysicalDeviceMemoryProperties"@, 17)) by {
        reveal_strlit("GetPhysicalDeviceImageFormatProperties");
        reveal_strlit("GetPhysicalDeviceMemoryProperties");
    }
    assert(precedes_at("GetPhysicalDeviceMemoryProperties"@, "GetPhysicalDeviceProperties"@, 17)) by {
        reveal_strlit("GetPhysicalDeviceMemoryProperties");
        reveal_strlit("GetPhysicalDeviceProperties");
    }
    assert(precedes_at("GetPhysicalDeviceProperties"@, "GetPhysicalDeviceQueueFamilyProperties"@, 17)) by {
        reveal_strlit("GetPhysicalDeviceProperties");
        reveal_strlit("GetPhysicalDeviceQueueFamilyProperties");
    }
    assert(precedes_at("GetPhysicalDeviceQueueFamilyProperties"@, "GetPhysicalDeviceSparseImageFormatProperties"@, 17)) by {
        reveal_strlit("GetPhysicalDeviceQueueFamilyProperties");
        reveal_strlit("GetPhysicalDeviceSparseImageFormatProperties");
    }
    assert(precedes_at("GetPhysicalDeviceSparseImageFormatProperties"@, "GetPhysicalDeviceSurfaceCapabilitiesKHR"@, 18)) by {
        reveal_strlit("GetPhysicalDeviceSparseImageFormatProperties");
        reveal_strlit("GetPhysicalDeviceSurfaceCapabilitiesKHR");
    }
    assert(precedes_at("GetPhysicalDeviceSurfaceCapabilitiesKHR"@, "GetPhysicalDeviceSurfaceFormatsKHR"@, 24)) by {
        reveal_strlit("GetPhysicalDeviceSurfaceCapabilitiesKHR");
        reveal_strlit("GetPhysicalDeviceSurfaceFormatsKHR");
    }
    assert(precedes_at("GetPhysicalDeviceSurfaceFormatsKHR"@, "GetPhysicalDeviceSurfacePresentModesKHR"@, 24)) by {
        reveal_strlit("GetPhysicalDeviceSurfaceFormatsKHR");
        reveal_strlit("GetPhysicalDeviceSurfacePresentModesKHR");
    }
    assert(precedes_at("GetPhysicalDeviceSurfacePresentModesKHR"@, "GetPhysicalDeviceSurfaceSupportKHR"@, 24)) by {
        reveal_strlit("GetPhysicalDeviceSurfacePresentModesKHR");
        reveal_strlit("GetPhysicalDeviceSurfaceSupportKHR");
    }
    assert(precedes_at("GetPhysicalDeviceSurfaceSupportKHR"@, "GetPhysicalDeviceXcbPresentationSupportKHR"@, 17)) by {
        reveal_strlit("GetPhysicalDeviceSurfaceSupportKHR");
        reveal_strlit("GetPhysicalDeviceXcbPresentationSupportKHR");
    }
    assert(precedes_at("GetPhysicalDeviceXcbPresentationSupportKHR"@, "GetPipelineCacheData"@, 4)) by {
        reveal_strlit("GetPhysicalDeviceXcbPresentationSupportKHR");
        reveal_strlit("GetPipelineCacheData");
    }
    assert(precedes_at("GetPipelineCacheData"@, "GetQueryPoolResults"@, 3)) by {
        reveal_strlit("GetPipelineCacheData");
        reveal_strlit("GetQueryPoolResults");
    }
    assert(precedes_at("GetQueryPoolResults"@, "GetRenderAreaGranularity"@, 3)) by {
        reveal_strlit("GetQueryPoolResults");
        reveal_strlit("GetRenderAreaGranularity");
    }
    assert(precedes_at("GetRenderAreaGranularity"@, "GetSwapchainImagesKHR"@, 3)) by {
        reveal_strlit("GetRenderAreaGranularity");
        reveal_strlit("GetSwapchainImagesKHR");
    }
    assert(precedes_at("GetSwapchainImagesKHR"@, "InvalidateMappedMemoryRanges"@, 0)) by {
        reveal_strlit("GetSwapchainImagesKHR");
        reveal_strlit("InvalidateMappedMemoryRanges");
    }
    assert(precedes_at("InvalidateMappedMemoryRanges"@, "MapMemory"@, 0)) by {
        reveal_strlit("InvalidateMappedMemoryRanges");
        reveal_strlit("MapMemory");
    }
    assert(precedes_at("MapMemory"@, "MergePipelineCaches"@, 1)) by {
        reveal_strlit("MapMemory");
        reveal_strlit("MergePipelineCaches");
    }
    assert(precedes_at("MergePipelineCaches"@, "QueueBindSparse"@, 0)) by {
        reveal_strlit("MergePipelineCaches");
        reveal_strlit("QueueBindSparse");
    }
    assert(precedes_at("QueueBindSparse"@, "QueueSubmit"@, 5)) by {
        reveal_strlit("QueueBindSparse");
        reveal_strlit("QueueSubmit");
    }
    assert(precedes_at("QueueSubmit"@, "QueueWaitIdle"@, 5)) by {
        reveal_strlit("QueueSubmit");
        reveal_strlit("QueueWaitIdle");
    }
    assert(precedes_at("QueueWaitIdle"@, "ResetCommandBuffer"@, 0)) by {
        reveal_strlit("QueueWaitIdle");
        reveal_strlit("ResetCommandBuffer");
    }
    assert(precedes_at("ResetCommandBuffer"@, "ResetCommandPool"@, 12)) by {
        reveal_strlit("ResetCommandBuffer");
        reveal_strlit("ResetCommandPool");
    }
    assert(precedes_at("ResetCommandPool"@, "ResetDescriptorPool"@, 5)) by {
        reveal_strlit("ResetCommandPool");
        reveal_strlit("ResetDescriptorPool");
    }
    assert(precedes_at("ResetDescriptorPool"@, "ResetEvent"@, 5)) by {
        reveal_strlit("ResetDescriptorPool");
        reveal_strlit("ResetEvent");
    }
    assert(precedes_at("ResetEvent"@, "ResetFences"@, 5)) by {
        reveal_strlit("ResetEvent");
        reveal_strlit("ResetFences");
    }
    assert(precedes_at("ResetFences"@, "SetEvent"@, 0)) by {
        reveal_strlit("ResetFences");
        reveal_strlit("SetEvent");
    }
    assert(precedes_at("SetEvent"@, "UnmapMemory"@, 0)) by {
        reveal_strlit("SetEvent");
        reveal_strlit("UnmapMemory");
    }
    assert(precedes_at("UnmapMemory"@, "UpdateDescriptorSets"@, 1)) by {
        reveal_strlit("UnmapMemory");
        reveal_strlit("UpdateDescriptorSets");
    }
    assert(precedes_at("UpdateDescriptorSets"@, "WaitForFences"@, 0)) by {
        reveal_strlit("UpdateDescriptorSets");
        reveal_strlit("WaitForFences");
    }
    // With each neighbouring pair in order, unfold the order of the whole
    // table from its end, a few positions at a time.
    let s = declared_names();
    reveal_with_fuel(ordered_from, 8);
    assert(ordered_from(s, 140));
    assert(ordered_from(s, 133));
    assert(ordered_from(s, 126));
    assert(ordered_from(s, 119));
    assert(ordered_from(s, 112));
    assert(ordered_from(s, 105));
    assert(ordered_from(s, 98));
    assert(ordered_from(s, 91));
    assert(ordered_from(s, 84));
    assert(ordered_from(s, 77));
    assert(ordered_from(s, 70));
    assert(ordered_from(s, 63));
    assert(ordered_from(s, 56));
    assert(ordered_from(s, 49));
    assert(ordered_from(s, 42));
    assert(ordered_from(s, 35));
    assert(ordered_from(s, 28));
    assert(ordered_from(s, 21));
    assert(ordered_from(s, 14));
    assert(ordered_from(s, 7));
    assert(ordered_from(s, 0));
    assert forall|i: int| 0 <= i < declared_names().len() - 1 implies precedes(
        #[trigger] declared_names()[i]@,
        declared_names()[i + 1]@,
    ) by {
        lemma_ordered_at(declared_names(), 0, i);
    }
}

/// In a list whose neighbours are in order, every earlier entry precedes
/// every later one.
proof fn lemma_chain(s: Seq<&'static str>, i: int, j: int)
    requires
        0 <= i < j < s.len(),
        forall|t: int| 0 <= t < s.len() - 1 ==> precedes(#[trigger] s[t]@, s[t + 1]@),
    ensures
        precedes(s[i]@, s[j]@),
    decreases j - i,
{
    if j > i + 1 {
        lemma_chain(s, i, j - 1);
        assert(precedes(s[j - 1]@, s[j]@));
        lemma_precedes_transitive(s[i]@, s[j - 1]@, s[j]@);
    }
}

/// No name is declared twice: each exported symbol names exactly one
/// operation.
pub proof fn lemma_declared_names_distinct()
    ensures
        forall|i: int, j: int|
            0 <= i < j < declared_names().len() ==> #[trigger] declared_names()[i]@
                != #[trigger] declared_names()[j]@,
{
    let s = declared_names();
    lemma_declared_names_sorted();
    assert forall|i: int, j: int| 0 <= i < j < s.len() implies #[trigger] s[i]@ != #[trigger] s[j]@ by {
        lemma_chain(s, i, j);
        lemma_precedes_irreflexive(s[i]@);
    }
}

/// Two names with the same exported symbol are the same name.
pub proof fn lemma_exported_injective(a: &str, b: &str)
    requires
        exported(a) == exported(b),
    ensures
        a@ == b@,
{
    let p = API_PREFIX.spec_bytes();
    assert(a.spec_bytes() =~= exported(a).subrange(p.len() as int, exported(a).len() as int));
    assert(b.spec_bytes() =~= exported(b).subrange(p.len() as int, exported(b).len() as int));
    vstd::utf8::encode_utf8_decode_utf8(a@);
    vstd::utf8::encode_utf8_decode_utf8(b@);
}

/// Each exported symbol of the table names exactly one operation: with the
/// first-match rule of `EntryTable::resolve`, the symbol of operation `i`
/// resolves to `i` itself.
pub proof fn lemma_symbol_names_one_operation(i: int, j: int)
    requires
        0 <= i < declared_names().len(),
        0 <= j < declared_names().len(),
        exported(declared_names()[i]) == exported(declared_names()[j]),
    ensures
        i == j,
{
    lemma_declared_names_distinct();
    lemma_exported_injective(declared_names()[i], declared_names()[j]);
    if i < j {
        assert(declared_names()[i]@ != declared_names()[j]@);
    } else if j < i {
        assert(declared_names()[j]@ != declared_names()[i]@);
    }
}

/// The operations that the driver exports, by canonical name. The position of
/// a name in the table is the operation's number.
pub struct EntryTable {
    names: Vec<&'static str>,
}

impl EntryTable {
    pub closed spec fn view(&self) -> Seq<&'static str> {
        self.names@
    }

    /// The table of every exported operation.
    pub fn declared() -> (r: EntryTable)
        ensures
            r.view() == declared_names(),
            r.view().len() == ENTRY_POINT_COUNT,
            forall|i: int, j: int|
                0 <= i < j < r.view().len() ==> #[trigger] r.view()[i]@ != #[trigger] r.view()[j]@,
    {
        let names = vec![
            "AllocateCommandBuffers",
            "AllocateDescriptorSets",
            "AllocateMemory",
            "BeginCommandBuffer",
            "BindBufferMemory",
            "BindImageMemory",
            "CmdBeginQuery",
            "CmdBeginRenderPass",
            "CmdBindDescriptorSets",
            "CmdBindIndexBuffer",
            "CmdBindPipeline",
            "CmdBindVertexBuffers",
            "CmdBlitImage",
            "CmdClearAttachments",
            "CmdClearColorImage",
            "CmdClearDepthStencilImage",
            "CmdCopyBuffer",
            "CmdCopyBufferToImage",
            "CmdCopyImage",
            "CmdCopyImageToBuffer",
            "CmdCopyQueryPoolResults",
            "CmdDispatch",
            "CmdDispatchIndirect",
            "CmdDraw",
            "CmdDrawIndexed",
            "CmdDrawIndexedIndirect",
            "CmdDrawIndirect",
            "CmdEndQuery",
            "CmdEndRenderPass",
            "CmdExecuteCommands",
            "CmdFillBuffer",
            "CmdNextSubpass",
            "CmdPipelineBarrier",
            "CmdPushConstants",
            "CmdResetEvent",
            "CmdResetQueryPool",
            "CmdResolveImage",
            "CmdSetBlendConstants",
            "CmdSetDepthBias",
            "CmdSetDepthBounds",
            "CmdSetEvent",
            "CmdSetLineWidth",
            "CmdSetScissor",
            "CmdSetStencilCompareMask",
            "CmdSetStencilReference",
            "CmdSetStencilWriteMask",
            "CmdSetViewport",
            "CmdUpdateBuffer",
            "CmdWaitEvents",
            "CmdWriteTimestamp",
            "CreateBuffer",
            "CreateBufferView",
            "CreateCommandPool",
            "CreateComputePipelines",
            "CreateDescriptorPool",
            "CreateDescriptorSetLayout",
            "CreateDevice",
            "CreateEvent",
            "CreateFence",
            "CreateFramebuffer",
            "CreateGraphicsPipelines",
            "CreateImage",
            "CreateImageView",
            "CreateInstance",
            "CreatePipelineCache",
            "CreatePipelineLayout",
            "CreateQueryPool",
            "CreateRenderPass",
            "CreateSampler",
            "CreateSemaphore",
            "CreateShaderModule",
            "CreateSwapchainKHR",
            "DestroyBuffer",
            "DestroyBufferView",
            "DestroyCommandPool",
            "DestroyDescriptorPool",
            "DestroyDescriptorSetLayout",
            "DestroyDevice",
            "DestroyEvent",
            "DestroyFence",
            "DestroyFramebuffer",
            "DestroyImage",
            "DestroyImageView",
            "DestroyInstance",
            "DestroyPipeline",
            "DestroyPipelineCache",
            "DestroyPipelineLayout",
            "DestroyQueryPool",
            "DestroyRenderPass",
            "DestroySampler",
            "DestroySemaphore",
            "DestroyShaderModule",
            "DestroySwapchainKHR",
            "DeviceWaitIdle",
            "EndCommandBuffer",
            "EnumerateDeviceExtensionProperties",
            "EnumerateInstanceExtensionProperties",
            "EnumeratePhysicalDevices",
            "FlushMappedMemoryRanges",
            "FreeCommandBuffers",
            "FreeDescriptorSets",
            "FreeMemory",
            "GetBufferMemoryRequirements",
            "GetDeviceMemoryCommitment",
            "GetDeviceProcAddr",
            "GetDeviceQueue",
            "GetEventStatus",
            "GetFenceStatus",
            "GetImageMemoryRequirements",
            "GetImageSparseMemoryRequirements",
            "GetImageSubresourceLayout",
            "GetPhysicalDeviceFeatures",
            "GetPhysicalDeviceFormatProperties",
            "GetPhysicalDeviceImageFormatProperties",
            "GetPhysicalDeviceMemoryProperties",
            "GetPhysicalDeviceProperties",
            "GetPhysicalDeviceQueueFamilyProperties",
            "GetPhysicalDeviceSparseImageFormatProperties",
            "GetPhysicalDeviceSurfaceCapabilitiesKHR",
            "GetPhysicalDeviceSurfaceFormatsKHR",
            "GetPhysicalDeviceSurfacePresentModesKHR",
            "GetPhysicalDeviceSurfaceSupportKHR",
            "GetPhysicalDeviceXcbPresentationSupportKHR",
            "GetPipelineCacheData",
            "GetQueryPoolResults",
            "GetRenderAreaGranularity",
            "GetSwapchainImagesKHR",
            "InvalidateMappedMemoryRanges",
            "MapMemory",
            "MergePipelineCaches",
            "QueueBindSparse",
            "QueueSubmit",
            "QueueWaitIdle",
            "ResetCommandBuffer",
            "ResetCommandPool",
            "ResetDescriptorPool",
            "ResetEvent",
            "ResetFences",
            "SetEvent",
            "UnmapMemory",
            "UpdateDescriptorSets",
            "WaitForFences",
        ];
        assert(names@ =~= declared_names());
        proof {
            lemma_declared_names_distinct();
        }
        EntryTable { names }
    }

    /// How many operations the table holds.
    pub fn len(&self) -> (r: usize)
        ensures
            r == self.view().len(),
    {
        self.names.len()
    }

    /// The canonical name of operation `i`.
    pub fn name(&self, i: usize) -> (r: &'static str)
        requires
            i < self.view().len(),
        ensures
            r == self.view()[i as int],
    {
        self.names[i]
    }

    /// Resolves an exported symbol, matched byte for byte, to the first
    /// operation exported under it. Every symbol that the table exports
    /// resolves; every other symbol resolves to `None`.
    pub fn resolve(&self, symbol: &[u8]) -> (r: Option<usize>)
        ensures
            r is None <==> forall|j: int|
                0 <= j < self.view().len() ==> exported(#[trigger] self.view()[j]) != symbol@,
            r matches Some(i) ==> {
                &&& i < self.view().len()
                &&& exported(self.view()[i as int]) == symbol@
                &&& forall|j: int| 0 <= j < i ==> exported(#[trigger] self.view()[j]) != symbol@
            },
    {
        let mut i: usize = 0;
        while i < self.names.len()
            invariant
                i <= self.names@.len(),
                forall|j: int| 0 <= j < i ==> exported(#[trigger] self.names@[j]) != symbol@,
            decreases self.names@.len() - i,
        {
            if is_exported_as(symbol, self.names[i]) {
                assert(exported(self.view()[i as int]) == symbol@);
                return Some(i);
            }
            i = i + 1;
        }
        None
    }
}

} // verus!
