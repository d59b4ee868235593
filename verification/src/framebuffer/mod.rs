//! Framebuffers: the check that a framebuffer's parts share one device.

use vstd::prelude::*;

pub mod error;

use error::FramebufferError;

verus! {

/// Whether all the given values are the same.
pub fn validate_all_match(values: &[u64]) -> (r: bool)
    ensures
        r == forall|i: int, j: int| 0 <= i < values@.len() && 0 <= j < values@.len() ==> values@[i] == values@[j],
{
    if values.len() == 0 {
        return true;
    }
    let first = values[0];
    let mut i: usize = 1;
    while i < values.len()
        invariant
            1 <= i <= values@.len(),
            first == values@[0],
            forall|k: int| 0 <= k < i ==> values@[k] == first,
        decreases values.len() - i,
    {
        if values[i] != first {
            assert(!(values@[i as int] == values@[0]));
            return false;
        }
        i = i + 1;
    }
    true
}

/// The check made before creating a framebuffer: its render pass and all its
/// attachments must come from the same device (given by raw device handles).
pub fn validate_devices(render_pass_device: u64, attachment_devices: &[u64]) -> (r: Result<(), FramebufferError>)
    ensures
        (forall|i: int| 0 <= i < attachment_devices@.len() ==> attachment_devices@[i] == render_pass_device) ==> r is Ok,
        !(forall|i: int| 0 <= i < attachment_devices@.len() ==> attachment_devices@[i] == render_pass_device) ==> r
            == Err::<(), FramebufferError>(FramebufferError::RenderPassAttachmentsDeviceMismatch),
{
    let mut i: usize = 0;
    while i < attachment_devices.len()
        invariant
            i <= attachment_devices@.len(),
            forall|k: int| 0 <= k < i ==> attachment_devices@[k] == render_pass_device,
        decreases attachment_devices.len() - i,
    {
        if attachment_devices[i] != render_pass_device {
            return Err(FramebufferError::RenderPassAttachmentsDeviceMismatch);
        }
        i = i + 1;
    }
    Ok(())
}

} // verus!
