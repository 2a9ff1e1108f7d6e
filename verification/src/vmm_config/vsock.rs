//! The vsock device as it is configured before boot.

use vstd::prelude::*;
use vstd::string::*;

verus! {

/// The vsock device: the guest's context id and the host socket that stands
/// behind it.
#[derive(Debug, PartialEq, Eq)]
pub struct VsockDeviceConfig {
    /// The name by which the device is known.
    pub vsock_id: String,
    /// The context id of the guest.
    pub guest_cid: u32,
    /// The path of the Unix-domain socket on the host.
    pub uds_path: String,
}

impl Clone for VsockDeviceConfig {
    fn clone(&self) -> (r: Self)
        ensures
            r == *self,
    {
        VsockDeviceConfig {
            vsock_id: self.vsock_id.clone(),
            guest_cid: self.guest_cid,
            uds_path: self.uds_path.clone(),
        }
    }
}

/// Why an operation on the vsock device was refused.
#[derive(Clone, Copy, Debug, PartialEq, Eq, Structural)]
pub enum VsockError {
    /// The microVM has booted; the configuration can no longer change.
    UpdateNotAllowedPostBoot,
}

impl VsockError {
    /// The text of `message`.
    pub open spec fn message_spec(self) -> Seq<char> {
        match self {
            VsockError::UpdateNotAllowedPostBoot => "The update operation is not allowed after boot."@,
        }
    }

    /// A sentence that describes the error.
    pub fn message(&self) -> (r: String)
        ensures
            r@ == self.message_spec(),
    {
        match self {
            VsockError::UpdateNotAllowedPostBoot => String::from_str(
                "The update operation is not allowed after boot.",
            ),
        }
    }
}

} // verus!
