//! Adapter handles: a driver adapter identifier together with a shared reference
//! to the session that enumerated it.
use vstd::prelude::*;
use crate::names::{ExtensionProperties, all_present, extension_name_seq, extensions_supported, name_seq};
use crate::{VooError, VooResult};

verus! {

/// The driver's identifier of an adapter.
#[derive(Clone, Copy, Debug, PartialEq, Eq, Structural)]
pub struct PhysicalDeviceHandle(pub u64);

impl PhysicalDeviceHandle {
    pub fn to_raw(&self) -> (r: u64)
        ensures
            r == self.0,
    {
        self.0
    }
}

/// An adapter: its identifier and a shared reference `I` to its session, so that
/// the session outlives every adapter taken from it.
#[derive(Clone, Debug)]
pub struct PhysicalDevice<I> {
    handle: PhysicalDeviceHandle,
    instance: I,
}

impl<I> PhysicalDevice<I> {
    pub closed spec fn handle_spec(&self) -> PhysicalDeviceHandle {
        self.handle
    }

    pub closed spec fn instance_spec(&self) -> I {
        self.instance
    }

    pub fn from_parts(instance: I, handle: PhysicalDeviceHandle) -> (r: PhysicalDevice<I>)
        ensures
            r.handle_spec() == handle,
            r.instance_spec() == instance,
    {
        PhysicalDevice { handle, instance }
    }

    pub fn handle(&self) -> (r: PhysicalDeviceHandle)
        ensures
            r == self.handle_spec(),
    {
        self.handle
    }

    /// The session this adapter was enumerated from.
    pub fn instance(&self) -> (r: &I)
        ensures
            *r == self.instance_spec(),
    {
        &self.instance
    }

    /// Whether every requested extension is among this adapter's extensions, given
    /// the outcome of the adapter's extension query: the query's error where it
    /// failed, else `true` exactly when each requested name matches the name of
    /// one reported extension.
    pub fn verify_extension_support(
        &self,
        extension_properties: VooResult<Vec<ExtensionProperties>>,
        extension_names: &[String],
    ) -> (r: VooResult<bool>)
        ensures
            extension_properties is Err ==> r == Err::<bool, VooError>(
                extension_properties->Err_0,
            ),
            extension_properties is Ok ==> r == Ok::<bool, VooError>(
                all_present(
                    name_seq(extension_names@),
                    extension_name_seq(extension_properties->Ok_0@),
                ),
            ),
    {
        match extension_properties {
            Ok(available) => Ok(extensions_supported(available.as_slice(), extension_names)),
            Err(e) => Err(e),
        }
    }
}

} // verus!
