use std::collections::HashMap;

use k8s_openapi::api::resource::v1 as resourceapi;
use vstd::prelude::*;

verus! {

/// `DriverResources` is a complete description of all resources
/// synchronized by the controller.
pub struct DriverResources {
    /// Each driver may manage different resource pools. The key in the map
    /// is the pool name. Pools are sorted first so that pools with devices
    /// which have binding conditions are tried last, then by name, so the name
    /// can also be used to indicate preference when a driver publishes more
    /// than one pool.
    pub pools: HashMap<String, Pool>,
}

/// `Pool` is the collection of devices belonging to the same pool.
pub struct Pool {
    /// `generation` can be left at zero. It gets bumped up automatically by
    /// the controller.
    pub generation: i64,
    /// `slices` is a list of all ResourceSlices that the driver wants to
    /// publish for this pool, in order of preference: ResourceSlices start
    /// with a name prefix based on their index in this list, of the form
    /// `[index encoded as base16 string]-[driver name]-[owner name (if
    /// present)]-`. Drivers should publish at least one slice for each pool
    /// that they normally manage, even if that slice is empty.
    pub slices: Vec<Slice>,
}

/// `Slice` is turned into one ResourceSlice by the controller.
pub struct Slice {
    /// `devices` lists all devices which are part of the slice.
    pub devices: Vec<resourceapi::Device>,
}

} // verus!
