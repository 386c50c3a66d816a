use vstd::prelude::*;

verus! {

/// The work a DRA plugin does for the kubelet's calls.
pub trait DraPlugin: Send + Sync {
    /// Prepares the resource claims of a pod.
    fn prepare_resource_claims(&self);
}

/// The plugin's built-in [`DraPlugin`], which has nothing to prepare.
#[derive(Default)]
pub struct Internal;

impl DraPlugin for Internal {
    fn prepare_resource_claims(&self) {
    }
}

} // verus!
