//! Building blocks for Kubernetes Dynamic Resource Allocation (DRA) kubelet
//! plugins: the plugin configuration and its builder, the endpoints the
//! plugin listens on, the registration answers given to the kubelet, and the
//! data types a driver exchanges with the plugin.

pub mod dra_driver;
pub mod driver;
pub mod endpoint;
pub mod error;
pub mod outside;
pub mod plugin;
pub mod registration;
pub mod resource_slice;

pub use dra_driver::{Device, NamespacedObject, Uid};
pub use driver::{DraPlugin, Internal};
pub use endpoint::Endpoint;
pub use error::Error;
pub use plugin::{KubeletPlugin, KubeletPluginBuilder};
pub use registration::{short_service_name, supported_versions};
pub use resource_slice::{DriverResources, Pool, Slice};
