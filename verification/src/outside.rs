use k8s_openapi::api::resource::v1::Device as ApiDevice;
use kube::Error as KubeError;
use tonic::transport::Error as TransportError;
use vstd::prelude::*;

verus! {

/// The error type of the Kubernetes API client, carried through unread.
#[verifier::external_type_specification]
#[verifier::external_body]
pub struct ExKubeError(KubeError);

/// The error type of the gRPC transport, carried through unread.
#[verifier::external_type_specification]
#[verifier::external_body]
pub struct ExTransportError(TransportError);

/// The Kubernetes API client, carried through unread.
#[verifier::external_type_specification]
#[verifier::external_body]
pub struct ExKubeClient(kube::Client);

/// A device of the `resource.k8s.io/v1` API, carried through unread.
#[verifier::external_type_specification]
#[verifier::external_body]
pub struct ExApiDevice(ApiDevice);

} // verus!
