use vstd::prelude::*;

verus! {

/// The two gRPC servers a kubelet plugin runs.
#[derive(PartialEq, Eq, Structural, Clone, Copy, Debug)]
pub enum Server {
    /// The DRA server on the DRA socket.
    Dra,
    /// The kubelet plugin registration server on the registration socket.
    Registration,
}

/// Failures originating inside the plugin itself.
///
/// These are delivered to the driver rather than returned from a call,
/// because they arise in background tasks. A driver learns two independent
/// things from one value: what failed, by matching on the variant, and
/// whether it can keep running, from [`Error::is_recoverable`].
#[derive(Debug)]
pub enum Error {
    /// Publishing a `ResourceSlice` to the API server failed.
    ResourceSlicePublish(kube::Error),
    /// The gRPC server on the DRA socket stopped serving.
    DraServer(tonic::transport::Error),
    /// The gRPC server on the registration socket stopped serving.
    Registration(tonic::transport::Error),
}

/// Whether the process can keep running after the error `e`: only after a
/// failed `ResourceSlice` publication.
pub open spec fn spec_is_recoverable(e: Error) -> bool {
    e is ResourceSlicePublish
}

/// The error reported when the gRPC server `server` stops serving with the
/// transport error `e`.
pub open spec fn spec_server_stopped(server: Server, e: tonic::transport::Error) -> Error {
    match server {
        Server::Dra => Error::DraServer(e),
        Server::Registration => Error::Registration(e),
    }
}

impl Error {
    /// The message that describes the error.
    pub fn message(&self) -> (m: &'static str)
        ensures
            m@ == match *self {
                Error::ResourceSlicePublish(_) => "publishing ResourceSlice failed"@,
                Error::DraServer(_) => "DRA server failed"@,
                Error::Registration(_) => "kubelet registration failed"@,
            },
    {
        match self {
            Error::ResourceSlicePublish(_) => "publishing ResourceSlice failed",
            Error::DraServer(_) => "DRA server failed",
            Error::Registration(_) => "kubelet registration failed",
        }
    }

    /// `is_recoverable` distinguishes recoverable errors from those which are
    /// fatal and should cause the process to exit: only a failed
    /// `ResourceSlice` publication can be recovered from.
    pub fn is_recoverable(&self) -> (r: bool)
        ensures
            r == spec_is_recoverable(*self),
    {
        match self {
            Error::ResourceSlicePublish(_) => true,
            _ => false,
        }
    }

    /// The error reported when the gRPC server `server` stops serving with
    /// the transport error `e`.
    pub fn server_stopped(server: Server, e: tonic::transport::Error) -> (r: Error)
        ensures
            r == spec_server_stopped(server, e),
    {
        match server {
            Server::Dra => Error::DraServer(e),
            Server::Registration => Error::Registration(e),
        }
    }
}

/// A gRPC server stopping is never recoverable: whichever server stopped,
/// the error reported for it tells the driver to exit.
pub proof fn lemma_server_failures_are_fatal(server: Server, e: tonic::transport::Error)
    ensures
        !spec_is_recoverable(spec_server_stopped(server, e)),
{
}

} // verus!
