use kube_dra::error::Server;
use kube_dra::Error;

fn transport_error() -> tonic::transport::Error {
    match tonic::transport::Endpoint::from_shared(vec![0xffu8, 0xfe]) {
        Ok(_) => panic!("an invalid URI was accepted"),
        Err(e) => e,
    }
}

#[test]
fn resource_slice_publication_is_recoverable() {
    let e = Error::ResourceSlicePublish(kube::Error::LinesCodecMaxLineLengthExceeded);
    assert!(e.is_recoverable());
}

#[test]
fn server_failures_are_fatal() {
    let dra = Error::server_stopped(Server::Dra, transport_error());
    assert!(matches!(dra, Error::DraServer(_)));
    assert!(!dra.is_recoverable());
    let reg = Error::server_stopped(Server::Registration, transport_error());
    assert!(matches!(reg, Error::Registration(_)));
    assert!(!reg.is_recoverable());
}

#[test]
fn error_messages() {
    let e = Error::ResourceSlicePublish(kube::Error::LinesCodecMaxLineLengthExceeded);
    assert_eq!(e.message(), "publishing ResourceSlice failed");
    assert_eq!(
        Error::server_stopped(Server::Dra, transport_error()).message(),
        "DRA server failed"
    );
    assert_eq!(
        Error::server_stopped(Server::Registration, transport_error()).message(),
        "kubelet registration failed"
    );
    assert!(format!("{:?}", e).contains("ResourceSlicePublish"));
}
