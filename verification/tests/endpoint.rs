use std::path::PathBuf;

use kube_dra::Endpoint;

#[test]
fn creates_correct_path() {
    let endpoint = Endpoint::new("/some/file", "path");
    let path = PathBuf::from("/some/file/path");
    assert_eq!(path, PathBuf::from(endpoint.path()));
}

#[test]
fn endpoint_keeps_directory_and_file() {
    let endpoint = Endpoint::new("/var/lib/kubelet/plugins_registry", "gpu.example.com-reg.sock");
    assert_eq!(endpoint.dir(), "/var/lib/kubelet/plugins_registry");
    assert_eq!(endpoint.file(), "gpu.example.com-reg.sock");
    assert_eq!(
        endpoint.path(),
        "/var/lib/kubelet/plugins_registry/gpu.example.com-reg.sock"
    );
}

#[test]
fn endpoint_path_with_trailing_slash_in_directory() {
    let endpoint = Endpoint::new("/tmp/", "dra.sock");
    assert_eq!(endpoint.path(), "/tmp/dra.sock");
}

#[test]
fn endpoint_path_with_absolute_file() {
    let endpoint = Endpoint::new("/tmp", "/run/dra.sock");
    assert_eq!(endpoint.path(), "/run/dra.sock");
}

#[test]
fn endpoint_path_with_empty_directory() {
    let endpoint = Endpoint::new("", "dra.sock");
    assert_eq!(endpoint.path(), "dra.sock");
}
