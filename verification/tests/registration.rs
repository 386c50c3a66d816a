use kube_dra::endpoint::Endpoint;
use kube_dra::registration::{
    DRA_V1BETA1_SERVICE_NAME, DRA_V1_SERVICE_NAME, PLUGIN_TYPE, RegistrationServer,
    short_service_name, supported_versions,
};

#[test]
fn registration_generates_correct_short_name() {
    let v1_svc = short_service_name(DRA_V1_SERVICE_NAME);
    assert_eq!(v1_svc, String::from("v1.DRAPlugin"));

    let v1beta1_svc = short_service_name(DRA_V1BETA1_SERVICE_NAME);
    assert_eq!(v1beta1_svc, String::from("v1beta1.DRAPlugin"));
}

#[test]
fn kubelet_plugin_generates_correct_short_name() {
    let v1_svc = kube_dra::short_service_name(DRA_V1_SERVICE_NAME);
    assert_eq!(v1_svc, String::from("v1.DRAPlugin"));

    let v1beta1_svc = kube_dra::short_service_name(DRA_V1BETA1_SERVICE_NAME);
    assert_eq!(v1beta1_svc, String::from("v1beta1.DRAPlugin"));
}

#[test]
fn short_service_name_edge_cases() {
    assert_eq!(short_service_name(""), ".");
    assert_eq!(short_service_name("plain"), ".plain");
    assert_eq!(short_service_name("a.b"), "a.b");
    assert_eq!(short_service_name("x.y.z"), "y.z");
    assert_eq!(short_service_name("a..b"), ".b");
    assert_eq!(short_service_name("trailing."), "trailing.");
    assert_eq!(short_service_name("ü.ä.ö"), "ä.ö");
}

#[test]
fn supported_versions_follow_enabled_apis() {
    assert_eq!(
        supported_versions(true, true),
        vec!["v1.DRAPlugin".to_string(), "v1beta1.DRAPlugin".to_string()]
    );
    assert_eq!(supported_versions(true, false), vec!["v1.DRAPlugin".to_string()]);
    assert_eq!(supported_versions(false, true), vec!["v1beta1.DRAPlugin".to_string()]);
    assert!(supported_versions(false, false).is_empty());
}

fn server() -> RegistrationServer {
    RegistrationServer::new(
        "gpu.example.com".to_string(),
        Endpoint::new("/var/lib/kubelet/plugins_registry", "gpu.example.com-reg.sock"),
        "/var/lib/kubelet/plugins/gpu.example.com/dra.sock".to_string(),
        supported_versions(true, false),
    )
}

#[test]
fn get_info_describes_the_plugin() {
    let info = server().get_info();
    assert_eq!(info.name, "gpu.example.com");
    assert_eq!(info.endpoint, "/var/lib/kubelet/plugins/gpu.example.com/dra.sock");
    assert_eq!(info.plugin_type, "DRAPlugin");
    assert_eq!(info.plugin_type, PLUGIN_TYPE);
    assert_eq!(info.supported_versions, vec!["v1.DRAPlugin".to_string()]);
}

#[test]
fn registration_status_accepted() {
    assert_eq!(server().notify_registration_status(true, ""), Ok(()));
    assert_eq!(server().notify_registration_status(true, "ignored"), Ok(()));
}

#[test]
fn registration_status_rejected() {
    assert_eq!(
        server().notify_registration_status(false, "version mismatch"),
        Err("failed registration process: version mismatch".to_string())
    );
    assert_eq!(
        server().notify_registration_status(false, ""),
        Err("failed registration process: ".to_string())
    );
}
