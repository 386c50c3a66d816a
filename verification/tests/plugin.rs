use kube_dra::plugin::{
    socket_removal_ok, stop_failure, BuildError, SocketRemoval, StartError,
    DEFAULT_GRPC_VERBOSITY, KUBELET_PLUGINS_DIR, KUBELET_REGISTRY_DIR,
};
use kube_dra::error::Server;
use kube_dra::{DraPlugin, Internal, KubeletPlugin, KubeletPluginBuilder};

fn with_client<R>(f: impl FnOnce(kube::Client) -> R) -> R {
    let rt = tokio::runtime::Runtime::new().unwrap();
    let _guard = rt.enter();
    let config = kube::Config::new("http://127.0.0.1:6443".parse().unwrap());
    let client = kube::Client::try_from(config).unwrap();
    f(client)
}

fn complete_builder(client: kube::Client) -> KubeletPluginBuilder {
    let mut b = KubeletPlugin::builder();
    b.driver_name("gpu.example.com")
        .kube_client(client)
        .node_name("node-1");
    b
}

#[test]
fn build_uses_defaults() {
    with_client(|client| {
        let mut b = complete_builder(client);
        let plugin = b.build().ok().unwrap();
        assert_eq!(plugin.driver_name(), "gpu.example.com");
        assert_eq!(plugin.node_name(), "node-1");
        assert_eq!(plugin.grpc_verbosity(), 6);
        assert_eq!(plugin.grpc_verbosity(), DEFAULT_GRPC_VERBOSITY);
        assert!(plugin.node_v1());
        assert!(plugin.node_v1beta1());
        assert!(!plugin.is_started());
        assert_eq!(plugin.endpoint().dir(), "/var/lib/kubelet/plugins/gpu.example.com");
        assert_eq!(plugin.endpoint().dir(), format!("{KUBELET_PLUGINS_DIR}/gpu.example.com"));
        assert_eq!(plugin.endpoint().file(), "dra.sock");
        assert_eq!(
            plugin.endpoint().path(),
            "/var/lib/kubelet/plugins/gpu.example.com/dra.sock"
        );
        let reg = plugin.registration();
        assert_eq!(reg.endpoint().dir(), "/var/lib/kubelet/plugins_registry");
        assert_eq!(reg.endpoint().dir(), KUBELET_REGISTRY_DIR);
        assert_eq!(reg.endpoint().file(), "gpu.example.com-reg.sock");
        let info = reg.get_info();
        assert_eq!(info.name, "gpu.example.com");
        assert_eq!(info.endpoint, "/var/lib/kubelet/plugins/gpu.example.com/dra.sock");
        assert_eq!(
            info.supported_versions,
            vec!["v1.DRAPlugin".to_string(), "v1beta1.DRAPlugin".to_string()]
        );
    })
}

#[test]
fn build_uses_settings() {
    with_client(|client| {
        let mut b = complete_builder(client);
        b.grpc_verbosity(-1)
            .plugin_data_dir("/run/dra")
            .registrar_directory_path("/run/registry")
            .node_v1beta1(false);
        let plugin = b.build().ok().unwrap();
        assert_eq!(plugin.grpc_verbosity(), -1);
        assert_eq!(plugin.endpoint().path(), "/run/dra/dra.sock");
        assert_eq!(
            plugin.registration().endpoint().path(),
            "/run/registry/gpu.example.com-reg.sock"
        );
        assert!(plugin.node_v1());
        assert!(!plugin.node_v1beta1());
        assert_eq!(
            plugin.registration().get_info().supported_versions,
            vec!["v1.DRAPlugin".to_string()]
        );
    })
}

#[test]
fn later_setting_wins() {
    with_client(|client| {
        let mut b = complete_builder(client);
        b.driver_name("other.example.com").grpc_verbosity(2).grpc_verbosity(3);
        let plugin = b.build().ok().unwrap();
        assert_eq!(plugin.driver_name(), "other.example.com");
        assert_eq!(plugin.grpc_verbosity(), 3);
    })
}

#[test]
fn build_twice_gives_the_same_plugin() {
    with_client(|client| {
        let mut b = complete_builder(client);
        let first = b.build().ok().unwrap();
        let second = b.build().ok().unwrap();
        assert_eq!(first.endpoint().path(), second.endpoint().path());
        assert_eq!(first.driver_name(), second.driver_name());
    })
}

fn build_error(b: &mut KubeletPluginBuilder) -> BuildError {
    match b.build() {
        Ok(_) => panic!("build succeeded"),
        Err(e) => e,
    }
}

#[test]
fn build_requires_an_api() {
    with_client(|client| {
        let mut b = complete_builder(client);
        b.node_v1(false).node_v1beta1(false);
        let e = build_error(&mut b);
        assert_eq!(e, BuildError::NoSupportedApi);
        assert_eq!(e.message(), "no supported DRA gRPC API is implemented and enabled");
    })
}

#[test]
fn build_reports_missing_settings_in_order() {
    let mut b = KubeletPluginBuilder::new();
    assert_eq!(build_error(&mut b), BuildError::MissingDriverName);
    assert_eq!(build_error(&mut b).message(), "driver name is required");
    b.driver_name("gpu.example.com");
    assert_eq!(build_error(&mut b), BuildError::MissingKubeClient);
    assert_eq!(build_error(&mut b).message(), "kubernetes client is required");
    b.node_name("node-1");
    assert_eq!(build_error(&mut b), BuildError::MissingKubeClient);
    with_client(|client| {
        let mut b = KubeletPluginBuilder::new();
        b.driver_name("gpu.example.com").kube_client(client);
        assert_eq!(build_error(&mut b), BuildError::MissingNodeName);
        assert_eq!(build_error(&mut b).message(), "node name is required");
    });
    let mut none = KubeletPluginBuilder::new();
    none.node_v1(false).node_v1beta1(false);
    assert_eq!(build_error(&mut none), BuildError::NoSupportedApi);
}

#[test]
fn start_only_once() {
    with_client(|client| {
        let mut plugin = complete_builder(client).build().ok().unwrap();
        let plan = plugin.begin_start().ok().unwrap();
        assert_eq!(plan.dra_socket, "/var/lib/kubelet/plugins/gpu.example.com/dra.sock");
        assert_eq!(
            plan.registration_socket,
            "/var/lib/kubelet/plugins_registry/gpu.example.com-reg.sock"
        );
        assert!(plan.serve_v1);
        assert!(plan.serve_v1beta1);
        assert_eq!(plan.grpc_verbosity, 6);
        assert_eq!(plugin.confirm_started(), Ok(()));
        assert!(plugin.is_started());
        match plugin.begin_start() {
            Ok(_) => panic!("started twice"),
            Err(e) => {
                assert_eq!(e, StartError::AlreadyStarted);
                assert_eq!(e.message(), "plugin already started");
            }
        }
        assert_eq!(plugin.confirm_started(), Err(StartError::AlreadyStarted));
        assert!(plugin.is_started());
    })
}

#[test]
fn advertised_endpoint_is_the_served_socket() {
    with_client(|client| {
        let plugin = complete_builder(client).build().ok().unwrap();
        let plan = plugin.begin_start().ok().unwrap();
        assert_eq!(plugin.registration().get_info().endpoint, plan.dra_socket);
    })
}

#[test]
fn socket_removal_outcomes() {
    assert!(socket_removal_ok(SocketRemoval::Removed));
    assert!(socket_removal_ok(SocketRemoval::NotFound));
    assert!(!socket_removal_ok(SocketRemoval::Failed));
}

#[test]
fn stop_reports_dra_socket_first() {
    assert_eq!(stop_failure(SocketRemoval::Removed, SocketRemoval::NotFound), None);
    assert_eq!(
        stop_failure(SocketRemoval::Failed, SocketRemoval::Failed),
        Some(Server::Dra)
    );
    assert_eq!(
        stop_failure(SocketRemoval::NotFound, SocketRemoval::Failed),
        Some(Server::Registration)
    );
    assert_eq!(
        stop_failure(SocketRemoval::Failed, SocketRemoval::Removed),
        Some(Server::Dra)
    );
}

#[test]
fn internal_plugin_prepares_nothing() {
    let internal = Internal::default();
    internal.prepare_resource_claims();
}
