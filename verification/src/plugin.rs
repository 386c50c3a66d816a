use vstd::prelude::*;
use vstd::string::*;

use crate::endpoint::{Endpoint, EndpointView, joined_path};
use crate::error::Server;
use crate::registration::{
    RegistrationServer, RegistrationServerView, lemma_dra_short_names, spec_plugin_info,
    spec_supported_versions, supported_versions,
};

verus! {

/// The default parent directory of the plugin data directory.
pub const KUBELET_PLUGINS_DIR: &'static str = "/var/lib/kubelet/plugins";

/// The default directory in which the kubelet looks for registration sockets.
pub const KUBELET_REGISTRY_DIR: &'static str = "/var/lib/kubelet/plugins_registry";

/// The default gRPC verbosity: log each gRPC call and its response. A
/// negative value disables logging.
pub const DEFAULT_GRPC_VERBOSITY: i8 = 6;

/// The file name of the DRA socket inside the plugin data directory.
pub const DRA_SOCKET: &'static str = "dra.sock";

/// What follows the driver name in the file name of the registration socket.
pub const REGISTRATION_SOCKET_SUFFIX: &'static str = "-reg.sock";

/// Calls `<kube::Client as Clone>::clone`, the derived clone of
/// `kube::Client`: another handle to the same buffered API server service,
/// with the same default namespace and credential expiry. The contract claims
/// that the clone is the same client as the original.
#[verifier::external_body]
fn clone_client(client: &kube::Client) -> (res: kube::Client)
    ensures
        res == *client,
{
    client.clone()
}

/// The view of an optional string.
pub open spec fn opt_string_view(o: Option<String>) -> Option<Seq<char>> {
    match o {
        Some(s) => Some(s@),
        None => None,
    }
}

/// An optional flag that defaults to enabled.
pub open spec fn enabled_unless_off(o: Option<bool>) -> bool {
    match o {
        Some(b) => b,
        None => true,
    }
}

/// What a [`KubeletPluginBuilder`] holds: each setting, if it was set.
pub struct KubeletPluginBuilderView {
    pub driver_name: Option<Seq<char>>,
    pub grpc_verbosity: Option<i8>,
    pub kube_client: Option<kube::Client>,
    pub node_name: Option<Seq<char>>,
    pub node_v1: Option<bool>,
    pub node_v1beta1: Option<bool>,
    pub plugin_data_dir: Option<Seq<char>>,
    pub plugin_registration_dir: Option<Seq<char>>,
}

/// The view of a builder on which nothing was set.
pub open spec fn empty_builder() -> KubeletPluginBuilderView {
    KubeletPluginBuilderView {
        driver_name: None,
        grpc_verbosity: None,
        kube_client: None,
        node_name: None,
        node_v1: None,
        node_v1beta1: None,
        plugin_data_dir: None,
        plugin_registration_dir: None,
    }
}

/// Builds a [`KubeletPlugin`]. `driver_name`, `kube_client` and `node_name`
/// are required; the socket directories and gRPC verbosity fall back to the
/// kubelet's conventional defaults.
pub struct KubeletPluginBuilder {
    driver_name: Option<String>,
    grpc_verbosity: Option<i8>,
    kube_client: Option<kube::Client>,
    node_name: Option<String>,
    node_v1: Option<bool>,
    node_v1beta1: Option<bool>,
    plugin_data_dir: Option<String>,
    plugin_registration_dir: Option<String>,
}

impl View for KubeletPluginBuilder {
    type V = KubeletPluginBuilderView;

    closed spec fn view(&self) -> KubeletPluginBuilderView {
        KubeletPluginBuilderView {
            driver_name: opt_string_view(self.driver_name),
            grpc_verbosity: self.grpc_verbosity,
            kube_client: self.kube_client,
            node_name: opt_string_view(self.node_name),
            node_v1: self.node_v1,
            node_v1beta1: self.node_v1beta1,
            plugin_data_dir: opt_string_view(self.plugin_data_dir),
            plugin_registration_dir: opt_string_view(self.plugin_registration_dir),
        }
    }
}

impl Default for KubeletPluginBuilder {
    fn default() -> (b: KubeletPluginBuilder)
        ensures
            b@ == empty_builder(),
    {
        KubeletPluginBuilder {
            driver_name: None,
            grpc_verbosity: None,
            kube_client: None,
            node_name: None,
            node_v1: None,
            node_v1beta1: None,
            plugin_data_dir: None,
            plugin_registration_dir: None,
        }
    }
}

impl KubeletPluginBuilder {
    /// A builder on which nothing is set yet.
    pub fn new() -> (b: KubeletPluginBuilder)
        ensures
            b@ == empty_builder(),
    {
        KubeletPluginBuilder::default()
    }

    /// Sets the driver name of the dynamic resource allocation driver. Must
    /// be set. Must be a DNS subdomain and should end with a DNS domain owned
    /// by the vendor of the driver. It should use only lower case characters.
    pub fn driver_name(&mut self, name: &str) -> (r: &mut Self)
        ensures
            r@ == (KubeletPluginBuilderView { driver_name: Some(name@), ..old(self)@ }),
            *final(self) == *final(r),
    {
        self.driver_name = Some(String::from_str(name));
        self
    }

    /// Sets the verbosity for logging gRPC calls. Default is `6`, which
    /// includes gRPC calls and their responses. A negative value disables
    /// logging.
    pub fn grpc_verbosity(&mut self, level: i8) -> (r: &mut Self)
        ensures
            r@ == (KubeletPluginBuilderView { grpc_verbosity: Some(level), ..old(self)@ }),
            *final(self) == *final(r),
    {
        self.grpc_verbosity = Some(level);
        self
    }

    /// Sets the directory where the DRA driver creates the `dra.sock` socket
    /// that the kubelet connects to for the DRA-specific gRPC calls. It must
    /// not be shared with other kubelet plugins. The default is
    /// `/var/lib/kubelet/plugins/<driver name>`. The directory must exist.
    pub fn plugin_data_dir(&mut self, dir: &str) -> (r: &mut Self)
        ensures
            r@ == (KubeletPluginBuilderView { plugin_data_dir: Some(dir@), ..old(self)@ }),
            *final(self) == *final(r),
    {
        self.plugin_data_dir = Some(String::from_str(dir));
        self
    }

    /// Grants the plugin access to the API server, which is needed for
    /// syncing ResourceSlice objects. Must be set.
    pub fn kube_client(&mut self, client: kube::Client) -> (r: &mut Self)
        ensures
            r@ == (KubeletPluginBuilderView { kube_client: Some(client), ..old(self)@ }),
            *final(self) == *final(r),
    {
        self.kube_client = Some(client);
        self
    }

    /// Tells the plugin on which node it is running. Must be set.
    pub fn node_name(&mut self, name: &str) -> (r: &mut Self)
        ensures
            r@ == (KubeletPluginBuilderView { node_name: Some(name@), ..old(self)@ }),
            *final(self) == *final(r),
    {
        self.node_name = Some(String::from_str(name));
        self
    }

    /// Sets the directory where the kubelet expects to find registration
    /// sockets of plugins. The default is `/var/lib/kubelet/plugins_registry`.
    /// The directory must exist.
    pub fn registrar_directory_path(&mut self, dir: &str) -> (r: &mut Self)
        ensures
            r@ == (KubeletPluginBuilderView { plugin_registration_dir: Some(dir@), ..old(self)@ }),
            *final(self) == *final(r),
    {
        self.plugin_registration_dir = Some(String::from_str(dir));
        self
    }

    /// Chooses whether the DRA gRPC API v1 gets served. True by default.
    pub fn node_v1(&mut self, enabled: bool) -> (r: &mut Self)
        ensures
            r@ == (KubeletPluginBuilderView { node_v1: Some(enabled), ..old(self)@ }),
            *final(self) == *final(r),
    {
        self.node_v1 = Some(enabled);
        self
    }

    /// Chooses whether the DRA gRPC API v1beta1 gets served. True by default.
    pub fn node_v1beta1(&mut self, enabled: bool) -> (r: &mut Self)
        ensures
            r@ == (KubeletPluginBuilderView { node_v1beta1: Some(enabled), ..old(self)@ }),
            *final(self) == *final(r),
    {
        self.node_v1beta1 = Some(enabled);
        self
    }

    /// `build` checks the settings and assembles the plugin. It fails when
    /// no DRA gRPC API is enabled, then when the driver name, the Kubernetes
    /// client or the node name is missing, in that order. The DRA socket is
    /// `dra.sock` in the plugin data directory; the registration socket is
    /// `<driver name>-reg.sock` in the registration directory.
    pub fn build(&mut self) -> (res: Result<KubeletPlugin, BuildError>)
        ensures
            *final(self) == *old(self),
            match res {
                Ok(p) => {
                    &&& spec_build_error(old(self)@) is None
                    &&& p@ == spec_built(old(self)@)
                    &&& p.client() == old(self)@.kube_client->0
                    &&& p@.wf()
                },
                Err(e) => spec_build_error(old(self)@) == Some(e),
            },
    {
        let node_v1 = match self.node_v1 {
            Some(b) => b,
            None => true,
        };
        let node_v1beta1 = match self.node_v1beta1 {
            Some(b) => b,
            None => true,
        };
        let versions = supported_versions(node_v1, node_v1beta1);
        assert(versions.deep_view().len() == versions@.len());
        if versions.len() == 0 {
            return Err(BuildError::NoSupportedApi);
        }
        let driver_name = match &self.driver_name {
            Some(n) => n,
            None => {
                return Err(BuildError::MissingDriverName);
            },
        };
        let kube_client = match &self.kube_client {
            Some(c) => c,
            None => {
                return Err(BuildError::MissingKubeClient);
            },
        };
        let node_name = match &self.node_name {
            Some(n) => n,
            None => {
                return Err(BuildError::MissingNodeName);
            },
        };
        let plugin_data_dir = match &self.plugin_data_dir {
            Some(d) => d.clone(),
            None => {
                let mut d = String::from_str(KUBELET_PLUGINS_DIR);
                d.append("/");
                d.append(driver_name.as_str());
                d
            },
        };
        let plugin_registration_dir = match &self.plugin_registration_dir {
            Some(d) => d.clone(),
            None => String::from_str(KUBELET_REGISTRY_DIR),
        };
        let grpc_verbosity = match self.grpc_verbosity {
            Some(v) => v,
            None => DEFAULT_GRPC_VERBOSITY,
        };
        let dra_endpoint = Endpoint::new(plugin_data_dir.as_str(), DRA_SOCKET);
        let mut reg_socket = driver_name.clone();
        reg_socket.append(REGISTRATION_SOCKET_SUFFIX);
        let reg_server = RegistrationServer::new(
            driver_name.clone(),
            Endpoint::new(plugin_registration_dir.as_str(), reg_socket.as_str()),
            dra_endpoint.path(),
            versions,
        );
        Ok(KubeletPlugin {
            driver_name: driver_name.clone(),
            grpc_verbosity,
            kube_client: clone_client(kube_client),
            node_name: node_name.clone(),
            node_v1,
            node_v1beta1,
            endpoint: dra_endpoint,
            reg_server,
            started: false,
        })
    }
}

/// Why a [`KubeletPluginBuilder`] could not build a plugin.
#[derive(PartialEq, Eq, Structural, Clone, Copy, Debug)]
pub enum BuildError {
    /// Neither DRA gRPC API version is enabled.
    NoSupportedApi,
    /// No driver name was set.
    MissingDriverName,
    /// No Kubernetes client was set.
    MissingKubeClient,
    /// No node name was set.
    MissingNodeName,
}

impl BuildError {
    /// The message that describes the error.
    pub fn message(&self) -> (m: &'static str)
        ensures
            m@ == match *self {
                BuildError::NoSupportedApi => "no supported DRA gRPC API is implemented and enabled"@,
                BuildError::MissingDriverName => "driver name is required"@,
                BuildError::MissingKubeClient => "kubernetes client is required"@,
                BuildError::MissingNodeName => "node name is required"@,
            },
    {
        match self {
            BuildError::NoSupportedApi => "no supported DRA gRPC API is implemented and enabled",
            BuildError::MissingDriverName => "driver name is required",
            BuildError::MissingKubeClient => "kubernetes client is required",
            BuildError::MissingNodeName => "node name is required",
        }
    }
}

/// The first problem `build` finds with the settings `b`, if any.
pub open spec fn spec_build_error(b: KubeletPluginBuilderView) -> Option<BuildError> {
    if !enabled_unless_off(b.node_v1) && !enabled_unless_off(b.node_v1beta1) {
        Some(BuildError::NoSupportedApi)
    } else if b.driver_name is None {
        Some(BuildError::MissingDriverName)
    } else if b.kube_client is None {
        Some(BuildError::MissingKubeClient)
    } else if b.node_name is None {
        Some(BuildError::MissingNodeName)
    } else {
        None
    }
}

/// The plugin data directory that the settings `b` choose.
pub open spec fn spec_plugin_data_dir(b: KubeletPluginBuilderView) -> Seq<char> {
    match b.plugin_data_dir {
        Some(d) => d,
        None => KUBELET_PLUGINS_DIR@ + "/"@ + b.driver_name->0,
    }
}

/// The registration directory that the settings `b` choose.
pub open spec fn spec_registration_dir(b: KubeletPluginBuilderView) -> Seq<char> {
    match b.plugin_registration_dir {
        Some(d) => d,
        None => KUBELET_REGISTRY_DIR@,
    }
}

/// The plugin that `build` assembles from the settings `b`.
pub open spec fn spec_built(b: KubeletPluginBuilderView) -> KubeletPluginView {
    let driver = b.driver_name->0;
    let node_v1 = enabled_unless_off(b.node_v1);
    let node_v1beta1 = enabled_unless_off(b.node_v1beta1);
    let endpoint = EndpointView { dir: spec_plugin_data_dir(b), file: DRA_SOCKET@ };
    KubeletPluginView {
        driver_name: driver,
        grpc_verbosity: match b.grpc_verbosity {
            Some(v) => v,
            None => DEFAULT_GRPC_VERBOSITY,
        },
        node_name: b.node_name->0,
        node_v1,
        node_v1beta1,
        endpoint,
        registration: RegistrationServerView {
            driver_name: driver,
            endpoint: EndpointView {
                dir: spec_registration_dir(b),
                file: driver + REGISTRATION_SOCKET_SUFFIX@,
            },
            dra_endpoint_path: endpoint.path(),
            supported_versions: spec_supported_versions(node_v1, node_v1beta1),
        },
        started: false,
    }
}

/// What a [`KubeletPlugin`] is configured with, and whether it was started.
pub struct KubeletPluginView {
    pub driver_name: Seq<char>,
    pub grpc_verbosity: i8,
    pub node_name: Seq<char>,
    pub node_v1: bool,
    pub node_v1beta1: bool,
    pub endpoint: EndpointView,
    pub registration: RegistrationServerView,
    pub started: bool,
}

impl KubeletPluginView {
    /// A well-formed plugin serves at least one DRA gRPC API version and
    /// announces exactly the versions it serves; its registration server
    /// registers its driver and announces the path of its DRA socket, which
    /// is `dra.sock`; the registration socket is `<driver name>-reg.sock`.
    pub open spec fn wf(self) -> bool {
        &&& self.node_v1 || self.node_v1beta1
        &&& self.registration.supported_versions == spec_supported_versions(
            self.node_v1,
            self.node_v1beta1,
        )
        &&& self.registration.driver_name == self.driver_name
        &&& self.registration.dra_endpoint_path == self.endpoint.path()
        &&& self.endpoint.file == DRA_SOCKET@
        &&& self.registration.endpoint.file == self.driver_name + REGISTRATION_SOCKET_SUFFIX@
    }

    /// The same plugin, once started.
    pub open spec fn after_start(self) -> KubeletPluginView {
        KubeletPluginView { started: true, ..self }
    }
}

/// `KubeletPlugin` is the node-local component the kubelet talks to: it owns
/// the configuration of the registration and DRA gRPC servers and their
/// sockets, and knows whether it was started.
pub struct KubeletPlugin {
    driver_name: String,
    grpc_verbosity: i8,
    kube_client: kube::Client,
    node_name: String,
    node_v1: bool,
    node_v1beta1: bool,
    endpoint: Endpoint,
    reg_server: RegistrationServer,
    started: bool,
}

impl View for KubeletPlugin {
    type V = KubeletPluginView;

    closed spec fn view(&self) -> KubeletPluginView {
        KubeletPluginView {
            driver_name: self.driver_name@,
            grpc_verbosity: self.grpc_verbosity,
            node_name: self.node_name@,
            node_v1: self.node_v1,
            node_v1beta1: self.node_v1beta1,
            endpoint: self.endpoint@,
            registration: self.reg_server@,
            started: self.started,
        }
    }
}

impl KubeletPlugin {
    /// The Kubernetes client the plugin holds, which it was built with.
    pub closed spec fn client(&self) -> kube::Client {
        self.kube_client
    }

    /// A builder on which nothing is set yet.
    pub fn builder() -> (b: KubeletPluginBuilder)
        ensures
            b@ == empty_builder(),
    {
        KubeletPluginBuilder::default()
    }

    /// The name of the driver.
    pub fn driver_name(&self) -> (n: &str)
        ensures
            n@ == self@.driver_name,
    {
        self.driver_name.as_str()
    }

    /// The name of the node the plugin runs on.
    pub fn node_name(&self) -> (n: &str)
        ensures
            n@ == self@.node_name,
    {
        self.node_name.as_str()
    }

    /// The verbosity for logging gRPC calls.
    pub fn grpc_verbosity(&self) -> (v: i8)
        ensures
            v == self@.grpc_verbosity,
    {
        self.grpc_verbosity
    }

    /// The Kubernetes client the plugin uses.
    pub fn kube_client(&self) -> (c: &kube::Client)
        ensures
            *c == self.client(),
    {
        &self.kube_client
    }

    /// Whether the DRA gRPC API v1 is served.
    pub fn node_v1(&self) -> (b: bool)
        ensures
            b == self@.node_v1,
    {
        self.node_v1
    }

    /// Whether the DRA gRPC API v1beta1 is served.
    pub fn node_v1beta1(&self) -> (b: bool)
        ensures
            b == self@.node_v1beta1,
    {
        self.node_v1beta1
    }

    /// The endpoint of the DRA socket.
    pub fn endpoint(&self) -> (e: &Endpoint)
        ensures
            e@ == self@.endpoint,
    {
        &self.endpoint
    }

    /// The registration server.
    pub fn registration(&self) -> (r: &RegistrationServer)
        ensures
            r@ == self@.registration,
    {
        &self.reg_server
    }

    /// Whether the plugin was started: its servers then have to be stopped
    /// when it stops.
    pub fn is_started(&self) -> (b: bool)
        ensures
            b == self@.started,
    {
        self.started
    }

    /// The first step of starting the plugin. A plugin that was started
    /// already refuses; otherwise the answer says which sockets to bind (the
    /// DRA socket and the registration socket), which DRA gRPC API versions to
    /// serve, and at which verbosity to log gRPC calls.
    pub fn begin_start(&self) -> (r: Result<ServePlan, StartError>)
        ensures
            r is Err <==> self@.started,
            r matches Ok(plan) ==> plan@ == spec_serve_plan(self@),
    {
        if self.started {
            return Err(StartError::AlreadyStarted);
        }
        Ok(ServePlan {
            dra_socket: self.endpoint.path(),
            registration_socket: self.reg_server.endpoint().path(),
            serve_v1: self.node_v1,
            serve_v1beta1: self.node_v1beta1,
            grpc_verbosity: self.grpc_verbosity,
        })
    }

    /// The second step of starting the plugin, once both sockets are bound:
    /// the plugin counts as started from then on. A plugin that was started
    /// already refuses and stays as it is.
    pub fn confirm_started(&mut self) -> (r: Result<(), StartError>)
        ensures
            r is Ok <==> !old(self)@.started,
            final(self)@ == old(self)@.after_start(),
            final(self).client() == old(self).client(),
    {
        if self.started {
            return Err(StartError::AlreadyStarted);
        }
        self.started = true;
        Ok(())
    }
}

/// Why a plugin could not be started.
#[derive(PartialEq, Eq, Structural, Clone, Copy, Debug)]
pub enum StartError {
    /// The plugin was started already.
    AlreadyStarted,
}

impl StartError {
    /// The message that describes the error.
    pub fn message(&self) -> (m: &'static str)
        ensures
            m@ == "plugin already started"@,
    {
        "plugin already started"
    }
}

/// What a [`ServePlan`] says.
pub struct ServePlanView {
    pub dra_socket: Seq<char>,
    pub registration_socket: Seq<char>,
    pub serve_v1: bool,
    pub serve_v1beta1: bool,
    pub grpc_verbosity: i8,
}

/// What starting a plugin binds and serves: the DRA server listens on
/// `dra_socket` and serves the DRA gRPC API v1 when `serve_v1` and v1beta1
/// when `serve_v1beta1`; the registration server listens on
/// `registration_socket`.
pub struct ServePlan {
    pub dra_socket: String,
    pub registration_socket: String,
    pub serve_v1: bool,
    pub serve_v1beta1: bool,
    pub grpc_verbosity: i8,
}

impl View for ServePlan {
    type V = ServePlanView;

    open spec fn view(&self) -> ServePlanView {
        ServePlanView {
            dra_socket: self.dra_socket@,
            registration_socket: self.registration_socket@,
            serve_v1: self.serve_v1,
            serve_v1beta1: self.serve_v1beta1,
            grpc_verbosity: self.grpc_verbosity,
        }
    }
}

/// What starting the plugin `p` binds and serves.
pub open spec fn spec_serve_plan(p: KubeletPluginView) -> ServePlanView {
    ServePlanView {
        dra_socket: p.endpoint.path(),
        registration_socket: p.registration.endpoint.path(),
        serve_v1: p.node_v1,
        serve_v1beta1: p.node_v1beta1,
        grpc_verbosity: p.grpc_verbosity,
    }
}

/// How removing a socket file went.
#[derive(PartialEq, Eq, Structural, Clone, Copy, Debug)]
pub enum SocketRemoval {
    /// The file was removed.
    Removed,
    /// There was no such file.
    NotFound,
    /// Removing the file failed for another reason.
    Failed,
}

/// Whether removing a socket went well: a socket that is already gone is no
/// error.
pub fn socket_removal_ok(removal: SocketRemoval) -> (ok: bool)
    ensures
        ok <==> removal != SocketRemoval::Failed,
{
    match removal {
        SocketRemoval::Failed => false,
        _ => true,
    }
}

/// Which failure stopping a plugin reports, once both sockets were removed:
/// that of the DRA socket first, then that of the registration socket; none
/// when both removals went well.
pub fn stop_failure(dra: SocketRemoval, registration: SocketRemoval) -> (r: Option<Server>)
    ensures
        dra == SocketRemoval::Failed ==> r == Some(Server::Dra),
        dra != SocketRemoval::Failed && registration == SocketRemoval::Failed ==> r == Some(
            Server::Registration,
        ),
        dra != SocketRemoval::Failed && registration != SocketRemoval::Failed ==> r is None,
{
    if !socket_removal_ok(dra) {
        Some(Server::Dra)
    } else if !socket_removal_ok(registration) {
        Some(Server::Registration)
    } else {
        None
    }
}

/// A built plugin can be started: building yields a well-formed plugin that
/// was not started.
pub proof fn lemma_built_plugin_can_start(b: KubeletPluginBuilderView)
    requires
        spec_build_error(b) is None,
    ensures
        spec_built(b).wf(),
        !spec_built(b).started,
{
}

/// Starting keeps a plugin well-formed, and a started plugin refuses to start
/// again.
pub proof fn lemma_start_once(p: KubeletPluginView)
    ensures
        p.wf() ==> p.after_start().wf(),
        p.after_start().started,
        p.after_start().after_start() == p.after_start(),
{
}

/// The registration server tells the kubelet what the DRA server serves: the
/// advertised endpoint is the socket the DRA server binds, and the advertised
/// versions are `v1.DRAPlugin` exactly when v1 is served and
/// `v1beta1.DRAPlugin` exactly when v1beta1 is served.
pub proof fn lemma_registration_advertises_served_api(p: KubeletPluginView)
    requires
        p.wf(),
    ensures
        spec_plugin_info(p.registration).endpoint == spec_serve_plan(p).dra_socket,
        spec_plugin_info(p.registration).supported_versions.contains("v1.DRAPlugin"@)
            <==> spec_serve_plan(p).serve_v1,
        spec_plugin_info(p.registration).supported_versions.contains("v1beta1.DRAPlugin"@)
            <==> spec_serve_plan(p).serve_v1beta1,
        spec_plugin_info(p.registration).supported_versions.len() > 0,
{
    lemma_dra_short_names();
    reveal_strlit("v1.DRAPlugin");
    reveal_strlit("v1beta1.DRAPlugin");
    let v = spec_plugin_info(p.registration).supported_versions;
    assert("v1.DRAPlugin"@ != "v1beta1.DRAPlugin"@) by {
        assert("v1.DRAPlugin"@.len() != "v1beta1.DRAPlugin"@.len());
    }
    if p.node_v1 {
        assert(v[0] == "v1.DRAPlugin"@);
    }
    if p.node_v1beta1 {
        assert(v[v.len() - 1] == "v1beta1.DRAPlugin"@);
    }
}

/// Each DRA gRPC API version is served and advertised exactly as the builder
/// chose it: a version switched off is neither served nor advertised, and a
/// version switched on, or left unset, is both.
pub proof fn lemma_build_honours_api_choice(b: KubeletPluginBuilderView)
    requires
        spec_build_error(b) is None,
    ensures
        b.node_v1 == Some(false) ==> !spec_built(b).node_v1
            && !spec_serve_plan(spec_built(b)).serve_v1
            && !spec_plugin_info(spec_built(b).registration).supported_versions.contains(
            "v1.DRAPlugin"@,
        ),
        b.node_v1 != Some(false) ==> spec_built(b).node_v1 && spec_serve_plan(spec_built(b)).serve_v1
            && spec_plugin_info(spec_built(b).registration).supported_versions.contains(
            "v1.DRAPlugin"@,
        ),
        b.node_v1beta1 == Some(false) ==> !spec_built(b).node_v1beta1
            && !spec_serve_plan(spec_built(b)).serve_v1beta1
            && !spec_plugin_info(spec_built(b).registration).supported_versions.contains(
            "v1beta1.DRAPlugin"@,
        ),
        b.node_v1beta1 != Some(false) ==> spec_built(b).node_v1beta1
            && spec_serve_plan(spec_built(b)).serve_v1beta1
            && spec_plugin_info(spec_built(b).registration).supported_versions.contains(
            "v1beta1.DRAPlugin"@,
        ),
{
    lemma_registration_advertises_served_api(spec_built(b));
}

/// The verbosity a built plugin logs with is the one set on the builder,
/// whatever its value; only when none was set is it 6.
pub proof fn lemma_build_keeps_verbosity(b: KubeletPluginBuilderView, v: i8)
    requires
        spec_build_error(b) is None,
    ensures
        b.grpc_verbosity == Some(v) ==> spec_built(b).grpc_verbosity == v
            && spec_serve_plan(spec_built(b)).grpc_verbosity == v,
        b.grpc_verbosity is None ==> spec_built(b).grpc_verbosity == 6,
{
}

/// Starting a built plugin binds the sockets in the directories the builder
/// was given: the DRA socket `dra.sock` in the plugin data directory and the
/// registration socket `<driver name>-reg.sock` in the registrar directory;
/// and the registration socket of any plugin is its registration server's.
pub proof fn lemma_start_binds_configured_sockets(
    b: KubeletPluginBuilderView,
    p: KubeletPluginView,
    data_dir: Seq<char>,
    registrar_dir: Seq<char>,
)
    requires
        spec_build_error(b) is None,
    ensures
        spec_serve_plan(p).registration_socket == p.registration.endpoint.path(),
        spec_serve_plan(p).dra_socket == p.endpoint.path(),
        b.plugin_data_dir == Some(data_dir) ==> spec_serve_plan(spec_built(b)).dra_socket
            == joined_path(data_dir, DRA_SOCKET@),
        b.plugin_registration_dir == Some(registrar_dir) ==> spec_serve_plan(
            spec_built(b),
        ).registration_socket == joined_path(
            registrar_dir,
            b.driver_name->0 + REGISTRATION_SOCKET_SUFFIX@,
        ),
        b.plugin_registration_dir is None ==> spec_serve_plan(spec_built(b)).registration_socket
            == joined_path(KUBELET_REGISTRY_DIR@, b.driver_name->0 + REGISTRATION_SOCKET_SUFFIX@),
{
}

/// The kubelet learns the plugin under the driver name set on the builder,
/// the same name the registration socket is named after.
pub proof fn lemma_registered_under_driver_name(b: KubeletPluginBuilderView)
    requires
        spec_build_error(b) is None,
    ensures
        spec_plugin_info(spec_built(b).registration).name == b.driver_name->0,
        spec_built(b).registration.endpoint.file == spec_plugin_info(
            spec_built(b).registration,
        ).name + REGISTRATION_SOCKET_SUFFIX@,
{
}

} // verus!
