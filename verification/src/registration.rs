use vstd::prelude::*;
use vstd::string::*;

use crate::endpoint::{Endpoint, EndpointView};

verus! {

/// Fully qualified name of the gRPC service of the DRA plugin API, v1.
pub const DRA_V1_SERVICE_NAME: &'static str = "k8s.io.kubelet.pkg.apis.dra.v1.DRAPlugin";

/// Fully qualified name of the gRPC service of the DRA plugin API, v1beta1.
pub const DRA_V1BETA1_SERVICE_NAME: &'static str = "k8s.io.kubelet.pkg.apis.dra.v1beta1.DRAPlugin";

/// Index of the last '.' in `s`, or -1 when `s` holds none.
pub open spec fn rfind_dot(s: Seq<char>) -> int
    decreases s.len(),
{
    if s.len() == 0 {
        -1
    } else if s.last() == '.' {
        s.len() - 1
    } else {
        rfind_dot(s.drop_last())
    }
}

/// The field after the last '.' of `s`; all of `s` when it holds no '.'.
pub open spec fn after_last_dot(s: Seq<char>) -> Seq<char> {
    s.subrange(rfind_dot(s) + 1, s.len() as int)
}

/// What comes before the last '.' of `s`; empty when `s` holds no '.'.
pub open spec fn before_last_dot(s: Seq<char>) -> Seq<char> {
    if rfind_dot(s) < 0 {
        Seq::empty()
    } else {
        s.subrange(0, rfind_dot(s))
    }
}

/// The short form of a gRPC service name: its last two '.'-separated fields,
/// joined by '.'. A missing field counts as empty.
pub open spec fn spec_short_service_name(svc: Seq<char>) -> Seq<char> {
    after_last_dot(before_last_dot(svc)) + seq!['.'] + after_last_dot(svc)
}

/// `s` holds no '.'.
pub open spec fn dot_free(s: Seq<char>) -> bool {
    forall|k: int| 0 <= k < s.len() ==> s[k] != '.'
}

proof fn lemma_rfind_dot(s: Seq<char>)
    ensures
        -1 <= rfind_dot(s) < s.len(),
        rfind_dot(s) >= 0 ==> s[rfind_dot(s)] == '.',
        forall|k: int| rfind_dot(s) < k < s.len() ==> s[k] != '.',
    decreases s.len(),
{
    if s.len() > 0 && s.last() != '.' {
        lemma_rfind_dot(s.drop_last());
        assert forall|k: int| rfind_dot(s) < k < s.len() implies s[k] != '.' by {
            if k < s.len() - 1 {
                assert(s[k] == s.drop_last()[k]);
            }
        }
        if rfind_dot(s) >= 0 {
            assert(s[rfind_dot(s)] == s.drop_last()[rfind_dot(s)]);
        }
    }
}

proof fn lemma_rfind_dot_at(s: Seq<char>, i: int)
    requires
        0 <= i < s.len(),
        s[i] == '.',
        forall|k: int| i < k < s.len() ==> s[k] != '.',
    ensures
        rfind_dot(s) == i,
{
    lemma_rfind_dot(s);
}

proof fn lemma_rfind_dot_none(s: Seq<char>)
    requires
        dot_free(s),
    ensures
        rfind_dot(s) == -1,
{
    lemma_rfind_dot(s);
}

/// For a name made of a prefix, a '.', a dot-free field `a`, a '.' and a
/// dot-free field `b`, the short service name is `a.b`.
pub proof fn lemma_short_name_of_qualified(p: Seq<char>, a: Seq<char>, b: Seq<char>)
    requires
        dot_free(a),
        dot_free(b),
    ensures
        spec_short_service_name(p + seq!['.'] + a + seq!['.'] + b) == a + seq!['.'] + b,
{
    let s = p + seq!['.'] + a + seq!['.'] + b;
    let i: int = (p.len() + 1 + a.len()) as int;
    assert(s[i] == '.');
    assert forall|k: int| i < k < s.len() implies s[k] != '.' by {
        assert(s[k] == b[k - i - 1]);
    }
    lemma_rfind_dot_at(s, i);
    let before = s.subrange(0, i);
    assert(before =~= p + seq!['.'] + a);
    let j = p.len() as int;
    assert(before[j] == '.');
    assert forall|k: int| j < k < before.len() implies before[k] != '.' by {
        assert(before[k] == a[k - j - 1]);
    }
    lemma_rfind_dot_at(before, j);
    assert(before_last_dot(s) == before);
    assert(after_last_dot(before) =~= a);
    assert(after_last_dot(s) =~= b);
}

/// The short names of the two DRA plugin services are `v1.DRAPlugin` and
/// `v1beta1.DRAPlugin`.
pub proof fn lemma_dra_short_names()
    ensures
        spec_short_service_name(DRA_V1_SERVICE_NAME@) == "v1.DRAPlugin"@,
        spec_short_service_name(DRA_V1BETA1_SERVICE_NAME@) == "v1beta1.DRAPlugin"@,
{
    reveal_strlit("k8s.io.kubelet.pkg.apis.dra.v1.DRAPlugin");
    reveal_strlit("k8s.io.kubelet.pkg.apis.dra.v1beta1.DRAPlugin");
    reveal_strlit("k8s.io.kubelet.pkg.apis.dra");
    reveal_strlit("v1");
    reveal_strlit("v1beta1");
    reveal_strlit("DRAPlugin");
    reveal_strlit("v1.DRAPlugin");
    reveal_strlit("v1beta1.DRAPlugin");
    let p = "k8s.io.kubelet.pkg.apis.dra"@;
    let plugin = "DRAPlugin"@;
    assert(dot_free("v1"@));
    assert(dot_free("v1beta1"@));
    assert(dot_free(plugin));
    assert(DRA_V1_SERVICE_NAME@ =~= p + seq!['.'] + "v1"@ + seq!['.'] + plugin);
    assert(DRA_V1BETA1_SERVICE_NAME@ =~= p + seq!['.'] + "v1beta1"@ + seq!['.'] + plugin);
    lemma_short_name_of_qualified(p, "v1"@, plugin);
    lemma_short_name_of_qualified(p, "v1beta1"@, plugin);
    assert("v1.DRAPlugin"@ =~= "v1"@ + seq!['.'] + plugin);
    assert("v1beta1.DRAPlugin"@ =~= "v1beta1"@ + seq!['.'] + plugin);
}

/// Position of the last '.' in `s`, if any.
fn find_last_dot(s: &str) -> (r: Option<usize>)
    ensures
        match r {
            Some(i) => i < s@.len() && i as int == rfind_dot(s@),
            None => rfind_dot(s@) == -1,
        },
{
    let n = s.unicode_len();
    let mut i = n;
    while i > 0
        invariant
            i <= n,
            n == s@.len(),
            forall|k: int| i <= k < n ==> s@[k] != '.',
        decreases i,
    {
        let c = s.get_char(i - 1);
        if c == '.' {
            proof {
                lemma_rfind_dot_at(s@, i - 1);
            }
            return Some(i - 1);
        }
        i = i - 1;
    }
    proof {
        lemma_rfind_dot_none(s@);
    }
    None
}

/// The field after the last '.' of `s`.
fn field_after_last_dot(s: &str) -> (r: &str)
    ensures
        r@ == after_last_dot(s@),
{
    let n = s.unicode_len();
    match find_last_dot(s) {
        Some(i) => s.substring_char(i + 1, n),
        None => s.substring_char(0, n),
    }
}

/// `short_service_name` turns a fully qualified gRPC service name into the
/// version string the kubelet expects, such as `v1.DRAPlugin`: the last two
/// '.'-separated fields of the name.
pub fn short_service_name(svc: &str) -> (res: String)
    ensures
        res@ == spec_short_service_name(svc@),
{
    let n = svc.unicode_len();
    let before = match find_last_dot(svc) {
        Some(i) => svc.substring_char(0, i),
        None => svc.substring_char(0, 0),
    };
    assert(before@ =~= before_last_dot(svc@));
    let second_last = field_after_last_dot(before);
    let last = field_after_last_dot(svc);
    let mut res = String::from_str(second_last);
    proof {
        reveal_strlit(".");
    }
    res.append(".");
    assert("."@ =~= seq!['.']);
    res.append(last);
    res
}

/// The versions of the DRA gRPC API that a plugin serving the enabled
/// services announces, v1 first.
pub open spec fn spec_supported_versions(node_v1: bool, node_v1beta1: bool) -> Seq<Seq<char>> {
    (if node_v1 {
        seq![spec_short_service_name(DRA_V1_SERVICE_NAME@)]
    } else {
        Seq::empty()
    }) + (if node_v1beta1 {
        seq![spec_short_service_name(DRA_V1BETA1_SERVICE_NAME@)]
    } else {
        Seq::empty()
    })
}

/// The short names of the enabled DRA gRPC services: v1 when `node_v1`,
/// then v1beta1 when `node_v1beta1`.
pub fn supported_versions(node_v1: bool, node_v1beta1: bool) -> (versions: Vec<String>)
    ensures
        versions.deep_view() == spec_supported_versions(node_v1, node_v1beta1),
{
    let mut versions: Vec<String> = Vec::new();
    if node_v1 {
        versions.push(short_service_name(DRA_V1_SERVICE_NAME));
    }
    if node_v1beta1 {
        versions.push(short_service_name(DRA_V1BETA1_SERVICE_NAME));
    }
    assert(versions.deep_view() =~= spec_supported_versions(node_v1, node_v1beta1));
    versions
}

/// Identifier under which the kubelet registers Dynamic Resource Allocation
/// plugins.
pub const PLUGIN_TYPE: &'static str = "DRAPlugin";

/// A copy of `v`, string by string.
fn copy_strings(v: &Vec<String>) -> (res: Vec<String>)
    ensures
        res.deep_view() == v.deep_view(),
{
    let mut res: Vec<String> = Vec::new();
    let n = v.len();
    for i in 0..n
        invariant
            n == v.len(),
            res.len() == i,
            forall|k: int| 0 <= k < i ==> #[trigger] res@[k]@ == v@[k]@,
    {
        res.push(v[i].clone());
    }
    assert(res.deep_view() =~= v.deep_view());
    res
}

/// What a [`PluginInfo`] says.
pub struct PluginInfoView {
    pub name: Seq<char>,
    pub endpoint: Seq<char>,
    pub plugin_type: Seq<char>,
    pub supported_versions: Seq<Seq<char>>,
}

/// The answer to the kubelet's plugin watcher when it asks who the plugin
/// is: the driver's name, the path of the DRA socket, the plugin type and the
/// DRA gRPC API versions served.
pub struct PluginInfo {
    pub name: String,
    pub endpoint: String,
    pub plugin_type: String,
    pub supported_versions: Vec<String>,
}

impl View for PluginInfo {
    type V = PluginInfoView;

    open spec fn view(&self) -> PluginInfoView {
        PluginInfoView {
            name: self.name@,
            endpoint: self.endpoint@,
            plugin_type: self.plugin_type@,
            supported_versions: self.supported_versions.deep_view(),
        }
    }
}

/// What a [`RegistrationServer`] holds.
pub struct RegistrationServerView {
    pub driver_name: Seq<char>,
    pub endpoint: EndpointView,
    pub dra_endpoint_path: Seq<char>,
    pub supported_versions: Seq<Seq<char>>,
}

/// The plugin information a registration server gives out.
pub open spec fn spec_plugin_info(r: RegistrationServerView) -> PluginInfoView {
    PluginInfoView {
        name: r.driver_name,
        endpoint: r.dra_endpoint_path,
        plugin_type: PLUGIN_TYPE@,
        supported_versions: r.supported_versions,
    }
}

/// The message of the error returned to the kubelet when it reports that
/// registration failed with `error`.
pub open spec fn spec_registration_failure(error: Seq<char>) -> Seq<char> {
    "failed registration process: "@ + error
}

/// `RegistrationServer` answers the kubelet plugin registration service: it
/// tells the kubelet which driver this is and where its DRA socket is, and
/// takes the kubelet's report on the registration.
#[derive(Clone)]
pub struct RegistrationServer {
    driver_name: String,
    endpoint: Endpoint,
    dra_endpoint_path: String,
    supported_versions: Vec<String>,
}

impl View for RegistrationServer {
    type V = RegistrationServerView;

    closed spec fn view(&self) -> RegistrationServerView {
        RegistrationServerView {
            driver_name: self.driver_name@,
            endpoint: self.endpoint@,
            dra_endpoint_path: self.dra_endpoint_path@,
            supported_versions: self.supported_versions.deep_view(),
        }
    }
}

impl RegistrationServer {
    /// A registration server for `driver_name`, listening on `endpoint` and
    /// announcing the DRA socket at `dra_endpoint_path` with the given API
    /// versions.
    pub fn new(
        driver_name: String,
        endpoint: Endpoint,
        dra_endpoint_path: String,
        supported_versions: Vec<String>,
    ) -> (r: RegistrationServer)
        ensures
            r@ == (RegistrationServerView {
                driver_name: driver_name@,
                endpoint: endpoint@,
                dra_endpoint_path: dra_endpoint_path@,
                supported_versions: supported_versions.deep_view(),
            }),
    {
        RegistrationServer { driver_name, endpoint, dra_endpoint_path, supported_versions }
    }

    /// The endpoint of the registration socket.
    pub fn endpoint(&self) -> (e: &Endpoint)
        ensures
            e@ == self@.endpoint,
    {
        &self.endpoint
    }

    /// The name of the driver being registered.
    pub fn driver_name(&self) -> (n: &str)
        ensures
            n@ == self@.driver_name,
    {
        self.driver_name.as_str()
    }

    /// `get_info` answers the plugin watcher: the driver's name, the path of
    /// the DRA socket, the plugin type `DRAPlugin` and the served versions.
    pub fn get_info(&self) -> (info: PluginInfo)
        ensures
            info@ == spec_plugin_info(self@),
    {
        PluginInfo {
            name: self.driver_name.clone(),
            endpoint: self.dra_endpoint_path.clone(),
            plugin_type: String::from_str(PLUGIN_TYPE),
            supported_versions: copy_strings(&self.supported_versions),
        }
    }

    /// `notify_registration_status` answers the plugin watcher's report on
    /// the registration: when the plugin was registered the answer is `Ok`;
    /// otherwise it is an error
    /// whose message is `failed registration process: ` followed by the error
    /// the kubelet reported.
    pub fn notify_registration_status(&self, plugin_registered: bool, error: &str) -> (r: Result<
        (),
        String,
    >)
        ensures
            plugin_registered <==> r is Ok,
            r matches Err(msg) ==> msg@ == spec_registration_failure(error@),
    {
        if !plugin_registered {
            let mut msg = String::from_str("failed registration process: ");
            msg.append(error);
            return Err(msg);
        }
        Ok(())
    }
}

/// The plugin information names the plugin by the registration server's
/// driver name, whole, and points the kubelet at the DRA socket path the
/// server was given.
pub proof fn lemma_plugin_info_names_driver(r: RegistrationServerView)
    ensures
        spec_plugin_info(r).name == r.driver_name,
        spec_plugin_info(r).name.len() == r.driver_name.len(),
        spec_plugin_info(r).endpoint == r.dra_endpoint_path,
{
}

} // verus!
