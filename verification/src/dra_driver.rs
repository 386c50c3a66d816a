use vstd::prelude::*;
use vstd::string::*;

verus! {

/// `Uid` holds unique ID values, including UUIDs. Because not only UUIDs are
/// used, it wraps a string. Being a type captures intent and helps make sure
/// that UIDs and names do not get conflated.
#[derive(PartialEq, Eq, PartialOrd, Ord, Hash, Clone, Debug)]
pub struct Uid(pub String);

impl Uid {
    /// The text form of a UID: the wrapped string itself.
    pub fn to_string(&self) -> (res: String)
        ensures
            res@ == self.0@,
    {
        self.0.clone()
    }
}

/// The text form of a namespaced object: `<namespace>/<name>`, followed by
/// `:<uid>` when the object has a UID.
pub open spec fn spec_namespaced_object_text(
    namespace: Seq<char>,
    name: Seq<char>,
    uid: Option<Seq<char>>,
) -> Seq<char> {
    match uid {
        Some(u) => namespace + "/"@ + name + ":"@ + u,
        None => namespace + "/"@ + name,
    }
}

/// `NamespacedObject` comprises a resource `name` with a mandatory
/// `namespace` and optional `Uid`. It gets rendered as
/// `<namespace>/<name>:[<uid>]`.
#[derive(Clone, Debug)]
pub struct NamespacedObject {
    pub namespace: String,
    pub name: String,
    pub uid: Option<Uid>,
}

impl NamespacedObject {
    /// The UID's text, when there is a UID.
    pub open spec fn uid_text(&self) -> Option<Seq<char>> {
        match self.uid {
            Some(u) => Some(u.0@),
            None => None,
        }
    }

    /// The text form `<namespace>/<name>` or `<namespace>/<name>:<uid>`.
    pub fn to_string(&self) -> (res: String)
        ensures
            res@ == spec_namespaced_object_text(self.namespace@, self.name@, self.uid_text()),
    {
        let mut res = self.namespace.clone();
        res.append("/");
        res.append(self.name.as_str());
        match &self.uid {
            Some(uid) => {
                res.append(":");
                res.append(uid.0.as_str());
            },
            None => {},
        }
        res
    }
}

/// `Device` provides the CDI device IDs for one request in a
/// `ResourceClaim`.
#[derive(Clone, Debug)]
pub struct Device {
    /// `requests` lists the names of requests or subrequests in the
    /// `ResourceClaim` that this device is associated with. If empty, the
    /// device is associated with all requests.
    pub requests: Vec<String>,
    /// `pool_name` identifies the DRA driver's pool which contains the
    /// device. Must not be empty.
    pub pool_name: String,
    /// `device_name` identifies the device inside that pool. Must not be
    /// empty.
    pub device_name: String,
    /// `cdi_device_ids` lists all CDI devices associated with this DRA
    /// device, each of the form `<vendor ID>/<class>=<unique name>`. May be
    /// empty.
    pub cdi_device_ids: Vec<String>,
}

/// The text of a namespaced object reads back what it was made of: it starts
/// with the namespace and a '/', then the name; with a UID, a ':' follows
/// the name and the text ends with the whole UID; without one, the text ends
/// with the name.
pub proof fn lemma_namespaced_object_text_parts(
    namespace: Seq<char>,
    name: Seq<char>,
    uid: Option<Seq<char>>,
)
    ensures
        ({
            let t = spec_namespaced_object_text(namespace, name, uid);
            &&& t.subrange(0, namespace.len() as int) == namespace
            &&& t[namespace.len() as int] == '/'
            &&& t.subrange(namespace.len() + 1 as int, namespace.len() + 1 + name.len() as int) == name
            &&& match uid {
                Some(u) => {
                    &&& t.len() == namespace.len() + name.len() + u.len() + 2
                    &&& t[namespace.len() + 1 + name.len() as int] == ':'
                    &&& t.subrange(t.len() - u.len(), t.len() as int) == u
                },
                None => t.len() == namespace.len() + name.len() + 1,
            }
        }),
{
    reveal_strlit("/");
    reveal_strlit(":");
    let t = spec_namespaced_object_text(namespace, name, uid);
    assert(t.subrange(0, namespace.len() as int) =~= namespace);
    assert(t.subrange(namespace.len() + 1 as int, namespace.len() + 1 + name.len() as int) =~= name);
    match uid {
        Some(u) => {
            assert(t.subrange(t.len() - u.len(), t.len() as int) =~= u);
        },
        None => {},
    }
}

} // verus!
