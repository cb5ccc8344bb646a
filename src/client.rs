//! Loading a registry from JSON, and looking networks up.

use vstd::prelude::*;
use crate::error::{Error, ParseError};
use crate::json::{json_text, parse_json, Json};
use crate::agree::{lemma_registry_unique, same_registry};
use crate::encode::encode_registry;
use crate::schema::{decode_registry, registry_dec};
use crate::types::{Network, NetworksRegistry};
use crate::version::{registry_url, resolve_url, RegistryVersion, REGISTRY_BASE_URL};

verus! {

/// What loading the text `text` gives: a registry that its JSON decodes to,
/// or a parse error of the kind that says why there is none.
pub open spec fn loads(text: Seq<char>, r: Result<NetworksRegistry, Error>) -> bool {
    match json_text(text) {
        None => r matches Err(Error::Parse(ParseError::Syntax(_))),
        Some(j) => if exists|x: NetworksRegistry| registry_dec(j, x) {
            r matches Ok(x) && registry_dec(j, x)
        } else {
            r matches Err(Error::Parse(ParseError::Schema))
        },
    }
}

/// Whether network `i` is the first of `ns` with id `id`.
pub open spec fn first_with_id(ns: Seq<Network>, id: Seq<char>, i: int) -> bool {
    &&& 0 <= i < ns.len()
    &&& ns[i].id@ == id
    &&& forall|k: int| 0 <= k < i ==> (#[trigger] ns[k]).id@ != id
}

/// Whether `alias` is among the aliases of `n`.
pub open spec fn has_alias(n: Network, alias: Seq<char>) -> bool {
    n.aliases matches Some(a) && exists|k: int| 0 <= k < a@.len() && (#[trigger] a@[k])@ == alias
}

/// Whether network `i` is the first of `ns` with alias `alias`.
pub open spec fn first_with_alias(ns: Seq<Network>, alias: Seq<char>, i: int) -> bool {
    &&& 0 <= i < ns.len()
    &&& has_alias(ns[i], alias)
    &&& forall|k: int| 0 <= k < i ==> !has_alias(#[trigger] ns[k], alias)
}

fn network_has_alias(n: &Network, alias: &String) -> (r: bool)
    ensures
        r == has_alias(*n, alias@),
{
    match &n.aliases {
        None => false,
        Some(a) => {
            let mut k: usize = 0;
            while k < a.len()
                invariant
                    n.aliases == Some(*a),
                    k <= a@.len(),
                    forall|m: int| 0 <= m < k ==> (#[trigger] a@[m])@ != alias@,
                decreases a.len() - k,
            {
                if a[k] == *alias {
                    assert((a@[k as int])@ == alias@);
                    assert(n.aliases matches Some(b) && b == *a);
                    return true;
                }
                k = k + 1;
            }
            false
        },
    }
}

/// Round trip: loading the JSON value of a registry succeeds and gives that
/// registry back, equal field for field.
pub proof fn lemma_round_trip(doc: NetworksRegistry, j: Json, back: NetworksRegistry)
    requires
        registry_dec(j, doc),
        registry_dec(j, back),
    ensures
        exists|x: NetworksRegistry| registry_dec(j, x),
        same_registry(doc, back),
{
    lemma_registry_unique(j, doc, back);
}

impl std::str::FromStr for NetworksRegistry {
    type Err = Error;

    fn from_str(s: &str) -> Result<NetworksRegistry, Error> {
        NetworksRegistry::from_json(s)
    }
}

impl NetworksRegistry {
    /// The URL of the latest compatible registry on the default host.
    pub fn get_latest_version_url() -> (r: String)
        ensures
            r@ == registry_url(REGISTRY_BASE_URL@, RegistryVersion::Latest),
    {
        RegistryVersion::Latest.get_url()
    }

    /// The URL of registry version `version` (e.g. "v0.5.0") on the default host.
    pub fn get_exact_version_url(version: &str) -> (r: String)
        ensures
            r@ == registry_url(REGISTRY_BASE_URL@, RegistryVersion::Exact(version)),
    {
        RegistryVersion::Exact(version).get_url()
    }

    /// The registry that a parsed JSON value holds.
    pub fn from_json_value(j: &Json) -> (r: Result<NetworksRegistry, Error>)
        ensures
            r is Ok <==> exists|x: NetworksRegistry| registry_dec(*j, x),
            r matches Ok(x) ==> registry_dec(*j, x),
            r is Err ==> r matches Err(Error::Parse(ParseError::Schema)),
    {
        match decode_registry(j) {
            Some(x) => Ok(x),
            None => Err(Error::Parse(ParseError::Schema)),
        }
    }

    /// The JSON value of this registry, members named as on the wire; absent
    /// optional fields are `null`.
    pub fn to_json_value(&self) -> (r: Json)
        ensures
            registry_dec(r, *self),
    {
        encode_registry(self)
    }

    /// Loads a registry from JSON text.
    pub fn from_json(json: &str) -> (r: Result<NetworksRegistry, Error>)
        ensures
            loads(json@, r),
            json@.len() == 0 ==> r matches Err(Error::Parse(ParseError::Syntax(_))),
    {
        match parse_json(json) {
            Ok(j) => Self::from_json_value(&j),
            Err(message) => Err(Error::Parse(ParseError::Syntax(message))),
        }
    }

    /// The first network whose id is `id`.
    pub fn get_network_by_id<'a>(&'a self, id: &str) -> (r: Option<&'a Network>)
        ensures
            r is None <==> forall|i: int|
                0 <= i < self.networks@.len() ==> (#[trigger] self.networks@[i]).id@ != id@,
            r matches Some(n) ==> exists|i: int|
                first_with_id(self.networks@, id@, i) && self.networks@[i] == *n,
    {
        let key = id.to_owned();
        let mut i: usize = 0;
        while i < self.networks.len()
            invariant
                key@ == id@,
                i <= self.networks@.len(),
                forall|k: int| 0 <= k < i ==> (#[trigger] self.networks@[k]).id@ != id@,
            decreases self.networks.len() - i,
        {
            if self.networks[i].id == key {
                assert(first_with_id(self.networks@, id@, i as int));
                return Some(&self.networks[i]);
            }
            i = i + 1;
        }
        None
    }

    /// The first network that has `alias` among its aliases.
    pub fn get_network_by_alias<'a>(&'a self, alias: &str) -> (r: Option<&'a Network>)
        ensures
            r is None <==> forall|i: int|
                0 <= i < self.networks@.len() ==> !has_alias(#[trigger] self.networks@[i], alias@),
            r matches Some(n) ==> exists|i: int|
                first_with_alias(self.networks@, alias@, i) && self.networks@[i] == *n,
    {
        let key = alias.to_owned();
        let mut i: usize = 0;
        while i < self.networks.len()
            invariant
                key@ == alias@,
                i <= self.networks@.len(),
                forall|k: int| 0 <= k < i ==> !has_alias(#[trigger] self.networks@[k], alias@),
            decreases self.networks.len() - i,
        {
            if network_has_alias(&self.networks[i], &key) {
                assert(first_with_alias(self.networks@, alias@, i as int));
                return Some(&self.networks[i]);
            }
            i = i + 1;
        }
        None
    }

    /// The network that `graph_id` names: the first with that id, else the
    /// first with that alias; an id takes precedence over an alias.
    pub fn get_network_by_graph_id<'a>(&'a self, graph_id: &str) -> (r: Option<&'a Network>)
        ensures
            (exists|i: int| first_with_id(self.networks@, graph_id@, i)) ==> (r matches Some(n)
                && exists|i: int| first_with_id(self.networks@, graph_id@, i) && self.networks@[i] == *n),
            !(exists|i: int| first_with_id(self.networks@, graph_id@, i)) ==> {
                &&& r is None <==> forall|i: int|
                    0 <= i < self.networks@.len() ==> !has_alias(#[trigger] self.networks@[i], graph_id@)
                &&& r matches Some(n) ==> exists|i: int|
                    first_with_alias(self.networks@, graph_id@, i) && self.networks@[i] == *n
            },
    {
        match self.get_network_by_id(graph_id) {
            Some(n) => Some(n),
            None => {
                assert forall|i: int| !first_with_id(self.networks@, graph_id@, i) by {
                    if 0 <= i < self.networks@.len() {
                        assert(self.networks@[i].id@ != graph_id@);
                    }
                }
                self.get_network_by_alias(graph_id)
            },
        }
    }
}

} // verus!
