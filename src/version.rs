//! Registry URLs of a version specifier on a host, and the hosts themselves.

use vstd::prelude::*;
use vstd::string::StrSliceExecFns;
use vstd::string::StringExecFns;

verus! {

/// Schema version of this client as `{major}_{minor}`; the URL of the
/// latest compatible registry embeds it.
pub const SCHEMA_VERSION: &'static str = "0_5";

/// Default host of the registry.
pub const REGISTRY_BASE_URL: &'static str = "https://networks-registry.thegraph.com";

/// Default mirror, asked when the registry host fails.
pub const FALLBACK_BASE_URL: &'static str =
    "https://raw.githubusercontent.com/graphprotocol/networks-registry/refs/heads/main/public";

/// Which registry document to ask for.
#[derive(Debug, Clone, Copy)]
pub enum RegistryVersion<'a> {
    /// Latest version compatible with this client (v{major}.{minor}.x)
    Latest,
    /// Specific version (e.g., v0.5.3)
    Exact(&'a str),
}

/// `s` with every `.` replaced by `_`.
pub open spec fn underscored(s: Seq<char>) -> Seq<char> {
    s.map_values(|c: char| if c == '.' { '_' } else { c })
}

/// The URL of the document that `version` names under `base`.
pub open spec fn registry_url(base: Seq<char>, version: RegistryVersion) -> Seq<char> {
    match version {
        RegistryVersion::Latest => base + "/TheGraphNetworksRegistry_v"@ + SCHEMA_VERSION@
            + "_x.json"@,
        RegistryVersion::Exact(v) => base + "/TheGraphNetworksRegistry_"@ + underscored(v@)
            + ".json"@,
    }
}

/// Appends `s` to `out`, with every `.` replaced by `_`.
fn append_underscored(out: &mut String, s: &str)
    ensures
        final(out)@ == old(out)@ + underscored(s@),
{
    let n = s.unicode_len();
    let mut i: usize = 0;
    while i < n
        invariant
            n == s@.len(),
            i <= n,
            out@ == old(out)@ + underscored(s@.subrange(0, i as int)),
        decreases n - i,
    {
        let c = s.get_char(i);
        if c == '.' {
            out.append("_");
        } else {
            out.append(s.substring_char(i, i + 1));
        }
        proof {
            reveal_strlit("_");
            assert(underscored(s@.subrange(0, i + 1)) =~= underscored(s@.subrange(0, i as int))
                + seq![if c == '.' { '_' } else { c }]);
        }
        i = i + 1;
    }
    assert(s@.subrange(0, n as int) =~= s@);
}

/// The URL of the registry document that `version` names, under the host `base`.
pub fn resolve_url(base: &str, version: &RegistryVersion) -> (r: String)
    ensures
        r@ == registry_url(base@, *version),
{
    let mut r = base.to_owned();
    match version {
        RegistryVersion::Latest => {
            r.append("/TheGraphNetworksRegistry_v");
            r.append(SCHEMA_VERSION);
            r.append("_x.json");
        },
        RegistryVersion::Exact(v) => {
            r.append("/TheGraphNetworksRegistry_");
            append_underscored(&mut r, v);
            r.append(".json");
        },
    }
    r
}


/// The pair of hosts that a fetch asks: the registry host first, then its mirror.
#[derive(Debug, Clone)]
pub struct BaseUrls {
    pub primary: String,
    pub fallback: String,
}

impl BaseUrls {
    /// The hosts of a production build.
    pub fn new() -> (r: BaseUrls)
        ensures
            r.primary@ == REGISTRY_BASE_URL@,
            r.fallback@ == FALLBACK_BASE_URL@,
    {
        BaseUrls { primary: get_registry_base_url(), fallback: get_fallback_base_url() }
    }
}

/// The default registry host.
pub fn get_registry_base_url() -> (r: String)
    ensures
        r@ == REGISTRY_BASE_URL@,
{
    REGISTRY_BASE_URL.to_owned()
}

/// The default mirror host.
pub fn get_fallback_base_url() -> (r: String)
    ensures
        r@ == FALLBACK_BASE_URL@,
{
    FALLBACK_BASE_URL.to_owned()
}

/// Points `urls` at other hosts (a local test server, say).
pub fn set_base_urls(urls: &mut BaseUrls, base_url: &str, fallback_url: &str)
    ensures
        final(urls).primary@ == base_url@,
        final(urls).fallback@ == fallback_url@,
{
    urls.primary = base_url.to_owned();
    urls.fallback = fallback_url.to_owned();
}

impl<'a> RegistryVersion<'a> {
    /// The URL of this version on the default registry host.
    pub fn get_url(&self) -> (r: String)
        ensures
            r@ == registry_url(REGISTRY_BASE_URL@, *self),
    {
        self.get_primary_url()
    }

    /// The URL of this version on the default registry host.
    pub fn get_primary_url(&self) -> (r: String)
        ensures
            r@ == registry_url(REGISTRY_BASE_URL@, *self),
    {
        resolve_url(REGISTRY_BASE_URL, self)
    }

    /// The URL of this version on the default mirror.
    pub fn get_fallback_url(&self) -> (r: String)
        ensures
            r@ == registry_url(FALLBACK_BASE_URL@, *self),
    {
        resolve_url(FALLBACK_BASE_URL, self)
    }
}

} // verus!
