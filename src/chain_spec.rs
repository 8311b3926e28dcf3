use vstd::prelude::*;

verus! {

/// Extensions of a parachain's chain spec.
#[derive(Debug, Clone, PartialEq)]
pub struct Extensions {
    /// The relay chain of the parachain.
    pub relay_chain: String,
    /// The id of the parachain.
    pub para_id: u32,
}

impl Extensions {
    pub fn new(relay_chain: String, para_id: u32) -> (r: Extensions)
        ensures
            r.relay_chain@ == relay_chain@,
            r.para_id == para_id,
    {
        Extensions { relay_chain, para_id }
    }
}

/// The runtime whose chain spec a JSON file is read as.
#[derive(Clone, Copy, Debug, PartialEq, Eq, Structural)]
pub enum ChainSpecKind {
    Polkadot,
    Kusama,
    AssetHubPolkadot,
}

/// A chain-spec file and the runtime to read it as.
#[derive(Debug, Clone, PartialEq)]
pub struct ChainSpecFile {
    pub path: String,
    pub kind: ChainSpecKind,
}

pub open spec fn has_prefix(s: Seq<char>, prefix: Seq<char>) -> bool {
    prefix.len() <= s.len() && s.subrange(0, prefix.len() as int) == prefix
}

/// The runtime chosen for a chain spec that declares the id `id`.
pub open spec fn kind_for_id(id: Seq<char>) -> ChainSpecKind {
    if has_prefix(id, "polkadot"@) || has_prefix(id, "dot"@) {
        ChainSpecKind::Kusama
    } else if has_prefix(id, "kusama"@) || has_prefix(id, "ksm"@) {
        ChainSpecKind::Kusama
    } else if has_prefix(id, "asset-hub-polkadot"@) {
        ChainSpecKind::AssetHubPolkadot
    } else {
        ChainSpecKind::Polkadot
    }
}

/// Whether `s` starts with `prefix`.
pub fn starts_with(s: &str, prefix: &str) -> (r: bool)
    ensures
        r == has_prefix(s@, prefix@),
{
    let n = prefix.unicode_len();
    if n > s.unicode_len() {
        return false;
    }
    let mut i: usize = 0;
    while i < n
        invariant
            n == prefix@.len(),
            n <= s@.len(),
            0 <= i <= n,
            forall|k: int| 0 <= k < i ==> s@[k] == prefix@[k],
        decreases n - i,
    {
        if s.get_char(i) != prefix.get_char(i) {
            assert(s@.subrange(0, n as int)[i as int] != prefix@[i as int]);
            return false;
        }
        i = i + 1;
    }
    assert(s@.subrange(0, n as int) =~= prefix@);
    true
}

/// Chooses how the chain-spec file at `filepath` is to be read, once a first
/// reading as a Polkadot chain spec has given its declared `id`.
pub fn from_json_file(filepath: &str, id: &str) -> (r: ChainSpecFile)
    ensures
        r.path@ == filepath@,
        r.kind == kind_for_id(id@),
{
    let kind = if starts_with(id, "polkadot") || starts_with(id, "dot") {
        ChainSpecKind::Kusama
    } else if starts_with(id, "kusama") || starts_with(id, "ksm") {
        ChainSpecKind::Kusama
    } else if starts_with(id, "asset-hub-polkadot") {
        ChainSpecKind::AssetHubPolkadot
    } else {
        ChainSpecKind::Polkadot
    };
    ChainSpecFile { path: filepath.to_owned(), kind }
}

} // verus!
