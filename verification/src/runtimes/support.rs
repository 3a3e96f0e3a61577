use vstd::prelude::*;
use vstd::string::StringExecFns;

verus! {

pub type ChainPrefix = u16;

/// Seconds between two blocks on every supported chain.
pub const BLOCK_TIME_SECS: u64 = 6;

/// The relay chains the application can follow.
#[derive(Clone, Copy, Debug, PartialEq, Eq, Structural)]
pub enum SupportedRelayRuntime {
    Polkadot,
    Kusama,
    Paseo,
}

impl SupportedRelayRuntime {
    pub open spec fn spec_chain_prefix(self) -> ChainPrefix {
        match self {
            Self::Polkadot => 0,
            Self::Kusama => 2,
            Self::Paseo => 0,
        }
    }

    pub open spec fn spec_default_rpc_url(self) -> Seq<char> {
        match self {
            Self::Polkadot => "wss://rpc.ibp.network:443/polkadot"@,
            Self::Kusama => "wss://rpc.ibp.network:443/kusama"@,
            Self::Paseo => "wss://rpc.ibp.network:443/paseo"@,
        }
    }

    pub open spec fn spec_default_people_rpc_url(self) -> Seq<char> {
        match self {
            Self::Polkadot => "wss://sys.ibp.network:443/people-polkadot"@,
            Self::Kusama => "wss://sys.ibp.network:443/people-kusama"@,
            Self::Paseo => "wss://sys.ibp.network:443/people-paseo"@,
        }
    }

    pub open spec fn spec_default_asset_hub_rpc_url(self) -> Seq<char> {
        match self {
            Self::Polkadot => "wss://sys.ibp.network:443/asset-hub-polkadot"@,
            Self::Kusama => "wss://sys.ibp.network:443/asset-hub-kusama"@,
            Self::Paseo => "wss://sys.ibp.network:443/asset-hub-paseo"@,
        }
    }

    pub open spec fn spec_unit(self) -> Seq<char> {
        match self {
            Self::Polkadot => "DOT"@,
            Self::Kusama => "KSM"@,
            Self::Paseo => "PAS"@,
        }
    }

    pub open spec fn spec_decimals(self) -> u16 {
        match self {
            Self::Polkadot => 10,
            Self::Kusama => 12,
            Self::Paseo => 10,
        }
    }

    /// The chain's name as it is shown.
    pub open spec fn spec_name(self) -> Seq<char> {
        match self {
            Self::Polkadot => "Polkadot"@,
            Self::Kusama => "Kusama"@,
            Self::Paseo => "Paseo"@,
        }
    }

    /// The chain's name in lower case, as used in style classes, storage
    /// keys and explorer links.
    pub open spec fn spec_class(self) -> Seq<char> {
        match self {
            Self::Polkadot => "polkadot"@,
            Self::Kusama => "kusama"@,
            Self::Paseo => "paseo"@,
        }
    }

    pub fn _chain_prefix(&self) -> (r: ChainPrefix)
        ensures
            r == self.spec_chain_prefix(),
    {
        match self {
            Self::Polkadot => 0,
            Self::Kusama => 2,
            Self::Paseo => 0,
        }
    }

    pub fn default_rpc_url(&self) -> (r: &'static str)
        ensures
            r@ == self.spec_default_rpc_url(),
    {
        match self {
            Self::Polkadot => "wss://rpc.ibp.network:443/polkadot",
            Self::Kusama => "wss://rpc.ibp.network:443/kusama",
            Self::Paseo => "wss://rpc.ibp.network:443/paseo",
        }
    }

    pub fn default_people_rpc_url(&self) -> (r: &'static str)
        ensures
            r@ == self.spec_default_people_rpc_url(),
    {
        match self {
            Self::Polkadot => "wss://sys.ibp.network:443/people-polkadot",
            Self::Kusama => "wss://sys.ibp.network:443/people-kusama",
            Self::Paseo => "wss://sys.ibp.network:443/people-paseo",
        }
    }

    pub fn default_asset_hub_rpc_url(&self) -> (r: &'static str)
        ensures
            r@ == self.spec_default_asset_hub_rpc_url(),
    {
        match self {
            Self::Polkadot => "wss://sys.ibp.network:443/asset-hub-polkadot",
            Self::Kusama => "wss://sys.ibp.network:443/asset-hub-kusama",
            Self::Paseo => "wss://sys.ibp.network:443/asset-hub-paseo",
        }
    }

    pub fn unit(&self) -> (r: &'static str)
        ensures
            r@ == self.spec_unit(),
    {
        match self {
            Self::Polkadot => "DOT",
            Self::Kusama => "KSM",
            Self::Paseo => "PAS",
        }
    }

    pub fn decimals(&self) -> (r: u16)
        ensures
            r == self.spec_decimals(),
            2 <= r <= 12,
    {
        match self {
            Self::Polkadot => 10,
            Self::Kusama => 12,
            Self::Paseo => 10,
        }
    }

    pub fn name(&self) -> (r: &'static str)
        ensures
            r@ == self.spec_name(),
    {
        match self {
            Self::Polkadot => "Polkadot",
            Self::Kusama => "Kusama",
            Self::Paseo => "Paseo",
        }
    }

    pub fn to_string(&self) -> (r: String)
        ensures
            r@ == self.spec_name(),
    {
        String::from_str(self.name())
    }

    pub fn class(&self) -> (r: String)
        ensures
            r@ == self.spec_class(),
    {
        match self {
            Self::Polkadot => String::from_str("polkadot"),
            Self::Kusama => String::from_str("kusama"),
            Self::Paseo => String::from_str("paseo"),
        }
    }

    /// The chain that a ticker or a name in one of its usual spellings
    /// stands for.
    pub open spec fn spec_from_name(name: Seq<char>) -> Option<Self> {
        if name == "Polkadot"@ || name == "polkadot"@ || name == "DOT"@ {
            Some(Self::Polkadot)
        } else if name == "Kusama"@ || name == "kusama"@ || name == "KSM"@ {
            Some(Self::Kusama)
        } else if name == "Paseo"@ || name == "paseo"@ || name == "PAS"@ {
            Some(Self::Paseo)
        } else {
            None
        }
    }

    pub fn from_name(name: &str) -> (r: Option<Self>)
        ensures
            r == Self::spec_from_name(name@),
    {
        if str_eq(name, "Polkadot") || str_eq(name, "polkadot") || str_eq(name, "DOT") {
            Some(Self::Polkadot)
        } else if str_eq(name, "Kusama") || str_eq(name, "kusama") || str_eq(name, "KSM") {
            Some(Self::Kusama)
        } else if str_eq(name, "Paseo") || str_eq(name, "paseo") || str_eq(name, "PAS") {
            Some(Self::Paseo)
        } else {
            None
        }
    }

    pub open spec fn spec_from_chain_prefix(prefix: ChainPrefix) -> Option<Self> {
        if prefix == 0 {
            Some(Self::Polkadot)
        } else if prefix == 2 {
            Some(Self::Kusama)
        } else {
            None
        }
    }

    pub fn from_chain_prefix(prefix: ChainPrefix) -> (r: Option<Self>)
        ensures
            r == Self::spec_from_chain_prefix(prefix),
    {
        if prefix == 0 {
            Some(Self::Polkadot)
        } else if prefix == 2 {
            Some(Self::Kusama)
        } else {
            None
        }
    }
}

impl Default for SupportedRelayRuntime {
    fn default() -> (r: Self)
        ensures
            r == SupportedRelayRuntime::Polkadot,
    {
        SupportedRelayRuntime::Polkadot
    }
}

/// Whether two texts hold the same characters.
pub fn str_eq(a: &str, b: &str) -> (r: bool)
    ensures
        r == (a@ == b@),
{
    let n = a.unicode_len();
    if n != b.unicode_len() {
        return false;
    }
    let mut i: usize = 0;
    while i < n
        invariant
            n == a@.len(),
            n == b@.len(),
            i <= n,
            forall|j: int| 0 <= j < i ==> a@[j] == b@[j],
        decreases n - i,
    {
        if a.get_char(i) != b.get_char(i) {
            return false;
        }
        i += 1;
    }
    assert(a@ =~= b@);
    true
}

} // verus!
