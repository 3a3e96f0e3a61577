use vstd::prelude::*;
use vstd::string::StringExecFns;
use rand::Rng;
use crate::runtimes::support::SupportedRelayRuntime;

verus! {

/// Names one session with the network worker.
pub type SubscriptionId = u32;

#[derive(Clone, Copy, Debug, PartialEq, Eq, Structural)]
pub enum NetworkStatus {
    Initializing,
    Active,
    Inactive,
}

impl NetworkStatus {
    pub open spec fn spec_text_class(self) -> Seq<char> {
        match self {
            Self::Initializing => "text-orange"@,
            Self::Active => "text-gray-900"@,
            Self::Inactive => "text-red"@,
        }
    }

    pub fn text_class(&self) -> (r: &'static str)
        ensures
            r@ == self.spec_text_class(),
    {
        match self {
            Self::Initializing => "text-orange",
            Self::Active => "text-gray-900",
            Self::Inactive => "text-red",
        }
    }

    pub open spec fn spec_name(self) -> Seq<char> {
        match self {
            Self::Initializing => "Initializing"@,
            Self::Active => "Active"@,
            Self::Inactive => "Inactive"@,
        }
    }

    pub fn to_string(&self) -> (r: String)
        ensures
            r@ == self.spec_name(),
    {
        match self {
            Self::Initializing => String::from_str("Initializing"),
            Self::Active => String::from_str("Active"),
            Self::Inactive => String::from_str("Inactive"),
        }
    }
}

/// One session of connectivity.
#[derive(Clone, Copy, Debug, PartialEq, Eq, Structural)]
pub struct NetworkState {
    /// Tells this session's worker messages from those of earlier ones.
    pub subscription_id: SubscriptionId,
    pub status: NetworkStatus,
    pub runtime: SupportedRelayRuntime,
    /// The latest finalized block, once one was seen.
    pub finalized_block_number: Option<u32>,
    /// Fetches under way.
    pub fetches_counter: u32,
    /// Connect through the light client rather than an RPC provider.
    pub use_light_client_as_network_provider: bool,
}

/// `gen` of rand's thread-local generator: some `u32`.
#[verifier::external_body]
fn random_subscription_id() -> (id: SubscriptionId) {
    let mut rng = rand::thread_rng();
    rng.gen::<SubscriptionId>()
}

impl NetworkState {
    /// The state a session starts in.
    pub open spec fn fresh(
        subscription_id: SubscriptionId,
        runtime: SupportedRelayRuntime,
        use_light_client: bool,
    ) -> NetworkState {
        NetworkState {
            subscription_id,
            status: NetworkStatus::Initializing,
            runtime,
            finalized_block_number: None,
            fetches_counter: 0,
            use_light_client_as_network_provider: use_light_client,
        }
    }

    /// A new session under the given id.
    pub fn with_subscription_id(
        subscription_id: SubscriptionId,
        runtime: SupportedRelayRuntime,
        use_light_client: bool,
    ) -> (r: Self)
        ensures
            r == Self::fresh(subscription_id, runtime, use_light_client),
    {
        Self {
            subscription_id,
            status: NetworkStatus::Initializing,
            runtime,
            finalized_block_number: None,
            fetches_counter: 0,
            use_light_client_as_network_provider: use_light_client,
        }
    }

    /// A new session under an id drawn at random.
    pub fn new(runtime: SupportedRelayRuntime, use_light_client: bool) -> (r: Self)
        ensures
            r == Self::fresh(r.subscription_id, runtime, use_light_client),
    {
        Self::with_subscription_id(random_subscription_id(), runtime, use_light_client)
    }

    pub fn is_initializing(&self) -> (r: bool)
        ensures
            r == (self.status == NetworkStatus::Initializing),
    {
        self.status == NetworkStatus::Initializing
    }

    pub fn is_active(&self) -> (r: bool)
        ensures
            r == (self.status == NetworkStatus::Active),
    {
        self.status == NetworkStatus::Active
    }

    pub fn is_fetching(&self) -> (r: bool)
        ensures
            r == (self.fetches_counter > 0),
    {
        self.fetches_counter > 0
    }

    pub fn is_initializing_description(&self) -> (r: &'static str)
        ensures
            r@ == "Initializing network. Hang tight..."@,
    {
        "Initializing network. Hang tight..."
    }

    pub fn is_fetching_description(&self) -> (r: &'static str)
        ensures
            r@ == "Retrieving just for you, the most recent child bounties state. Hang tight..."@,
    {
        "Retrieving just for you, the most recent child bounties state. Hang tight..."
    }

    pub open spec fn spec_is_busy(self) -> bool {
        self.status != NetworkStatus::Active || self.fetches_counter > 0
    }

    pub fn is_busy(&self) -> (r: bool)
        ensures
            r == self.spec_is_busy(),
    {
        !self.is_active() || self.is_fetching()
    }

    pub fn is_ligh_client(&self) -> (r: bool)
        ensures
            r == self.use_light_client_as_network_provider,
    {
        self.use_light_client_as_network_provider
    }

    pub fn _class(&self) -> (r: String)
        ensures
            r@ == self.runtime.spec_class(),
    {
        self.runtime.class()
    }

    pub fn provider_description(&self) -> (r: &'static str)
        ensures
            r@ == if self.use_light_client_as_network_provider {
                "Connected via light client"@
            } else {
                "Connected via RPC (IBP provider)"@
            },
    {
        if self.use_light_client_as_network_provider {
            "Connected via light client"
        } else {
            "Connected via RPC (IBP provider)"
        }
    }

    /// Whether a worker message tagged `subscription_id` belongs to this
    /// session. Messages of an abandoned session are to be dropped.
    pub fn is_current(&self, subscription_id: SubscriptionId) -> (r: bool)
        ensures
            r == (self.subscription_id == subscription_id),
    {
        self.subscription_id == subscription_id
    }
}

} // verus!
