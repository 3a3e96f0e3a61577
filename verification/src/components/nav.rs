use vstd::prelude::*;
use vstd::string::StringExecFns;
use crate::components::buttons::{
    network_provider_icon_button, network_subscriber, switch_target, NetworkSwitchView,
    ProviderButtonView,
};
use crate::runtimes::support::SupportedRelayRuntime;
use crate::runtimes::utils::{grouped, grouped_text};
use crate::state::State;
use crate::types::network::NetworkStatus;

verus! {

/// The bar at the top.
#[derive(Clone, Debug, PartialEq, Eq)]
pub struct NavbarView {
    /// Whether the hint shows that the light client synchronizes.
    pub synchronizing: bool,
    /// Whether the spinner shows: a fetch is under way.
    pub busy: bool,
    /// The latest finalized block, grouped by thousands behind `#`.
    pub block: Option<String>,
    /// Name of the chain.
    pub chain: &'static str,
    /// Style class of the chain.
    pub class: String,
    pub provider: ProviderButtonView,
}

/// A block number as the bar shows it.
pub open spec fn block_text(number: u32) -> Seq<char> {
    "#"@ + grouped_text(number as nat)
}

pub fn navbar(state: &State, runtime: SupportedRelayRuntime) -> (r: NavbarView)
    ensures
        r.synchronizing == (state.network.use_light_client_as_network_provider
            && state.network.status == NetworkStatus::Initializing),
        r.busy == (state.network.fetches_counter > 0),
        match state.network.finalized_block_number {
            Some(number) => r.block matches Some(text) && text@ == block_text(number),
            None => r.block is None,
        },
        r.chain@ == runtime.spec_name(),
        r.class@ == runtime.spec_class(),
        r.provider.light_client == state.network.use_light_client_as_network_provider,
        r.provider.color@ == state.network.status.spec_text_class(),
        r.provider.tooltip@ == if state.network.use_light_client_as_network_provider {
            "Connected via light client"@
        } else {
            "Connected via RPC (IBP provider)"@
        },
{
    let block = match state.network.finalized_block_number {
        Some(number) => {
            let mut text = String::from_str("#");
            let digits = grouped(number as u128);
            text.append(digits.as_str());
            Some(text)
        },
        None => None,
    };
    NavbarView {
        synchronizing: state.network.is_ligh_client() && state.network.is_initializing(),
        busy: state.network.is_fetching(),
        block,
        chain: runtime.name(),
        class: runtime.class(),
        provider: network_provider_icon_button(state),
    }
}

/// The switch between chains in the footer.
pub fn footer(state: &State, runtime: SupportedRelayRuntime) -> (r: NetworkSwitchView)
    ensures
        r.target == switch_target(runtime),
        r.disabled == (state.network.status == NetworkStatus::Initializing),
{
    network_subscriber(runtime, state)
}

} // verus!
