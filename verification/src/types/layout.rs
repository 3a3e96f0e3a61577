use vstd::prelude::*;

verus! {

/// Which total the balance readouts show.
#[derive(Clone, Copy, Debug, PartialEq, Eq, Structural)]
pub enum BalanceMode {
    TotalBalance,
    TotalAwarded,
    TotalPending,
    TotalClaimable,
}

/// Flags of the user interface.
#[derive(Clone, Copy, Debug, PartialEq, Eq, Structural)]
pub struct LayoutState {
    pub is_add_account_modal_visible: bool,
    pub is_onboarding: bool,
    pub balance_mode: BalanceMode,
}

impl LayoutState {
    pub fn new(is_onboarding: bool) -> (r: Self)
        ensures
            r == (LayoutState {
                is_add_account_modal_visible: false,
                is_onboarding,
                balance_mode: BalanceMode::TotalBalance,
            }),
    {
        Self {
            is_add_account_modal_visible: false,
            is_onboarding,
            balance_mode: BalanceMode::TotalBalance,
        }
    }

    pub fn is_total_balance_mode(&self) -> (r: bool)
        ensures
            r == (self.balance_mode == BalanceMode::TotalBalance),
    {
        self.balance_mode == BalanceMode::TotalBalance
    }

    pub fn is_total_awarded_mode(&self) -> (r: bool)
        ensures
            r == (self.balance_mode == BalanceMode::TotalAwarded),
    {
        self.balance_mode == BalanceMode::TotalAwarded
    }

    pub fn is_total_pending_mode(&self) -> (r: bool)
        ensures
            r == (self.balance_mode == BalanceMode::TotalPending),
    {
        self.balance_mode == BalanceMode::TotalPending
    }

    pub fn is_total_claimable_mode(&self) -> (r: bool)
        ensures
            r == (self.balance_mode == BalanceMode::TotalClaimable),
    {
        self.balance_mode == BalanceMode::TotalClaimable
    }
}

} // verus!
