use vstd::prelude::*;
use vstd::string::StringExecFns;
use crate::runtimes::utils::{decimal, decimal_text};
use crate::state::{Action, ActionView, State};
use crate::types::accounts::Address;
use crate::types::network::NetworkStatus;

verus! {

/// Milliseconds after which the last step finishes onboarding by itself.
pub const FINISH_AFTER_MILLIS: u32 = 5_000;

/// The last of the three steps, which are counted from zero.
pub const LAST_STEP: u8 = 2;

/// The wizard that guides a first visit. Its step is at most `LAST_STEP`.
#[derive(Clone, Copy, Debug, PartialEq, Eq, Structural)]
pub struct OnboardingSteps {
    step: u8,
}

impl OnboardingSteps {
    #[verifier::type_invariant]
    spec fn in_range(self) -> bool {
        self.step <= LAST_STEP
    }

    pub closed spec fn spec_step(self) -> u8 {
        self.step
    }

    /// The wizard at its first step.
    pub fn new() -> (r: Self)
        ensures
            r.spec_step() == 0,
    {
        OnboardingSteps { step: 0 }
    }

    pub fn step(&self) -> (r: u8)
        ensures
            r == self.spec_step(),
            r <= LAST_STEP,
    {
        proof {
            use_type_invariant(self);
        }
        self.step
    }

    /// Forward: to the next step, or out of onboarding from the last.
    pub fn next(self) -> (r: (Self, Option<Action>))
        ensures
            if self.spec_step() == LAST_STEP {
                r.0 == self && (r.1 matches Some(action) && action@ == ActionView::FinishOnboarding)
            } else {
                r.0.spec_step() == self.spec_step() + 1 && r.1 is None
            },
    {
        proof {
            use_type_invariant(self);
        }
        if self.step == LAST_STEP {
            (self, Some(Action::FinishOnboarding))
        } else {
            (OnboardingSteps { step: self.step + 1 }, None)
        }
    }

    /// Back: to the step before, and from the first to the last.
    pub fn back(self) -> (r: Self)
        ensures
            r.spec_step() == if self.spec_step() == 0 {
                LAST_STEP
            } else {
                (self.spec_step() - 1) as u8
            },
    {
        proof {
            use_type_invariant(self);
        }
        if self.step == 0 {
            OnboardingSteps { step: LAST_STEP }
        } else {
            OnboardingSteps { step: self.step - 1 }
        }
    }

    /// The timer to start on reaching a step: the last step finishes
    /// onboarding after `FINISH_AFTER_MILLIS`.
    pub fn timer(&self) -> (r: Option<u32>)
        ensures
            r == if self.spec_step() == LAST_STEP {
                Some(FINISH_AFTER_MILLIS)
            } else {
                None
            },
    {
        if self.step == LAST_STEP {
            Some(FINISH_AFTER_MILLIS)
        } else {
            None
        }
    }

    /// Going back is offered on every step but the first.
    pub fn is_back_disabled(&self) -> (r: bool)
        ensures
            r == (self.spec_step() == 0),
    {
        self.step == 0
    }

    /// Going forward waits for the network, and on the step that takes an
    /// address for at least one followed account.
    pub fn is_next_disabled(&self, state: &State) -> (r: bool)
        ensures
            r == (self.spec_step() == 1 && state.accounts@.len() == 0 || state.network.fetches_counter
                > 0 || state.network.status == NetworkStatus::Initializing),
    {
        (self.step == 1 && state.accounts.len() == 0) || state.network.is_fetching()
            || state.network.is_initializing()
    }

    /// Whether the dot of a step is filled: those of the steps reached.
    pub fn is_dot_filled(&self, dot: u8) -> (r: bool)
        ensures
            r == (dot <= self.spec_step()),
    {
        dot <= self.step
    }

    pub open spec fn spec_title(self) -> Seq<char> {
        if self.spec_step() == 0 {
            "Follow up on your Child Bounties."@
        } else if self.spec_step() == 1 {
            "Is your Child Bounty not live yet?"@
        } else {
            "You're all set!"@
        }
    }

    pub fn title(&self) -> (r: &'static str)
        ensures
            r@ == self.spec_title(),
    {
        if self.step == 0 {
            "Follow up on your Child Bounties."
        } else if self.step == 1 {
            "Is your Child Bounty not live yet?"
        } else {
            "You're all set!"
        }
    }

    pub open spec fn spec_subtitle(self, followed: nat) -> Seq<char> {
        if self.spec_step() == 0 {
            "Choose from the open Child Bounties below and follow the ones that interest you the most."@
        } else if self.spec_step() == 1 {
            "Expecting an award soon? Enter the beneficiary address below."@
        } else {
            following_text(followed)
        }
    }

    pub fn subtitle(&self, state: &State) -> (r: String)
        ensures
            r@ == self.spec_subtitle(state.accounts@.len()),
    {
        if self.step == 0 {
            String::from_str(
                "Choose from the open Child Bounties below and follow the ones that interest you the most.",
            )
        } else if self.step == 1 {
            String::from_str("Expecting an award soon? Enter the beneficiary address below.")
        } else {
            following_message(state.accounts.len())
        }
    }
}

/// How many accounts are followed, in words: "account" for one or none,
/// "accounts" for more.
pub open spec fn following_text(followed: nat) -> Seq<char> {
    "Following "@ + decimal_text(followed) + " account"@ + (if followed > 1 {
        "s"@
    } else {
        ""@
    }) + ". Enjoy and go claim your Child Bounties!"@
}

pub fn following_message(followed: usize) -> (r: String)
    ensures
        r@ == following_text(followed as nat),
{
    let mut out = String::from_str("Following ");
    let count = decimal(followed as u128);
    out.append(count.as_str());
    out.append(" account");
    if followed > 1 {
        out.append("s");
    } else {
        out.append("");
    }
    out.append(". Enjoy and go claim your Child Bounties!");
    out
}

/// What the timer of the last step asks for when it fires.
pub fn timer_fired() -> (r: Action)
    ensures
        r@ == ActionView::FinishOnboarding,
{
    Action::FinishOnboarding
}

/// What entering an address during onboarding asks for.
pub fn address_entered(address: Address) -> (r: Action)
    ensures
        r@ == ActionView::AddAccount(address),
{
    Action::AddAccount(address)
}

} // verus!
