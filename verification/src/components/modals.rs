use vstd::prelude::*;
use vstd::string::StringExecFns;
use crate::state::{Action, ActionView};
use crate::types::accounts::Address;
use crate::types::claims::{ClaimState, ClaimStatus};
use crate::types::extensions::{
    contains_account, lists_account, Extension, ExtensionAccount, ExtensionState, ExtensionStatus,
};
use crate::types::layout::LayoutState;

verus! {

/// Shown when a wallet answers with no account.
pub const NO_ACCOUNTS_MESSAGE: &'static str =
    "Please make sure the wallet extension is installed and at least one account is enabled to work with this site";

/// What the claim dialog holds of its own.
#[derive(Clone, Debug, PartialEq, Eq)]
pub struct ClaimModal {
    pub is_visible: bool,
    /// The failure shown in the dialog; empty where there is none.
    pub err: String,
    /// The accounts that the connected wallet exposes.
    pub extension_accounts: Vec<ExtensionAccount>,
}

/// What the claim dialog asks of its surroundings.
#[derive(Clone, Debug, PartialEq, Eq)]
pub enum ModalRequest {
    Nothing,
    Dispatch(Action),
    /// Ask the named wallet for its accounts.
    GetAccounts(String),
    /// Ask the signer's wallet to sign the payload.
    Sign { payload: String, source: String, address: String },
}

/// Whether the signer is chosen and its wallet ready.
pub open spec fn can_sign(extension: ExtensionState) -> bool {
    extension.status is Ready && extension.signer is Some
}

impl ClaimModal {
    pub fn new() -> (r: Self)
        ensures
            !r.is_visible,
            r.err@.len() == 0,
            r.extension_accounts@.len() == 0,
    {
        ClaimModal { is_visible: false, err: String::new(), extension_accounts: Vec::new() }
    }

    /// What a change of the claim does to the dialog: a new claim opens
    /// it and, where a signer is remembered, connects to its wallet; a
    /// payload to sign goes to the signer's wallet and clears the shown
    /// failure; a completed claim closes the dialog and is dropped.
    pub fn on_claim(self, claim: &Option<ClaimState>, extension: &ExtensionState) -> (r: (
        ClaimModal,
        ModalRequest,
    ))
        ensures
            r.0.extension_accounts == self.extension_accounts,
            match *claim {
                Some(ClaimState { status: ClaimStatus::Initializing, .. }) => {
                    &&& r.0.is_visible
                    &&& r.0.err == self.err
                    &&& match extension.signer {
                        Some(signer) => r.1 matches ModalRequest::Dispatch(action) && action@
                            == ActionView::ConnectExtension(signer.source),
                        None => r.1 is Nothing,
                    }
                },
                Some(ClaimState { status: ClaimStatus::Signing(payload), .. }) => {
                    &&& r.0.is_visible == self.is_visible
                    &&& if can_sign(*extension) {
                        &&& r.0.err@.len() == 0
                        &&& r.1 == (ModalRequest::Sign {
                            payload,
                            source: extension.signer->0.source,
                            address: extension.signer->0.address,
                        })
                    } else {
                        r.0.err == self.err && r.1 is Nothing
                    }
                },
                Some(ClaimState { status: ClaimStatus::Completed, .. }) => {
                    &&& !r.0.is_visible
                    &&& r.0.err == self.err
                    &&& r.1 matches ModalRequest::Dispatch(action) && action@
                        == ActionView::ResetClaim
                },
                _ => r.0.is_visible == self.is_visible && r.0.err == self.err && r.1 is Nothing,
            },
    {
        match claim {
            Some(open) => match &open.status {
                ClaimStatus::Initializing => {
                    let request = match &extension.signer {
                        Some(signer) => ModalRequest::Dispatch(
                            Action::ConnectExtension(signer.source.clone()),
                        ),
                        None => ModalRequest::Nothing,
                    };
                    (
                        ClaimModal {
                            is_visible: true,
                            err: self.err,
                            extension_accounts: self.extension_accounts,
                        },
                        request,
                    )
                },
                ClaimStatus::Signing(payload) => {
                    if extension.is_ready() {
                        match &extension.signer {
                            Some(signer) => (
                                ClaimModal {
                                    is_visible: self.is_visible,
                                    err: String::new(),
                                    extension_accounts: self.extension_accounts,
                                },
                                ModalRequest::Sign {
                                    payload: payload.clone(),
                                    source: signer.source.clone(),
                                    address: signer.address.clone(),
                                },
                            ),
                            None => (self, ModalRequest::Nothing),
                        }
                    } else {
                        (self, ModalRequest::Nothing)
                    }
                },
                ClaimStatus::Completed => (
                    ClaimModal {
                        is_visible: false,
                        err: self.err,
                        extension_accounts: self.extension_accounts,
                    },
                    ModalRequest::Dispatch(Action::ResetClaim),
                ),
                _ => (self, ModalRequest::Nothing),
            },
            None => (self, ModalRequest::Nothing),
        }
    }

    /// What a change of the wallet connection asks for: while connecting,
    /// the wallet's accounts; once connected, that the signer is ready if
    /// the wallet exposes it.
    pub fn on_extension(&self, extension: &ExtensionState) -> (r: ModalRequest)
        ensures
            match extension.status {
                ExtensionStatus::Connecting(source) => r == ModalRequest::GetAccounts(source),
                ExtensionStatus::Connected => if extension.signer is Some && lists_account(
                    self.extension_accounts@,
                    extension.signer->0,
                ) {
                    r matches ModalRequest::Dispatch(action) && action@
                        == ActionView::ChangeExtensionStatus(ExtensionStatus::Ready)
                } else {
                    r is Nothing
                },
                _ => r is Nothing,
            },
    {
        match &extension.status {
            ExtensionStatus::Connecting(source) => ModalRequest::GetAccounts(source.clone()),
            ExtensionStatus::Connected => match &extension.signer {
                Some(signer) => if contains_account(&self.extension_accounts, signer) {
                    ModalRequest::Dispatch(Action::ChangeExtensionStatus(ExtensionStatus::Ready))
                } else {
                    ModalRequest::Nothing
                },
                None => ModalRequest::Nothing,
            },
            _ => ModalRequest::Nothing,
        }
    }

    /// Takes the wallet's answer to the request for its accounts: at
    /// least one account connects the wallet; none, or a failure, is
    /// shown in the dialog.
    pub fn on_accounts(self, answer: Result<Vec<ExtensionAccount>, String>) -> (r: (
        ClaimModal,
        Option<Action>,
    ))
        ensures
            r.0.is_visible == self.is_visible,
            match answer {
                Ok(accounts) => if accounts@.len() > 0 {
                    &&& r.0.extension_accounts == accounts
                    &&& r.0.err == self.err
                    &&& r.1 matches Some(action) && action@ == ActionView::ChangeExtensionStatus(
                        ExtensionStatus::Connected,
                    )
                } else {
                    &&& r.0.extension_accounts == self.extension_accounts
                    &&& r.0.err@ == NO_ACCOUNTS_MESSAGE@
                    &&& r.1 is None
                },
                Err(message) => {
                    &&& r.0.extension_accounts == self.extension_accounts
                    &&& r.0.err == message
                    &&& r.1 is None
                },
            },
    {
        match answer {
            Ok(accounts) => {
                if accounts.len() > 0 {
                    (
                        ClaimModal {
                            is_visible: self.is_visible,
                            err: self.err,
                            extension_accounts: accounts,
                        },
                        Some(Action::ChangeExtensionStatus(ExtensionStatus::Connected)),
                    )
                } else {
                    (
                        ClaimModal {
                            is_visible: self.is_visible,
                            err: String::from_str(NO_ACCOUNTS_MESSAGE),
                            extension_accounts: self.extension_accounts,
                        },
                        None,
                    )
                }
            },
            Err(message) => (
                ClaimModal {
                    is_visible: self.is_visible,
                    err: message,
                    extension_accounts: self.extension_accounts,
                },
                None,
            ),
        }
    }

    /// Takes the wallet's answer to the request for a signature: with a
    /// signature the claim is submitted; a failure is shown in the dialog
    /// and becomes the claim's status.
    pub fn on_signature(self, answer: Result<Vec<u8>, String>) -> (r: (ClaimModal, Action))
        ensures
            r.0.is_visible == self.is_visible,
            r.0.extension_accounts == self.extension_accounts,
            match answer {
                Ok(signature) => r.0.err == self.err && r.1@ == ActionView::SubmitWithSignature(
                    signature,
                ),
                Err(message) => r.0.err == message && r.1@ == ActionView::ErrorClaim(message),
            },
    {
        match answer {
            Ok(signature) => (self, Action::SubmitWithSignature(signature)),
            Err(message) => {
                let shown = message.clone();
                (
                    ClaimModal {
                        is_visible: self.is_visible,
                        err: shown,
                        extension_accounts: self.extension_accounts,
                    },
                    Action::ErrorClaim(message),
                )
            },
        }
    }

    /// Closes the dialog and drops the claim.
    pub fn cancel(self) -> (r: (ClaimModal, Action))
        ensures
            !r.0.is_visible,
            r.0.err == self.err,
            r.0.extension_accounts == self.extension_accounts,
            r.1@ == ActionView::ResetClaim,
    {
        (
            ClaimModal {
                is_visible: false,
                err: self.err,
                extension_accounts: self.extension_accounts,
            },
            Action::ResetClaim,
        )
    }

    pub fn visibility_class(&self) -> (r: &'static str)
        ensures
            r@ == if self.is_visible {
                "flex"@
            } else {
                "hidden"@
            },
    {
        if self.is_visible {
            "flex"
        } else {
            "hidden"
        }
    }
}

/// The dialog's title: it claims once a wallet is connected, and asks to
/// connect one before.
pub fn claim_modal_title(extension: &ExtensionState) -> (r: &'static str)
    ensures
        r@ == if extension.status is Connected || extension.status is Ready {
            "Claim child bounties"@
        } else {
            "Connect wallet"@
        },
{
    if extension.is_connected_or_ready() {
        "Claim child bounties"
    } else {
        "Connect wallet"
    }
}

/// The ids of the child bounties under review, in the claim's order.
pub open spec fn child_ids(ids: Seq<(u32, u32)>) -> Seq<u32> {
    ids.map_values(|pair: (u32, u32)| pair.1)
}

/// The child bounties that the dialog lists for review: those of the
/// open claim, once a wallet is connected.
pub fn review_ids(claim: &Option<ClaimState>, extension: &ExtensionState) -> (r: Vec<u32>)
    ensures
        r@ == if (extension.status is Connected || extension.status is Ready) && claim is Some {
            child_ids(claim->0.child_bounty_ids@)
        } else {
            Seq::<u32>::empty()
        },
{
    let mut out: Vec<u32> = Vec::new();
    if !extension.is_connected_or_ready() {
        return out;
    }
    match claim {
        Some(open) => {
            let ids = &open.child_bounty_ids;
            let mut i: usize = 0;
            while i < ids.len()
                invariant
                    i <= ids.len(),
                    out@ == child_ids(ids@).take(i as int),
                decreases ids.len() - i,
            {
                out.push(ids[i].1);
                assert(child_ids(ids@).take(i + 1) =~= child_ids(ids@).take(i as int).push(
                    ids@[i as int].1,
                ));
                i += 1;
            }
            assert(child_ids(ids@).take(ids@.len() as int) =~= child_ids(ids@));
            out
        },
        None => out,
    }
}

/// How the button that signs and submits shows.
#[derive(Clone, Debug, PartialEq, Eq)]
pub struct SignButtonView {
    pub disabled: bool,
    /// Whether a spinner stands before the label.
    pub busy: bool,
    pub label: String,
}

/// The button that signs and submits, where a claim is open: it can be
/// pressed while the signer is ready and the claim is not under way, and
/// shows the claim's status while it is.
pub fn sign_button(claim: &Option<ClaimState>, extension: &ExtensionState) -> (r: Option<
    SignButtonView,
>)
    ensures
        r is Some <==> claim is Some,
        r matches Some(view) ==> {
            let under_way = claim->0.status is Signing || claim->0.status is Submitting;
            &&& view.disabled == !(extension.status is Ready && !under_way)
            &&& view.busy == under_way
            &&& view.label@ == if under_way {
                claim->0.status.spec_name()
            } else {
                "Sign and Submit"@
            }
        },
{
    match claim {
        Some(open) => {
            let under_way = open.is_signing_or_submitting();
            let label = if under_way {
                open.status.to_string()
            } else {
                String::from_str("Sign and Submit")
            };
            Some(
                SignButtonView {
                    disabled: !(extension.is_ready() && !under_way),
                    busy: under_way,
                    label,
                },
            )
        },
        None => None,
    }
}

/// What pressing the button that signs and submits asks for.
pub fn sign_button_pressed() -> (r: Action)
    ensures
        r@ == ActionView::PreparePayload,
{
    Action::PreparePayload
}

/// How the button of a wallet shows: it cannot be pressed, and says so,
/// while the wallet is not installed.
#[derive(Clone, Debug, PartialEq, Eq)]
pub struct WalletButtonView {
    pub name: String,
    pub label: String,
    pub disabled: bool,
    pub caption: Option<&'static str>,
}

pub fn wallet_button(extension: &Extension) -> (r: WalletButtonView)
    ensures
        r.name == extension.name,
        r.label == extension.description,
        r.disabled == !extension.installed,
        match r.caption {
            Some(text) => !extension.installed && text@ == "Not installed"@,
            None => extension.installed,
        },
{
    WalletButtonView {
        name: extension.name.clone(),
        label: extension.description.clone(),
        disabled: !extension.installed,
        caption: if extension.installed {
            None
        } else {
            Some("Not installed")
        },
    }
}

/// What choosing an account of the wallet asks for.
pub fn signer_chosen(account: ExtensionAccount) -> (r: Action)
    ensures
        r@ == ActionView::ChangeSigner(account),
{
    Action::ChangeSigner(account)
}

/// What choosing a wallet asks for.
pub fn wallet_chosen(name: String) -> (r: Action)
    ensures
        r@ == ActionView::ConnectExtension(name),
{
    Action::ConnectExtension(name)
}

/// Whether the dialog that adds an account shows.
pub fn add_account_modal_visible(layout: &LayoutState) -> (r: bool)
    ensures
        r == layout.is_add_account_modal_visible,
{
    layout.is_add_account_modal_visible
}

/// What entering an address in the dialog asks for: the account is
/// followed and the dialog closes.
pub fn add_account_entered(address: Address) -> (r: Vec<Action>)
    ensures
        r@.len() == 2,
        r@[0]@ == ActionView::AddAccount(address),
        r@[1]@ == ActionView::ToggleLayoutAddAccountModal,
{
    let mut out: Vec<Action> = Vec::new();
    out.push(Action::AddAccount(address));
    out.push(Action::ToggleLayoutAddAccountModal);
    out
}

/// What cancelling the dialog asks for: it closes.
pub fn add_account_cancelled() -> (r: Action)
    ensures
        r@ == ActionView::ToggleLayoutAddAccountModal,
{
    Action::ToggleLayoutAddAccountModal
}

} // verus!
