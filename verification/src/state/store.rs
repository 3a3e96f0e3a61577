use vstd::prelude::*;
use vstd::string::StringExecFns;
use crate::runtimes::support::SupportedRelayRuntime;
use crate::types::accounts::{views, Account, AccountView};
use crate::types::extensions::ExtensionAccount;

verus! {

/// Name under which the application keeps its entries in local storage.
pub const APP_NAME: &'static str = "claimeer";

pub const ACCOUNTS_KEY: &'static str = "accounts";

pub const SIGNER_KEY: &'static str = "signer";

pub const ONBOARDED_KEY: &'static str = "onboarded";

/// The key of a chain's entry in local storage: name of the application,
/// chain in lower case and name of the entry, joined by `::`.
pub open spec fn storage_key_text(runtime: SupportedRelayRuntime, entry: Seq<char>) -> Seq<char> {
    APP_NAME@ + "::"@ + runtime.spec_class() + "::"@ + entry
}

fn storage_key(runtime: SupportedRelayRuntime, entry: &str) -> (r: String)
    ensures
        r@ == storage_key_text(runtime, entry@),
{
    let mut out = String::from_str(APP_NAME);
    out.append("::");
    let class = runtime.class();
    out.append(class.as_str());
    out.append("::");
    out.append(entry);
    out
}

pub fn account_key(runtime: SupportedRelayRuntime) -> (r: String)
    ensures
        r@ == storage_key_text(runtime, ACCOUNTS_KEY@),
{
    storage_key(runtime, ACCOUNTS_KEY)
}

pub fn signer_key(runtime: SupportedRelayRuntime) -> (r: String)
    ensures
        r@ == storage_key_text(runtime, SIGNER_KEY@),
{
    storage_key(runtime, SIGNER_KEY)
}

pub fn onboarded_key(runtime: SupportedRelayRuntime) -> (r: String)
    ensures
        r@ == storage_key_text(runtime, ONBOARDED_KEY@),
{
    storage_key(runtime, ONBOARDED_KEY)
}

/// What local storage holds for one chain.
#[derive(Clone, Debug, PartialEq, Eq)]
pub struct ChainSlice {
    /// The followed accounts.
    pub accounts: Vec<Account>,
    /// The signer chosen last.
    pub signer: Option<ExtensionAccount>,
    /// Whether onboarding was completed.
    pub onboarded: bool,
}

pub struct ChainSliceView {
    pub accounts: Seq<AccountView>,
    pub signer: Option<ExtensionAccount>,
    pub onboarded: bool,
}

impl View for ChainSlice {
    type V = ChainSliceView;

    open spec fn view(&self) -> ChainSliceView {
        ChainSliceView {
            accounts: views(self.accounts@),
            signer: self.signer,
            onboarded: self.onboarded,
        }
    }
}

impl ChainSlice {
    /// A slice from what was read, with the defaults for what was missing
    /// or unreadable: no accounts, no signer, not onboarded.
    pub fn from_reads(
        accounts: Option<Vec<Account>>,
        signer: Option<ExtensionAccount>,
        onboarded: Option<bool>,
    ) -> (r: Self)
        ensures
            r.accounts@ == match accounts {
                Some(list) => list@,
                None => Seq::<Account>::empty(),
            },
            r.signer == signer,
            r.onboarded == match onboarded {
                Some(flag) => flag,
                None => false,
            },
    {
        ChainSlice {
            accounts: match accounts {
                Some(list) => list,
                None => Vec::new(),
            },
            signer,
            onboarded: match onboarded {
                Some(flag) => flag,
                None => false,
            },
        }
    }
}

/// Local storage as the application sees it: one slice for each chain.
#[derive(Clone, Debug, PartialEq, Eq)]
pub struct LocalStore {
    pub polkadot: ChainSlice,
    pub kusama: ChainSlice,
    pub paseo: ChainSlice,
}

pub struct LocalStoreView {
    pub polkadot: ChainSliceView,
    pub kusama: ChainSliceView,
    pub paseo: ChainSliceView,
}

impl View for LocalStore {
    type V = LocalStoreView;

    open spec fn view(&self) -> LocalStoreView {
        LocalStoreView { polkadot: self.polkadot@, kusama: self.kusama@, paseo: self.paseo@ }
    }
}

impl LocalStoreView {
    pub open spec fn slice(self, runtime: SupportedRelayRuntime) -> ChainSliceView {
        match runtime {
            SupportedRelayRuntime::Polkadot => self.polkadot,
            SupportedRelayRuntime::Kusama => self.kusama,
            SupportedRelayRuntime::Paseo => self.paseo,
        }
    }

    pub open spec fn with_slice(self, runtime: SupportedRelayRuntime, slice: ChainSliceView) -> Self {
        match runtime {
            SupportedRelayRuntime::Polkadot => LocalStoreView { polkadot: slice, ..self },
            SupportedRelayRuntime::Kusama => LocalStoreView { kusama: slice, ..self },
            SupportedRelayRuntime::Paseo => LocalStoreView { paseo: slice, ..self },
        }
    }

    pub open spec fn with_accounts(self, runtime: SupportedRelayRuntime, accounts: Seq<AccountView>) -> Self {
        self.with_slice(runtime, ChainSliceView { accounts, ..self.slice(runtime) })
    }

    pub open spec fn with_signer(self, runtime: SupportedRelayRuntime, signer: ExtensionAccount) -> Self {
        self.with_slice(runtime, ChainSliceView { signer: Some(signer), ..self.slice(runtime) })
    }

    pub open spec fn with_onboarded(self, runtime: SupportedRelayRuntime, onboarded: bool) -> Self {
        self.with_slice(runtime, ChainSliceView { onboarded, ..self.slice(runtime) })
    }
}

impl LocalStore {
    /// A store with nothing in it.
    pub fn empty() -> (r: Self)
        ensures
            forall|runtime: SupportedRelayRuntime|
                (#[trigger] r@.slice(runtime)) == (ChainSliceView {
                    accounts: Seq::empty(),
                    signer: None,
                    onboarded: false,
                }),
    {
        let r = LocalStore {
            polkadot: ChainSlice { accounts: Vec::new(), signer: None, onboarded: false },
            kusama: ChainSlice { accounts: Vec::new(), signer: None, onboarded: false },
            paseo: ChainSlice { accounts: Vec::new(), signer: None, onboarded: false },
        };
        assert(views(r.polkadot.accounts@) =~= Seq::empty());
        assert(views(r.kusama.accounts@) =~= Seq::empty());
        assert(views(r.paseo.accounts@) =~= Seq::empty());
        r
    }

    pub fn slice(&self, runtime: SupportedRelayRuntime) -> (r: &ChainSlice)
        ensures
            r@ == self@.slice(runtime),
    {
        match runtime {
            SupportedRelayRuntime::Polkadot => &self.polkadot,
            SupportedRelayRuntime::Kusama => &self.kusama,
            SupportedRelayRuntime::Paseo => &self.paseo,
        }
    }

    pub fn with_slice(self, runtime: SupportedRelayRuntime, slice: ChainSlice) -> (r: Self)
        ensures
            r@ == self@.with_slice(runtime, slice@),
    {
        match runtime {
            SupportedRelayRuntime::Polkadot => LocalStore { polkadot: slice, ..self },
            SupportedRelayRuntime::Kusama => LocalStore { kusama: slice, ..self },
            SupportedRelayRuntime::Paseo => LocalStore { paseo: slice, ..self },
        }
    }

    fn take_slice(self, runtime: SupportedRelayRuntime) -> (r: (ChainSlice, LocalStore))
        ensures
            r.0@ == self@.slice(runtime),
            forall|s: ChainSliceView| #[trigger] r.1@.with_slice(runtime, s) == self@.with_slice(runtime, s),
    {
        let hole = ChainSlice { accounts: Vec::new(), signer: None, onboarded: false };
        match runtime {
            SupportedRelayRuntime::Polkadot => (
                self.polkadot,
                LocalStore { polkadot: hole, kusama: self.kusama, paseo: self.paseo },
            ),
            SupportedRelayRuntime::Kusama => (
                self.kusama,
                LocalStore { polkadot: self.polkadot, kusama: hole, paseo: self.paseo },
            ),
            SupportedRelayRuntime::Paseo => (
                self.paseo,
                LocalStore { polkadot: self.polkadot, kusama: self.kusama, paseo: hole },
            ),
        }
    }

    /// The store after the accounts of a chain were written.
    pub fn with_accounts(self, runtime: SupportedRelayRuntime, accounts: Vec<Account>) -> (r: Self)
        ensures
            r@ == self@.with_accounts(runtime, views(accounts@)),
    {
        let (slice, rest) = self.take_slice(runtime);
        rest.with_slice(
            runtime,
            ChainSlice { accounts, signer: slice.signer, onboarded: slice.onboarded },
        )
    }

    /// The store after the signer of a chain was written.
    pub fn with_signer(self, runtime: SupportedRelayRuntime, signer: ExtensionAccount) -> (r: Self)
        ensures
            r@ == self@.with_signer(runtime, signer),
    {
        let (slice, rest) = self.take_slice(runtime);
        rest.with_slice(
            runtime,
            ChainSlice { accounts: slice.accounts, signer: Some(signer), onboarded: slice.onboarded },
        )
    }

    /// The store after the onboarding flag of a chain was written.
    pub fn with_onboarded(self, runtime: SupportedRelayRuntime, onboarded: bool) -> (r: Self)
        ensures
            r@ == self@.with_onboarded(runtime, onboarded),
    {
        let (slice, rest) = self.take_slice(runtime);
        rest.with_slice(
            runtime,
            ChainSlice { accounts: slice.accounts, signer: slice.signer, onboarded },
        )
    }
}

} // verus!
