use vstd::prelude::*;
use crate::components::items::{chip_label, chip_text};
use crate::session::{find_account_id, id_of};
use crate::state::{Action, ActionView, State};
use crate::types::accounts::AccountId;

verus! {

/// The chip of an account.
#[derive(Clone, Debug, PartialEq, Eq)]
pub struct AccountChipView {
    /// The resolved name, or the address shortened.
    pub label: String,
    /// What pressing the cross asks for, where the chip has one.
    pub remove: Option<Action>,
}

/// The chip of an account. A removable chip of a followed account
/// carries the action that stops following it.
pub fn account_chip(
    state: &State,
    account: &AccountId,
    identity: &Option<String>,
    removable: bool,
) -> (r: AccountChipView)
    ensures
        r.label@ == chip_text(*account, *identity),
        match r.remove {
            Some(action) => removable && id_of(state@.accounts, *account) is Some && action@
                == ActionView::RemoveAccountId(id_of(state@.accounts, *account)->0),
            None => !removable || id_of(state@.accounts, *account) is None,
        },
{
    let remove = if removable {
        match find_account_id(&state.accounts, account) {
            Some(id) => Some(Action::RemoveAccountId(id)),
            None => None,
        }
    } else {
        None
    };
    AccountChipView { label: chip_label(account, identity), remove }
}

} // verus!
