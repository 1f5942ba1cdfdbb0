use vstd::prelude::*;
use crate::types::{AccountId, OwnableError, ProxyError, Result};

verus! {

/// Management surface of a lazy-mint proxy: the two registries it talks to,
/// readable by anyone and replaceable by the owner alone.
pub trait LazyMintProxy {
    /// The collection registry that mints the tokens.
    spec fn collection_address(&self) -> AccountId;

    /// The catalog registry that holds the parts the assets refer to.
    spec fn catalog_address(&self) -> AccountId;

    /// The account allowed to change the two addresses.
    spec fn owner_address(&self) -> AccountId;

    fn rmrk_contract_address(&self) -> (r: AccountId)
        ensures
            r == self.collection_address(),
    ;

    fn catalog_contract_address(&self) -> (r: AccountId)
        ensures
            r == self.catalog_address(),
    ;

    /// Replaces the collection address; only the owner may do so.
    fn set_rmrk_contract_address(&mut self, caller: AccountId, new_contract_address: AccountId) -> (r: Result<()>)
        ensures
            final(self).owner_address() == old(self).owner_address(),
            final(self).catalog_address() == old(self).catalog_address(),
            caller@ == old(self).owner_address()@ ==> r == Ok::<(), ProxyError>(())
                && final(self).collection_address() == new_contract_address,
            caller@ != old(self).owner_address()@ ==> r == Err::<(), ProxyError>(
                ProxyError::OwnableError(OwnableError::CallerIsNotOwner),
            ) && final(self).collection_address() == old(self).collection_address(),
    ;

    /// Replaces the catalog address; only the owner may do so.
    fn set_catalog_contract_address(&mut self, caller: AccountId, new_contract_address: AccountId) -> (r: Result<()>)
        ensures
            final(self).owner_address() == old(self).owner_address(),
            final(self).collection_address() == old(self).collection_address(),
            caller@ == old(self).owner_address()@ ==> r == Ok::<(), ProxyError>(())
                && final(self).catalog_address() == new_contract_address,
            caller@ != old(self).owner_address()@ ==> r == Err::<(), ProxyError>(
                ProxyError::OwnableError(OwnableError::CallerIsNotOwner),
            ) && final(self).catalog_address() == old(self).catalog_address(),
    ;
}

} // verus!
