use vstd::prelude::*;

verus! {

/// Why a management call was refused by the ownership check.
#[derive(Clone, Copy, Debug, PartialEq, Eq, Structural)]
pub enum OwnableError {
    CallerIsNotOwner,
    NewOwnerIsZero,
}

/// Why a call was refused by the reentrancy guard.
#[derive(Clone, Copy, Debug, PartialEq, Eq, Structural)]
pub enum ReentrancyGuardError {
    ReentrantCall,
}

/// The 32-byte identity of an account or of a contract.
#[derive(Clone, Copy, Debug, PartialEq, Eq)]
pub struct AccountId {
    pub bytes: [u8; 32],
}

impl View for AccountId {
    type V = Seq<u8>;

    open spec fn view(&self) -> Seq<u8> {
        self.bytes@
    }
}

impl AccountId {
    pub fn new(bytes: [u8; 32]) -> (r: AccountId)
        ensures
            r@ == bytes@,
    {
        AccountId { bytes }
    }

    /// Whether two identities hold the same bytes.
    pub fn same_as(&self, other: &AccountId) -> (r: bool)
        ensures
            r == (self@ == other@),
    {
        let mut i: usize = 0;
        while i < 32
            invariant
                0 <= i <= 32,
                self.bytes@.len() == 32,
                other.bytes@.len() == 32,
                forall|j: int| 0 <= j < i ==> self.bytes@[j] == other.bytes@[j],
            decreases 32 - i,
        {
            if self.bytes[i] != other.bytes[i] {
                return false;
            }
            i = i + 1;
        }
        assert(self.bytes@ =~= other.bytes@);
        true
    }
}

/// Storage of the proxy: the two registries it talks to and the counter that
/// is mixed into every pseudo-random draw.
#[derive(Default, Debug)]
pub struct Data {
    pub rmrk_contract: Option<AccountId>,
    pub catalog_contract: Option<AccountId>,
    pub salt: u64,
}

/// Errors that the proxy reports to its caller.
#[derive(Clone, Copy, Debug, PartialEq, Eq, Structural)]
pub enum ProxyError {
    /// A caller is not the owner of the proxy.
    OwnableError(OwnableError),
    /// A caller is trying to make a second call while the first one is still executing.
    ReentrancyError(ReentrancyGuardError),
    MintingError,
    OwnershipTransferError,
    AddTokenAssetError,
    NoAssetsDefined,
    TooManyAssetsDefined,
}

pub type Result<T> = core::result::Result<T, ProxyError>;

impl From<OwnableError> for ProxyError {
    fn from(error: OwnableError) -> Self {
        ProxyError::OwnableError(error)
    }
}

impl vstd::std_specs::convert::FromSpecImpl<OwnableError> for ProxyError {
    open spec fn obeys_from_spec() -> bool {
        true
    }

    open spec fn from_spec(v: OwnableError) -> ProxyError {
        ProxyError::OwnableError(v)
    }
}

impl From<ReentrancyGuardError> for ProxyError {
    fn from(error: ReentrancyGuardError) -> Self {
        ProxyError::ReentrancyError(error)
    }
}

impl vstd::std_specs::convert::FromSpecImpl<ReentrancyGuardError> for ProxyError {
    open spec fn obeys_from_spec() -> bool {
        true
    }

    open spec fn from_spec(v: ReentrancyGuardError) -> ProxyError {
        ProxyError::ReentrancyError(v)
    }
}

} // verus!
