use vstd::prelude::*;

verus! {

/// Number of bytes allocated for every review slot.
pub const ACCOUNT_LEN: usize = 1000;

/// The review record kept in a slot.
pub struct AccountState {
    pub is_initialized: bool,
    pub rating: u8,
    pub description: String,
    pub title: String,
}

/// The mathematical value of a record: its strings as characters.
pub struct RecordModel {
    pub is_initialized: bool,
    pub rating: u8,
    pub description: Seq<char>,
    pub title: Seq<char>,
}

impl View for AccountState {
    type V = RecordModel;

    open spec fn view(&self) -> RecordModel {
        RecordModel {
            is_initialized: self.is_initialized,
            rating: self.rating,
            description: self.description@,
            title: self.title@,
        }
    }
}

impl AccountState {
    pub fn is_initialized(&self) -> (r: bool)
        ensures
            r == self.is_initialized,
    {
        self.is_initialized
    }
}

/// A rating is valid when it lies in `1..=10`.
pub open spec fn valid_rating(rating: u8) -> bool {
    1 <= rating <= 10
}

/// Why a command was refused.
#[derive(Debug, Clone, Copy, PartialEq, Eq, Structural)]
pub enum ReviewError {
    /// The author did not sign the call.
    MissingSignature,
    /// The slot's address is not the one derived from author and title.
    InvalidDerivedAddress,
    /// The rating lies outside `1..=10`.
    InvalidRating,
    /// Create met a slot whose record is already initialized.
    AlreadyInitialized,
    /// Update met a slot whose record was never created.
    UninitializedAccount,
    /// Update met a slot that this program does not own.
    IllegalOwner,
    /// The command bytes could not be decoded.
    MalformedPayload,
    /// The slot's bytes do not decode as a record.
    CorruptState,
    /// The slot to be created is already allocated.
    AccountAlreadyInUse,
    /// The encoded record does not fit in the slot.
    AccountDataTooSmall,
}

/// The numeric code of each error kind, as the host reports it.
pub open spec fn error_code(e: ReviewError) -> u32 {
    match e {
        ReviewError::UninitializedAccount => 0,
        ReviewError::InvalidRating => 1,
        ReviewError::InvalidDerivedAddress => 2,
        ReviewError::MissingSignature => 3,
        ReviewError::AlreadyInitialized => 4,
        ReviewError::IllegalOwner => 5,
        ReviewError::MalformedPayload => 6,
        ReviewError::CorruptState => 7,
        ReviewError::AccountAlreadyInUse => 8,
        ReviewError::AccountDataTooSmall => 9,
    }
}

impl ReviewError {
    /// The numeric code that the host reports for this error.
    pub fn code(&self) -> (r: u32)
        ensures
            r == error_code(*self),
    {
        match self {
            ReviewError::UninitializedAccount => 0,
            ReviewError::InvalidRating => 1,
            ReviewError::InvalidDerivedAddress => 2,
            ReviewError::MissingSignature => 3,
            ReviewError::AlreadyInitialized => 4,
            ReviewError::IllegalOwner => 5,
            ReviewError::MalformedPayload => 6,
            ReviewError::CorruptState => 7,
            ReviewError::AccountAlreadyInUse => 8,
            ReviewError::AccountDataTooSmall => 9,
        }
    }
}

/// A storage slot as the host hands it to the program: its address, the
/// program that owns it, whether its key signed the call, and its bytes.
pub struct Account {
    pub key: [u8; 32],
    pub owner: [u8; 32],
    pub is_signer: bool,
    pub data: Vec<u8>,
}

/// The mathematical value of a slot.
pub struct AccountModel {
    pub key: Seq<u8>,
    pub owner: Seq<u8>,
    pub is_signer: bool,
    pub data: Seq<u8>,
}

impl View for Account {
    type V = AccountModel;

    open spec fn view(&self) -> AccountModel {
        AccountModel {
            key: self.key@,
            owner: self.owner@,
            is_signer: self.is_signer,
            data: self.data@,
        }
    }
}

/// The owner of a slot that no program has allocated yet.
pub open spec fn system_program_id() -> Seq<u8> {
    Seq::new(32, |i: int| 0u8)
}

/// Whether two addresses are the same.
pub fn same_address(a: &[u8; 32], b: &[u8; 32]) -> (r: bool)
    ensures
        r == (a@ == b@),
{
    let mut i: usize = 0;
    while i < 32
        invariant
            0 <= i <= 32,
            a@.len() == 32,
            b@.len() == 32,
            forall|j: int| 0 <= j < i ==> a@[j] == b@[j],
        decreases 32 - i,
    {
        if a[i] != b[i] {
            return false;
        }
        i = i + 1;
    }
    assert(a@ =~= b@);
    true
}

} // verus!
