use crate::address::{derive_address, derived_address, derives_to};
use crate::codec::{encodable_record, lemma_record_bytes_len, parse_record, record_bytes};
use crate::instruction::{parse_instruction, CommandModel, ReviewInstruction};
use crate::state::{
    same_address, system_program_id, valid_rating, Account, AccountModel, AccountState,
    RecordModel, ReviewError, ACCOUNT_LEN,
};
use vstd::prelude::*;

verus! {

/// `n` zero bytes: the contents of a freshly allocated slot.
pub open spec fn zeros(n: nat) -> Seq<u8> {
    Seq::new(n, |i: int| 0u8)
}

/// Whether the encoding of `m` fits in `capacity` bytes.
pub open spec fn fits(m: RecordModel, capacity: nat) -> bool {
    encodable_record(m) && record_bytes(m).len() <= capacity
}

/// `data` with the encoding of `m` written over its start.
pub open spec fn written(data: Seq<u8>, m: RecordModel) -> Seq<u8> {
    record_bytes(m) + data.skip(record_bytes(m).len() as int)
}

/// Whether no program has allocated the slot yet.
pub open spec fn is_fresh(slot: AccountModel) -> bool {
    slot.owner == system_program_id() && slot.data.len() == 0
}

/// The first check that a create command fails before allocation, if any.
pub open spec fn create_check(
    program_id: Seq<u8>,
    author: AccountModel,
    key: Seq<u8>,
    title: Seq<char>,
    rating: u8,
) -> Option<ReviewError> {
    if !author.is_signer {
        Some(ReviewError::MissingSignature)
    } else if !derives_to(author.key, title, program_id, key) {
        Some(ReviewError::InvalidDerivedAddress)
    } else if !valid_rating(rating) {
        Some(ReviewError::InvalidRating)
    } else {
        None
    }
}

/// The bytes of an allocated slot after a new record is written into it.
pub open spec fn init_outcome(
    data: Seq<u8>,
    title: Seq<char>,
    rating: u8,
    description: Seq<char>,
) -> Result<Seq<u8>, ReviewError> {
    match parse_record(data) {
        None => Err(ReviewError::CorruptState),
        Some((current, _)) => if current.is_initialized {
            Err(ReviewError::AlreadyInitialized)
        } else {
            let m = RecordModel { is_initialized: true, rating, description, title };
            if !fits(m, data.len()) {
                Err(ReviewError::AccountDataTooSmall)
            } else {
                Ok(written(data, m))
            }
        },
    }
}

/// The slot after a create command, or the error it fails with.
pub open spec fn create_outcome(
    program_id: Seq<u8>,
    author: AccountModel,
    slot: AccountModel,
    title: Seq<char>,
    rating: u8,
    description: Seq<char>,
) -> Result<AccountModel, ReviewError> {
    match create_check(program_id, author, slot.key, title, rating) {
        Some(e) => Err(e),
        None => if !is_fresh(slot) {
            Err(ReviewError::AccountAlreadyInUse)
        } else {
            match init_outcome(zeros(ACCOUNT_LEN as nat), title, rating, description) {
                Err(e) => Err(e),
                Ok(data) => Ok(AccountModel { owner: program_id, data, ..slot }),
            }
        },
    }
}

/// The slot after an update command, or the error it fails with. The
/// command's title plays no part: the address is derived from the stored one.
pub open spec fn update_outcome(
    program_id: Seq<u8>,
    author: AccountModel,
    slot: AccountModel,
    rating: u8,
    description: Seq<char>,
) -> Result<AccountModel, ReviewError> {
    if slot.owner != program_id {
        Err(ReviewError::IllegalOwner)
    } else if !author.is_signer {
        Err(ReviewError::MissingSignature)
    } else {
        match parse_record(slot.data) {
            None => Err(ReviewError::CorruptState),
            Some((current, _)) => if !derives_to(author.key, current.title, program_id, slot.key) {
                Err(ReviewError::InvalidDerivedAddress)
            } else if !current.is_initialized {
                Err(ReviewError::UninitializedAccount)
            } else if !valid_rating(rating) {
                Err(ReviewError::InvalidRating)
            } else {
                let m = RecordModel { rating, description, ..current };
                if !fits(m, slot.data.len()) {
                    Err(ReviewError::AccountDataTooSmall)
                } else {
                    Ok(AccountModel { data: written(slot.data, m), ..slot })
                }
            },
        }
    }
}

/// Writes the encoding of `state` over the start of `data`, if it fits.
fn write_record(data: &mut Vec<u8>, state: &AccountState) -> (r: Result<(), ReviewError>)
    ensures
        r is Ok <==> fits(state@, old(data)@.len()),
        r is Ok ==> final(data)@ == written(old(data)@, state@),
        r is Err ==> r == Err::<(), ReviewError>(ReviewError::AccountDataTooSmall) && final(data)@
            == old(data)@,
{
    let dl = state.description.as_str().as_bytes().len();
    let tl = state.title.as_str().as_bytes().len();
    proof {
        lemma_record_bytes_len(state@);
    }
    let cap = data.len();
    if dl > 0xffff_ffff || tl > 0xffff_ffff || dl > cap || tl > cap - dl || 10 > cap - dl - tl {
        return Err(ReviewError::AccountDataTooSmall);
    }
    let bytes = state.serialize();
    let ghost old_data = data@;
    let mut i: usize = 0;
    while i < bytes.len()
        invariant
            bytes@ == record_bytes(state@),
            bytes@.len() <= cap,
            data@.len() == cap,
            old_data.len() == cap,
            0 <= i <= bytes@.len(),
            forall|j: int| 0 <= j < i ==> data@[j] == bytes@[j],
            forall|j: int| i <= j < cap ==> data@[j] == old_data[j],
        decreases bytes@.len() - i,
    {
        data[i] = bytes[i];
        i = i + 1;
    }
    assert(data@ =~= written(old_data, state@));
    Ok(())
}

/// The checks of a create command that come before allocation: the author
/// signed, the slot's key is the address derived from author and title, and
/// the rating is valid. Returns the bump of the derived address.
pub fn check_create(
    program_id: &[u8; 32],
    author: &Account,
    key: &[u8; 32],
    title: &str,
    rating: u8,
) -> (r: Result<u8, ReviewError>)
    ensures
        match create_check(program_id@, author@, key@, title@, rating) {
            Some(e) => r == Err::<u8, ReviewError>(e),
            None => r is Ok && derived_address(author.key@, title@, program_id@) == Some(
                (key@, r->Ok_0),
            ),
        },
{
    if !author.is_signer {
        return Err(ReviewError::MissingSignature);
    }
    let bump = match derive_address(&author.key, title, program_id) {
        None => return Err(ReviewError::InvalidDerivedAddress),
        Some((pda, bump)) => {
            if !same_address(&pda, key) {
                return Err(ReviewError::InvalidDerivedAddress);
            }
            bump
        },
    };
    if rating > 10 || rating < 1 {
        return Err(ReviewError::InvalidRating);
    }
    Ok(bump)
}

/// Writes a new, initialized record into the bytes of a freshly allocated slot.
pub fn init_record(data: &mut Vec<u8>, title: String, rating: u8, description: String) -> (r: Result<(), ReviewError>)
    ensures
        match init_outcome(old(data)@, title@, rating, description@) {
            Ok(d) => r is Ok && final(data)@ == d,
            Err(e) => r == Err::<(), ReviewError>(e) && final(data)@ == old(data)@,
        },
{
    let mut state = match AccountState::deserialize(data.as_slice()) {
        None => return Err(ReviewError::CorruptState),
        Some(s) => s,
    };
    if state.is_initialized {
        return Err(ReviewError::AlreadyInitialized);
    }
    state.title = title;
    state.description = description;
    state.rating = rating;
    state.is_initialized = true;
    write_record(data, &state)
}

/// The slot after a decoded command, or the error it fails with.
pub open spec fn command_outcome(
    program_id: Seq<u8>,
    author: AccountModel,
    slot: AccountModel,
    command: CommandModel,
) -> Result<AccountModel, ReviewError> {
    match command {
        CommandModel::Create { title, rating, description } => create_outcome(
            program_id,
            author,
            slot,
            title,
            rating,
            description,
        ),
        CommandModel::Update { title, rating, description } => update_outcome(
            program_id,
            author,
            slot,
            rating,
            description,
        ),
    }
}

/// Creates the review by `author` titled `title` in `slot`: checks the
/// signature, the derived address and the rating, allocates the slot for this
/// program with `ACCOUNT_LEN` zero bytes, and writes the initialized record
/// there. On failure the slot is left as it was.
pub fn add_review(
    program_id: &[u8; 32],
    author: &Account,
    slot: &mut Account,
    title: String,
    rating: u8,
    description: String,
) -> (r: Result<(), ReviewError>)
    ensures
        match create_outcome(program_id@, author@, old(slot)@, title@, rating, description@) {
            Ok(s) => r is Ok && final(slot)@ == s,
            Err(e) => r == Err::<(), ReviewError>(e) && final(slot)@ == old(slot)@,
        },
{
    match check_create(program_id, author, &slot.key, title.as_str(), rating) {
        Err(e) => return Err(e),
        Ok(_) => {},
    }
    let system: [u8; 32] = [0u8; 32];
    assert(system@ =~= system_program_id());
    if !(same_address(&slot.owner, &system) && slot.data.len() == 0) {
        return Err(ReviewError::AccountAlreadyInUse);
    }
    let mut data = vec![0u8; ACCOUNT_LEN];
    assert(data@ =~= zeros(ACCOUNT_LEN as nat));
    match init_record(&mut data, title, rating, description) {
        Err(e) => return Err(e),
        Ok(()) => {},
    }
    slot.owner = *program_id;
    slot.data = data;
    Ok(())
}

/// Updates the rating and description of the review in `slot`: checks the
/// owner and the signature, decodes the stored record, checks that the slot's
/// key is derived from `author` and the stored title, that the record is
/// initialized and that the rating is valid, then writes the record back.
/// The command's title is ignored: a stored title never changes. On failure
/// the slot is left as it was.
pub fn update_review(
    program_id: &[u8; 32],
    author: &Account,
    slot: &mut Account,
    _title: String,
    rating: u8,
    description: String,
) -> (r: Result<(), ReviewError>)
    ensures
        match update_outcome(program_id@, author@, old(slot)@, rating, description@) {
            Ok(s) => r is Ok && final(slot)@ == s,
            Err(e) => r == Err::<(), ReviewError>(e) && final(slot)@ == old(slot)@,
        },
{
    if !same_address(&slot.owner, program_id) {
        return Err(ReviewError::IllegalOwner);
    }
    if !author.is_signer {
        return Err(ReviewError::MissingSignature);
    }
    let mut state = match AccountState::deserialize(slot.data.as_slice()) {
        None => return Err(ReviewError::CorruptState),
        Some(s) => s,
    };
    match derive_address(&author.key, state.title.as_str(), program_id) {
        None => return Err(ReviewError::InvalidDerivedAddress),
        Some((pda, _)) => {
            if !same_address(&pda, &slot.key) {
                return Err(ReviewError::InvalidDerivedAddress);
            }
        },
    }
    if !state.is_initialized() {
        return Err(ReviewError::UninitializedAccount);
    }
    if rating > 10 || rating < 1 {
        return Err(ReviewError::InvalidRating);
    }
    state.description = description;
    state.rating = rating;
    write_record(&mut slot.data, &state)
}

/// Decodes a command and runs it against `slot`.
pub fn process_instruction(
    program_id: &[u8; 32],
    author: &Account,
    slot: &mut Account,
    instruction_data: &[u8],
) -> (r: Result<(), ReviewError>)
    ensures
        match parse_instruction(instruction_data@) {
            None => r == Err::<(), ReviewError>(ReviewError::MalformedPayload) && final(slot)@
                == old(slot)@,
            Some(c) => match command_outcome(program_id@, author@, old(slot)@, c) {
                Ok(s) => r is Ok && final(slot)@ == s,
                Err(e) => r == Err::<(), ReviewError>(e) && final(slot)@ == old(slot)@,
            },
        },
{
    let instruction = match ReviewInstruction::unpack(instruction_data) {
        Err(e) => return Err(e),
        Ok(i) => i,
    };
    match instruction {
        ReviewInstruction::AddReview { title, rating, description } => add_review(
            program_id,
            author,
            slot,
            title,
            rating,
            description,
        ),
        ReviewInstruction::UpdateReview { title, rating, description } => update_review(
            program_id,
            author,
            slot,
            title,
            rating,
            description,
        ),
    }
}

} // verus!
