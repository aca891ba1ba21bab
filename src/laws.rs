use crate::address::derives_to;
use crate::codec::{lemma_parse_record_bytes, le32_value, parse_record, record_bytes};
use crate::instruction::CommandModel;
use crate::processor::{command_outcome, create_outcome, fits, update_outcome, written, zeros};
use crate::state::{AccountModel, RecordModel, ReviewError, ACCOUNT_LEN};
use vstd::prelude::*;
use vstd::utf8::*;

verus! {

/// A freshly allocated slot decodes as an uninitialized record with a zero
/// rating and empty strings.
pub proof fn lemma_fresh_slot_decodes()
    ensures
        parse_record(zeros(ACCOUNT_LEN as nat)) == Some(
            (
                RecordModel {
                    is_initialized: false,
                    rating: 0,
                    description: Seq::empty(),
                    title: Seq::empty(),
                },
                10nat,
            ),
        ),
{
    let z = zeros(ACCOUNT_LEN as nat);
    let z0: u8 = 0;
    assert((z0 as u32) | ((z0 as u32) << 8u32) | ((z0 as u32) << 16u32) | ((z0 as u32) << 24u32)
        == 0) by (bit_vector)
        requires
            z0 == 0,
    ;
    assert(le32_value(z.skip(2)) == 0);
    assert(le32_value(z.skip(6)) == 0);
    assert(z.skip(2).subrange(4, 4) =~= Seq::<u8>::empty());
    assert(z.skip(6).subrange(4, 4) =~= Seq::<u8>::empty());
    assert(valid_utf8(Seq::<u8>::empty()));
    assert(decode_utf8(Seq::<u8>::empty()) =~= Seq::<char>::empty());
}

/// A create command never fails on the decoding of the slot it has just
/// allocated: it neither finds corrupt bytes nor an initialized record there.
pub proof fn lemma_create_never_meets_old_record(
    program_id: Seq<u8>,
    author: AccountModel,
    slot: AccountModel,
    title: Seq<char>,
    rating: u8,
    description: Seq<char>,
)
    ensures
        create_outcome(program_id, author, slot, title, rating, description) != Err::<
            AccountModel,
            ReviewError,
        >(ReviewError::CorruptState),
        create_outcome(program_id, author, slot, title, rating, description) != Err::<
            AccountModel,
            ReviewError,
        >(ReviewError::AlreadyInitialized),
{
    lemma_fresh_slot_decodes();
}

/// An update by an author who did not sign fails with `MissingSignature`,
/// whatever the rest of the input, once the slot belongs to this program.
pub proof fn lemma_update_needs_signature(
    program_id: Seq<u8>,
    author: AccountModel,
    slot: AccountModel,
    rating: u8,
    description: Seq<char>,
)
    requires
        !author.is_signer,
        slot.owner == program_id,
    ensures
        update_outcome(program_id, author, slot, rating, description) == Err::<
            AccountModel,
            ReviewError,
        >(ReviewError::MissingSignature),
{
}

/// A create by an author who did not sign fails with `MissingSignature`.
pub proof fn lemma_create_needs_signature(
    program_id: Seq<u8>,
    author: AccountModel,
    slot: AccountModel,
    title: Seq<char>,
    rating: u8,
    description: Seq<char>,
)
    requires
        !author.is_signer,
    ensures
        create_outcome(program_id, author, slot, title, rating, description) == Err::<
            AccountModel,
            ReviewError,
        >(ReviewError::MissingSignature),
{
}

/// A create fails with `InvalidRating` exactly when the author signed, the
/// address is the derived one, and the rating lies outside `1..=10`.
pub proof fn lemma_create_rating_gate(
    program_id: Seq<u8>,
    author: AccountModel,
    slot: AccountModel,
    title: Seq<char>,
    rating: u8,
    description: Seq<char>,
)
    ensures
        (create_outcome(program_id, author, slot, title, rating, description) == Err::<
            AccountModel,
            ReviewError,
        >(ReviewError::InvalidRating)) <==> (author.is_signer && derives_to(
            author.key,
            title,
            program_id,
            slot.key,
        ) && !(1 <= rating <= 10)),
{
    lemma_fresh_slot_decodes();
}

/// An update fails with `InvalidRating` exactly when every earlier check
/// passes and the rating lies outside `1..=10`.
pub proof fn lemma_update_rating_gate(
    program_id: Seq<u8>,
    author: AccountModel,
    slot: AccountModel,
    rating: u8,
    description: Seq<char>,
)
    ensures
        (update_outcome(program_id, author, slot, rating, description) == Err::<
            AccountModel,
            ReviewError,
        >(ReviewError::InvalidRating)) <==> (slot.owner == program_id && author.is_signer
            && parse_record(slot.data) is Some && derives_to(
            author.key,
            parse_record(slot.data)->Some_0.0.title,
            program_id,
            slot.key,
        ) && parse_record(slot.data)->Some_0.0.is_initialized && !(1 <= rating <= 10)),
{
}

/// Reading back a slot that a record was written into gives that record.
proof fn lemma_written_decodes(data: Seq<u8>, m: RecordModel)
    requires
        fits(m, data.len()),
    ensures
        parse_record(written(data, m))->Some_0.0 == m,
        parse_record(written(data, m)) is Some,
{
    lemma_parse_record_bytes(m, data.skip(record_bytes(m).len() as int));
}

/// A second create of the same review, on the slot that the first one
/// produced, fails, while that slot still holds the first record.
pub proof fn lemma_no_double_create(
    program_id: Seq<u8>,
    author: AccountModel,
    slot: AccountModel,
    title: Seq<char>,
    rating: u8,
    description: Seq<char>,
    rating2: u8,
    description2: Seq<char>,
)
    requires
        create_outcome(program_id, author, slot, title, rating, description) is Ok,
    ensures
        ({
            let created = create_outcome(program_id, author, slot, title, rating, description)->Ok_0;
            &&& create_outcome(program_id, author, created, title, rating2, description2) is Err
            &&& parse_record(created.data) is Some
            &&& parse_record(created.data)->Some_0.0 == RecordModel {
                is_initialized: true,
                rating,
                description,
                title,
            }
        }),
{
    lemma_fresh_slot_decodes();
    let m = RecordModel { is_initialized: true, rating, description, title };
    lemma_written_decodes(zeros(ACCOUNT_LEN as nat), m);
}

/// The title that an update command carries plays no part: two update
/// commands that differ only in their title have the same outcome, and a
/// successful update keeps the stored title, marks the record initialized and
/// stores the new rating and description.
pub proof fn lemma_update_keeps_title(
    program_id: Seq<u8>,
    author: AccountModel,
    slot: AccountModel,
    title1: Seq<char>,
    title2: Seq<char>,
    rating: u8,
    description: Seq<char>,
)
    ensures
        command_outcome(
            program_id,
            author,
            slot,
            CommandModel::Update { title: title1, rating, description },
        ) == command_outcome(
            program_id,
            author,
            slot,
            CommandModel::Update { title: title2, rating, description },
        ),
        update_outcome(program_id, author, slot, rating, description) is Ok ==> ({
            let updated = update_outcome(program_id, author, slot, rating, description)->Ok_0;
            &&& parse_record(updated.data) is Some
            &&& parse_record(updated.data)->Some_0.0 == RecordModel {
                is_initialized: true,
                rating,
                description,
                title: parse_record(slot.data)->Some_0.0.title,
            }
            &&& updated.key == slot.key
            &&& updated.owner == slot.owner
        }),
{
    if update_outcome(program_id, author, slot, rating, description) is Ok {
        let current = parse_record(slot.data)->Some_0.0;
        let m = RecordModel { rating, description, ..current };
        lemma_written_decodes(slot.data, m);
    }
}

} // verus!
