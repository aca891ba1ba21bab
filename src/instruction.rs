use crate::codec::{parse_string, read_string};
use crate::state::ReviewError;
use vstd::prelude::*;

verus! {

/// A decoded command.
pub enum ReviewInstruction {
    AddReview { title: String, rating: u8, description: String },
    UpdateReview { title: String, rating: u8, description: String },
}

/// The mathematical value of a command.
pub enum CommandModel {
    Create { title: Seq<char>, rating: u8, description: Seq<char> },
    Update { title: Seq<char>, rating: u8, description: Seq<char> },
}

impl View for ReviewInstruction {
    type V = CommandModel;

    open spec fn view(&self) -> CommandModel {
        match self {
            ReviewInstruction::AddReview { title, rating, description } => CommandModel::Create {
                title: title@,
                rating: *rating,
                description: description@,
            },
            ReviewInstruction::UpdateReview { title, rating, description } => CommandModel::Update {
                title: title@,
                rating: *rating,
                description: description@,
            },
        }
    }
}

/// The fields of a command: title, rating byte, description, and nothing after.
pub open spec fn parse_fields(p: Seq<u8>) -> Option<(Seq<char>, u8, Seq<char>)> {
    match parse_string(p) {
        None => None,
        Some((t, n)) => if n >= p.len() {
            None
        } else {
            match parse_string(p.skip(n + 1 as int)) {
                None => None,
                Some((d, m)) => if n + 1 + m == p.len() {
                    Some((t, p[n as int], d))
                } else {
                    None
                },
            }
        },
    }
}

/// The command that `b` encodes: a variant byte (0 create, 1 update), then its fields.
pub open spec fn parse_instruction(b: Seq<u8>) -> Option<CommandModel> {
    if b.len() == 0 || b[0] > 1 {
        None
    } else {
        match parse_fields(b.skip(1)) {
            None => None,
            Some((t, r, d)) => if b[0] == 0 {
                Some(CommandModel::Create { title: t, rating: r, description: d })
            } else {
                Some(CommandModel::Update { title: t, rating: r, description: d })
            },
        }
    }
}

impl ReviewInstruction {
    /// Decodes a command; any other byte string is `MalformedPayload`.
    pub fn unpack(data: &[u8]) -> (r: Result<ReviewInstruction, ReviewError>)
        ensures
            r is Ok <==> parse_instruction(data@) is Some,
            r matches Ok(i) ==> i@ == parse_instruction(data@)->Some_0,
            r is Err ==> r == Err::<ReviewInstruction, ReviewError>(ReviewError::MalformedPayload),
    {
        if data.len() == 0 || data[0] > 1 {
            return Err(ReviewError::MalformedPayload);
        }
        let variant = data[0];
        let fields = &data[1..data.len()];
        assert(fields@ == data@.skip(1));
        let (title, rest) = match read_string(fields) {
            None => return Err(ReviewError::MalformedPayload),
            Some(x) => x,
        };
        if rest.len() == 0 {
            return Err(ReviewError::MalformedPayload);
        }
        let rating = rest[0];
        let rest2 = &rest[1..rest.len()];
        assert(rest2@ == fields@.skip(parse_string(fields@)->Some_0.1 + 1 as int));
        let (description, tail) = match read_string(rest2) {
            None => return Err(ReviewError::MalformedPayload),
            Some(x) => x,
        };
        if tail.len() != 0 {
            return Err(ReviewError::MalformedPayload);
        }
        if variant == 0 {
            Ok(ReviewInstruction::AddReview { title, rating, description })
        } else {
            Ok(ReviewInstruction::UpdateReview { title, rating, description })
        }
    }
}

} // verus!
