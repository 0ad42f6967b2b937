use vstd::prelude::*;

verus! {

/// Bytes of the type tag that starts every account.
pub const DISCRIMINATOR_LENGTH: usize = 8;

/// Bytes of an account key.
pub const PUBLIC_KEY_LENGTH: usize = 32;

/// Bytes of a Unix timestamp.
pub const TIMESTAMP_LENGTH: usize = 8;

/// Bytes of the length prefix stored before a string.
pub const STRING_LENGTH_PREFIX: usize = 4;

/// Most bytes that one character takes in UTF-8.
pub const MAX_CHAR_BYTES: usize = 4;

/// Most characters in a review title.
pub const MAX_TITLE_CHARS: usize = 50;

/// Most characters in a review essay.
pub const MAX_ESSAY_CHARS: usize = 280;

} // verus!

verus! {

/// Bytes reserved beyond a review's fields by default.
pub const REVIEW_RESERVED: usize = 32;

/// Bytes held for a string field of at most `max_chars` characters: its
/// length prefix and room for every character at its widest encoding.
pub open spec fn text_field_space(max_chars: nat) -> nat {
    STRING_LENGTH_PREFIX as nat + max_chars * MAX_CHAR_BYTES as nat
}

/// Bytes of a review account: tag, author, timestamp, title, essay, and
/// `reserved` further bytes.
pub open spec fn review_space_spec(reserved: nat) -> nat {
    DISCRIMINATOR_LENGTH as nat + PUBLIC_KEY_LENGTH as nat + TIMESTAMP_LENGTH as nat
        + text_field_space(MAX_TITLE_CHARS as nat) + text_field_space(MAX_ESSAY_CHARS as nat)
        + reserved
}

/// Bytes of a verification account: tag, author, timestamp and review key.
pub open spec fn verify_space_spec() -> nat {
    DISCRIMINATOR_LENGTH as nat + PUBLIC_KEY_LENGTH as nat + TIMESTAMP_LENGTH as nat
        + PUBLIC_KEY_LENGTH as nat
}

/// Bytes of a review account with `reserved` bytes past its fields.
pub fn review_space(reserved: usize) -> (r: usize)
    requires
        review_space_spec(reserved as nat) <= usize::MAX,
    ensures
        r == review_space_spec(reserved as nat),
{
    DISCRIMINATOR_LENGTH + PUBLIC_KEY_LENGTH + TIMESTAMP_LENGTH + STRING_LENGTH_PREFIX
        + MAX_TITLE_CHARS * MAX_CHAR_BYTES + STRING_LENGTH_PREFIX + MAX_ESSAY_CHARS
        * MAX_CHAR_BYTES + reserved
}

} // verus!

verus! {

/// Bytes of a review's rating.
pub const RATING_LENGTH: usize = 4;

/// Bytes that `c` takes in UTF-8.
pub open spec fn char_utf8_len(c: char) -> nat {
    if (c as u32) < 0x80 {
        1
    } else if (c as u32) < 0x800 {
        2
    } else if (c as u32) < 0x10000 {
        3
    } else {
        4
    }
}

/// Bytes that `s` takes in UTF-8.
pub open spec fn utf8_len(s: Seq<char>) -> nat
    decreases s.len(),
{
    if s.len() == 0 {
        0
    } else {
        utf8_len(s.drop_last()) + char_utf8_len(s.last())
    }
}

/// Bytes that a review with this title and essay takes when stored: tag,
/// author, timestamp, each string behind its length prefix, and rating.
pub open spec fn stored_review_len(title: Seq<char>, essay: Seq<char>) -> nat {
    DISCRIMINATOR_LENGTH as nat + PUBLIC_KEY_LENGTH as nat + TIMESTAMP_LENGTH as nat
        + STRING_LENGTH_PREFIX as nat + utf8_len(title) + STRING_LENGTH_PREFIX as nat + utf8_len(
        essay,
    ) + RATING_LENGTH as nat
}

/// No string takes more than four bytes per character.
pub proof fn utf8_len_bound(s: Seq<char>)
    ensures
        utf8_len(s) <= MAX_CHAR_BYTES * s.len(),
    decreases s.len(),
{
    if s.len() > 0 {
        utf8_len_bound(s.drop_last());
    }
}

/// Every review whose fields are valid fits in a review account that
/// reserves room for the rating past its fields, whatever its characters.
pub proof fn valid_review_fits(title: Seq<char>, essay: Seq<char>, reserved: nat)
    requires
        crate::validate::valid_review_fields(title, essay),
        reserved >= RATING_LENGTH,
    ensures
        stored_review_len(title, essay) <= review_space_spec(reserved),
{
    utf8_len_bound(title);
    utf8_len_bound(essay);
}

} // verus!
