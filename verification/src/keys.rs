//! The key file of the server: one text that holds all of its keys.
use hex::FromHexError;
use vstd::prelude::*;

verus! {

pub const FILE_KEY_BYTES: usize = 32;

pub const COOKIE_KEY_BYTES: usize = 64;

pub const MASTER_KEY_BYTES: usize = 96;

/// The keys of the server.
pub struct MasterKey {
    /// The key of the state file.
    pub file_key: [u8; 32],
    /// The key of the cookies.
    pub cookie_key: [u8; 64],
}

/// Why a text is no key file.
#[derive(Clone, Copy, Debug, PartialEq, Eq, Structural)]
pub enum MasterKeyError {
    NotHex,
    WrongLength,
}

impl MasterKeyError {
    pub fn message(self) -> (text: &'static str)
        ensures
            text@ == match self {
                MasterKeyError::NotHex => "encryption.key should be hex digits"@,
                MasterKeyError::WrongLength => {
                    "encryption.key should be exactly 96 bytes (192 hex chars)"@
                },
            },
    {
        match self {
            MasterKeyError::NotHex => "encryption.key should be hex digits",
            MasterKeyError::WrongLength => {
                "encryption.key should be exactly 96 bytes (192 hex chars)"
            },
        }
    }
}

/// `hex::FromHexError`, which tells why a text is not made of hex digits.
#[verifier::external_type_specification]
#[verifier::external_body]
pub struct ExFromHexError(FromHexError);

/// The white space of Unicode.
pub open spec fn white_space(c: char) -> bool {
    ||| '\u{9}' <= c <= '\u{d}'
    ||| c == '\u{20}'
    ||| c == '\u{85}'
    ||| c == '\u{a0}'
    ||| c == '\u{1680}'
    ||| '\u{2000}' <= c <= '\u{200a}'
    ||| c == '\u{2028}'
    ||| c == '\u{2029}'
    ||| c == '\u{202f}'
    ||| c == '\u{205f}'
    ||| c == '\u{3000}'
}

/// A text without the white space that it starts with.
pub open spec fn trimmed_start(text: Seq<char>) -> Seq<char>
    decreases text.len(),
{
    if text.len() > 0 && white_space(text.first()) {
        trimmed_start(text.drop_first())
    } else {
        text
    }
}

/// A text without the white space that it ends with.
pub open spec fn trimmed_end(text: Seq<char>) -> Seq<char>
    decreases text.len(),
{
    if text.len() > 0 && white_space(text.last()) {
        trimmed_end(text.drop_last())
    } else {
        text
    }
}

/// A text without the white space around it.
pub open spec fn trimmed(text: Seq<char>) -> Seq<char> {
    trimmed_end(trimmed_start(text))
}

/// `str::trim`, which takes away the white space of Unicode at both ends.
pub assume_specification[ str::trim ](s: &str) -> (result: &str)
    ensures
        result@ == trimmed(s@),
;

/// The value of a hex digit, of either case.
pub open spec fn hex_value(c: char) -> Option<int> {
    if '0' <= c <= '9' {
        Some(c as int - '0' as int)
    } else if 'a' <= c <= 'f' {
        Some(c as int - 'a' as int + 10)
    } else if 'A' <= c <= 'F' {
        Some(c as int - 'A' as int + 10)
    } else {
        None
    }
}

/// The bytes that a text of hex digits stands for, two digits each.
pub open spec fn hex_bytes(text: Seq<char>) -> Option<Seq<u8>> {
    if text.len() % 2 == 0 && forall|i: int|
        0 <= i < text.len() ==> hex_value(#[trigger] text[i]) is Some {
        Some(
            Seq::new(
                text.len() / 2,
                |i: int| (16 * hex_value(text[2 * i])->0 + hex_value(text[2 * i + 1])->0) as u8,
            ),
        )
    } else {
        None
    }
}

/// `hex::decode`: the bytes, if there is an even number of characters and each is
/// a hex digit.
#[verifier::external_body]
fn hex_decode(text: &str) -> (result: Result<Vec<u8>, FromHexError>)
    ensures
        result is Ok == hex_bytes(text@) is Some,
        result is Ok ==> result->Ok_0@ == hex_bytes(text@)->0,
{
    hex::decode(text)
}

/// The keys that the text of a key file stands for. White space around the digits
/// does not matter.
pub fn parse_master_key(text: &str) -> (result: Result<MasterKey, MasterKeyError>)
    ensures
        match hex_bytes(trimmed(text@)) {
            None => result == Err::<MasterKey, MasterKeyError>(MasterKeyError::NotHex),
            Some(bytes) => if bytes.len() != MASTER_KEY_BYTES {
                result == Err::<MasterKey, MasterKeyError>(MasterKeyError::WrongLength)
            } else {
                &&& result is Ok
                &&& result->Ok_0.file_key@ == bytes.take(FILE_KEY_BYTES as int)
                &&& result->Ok_0.cookie_key@ == bytes.skip(FILE_KEY_BYTES as int)
            },
        },
        result is Ok ==> hex_bytes(trimmed(text@)) == Some(
            result->Ok_0.file_key@ + result->Ok_0.cookie_key@,
        ),
{
    let bytes = match hex_decode(text.trim()) {
        Ok(bytes) => bytes,
        Err(_) => return Err(MasterKeyError::NotHex),
    };
    if bytes.len() != MASTER_KEY_BYTES {
        return Err(MasterKeyError::WrongLength);
    }
    let mut file_key: [u8; 32] = [0; 32];
    for i in 0..FILE_KEY_BYTES
        invariant
            bytes@.len() == MASTER_KEY_BYTES,
            file_key@.len() == FILE_KEY_BYTES,
            forall|j: int| 0 <= j < i ==> file_key@[j] == bytes@[j],
    {
        file_key[i] = bytes[i];
    }
    let mut cookie_key: [u8; 64] = [0; 64];
    for i in 0..COOKIE_KEY_BYTES
        invariant
            bytes@.len() == MASTER_KEY_BYTES,
            cookie_key@.len() == COOKIE_KEY_BYTES,
            forall|j: int| 0 <= j < i ==> cookie_key@[j] == bytes@[FILE_KEY_BYTES + j],
    {
        cookie_key[i] = bytes[FILE_KEY_BYTES + i];
    }
    assert(file_key@ =~= bytes@.take(FILE_KEY_BYTES as int));
    assert(cookie_key@ =~= bytes@.skip(FILE_KEY_BYTES as int));
    assert(file_key@ + cookie_key@ =~= bytes@);
    Ok(MasterKey { file_key, cookie_key })
}

proof fn lemma_leading_white_space(space: Seq<char>, rest: Seq<char>)
    requires
        forall|i: int| 0 <= i < space.len() ==> white_space(#[trigger] space[i]),
    ensures
        trimmed_start(space + rest) == trimmed_start(rest),
    decreases space.len(),
{
    if space.len() == 0 {
        assert(space + rest =~= rest);
    } else {
        assert((space + rest).first() == space[0]);
        assert((space + rest).drop_first() =~= space.drop_first() + rest);
        lemma_leading_white_space(space.drop_first(), rest);
    }
}

proof fn lemma_trailing_white_space(rest: Seq<char>, space: Seq<char>)
    requires
        forall|i: int| 0 <= i < space.len() ==> white_space(#[trigger] space[i]),
    ensures
        trimmed_end(rest + space) == trimmed_end(rest),
    decreases space.len(),
{
    if space.len() == 0 {
        assert(rest + space =~= rest);
    } else {
        assert((rest + space).last() == space[space.len() - 1]);
        assert((rest + space).drop_last() =~= rest + space.drop_last());
        lemma_trailing_white_space(rest, space.drop_last());
    }
}

proof fn lemma_trimmed_start_of_trailing(rest: Seq<char>, space: Seq<char>)
    requires
        forall|i: int| 0 <= i < space.len() ==> white_space(#[trigger] space[i]),
    ensures
        trimmed_end(trimmed_start(rest + space)) == trimmed_end(trimmed_start(rest)),
    decreases rest.len(),
{
    if rest.len() == 0 {
        assert(rest + space =~= space + Seq::<char>::empty());
        lemma_leading_white_space(space, Seq::empty());
        assert(rest =~= Seq::<char>::empty());
    } else if white_space(rest.first()) {
        assert((rest + space).first() == rest.first());
        assert((rest + space).drop_first() =~= rest.drop_first() + space);
        lemma_trimmed_start_of_trailing(rest.drop_first(), space);
    } else {
        assert((rest + space).first() == rest.first());
        lemma_trailing_white_space(rest, space);
    }
}

/// White space around a text does not matter to what it stands for.
pub proof fn law_surrounding_white_space_is_ignored(
    before: Seq<char>,
    text: Seq<char>,
    after: Seq<char>,
)
    requires
        forall|i: int| 0 <= i < before.len() ==> white_space(#[trigger] before[i]),
        forall|i: int| 0 <= i < after.len() ==> white_space(#[trigger] after[i]),
    ensures
        trimmed(before + text + after) == trimmed(text),
        hex_bytes(trimmed(before + text + after)) == hex_bytes(trimmed(text)),
{
    assert(before + text + after =~= before + (text + after));
    lemma_leading_white_space(before, text + after);
    lemma_trimmed_start_of_trailing(text, after);
}

/// The two keys together are the whole key file, and neither shares a byte of it
/// with the other.
pub proof fn law_keys_partition_the_file(text: Seq<char>, keys: MasterKey)
    requires
        hex_bytes(trimmed(text)) is Some,
        hex_bytes(trimmed(text))->0.len() == MASTER_KEY_BYTES,
        keys.file_key@ == hex_bytes(trimmed(text))->0.take(FILE_KEY_BYTES as int),
        keys.cookie_key@ == hex_bytes(trimmed(text))->0.skip(FILE_KEY_BYTES as int),
    ensures
        keys.file_key@ + keys.cookie_key@ == hex_bytes(trimmed(text))->0,
        keys.file_key@.len() + keys.cookie_key@.len() == MASTER_KEY_BYTES,
{
    let bytes = hex_bytes(trimmed(text))->0;
    assert(keys.file_key@ + keys.cookie_key@ =~= bytes);
}

proof fn lemma_trimmed_start(text: Seq<char>)
    ensures
        trimmed_start(text).len() <= text.len(),
        trimmed_start(text) == text.skip(text.len() - trimmed_start(text).len()),
        trimmed_start(text).len() > 0 ==> !white_space(trimmed_start(text).first()),
        forall|i: int|
            0 <= i < text.len() - trimmed_start(text).len() ==> white_space(#[trigger] text[i]),
    decreases text.len(),
{
    if text.len() > 0 && white_space(text.first()) {
        let rest = text.drop_first();
        lemma_trimmed_start(rest);
        assert(trimmed_start(text) =~= text.skip(text.len() - trimmed_start(text).len()));
        assert forall|i: int|
            0 <= i < text.len() - trimmed_start(text).len() implies white_space(
            #[trigger] text[i],
        ) by {
            if i > 0 {
                assert(text[i] == rest[i - 1]);
            }
        }
    } else {
        assert(text =~= text.skip(0));
    }
}

proof fn lemma_trimmed_end(text: Seq<char>)
    ensures
        trimmed_end(text).len() <= text.len(),
        trimmed_end(text) == text.take(trimmed_end(text).len() as int),
        trimmed_end(text).len() > 0 ==> !white_space(trimmed_end(text).last()),
        forall|i: int|
            trimmed_end(text).len() <= i < text.len() ==> white_space(#[trigger] text[i]),
    decreases text.len(),
{
    if text.len() > 0 && white_space(text.last()) {
        let rest = text.drop_last();
        lemma_trimmed_end(rest);
        assert(trimmed_end(text) =~= text.take(trimmed_end(text).len() as int));
        assert forall|i: int|
            trimmed_end(text).len() <= i < text.len() implies white_space(#[trigger] text[i]) by {
            if i < rest.len() {
                assert(text[i] == rest[i]);
            }
        }
    } else {
        assert(text =~= text.take(text.len() as int));
    }
}

/// A trimmed text neither starts nor ends with white space, and what was taken away is
/// white space alone.
pub proof fn law_white_space_alone_is_trimmed(text: Seq<char>) -> (range: (int, int))
    ensures
        0 <= range.0 <= range.1 <= text.len(),
        trimmed(text) == text.subrange(range.0, range.1),
        forall|i: int| 0 <= i < range.0 ==> white_space(#[trigger] text[i]),
        forall|i: int| range.1 <= i < text.len() ==> white_space(#[trigger] text[i]),
        trimmed(text).len() > 0 ==> !white_space(trimmed(text).first()) && !white_space(
            trimmed(text).last(),
        ),
{
    let start = trimmed_start(text);
    lemma_trimmed_start(text);
    lemma_trimmed_end(start);
    let from = text.len() - start.len();
    let to = from + trimmed(text).len();
    assert(trimmed(text) =~= text.subrange(from, to));
    assert forall|i: int| to <= i < text.len() implies white_space(#[trigger] text[i]) by {
        assert(text[i] == start[i - from]);
    }
    if trimmed(text).len() > 0 {
        assert(trimmed(text).first() == start.first());
    }
    (from, to)
}

/// A text stands for bytes exactly if it has an even number of characters and each is a
/// hex digit; the halves of each byte are then the values of its two digits.
pub proof fn law_two_digits_make_a_byte(text: Seq<char>, i: int)
    ensures
        hex_bytes(text) is Some <==> {
            &&& text.len() % 2 == 0
            &&& forall|k: int| 0 <= k < text.len() ==> hex_value(#[trigger] text[k]) is Some
        },
        hex_bytes(text) is Some ==> 2 * hex_bytes(text)->0.len() == text.len(),
        hex_bytes(text) is Some && 0 <= i < hex_bytes(text)->0.len() ==> {
            &&& hex_value(text[2 * i]) == Some(hex_bytes(text)->0[i] as int / 16)
            &&& hex_value(text[2 * i + 1]) == Some(hex_bytes(text)->0[i] as int % 16)
        },
{
    if hex_bytes(text) is Some && 0 <= i < hex_bytes(text)->0.len() {
        assert(hex_value(text[2 * i]) is Some);
        assert(hex_value(text[2 * i + 1]) is Some);
    }
}

}
