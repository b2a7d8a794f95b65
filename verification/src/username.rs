//! Username normalization.
//!
//! A username arrives as a host string, which holds any bytes at all. Two
//! usernames name the same user when they agree after normalization: outer
//! spaces stripped, ASCII letters in lower case.

use vstd::prelude::*;
use vstd::utf8::*;

use crate::error::OnboardingError;

verus! {

/// The longest username, in bytes, that normalization accepts.
pub const MAX_INPUT_BYTES: usize = 256;

/// The byte that is stripped from both ends of a username.
pub const SPACE: u8 = 32;

/// `b` with an upper case ASCII letter put in lower case.
pub open spec fn lower(b: u8) -> u8 {
    if 65 <= b <= 90 {
        (b + 32) as u8
    } else {
        b
    }
}

/// `s` with its upper case ASCII letters put in lower case.
pub open spec fn lowered(s: Seq<u8>) -> Seq<u8> {
    s.map_values(|b: u8| lower(b))
}

/// `s` without its leading spaces.
pub open spec fn trim_start(s: Seq<u8>) -> Seq<u8>
    decreases s.len(),
{
    if s.len() > 0 && s[0] == SPACE {
        trim_start(s.drop_first())
    } else {
        s
    }
}

/// `s` without its trailing spaces.
pub open spec fn trim_end(s: Seq<u8>) -> Seq<u8>
    decreases s.len(),
{
    if s.len() > 0 && s.last() == SPACE {
        trim_end(s.drop_last())
    } else {
        s
    }
}

/// The bytes of a username after normalization: outer spaces stripped, ASCII
/// letters in lower case.
pub open spec fn normalized_bytes(s: Seq<u8>) -> Seq<u8> {
    lowered(trim_end(trim_start(s)))
}

/// The name that the bytes of a username stand for: the text that their
/// normalized form spells, and the empty name where it spells none.
pub open spec fn normalized_name(s: Seq<u8>) -> Seq<char> {
    if valid_utf8(normalized_bytes(s)) {
        decode_utf8(normalized_bytes(s))
    } else {
        Seq::empty()
    }
}

/// The error of `core::str::from_utf8`, which nothing here looks into.
#[verifier::external_type_specification]
#[verifier::external_body]
pub struct ExUtf8Error(core::str::Utf8Error);

/// `core::str::from_utf8`: succeeds exactly on well-formed UTF-8, and the text
/// it returns is encoded by the given bytes.
pub assume_specification<'a>[ core::str::from_utf8 ](v: &'a [u8]) -> (r: Result<
    &'a str,
    core::str::Utf8Error,
>)
    ensures
        r is Ok <==> valid_utf8(v@),
        r matches Ok(text) ==> encode_utf8(text@) == v@,
;

/// The normalized form of the bytes of a username.
pub fn normalize(username: &[u8]) -> (r: Result<String, OnboardingError>)
    ensures
        username@.len() > MAX_INPUT_BYTES ==> r == Err::<String, _>(
            OnboardingError::UsernameTooLong,
        ),
        username@.len() <= MAX_INPUT_BYTES ==> (r matches Ok(name) && name@ == normalized_name(
            username@,
        )),
{
    if username.len() > MAX_INPUT_BYTES {
        return Err(OnboardingError::UsernameTooLong);
    }
    let bytes = normalized_vec(username);
    match core::str::from_utf8(bytes.as_slice()) {
        Ok(text) => {
            proof {
                encode_utf8_decode_utf8(text@);
            }
            Ok(text.to_owned())
        },
        Err(_) => Ok(String::new()),
    }
}

/// The normalized bytes of a username.
fn normalized_vec(username: &[u8]) -> (out: Vec<u8>)
    ensures
        out@ == normalized_bytes(username@),
{
    let len: usize = username.len();
    let mut start: usize = 0;
    proof {
        assert(username@.skip(0) =~= username@);
    }
    while start < len && username[start] == SPACE
        invariant
            len == username@.len(),
            start <= len,
            trim_start(username@) == trim_start(username@.skip(start as int)),
        decreases len - start,
    {
        proof {
            assert(username@.skip(start as int).drop_first() =~= username@.skip(start + 1));
        }
        start = start + 1;
    }
    let ghost head = username@.skip(start as int);
    let mut end: usize = len;
    proof {
        assert(trim_start(username@) == head);
        assert(username@.subrange(start as int, end as int) =~= head);
    }
    while start < end && username[end - 1] == SPACE
        invariant
            start <= end <= len,
            len == username@.len(),
            trim_end(head) == trim_end(username@.subrange(start as int, end as int)),
        decreases end - start,
    {
        proof {
            assert(username@.subrange(start as int, end as int).drop_last() =~= username@.subrange(
                start as int,
                end - 1,
            ));
        }
        end = end - 1;
    }
    let ghost body = username@.subrange(start as int, end as int);
    assert(trim_end(head) == body);
    let mut out: Vec<u8> = Vec::new();
    let mut i: usize = start;
    while i < end
        invariant
            start <= i <= end <= username@.len(),
            body == username@.subrange(start as int, end as int),
            out@ == lowered(body.take(i - start)),
        decreases end - i,
    {
        let b: u8 = username[i];
        proof {
            assert(body.take(i - start + 1) =~= body.take(i - start).push(b));
        }
        if 65 <= b && b <= 90 {
            out.push(b + 32);
        } else {
            out.push(b);
        }
        i = i + 1;
        assert(out@ =~= lowered(body.take(i - start)));
    }
    assert(body.take(body.len() as int) =~= body);
    out
}

/// A run of `n` spaces.
pub open spec fn spaces(n: nat) -> Seq<u8> {
    Seq::new(n, |i: int| SPACE)
}

proof fn lemma_trim_start(s: Seq<u8>)
    ensures
        trim_start(s).len() <= s.len(),
        trim_start(s).len() > 0 ==> trim_start(s)[0] != SPACE,
        trim_start(lowered(s)) == lowered(trim_start(s)),
    decreases s.len(),
{
    if s.len() > 0 && s[0] == SPACE {
        lemma_trim_start(s.drop_first());
        assert(lowered(s).drop_first() =~= lowered(s.drop_first()));
    }
}

proof fn lemma_trim_end(s: Seq<u8>)
    ensures
        trim_end(s).len() <= s.len(),
        trim_end(s).len() > 0 ==> trim_end(s).last() != SPACE && trim_end(s)[0] == s[0],
        trim_end(lowered(s)) == lowered(trim_end(s)),
    decreases s.len(),
{
    if s.len() > 0 && s.last() == SPACE {
        lemma_trim_end(s.drop_last());
        assert(lowered(s).drop_last() =~= lowered(s.drop_last()));
    }
}

proof fn lemma_trim_start_spaces(n: nat, s: Seq<u8>)
    ensures
        trim_start(spaces(n) + s) == trim_start(s),
    decreases n,
{
    if n == 0 {
        assert(spaces(n) + s =~= s);
    } else {
        assert((spaces(n) + s).drop_first() =~= spaces((n - 1) as nat) + s);
        lemma_trim_start_spaces((n - 1) as nat, s);
    }
}

proof fn lemma_trim_end_spaces(s: Seq<u8>, n: nat)
    ensures
        trim_end(s + spaces(n)) == trim_end(s),
    decreases n,
{
    if n == 0 {
        assert(s + spaces(n) =~= s);
    } else {
        assert((s + spaces(n)).drop_last() =~= s + spaces((n - 1) as nat));
        lemma_trim_end_spaces(s, (n - 1) as nat);
    }
}

/// Stripping leading spaces looks at nothing behind the first byte that stays.
proof fn lemma_trim_start_append(s: Seq<u8>, t: Seq<u8>)
    ensures
        trim_start(s).len() > 0 ==> trim_start(s + t) == trim_start(s) + t,
        trim_start(s).len() == 0 ==> trim_start(s + t) == trim_start(t),
    decreases s.len(),
{
    if s.len() == 0 {
        assert(s + t =~= t);
    } else if s[0] == SPACE {
        assert((s + t).drop_first() =~= s.drop_first() + t);
        lemma_trim_start_append(s.drop_first(), t);
    }
}

/// Normalization never lengthens a username, and the bytes that encode the
/// normalized name are the normalized bytes, if they spell a text at all.
pub proof fn law_normalized_name_encoding(s: Seq<u8>)
    ensures
        normalized_bytes(s).len() <= s.len(),
        encode_utf8(normalized_name(s)) == if valid_utf8(normalized_bytes(s)) {
            normalized_bytes(s)
        } else {
            Seq::empty()
        },
{
    lemma_trim_start(s);
    lemma_trim_end(trim_start(s));
    if valid_utf8(normalized_bytes(s)) {
        decode_utf8_encode_utf8(normalized_bytes(s));
    } else {
        assert(encode_utf8(Seq::empty()) =~= Seq::empty());
    }
}

/// Normalization ignores case: usernames that differ in the case of ASCII
/// letters only have one normalized name.
pub proof fn law_normalization_ignores_case(s: Seq<u8>, t: Seq<u8>)
    requires
        lowered(s) == lowered(t),
    ensures
        normalized_bytes(s) == normalized_bytes(t),
        normalized_name(s) == normalized_name(t),
{
    lemma_trim_start(s);
    lemma_trim_start(t);
    lemma_trim_end(trim_start(s));
    lemma_trim_end(trim_start(t));
}

/// Normalization strips leading and trailing spaces, however many.
pub proof fn law_normalization_strips_outer_spaces(m: nat, s: Seq<u8>, n: nat)
    ensures
        normalized_bytes(spaces(m) + s + spaces(n)) == normalized_bytes(s),
        normalized_name(spaces(m) + s + spaces(n)) == normalized_name(s),
{
    assert(spaces(m) + s + spaces(n) =~= spaces(m) + (s + spaces(n)));
    lemma_trim_start_spaces(m, s + spaces(n));
    lemma_trim_start_append(s, spaces(n));
    if trim_start(s).len() > 0 {
        lemma_trim_end_spaces(trim_start(s), n);
    } else {
        assert(spaces(n) =~= spaces(n) + Seq::empty());
        lemma_trim_start_spaces(n, Seq::empty());
        assert(trim_start(s) =~= Seq::empty());
    }
}

/// A normalized username has no space at either end, and no upper case ASCII
/// letter anywhere.
pub proof fn law_normalized_bytes_are_clean(s: Seq<u8>)
    ensures
        normalized_bytes(s).len() > 0 ==> normalized_bytes(s)[0] != SPACE && normalized_bytes(
            s,
        ).last() != SPACE,
        forall|i: int|
            0 <= i < normalized_bytes(s).len() ==> !(65 <= #[trigger] normalized_bytes(s)[i] <= 90),
{
    lemma_trim_start(s);
    lemma_trim_end(trim_start(s));
}

/// An ASCII text with no upper case letter and no space at either end is its own
/// normalized name.
pub proof fn law_plain_text_is_normalized(text: Seq<char>)
    requires
        is_ascii_chars(text),
        forall|i: int| 0 <= i < text.len() ==> !('A' <= #[trigger] text[i] <= 'Z'),
        text.len() > 0 ==> text[0] != ' ' && text.last() != ' ',
    ensures
        normalized_name(encode_utf8(text)) == text,
{
    let bytes = encode_utf8(text);
    is_ascii_chars_encode_utf8(text);
    is_ascii_chars_nat_bound(text);
    assert(forall|i: int| 0 <= i < text.len() ==> bytes[i] == #[trigger] text[i] as u8);
    assert(trim_start(bytes) == bytes);
    assert(trim_end(bytes) == bytes);
    assert(lowered(bytes) =~= bytes);
    encode_utf8_valid_utf8(text);
    encode_utf8_decode_utf8(text);
}

/// Normalizing a normalized name changes nothing.
pub proof fn law_normalization_is_idempotent(s: Seq<u8>)
    ensures
        normalized_bytes(normalized_bytes(s)) == normalized_bytes(s),
        normalized_name(encode_utf8(normalized_name(s))) == normalized_name(s),
{
    let n = normalized_bytes(s);
    law_normalized_bytes_are_clean(s);
    law_normalized_name_encoding(s);
    assert(trim_start(n) == n);
    assert(trim_end(n) == n);
    assert(lowered(n) =~= n);
    assert(trim_start(Seq::empty()) =~= Seq::empty());
    assert(normalized_bytes(Seq::empty()) =~= Seq::empty());
    assert(decode_utf8(Seq::empty()) =~= Seq::empty());
}

/// What normalization does, byte by byte: between any number of leading and
/// trailing spaces (byte 32) it keeps every byte of a username that neither begins
/// nor ends with a space, in its place, but for the bytes 65 to 90 (A to Z), which
/// become the bytes 97 to 122 (a to z) in the same order.
pub proof fn law_normalization_byte_by_byte(head: Seq<u8>, body: Seq<u8>, tail: Seq<u8>)
    requires
        forall|i: int| 0 <= i < head.len() ==> #[trigger] head[i] == 32,
        forall|i: int| 0 <= i < tail.len() ==> #[trigger] tail[i] == 32,
        body.len() > 0 ==> body[0] != 32 && body[body.len() - 1] != 32,
    ensures
        ({
            let n = normalized_bytes(head + body + tail);
            &&& n.len() == body.len()
            &&& forall|i: int|
                0 <= i < body.len() && 65 <= #[trigger] body[i] <= 90 ==> 97 <= n[i] <= 122 && n[i]
                    - 97 == body[i] - 65
            &&& forall|i: int|
                0 <= i < body.len() && !(65 <= #[trigger] body[i] <= 90) ==> n[i] == body[i]
        }),
{
    assert(head =~= spaces(head.len()));
    assert(tail =~= spaces(tail.len()));
    law_normalization_strips_outer_spaces(head.len(), body, tail.len());
    assert(trim_start(body) == body);
    assert(trim_end(body) == body);
}

/// The letters that correspond by position in the alphabet, and no others, are one
/// letter to normalization: usernames that differ only in bytes 65 + k against
/// 97 + k, for k below 26, have one normalized name.
pub proof fn law_letters_differ_in_case_only(s: Seq<u8>, t: Seq<u8>)
    requires
        s.len() == t.len(),
        forall|i: int|
            0 <= i < s.len() ==> {
                ||| #[trigger] s[i] == t[i]
                ||| 65 <= s[i] <= 90 && t[i] == s[i] + 32
                ||| 65 <= t[i] <= 90 && s[i] == t[i] + 32
            },
    ensures
        normalized_bytes(s) == normalized_bytes(t),
        normalized_name(s) == normalized_name(t),
{
    assert(lowered(s) =~= lowered(t));
    law_normalization_ignores_case(s, t);
}

/// Usernames that do not begin or end with a space and differ in anything but the
/// case of ASCII letters have different normalized bytes.
pub proof fn law_normalization_keeps_apart(s: Seq<u8>, t: Seq<u8>)
    requires
        s.len() > 0 ==> s[0] != 32 && s[s.len() - 1] != 32,
        t.len() > 0 ==> t[0] != 32 && t[t.len() - 1] != 32,
        normalized_bytes(s) == normalized_bytes(t),
    ensures
        s.len() == t.len(),
        forall|i: int|
            0 <= i < s.len() ==> {
                ||| #[trigger] s[i] == t[i]
                ||| 65 <= s[i] <= 90 && t[i] == s[i] + 32
                ||| 65 <= t[i] <= 90 && s[i] == t[i] + 32
            },
{
    let none: Seq<u8> = Seq::empty();
    assert(none + s + none =~= s);
    assert(none + t + none =~= t);
    law_normalization_byte_by_byte(none, s, none);
    law_normalization_byte_by_byte(none, t, none);
    assert forall|i: int| 0 <= i < s.len() implies {
        ||| #[trigger] s[i] == t[i]
        ||| 65 <= s[i] <= 90 && t[i] == s[i] + 32
        ||| 65 <= t[i] <= 90 && s[i] == t[i] + 32
    } by {
        assert(lowered(s)[i] == lower(s[i]));
        assert(lowered(t)[i] == lower(t[i]));
    }
}

/// The normalized name is the text that the normalized bytes encode, and empty
/// where they encode none.
pub proof fn law_normalized_name_is_text_of_bytes(s: Seq<u8>)
    ensures
        valid_utf8(normalized_bytes(s)) ==> encode_utf8(normalized_name(s)) == normalized_bytes(s),
        !valid_utf8(normalized_bytes(s)) ==> normalized_name(s).len() == 0,
{
    law_normalized_name_encoding(s);
}

/// Usernames may have up to 256 bytes, and the byte that is stripped is the space.
pub proof fn law_username_constants()
    ensures
        MAX_INPUT_BYTES == 256,
        SPACE == 32,
{
}

} // verus!
