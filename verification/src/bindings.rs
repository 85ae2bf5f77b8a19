//! The calls into other crates. Nothing in this file is proved: each
//! contract states what the called function's source shows, and the rest of
//! the library is verified against these contracts.

use vstd::prelude::*;
use vstd::utf8::*;
use base64::Engine;
use base64::prelude::BASE64_STANDARD;
use crate::descriptor::{MembersModel, TargetMembers};
use crate::digits::digit_runs_fit_in;
use queues::IsQueue;
use queues::Queue;

verus! {

/// `queues::Queue`, a first-in, first-out queue over a growable array.
#[verifier::external_type_specification]
#[verifier::external_body]
#[verifier::reject_recursive_types(T)]
pub struct ExQueue<T: Clone>(Queue<T>);

/// The tokens that a queue holds, the oldest first.
pub uninterp spec fn queue_tokens(q: Queue<String>) -> Seq<Seq<char>>;

/// `Queue::new`: a queue that holds nothing.
#[verifier::external_body]
pub(crate) fn queue_new() -> (q: Queue<String>)
    ensures
        queue_tokens(q) == Seq::<Seq<char>>::empty(),
{
    Queue::new()
}

/// `Queue::add`: puts the token behind all that the queue holds. The call
/// cannot fail on this kind of queue, which has no limit.
#[verifier::external_body]
pub(crate) fn queue_add(q: &mut Queue<String>, token: String)
    ensures
        queue_tokens(*final(q)) == queue_tokens(*old(q)).push(token@),
{
    let _ = q.add(token);
}

/// `Queue::remove`: takes the oldest token out and returns it. From an
/// empty queue nothing is taken, and the queue stays empty.
#[verifier::external_body]
pub(crate) fn queue_remove(q: &mut Queue<String>) -> (head: Option<String>)
    ensures
        queue_tokens(*old(q)).len() == 0 ==> head is None && queue_tokens(*final(q))
            == queue_tokens(*old(q)),
        queue_tokens(*old(q)).len() > 0 ==> head is Some && head->0@ == queue_tokens(*old(q))[0]
            && queue_tokens(*final(q)) == queue_tokens(*old(q)).drop_first(),
{
    q.remove().ok()
}

/// `Queue::size`: how many tokens the queue holds.
#[verifier::external_body]
pub(crate) fn queue_size(q: &Queue<String>) -> (n: usize)
    ensures
        n == queue_tokens(*q).len(),
{
    q.size()
}

/// The longest text, in bytes, that is handed to the base64 encoder. The
/// encoder fails where the length of its output cannot be allocated; the
/// output for this many bytes is well below that on every machine.
pub const MAX_ENCODE_INPUT: usize = 0x4000_0000;

/// The base64 text (standard alphabet, padded) of a sequence of bytes.
pub uninterp spec fn base64_encoded(bytes: Seq<u8>) -> Seq<char>;

/// The bytes that a base64 text (standard alphabet, padded) stands for, if
/// it is one.
pub uninterp spec fn base64_decoded(text: Seq<char>) -> Option<Seq<u8>>;

/// `base64::DecodeError`, the reason why a text is no base64.
#[verifier::external_type_specification]
#[verifier::external_body]
pub struct ExDecodeError(base64::DecodeError);

/// `Engine::encode` of the standard engine, on the bytes of `text`. What it
/// returns is base64 text, and decoding that text gives the bytes back.
#[verifier::external_body]
pub(crate) fn base64_encode(text: &str) -> (token: String)
    requires
        encode_utf8(text@).len() <= MAX_ENCODE_INPUT,
    ensures
        token@ == base64_encoded(encode_utf8(text@)),
        base64_decoded(token@) == Some(encode_utf8(text@)),
{
    BASE64_STANDARD.encode(text)
}

/// `Engine::decode` of the standard engine: the bytes that `token` stands
/// for, or the reason why it is no base64.
#[verifier::external_body]
pub(crate) fn base64_decode(token: &str) -> (r: Result<Vec<u8>, base64::DecodeError>)
    ensures
        match r {
            Ok(bytes) => base64_decoded(token@) == Some(bytes@),
            Err(_) => base64_decoded(token@) is None,
        },
{
    BASE64_STANDARD.decode(token)
}

/// `String::from_utf8`: the text that the bytes encode, if they are valid
/// UTF-8, and nothing if they are not.
#[verifier::external_body]
pub(crate) fn text_from_utf8(bytes: Vec<u8>) -> (r: Option<String>)
    ensures
        match r {
            Some(text) => valid_utf8(bytes@) && text@ == decode_utf8(bytes@),
            None => !valid_utf8(bytes@),
        },
{
    String::from_utf8(bytes).ok()
}

/// The text that `json::stringify` writes for an object of four members,
/// put in in this order: three that hold a text and, in the third place, one
/// that holds a number.
pub uninterp spec fn json_record_text(
    k0: Seq<char>,
    v0: Seq<char>,
    k1: Seq<char>,
    v1: Seq<char>,
    k2: Seq<char>,
    v2: u64,
    k3: Seq<char>,
    v3: Seq<char>,
) -> Seq<char>;

/// Whether `json::parse` accepts the text.
pub uninterp spec fn json_parses(text: Seq<char>) -> bool;

/// The text held under `key` by the value that `text` parses to: nothing
/// where that value is no object, has no such member, or holds something
/// other than a text there.
pub uninterp spec fn json_text_member(text: Seq<char>, key: Seq<char>) -> Option<Seq<char>>;

/// The number held under `key` by the value that `text` parses to, as
/// `as_u64` reads it: nothing where that value is no object, has no such
/// member, or holds there something other than a number without sign,
/// fraction or exponent that fits in 64 bits.
pub uninterp spec fn json_number_member(text: Seq<char>, key: Seq<char>) -> Option<u64>;

/// Whether four keys differ from one another.
pub open spec fn distinct_keys(k0: Seq<char>, k1: Seq<char>, k2: Seq<char>, k3: Seq<char>) -> bool {
    k0 != k1 && k0 != k2 && k0 != k3 && k1 != k2 && k1 != k3 && k2 != k3
}

/// `json::stringify` of an object built by `JsonValue::insert`. Where the
/// four keys differ, the text parses again and each member is read back as
/// it was put in.
#[verifier::external_body]
pub(crate) fn json_stringify_record(
    k0: &str,
    v0: &str,
    k1: &str,
    v1: &str,
    k2: &str,
    v2: u64,
    k3: &str,
    v3: &str,
) -> (text: String)
    ensures
        text@ == json_record_text(k0@, v0@, k1@, v1@, k2@, v2, k3@, v3@),
        distinct_keys(k0@, k1@, k2@, k3@) ==> json_parses(text@) && json_text_member(text@, k0@)
            == Some(v0@) && json_text_member(text@, k1@) == Some(v1@) && json_number_member(
            text@,
            k2@,
        ) == Some(v2) && json_text_member(text@, k3@) == Some(v3@),
{
    let mut record = json::JsonValue::new_object();
    let _ = record.insert(k0, v0);
    let _ = record.insert(k1, v1);
    let _ = record.insert(k2, v2);
    let _ = record.insert(k3, v3);
    json::stringify(record)
}

/// `json::parse`, then the members under four keys, read with `as_str` and,
/// in the third place, `as_u64`. Nothing is returned where the text does not
/// parse. The parser counts the digits of a fraction in 16 bits and fails
/// beyond that, so the text may hold no run of digits that long.
#[verifier::external_body]
pub(crate) fn json_parse_record(text: &str, k0: &str, k1: &str, k2: &str, k3: &str) -> (r: Option<
    TargetMembers,
>)
    requires
        digit_runs_fit_in(encode_utf8(text@)),
    ensures
        (r is Some) == json_parses(text@),
        r matches Some(m) ==> m@ == (MembersModel {
            id: json_text_member(text@, k0@),
            url: json_text_member(text@, k1@),
            total_size: json_number_member(text@, k2@),
            file_path: json_text_member(text@, k3@),
        }),
{
    match json::parse(text) {
        Ok(value) => Some(
            TargetMembers {
                id: value[k0].as_str().map(String::from),
                url: value[k1].as_str().map(String::from),
                total_size: value[k2].as_u64(),
                file_path: value[k3].as_str().map(String::from),
            },
        ),
        Err(_) => None,
    }
}

} // verus!
