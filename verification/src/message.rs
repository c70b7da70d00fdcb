//! The messages that a call exchanges.

use crate::crypto::{decrypted, is_encryption_of};
use crate::error::ErrorKind;
use vstd::prelude::*;

verus! {

/// A message from the caller. On the wire its text is a wire string.
#[derive(Clone, Debug, PartialEq, Eq)]
pub struct HelloRequest {
    pub message: String,
}

/// A message to the caller. On the wire its text is a wire string.
#[derive(Clone, Debug, PartialEq, Eq)]
pub struct HelloResponse {
    pub message: String,
}

/// Whether `wire` is an encryption of `text` under `key` that the holder of
/// the key reads back as `text`.
pub open spec fn carries(key: Seq<u8>, wire: Seq<char>, text: Seq<char>) -> bool {
    &&& is_encryption_of(key, wire, text)
    &&& decrypted(key, wire) == Ok::<Seq<char>, ErrorKind>(text)
}

/// Whether `outcome` is a reply that carries `text` under `key`.
pub open spec fn replies_with(
    key: Seq<u8>,
    outcome: Result<HelloResponse, ErrorKind>,
    text: Seq<char>,
) -> bool {
    outcome matches Ok(response) && carries(key, response.message@, text)
}

/// Whether `outcome` is the failure of the given kind.
pub open spec fn fails_with<T>(outcome: Result<T, ErrorKind>, kind: ErrorKind) -> bool {
    outcome matches Err(failure) && failure == kind
}

/// The texts of a sequence of requests as they came over the wire.
pub open spec fn payloads(requests: Seq<HelloRequest>) -> Seq<Seq<char>> {
    Seq::new(requests.len(), |i: int| requests[i].message@)
}

/// What decrypting every payload of a sequence gives: the texts in their
/// order, or the error of the first payload that has one.
pub open spec fn decrypted_all(key: Seq<u8>, wires: Seq<Seq<char>>) -> Result<
    Seq<Seq<char>>,
    ErrorKind,
>
    decreases wires.len(),
{
    if wires.len() == 0 {
        Ok(Seq::empty())
    } else {
        match decrypted_all(key, wires.drop_last()) {
            Err(kind) => Err(kind),
            Ok(texts) => match decrypted(key, wires.last()) {
                Err(kind) => Err(kind),
                Ok(text) => Ok(texts.push(text)),
            },
        }
    }
}

/// Once a payload of a sequence has failed to decrypt, the sequence fails
/// with the same error however it goes on.
pub proof fn lemma_failure_stays(key: Seq<u8>, wires: Seq<Seq<char>>, upto: int)
    requires
        0 <= upto <= wires.len(),
    ensures
        decrypted_all(key, wires.take(upto)) matches Err(kind) ==> decrypted_all(key, wires)
            == Err::<Seq<Seq<char>>, ErrorKind>(kind),
    decreases wires.len() - upto,
{
    if upto < wires.len() {
        assert(wires.take(upto + 1).drop_last() =~= wires.take(upto));
        lemma_failure_stays(key, wires, upto + 1);
    } else {
        assert(wires.take(upto) =~= wires);
    }
}

/// Decrypting a sequence of payloads goes item by item: it gives the text of
/// every payload where all of them decrypt, and else the error of the first
/// that does not.
pub proof fn lemma_decrypted_all_by_item(key: Seq<u8>, wires: Seq<Seq<char>>)
    ensures
        match decrypted_all(key, wires) {
            Ok(texts) => texts.len() == wires.len() && forall|i: int|
                0 <= i < wires.len() ==> decrypted(key, #[trigger] wires[i]) == Ok::<
                    Seq<char>,
                    ErrorKind,
                >(texts[i]),
            Err(kind) => exists|at: int|
                0 <= at < wires.len() && decrypted(key, #[trigger] wires[at]) == Err::<
                    Seq<char>,
                    ErrorKind,
                >(kind) && forall|i: int| 0 <= i < at ==> decrypted(key, #[trigger] wires[i]) is Ok,
        },
    decreases wires.len(),
{
    if wires.len() > 0 {
        let earlier = wires.drop_last();
        lemma_decrypted_all_by_item(key, earlier);
        match decrypted_all(key, earlier) {
            Ok(texts) => {
                match decrypted(key, wires.last()) {
                    Ok(text) => {
                        assert forall|i: int| 0 <= i < wires.len() implies decrypted(
                            key,
                            #[trigger] wires[i],
                        ) == Ok::<Seq<char>, ErrorKind>(texts.push(text)[i]) by {
                            if i < earlier.len() {
                                assert(wires[i] == earlier[i]);
                            }
                        }
                    },
                    Err(kind) => {
                        let at = wires.len() - 1;
                        assert forall|i: int| 0 <= i < at implies decrypted(
                            key,
                            #[trigger] wires[i],
                        ) is Ok by {
                            assert(wires[i] == earlier[i]);
                        }
                        assert(decrypted(key, wires[at]) == Err::<Seq<char>, ErrorKind>(kind));
                    },
                }
            },
            Err(kind) => {
                let at = choose|at: int|
                    0 <= at < earlier.len() && decrypted(key, #[trigger] earlier[at]) == Err::<
                        Seq<char>,
                        ErrorKind,
                    >(kind) && forall|i: int|
                        0 <= i < at ==> decrypted(key, #[trigger] earlier[i]) is Ok;
                assert(wires[at] == earlier[at]);
                assert forall|i: int| 0 <= i < at implies decrypted(
                    key,
                    #[trigger] wires[i],
                ) is Ok by {
                    assert(wires[i] == earlier[i]);
                }
            },
        }
    }
}

} // verus!
