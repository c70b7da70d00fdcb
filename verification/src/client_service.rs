//! The caller's side of the four call shapes: the requests it sends, and how
//! it reads what comes back. Sending and receiving are left to the program
//! that owns the connection.

use crate::crypto::{decrypt_message, decrypted, encrypt_message, text_of};
use crate::error::ErrorKind;
use crate::message::{carries, HelloRequest, HelloResponse};
use crate::text::{decimal, decimal_padded, decimal_padded_string, decimal_string};
use vstd::prelude::*;
use vstd::string::*;

verus! {

/// The key that the caller uses unless it is given another.
pub const AES_KEY: [u8; 16] = [0, 0, 0, 0, 0, 0, 0, 0, 0, 0, 0, 0, 0, 0, 0, 0];

/// The text of the single request.
pub open spec fn single_message() -> Seq<char> {
    "Hello from client!"@
}

/// The text of the request that a server-streaming call begins with.
pub open spec fn server_stream_message() -> Seq<char> {
    "from client"@
}

/// The text of the request of the given number in a client-streaming call.
pub open spec fn counted_message(number: nat) -> Seq<char> {
    "Message "@ + decimal(number)
}

/// The text of the request of the given number in a bidirectional call.
pub open spec fn numbered_message(number: nat) -> Seq<char> {
    "msg "@ + decimal_padded(number)
}

/// The request that carries `text` under `aes_key`.
fn request_of(aes_key: &[u8; 16], text: &str) -> (request: HelloRequest)
    ensures
        carries(aes_key@, request.message@, text@),
{
    HelloRequest { message: encrypt_message(aes_key, text) }
}

/// The request of a unary call.
pub fn single_request(aes_key: &[u8; 16]) -> (request: HelloRequest)
    ensures
        carries(aes_key@, request.message@, single_message()),
{
    request_of(aes_key, "Hello from client!")
}

/// The request of a server-streaming call.
pub fn server_stream_request(aes_key: &[u8; 16]) -> (request: HelloRequest)
    ensures
        carries(aes_key@, request.message@, server_stream_message()),
{
    request_of(aes_key, "from client")
}

/// The requests of a client-streaming call: `num` of them, numbered from
/// one, in the order in which they are to be sent.
pub fn streaming_requests(aes_key: &[u8; 16], num: usize) -> (requests: Vec<HelloRequest>)
    ensures
        requests@.len() == num,
        forall|i: int|
            0 <= i < num ==> carries(
                aes_key@,
                #[trigger] requests@[i].message@,
                counted_message((i + 1) as nat),
            ),
{
    let mut requests: Vec<HelloRequest> = Vec::new();
    let mut i: usize = 0;
    while i < num
        invariant
            i <= num,
            requests@.len() == i,
            forall|j: int|
                0 <= j < i ==> carries(
                    aes_key@,
                    #[trigger] requests@[j].message@,
                    counted_message((j + 1) as nat),
                ),
        decreases num - i,
    {
        let mut text = "Message ".to_owned();
        text.append(decimal_string(i + 1).as_str());
        requests.push(request_of(aes_key, text.as_str()));
        i += 1;
    }
    requests
}

/// The number of requests that a bidirectional call of `num` requests sends:
/// the numbers run from one to below the largest that the machine counts to.
pub open spec fn hello_count(num: usize) -> nat {
    if num < usize::MAX {
        num as nat
    } else {
        (usize::MAX - 1) as nat
    }
}

/// The first `num` requests of a bidirectional call, numbered from one on
/// two places at least.
pub fn hello_requests(aes_key: &[u8; 16], num: usize) -> (requests: Vec<HelloRequest>)
    ensures
        requests@.len() == hello_count(num),
        forall|i: int|
            0 <= i < requests@.len() ==> carries(
                aes_key@,
                #[trigger] requests@[i].message@,
                numbered_message((i + 1) as nat),
            ),
{
    let count = if num < usize::MAX {
        num
    } else {
        usize::MAX - 1
    };
    let mut requests: Vec<HelloRequest> = Vec::new();
    let mut i: usize = 0;
    while i < count
        invariant
            i <= count,
            count < usize::MAX,
            requests@.len() == i,
            forall|j: int|
                0 <= j < i ==> carries(
                    aes_key@,
                    #[trigger] requests@[j].message@,
                    numbered_message((j + 1) as nat),
                ),
        decreases count - i,
    {
        let mut text = "msg ".to_owned();
        text.append(decimal_padded_string(i + 1).as_str());
        requests.push(request_of(aes_key, text.as_str()));
        i += 1;
    }
    requests
}

/// Reads a reply: the text that it carries, or the kind of error that its
/// payload decrypts to.
pub fn read_response(aes_key: &[u8; 16], response: &HelloResponse) -> (text: Result<
    String,
    ErrorKind,
>)
    ensures
        text_of(text) == decrypted(aes_key@, response.message@),
{
    decrypt_message(aes_key, response.message.as_str())
}

/// Reads the first `num` replies of a stream, or all where there are fewer,
/// each as [`read_response`] does, in their order.
pub fn read_responses(aes_key: &[u8; 16], responses: &Vec<HelloResponse>, num: usize) -> (texts:
    Vec<Result<String, ErrorKind>>)
    ensures
        texts@.len() == if num <= responses@.len() {
            num as nat
        } else {
            responses@.len()
        },
        forall|i: int|
            0 <= i < texts@.len() ==> text_of(#[trigger] texts@[i]) == decrypted(
                aes_key@,
                responses@[i].message@,
            ),
{
    let mut texts: Vec<Result<String, ErrorKind>> = Vec::new();
    let mut i: usize = 0;
    while i < num && i < responses.len()
        invariant
            i <= num,
            i <= responses@.len(),
            texts@.len() == i,
            forall|j: int|
                0 <= j < i ==> text_of(#[trigger] texts@[j]) == decrypted(
                    aes_key@,
                    responses@[j].message@,
                ),
        decreases responses@.len() - i,
    {
        texts.push(read_response(aes_key, &responses[i]));
        i += 1;
    }
    texts
}

} // verus!
