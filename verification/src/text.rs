//! The texts of the replies: what each call shape answers to what it was
//! sent, before any of it is encrypted.

use vstd::prelude::*;
use vstd::string::*;

verus! {

/// The character of a decimal digit.
pub open spec fn digit(value: int) -> char {
    ((48 + value) as u8) as char
}

/// The decimal numeral of `n`, without leading zeros.
pub open spec fn decimal(n: nat) -> Seq<char>
    decreases n,
{
    if n < 10 {
        seq![digit(n as int)]
    } else {
        decimal(n / 10).push(digit((n % 10) as int))
    }
}

/// The decimal numeral of `n` on at least two places, with a leading zero
/// below ten.
pub open spec fn decimal_padded(n: nat) -> Seq<char> {
    if n < 10 {
        seq![digit(0)] + decimal(n)
    } else {
        decimal(n)
    }
}

/// The answer to a single request that carried `text`.
pub open spec fn unary_reply(text: Seq<char>) -> Seq<char> {
    "You got, "@ + text + " message!"@
}

/// The greeting of the one whom `text` names.
pub open spec fn greeting(text: Seq<char>) -> Seq<char> {
    "Hello, "@ + text + "!"@
}

/// The reply of the given occurrence in a streamed answer to `text`.
pub open spec fn stream_reply(text: Seq<char>, occurrence: nat) -> Seq<char> {
    "Hello, "@ + text + "! ("@ + decimal(occurrence) + " times)"@
}

/// The texts in their order with `separator` between each two.
pub open spec fn joined(texts: Seq<Seq<char>>, separator: Seq<char>) -> Seq<char>
    decreases texts.len(),
{
    if texts.len() == 0 {
        Seq::empty()
    } else if texts.len() == 1 {
        texts[0]
    } else {
        joined(texts.drop_last(), separator) + separator + texts.last()
    }
}

/// The one greeting of all whom a stream of requests named, in the order in
/// which they came.
pub open spec fn joined_greeting(texts: Seq<Seq<char>>) -> Seq<char> {
    greeting(joined(texts, ", "@))
}

/// The characters of each string of a sequence.
pub open spec fn texts_of(strings: Seq<String>) -> Seq<Seq<char>> {
    Seq::new(strings.len(), |i: int| strings[i]@)
}

/// The numeral of one decimal digit.
fn digit_str(value: usize) -> (numeral: &'static str)
    requires
        value < 10,
    ensures
        numeral@ == seq![digit(value as int)],
{
    proof {
        reveal_strlit("0");
        reveal_strlit("1");
        reveal_strlit("2");
        reveal_strlit("3");
        reveal_strlit("4");
        reveal_strlit("5");
        reveal_strlit("6");
        reveal_strlit("7");
        reveal_strlit("8");
        reveal_strlit("9");
    }
    let numeral = match value {
        0 => "0",
        1 => "1",
        2 => "2",
        3 => "3",
        4 => "4",
        5 => "5",
        6 => "6",
        7 => "7",
        8 => "8",
        _ => "9",
    };
    assert(numeral@ =~= seq![digit(value as int)]);
    numeral
}

/// Writes `n` in decimal.
pub fn decimal_string(n: usize) -> (numeral: String)
    ensures
        numeral@ == decimal(n as nat),
    decreases n,
{
    if n < 10 {
        digit_str(n).to_owned()
    } else {
        let mut numeral = decimal_string(n / 10);
        numeral.append(digit_str(n % 10));
        numeral
    }
}

/// Writes `n` in decimal on at least two places.
pub fn decimal_padded_string(n: usize) -> (numeral: String)
    ensures
        numeral@ == decimal_padded(n as nat),
{
    if n < 10 {
        let mut numeral = digit_str(0).to_owned();
        numeral.append(digit_str(n));
        numeral
    } else {
        decimal_string(n)
    }
}

/// Writes the answer to a single request that carried `text`.
pub fn unary_reply_text(text: &str) -> (reply: String)
    ensures
        reply@ == unary_reply(text@),
{
    let mut reply = "You got, ".to_owned();
    reply.append(text);
    reply.append(" message!");
    reply
}

/// Writes the greeting of the one whom `text` names.
pub fn greeting_text(text: &str) -> (reply: String)
    ensures
        reply@ == greeting(text@),
{
    let mut reply = "Hello, ".to_owned();
    reply.append(text);
    reply.append("!");
    reply
}

/// Writes the reply of the given occurrence in a streamed answer to `text`.
pub fn stream_reply_text(text: &str, occurrence: usize) -> (reply: String)
    ensures
        reply@ == stream_reply(text@, occurrence as nat),
{
    let mut reply = "Hello, ".to_owned();
    reply.append(text);
    reply.append("! (");
    reply.append(decimal_string(occurrence).as_str());
    reply.append(" times)");
    reply
}

/// Writes the texts in their order with `separator` between each two.
pub fn join_texts(texts: &Vec<String>, separator: &str) -> (joined_text: String)
    ensures
        joined_text@ == joined(texts_of(texts@), separator@),
{
    let mut joined_text = String::new();
    let mut i: usize = 0;
    while i < texts.len()
        invariant
            i <= texts@.len(),
            joined_text@ == joined(texts_of(texts@).take(i as int), separator@),
        decreases texts@.len() - i,
    {
        if i > 0 {
            joined_text.append(separator);
        }
        joined_text.append(texts[i].as_str());
        proof {
            let all = texts_of(texts@);
            assert(all.take(i + 1).drop_last() =~= all.take(i as int));
            assert(all.take(i + 1).last() == texts@[i as int]@);
            if i == 0 {
                assert(joined_text@ =~= texts@[0]@);
            }
        }
        i += 1;
    }
    assert(texts_of(texts@).take(i as int) =~= texts_of(texts@));
    joined_text
}

/// Writes the one greeting of all whom `texts` name.
pub fn joined_greeting_text(texts: &Vec<String>) -> (reply: String)
    ensures
        reply@ == joined_greeting(texts_of(texts@)),
{
    let names = join_texts(texts, ", ");
    greeting_text(names.as_str())
}

} // verus!
