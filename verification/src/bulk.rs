//! The bulk-write body and the reading of the destination's answer.
use vstd::prelude::*;

verus! {

/// The ASCII digit of a value below ten.
pub open spec fn digit_byte(d: nat) -> u8 {
    (48 + d) as u8
}

/// A number in decimal, most significant digit first, without leading zeros.
pub open spec fn decimal_text(n: nat) -> Seq<u8>
    decreases n,
{
    if n < 10 {
        seq![digit_byte(n)]
    } else {
        decimal_text(n / 10).push(digit_byte(n % 10))
    }
}

/// The bytes of `{"index":{"_id":`, which open an action line.
pub open spec fn action_prefix() -> Seq<u8> {
    seq![
        123u8, 34u8, 105u8, 110u8, 100u8, 101u8, 120u8, 34u8, 58u8, 123u8, 34u8, 95u8, 105u8,
        100u8, 34u8, 58u8,
    ]
}

/// The bytes of `}}`, which close an action line.
pub open spec fn action_suffix() -> Seq<u8> {
    seq![125u8, 125u8]
}

/// The action line of the document at `position`: `{"index":{"_id":N}}`.
pub open spec fn index_action_line(position: nat) -> Seq<u8> {
    action_prefix() + decimal_text(position) + action_suffix()
}

/// The line that stands at `k` in the body of `docs`: action lines at the
/// even places, each followed by its document.
pub open spec fn bulk_line(docs: Seq<Seq<u8>>, k: int) -> Seq<u8> {
    if k % 2 == 0 {
        index_action_line((k / 2) as nat)
    } else {
        docs[k / 2]
    }
}

/// The whole body: two lines for every document.
pub open spec fn bulk_lines(docs: Seq<Seq<u8>>) -> Seq<Seq<u8>> {
    Seq::new(2 * docs.len(), |k: int| bulk_line(docs, k))
}

/// The byte sequences that a list of byte vectors holds.
pub open spec fn line_views(lines: Seq<Vec<u8>>) -> Seq<Seq<u8>> {
    Seq::new(lines.len(), |i: int| lines[i]@)
}

/// Appends the decimal text of `n` to `out`.
pub fn push_decimal(out: &mut Vec<u8>, n: usize)
    ensures
        final(out)@ == old(out)@ + decimal_text(n as nat),
    decreases n,
{
    if n >= 10 {
        push_decimal(out, n / 10);
    }
    let digit: u8 = (n % 10) as u8;
    out.push(48u8 + digit);
    assert(final(out)@ =~= old(out)@ + decimal_text(n as nat));
}

/// The action line that announces the document at `position`.
pub fn index_action(position: usize) -> (line: Vec<u8>)
    ensures
        line@ == index_action_line(position as nat),
{
    let mut line: Vec<u8> = vec![
        123u8, 34u8, 105u8, 110u8, 100u8, 101u8, 120u8, 34u8, 58u8, 123u8, 34u8, 95u8, 105u8,
        100u8, 34u8, 58u8,
    ];
    assert(line@ =~= action_prefix());
    push_decimal(&mut line, position);
    line.push(125u8);
    line.push(125u8);
    assert(line@ =~= index_action_line(position as nat));
    line
}

/// A copy of a byte vector.
fn copy_bytes(bytes: &Vec<u8>) -> (res: Vec<u8>)
    ensures
        res@ == bytes@,
{
    let mut res: Vec<u8> = Vec::with_capacity(bytes.len());
    let mut i: usize = 0;
    while i < bytes.len()
        invariant
            i <= bytes.len(),
            res@ == bytes@.take(i as int),
        decreases bytes.len() - i,
    {
        res.push(bytes[i]);
        assert(res@ =~= bytes@.take(i + 1));
        i += 1;
    }
    assert(bytes@.take(bytes@.len() as int) =~= bytes@);
    res
}

/// Frames serialized documents as one bulk body: before each document its
/// action line, whose identifier is the document's position. `size` is a
/// capacity hint: room is set aside for that many lines, though for no more
/// than the body will hold, and it has no part in what is returned.
pub fn bulk_body(docs: &Vec<Vec<u8>>, size: usize) -> (body: Vec<Vec<u8>>)
    ensures
        body@.len() == 2 * docs@.len(),
        line_views(body@) == bulk_lines(line_views(docs@)),
{
    let room: usize = if size / 2 <= docs.len() {
        size
    } else {
        2 * docs.len()
    };
    let mut body: Vec<Vec<u8>> = Vec::with_capacity(room);
    let mut i: usize = 0;
    while i < docs.len()
        invariant
            i <= docs.len(),
            body@.len() == 2 * i,
            forall|k: int| 0 <= k < 2 * i ==> (#[trigger] body@[k])@ == bulk_line(line_views(docs@), k),
        decreases docs.len() - i,
    {
        body.push(index_action(i));
        body.push(copy_bytes(&docs[i]));
        i += 1;
    }
    assert(line_views(body@) =~= bulk_lines(line_views(docs@)));
    body
}

/// Why the answer to a bulk write gave no verdict.
#[derive(Debug, PartialEq, Eq, Clone, Copy)]
pub enum ResponseError {
    /// The answer is not a JSON text.
    Malformed,
    /// The answer has no boolean `errors` at its top level.
    MissingFlag,
}

/// `serde_json::Error`, carried as an opaque value: nothing is read from it.
#[verifier::external_type_specification]
#[verifier::external_body]
pub struct ExJsonError(serde_json::Error);

/// What `serde_json::from_str` followed by `Value::get` and `Value::as_bool`
/// gives for a text and a key: `None` where the text does not parse, else
/// the boolean under the key at the top level, if there is one.
pub uninterp spec fn json_bool_field(text: Seq<char>, key: Seq<char>) -> Option<Option<bool>>;

/// Parses `text` with `serde_json::from_str` into a `Value` and reads `key`
/// with `Value::get` and `Value::as_bool`. Trusted: the outcome is a function
/// of the two texts alone, and is named `json_bool_field`.
#[verifier::external_body]
fn read_bool_field(text: &str, key: &str) -> (res: Result<Option<bool>, serde_json::Error>)
    ensures
        match res {
            Ok(flag) => json_bool_field(text@, key@) == Some(flag),
            Err(_) => json_bool_field(text@, key@) is None,
        },
{
    let value: serde_json::Value = serde_json::from_str(text)?;
    Ok(value.get(key).and_then(serde_json::Value::as_bool))
}

/// The verdict that a parsed answer carries: success is the negation of the
/// `errors` flag, and an answer without the flag gives no verdict.
pub open spec fn verdict_of_flag(flag: Option<bool>) -> Result<bool, ResponseError> {
    match flag {
        Some(errors) => Ok(!errors),
        None => Err(ResponseError::MissingFlag),
    }
}

/// The verdict of an answer, parsed or not.
pub open spec fn verdict_of(parsed: Option<Option<bool>>) -> Result<bool, ResponseError> {
    match parsed {
        Some(flag) => verdict_of_flag(flag),
        None => Err(ResponseError::Malformed),
    }
}

/// Whether the bulk write succeeded, given the `errors` flag of its answer.
pub fn bulk_verdict(flag: Option<bool>) -> (res: Result<bool, ResponseError>)
    ensures
        res == verdict_of_flag(flag),
{
    match flag {
        Some(errors) => Ok(!errors),
        None => Err(ResponseError::MissingFlag),
    }
}

/// Whether the bulk write succeeded, given the text of its answer.
pub fn bulk_success(response: &str) -> (res: Result<bool, ResponseError>)
    ensures
        res == verdict_of(json_bool_field(response@, "errors"@)),
{
    match read_bool_field(response, "errors") {
        Ok(flag) => bulk_verdict(flag),
        Err(_) => Err(ResponseError::Malformed),
    }
}

} // verus!
