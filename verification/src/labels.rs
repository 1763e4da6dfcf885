//! Tagged text messages: a ready supply of distinct payloads for a producer.

use vstd::prelude::*;

verus! {

/// The number of messages in one producer's supply.
pub const SUPPLY: u32 = 100_000;

/// The character of a decimal digit.
pub open spec fn digit(d: nat) -> char {
    if d == 0 {
        '0'
    } else if d == 1 {
        '1'
    } else if d == 2 {
        '2'
    } else if d == 3 {
        '3'
    } else if d == 4 {
        '4'
    } else if d == 5 {
        '5'
    } else if d == 6 {
        '6'
    } else if d == 7 {
        '7'
    } else if d == 8 {
        '8'
    } else {
        '9'
    }
}

/// A number in decimal, without sign or leading zeros.
pub open spec fn decimal(n: nat) -> Seq<char>
    decreases n,
{
    if n < 10 {
        seq![digit(n)]
    } else {
        decimal(n / 10).push(digit(n % 10))
    }
}

/// The text of message number `item` of producer `id`: both numbers in
/// decimal with a hyphen between them.
pub open spec fn label_text(id: nat, item: nat) -> Seq<char> {
    decimal(id) + seq!['-'] + decimal(item)
}

/// `u32::to_string`: the number as `Display` writes an unsigned integer, in
/// decimal without sign, padding or leading zeros.
#[verifier::external_body]
fn decimal_text(n: u32) -> (text: String)
    ensures
        text@ == decimal(n as nat),
{
    n.to_string()
}

/// The label of message number `item` of producer `id`.
fn label(id: u8, item: u32) -> (text: String)
    ensures
        text@ == label_text(id as nat, item as nat),
{
    let mut text = decimal_text(id as u32);
    let number = decimal_text(item);
    text.append("-");
    text.append(number.as_str());
    proof {
        reveal_strlit("-");
        assert("-"@ =~= seq!['-']);
        assert(text@ =~= label_text(id as nat, item as nat));
    }
    text
}

/// The supply of producer `id`: its messages in the order of their numbers.
pub fn generate_data(id: u8) -> (out: Vec<String>)
    ensures
        out@.len() == SUPPLY,
        forall|i: int| 0 <= i < out@.len() ==> (#[trigger] out@[i])@ == label_text(id as nat, i as nat),
{
    let mut out: Vec<String> = Vec::new();
    let mut item: u32 = 0;
    while item < SUPPLY
        invariant
            item <= SUPPLY,
            out@.len() == item,
            forall|i: int| 0 <= i < out@.len() ==> (#[trigger] out@[i])@ == label_text(id as nat, i as nat),
        decreases SUPPLY - item,
    {
        out.push(label(id, item));
        item = item + 1;
    }
    out
}

} // verus!
