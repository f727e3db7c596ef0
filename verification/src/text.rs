//! The wording of the messages, and the decimal text of a block number.

use crate::model::BlockChainType;
use vstd::prelude::*;

verus! {

/// The character that stands for a decimal digit.
pub open spec fn digit(d: nat) -> char
    recommends
        d < 10,
{
    "0123456789"@[d as int]
}

/// A natural number in decimal, without sign or leading zero.
pub open spec fn decimal_text(n: nat) -> Seq<char>
    decreases n,
{
    if n < 10 {
        seq![digit(n)]
    } else {
        decimal_text(n / 10).push(digit(n % 10))
    }
}

/// The number that a decimal digit stands for.
pub open spec fn digit_value(c: char) -> nat
    recommends
        '0' <= c <= '9',
{
    (c as u32 - '0' as u32) as nat
}

/// The number that a text of decimal digits stands for.
pub open spec fn decimal_value(text: Seq<char>) -> nat
    decreases text.len(),
{
    if text.len() == 0 {
        0
    } else {
        10 * decimal_value(text.drop_last()) + digit_value(text.last())
    }
}

/// Each of the ten digits is a character from `0` to `9` and stands for its
/// number.
pub proof fn digit_stands_for_its_number(d: nat)
    requires
        d < 10,
    ensures
        '0' <= digit(d) <= '9',
        digit_value(digit(d)) == d,
{
    reveal_strlit("0123456789");
}

/// The decimal text of a number is made of digits, has no leading zero, and
/// stands for that number.
pub proof fn decimal_text_denotes(n: nat)
    ensures
        decimal_text(n).len() >= 1,
        forall|i: int|
            0 <= i < decimal_text(n).len() ==> '0' <= #[trigger] decimal_text(n)[i] <= '9',
        n > 0 ==> decimal_text(n)[0] != '0',
        decimal_value(decimal_text(n)) == n,
    decreases n,
{
    if n < 10 {
        digit_stands_for_its_number(n);
        let text = decimal_text(n);
        assert(text.drop_last() =~= Seq::<char>::empty());
        assert(decimal_value(text.drop_last()) == 0);
    } else {
        decimal_text_denotes(n / 10);
        digit_stands_for_its_number(n % 10);
        let front = decimal_text(n / 10);
        let text = decimal_text(n);
        assert(text.drop_last() =~= front);
        assert(text[0] == front[0]);
    }
}

/// "Monitor '<name>' not found"
pub open spec fn monitor_not_found_text(name: Seq<char>) -> Seq<char> {
    "Monitor '"@ + name + "' not found"@
}

/// "Network '<slug>' not configured for monitor '<name>'"
pub open spec fn network_not_configured_text(slug: Seq<char>, name: Seq<char>) -> Seq<char> {
    "Network '"@ + slug + "' not configured for monitor '"@ + name + "'"@
}

/// "Network '<slug>' not found"
pub open spec fn network_not_found_text(slug: Seq<char>) -> Seq<char> {
    "Network '"@ + slug + "' not found"@
}

/// "<Chain> network not supported"
pub open spec fn chain_not_supported_text(chain: BlockChainType) -> Seq<char> {
    chain.label() + " network not supported"@
}

/// "Block <number> not found"
pub open spec fn block_not_found_text(number: u64) -> Seq<char> {
    "Block "@ + decimal_text(number as nat) + " not found"@
}

/// The message about a missing block tells which block is missing: two
/// numbers with the same message are the same number.
pub proof fn missing_block_is_named(a: u64, b: u64)
    requires
        block_not_found_text(a) == block_not_found_text(b),
    ensures
        a == b,
{
    let head = "Block "@;
    let tail = " not found"@;
    let left = decimal_text(a as nat);
    let right = decimal_text(b as nat);
    assert(left.len() == right.len()) by {
        assert(block_not_found_text(a).len() == head.len() + left.len() + tail.len());
        assert(block_not_found_text(b).len() == head.len() + right.len() + tail.len());
    }
    let from = head.len() as int;
    assert(left =~= block_not_found_text(a).subrange(from, from + left.len()));
    assert(right =~= block_not_found_text(b).subrange(from, from + right.len()));
    decimal_text_denotes(a as nat);
    decimal_text_denotes(b as nat);
}

/// "Failed to get <Chain> client", the stage at which a client is acquired.
pub open spec fn client_stage(chain: BlockChainType) -> Seq<char> {
    "Failed to get "@ + chain.label() + " client"@
}

/// "Failed to get block <number>", the stage at which the block is fetched.
pub open spec fn block_stage(number: u64) -> Seq<char> {
    "Failed to get block "@ + decimal_text(number as nat)
}

/// "Failed to filter block", the stage at which the block is filtered.
pub open spec fn filter_stage() -> Seq<char> {
    "Failed to filter block"@
}

/// "<stage>: <cause>", the message of a collaborator's failure: the stage
/// at which it failed, and the cause as the collaborator gave it.
pub open spec fn failure_text(stage: Seq<char>, cause: Seq<char>) -> Seq<char> {
    stage + ": "@ + cause
}

fn digit_text(d: u64) -> (text: &'static str)
    requires
        d < 10,
    ensures
        text@ == seq![digit(d as nat)],
{
    proof {
        reveal_strlit("0123456789");
        reveal_strlit("0");
        reveal_strlit("1");
        reveal_strlit("2");
        reveal_strlit("3");
        reveal_strlit("4");
        reveal_strlit("5");
        reveal_strlit("6");
        reveal_strlit("7");
        reveal_strlit("8");
        reveal_strlit("9");
    }
    let text = if d == 0 {
        "0"
    } else if d == 1 {
        "1"
    } else if d == 2 {
        "2"
    } else if d == 3 {
        "3"
    } else if d == 4 {
        "4"
    } else if d == 5 {
        "5"
    } else if d == 6 {
        "6"
    } else if d == 7 {
        "7"
    } else if d == 8 {
        "8"
    } else {
        "9"
    };
    assert(text@ =~= seq![digit(d as nat)]);
    text
}

/// A number in decimal, without sign or leading zero.
pub fn decimal(n: u64) -> (text: String)
    ensures
        text@ == decimal_text(n as nat),
    decreases n,
{
    if n < 10 {
        String::from_str(digit_text(n))
    } else {
        let mut text = decimal(n / 10);
        text.append(digit_text(n % 10));
        assert(text@ =~= decimal_text(n as nat));
        text
    }
}

pub(crate) fn monitor_not_found_message(name: &str) -> (text: String)
    ensures
        text@ == monitor_not_found_text(name@),
{
    let mut text = String::from_str("Monitor '");
    text.append(name);
    text.append("' not found");
    text
}

pub(crate) fn network_not_configured_message(slug: &str, name: &str) -> (text: String)
    ensures
        text@ == network_not_configured_text(slug@, name@),
{
    let mut text = String::from_str("Network '");
    text.append(slug);
    text.append("' not configured for monitor '");
    text.append(name);
    text.append("'");
    text
}

pub(crate) fn network_not_found_message(slug: &str) -> (text: String)
    ensures
        text@ == network_not_found_text(slug@),
{
    let mut text = String::from_str("Network '");
    text.append(slug);
    text.append("' not found");
    text
}

pub(crate) fn chain_not_supported_message(chain: BlockChainType) -> (text: String)
    ensures
        text@ == chain_not_supported_text(chain),
{
    let mut text = String::from_str(chain.as_str());
    text.append(" network not supported");
    text
}

pub(crate) fn block_not_found_message(number: u64) -> (text: String)
    ensures
        text@ == block_not_found_text(number),
{
    let mut text = String::from_str("Block ");
    let digits = decimal(number);
    text.append(digits.as_str());
    text.append(" not found");
    text
}

pub(crate) fn client_stage_label(chain: BlockChainType) -> (text: String)
    ensures
        text@ == client_stage(chain),
{
    let mut text = String::from_str("Failed to get ");
    text.append(chain.as_str());
    text.append(" client");
    text
}

pub(crate) fn block_stage_label(number: u64) -> (text: String)
    ensures
        text@ == block_stage(number),
{
    let mut text = String::from_str("Failed to get block ");
    let digits = decimal(number);
    text.append(digits.as_str());
    text
}

pub(crate) fn filter_stage_label() -> (text: String)
    ensures
        text@ == filter_stage(),
{
    String::from_str("Failed to filter block")
}

pub(crate) fn failure_message(stage: String, cause: &str) -> (text: String)
    ensures
        text@ == failure_text(stage@, cause@),
{
    let mut text = stage;
    text.append(": ");
    text.append(cause);
    text
}

} // verus!
