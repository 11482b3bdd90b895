use vstd::prelude::*;

verus! {

/// A key/value pair reported alongside a successful operation.
#[derive(Debug, PartialEq, Eq)]
pub struct Attribute {
    pub key: String,
    pub value: String,
}

/// An instruction for the host to move `amount` of `denom` from the
/// contract's holdings to `recipient`.
#[derive(Debug, PartialEq, Eq)]
pub struct Transfer {
    pub recipient: String,
    pub denom: String,
    pub amount: u128,
}

/// What a successful operation reports, and the transfers it asks the host to make.
#[derive(Debug, PartialEq, Eq)]
pub struct Response {
    pub attributes: Vec<Attribute>,
    pub messages: Vec<Transfer>,
}

impl Response {
    /// The attributes as (key, value) pairs.
    pub open spec fn attrs(&self) -> Seq<(Seq<char>, Seq<char>)> {
        self.attributes@.map_values(|a: Attribute| (a.key@, a.value@))
    }

    /// The transfers as (recipient, denom, amount) triples.
    pub open spec fn transfers(&self) -> Seq<(Seq<char>, Seq<char>, nat)> {
        transfer_triples(self.messages@)
    }
}

/// Transfers as (recipient, denom, amount) triples.
pub open spec fn transfer_triples(ts: Seq<Transfer>) -> Seq<(Seq<char>, Seq<char>, nat)> {
    ts.map_values(|t: Transfer| (t.recipient@, t.denom@, t.amount as nat))
}

/// The sum of the amounts of `ts`.
pub open spec fn total_amount(ts: Seq<(Seq<char>, Seq<char>, nat)>) -> nat
    decreases ts.len(),
{
    if ts.len() == 0 {
        0
    } else {
        total_amount(ts.drop_last()) + ts.last().2
    }
}

/// The digit character for `d < 10`.
pub open spec fn digit_char(d: nat) -> char {
    seq!['0', '1', '2', '3', '4', '5', '6', '7', '8', '9'][d as int]
}

/// `n` written in base ten, with no sign and no leading zeros.
pub open spec fn decimal(n: nat) -> Seq<char>
    decreases n,
{
    if n < 10 {
        seq![digit_char(n)]
    } else {
        decimal(n / 10).push(digit_char(n % 10))
    }
}

/// Relies on the standard library's `ToString` for `u128`, which goes through
/// its `Display`: the number in base ten, with no sign, padding or leading zeros.
#[verifier::external_body]
pub(crate) fn decimal_string(n: u128) -> (r: String)
    ensures
        r@ == decimal(n as nat),
{
    n.to_string()
}

/// An attribute with a fixed key.
pub(crate) fn attr(key: &str, value: String) -> (a: Attribute)
    ensures
        a.key@ == key@,
        a.value == value,
{
    Attribute { key: key.to_owned(), value }
}

} // verus!
