//! Socket addresses in `host:port` text form.

use vstd::prelude::*;
use vstd::string::StringExecFns;

verus! {

/// The fixed port on which the forwarder listens.
pub const LISTEN_PORT: u16 = 7878;

/// The character that stands for the decimal digit `d`.
pub open spec fn digit_char(d: nat) -> char
    recommends
        d < 10,
{
    seq!['0', '1', '2', '3', '4', '5', '6', '7', '8', '9'][d as int]
}

/// The decimal numeral of `n`: most significant digit first, no sign, and no
/// leading zero except for the single digit of zero itself.
pub open spec fn decimal(n: nat) -> Seq<char>
    decreases n,
{
    if n < 10 {
        seq![digit_char(n)]
    } else {
        decimal(n / 10).push(digit_char(n % 10))
    }
}

/// The text `host:port`, with the port in decimal.
pub open spec fn socket_address(host: Seq<char>, port: nat) -> Seq<char> {
    host + seq![':'] + decimal(port)
}

/// The address of `port` on the loopback host `127.0.0.1`.
pub open spec fn loopback_address(port: nat) -> Seq<char> {
    socket_address("127.0.0.1"@, port)
}

/// The number that the digit character `c` stands for.
pub open spec fn digit_value(c: char) -> nat
    recommends
        is_digit(c),
{
    (c as nat - '0' as nat) as nat
}

/// Whether `c` is one of the ten decimal digits.
pub open spec fn is_digit(c: char) -> bool {
    '0' <= c <= '9'
}

/// The number that a string of digits denotes, read in base ten.
pub open spec fn numeral_value(digits: Seq<char>) -> nat
    decreases digits.len(),
{
    if digits.len() == 0 {
        0
    } else {
        10 * numeral_value(digits.drop_last()) + digit_value(digits.last())
    }
}

/// Command-line configuration: the destination port on the loopback host.
#[derive(Clone, Copy, Debug, PartialEq, Eq)]
pub struct Args {
    pub port: u16,
}

/// The one-character string of the digit `d`.
fn digit_str(d: u16) -> (s: &'static str)
    requires
        d < 10,
    ensures
        s@ == seq![digit_char(d as nat)],
{
    proof {
        reveal_strlit("0");
        reveal_strlit("1");
        reveal_strlit("2");
        reveal_strlit("3");
        reveal_strlit("4");
        reveal_strlit("5");
        reveal_strlit("6");
        reveal_strlit("7");
        reveal_strlit("8");
        reveal_strlit("9");
    }
    match d {
        0 => "0",
        1 => "1",
        2 => "2",
        3 => "3",
        4 => "4",
        5 => "5",
        6 => "6",
        7 => "7",
        8 => "8",
        _ => "9",
    }
}

/// Appends the decimal numeral of `n` to `out`.
fn append_decimal(out: &mut String, n: u16)
    ensures
        final(out)@ == old(out)@ + decimal(n as nat),
    decreases n,
{
    if n >= 10 {
        append_decimal(out, n / 10);
    }
    out.append(digit_str(n % 10));
}

/// The fixed address on which the forwarder listens, `127.0.0.1:7878`.
/// Unlike the destination port, it cannot be configured.
pub fn listen_address() -> (address: String)
    ensures
        address@ == "127.0.0.1:7878"@,
        address@ == loopback_address(LISTEN_PORT as nat),
{
    proof {
        lemma_listen_address();
    }
    String::from_str("127.0.0.1:7878")
}

impl Args {
    /// The destination address: this port on the loopback host.
    pub fn to_string(&self) -> (address: String)
        ensures
            address@ == loopback_address(self.port as nat),
    {
        let mut address = String::from_str("127.0.0.1");
        address.append(":");
        proof {
            reveal_strlit(":");
        }
        append_decimal(&mut address, self.port);
        address
    }
}

/// The listening address written out is the loopback address of
/// [`LISTEN_PORT`].
pub proof fn lemma_listen_address()
    ensures
        "127.0.0.1:7878"@ == loopback_address(LISTEN_PORT as nat),
{
    reveal_strlit("127.0.0.1:7878");
    reveal_strlit("127.0.0.1");
    reveal_with_fuel(decimal, 4);
    assert("127.0.0.1:7878"@ =~= loopback_address(7878));
}

/// A decimal numeral is canonical: it has at least one digit, holds digits
/// only, starts with a zero only when the number is zero, and denotes the
/// number it was made from.
pub proof fn lemma_decimal_is_canonical(n: nat)
    ensures
        decimal(n).len() >= 1,
        forall|i: int| 0 <= i < decimal(n).len() ==> is_digit(#[trigger] decimal(n)[i]),
        decimal(n)[0] == '0' <==> n == 0,
        numeral_value(decimal(n)) == n,
    decreases n,
{
    if n < 10 {
        assert(decimal(n).drop_last() =~= Seq::<char>::empty());
        assert(numeral_value(decimal(n).drop_last()) == 0);
    } else {
        lemma_decimal_is_canonical(n / 10);
        assert(decimal(n).drop_last() =~= decimal(n / 10));
    }
}

/// Two ports with the same loopback address are the same port: the
/// destination address names one port and no other.
pub proof fn lemma_loopback_address_names_one_port(p: nat, q: nat)
    requires
        loopback_address(p) == loopback_address(q),
    ensures
        p == q,
{
    let prefix = "127.0.0.1"@ + seq![':'];
    assert(decimal(p) =~= loopback_address(p).subrange(
        prefix.len() as int,
        loopback_address(p).len() as int,
    ));
    assert(decimal(q) =~= loopback_address(q).subrange(
        prefix.len() as int,
        loopback_address(q).len() as int,
    ));
    lemma_decimal_is_canonical(p);
    lemma_decimal_is_canonical(q);
}

} // verus!
