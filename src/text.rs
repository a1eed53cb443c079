//! Texts shown to the host: greetings, numbers in decimal and address lists.
use vstd::prelude::*;

verus! {

/// The greeting returned to a host that says its name.
pub open spec fn greeting(name: Seq<char>) -> Seq<char> {
    "Hello, "@ + name + "! You've been greeted from Rust!"@
}

/// Greets `name`.
pub fn greet(name: &str) -> (r: String)
    ensures
        r@ == greeting(name@),
{
    let mut r = String::from_str("Hello, ");
    r.append(name);
    r.append("! You've been greeted from Rust!");
    r
}

/// The digit characters, indexed by their value.
pub open spec fn digit_chars() -> Seq<char> {
    "0123456789"@
}

/// `n` written in decimal, without leading zeros.
pub open spec fn decimal(n: nat) -> Seq<char>
    decreases n,
{
    if n < 10 {
        digit_chars().subrange(n as int, n + 1int)
    } else {
        decimal(n / 10) + digit_chars().subrange((n % 10) as int, (n % 10) + 1int)
    }
}

/// Writes `n` in decimal.
pub fn decimal_text(n: u64) -> (r: String)
    ensures
        r@ == decimal(n as nat),
    decreases n,
{
    proof {
        reveal_strlit("0123456789");
    }
    let digits = "0123456789";
    if n < 10 {
        String::from_str(digits.substring_char(n as usize, n as usize + 1))
    } else {
        let mut r = decimal_text(n / 10);
        let d = (n % 10) as usize;
        r.append(digits.substring_char(d, d + 1));
        r
    }
}

/// The status returned by a successful start on `port`.
pub open spec fn started_status(port: u16) -> Seq<char> {
    "WebSocket server started on port "@ + decimal(port as nat)
}

/// Reports a successful start on `port`.
pub fn started_text(port: u16) -> (r: String)
    ensures
        r@ == started_status(port),
{
    let mut r = String::from_str("WebSocket server started on port ");
    let n = decimal_text(port as u64);
    r.append(n.as_str());
    r
}

/// One bracketed address, as the address list shows it.
pub open spec fn bracketed(a: Seq<char>) -> Seq<char> {
    "["@ + a + "]"@
}

/// The local addresses, each in brackets, separated by `" - "`.
pub open spec fn address_list(addrs: Seq<Seq<char>>) -> Seq<char>
    decreases addrs.len(),
{
    if addrs.len() == 0 {
        Seq::empty()
    } else if addrs.len() == 1 {
        bracketed(addrs[0])
    } else {
        address_list(addrs.drop_last()) + " - "@ + bracketed(addrs.last())
    }
}

/// Lists the local addresses on which the server can be reached.
pub fn address_list_text(addrs: &Vec<String>) -> (r: String)
    ensures
        r@ == address_list(addrs@.map_values(|a: String| a@)),
{
    let ghost views = addrs@.map_values(|a: String| a@);
    let mut r = String::new();
    let mut i: usize = 0;
    while i < addrs.len()
        invariant
            i <= addrs@.len(),
            views == addrs@.map_values(|a: String| a@),
            r@ == address_list(views.take(i as int)),
        decreases addrs@.len() - i,
    {
        assert(views.take(i + 1).drop_last() == views.take(i as int));
        if i > 0 {
            r.append(" - ");
        }
        r.append("[");
        r.append(addrs[i].as_str());
        r.append("]");
        i = i + 1;
    }
    assert(views.take(addrs@.len() as int) == views);
    r
}

} // verus!
