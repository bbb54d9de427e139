use vstd::prelude::*;

verus! {

/// The decimal digit for `d` < 10.
pub open spec fn digit_char(d: nat) -> char {
    if d == 0 {
        '0'
    } else if d == 1 {
        '1'
    } else if d == 2 {
        '2'
    } else if d == 3 {
        '3'
    } else if d == 4 {
        '4'
    } else if d == 5 {
        '5'
    } else if d == 6 {
        '6'
    } else if d == 7 {
        '7'
    } else if d == 8 {
        '8'
    } else {
        '9'
    }
}

/// The decimal representation of `n`, without leading zeros.
pub open spec fn decimal(n: nat) -> Seq<char>
    decreases n,
{
    if n < 10 {
        seq![digit_char(n)]
    } else {
        decimal(n / 10).push(digit_char(n % 10))
    }
}

fn digit_str(d: u64) -> (r: &'static str)
    requires
        d < 10,
    ensures
        r@ == seq![digit_char(d as nat)],
{
    proof {
        reveal_strlit("0");
        reveal_strlit("1");
        reveal_strlit("2");
        reveal_strlit("3");
        reveal_strlit("4");
        reveal_strlit("5");
        reveal_strlit("6");
        reveal_strlit("7");
        reveal_strlit("8");
        reveal_strlit("9");
    }
    if d == 0 {
        "0"
    } else if d == 1 {
        "1"
    } else if d == 2 {
        "2"
    } else if d == 3 {
        "3"
    } else if d == 4 {
        "4"
    } else if d == 5 {
        "5"
    } else if d == 6 {
        "6"
    } else if d == 7 {
        "7"
    } else if d == 8 {
        "8"
    } else {
        "9"
    }
}

/// Appends the decimal representation of `n` to `s`.
pub fn push_decimal(s: &mut String, n: u64)
    ensures
        final(s)@ == old(s)@ + decimal(n as nat),
    decreases n,
{
    if n >= 10 {
        push_decimal(s, n / 10);
    }
    s.append(digit_str(n % 10));
    proof {
        if n >= 10 {
            assert(decimal(n as nat) == decimal((n / 10) as nat).push(digit_char((n % 10) as nat)));
        }
    }
}

/// The text shown until the first image arrives: the version, the local IP
/// addresses, the host name and the display resolution.
pub open spec fn standby_text_spec(
    version: Seq<char>,
    local_ip: Seq<char>,
    hostname: Seq<char>,
    resolution: Seq<char>,
) -> Seq<char> {
    "No data received yet.\n\nVersion:\t\t\t\t\t\t"@ + version + "\nIP Addresse:\t\t\t\t"@ + local_ip
        + "\nHostname:\t\t\t\t\t"@ + hostname + "\nDisplay resolution:\t"@ + resolution
}

/// Builds the standby text.
pub fn build_standby_text(version: &str, local_ip: &str, hostname: &str, display_resolution: &str) -> (r: String)
    ensures
        r@ == standby_text_spec(version@, local_ip@, hostname@, display_resolution@),
{
    let mut s = String::from_str("No data received yet.\n\nVersion:\t\t\t\t\t\t");
    s.append(version);
    s.append("\nIP Addresse:\t\t\t\t");
    s.append(local_ip);
    s.append("\nHostname:\t\t\t\t\t");
    s.append(hostname);
    s.append("\nDisplay resolution:\t");
    s.append(display_resolution);
    s
}

} // verus!
