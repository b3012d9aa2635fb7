//! Address resolution: turning a configured host and login port into the
//! `host:port` specification the socket layer binds to, and validating
//! such a specification.

use vstd::prelude::*;
use vstd::string::StringExecFns;

verus! {

/// The character for the decimal digit `d`.
pub open spec fn digit_char(d: nat) -> char
    recommends
        d < 10,
{
    if d == 0 {
        '0'
    } else if d == 1 {
        '1'
    } else if d == 2 {
        '2'
    } else if d == 3 {
        '3'
    } else if d == 4 {
        '4'
    } else if d == 5 {
        '5'
    } else if d == 6 {
        '6'
    } else if d == 7 {
        '7'
    } else if d == 8 {
        '8'
    } else {
        '9'
    }
}

/// The canonical decimal representation of `n`: most significant digit
/// first, no leading zero except for `n == 0` itself.
pub open spec fn decimal_rep(n: nat) -> Seq<char>
    decreases n,
{
    if n < 10 {
        seq![digit_char(n)]
    } else {
        decimal_rep(n / 10) + seq![digit_char(n % 10)]
    }
}

/// The single-character string for the decimal digit `d`.
fn digit_str(d: u16) -> (s: &'static str)
    requires
        d < 10,
    ensures
        s@ == seq![digit_char(d as nat)],
{
    proof {
        reveal_strlit("0");
        reveal_strlit("1");
        reveal_strlit("2");
        reveal_strlit("3");
        reveal_strlit("4");
        reveal_strlit("5");
        reveal_strlit("6");
        reveal_strlit("7");
        reveal_strlit("8");
        reveal_strlit("9");
        assert("0"@ =~= seq![digit_char(0)]);
        assert("1"@ =~= seq![digit_char(1)]);
        assert("2"@ =~= seq![digit_char(2)]);
        assert("3"@ =~= seq![digit_char(3)]);
        assert("4"@ =~= seq![digit_char(4)]);
        assert("5"@ =~= seq![digit_char(5)]);
        assert("6"@ =~= seq![digit_char(6)]);
        assert("7"@ =~= seq![digit_char(7)]);
        assert("8"@ =~= seq![digit_char(8)]);
        assert("9"@ =~= seq![digit_char(9)]);
    }
    if d == 0 {
        "0"
    } else if d == 1 {
        "1"
    } else if d == 2 {
        "2"
    } else if d == 3 {
        "3"
    } else if d == 4 {
        "4"
    } else if d == 5 {
        "5"
    } else if d == 6 {
        "6"
    } else if d == 7 {
        "7"
    } else if d == 8 {
        "8"
    } else {
        "9"
    }
}

/// Renders a port number as its canonical decimal string.
pub fn port_to_string(port: u16) -> (s: String)
    ensures
        s@ == decimal_rep(port as nat),
    decreases port,
{
    if port < 10 {
        digit_str(port).to_owned()
    } else {
        let prefix = port_to_string(port / 10);
        let s = prefix.concat(digit_str(port % 10));
        proof {
            assert(s@ =~= decimal_rep(port as nat));
        }
        s
    }
}

/// A bindable host is nonempty; anything further — whether the name or
/// literal resolves — is the socket resolver's verdict, not a shape the
/// library can decide. A host may itself contain `:` (a bracketed IPv6
/// literal such as `[::1]`): the `host:port` form still splits back to
/// the same pair, because the port digits after the final separator
/// contain no `:`.
pub open spec fn valid_host(host: Seq<char>) -> bool {
    host.len() > 0
}

/// The address specification handed to the socket layer: `host:port`.
pub open spec fn bind_addr_spec(host: Seq<char>, port: u16) -> Seq<char> {
    host + seq![':'] + decimal_rep(port as nat)
}

/// Combines a host and a port into the `host:port` specification.
pub fn format_bind_addr(host: &str, port: u16) -> (addr: String)
    ensures
        addr@ == bind_addr_spec(host@, port),
{
    let with_sep = host.to_owned().concat(":");
    let port_str = port_to_string(port);
    let addr = with_sep.concat(port_str.as_str());
    proof {
        reveal_strlit(":");
        assert(addr@ =~= bind_addr_spec(host@, port));
    }
    addr
}

/// Is `c` a decimal digit?
pub open spec fn is_digit_char(c: char) -> bool {
    48 <= c as int && c as int <= 57
}

/// The numeric value of the digit `c`.
pub open spec fn digit_value(c: char) -> nat
    recommends
        is_digit_char(c),
{
    (c as int - 48) as nat
}

/// Every character of `s` is a decimal digit.
pub open spec fn all_digits(s: Seq<char>) -> bool {
    forall|i: int| 0 <= i < s.len() ==> is_digit_char(#[trigger] s[i])
}

/// The numeric value of a digit string, most significant digit first.
pub open spec fn decimal_value(s: Seq<char>) -> nat
    decreases s.len(),
{
    if s.len() == 0 {
        0
    } else {
        decimal_value(s.drop_last()) * 10 + digit_value(s.last())
    }
}

/// A port string is well formed when it is nonempty, all digits, and its
/// value fits a port number.
pub open spec fn valid_port_str(s: Seq<char>) -> bool {
    s.len() > 0 && all_digits(s) && decimal_value(s) <= u16::MAX
}

/// Parses a decimal port string. Returns the port exactly when the string
/// is nonempty, numeric and in range; rejects everything else.
pub fn parse_port(s: &str) -> (port: Option<u16>)
    ensures
        valid_port_str(s@) ==> port == Some((decimal_value(s@) as u16)),
        !valid_port_str(s@) ==> port is None,
{
    let len = s.unicode_len();
    if len == 0 {
        return None;
    }
    let mut i: usize = 0;
    let mut value: u32 = 0;
    let mut overflow: bool = false;
    while i < len
        invariant
            i <= len,
            len == s@.len(),
            all_digits(s@.subrange(0, i as int)),
            !overflow ==> value == decimal_value(s@.subrange(0, i as int)) && value <= 65535,
            overflow ==> decimal_value(s@.subrange(0, i as int)) > 65535,
        decreases len - i,
    {
        let c = s.get_char(i);
        let cu = c as u32;
        if cu < 48 || cu > 57 {
            proof {
                assert(!is_digit_char(s@[i as int]));
            }
            return None;
        }
        let d = cu - 48;
        proof {
            assert(s@.subrange(0, i + 1).drop_last() =~= s@.subrange(0, i as int));
            assert(s@.subrange(0, i + 1).last() == s@[i as int]);
        }
        if overflow {
        } else {
            let next = value * 10 + d;
            if next > 65535 {
                overflow = true;
            } else {
                value = next;
            }
        }
        i = i + 1;
    }
    proof {
        assert(s@.subrange(0, len as int) =~= s@);
    }
    if overflow {
        None
    } else {
        Some(value as u16)
    }
}

/// Does `host` name a bindable host, that is, a nonempty one?
pub fn check_host(host: &str) -> (ok: bool)
    ensures
        ok == valid_host(host@),
{
    !host.is_empty()
}

/// The index of the last `:` in `s`, or -1 when there is none.
pub open spec fn last_colon(s: Seq<char>) -> int
    decreases s.len(),
{
    if s.len() == 0 {
        -1
    } else if s[s.len() - 1] == ':' {
        s.len() - 1
    } else {
        last_colon(s.drop_last())
    }
}

/// `last_colon` names a `:` when there is one, and nothing follows it
/// but non-separator characters.
pub proof fn lemma_last_colon(s: Seq<char>)
    ensures
        -1 <= last_colon(s) < s.len(),
        last_colon(s) >= 0 ==> s[last_colon(s)] == ':',
        forall|j: int| last_colon(s) < j < s.len() ==> #[trigger] s[j] != ':',
    decreases s.len(),
{
    if s.len() > 0 && s[s.len() - 1] != ':' {
        lemma_last_colon(s.drop_last());
        assert(forall|j: int|
            0 <= j < s.len() - 1 ==> #[trigger] s[j] == s.drop_last()[j]);
    }
}

/// When `s[k]` is a `:` and nothing after `k` is, `k` is the last colon.
pub proof fn lemma_last_colon_at(s: Seq<char>, k: int)
    requires
        0 <= k < s.len(),
        s[k] == ':',
        forall|j: int| k < j < s.len() ==> #[trigger] s[j] != ':',
    ensures
        last_colon(s) == k,
    decreases s.len(),
{
    if k < s.len() - 1 {
        assert(forall|j: int|
            0 <= j < s.len() - 1 ==> #[trigger] s.drop_last()[j] == s[j]);
        lemma_last_colon_at(s.drop_last(), k);
    }
}

/// When no character of `s` is a `:`, `last_colon` is -1.
pub proof fn lemma_no_colon(s: Seq<char>)
    requires
        forall|j: int| 0 <= j < s.len() ==> #[trigger] s[j] != ':',
    ensures
        last_colon(s) == -1,
    decreases s.len(),
{
    if s.len() > 0 {
        assert(forall|j: int|
            0 <= j < s.len() - 1 ==> #[trigger] s.drop_last()[j] == s[j]);
        lemma_no_colon(s.drop_last());
    }
}

/// The host part of an address specification: what precedes the last `:`.
pub open spec fn host_of(s: Seq<char>) -> Seq<char> {
    s.subrange(0, last_colon(s))
}

/// The port part of an address specification: what follows the last `:`.
pub open spec fn port_str_of(s: Seq<char>) -> Seq<char> {
    s.subrange(last_colon(s) + 1, s.len() as int)
}

/// A well-formed address specification: a nonempty host, a `:` separator,
/// and a nonempty, numeric, in-range port after the last `:`.
pub open spec fn valid_bind_addr(s: Seq<char>) -> bool {
    1 <= last_colon(s) && valid_port_str(port_str_of(s))
}

/// Splits an address specification at its last `:` into host and port.
/// Succeeds exactly on well-formed specifications; a specification with an
/// empty host, no separator, or a non-numeric or out-of-range port is
/// rejected, and no address is produced for it.
pub fn parse_bind_addr(s: &str) -> (r: Option<(String, u16)>)
    ensures
        valid_bind_addr(s@) <==> r is Some,
        r matches Some(hp) ==> ({
            &&& hp.0@ == host_of(s@)
            &&& hp.1 as nat == decimal_value(port_str_of(s@))
        }),
{
    proof {
        lemma_last_colon(s@);
    }
    let len = s.unicode_len();
    let mut j: usize = len;
    while j > 0
        invariant
            j <= len,
            len == s@.len(),
            forall|k: int| j <= k < len ==> #[trigger] s@[k] != ':',
        decreases j,
    {
        j = j - 1;
        let c = s.get_char(j);
        if c == ':' {
            if j == 0 {
                proof {
                    lemma_last_colon_at(s@, 0);
                }
                return None;
            }
            proof {
                lemma_last_colon_at(s@, j as int);
            }
            let host = s.substring_char(0, j).to_owned();
            let port_part = s.substring_char(j + 1, len);
            match parse_port(port_part) {
                Some(port) => {
                    return Some((host, port));
                },
                None => {
                    return None;
                },
            }
        }
    }
    proof {
        lemma_no_colon(s@);
    }
    None
}

/// The canonical decimal representation of `n` is nonempty, consists of
/// digits only, and evaluates back to `n`.
pub proof fn lemma_decimal_rep_value(n: nat)
    ensures
        decimal_rep(n).len() >= 1,
        all_digits(decimal_rep(n)),
        decimal_value(decimal_rep(n)) == n,
    decreases n,
{
    if n < 10 {
        assert(decimal_rep(n)[0] == digit_char(n));
        assert(is_digit_char(digit_char(n)));
        assert(decimal_rep(n).drop_last() =~= Seq::<char>::empty());
        assert(decimal_rep(n).last() == digit_char(n));
        assert(digit_value(digit_char(n)) == n);
        assert(decimal_value(Seq::<char>::empty()) == 0);
        assert(decimal_value(decimal_rep(n)) == decimal_value(Seq::<char>::empty()) * 10
            + digit_value(digit_char(n)));
    } else {
        lemma_decimal_rep_value(n / 10);
        assert(decimal_rep(n).drop_last() =~= decimal_rep(n / 10));
        assert(decimal_rep(n).last() == digit_char(n % 10));
        assert(digit_value(digit_char(n % 10)) == n % 10);
        assert(decimal_value(decimal_rep(n)) == decimal_value(decimal_rep(n / 10)) * 10
            + digit_value(digit_char(n % 10)));
        vstd::arithmetic::div_mod::lemma_fundamental_div_mod(n as int, 10);
        assert forall|i: int| 0 <= i < decimal_rep(n).len() implies is_digit_char(
            #[trigger] decimal_rep(n)[i],
        ) by {
            if i < decimal_rep(n / 10).len() {
                assert(decimal_rep(n)[i] == decimal_rep(n / 10)[i]);
            } else {
                assert(decimal_rep(n)[i] == digit_char(n % 10));
            }
        }
    }
}

/// Formatting a valid host with any port yields a well-formed address
/// specification that splits back into exactly that host and port: the
/// resolver and the formatter agree.
pub proof fn lemma_bind_addr_round_trip(host: Seq<char>, port: u16)
    requires
        valid_host(host),
    ensures
        valid_bind_addr(bind_addr_spec(host, port)),
        host_of(bind_addr_spec(host, port)) == host,
        decimal_value(port_str_of(bind_addr_spec(host, port))) == port as nat,
{
    let s = bind_addr_spec(host, port);
    lemma_decimal_rep_value(port as nat);
    assert(s[host.len() as int] == ':');
    assert forall|j: int| host.len() < j < s.len() implies #[trigger] s[j] != ':' by {
        assert(s[j] == decimal_rep(port as nat)[j - host.len() - 1]);
        assert(is_digit_char(s[j]));
    }
    lemma_last_colon_at(s, host.len() as int);
    assert(host_of(s) =~= host);
    assert(port_str_of(s) =~= decimal_rep(port as nat));
}

} // verus!
