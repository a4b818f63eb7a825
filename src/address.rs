//! Discovery of the address a new container serves on: its IP on the app
//! network and the TCP port its image exposes.
use vstd::prelude::*;
use vstd::string::*;

verus! {

/// Index of the first `/` at or after `i`, or the length when there is none.
pub open spec fn slash_from(s: Seq<char>, i: int) -> int
    decreases s.len() - i,
{
    if i >= s.len() {
        s.len() as int
    } else if s[i] == '/' {
        i
    } else {
        slash_from(s, i + 1)
    }
}

/// The part of `s` before its first `/` (all of `s` when it has none).
pub open spec fn before_slash(s: Seq<char>) -> Seq<char> {
    s.take(slash_from(s, 0))
}

pub open spec fn is_digit(c: char) -> bool {
    '0' <= c && c <= '9'
}

pub open spec fn digit_value(c: char) -> int {
    (c as int) - ('0' as int)
}

pub open spec fn all_digits(s: Seq<char>) -> bool {
    forall|i: int| 0 <= i < s.len() ==> is_digit(#[trigger] s[i])
}

/// The number a string of decimal digits denotes.
pub open spec fn digits_value(s: Seq<char>) -> int
    decreases s.len(),
{
    if s.len() == 0 {
        0
    } else {
        digits_value(s.drop_last()) * 10 + digit_value(s.last())
    }
}

/// The digits of a port number, after an optional leading `+`.
pub open spec fn unsigned_body(s: Seq<char>) -> Seq<char> {
    if s.len() > 0 && s[0] == '+' {
        s.drop_first()
    } else {
        s
    }
}

/// A port number written in decimal: an optional `+`, then one or more
/// digits denoting at most 65535.
pub open spec fn parse_port_spec(s: Seq<char>) -> Option<u16> {
    let body = unsigned_body(s);
    if body.len() > 0 && all_digits(body) && digits_value(body) <= 65535 {
        Some(digits_value(body) as u16)
    } else {
        None
    }
}

/// An exposed-port key of the form `<port>/tcp`.
pub open spec fn is_tcp_key(k: Seq<char>) -> bool {
    &&& k.len() >= 4
    &&& k[k.len() - 4] == '/'
    &&& k[k.len() - 3] == 't'
    &&& k[k.len() - 2] == 'c'
    &&& k[k.len() - 1] == 'p'
}

/// The first TCP key at or after position `i`.
pub open spec fn first_tcp_from(keys: Seq<Seq<char>>, i: int) -> Option<Seq<char>>
    decreases keys.len() - i,
{
    if i < 0 || i >= keys.len() {
        None
    } else if is_tcp_key(keys[i]) {
        Some(keys[i])
    } else {
        first_tcp_from(keys, i + 1)
    }
}

/// The port traffic is routed to when none can be read from the image.
pub open spec fn default_port() -> u16 {
    80
}

/// The port read from the first TCP key of an image's exposed ports, or the
/// default port when there is no TCP key or its number does not parse.
pub open spec fn container_port_spec(keys: Seq<Seq<char>>) -> u16 {
    match first_tcp_from(keys, 0) {
        Some(k) => match parse_port_spec(before_slash(k)) {
            Some(p) => p,
            None => default_port(),
        },
        None => default_port(),
    }
}

/// The address part of an IP as the engine reports it, without a trailing
/// `/<prefix length>`.
pub fn strip_prefix_length(ip: &str) -> (r: String)
    ensures
        r@ == before_slash(ip@),
{
    let n = ip.unicode_len();
    let mut i: usize = 0;
    while i < n
        invariant
            n == ip@.len(),
            i <= n,
            slash_from(ip@, 0) == slash_from(ip@, i as int),
        ensures
            i <= n,
            slash_from(ip@, 0) == slash_from(ip@, i as int),
            i == n || ip@[i as int] == '/',
        decreases n - i,
    {
        if ip.get_char(i) == '/' {
            break;
        }
        i = i + 1;
    }
    assert(slash_from(ip@, i as int) == i as int);
    assert(ip@.subrange(0, i as int) =~= before_slash(ip@));
    String::from_str(ip.substring_char(0, i))
}

/// Parses a port number as `u16::from_str` does: an optional `+`, then
/// decimal digits denoting at most 65535.
pub fn parse_port(s: &str) -> (r: Option<u16>)
    ensures
        r == parse_port_spec(s@),
{
    let n = s.unicode_len();
    let start: usize = if n > 0 && s.get_char(0) == '+' {
        1
    } else {
        0
    };
    let ghost body = unsigned_body(s@);
    assert(body =~= s@.subrange(start as int, n as int));
    if start >= n {
        return None;
    }
    let mut value: u32 = 0;
    let mut over = false;
    let mut i: usize = start;
    while i < n
        invariant
            n == s@.len(),
            start <= i <= n,
            body == s@.subrange(start as int, n as int),
            body == unsigned_body(s@),
            over ==> digits_value(body.take(i - start)) > 65535,
            !over ==> value as int == digits_value(body.take(i - start)),
            !over ==> value <= 65535,
            all_digits(body.take(i - start)),
        decreases n - i,
    {
        let c = s.get_char(i);
        if !('0' <= c && c <= '9') {
            assert(!all_digits(body)) by {
                assert(body[i - start] == c);
            }
            return None;
        }
        let ghost prev = body.take(i - start);
        let ghost next = body.take(i - start + 1);
        assert(next.drop_last() =~= prev);
        assert(next.last() == c);
        assert(all_digits(next)) by {
            assert forall|j: int| 0 <= j < next.len() implies is_digit(#[trigger] next[j]) by {
                if j < prev.len() {
                    assert(next[j] == prev[j]);
                }
            }
        }
        if !over {
            let d: u32 = (c as u32) - ('0' as u32);
            let v = value * 10 + d;
            if v > 65535 {
                over = true;
            } else {
                value = v;
            }
        } else {
            assert(digits_value(prev) >= 0) by {
                lemma_digits_value_nonneg(prev);
            }
        }
        i = i + 1;
    }
    assert(body.take(n - start) =~= body);
    if over {
        None
    } else {
        Some(value as u16)
    }
}

proof fn lemma_digits_value_nonneg(s: Seq<char>)
    requires
        all_digits(s),
    ensures
        digits_value(s) >= 0,
    decreases s.len(),
{
    if s.len() > 0 {
        assert(all_digits(s.drop_last())) by {
            assert forall|j: int| 0 <= j < s.drop_last().len() implies is_digit(
                #[trigger] s.drop_last()[j],
            ) by {
                assert(s.drop_last()[j] == s[j]);
            }
        }
        lemma_digits_value_nonneg(s.drop_last());
        assert(is_digit(s[s.len() - 1]));
    }
}

fn check_tcp_key(k: &str) -> (r: bool)
    ensures
        r == is_tcp_key(k@),
{
    let n = k.unicode_len();
    n >= 4 && k.get_char(n - 4) == '/' && k.get_char(n - 3) == 't' && k.get_char(n - 2) == 'c'
        && k.get_char(n - 1) == 'p'
}

/// The container port that traffic is routed to, from the keys of an image's
/// exposed ports (`"3000/tcp"`, `"53/udp"`) in the order the engine lists them.
pub fn container_port(exposed_ports: &Vec<String>) -> (r: u16)
    ensures
        r == container_port_spec(exposed_ports@.map_values(|k: String| k@)),
{
    let ghost keys = exposed_ports@.map_values(|k: String| k@);
    let mut i: usize = 0;
    while i < exposed_ports.len()
        invariant
            keys == exposed_ports@.map_values(|k: String| k@),
            i <= exposed_ports.len(),
            first_tcp_from(keys, 0) == first_tcp_from(keys, i as int),
        decreases exposed_ports.len() - i,
    {
        let key = exposed_ports[i].as_str();
        if check_tcp_key(key) {
            let number = strip_prefix_length(key);
            return match parse_port(number.as_str()) {
                Some(p) => p,
                None => 80,
            };
        }
        i = i + 1;
    }
    80
}

} // verus!
