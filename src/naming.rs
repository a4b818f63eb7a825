//! Names of the objects that the provisioner creates for an app.
use vstd::prelude::*;
use vstd::string::*;

verus! {

/// The character of a decimal digit.
pub open spec fn digit_char(d: nat) -> char {
    if d == 0 {
        '0'
    } else if d == 1 {
        '1'
    } else if d == 2 {
        '2'
    } else if d == 3 {
        '3'
    } else if d == 4 {
        '4'
    } else if d == 5 {
        '5'
    } else if d == 6 {
        '6'
    } else if d == 7 {
        '7'
    } else if d == 8 {
        '8'
    } else {
        '9'
    }
}

/// Decimal digits of a natural number, most significant first, no leading zeros.
pub open spec fn nat_digits(n: nat) -> Seq<char>
    decreases n,
{
    if n < 10 {
        seq![digit_char(n)]
    } else {
        nat_digits(n / 10).push(digit_char(n % 10))
    }
}

/// Decimal rendering of an integer, with a leading `-` when negative.
pub open spec fn decimal(n: int) -> Seq<char> {
    if n < 0 {
        seq!['-'] + nat_digits((-n) as nat)
    } else {
        nat_digits(n as nat)
    }
}

pub open spec fn image_name_spec(app_id: int) -> Seq<char> {
    "haas-apps-"@ + decimal(app_id)
}

pub open spec fn network_name_spec(app_id: int) -> Seq<char> {
    "haas_apps_"@ + decimal(app_id)
}

pub open spec fn route_id_spec(app_id: int) -> Seq<char> {
    "haas_apps_"@ + decimal(app_id) + "_route"@
}

pub open spec fn route_host_spec(slug: Seq<char>) -> Seq<char> {
    slug + ".hackclub.app"@
}

pub open spec fn upstream_spec(ip: Seq<char>, port: int) -> Seq<char> {
    ip + ":"@ + decimal(port)
}

/// The label key that ties engine objects to the app they belong to.
pub open spec fn slug_label_spec() -> Seq<char> {
    "app.hackclub.app_slug"@
}

fn digit_str(d: u64) -> (r: &'static str)
    requires
        d < 10,
    ensures
        r@ == seq![digit_char(d as nat)],
{
    proof {
        reveal_strlit("0");
        reveal_strlit("1");
        reveal_strlit("2");
        reveal_strlit("3");
        reveal_strlit("4");
        reveal_strlit("5");
        reveal_strlit("6");
        reveal_strlit("7");
        reveal_strlit("8");
        reveal_strlit("9");
    }
    let r = if d == 0 {
        "0"
    } else if d == 1 {
        "1"
    } else if d == 2 {
        "2"
    } else if d == 3 {
        "3"
    } else if d == 4 {
        "4"
    } else if d == 5 {
        "5"
    } else if d == 6 {
        "6"
    } else if d == 7 {
        "7"
    } else if d == 8 {
        "8"
    } else {
        "9"
    };
    assert(r@ =~= seq![digit_char(d as nat)]);
    r
}

/// Appends the decimal digits of `n` to `s`.
pub fn push_digits(s: &mut String, n: u64)
    ensures
        final(s)@ == old(s)@ + nat_digits(n as nat),
    decreases n,
{
    if n >= 10 {
        push_digits(s, n / 10);
    }
    s.append(digit_str(n % 10));
    proof {
        if n >= 10 {
            assert(old(s)@ + nat_digits((n / 10) as nat) + seq![digit_char((n % 10) as nat)]
                =~= old(s)@ + nat_digits(n as nat));
        } else {
            assert(old(s)@ + seq![digit_char(n as nat)] =~= old(s)@ + nat_digits(n as nat));
        }
    }
}

/// Appends the decimal rendering of `n` to `s`.
pub fn push_decimal(s: &mut String, n: i64)
    ensures
        final(s)@ == old(s)@ + decimal(n as int),
{
    if n < 0 {
        s.append("-");
        let m: u64 = if n == i64::MIN {
            9223372036854775808u64
        } else {
            (-n) as u64
        };
        push_digits(s, m);
        proof {
            reveal_strlit("-");
            assert(old(s)@ + "-"@ + nat_digits(m as nat) =~= old(s)@ + decimal(n as int));
        }
    } else {
        push_digits(s, n as u64);
    }
}

/// Decimal rendering of an integer.
pub fn decimal_string(n: i64) -> (r: String)
    ensures
        r@ == decimal(n as int),
{
    let mut s = String::new();
    push_decimal(&mut s, n);
    assert(s@ =~= decimal(n as int));
    s
}

/// The tag of the image built for an app: `haas-apps-<id>`.
pub fn image_name(app_id: i32) -> (r: String)
    ensures
        r@ == image_name_spec(app_id as int),
{
    let mut s = String::from_str("haas-apps-");
    push_decimal(&mut s, app_id as i64);
    s
}

/// The name of the app's private network: `haas_apps_<id>`.
pub fn network_name(app_id: i32) -> (r: String)
    ensures
        r@ == network_name_spec(app_id as int),
{
    let mut s = String::from_str("haas_apps_");
    push_decimal(&mut s, app_id as i64);
    s
}

/// The identifier of the app's proxy route: `haas_apps_<id>_route`.
pub fn route_id(app_id: i32) -> (r: String)
    ensures
        r@ == route_id_spec(app_id as int),
{
    let mut s = String::from_str("haas_apps_");
    push_decimal(&mut s, app_id as i64);
    s.append("_route");
    s
}

/// The public host name of an app: `<slug>.hackclub.app`.
pub fn route_host(slug: &str) -> (r: String)
    ensures
        r@ == route_host_spec(slug@),
{
    let mut s = String::from_str(slug);
    s.append(".hackclub.app");
    s
}

/// The proxy upstream of a container: `<ip>:<port>`.
pub fn upstream_address(ip: &str, port: u16) -> (r: String)
    ensures
        r@ == upstream_spec(ip@, port as int),
{
    let mut s = String::from_str(ip);
    s.append(":");
    push_decimal(&mut s, port as i64);
    s
}

/// The label key `app.hackclub.app_slug`.
pub fn slug_label() -> (r: String)
    ensures
        r@ == slug_label_spec(),
{
    String::from_str("app.hackclub.app_slug")
}

} // verus!
