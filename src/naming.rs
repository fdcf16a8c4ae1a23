use vstd::prelude::*;

verus! {

/// The decimal digit for `d`.
pub open spec fn digit_char(d: nat) -> char {
    if d == 0 { '0' } else if d == 1 { '1' } else if d == 2 { '2' } else if d == 3 { '3' }
    else if d == 4 { '4' } else if d == 5 { '5' } else if d == 6 { '6' } else if d == 7 { '7' }
    else if d == 8 { '8' } else { '9' }
}

/// The decimal writing of `n`, without leading zeros.
pub open spec fn decimal(n: nat) -> Seq<char>
    decreases n,
{
    if n < 10 {
        seq![digit_char(n)]
    } else {
        decimal(n / 10) + seq![digit_char(n % 10)]
    }
}

fn digit_str(d: usize) -> (r: &'static str)
    requires
        d < 10,
    ensures
        r@ == seq![digit_char(d as nat)],
{
    proof {
        reveal_strlit("0"); reveal_strlit("1"); reveal_strlit("2"); reveal_strlit("3");
        reveal_strlit("4"); reveal_strlit("5"); reveal_strlit("6"); reveal_strlit("7");
        reveal_strlit("8"); reveal_strlit("9");
    }
    if d == 0 { "0" } else if d == 1 { "1" } else if d == 2 { "2" } else if d == 3 { "3" }
    else if d == 4 { "4" } else if d == 5 { "5" } else if d == 6 { "6" } else if d == 7 { "7" }
    else if d == 8 { "8" } else { "9" }
}

/// `n` written in decimal.
pub fn to_decimal(n: usize) -> (r: String)
    ensures
        r@ == decimal(n as nat),
    decreases n,
{
    if n < 10 {
        String::from_str(digit_str(n))
    } else {
        let mut r = to_decimal(n / 10);
        r.append(digit_str(n % 10));
        r
    }
}

/// `a` followed by `b`.
pub fn join2(a: &str, b: &str) -> (r: String)
    ensures
        r@ == a@ + b@,
{
    let mut r = String::from_str(a);
    r.append(b);
    r
}

/// `a`, `b` and `c`, one after the other.
pub fn join3(a: &str, b: &str, c: &str) -> (r: String)
    ensures
        r@ == a@ + b@ + c@,
{
    let mut r = String::from_str(a);
    r.append(b);
    r.append(c);
    r
}

/// The name of the `i`-th wire parameter that carries the argument `name`: `__<name>_<i>`.
pub open spec fn wire_param_name(name: Seq<char>, i: nat) -> Seq<char> {
    "__"@ + name + "_"@ + decimal(i)
}

/// The name of the grouped wire value for the argument `name`: `_temp_<name>`.
pub open spec fn temp_name(name: Seq<char>) -> Seq<char> {
    "_temp_"@ + name
}

/// The name of a callback wire parameter: the argument's own name for an empty suffix,
/// `<name>_<suffix>` otherwise.
pub open spec fn suffixed_name(name: Seq<char>, suffix: Seq<char>) -> Seq<char> {
    if suffix.len() == 0 {
        name
    } else {
        name + "_"@ + suffix
    }
}

pub fn wire_name(name: &String, i: usize) -> (r: String)
    ensures
        r@ == wire_param_name(name@, i as nat),
{
    let mut r = String::from_str("__");
    r.append(name.as_str());
    r.append("_");
    let d = to_decimal(i);
    r.append(d.as_str());
    r
}

pub fn temp_ident(name: &String) -> (r: String)
    ensures
        r@ == temp_name(name@),
{
    join2("_temp_", name.as_str())
}

pub fn suffixed_ident(name: &String, suffix: &String) -> (r: String)
    ensures
        r@ == suffixed_name(name@, suffix@),
{
    if suffix.as_str().unicode_len() == 0 {
        name.clone()
    } else {
        join3(name.as_str(), "_", suffix.as_str())
    }
}

} // verus!
