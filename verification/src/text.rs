use vstd::prelude::*;
use vstd::string::*;

verus! {

/// The character for a decimal digit `d` (`0 <= d < 10`).
pub open spec fn digit_char(d: int) -> char {
    if d == 0 { '0' }
    else if d == 1 { '1' }
    else if d == 2 { '2' }
    else if d == 3 { '3' }
    else if d == 4 { '4' }
    else if d == 5 { '5' }
    else if d == 6 { '6' }
    else if d == 7 { '7' }
    else if d == 8 { '8' }
    else { '9' }
}

/// The decimal digits of `n`, most significant first, without leading zeros.
pub open spec fn decimal_nat(n: nat) -> Seq<char>
    decreases n,
{
    if n < 10 {
        seq![digit_char(n as int)]
    } else {
        decimal_nat(n / 10) + seq![digit_char((n % 10) as int)]
    }
}

/// The decimal text of an integer, as Rust's `Display` writes it.
pub open spec fn decimal_int(x: int) -> Seq<char> {
    if x < 0 {
        seq!['-'] + decimal_nat((-x) as nat)
    } else {
        decimal_nat(x as nat)
    }
}

fn digit_str(d: u64) -> (r: &'static str)
    requires
        d < 10,
    ensures
        r@ == seq![digit_char(d as int)],
{
    proof {
        reveal_strlit("0");
        reveal_strlit("1");
        reveal_strlit("2");
        reveal_strlit("3");
        reveal_strlit("4");
        reveal_strlit("5");
        reveal_strlit("6");
        reveal_strlit("7");
        reveal_strlit("8");
        reveal_strlit("9");
    }
    if d == 0 { "0" }
    else if d == 1 { "1" }
    else if d == 2 { "2" }
    else if d == 3 { "3" }
    else if d == 4 { "4" }
    else if d == 5 { "5" }
    else if d == 6 { "6" }
    else if d == 7 { "7" }
    else if d == 8 { "8" }
    else { "9" }
}

/// Decimal text of `x`.
pub fn decimal_i32(x: i32) -> (r: String)
    ensures
        r@ == decimal_int(x as int),
{
    let neg = x < 0;
    let wide: i64 = x as i64;
    let mut n: u64 = if neg { (-wide) as u64 } else { wide as u64 };
    let ghost orig: nat = n as nat;
    let mut s = String::from_str(digit_str(n % 10));
    n = n / 10;
    while n > 0
        invariant
            n > 0 ==> decimal_nat(orig) == decimal_nat(n as nat) + s@,
            n == 0 ==> decimal_nat(orig) == s@,
        decreases n,
    {
        let ghost old_s = s@;
        let t = String::from_str(digit_str(n % 10)).concat(s.as_str());
        s = t;
        assert(s@ == seq![digit_char((n % 10) as int)] + old_s);
        if n >= 10 {
            assert(decimal_nat(n as nat) == decimal_nat((n / 10) as nat) + seq![digit_char((n % 10) as int)]);
            assert(decimal_nat((n / 10) as nat) + seq![digit_char((n % 10) as int)] + old_s
                =~= decimal_nat((n / 10) as nat) + s@);
        } else {
            assert(decimal_nat(n as nat) == seq![digit_char(n as int)]);
        }
        n = n / 10;
    }
    if neg {
        proof {
            reveal_strlit("-");
        }
        String::from_str("-").concat(s.as_str())
    } else {
        s
    }
}

/// Whether two strings hold the same characters.
pub fn str_eq(a: &str, b: &str) -> (r: bool)
    ensures
        r == (a@ == b@),
{
    let n = a.unicode_len();
    let m = b.unicode_len();
    if n != m {
        return false;
    }
    let mut i: usize = 0;
    while i < n
        invariant
            n == a@.len(),
            m == b@.len(),
            n == m,
            i <= n,
            forall|j: int| 0 <= j < i ==> a@[j] == b@[j],
        decreases n - i,
    {
        if a.get_char(i) != b.get_char(i) {
            return false;
        }
        i = i + 1;
    }
    assert(a@ =~= b@);
    true
}

/// What Rust's `Debug` formatting writes for a string: the text in double
/// quotes, with quotes, backslashes and unprintable characters escaped.
pub uninterp spec fn debug_text(s: Seq<char>) -> Seq<char>;

/// `format!("{:?}", s)` from std: the contract claims only that the output
/// is a function of the string's characters, named `debug_text`; the escaping
/// rules of `str::escape_debug` are not written out here.
#[verifier::external_body]
pub(crate) fn debug_quoted(s: &str) -> (r: String)
    ensures
        r@ == debug_text(s@),
{
    format!("{:?}", s)
}

/// Text of an optional C string, the empty string when it is absent.
pub fn text_or_empty(s: Option<String>) -> (r: String)
    ensures
        r@ == (match s {
            Some(t) => t@,
            None => Seq::<char>::empty(),
        }),
{
    match s {
        Some(t) => t,
        None => String::new(),
    }
}

} // verus!
