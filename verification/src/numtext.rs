use vstd::prelude::*;
use vstd::string::StringExecFns;

verus! {

/// Telemetry values and control inputs travel through this crate as the text
/// of a JSON number, so that the crate can splice them into wire frames and
/// hand them out again without ever interpreting them numerically. This
/// module gives the JSON number grammar as a deterministic left-to-right
/// scan, an executable checker proved against it, and the decimal rendering
/// of unsigned integers used for port numbers.

pub open spec fn is_digit(c: char) -> bool {
    '0' <= c && c <= '9'
}

/// First position at or after `i` that does not hold a digit.
pub open spec fn run_end(s: Seq<char>, i: int) -> int
    decreases s.len() - i,
{
    if 0 <= i < s.len() && is_digit(s[i]) {
        run_end(s, i + 1)
    } else {
        i
    }
}

pub proof fn lemma_run_end_bounds(s: Seq<char>, i: int)
    requires
        0 <= i <= s.len(),
    ensures
        i <= run_end(s, i) <= s.len(),
    decreases s.len() - i,
{
    if i < s.len() && is_digit(s[i]) {
        lemma_run_end_bounds(s, i + 1);
    }
}

/// End of the integer part beginning at `i`: a single `0`, or a nonzero
/// digit followed by any further digits. Returns `i` itself when no valid
/// integer part starts there.
pub open spec fn int_part_end(s: Seq<char>, i: int) -> int {
    if 0 <= i < s.len() && is_digit(s[i]) {
        if s[i] == '0' {
            i + 1
        } else {
            run_end(s, i)
        }
    } else {
        i
    }
}

/// End of an optional fraction part beginning at `i`: a dot followed by at
/// least one digit. Returns `i` when no valid fraction starts there.
pub open spec fn frac_end(s: Seq<char>, i: int) -> int {
    if 0 <= i && i + 1 < s.len() && s[i] == '.' && is_digit(s[i + 1]) {
        run_end(s, i + 1)
    } else {
        i
    }
}

/// End of an optional exponent part beginning at `i`: `e` or `E`, an
/// optional sign, then at least one digit. Returns `i` when no valid
/// exponent starts there.
pub open spec fn exp_end(s: Seq<char>, i: int) -> int {
    if 0 <= i < s.len() && (s[i] == 'e' || s[i] == 'E') {
        let j = if i + 1 < s.len() && (s[i + 1] == '+' || s[i + 1] == '-') {
            i + 2
        } else {
            i + 1
        };
        if j < s.len() && is_digit(s[j]) {
            run_end(s, j)
        } else {
            i
        }
    } else {
        i
    }
}

/// Position reached by scanning one JSON number from the start of `s`,
/// or -1 when `s` does not begin with one.
pub open spec fn number_end(s: Seq<char>) -> int {
    let start: int = if s.len() > 0 && s[0] == '-' {
        1
    } else {
        0
    };
    let ie = int_part_end(s, start);
    if ie == start {
        -1
    } else {
        exp_end(s, frac_end(s, ie))
    }
}

/// `s` is exactly one number of the JSON grammar.
pub open spec fn is_json_number(s: Seq<char>) -> bool {
    number_end(s) == s.len()
}

fn is_digit_char(c: char) -> (r: bool)
    ensures
        r == is_digit(c),
{
    '0' <= c && c <= '9'
}

/// Scan the digit run beginning at `from`.
fn scan_digit_run(s: &str, from: usize) -> (r: usize)
    requires
        from <= s@.len(),
    ensures
        r == run_end(s@, from as int),
        from <= r <= s@.len(),
{
    let n = s.unicode_len();
    let mut i = from;
    while i < n && is_digit_char(s.get_char(i))
        invariant
            from <= i <= n,
            n == s@.len(),
            run_end(s@, from as int) == run_end(s@, i as int),
        decreases n - i,
    {
        i = i + 1;
    }
    i
}

/// Decide membership in the JSON number grammar.
pub fn check_json_number(s: &str) -> (r: bool)
    ensures
        r == is_json_number(s@),
{
    let n = s.unicode_len();
    if n == 0 {
        return false;
    }
    let start: usize = if s.get_char(0) == '-' {
        1
    } else {
        0
    };
    if start >= n || !is_digit_char(s.get_char(start)) {
        return false;
    }
    let ie: usize = if s.get_char(start) == '0' {
        start + 1
    } else {
        scan_digit_run(s, start)
    };
    proof {
        lemma_run_end_bounds(s@, start as int);
    }
    let mut p: usize = ie;
    if p < n && s.get_char(p) == '.' && p + 1 < n && is_digit_char(s.get_char(p + 1)) {
        p = scan_digit_run(s, p + 1);
    }
    assert(p == frac_end(s@, ie as int));
    if p < n && (s.get_char(p) == 'e' || s.get_char(p) == 'E') {
        let ghost pe: int = p as int;
        let q: usize = if p + 1 < n && (s.get_char(p + 1) == '+' || s.get_char(p + 1) == '-') {
            p + 2
        } else {
            p + 1
        };
        if q < n && is_digit_char(s.get_char(q)) {
            p = scan_digit_run(s, q);
        }
        assert(p == exp_end(s@, pe));
    }
    p == n
}

pub open spec fn dec_digit_char(d: int) -> char {
    if d == 0 {
        '0'
    } else if d == 1 {
        '1'
    } else if d == 2 {
        '2'
    } else if d == 3 {
        '3'
    } else if d == 4 {
        '4'
    } else if d == 5 {
        '5'
    } else if d == 6 {
        '6'
    } else if d == 7 {
        '7'
    } else if d == 8 {
        '8'
    } else {
        '9'
    }
}

/// Decimal rendering of `n`, without sign or leading zeros.
pub open spec fn dec_rep(n: int) -> Seq<char>
    decreases n,
{
    if n < 10 {
        seq![dec_digit_char(n)]
    } else {
        dec_rep(n / 10).push(dec_digit_char(n % 10))
    }
}

fn dec_digit_str(d: u16) -> (r: &'static str)
    requires
        d < 10,
    ensures
        r@.len() == 1,
        r@[0] == dec_digit_char(d as int),
{
    proof {
        reveal_strlit("0");
        reveal_strlit("1");
        reveal_strlit("2");
        reveal_strlit("3");
        reveal_strlit("4");
        reveal_strlit("5");
        reveal_strlit("6");
        reveal_strlit("7");
        reveal_strlit("8");
        reveal_strlit("9");
    }
    if d == 0 {
        "0"
    } else if d == 1 {
        "1"
    } else if d == 2 {
        "2"
    } else if d == 3 {
        "3"
    } else if d == 4 {
        "4"
    } else if d == 5 {
        "5"
    } else if d == 6 {
        "6"
    } else if d == 7 {
        "7"
    } else if d == 8 {
        "8"
    } else {
        "9"
    }
}

/// Decimal rendering of a port-sized integer.
pub fn u16_dec_string(n: u16) -> (r: String)
    ensures
        r@ == dec_rep(n as int),
    decreases n,
{
    if n < 10 {
        let r = String::from_str(dec_digit_str(n));
        proof {
            assert(r@ =~= dec_rep(n as int));
        }
        r
    } else {
        let mut r = u16_dec_string(n / 10);
        r.append(dec_digit_str(n % 10));
        proof {
            assert(r@ =~= dec_rep(n as int));
        }
        r
    }
}

} // verus!
