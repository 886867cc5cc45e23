//! Verified text helpers: decimal rendering, ASCII lowercasing, and path
//! suffix extraction, used by the library models.
use vstd::prelude::*;
use vstd::string::StrSliceExecFns;
use vstd::string::StringExecFns;

verus! {

pub open spec fn spec_digit_char(d: int) -> char {
    if d == 0 {
        '0'
    } else if d == 1 {
        '1'
    } else if d == 2 {
        '2'
    } else if d == 3 {
        '3'
    } else if d == 4 {
        '4'
    } else if d == 5 {
        '5'
    } else if d == 6 {
        '6'
    } else if d == 7 {
        '7'
    } else if d == 8 {
        '8'
    } else {
        '9'
    }
}

/// The decimal rendering of a number, most significant digit first.
pub open spec fn spec_digits(n: nat) -> Seq<char>
    decreases n,
{
    if n < 10 {
        seq![spec_digit_char(n as int)]
    } else {
        spec_digits(n / 10).push(spec_digit_char((n % 10) as int))
    }
}

fn digit_str(d: u64) -> (r: &'static str)
    requires
        d < 10,
    ensures
        r@ == seq![spec_digit_char(d as int)],
{
    match d {
        0 => {
            proof {
                reveal_strlit("0");
                assert("0"@ =~= seq!['0']);
            }
            "0"
        }
        1 => {
            proof {
                reveal_strlit("1");
                assert("1"@ =~= seq!['1']);
            }
            "1"
        }
        2 => {
            proof {
                reveal_strlit("2");
                assert("2"@ =~= seq!['2']);
            }
            "2"
        }
        3 => {
            proof {
                reveal_strlit("3");
                assert("3"@ =~= seq!['3']);
            }
            "3"
        }
        4 => {
            proof {
                reveal_strlit("4");
                assert("4"@ =~= seq!['4']);
            }
            "4"
        }
        5 => {
            proof {
                reveal_strlit("5");
                assert("5"@ =~= seq!['5']);
            }
            "5"
        }
        6 => {
            proof {
                reveal_strlit("6");
                assert("6"@ =~= seq!['6']);
            }
            "6"
        }
        7 => {
            proof {
                reveal_strlit("7");
                assert("7"@ =~= seq!['7']);
            }
            "7"
        }
        8 => {
            proof {
                reveal_strlit("8");
                assert("8"@ =~= seq!['8']);
            }
            "8"
        }
        _ => {
            proof {
                reveal_strlit("9");
                assert("9"@ =~= seq!['9']);
            }
            "9"
        }
    }
}

/// Render a number in decimal.
pub fn u64_to_string(n: u64) -> (r: String)
    ensures
        r@ == spec_digits(n as nat),
    decreases n,
{
    if n < 10 {
        digit_str(n).to_owned()
    } else {
        let mut s = u64_to_string(n / 10);
        s.append(digit_str(n % 10));
        s
    }
}

/// Lowercase a single character, ASCII-only: 'A'..'Z' map down, everything
/// else stays.
pub open spec fn spec_lower_char(c: char) -> char {
    if 'A' <= c <= 'Z' {
        ((c as int) + 32) as char
    } else {
        c
    }
}

pub open spec fn spec_lower(s: Seq<char>) -> Seq<char> {
    Seq::new(s.len(), |i: int| spec_lower_char(s[i]))
}

/// ASCII-lowercase a string.
pub fn to_ascii_lower(s: &str) -> (r: String)
    ensures
        r@ == spec_lower(s@),
{
    let n = s.unicode_len();
    let mut out = String::new();
    let mut buf: Vec<char> = Vec::new();
    let mut i: usize = 0;
    while i < n
        invariant
            n == s@.len(),
            i <= n,
            buf@.len() == i,
            forall|j: int| 0 <= j < i ==> buf@[j] == spec_lower_char(s@[j]),
        decreases n - i,
    {
        let c = s.get_char(i);
        let lowered: char = if 'A' <= c && c <= 'Z' {
            proof {
                assert('A' <= c <= 'Z');
                assert(65 <= c as int <= 90);
            }
            (((c as u8) + 32) as char)
        } else {
            c
        };
        buf.push(lowered);
        i = i + 1;
    }
    let r = chars_to_string(&buf);
    proof {
        assert(r@ =~= spec_lower(s@));
    }
    r
}

/// Build a string from characters.
fn chars_to_string(chars: &Vec<char>) -> (r: String)
    ensures
        r@ == chars@,
{
    let mut s = String::new();
    let mut i: usize = 0;
    while i < chars.len()
        invariant
            i <= chars@.len(),
            s@ == chars@.take(i as int),
        decreases chars@.len() - i,
    {
        push_char(&mut s, chars[i]);
        proof {
            assert(s@ =~= chars@.take(i as int + 1));
        }
        i = i + 1;
    }
    proof {
        assert(s@ =~= chars@);
    }
    s
}

/// Relies on String::push: appends exactly the one character.
#[verifier::external_body]
fn push_char(s: &mut String, c: char)
    ensures
        final(s)@ == old(s)@.push(c),
{
    s.push(c);
}

/// The position right after the last occurrence of `sep`, or 0 when `sep`
/// does not occur: where the path's file name starts for `sep == '/'`, or
/// where an extension starts for `sep == '.'`.
pub open spec fn spec_after_last(s: Seq<char>, sep: char) -> int {
    if exists|i: int| 0 <= i < s.len() && s[i] == sep {
        (choose|i: int|
            0 <= i < s.len() && s[i] == sep && forall|j: int| i < j < s.len() ==> s[j] != sep) + 1
    } else {
        0
    }
}

/// Find the position right after the last occurrence of `sep` (0 when
/// absent), together with whether `sep` occurs at all.
pub fn after_last(s: &str, sep: char) -> (r: (usize, bool))
    ensures
        r.1 == exists|i: int| 0 <= i < s@.len() && s@[i] == sep,
        r.1 ==> {
            &&& 1 <= r.0 <= s@.len()
            &&& s@[r.0 - 1] == sep
            &&& forall|j: int| r.0 <= j < s@.len() ==> s@[j] != sep
            &&& r.0 == spec_after_last(s@, sep)
        },
        !r.1 ==> r.0 == 0 && r.0 == spec_after_last(s@, sep),
{
    let n = s.unicode_len();
    let mut i: usize = n;
    while i > 0
        invariant
            n == s@.len(),
            i <= n,
            forall|j: int| i <= j < n ==> s@[j] != sep,
        decreases i,
    {
        i = i - 1;
        if s.get_char(i) == sep {
            proof {
                let k = i as int;
                assert(0 <= k < s@.len() && s@[k] == sep && forall|j: int|
                    k < j < s@.len() ==> s@[j] != sep);
                let c = choose|i2: int|
                    0 <= i2 < s@.len() && s@[i2] == sep && forall|j: int|
                        i2 < j < s@.len() ==> s@[j] != sep;
                assert(c == k) by {
                    if c < k {
                        assert(s@[k] == sep);
                    } else if c > k {
                        assert(s@[c] != sep);
                    }
                };
            }
            return (i + 1, true);
        }
    }
    (0, false)
}

} // verus!
