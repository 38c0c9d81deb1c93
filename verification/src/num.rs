//! Decimal rendering and parsing of 16-bit unsigned integers, mirroring
//! `u16::from_str` for parsing.

use vstd::prelude::*;
use vstd::string::StrSliceExecFns;
use vstd::string::StringExecFns;

verus! {

/// The decimal digit character for a value below ten.
pub open spec fn digit_char(d: int) -> char {
    if d == 0 {
        '0'
    } else if d == 1 {
        '1'
    } else if d == 2 {
        '2'
    } else if d == 3 {
        '3'
    } else if d == 4 {
        '4'
    } else if d == 5 {
        '5'
    } else if d == 6 {
        '6'
    } else if d == 7 {
        '7'
    } else if d == 8 {
        '8'
    } else {
        '9'
    }
}

/// The decimal rendering of `n`, most significant digit first, with no
/// leading zeros (a single `'0'` for zero).
pub open spec fn u16_digits(n: nat) -> Seq<char>
    decreases n,
{
    if n < 10 {
        seq![digit_char(n as int)]
    } else {
        u16_digits(n / 10).push(digit_char((n % 10) as int))
    }
}

/// A one-character string slice for a digit value.
fn digit_str(d: u16) -> (s: &'static str)
    requires
        d < 10,
    ensures
        s@ =~= seq![digit_char(d as int)],
{
    if d == 0 {
        proof {
            reveal_strlit("0");
        }
        "0"
    } else if d == 1 {
        proof {
            reveal_strlit("1");
        }
        "1"
    } else if d == 2 {
        proof {
            reveal_strlit("2");
        }
        "2"
    } else if d == 3 {
        proof {
            reveal_strlit("3");
        }
        "3"
    } else if d == 4 {
        proof {
            reveal_strlit("4");
        }
        "4"
    } else if d == 5 {
        proof {
            reveal_strlit("5");
        }
        "5"
    } else if d == 6 {
        proof {
            reveal_strlit("6");
        }
        "6"
    } else if d == 7 {
        proof {
            reveal_strlit("7");
        }
        "7"
    } else if d == 8 {
        proof {
            reveal_strlit("8");
        }
        "8"
    } else {
        proof {
            reveal_strlit("9");
        }
        "9"
    }
}

/// The characters of the digit values in `ds`, in reverse order.
pub open spec fn reversed_chars(ds: Seq<u16>) -> Seq<char> {
    Seq::new(ds.len(), |i: int| digit_char(ds[ds.len() - 1 - i] as int))
}

proof fn lemma_reversed_push(ds: Seq<u16>, d: u16)
    ensures
        reversed_chars(ds.push(d)) =~= seq![digit_char(d as int)] + reversed_chars(ds),
{
}

/// Render `n` in decimal.
pub fn u16_to_string(n: u16) -> (s: String)
    ensures
        s@ == u16_digits(n as nat),
{
    let mut rev: Vec<u16> = Vec::new();
    let mut m: u16 = n;
    rev.push(m % 10);
    m = m / 10;
    proof {
        lemma_reversed_push(Seq::empty(), n % 10);
        assert(reversed_chars(Seq::empty()) =~= Seq::<char>::empty());
    }
    while m > 0
        invariant
            forall|j: int| 0 <= j < rev@.len() ==> rev@[j] < 10,
            rev@.len() >= 1,
            u16_digits(n as nat) =~= (if m > 0 {
                u16_digits(m as nat)
            } else {
                Seq::<char>::empty()
            }) + reversed_chars(rev@),
        decreases m,
    {
        let d = m % 10;
        proof {
            lemma_reversed_push(rev@, d);
        }
        rev.push(d);
        m = m / 10;
    }
    let ghost target = reversed_chars(rev@);
    proof {
        assert(u16_digits(n as nat) =~= target);
    }
    let mut s = String::new();
    let len = rev.len();
    let mut j: usize = len;
    while j > 0
        invariant
            forall|k: int| 0 <= k < rev@.len() ==> rev@[k] < 10,
            j <= len,
            len == rev@.len(),
            target == reversed_chars(rev@),
            s@ =~= target.take(len - j),
        decreases j,
    {
        j = j - 1;
        let ghost done = (len - (j + 1)) as int;
        let piece = digit_str(rev[j]);
        s.append(piece);
        proof {
            assert(target[done] == digit_char(rev@[j as int] as int));
            assert(target.take(done + 1) =~= target.take(done).push(target[done]));
        }
    }
    proof {
        assert(s@ =~= target.take(len as int));
        assert(target.take(len as int) =~= target);
    }
    s
}

/// Why a string failed to parse as a `u16`; the cases and their rendering
/// follow `u16::from_str`.
#[derive(Clone, Copy, Debug, PartialEq, Eq, Structural)]
pub enum NumError {
    Empty,
    InvalidDigit,
    PosOverflow,
}

impl NumError {
    /// The rendering of this error, matching `u16::from_str`'s messages.
    pub open spec fn message_spec(&self) -> Seq<char> {
        match self {
            NumError::Empty => "cannot parse integer from empty string"@,
            NumError::InvalidDigit => "invalid digit found in string"@,
            NumError::PosOverflow => "number too large to fit in target type"@,
        }
    }

    /// Render this error as `u16::from_str` would.
    pub fn message(&self) -> (m: String)
        ensures
            m@ == self.message_spec(),
    {
        match self {
            NumError::Empty => String::from_str("cannot parse integer from empty string"),
            NumError::InvalidDigit => String::from_str("invalid digit found in string"),
            NumError::PosOverflow => String::from_str("number too large to fit in target type"),
        }
    }
}

/// Whether `c` is a decimal digit.
pub open spec fn is_digit(c: char) -> bool {
    48 <= c as u32 <= 57
}

/// The value of a decimal digit character.
pub open spec fn digit_val(c: char) -> int {
    c as u32 - 48
}

/// Scan digit characters left to right, accumulating a value; the first
/// offending character decides the error, as in `u16::from_str`.
pub open spec fn scan_u16_spec(t: Seq<char>, acc: int) -> Result<u16, NumError>
    decreases t.len(),
{
    if t.len() == 0 {
        Ok(acc as u16)
    } else if !is_digit(t[0]) {
        Err(NumError::InvalidDigit)
    } else if acc * 10 + digit_val(t[0]) > 65535 {
        Err(NumError::PosOverflow)
    } else {
        scan_u16_spec(t.drop_first(), acc * 10 + digit_val(t[0]))
    }
}

/// What `u16::from_str` returns on `s`: an optional leading `'+'`, then at
/// least one digit, with overflow checked digit by digit.
pub open spec fn parse_u16_spec(s: Seq<char>) -> Result<u16, NumError> {
    if s.len() == 0 {
        Err(NumError::Empty)
    } else {
        let t = if s[0] == '+' {
            s.drop_first()
        } else {
            s
        };
        if t.len() == 0 {
            Err(NumError::InvalidDigit)
        } else {
            scan_u16_spec(t, 0)
        }
    }
}

/// Parse a decimal `u16` exactly as `u16::from_str` does.
pub fn parse_u16(s: &str) -> (r: Result<u16, NumError>)
    ensures
        r == parse_u16_spec(s@),
{
    let len = s.unicode_len();
    if len == 0 {
        return Err(NumError::Empty);
    }
    let first = s.get_char(0);
    let start: usize = if first == '+' {
        1
    } else {
        0
    };
    if start == len {
        return Err(NumError::InvalidDigit);
    }
    let ghost t = if s@[0] == '+' {
        s@.drop_first()
    } else {
        s@
    };
    proof {
        if s@[0] == '+' {
            assert(t =~= s@.subrange(start as int, len as int));
        } else {
            assert(t =~= s@.subrange(start as int, len as int));
        }
    }
    let mut acc: u32 = 0;
    let mut i: usize = start;
    while i < len
        invariant
            start <= i <= len,
            len == s@.len(),
            start <= 1,
            acc <= 65535,
            t == s@.subrange(start as int, len as int),
            t.len() > 0,
            parse_u16_spec(s@) == scan_u16_spec(t, 0),
            scan_u16_spec(t, 0) == scan_u16_spec(s@.subrange(i as int, len as int), acc as int),
        decreases len - i,
    {
        let ghost rest = s@.subrange(i as int, len as int);
        let c = s.get_char(i);
        let u = c as u32;
        proof {
            assert(rest[0] == s@[i as int]);
        }
        if u < 48 || u > 57 {
            proof {
                assert(!is_digit(rest[0]));
                assert(scan_u16_spec(rest, acc as int) == Err::<u16, NumError>(
                    NumError::InvalidDigit,
                ));
                assert(parse_u16_spec(s@) == scan_u16_spec(t, 0));
            }
            return Err(NumError::InvalidDigit);
        }
        let d = u - 48;
        let next = acc * 10 + d;
        if next > 65535 {
            proof {
                assert(is_digit(rest[0]) && digit_val(rest[0]) == d);
                assert(scan_u16_spec(rest, acc as int) == Err::<u16, NumError>(
                    NumError::PosOverflow,
                ));
                assert(parse_u16_spec(s@) == scan_u16_spec(t, 0));
            }
            return Err(NumError::PosOverflow);
        }
        acc = next;
        i = i + 1;
        proof {
            assert(rest.drop_first() =~= s@.subrange(i as int, len as int));
        }
    }
    proof {
        assert(s@.subrange(i as int, len as int).len() == 0);
    }
    Ok(acc as u16)
}

} // verus!
