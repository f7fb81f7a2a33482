//! Traits that augment plain types: rendering a duration for display,
//! turning a file path into a `file://` URI, and picking the file
//! arguments out of a command line.

use vstd::prelude::*;
use vstd::string::*;

use crate::text::{decimal_string, spec_decimal, spec_two_digits, two_digit_string};

verus! {

/// Nanoseconds per second, the resolution positions and durations are
/// kept in.
pub const NANOS_PER_SEC: u64 = 1_000_000_000;

/// Formats a duration for human consumption, "m:ss".
pub trait PrettyDuration {
    /// The rendered form of this duration.
    spec fn spec_pretty(&self) -> Seq<char>;

    fn pretty(&self) -> (r: String)
        ensures
            r@ == self.spec_pretty(),
    ;
}

/// "m:ss" for a duration of `n` nanoseconds: whole minutes, then the
/// leftover seconds zero-padded to two digits.
pub open spec fn spec_pretty_nanos(n: u64) -> Seq<char> {
    spec_decimal((n / 1_000_000_000 / 60) as nat) + seq![':'] + spec_two_digits(
        ((n / 1_000_000_000) % 60) as nat,
    )
}

impl PrettyDuration for u64 {
    /// A `u64` duration counts nanoseconds.
    open spec fn spec_pretty(&self) -> Seq<char> {
        spec_pretty_nanos(*self)
    }

    fn pretty(&self) -> (r: String) {
        let secs = *self / NANOS_PER_SEC;
        let mut s = decimal_string(secs / 60);
        s.append(":");
        let rest = two_digit_string(secs % 60);
        s.append(rest.as_str());
        proof {
            reveal_strlit(":");
            assert(s@ =~= spec_pretty_nanos(*self));
        }
        s
    }
}

/// A character that passes into a file URI unescaped: an ASCII letter or
/// digit, one of the unreserved marks `-`, `_`, `.`, `~`, or the path
/// separator `/`.
pub open spec fn spec_uri_plain(c: char) -> bool {
    ||| (97 <= c as u32 && c as u32 <= 122)
    ||| (65 <= c as u32 && c as u32 <= 90)
    ||| (48 <= c as u32 && c as u32 <= 57)
    ||| c == '-'
    ||| c == '_'
    ||| c == '.'
    ||| c == '~'
    ||| c == '/'
}

/// The upper-case hexadecimal digit for a value below sixteen.
pub open spec fn spec_hex_digit(d: nat) -> char {
    if d < 10 {
        crate::text::spec_digit(d)
    } else if d == 10 {
        'A'
    } else if d == 11 {
        'B'
    } else if d == 12 {
        'C'
    } else if d == 13 {
        'D'
    } else if d == 14 {
        'E'
    } else {
        'F'
    }
}

/// How one character of a path appears in the URI: kept as it is when it
/// is plain, an ASCII character escaped as `%XX` otherwise. A character
/// outside ASCII passes through unchanged.
pub open spec fn spec_uri_char(c: char) -> Seq<char> {
    if spec_uri_plain(c) {
        seq![c]
    } else if (c as u32) < 128 {
        seq!['%', spec_hex_digit((c as u32 / 16) as nat), spec_hex_digit((c as u32 % 16) as nat)]
    } else {
        seq![c]
    }
}

/// The escaped form of a whole path.
pub open spec fn spec_uri_escape(p: Seq<char>) -> Seq<char>
    decreases p.len(),
{
    if p.len() == 0 {
        Seq::empty()
    } else {
        spec_uri_escape(p.drop_last()) + spec_uri_char(p.last())
    }
}

/// The `file://` URI of a path.
pub open spec fn spec_uri_of(p: Seq<char>) -> Seq<char> {
    "file://"@ + spec_uri_escape(p)
}

fn hex_digit_str(d: u32) -> (r: &'static str)
    requires
        d < 16,
    ensures
        r@ == seq![spec_hex_digit(d as nat)],
{
    let s: &'static str = match d {
        0 => "0",
        1 => "1",
        2 => "2",
        3 => "3",
        4 => "4",
        5 => "5",
        6 => "6",
        7 => "7",
        8 => "8",
        9 => "9",
        10 => "A",
        11 => "B",
        12 => "C",
        13 => "D",
        14 => "E",
        _ => "F",
    };
    proof {
        reveal_strlit("0");
        reveal_strlit("1");
        reveal_strlit("2");
        reveal_strlit("3");
        reveal_strlit("4");
        reveal_strlit("5");
        reveal_strlit("6");
        reveal_strlit("7");
        reveal_strlit("8");
        reveal_strlit("9");
        reveal_strlit("A");
        reveal_strlit("B");
        reveal_strlit("C");
        reveal_strlit("D");
        reveal_strlit("E");
        reveal_strlit("F");
        assert(s@ =~= seq![spec_hex_digit(d as nat)]);
    }
    s
}

fn is_uri_plain(c: char) -> (r: bool)
    ensures
        r == spec_uri_plain(c),
{
    let v = c as u32;
    (97 <= v && v <= 122) || (65 <= v && v <= 90) || (48 <= v && v <= 57) || c == '-' || c == '_'
        || c == '.' || c == '~' || c == '/'
}

/// Conversion of a file path to a URI.
pub trait PathToURI {
    /// The URI this path converts to.
    spec fn spec_to_uri(&self) -> Seq<char>;

    fn to_uri(&self) -> (r: String)
        ensures
            r@ == self.spec_to_uri(),
    ;
}

impl PathToURI for String {
    /// `file://` followed by the path, percent-escaped.
    open spec fn spec_to_uri(&self) -> Seq<char> {
        spec_uri_of(self@)
    }

    fn to_uri(&self) -> (r: String) {
        let mut out: String = "file://".to_owned();
        let s = self.as_str();
        let n = s.unicode_len();
        let mut i: usize = 0;
        while i < n
            invariant
                i <= n,
                n == s@.len(),
                s@ == self@,
                out@ == "file://"@ + spec_uri_escape(s@.take(i as int)),
            decreases n - i,
        {
            let c = s.get_char(i);
            if is_uri_plain(c) || c as u32 >= 128 {
                let piece = s.substring_char(i, i + 1);
                out.append(piece);
            } else {
                let v = c as u32;
                out.append("%");
                out.append(hex_digit_str(v / 16));
                out.append(hex_digit_str(v % 16));
            }
            proof {
                reveal_strlit("%");
                assert(s@.take(i + 1).drop_last() =~= s@.take(i as int));
                assert(s@.take(i + 1).last() == s@[i as int]);
                assert(s@.subrange(i as int, i + 1) =~= seq![s@[i as int]]);
                assert(out@ =~= "file://"@ + spec_uri_escape(s@.take(i + 1)));
            }
            i = i + 1;
        }
        proof {
            assert(s@.take(n as int) =~= s@);
        }
        out
    }
}

/// Picks the input files out of a command line.
pub trait ArgFiles: Sized {
    /// The file arguments: everything after the program name.
    spec fn spec_files(self) -> Seq<Seq<char>>;

    fn files(self) -> (r: Vec<String>)
        ensures
            r@.map_values(|s: String| s@) == self.spec_files(),
    ;
}

impl ArgFiles for Vec<String> {
    /// Every argument but the first, which is the program's own name.
    open spec fn spec_files(self) -> Seq<Seq<char>> {
        if self@.len() == 0 {
            Seq::empty()
        } else {
            self@.skip(1).map_values(|s: String| s@)
        }
    }

    fn files(self) -> (r: Vec<String>) {
        let mut r: Vec<String> = Vec::new();
        let mut i: usize = 1;
        while i < self.len()
            invariant
                i >= 1,
                self@.len() >= 1 ==> i <= self@.len(),
                self@.len() >= 1 ==> r@ == self@.subrange(1, i as int),
                self@.len() == 0 ==> r@.len() == 0,
            decreases self@.len() - i,
        {
            r.push(self[i].clone());
            proof {
                assert(self@.subrange(1, i + 1) =~= self@.subrange(1, i as int).push(
                    self@[i as int]));
            }
            i = i + 1;
        }
        proof {
            if self@.len() >= 1 {
                assert(r@ =~= self@.skip(1));
                assert(r@.map_values(|s: String| s@) =~= self@.skip(1).map_values(
                    |s: String| s@));
            } else {
                assert(r@.len() == 0);
                assert(r@.map_values(|s: String| s@).len() == 0);
                assert(r@.map_values(|s: String| s@) =~~= Seq::<Seq<char>>::empty());
            }
        }
        r
    }
}

} // verus!
