//! Text forms used by the logger and the statistics API: Spotify URIs and
//! decimal renderings of integers.
use vstd::prelude::*;

verus! {

/// The character that stands for the decimal digit `d` (0..=9).
pub open spec fn digit_char(d: int) -> char {
    if d == 0 { '0' }
    else if d == 1 { '1' }
    else if d == 2 { '2' }
    else if d == 3 { '3' }
    else if d == 4 { '4' }
    else if d == 5 { '5' }
    else if d == 6 { '6' }
    else if d == 7 { '7' }
    else if d == 8 { '8' }
    else { '9' }
}

/// The decimal digits of a natural number, most significant first, without
/// leading zeros (zero itself is "0").
pub open spec fn digits(n: nat) -> Seq<char>
    decreases n,
{
    if n < 10 {
        seq![digit_char(n as int)]
    } else {
        digits(n / 10).push(digit_char((n % 10) as int))
    }
}

/// The decimal rendering of an integer: a leading '-' for negative values.
pub open spec fn decimal(n: int) -> Seq<char> {
    if n < 0 {
        seq!['-'] + digits((-n) as nat)
    } else {
        digits(n as nat)
    }
}

fn append_digit(out: &mut String, d: u128)
    requires
        d < 10,
    ensures
        final(out)@ == old(out)@.push(digit_char(d as int)),
{
    let s: &str = if d == 0 { "0" }
        else if d == 1 { "1" }
        else if d == 2 { "2" }
        else if d == 3 { "3" }
        else if d == 4 { "4" }
        else if d == 5 { "5" }
        else if d == 6 { "6" }
        else if d == 7 { "7" }
        else if d == 8 { "8" }
        else { "9" };
    proof {
        reveal_strlit("0");
        reveal_strlit("1");
        reveal_strlit("2");
        reveal_strlit("3");
        reveal_strlit("4");
        reveal_strlit("5");
        reveal_strlit("6");
        reveal_strlit("7");
        reveal_strlit("8");
        reveal_strlit("9");
    }
    out.append(s);
}

fn append_digits(out: &mut String, n: u128)
    ensures
        final(out)@ == old(out)@ + digits(n as nat),
    decreases n,
{
    if n >= 10 {
        append_digits(out, n / 10);
    }
    append_digit(out, n % 10);
    proof {
        assert(old(out)@ + digits(n as nat) =~= if n >= 10 {
            (old(out)@ + digits((n / 10) as nat)).push(digit_char((n % 10) as int))
        } else {
            old(out)@.push(digit_char((n % 10) as int))
        });
    }
}

/// Renders an integer in decimal, as Rust's `to_string` and PostgreSQL's
/// text output of an integer do.
pub fn format_int(n: i128) -> (res: String)
    ensures
        res@ == decimal(n as int),
{
    let mut out = String::new();
    if n < 0 {
        out.append("-");
        proof { reveal_strlit("-"); }
        let mag: u128 = if n == i128::MIN {
            170141183460469231731687303715884105728u128
        } else {
            (-n) as u128
        };
        append_digits(&mut out, mag);
    } else {
        append_digits(&mut out, n as u128);
    }
    out
}

/// `spotify:{kind}:{id}`, the URI under which Spotify names an object.
pub open spec fn spotify_uri_of(kind: Seq<char>, id: Seq<char>) -> Seq<char> {
    "spotify:"@ + kind + ":"@ + id
}

/// The Spotify URI of the object of type `kind` ("track", "album",
/// "artist", ...) with the bare id `id`, in the form that rspotify's
/// `Id::uri` gives it.
pub fn spotify_uri(kind: &str, id: &str) -> (res: String)
    ensures
        res@ == spotify_uri_of(kind@, id@),
{
    let mut out = String::from_str("spotify:");
    out.append(kind);
    out.append(":");
    out.append(id);
    out
}

/// What `format!("{:?}", s)` makes of a string slice: std's `Debug` form of
/// a `str`, quoted and escaped.
pub uninterp spec fn debug_form(s: Seq<char>) -> Seq<char>;

/// A character that `str`'s `Debug` form leaves as it is: an ASCII letter
/// or digit, '_', '-' or a space.
pub open spec fn is_plain_char(c: char) -> bool {
    ('a' <= c && c <= 'z') || ('A' <= c && c <= 'Z') || ('0' <= c && c <= '9')
        || c == '_' || c == '-' || c == ' '
}

/// `format!("{:?}", s)`. The result is named, not written out: std escapes
/// quotes, backslashes, control and non-printable characters by Unicode
/// tables. Stated is what the escaping rules give for strings made of plain
/// characters only: the string between two double quotes.
#[verifier::external_body]
pub fn debug_string(s: &str) -> (res: String)
    ensures
        res@ == debug_form(s@),
        (forall|i: int| 0 <= i < s@.len() ==> is_plain_char(#[trigger] s@[i]))
            ==> res@ == seq!['"'] + s@ + seq!['"'],
{
    format!("{:?}", s)
}

} // verus!
