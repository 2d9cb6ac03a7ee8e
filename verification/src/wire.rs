//! The wire format of the `Server-Timing` header value: label sanitization,
//! decimal formatting of durations, and joining the entries.

use vstd::prelude::*;
use vstd::string::StrSliceExecFns;

verus! {

/// What `char::is_alphanumeric` returns: whether the character is a Unicode
/// letter or digit. The classification is a fixed table of the Unicode
/// character database, so it is a function of the character alone.
pub uninterp spec fn alphanumeric(c: char) -> bool;

/// Relies on `char::is_alphanumeric`: true exactly for Unicode letters and
/// digits, depending on the character alone.
pub assume_specification[ char::is_alphanumeric ](c: char) -> (r: bool)
    ensures
        r == alphanumeric(c),
;

/// Relies on `String::push`: appends the given character to the end of the
/// string.
pub assume_specification[ String::push ](s: &mut String, c: char)
    ensures
        final(s)@ == old(s)@.push(c),
;

/// A character as it appears in a rendered label: kept if alphanumeric,
/// replaced with an underscore otherwise.
pub open spec fn sanitize_char(c: char) -> char {
    if alphanumeric(c) {
        c
    } else {
        '_'
    }
}

/// A label as it appears in the rendered header value: each character that is
/// not alphanumeric is replaced, one for one, with an underscore.
pub open spec fn sanitize(s: Seq<char>) -> Seq<char> {
    Seq::new(s.len(), |i: int| sanitize_char(s[i]))
}

/// The decimal digit characters, in order of value.
pub open spec fn dec_digit(d: int) -> char {
    if d == 0 {
        '0'
    } else if d == 1 {
        '1'
    } else if d == 2 {
        '2'
    } else if d == 3 {
        '3'
    } else if d == 4 {
        '4'
    } else if d == 5 {
        '5'
    } else if d == 6 {
        '6'
    } else if d == 7 {
        '7'
    } else if d == 8 {
        '8'
    } else {
        '9'
    }
}

/// The usual decimal notation of `n`: most significant digit first, no sign,
/// no leading zero except for `n == 0` itself.
pub open spec fn dec_str(n: nat) -> Seq<char>
    decreases n,
{
    if n < 10 {
        seq![dec_digit(n as int)]
    } else {
        dec_str(n / 10).push(dec_digit((n % 10) as int))
    }
}

fn digit_char(d: u8) -> (c: char)
    requires
        d < 10,
    ensures
        c == dec_digit(d as int),
{
    match d {
        0 => '0',
        1 => '1',
        2 => '2',
        3 => '3',
        4 => '4',
        5 => '5',
        6 => '6',
        7 => '7',
        8 => '8',
        _ => '9',
    }
}

/// Appends the decimal notation of `n` to `out`.
pub fn append_decimal(out: &mut String, n: u128)
    ensures
        final(out)@ == old(out)@ + dec_str(n as nat),
    decreases n,
{
    if n >= 10 {
        proof {
            assert(n / 10 < n) by (nonlinear_arith)
                requires
                    n >= 10,
            ;
        }
        append_decimal(out, n / 10);
    }
    let d: u8 = (n % 10) as u8;
    out.push(digit_char(d));
    proof {
        if n < 10 {
            assert(old(out)@ + dec_str(n as nat) =~= out@);
        } else {
            assert(dec_str((n / 10) as nat).push(dec_digit((n % 10) as int)) == dec_str(n as nat));
            assert(old(out)@ + dec_str(n as nat) =~= out@);
        }
    }
}

/// The decimal notation of `n`, as a string.
pub fn decimal_string(n: u128) -> (r: String)
    ensures
        r@ == dec_str(n as nat),
{
    let mut out = String::new();
    append_decimal(&mut out, n);
    proof {
        assert(out@ =~= dec_str(n as nat));
    }
    out
}

/// Appends the sanitized form of `label` to `out`.
pub fn append_sanitized(out: &mut String, label: &str)
    ensures
        final(out)@ == old(out)@ + sanitize(label@),
{
    let len = label.unicode_len();
    let mut j: usize = 0;
    while j < len
        invariant
            j <= len,
            len == label@.len(),
            out@ == old(out)@ + sanitize(label@).take(j as int),
        decreases len - j,
    {
        let c = label.get_char(j);
        let s = if c.is_alphanumeric() {
            c
        } else {
            '_'
        };
        out.push(s);
        proof {
            assert(sanitize(label@).take(j as int).push(sanitize_char(label@[j as int])) =~= sanitize(
                label@,
            ).take(j + 1 as int));
        }
        j += 1;
    }
    proof {
        assert(sanitize(label@).take(len as int) =~= sanitize(label@));
    }
}

/// The sanitized form of `label`: every character that is not alphanumeric
/// replaced with an underscore.
pub fn sanitize_label(label: &str) -> (r: String)
    ensures
        r@ == sanitize(label@),
{
    let mut out = String::new();
    append_sanitized(&mut out, label);
    proof {
        assert(out@ =~= sanitize(label@));
    }
    out
}

/// One rendered entry: the sanitized label, then the literal `;dur=`, then
/// the duration in whole milliseconds, in decimal.
pub open spec fn entry_str(e: (Seq<char>, u128)) -> Seq<char> {
    sanitize(e.0) + ";dur="@ + dec_str(e.1 as nat)
}

/// The rendered header value: the entries in recording order, joined with the
/// literal separator `", "`, with no trailing separator; empty when there are
/// no entries.
pub open spec fn render_str(es: Seq<(Seq<char>, u128)>) -> Seq<char>
    decreases es.len(),
{
    if es.len() == 0 {
        Seq::empty()
    } else if es.len() == 1 {
        entry_str(es[0])
    } else {
        render_str(es.drop_last()) + ", "@ + entry_str(es.last())
    }
}

/// Recording one more measurement appends exactly one entry to the rendered
/// value, after a `", "` separator unless it is the first: entries appear
/// one per measurement, in recording order.
pub proof fn lemma_render_push(es: Seq<(Seq<char>, u128)>, e: (Seq<char>, u128))
    ensures
        render_str(es.push(e)) == if es.len() == 0 {
            entry_str(e)
        } else {
            render_str(es) + ", "@ + entry_str(e)
        },
{
    let es1 = es.push(e);
    assert(es1.last() == e);
    if es.len() == 0 {
        assert(render_str(es1) == entry_str(es1[0]));
    } else {
        assert(es1.drop_last() =~= es);
    }
}

/// Rendering an empty sequence of measurements yields the empty string.
pub proof fn lemma_render_empty()
    ensures
        render_str(Seq::empty()) == Seq::<char>::empty(),
{
}

/// The rendered value depends on the recorded measurements alone: two renders
/// of the same state are identical.
pub proof fn lemma_render_deterministic(
    es: Seq<(Seq<char>, u128)>,
    r1: Seq<char>,
    r2: Seq<char>,
)
    requires
        r1 == render_str(es),
        r2 == render_str(es),
    ensures
        r1 == r2,
{
}

/// Every recorded duration is non-negative.
pub proof fn lemma_durations_nonnegative(es: Seq<(Seq<char>, u128)>)
    ensures
        forall|i: int| 0 <= i < es.len() ==> es[i].1 >= 0,
{
}

/// Sanitization rewrites each character in place: the result has the same
/// length as the label, and each position holds the original character if it
/// was alphanumeric and an underscore otherwise.
pub proof fn lemma_sanitize_pointwise(s: Seq<char>)
    ensures
        sanitize(s).len() == s.len(),
        forall|i: int|
            0 <= i < s.len() ==> sanitize(s)[i] == if alphanumeric(s[i]) {
                s[i]
            } else {
                '_'
            },
{
}

} // verus!
