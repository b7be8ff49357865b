//! Names of output files and of per-segment prefixes.
//!
//! File names are the only thing that keeps concurrently running samplers
//! from overwriting each other's frames, so the functions that build them
//! are specified exactly and proved injective.

use vstd::prelude::*;
use vstd::string::StringExecFns;

verus! {

/// The character that writes the digit `d`.
pub open spec fn digit_char(d: nat) -> char {
    if d == 0 {
        '0'
    } else if d == 1 {
        '1'
    } else if d == 2 {
        '2'
    } else if d == 3 {
        '3'
    } else if d == 4 {
        '4'
    } else if d == 5 {
        '5'
    } else if d == 6 {
        '6'
    } else if d == 7 {
        '7'
    } else if d == 8 {
        '8'
    } else {
        '9'
    }
}

/// Whether `c` is one of the ten decimal digits.
pub open spec fn is_digit(c: char) -> bool {
    c == '0' || c == '1' || c == '2' || c == '3' || c == '4' || c == '5' || c == '6' || c == '7'
        || c == '8' || c == '9'
}

/// The digit that `c` writes (only meaningful where `is_digit(c)`).
pub open spec fn digit_value(c: char) -> nat {
    if c == '0' {
        0
    } else if c == '1' {
        1
    } else if c == '2' {
        2
    } else if c == '3' {
        3
    } else if c == '4' {
        4
    } else if c == '5' {
        5
    } else if c == '6' {
        6
    } else if c == '7' {
        7
    } else if c == '8' {
        8
    } else {
        9
    }
}

/// The decimal numeral of `n`, most significant digit first, without
/// padding.
pub open spec fn decimal(n: nat) -> Seq<char>
    decreases n,
{
    if n < 10 {
        seq![digit_char(n)]
    } else {
        decimal(n / 10).push(digit_char(n % 10))
    }
}

/// The number that a digit string writes.
pub open spec fn decimal_value(s: Seq<char>) -> nat
    decreases s.len(),
{
    if s.len() == 0 {
        0
    } else {
        decimal_value(s.drop_last()) * 10 + digit_value(s.last())
    }
}

/// Whether every character of `s` is a decimal digit.
pub open spec fn all_digits(s: Seq<char>) -> bool {
    forall|i: int| 0 <= i < s.len() ==> is_digit(#[trigger] s[i])
}

/// The extension of every frame file.
pub open spec fn png_suffix() -> Seq<char> {
    seq!['.', 'p', 'n', 'g']
}

/// The text that starts every per-segment prefix.
pub open spec fn segment_stem() -> Seq<char> {
    seq!['s', 'e', 'g', 'm', 'e', 'n', 't', '-']
}

/// `<prefix>_<index>.png`: the file that holds the frame decoded at
/// position `index` by the sampler that owns `prefix`.
pub open spec fn frame_name(prefix: Seq<char>, index: nat) -> Seq<char> {
    prefix + seq!['_'] + decimal(index) + png_suffix()
}

/// `<index>.png`: the file that holds the `index`-th frame accumulated by
/// the seek sampler.
pub open spec fn numbered_name(index: nat) -> Seq<char> {
    decimal(index) + png_suffix()
}

/// `segment-<ordinal>`: the prefix of the sampler that works on the segment
/// at position `ordinal`.
pub open spec fn segment_prefix(ordinal: nat) -> Seq<char> {
    segment_stem() + decimal(ordinal)
}

/// A numeral is never empty and holds digits only.
pub proof fn lemma_decimal_digits(n: nat)
    ensures
        decimal(n).len() >= 1,
        all_digits(decimal(n)),
    decreases n,
{
    if n >= 10 {
        lemma_decimal_digits(n / 10);
    }
}

/// Reading a numeral gives back the number it was written from.
pub proof fn lemma_decimal_value(n: nat)
    ensures
        decimal_value(decimal(n)) == n,
    decreases n,
{
    if n < 10 {
        let s = decimal(n);
        assert(s.drop_last() =~= Seq::<char>::empty());
        assert(decimal_value(s.drop_last()) == 0);
    } else {
        lemma_decimal_value(n / 10);
        let s = decimal(n);
        assert(s.drop_last() =~= decimal(n / 10));
        assert(s.last() == digit_char(n % 10));
    }
}

/// Different numbers have different numerals.
pub proof fn lemma_decimal_injective(a: nat, b: nat)
    ensures
        decimal(a) == decimal(b) <==> a == b,
{
    lemma_decimal_value(a);
    lemma_decimal_value(b);
}

/// A string that ends in digits splits in one way only into a part whose
/// last character is no digit and the digits after it.
proof fn lemma_trailing_digits_split(x: Seq<char>, a: Seq<char>, y: Seq<char>, b: Seq<char>)
    requires
        all_digits(a),
        all_digits(b),
        x.len() > 0,
        y.len() > 0,
        !is_digit(x.last()),
        !is_digit(y.last()),
        x + a == y + b,
    ensures
        x == y,
        a == b,
{
    let s = x + a;
    let t = y + b;
    assert(s.len() == t.len());
    if a.len() < b.len() {
        let k = x.len() - 1;
        assert(s[k] == x.last());
        assert(t[k] == b[k - y.len()]);
        assert(is_digit(b[k - y.len()]));
        assert(false);
    }
    if b.len() < a.len() {
        let k = y.len() - 1;
        assert(t[k] == y.last());
        assert(s[k] == a[k - x.len()]);
        assert(is_digit(a[k - x.len()]));
        assert(false);
    }
    assert(x =~= s.subrange(0, x.len() as int));
    assert(y =~= t.subrange(0, y.len() as int));
    assert(a =~= s.subrange(x.len() as int, s.len() as int));
    assert(b =~= t.subrange(y.len() as int, t.len() as int));
}

/// Two frame files have the same name only if they have the same prefix and
/// the same index: no two frames of one sampler, and no two samplers with
/// different prefixes, ever write to the same file.
pub proof fn lemma_frame_name_injective(p: Seq<char>, m: nat, q: Seq<char>, n: nat)
    ensures
        frame_name(p, m) == frame_name(q, n) <==> (p == q && m == n),
{
    if frame_name(p, m) == frame_name(q, n) {
        let x = p + seq!['_'];
        let y = q + seq!['_'];
        let s = x + decimal(m);
        let t = y + decimal(n);
        let e = png_suffix();
        assert(s =~= (s + e).subrange(0, (s + e).len() - 4));
        assert(t =~= (t + e).subrange(0, (t + e).len() - 4));
        lemma_decimal_digits(m);
        lemma_decimal_digits(n);
        assert(x.last() == '_');
        assert(y.last() == '_');
        lemma_trailing_digits_split(x, decimal(m), y, decimal(n));
        lemma_decimal_injective(m, n);
        assert(p =~= x.drop_last());
        assert(q =~= y.drop_last());
    }
}

/// Two numbered files have the same name only if they have the same index.
pub proof fn lemma_numbered_name_injective(m: nat, n: nat)
    ensures
        numbered_name(m) == numbered_name(n) <==> m == n,
{
    if numbered_name(m) == numbered_name(n) {
        let s = decimal(m);
        let t = decimal(n);
        let e = png_suffix();
        assert(s =~= (s + e).subrange(0, (s + e).len() - 4));
        assert(t =~= (t + e).subrange(0, (t + e).len() - 4));
        lemma_decimal_injective(m, n);
    }
}

/// Different segments get different prefixes.
pub proof fn lemma_segment_prefix_injective(i: nat, j: nat)
    ensures
        segment_prefix(i) == segment_prefix(j) <==> i == j,
{
    if segment_prefix(i) == segment_prefix(j) {
        let h = segment_stem();
        let s = h + decimal(i);
        let t = h + decimal(j);
        assert(decimal(i) =~= s.subrange(8, s.len() as int));
        assert(decimal(j) =~= t.subrange(8, t.len() as int));
        lemma_decimal_injective(i, j);
    }
}

/// However the samplers of a segmented run interleave, a frame of segment
/// `i` and a frame of segment `j` share a file name only if they are the
/// same frame of the same segment.
pub proof fn lemma_segment_frames_never_collide(i: nat, m: nat, j: nat, n: nat)
    ensures
        frame_name(segment_prefix(i), m) == frame_name(segment_prefix(j), n) <==> (i == j && m
            == n),
{
    lemma_frame_name_injective(segment_prefix(i), m, segment_prefix(j), n);
    lemma_segment_prefix_injective(i, j);
}

/// The one-character text of the digit `d`.
fn digit_text(d: u64) -> (text: &'static str)
    requires
        d < 10,
    ensures
        text@ == seq![digit_char(d as nat)],
{
    proof {
        reveal_strlit("0");
        reveal_strlit("1");
        reveal_strlit("2");
        reveal_strlit("3");
        reveal_strlit("4");
        reveal_strlit("5");
        reveal_strlit("6");
        reveal_strlit("7");
        reveal_strlit("8");
        reveal_strlit("9");
    }
    if d == 0 {
        "0"
    } else if d == 1 {
        "1"
    } else if d == 2 {
        "2"
    } else if d == 3 {
        "3"
    } else if d == 4 {
        "4"
    } else if d == 5 {
        "5"
    } else if d == 6 {
        "6"
    } else if d == 7 {
        "7"
    } else if d == 8 {
        "8"
    } else {
        "9"
    }
}

/// Appends the decimal numeral of `n` to `out`.
pub fn append_decimal(out: &mut String, n: u64)
    ensures
        final(out)@ == old(out)@ + decimal(n as nat),
    decreases n,
{
    if n >= 10 {
        append_decimal(out, n / 10);
    }
    out.append(digit_text(n % 10));
}

/// The name of the file that holds the frame at position `index` of the
/// sampler that owns `prefix`.
pub fn frame_file_name(prefix: &str, index: u64) -> (name: String)
    ensures
        name@ == frame_name(prefix@, index as nat),
{
    proof {
        reveal_strlit("_");
        reveal_strlit(".png");
    }
    let mut name = String::from_str(prefix);
    name.append("_");
    append_decimal(&mut name, index);
    name.append(".png");
    name
}

/// The name of the file that holds the `index`-th accumulated frame.
pub fn numbered_file_name(index: u64) -> (name: String)
    ensures
        name@ == numbered_name(index as nat),
{
    proof {
        reveal_strlit(".png");
    }
    let mut name = String::new();
    append_decimal(&mut name, index);
    name.append(".png");
    name
}

/// The prefix of the sampler that works on the segment at position
/// `ordinal`.
pub fn segment_prefix_for(ordinal: u64) -> (prefix: String)
    ensures
        prefix@ == segment_prefix(ordinal as nat),
{
    proof {
        reveal_strlit("segment-");
    }
    let mut prefix = String::from_str("segment-");
    append_decimal(&mut prefix, ordinal);
    prefix
}

} // verus!
