//! Helpers over strings, stated over their character sequences.

use vstd::prelude::*;
use vstd::string::{StrSliceExecFns, StringExecFns};

verus! {

/// Whether a character counts as white space.
pub uninterp spec fn whitespace(c: char) -> bool;

/// `char::is_whitespace`: the result is a fixed property of the character
/// (Unicode's White_Space), named `whitespace` here.
pub assume_specification[ char::is_whitespace ](c: char) -> (b: bool)
    ensures
        b == whitespace(c),
;

/// `String::push`: appends one character at the end of the string.
pub assume_specification[ String::push ](s: &mut String, c: char)
    ensures
        final(s)@ == old(s)@.push(c),
;

/// The upper-case form of a text.
pub uninterp spec fn uppercased(s: Seq<char>) -> Seq<char>;

/// `str::to_uppercase`: the upper-case equivalent of the text, which
/// depends on its characters alone; named `uppercased` here.
#[verifier::external_body]
pub(crate) fn to_upper(s: &str) -> (r: String)
    ensures
        r@ == uppercased(s@),
{
    s.to_uppercase()
}

/// Whether two strings hold the same characters.
pub fn same_text(a: &str, b: &str) -> (r: bool)
    ensures
        r == (a@ == b@),
{
    let x: String = String::from_str(a);
    let y: String = String::from_str(b);
    x == y
}

/// The characters of a string.
pub fn to_chars(s: &str) -> (v: Vec<char>)
    ensures
        v@ == s@,
{
    let mut v: Vec<char> = Vec::new();
    let mut it = s.chars();
    for c in iter: it
        invariant
            iter.seq() == s@,
            v@ == s@.take(iter.index() as int),
    {
        v.push(c);
        assert(v@ =~= s@.take(iter.index() + 1));
    }
    assert(s@.take(s@.len() as int) =~= s@);
    v
}

/// The string made of the characters `chars[from..to]`.
pub fn from_chars(chars: &Vec<char>, from: usize, to: usize) -> (s: String)
    requires
        from <= to <= chars@.len(),
    ensures
        s@ == chars@.subrange(from as int, to as int),
{
    let mut s: String = String::new();
    let mut i: usize = from;
    while i < to
        invariant
            from <= i <= to <= chars@.len(),
            s@ == chars@.subrange(from as int, i as int),
        decreases to - i,
    {
        s.push(chars[i]);
        assert(s@ =~= chars@.subrange(from as int, i as int + 1));
        i += 1;
    }
    s
}

/// `s` without its leading white space.
pub open spec fn trim_start_spec(s: Seq<char>) -> Seq<char>
    decreases s.len(),
{
    if s.len() > 0 && whitespace(s.first()) {
        trim_start_spec(s.drop_first())
    } else {
        s
    }
}

/// `s` without its trailing white space.
pub open spec fn trim_end_spec(s: Seq<char>) -> Seq<char>
    decreases s.len(),
{
    if s.len() > 0 && whitespace(s.last()) {
        trim_end_spec(s.drop_last())
    } else {
        s
    }
}

/// `s` without leading and trailing white space.
pub open spec fn trim_spec(s: Seq<char>) -> Seq<char> {
    trim_end_spec(trim_start_spec(s))
}

/// Dropping `a` leading white-space characters, where the next one is not
/// white space, is trimming the start.
proof fn lemma_trim_start(s: Seq<char>, a: int)
    requires
        0 <= a <= s.len(),
        forall|i: int| 0 <= i < a ==> whitespace(#[trigger] s[i]),
        a < s.len() ==> !whitespace(s[a]),
    ensures
        trim_start_spec(s) == s.subrange(a, s.len() as int),
    decreases a,
{
    if a == 0 {
        assert(s.subrange(0, s.len() as int) =~= s);
    } else {
        let t = s.drop_first();
        assert forall|i: int| 0 <= i < a - 1 implies whitespace(#[trigger] t[i]) by {
            assert(t[i] == s[i + 1]);
        }
        lemma_trim_start(t, a - 1);
        assert(t.subrange(a - 1, t.len() as int) =~= s.subrange(a, s.len() as int));
    }
}

/// Dropping the trailing white-space characters from `b` on, where the one
/// before `b` is not white space, is trimming the end.
proof fn lemma_trim_end(s: Seq<char>, b: int)
    requires
        0 <= b <= s.len(),
        forall|i: int| b <= i < s.len() ==> whitespace(#[trigger] s[i]),
        b > 0 ==> !whitespace(s[b - 1]),
    ensures
        trim_end_spec(s) == s.subrange(0, b),
    decreases s.len() - b,
{
    if b == s.len() {
        assert(s.subrange(0, s.len() as int) =~= s);
    } else {
        let t = s.drop_last();
        assert forall|i: int| b <= i < t.len() implies whitespace(#[trigger] t[i]) by {
            assert(t[i] == s[i]);
        }
        lemma_trim_end(t, b);
        assert(t.subrange(0, b) =~= s.subrange(0, b));
    }
}

/// The text of `chars` without leading and trailing white space.
pub fn trim_chars(chars: &Vec<char>) -> (s: String)
    ensures
        s@ == trim_spec(chars@),
{
    let n: usize = chars.len();
    let mut a: usize = 0;
    while a < n && chars[a].is_whitespace()
        invariant
            n == chars@.len(),
            0 <= a <= n,
            forall|i: int| 0 <= i < a ==> whitespace(#[trigger] chars@[i]),
        decreases n - a,
    {
        a += 1;
    }
    let mut b: usize = n;
    while b > a && chars[b - 1].is_whitespace()
        invariant
            n == chars@.len(),
            a <= b <= n,
            forall|i: int| b <= i < n ==> whitespace(#[trigger] chars@[i]),
        decreases b,
    {
        b -= 1;
    }
    proof {
        let s = chars@;
        lemma_trim_start(s, a as int);
        let t = s.subrange(a as int, n as int);
        assert forall|i: int| b - a <= i < t.len() implies whitespace(#[trigger] t[i]) by {
            assert(t[i] == s[i + a]);
        }
        if b - a > 0 {
            assert(t[b - a - 1] == s[b - 1]);
        }
        lemma_trim_end(t, b - a);
        assert(t.subrange(0, b - a) =~= s.subrange(a as int, b as int));
    }
    from_chars(chars, a, b)
}

/// `pat` occurs in `s` as a contiguous run of characters.
pub open spec fn has_substring(s: Seq<char>, pat: Seq<char>) -> bool {
    exists|i: int| 0 <= i <= s.len() - pat.len() && #[trigger] s.subrange(i, i + pat.len()) == pat
}

/// Whether `pat` occurs at position `i` of `s`.
fn occurs_at(s: &Vec<char>, pat: &Vec<char>, i: usize) -> (r: bool)
    requires
        i + pat@.len() <= s@.len(),
    ensures
        r == (s@.subrange(i as int, i + pat@.len()) == pat@),
{
    let n: usize = s.len();
    let mut k: usize = 0;
    while k < pat.len()
        invariant
            0 <= k <= pat@.len(),
            n == s@.len(),
            i + pat@.len() <= s@.len(),
            forall|j: int| 0 <= j < k ==> s@[i + j] == pat@[j],
        decreases pat@.len() - k,
    {
        if s[i + k] != pat[k] {
            assert(s@.subrange(i as int, i + pat@.len())[k as int] == s@[i + k]);
            return false;
        }
        k += 1;
    }
    assert(s@.subrange(i as int, i + pat@.len()) =~= pat@);
    true
}

/// Whether the text `s` contains the text `pat`.
pub fn contains_text(s: &str, pat: &str) -> (r: bool)
    ensures
        r == has_substring(s@, pat@),
{
    let sv: Vec<char> = to_chars(s);
    let pv: Vec<char> = to_chars(pat);
    if pv.len() > sv.len() {
        return false;
    }
    let last: usize = sv.len() - pv.len();
    let mut i: usize = 0;
    while i < last
        invariant
            last == sv@.len() - pv@.len(),
            0 <= i <= last,
            sv@ == s@,
            pv@ == pat@,
            forall|j: int| 0 <= j < i ==> #[trigger] sv@.subrange(j, j + pv@.len()) != pv@,
        decreases last - i,
    {
        if occurs_at(&sv, &pv, i) {
            return true;
        }
        i += 1;
    }
    occurs_at(&sv, &pv, last)
}

/// The character of a decimal digit.
pub open spec fn digit_char(d: int) -> char {
    if d == 0 {
        '0'
    } else if d == 1 {
        '1'
    } else if d == 2 {
        '2'
    } else if d == 3 {
        '3'
    } else if d == 4 {
        '4'
    } else if d == 5 {
        '5'
    } else if d == 6 {
        '6'
    } else if d == 7 {
        '7'
    } else if d == 8 {
        '8'
    } else {
        '9'
    }
}

/// The decimal numeral of a natural number, without leading zeros.
pub open spec fn decimal_spec(n: nat) -> Seq<char>
    decreases n,
{
    if n < 10 {
        seq![digit_char(n as int)]
    } else {
        decimal_spec(n / 10).push(digit_char((n % 10) as int))
    }
}

/// The character of the digit `d`.
fn digit(d: u128) -> (c: char)
    requires
        d < 10,
    ensures
        c == digit_char(d as int),
{
    if d == 0 {
        '0'
    } else if d == 1 {
        '1'
    } else if d == 2 {
        '2'
    } else if d == 3 {
        '3'
    } else if d == 4 {
        '4'
    } else if d == 5 {
        '5'
    } else if d == 6 {
        '6'
    } else if d == 7 {
        '7'
    } else if d == 8 {
        '8'
    } else {
        '9'
    }
}

/// Writes a number in decimal.
pub fn decimal_text(n: u128) -> (s: String)
    ensures
        s@ == decimal_spec(n as nat),
    decreases n,
{
    if n < 10 {
        let mut s: String = String::new();
        s.push(digit(n));
        assert(s@ =~= seq![digit_char(n as int)]);
        s
    } else {
        let mut s: String = decimal_text(n / 10);
        s.push(digit(n % 10));
        s
    }
}

/// The texts from position `from` on, joined by commas.
pub open spec fn join_spec(items: Seq<Seq<char>>, from: int) -> Seq<char>
    decreases items.len() - from,
{
    if from >= items.len() {
        Seq::empty()
    } else if from == items.len() - 1 {
        items[from]
    } else {
        items[from] + seq![','] + join_spec(items, from + 1)
    }
}

/// The texts of `items[from..upto]`, each followed by a comma but the last
/// of all items.
pub open spec fn join_prefix(items: Seq<Seq<char>>, from: int, upto: int) -> Seq<char>
    decreases upto - from,
{
    if upto <= from {
        Seq::empty()
    } else if upto == items.len() {
        join_prefix(items, from, upto - 1) + items[upto - 1]
    } else {
        join_prefix(items, from, upto - 1) + items[upto - 1] + seq![',']
    }
}

/// Joining from `from` is the part up to `upto` followed by the join from `upto`.
proof fn lemma_join_split(items: Seq<Seq<char>>, from: int, upto: int)
    requires
        0 <= from <= upto <= items.len(),
    ensures
        join_spec(items, from) == join_prefix(items, from, upto) + join_spec(items, upto),
    decreases upto - from,
{
    if upto == from {
        assert(join_prefix(items, from, upto) + join_spec(items, upto) =~= join_spec(items, from));
    } else {
        lemma_join_split(items, from, upto - 1);
        if upto == items.len() {
            assert(join_spec(items, upto) =~= Seq::<char>::empty());
            assert(join_spec(items, upto - 1) == items[upto - 1]);
            assert(join_prefix(items, from, upto - 1) + items[upto - 1] + Seq::<char>::empty()
                =~= join_prefix(items, from, upto - 1) + items[upto - 1]);
        } else {
            assert(join_spec(items, upto - 1) == items[upto - 1] + seq![','] + join_spec(
                items,
                upto,
            ));
            assert(join_prefix(items, from, upto - 1) + (items[upto - 1] + seq![','] + join_spec(
                items,
                upto,
            )) =~= (join_prefix(items, from, upto - 1) + items[upto - 1] + seq![',']) + join_spec(
                items,
                upto,
            ));
        }
    }
}

/// Joins the strings from position `from` on with commas.
pub fn join_from(items: &Vec<String>, from: usize) -> (s: String)
    ensures
        s@ == join_spec(Seq::new(items@.len(), |i: int| items@[i]@), from as int),
{
    let ghost texts = Seq::new(items@.len(), |i: int| items@[i]@);
    let mut s: String = String::new();
    if from >= items.len() {
        return s;
    }
    let mut i: usize = from;
    assert(s@ =~= join_prefix(texts, from as int, from as int));
    while i < items.len()
        invariant
            from <= i <= items@.len(),
            texts == Seq::new(items@.len(), |i: int| items@[i]@),
            s@ == join_prefix(texts, from as int, i as int),
        decreases items@.len() - i,
    {
        s.append(items[i].as_str());
        if i + 1 < items.len() {
            s.push(',');
        }
        assert(texts[i as int] == items@[i as int]@);
        i += 1;
    }
    proof {
        lemma_join_split(texts, from as int, items@.len() as int);
        assert(join_spec(texts, items@.len() as int) =~= Seq::<char>::empty());
        assert(s@ + Seq::<char>::empty() =~= s@);
    }
    s
}

/// The text is empty or white space only.
pub open spec fn is_blank_spec(s: Seq<char>) -> bool {
    trim_spec(s).len() == 0
}

/// Whether a line holds nothing but white space.
pub fn is_blank_line(line: &str) -> (b: bool)
    ensures
        b == is_blank_spec(line@),
{
    let t: String = trim_chars(&to_chars(line));
    t.as_str().unicode_len() == 0
}

/// Ten to the power `k`.
pub open spec fn pow10(k: nat) -> nat
    decreases k,
{
    if k == 0 {
        1
    } else {
        10 * pow10((k - 1) as nat)
    }
}

/// The magnitude of an integer.
pub open spec fn magnitude(x: int) -> nat {
    if x < 0 {
        (-x) as nat
    } else {
        x as nat
    }
}

/// `n / d` rounded to the nearest integer, ties going to the even one.
pub open spec fn round_half_even(n: nat, d: nat) -> nat {
    let q = n / d;
    let r = n % d;
    if 2 * r < d {
        q
    } else if 2 * r > d {
        q + 1
    } else if q % 2 == 0 {
        q
    } else {
        q + 1
    }
}

/// The last `width` decimal digits of `n`, with leading zeros.
pub open spec fn padded_digits(n: nat, width: nat) -> Seq<char>
    decreases width,
{
    if width == 0 {
        Seq::empty()
    } else {
        padded_digits(n / 10, (width - 1) as nat).push(digit_char((n % 10) as int))
    }
}

/// A scaled value written as a decimal with `places` digits after the
/// point (none, and no point, for 0 places): rounded half to even, with a
/// minus sign for every negative value.
pub open spec fn fixed_text(x: int, places: nat) -> Seq<char> {
    let q = round_half_even(magnitude(x), pow10((6 - places) as nat));
    let sign = if x < 0 {
        seq!['-']
    } else {
        Seq::<char>::empty()
    };
    let whole = decimal_spec(q / pow10(places));
    if places == 0 {
        sign + whole
    } else {
        sign + whole + seq!['.'] + padded_digits(q % pow10(places), places)
    }
}

/// Computes a power of ten.
fn power_of_ten(k: usize) -> (p: u128)
    requires
        k <= 6,
    ensures
        p == pow10(k as nat),
        1 <= p <= 1_000_000,
{
    reveal_with_fuel(pow10, 8);
    if k == 0 {
        1
    } else if k == 1 {
        10
    } else if k == 2 {
        100
    } else if k == 3 {
        1_000
    } else if k == 4 {
        10_000
    } else if k == 5 {
        100_000
    } else {
        1_000_000
    }
}

/// Appends the last `width` decimal digits of `n`, with leading zeros.
fn push_padded(s: &mut String, n: u128, width: usize)
    ensures
        final(s)@ == old(s)@ + padded_digits(n as nat, width as nat),
    decreases width,
{
    if width == 0 {
        assert(s@ + Seq::<char>::empty() =~= s@);
    } else {
        push_padded(s, n / 10, width - 1);
        s.push(digit(n % 10));
        assert(old(s)@ + padded_digits((n / 10) as nat, (width - 1) as nat).push(
            digit_char((n % 10) as int),
        ) =~= (old(s)@ + padded_digits((n / 10) as nat, (width - 1) as nat)).push(
            digit_char((n % 10) as int),
        ));
    }
}

/// Writes a scaled value as a decimal with `places` digits after the point.
pub fn render_fixed(x: i128, places: usize) -> (s: String)
    requires
        places <= 6,
    ensures
        s@ == fixed_text(x as int, places as nat),
{
    let mag: u128 = if x < 0 {
        ((-(x + 1)) as u128) + 1
    } else {
        x as u128
    };
    let d: u128 = power_of_ten(6 - places);
    let q0: u128 = mag / d;
    let r: u128 = mag % d;
    let q: u128 = if 2 * r < d {
        q0
    } else if 2 * r > d {
        q0 + 1
    } else if q0 % 2 == 0 {
        q0
    } else {
        q0 + 1
    };
    let unit: u128 = power_of_ten(places);
    let mut s: String = String::new();
    if x < 0 {
        s.push('-');
    }
    let ghost sign = s@;
    s.append(decimal_text(q / unit).as_str());
    if places > 0 {
        s.push('.');
        push_padded(&mut s, q % unit, places);
    }
    proof {
        assert(sign =~= if x < 0 {
            seq!['-']
        } else {
            Seq::<char>::empty()
        });
        if places > 0 {
            assert(s@ =~= sign + decimal_spec((q / unit) as nat) + seq!['.'] + padded_digits(
                (q % unit) as nat,
                places as nat,
            ));
        }
    }
    s
}

/// The text with every double quote replaced by a single quote.
pub open spec fn single_quoted(s: Seq<char>) -> Seq<char> {
    Seq::new(
        s.len(),
        |i: int|
            if s[i] == '"' {
                '\''
            } else {
                s[i]
            },
    )
}

/// Replaces every double quote of a text by a single quote.
pub fn replace_double_quotes(text: &str) -> (s: String)
    ensures
        s@ == single_quoted(text@),
{
    let chars: Vec<char> = to_chars(text);
    let mut s: String = String::new();
    let mut i: usize = 0;
    while i < chars.len()
        invariant
            0 <= i <= chars@.len(),
            chars@ == text@,
            s@ == single_quoted(text@).take(i as int),
        decreases chars@.len() - i,
    {
        let c: char = chars[i];
        if c == '"' {
            s.push('\'');
        } else {
            s.push(c);
        }
        assert(s@ =~= single_quoted(text@).take(i as int + 1));
        i += 1;
    }
    assert(single_quoted(text@).take(chars@.len() as int) =~= single_quoted(text@));
    s
}

} // verus!
