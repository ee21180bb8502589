//! Decimal text of integers, comma-separated lists and quoted strings.
//!
//! Row ids travel through the database as text: a single id is written in
//! decimal, a list of ids as decimal numbers joined by commas. This module
//! holds the mathematical meaning of that text and the executable code that
//! produces and reads it.
use vstd::prelude::*;

verus! {

/// The character of the decimal digit `d` (`0 <= d < 10`).
pub open spec fn digit_char(d: int) -> char {
    (48 + d) as char
}

/// `c` is one of the ASCII digits `0` to `9`.
pub open spec fn is_digit(c: char) -> bool {
    '0' <= c && c <= '9'
}

/// The value of the ASCII digit `c`.
pub open spec fn digit_value(c: char) -> int {
    c as int - 48
}

/// The decimal digits of `n`, most significant first, without leading zeros
/// (zero is the single digit `0`).
pub open spec fn nat_text(n: nat) -> Seq<char>
    decreases n,
{
    if n < 10 {
        seq![digit_char(n as int)]
    } else {
        nat_text(n / 10).push(digit_char((n % 10) as int))
    }
}

/// The decimal text of the integer `i`: its digits, after a `-` when it is
/// negative.
pub open spec fn int_text(i: int) -> Seq<char> {
    if i < 0 {
        seq!['-'] + nat_text((-i) as nat)
    } else {
        nat_text(i as nat)
    }
}

/// Every character of `s` is an ASCII digit.
pub open spec fn all_digits(s: Seq<char>) -> bool {
    forall|k: int| 0 <= k < s.len() ==> is_digit(#[trigger] s[k])
}

/// The number that the digit string `s` denotes (most significant first).
pub open spec fn digits_value(s: Seq<char>) -> int
    decreases s.len(),
{
    if s.len() == 0 {
        0
    } else {
        digits_value(s.drop_last()) * 10 + digit_value(s.last())
    }
}

/// `s` starts with a sign character.
pub open spec fn has_sign(s: Seq<char>) -> bool {
    s.len() > 0 && (s[0] == '+' || s[0] == '-')
}

/// The digits of `s` after its sign, if it has one.
pub open spec fn unsigned_part(s: Seq<char>) -> Seq<char> {
    if has_sign(s) {
        s.drop_first()
    } else {
        s
    }
}

/// The integer that `s` denotes in decimal: an optional `+` or `-`, then one
/// or more ASCII digits and nothing else. `None` for any other text.
pub open spec fn int_of_text(s: Seq<char>) -> Option<int> {
    let body = unsigned_part(s);
    if body.len() > 0 && all_digits(body) {
        if has_sign(s) && s[0] == '-' {
            Some(-digits_value(body))
        } else {
            Some(digits_value(body))
        }
    } else {
        None
    }
}

/// What parsing `s` as an `i64` gives: the integer of `int_of_text`, where
/// it fits in an `i64`.
pub open spec fn i64_of_text(s: Seq<char>) -> Option<i64> {
    match int_of_text(s) {
        Some(v) => if i64::MIN <= v <= i64::MAX {
            Some(v as i64)
        } else {
            None
        },
        None => None,
    }
}

/// The pieces of `s` between its commas, in order. Text without a comma is
/// one piece; every comma starts a new piece, so empty pieces occur.
pub open spec fn comma_pieces(s: Seq<char>) -> Seq<Seq<char>>
    decreases s.len(),
{
    if s.len() == 0 {
        seq![Seq::<char>::empty()]
    } else {
        let before = comma_pieces(s.drop_last());
        if s.last() == ',' {
            before.push(Seq::<char>::empty())
        } else {
            before.update(before.len() - 1, before.last().push(s.last()))
        }
    }
}

/// The pieces joined with a comma between each two.
pub open spec fn comma_join(pieces: Seq<Seq<char>>) -> Seq<char>
    decreases pieces.len(),
{
    if pieces.len() == 0 {
        Seq::<char>::empty()
    } else if pieces.len() == 1 {
        pieces[0]
    } else {
        comma_join(pieces.drop_last()) + seq![','] + pieces.last()
    }
}

/// `s` holds no comma.
pub open spec fn comma_free(s: Seq<char>) -> bool {
    forall|k: int| 0 <= k < s.len() ==> #[trigger] s[k] != ','
}

/// The text that Rust's `Debug` formatting gives of a string: the string in
/// double quotes, with quotes, backslashes and control characters escaped.
pub uninterp spec fn debug_quoted(text: Seq<char>) -> Seq<char>;

/// The one-character string of the decimal digit `d`.
fn digit_str(d: u64) -> (r: &'static str)
    requires
        d < 10,
    ensures
        r@ == seq![digit_char(d as int)],
{
    proof {
        reveal_strlit("0");
        reveal_strlit("1");
        reveal_strlit("2");
        reveal_strlit("3");
        reveal_strlit("4");
        reveal_strlit("5");
        reveal_strlit("6");
        reveal_strlit("7");
        reveal_strlit("8");
        reveal_strlit("9");
    }
    if d == 0 {
        "0"
    } else if d == 1 {
        "1"
    } else if d == 2 {
        "2"
    } else if d == 3 {
        "3"
    } else if d == 4 {
        "4"
    } else if d == 5 {
        "5"
    } else if d == 6 {
        "6"
    } else if d == 7 {
        "7"
    } else if d == 8 {
        "8"
    } else {
        "9"
    }
}

/// Appends the decimal text of `n` to `out`.
pub fn push_u64_text(out: &mut String, n: u64)
    ensures
        final(out)@ == old(out)@ + nat_text(n as nat),
{
    // The digits below the most significant one, least significant first.
    let mut low: Vec<u64> = Vec::new();
    let mut m: u64 = n;
    let ghost mut suffix: Seq<char> = Seq::empty();
    while m >= 10
        invariant
            nat_text(n as nat) == nat_text(m as nat) + suffix,
            suffix.len() == low.len(),
            forall|k: int|
                0 <= k < low.len() ==> #[trigger] low[k] < 10 && suffix[suffix.len() - 1 - k]
                    == digit_char(low[k] as int),
        decreases m,
    {
        let d = m % 10;
        proof {
            assert(nat_text(m as nat) == nat_text((m / 10) as nat).push(digit_char(d as int)));
            let old_suffix = suffix;
            suffix = seq![digit_char(d as int)] + suffix;
            assert(nat_text(n as nat) == nat_text((m / 10) as nat) + suffix) by {
                assert(nat_text((m / 10) as nat).push(digit_char(d as int)) + old_suffix
                    =~= nat_text((m / 10) as nat) + suffix);
            }
        }
        low.push(d);
        m = m / 10;
    }
    let ghost start = out@;
    out.append(digit_str(m));
    assert(nat_text(m as nat) == seq![digit_char(m as int)]);
    let mut i: usize = low.len();
    while i > 0
        invariant
            i <= low.len(),
            suffix.len() == low.len(),
            forall|k: int|
                0 <= k < low.len() ==> #[trigger] low[k] < 10 && suffix[suffix.len() - 1 - k]
                    == digit_char(low[k] as int),
            out@ == start + nat_text(m as nat) + suffix.subrange(0, (low.len() - i) as int),
            nat_text(n as nat) == nat_text(m as nat) + suffix,
        decreases i,
    {
        i = i - 1;
        let d = low[i];
        let ghost before = out@;
        out.append(digit_str(d));
        proof {
            let j = (low.len() - 1 - i) as int;
            assert(suffix[j] == digit_char(low[i as int] as int));
            assert(suffix.subrange(0, j + 1) =~= suffix.subrange(0, j).push(suffix[j]));
            assert(out@ =~= start + nat_text(m as nat) + suffix.subrange(0, j + 1));
        }
    }
    assert(suffix.subrange(0, suffix.len() as int) =~= suffix);
    assert(out@ =~= start + nat_text(n as nat));
}

/// Appends the decimal text of `i` to `out`, as `{}` formatting writes it.
pub fn push_i64_text(out: &mut String, i: i64)
    ensures
        final(out)@ == old(out)@ + int_text(i as int),
{
    if i < 0 {
        let magnitude: u64 = (0i128 - (i as i128)) as u64;
        proof {
            reveal_strlit("-");
        }
        out.append("-");
        push_u64_text(out, magnitude);
        assert(out@ =~= old(out)@ + int_text(i as int));
    } else {
        push_u64_text(out, i as u64);
    }
}

/// The decimal text of `i`, as `{}` and `{:?}` formatting write it.
pub fn i64_text(i: i64) -> (r: String)
    ensures
        r@ == int_text(i as int),
{
    let mut out = String::new();
    push_i64_text(&mut out, i);
    assert(out@ =~= int_text(i as int));
    out
}

/// Appending one more digit to a digit string multiplies its value by ten and
/// adds the digit; no value goes down.
proof fn lemma_digits_value_push(s: Seq<char>, c: char)
    requires
        is_digit(c),
    ensures
        digits_value(s.push(c)) == digits_value(s) * 10 + digit_value(c),
        digits_value(s) >= 0 ==> digits_value(s.push(c)) >= digits_value(s),
{
    assert(s.push(c).drop_last() =~= s);
}

/// Parses `s` as a decimal `i64` the way `str::parse::<i64>` does: an optional
/// sign, then one or more ASCII digits, in range.
pub fn parse_i64(s: &str) -> (r: Option<i64>)
    ensures
        r == i64_of_text(s@),
{
    let len = s.unicode_len();
    if len == 0 {
        return None;
    }
    let first = s.get_char(0);
    let negative = first == '-';
    let start: usize = if first == '+' || first == '-' { 1 } else { 0 };
    assert(has_sign(s@) <==> start == 1);
    assert(negative == (has_sign(s@) && s@[0] == '-'));
    let ghost body = unsigned_part(s@);
    assert(body =~= s@.subrange(start as int, len as int));
    if start == len {
        return None;
    }
    // The largest magnitude allowed for the sign at hand.
    let limit: u64 = if negative { 0x8000_0000_0000_0000u64 } else { 0x7fff_ffff_ffff_ffffu64 };
    let mut acc: u64 = 0;
    let mut too_big = false;
    let mut i: usize = start;
    while i < len
        invariant
            start <= i <= len,
            len == s@.len(),
            body =~= s@.subrange(start as int, len as int),
            body == unsigned_part(s@),
            negative == (has_sign(s@) && s@[0] == '-'),
            limit == (if negative { 0x8000_0000_0000_0000u64 } else { 0x7fff_ffff_ffff_ffffu64 }),
            all_digits(body.subrange(0, (i - start) as int)),
            digits_value(body.subrange(0, (i - start) as int)) >= 0,
            !too_big ==> acc as int == digits_value(body.subrange(0, (i - start) as int)),
            !too_big ==> acc <= limit,
            too_big ==> digits_value(body.subrange(0, (i - start) as int)) > limit,
        decreases len - i,
    {
        let c = s.get_char(i);
        if !('0' <= c && c <= '9') {
            assert(body[(i - start) as int] == c);
            assert(!all_digits(body));
            assert(unsigned_part(s@) == body);
            assert(int_of_text(s@) is None);
            return None;
        }
        let ghost prefix = body.subrange(0, (i - start) as int);
        assert(body.subrange(0, (i + 1 - start) as int) =~= prefix.push(c));
        proof {
            lemma_digits_value_push(prefix, c);
        }
        let d: u64 = (c as u32 - 48) as u64;
        if !too_big {
            let next: u128 = (acc as u128) * 10 + (d as u128);
            if next > limit as u128 {
                too_big = true;
            } else {
                acc = next as u64;
            }
        }
        i = i + 1;
    }
    assert(body.subrange(0, (len - start) as int) =~= body);
    if too_big {
        None
    } else if negative {
        if acc == 0x8000_0000_0000_0000u64 {
            Some(i64::MIN)
        } else {
            Some(0i64 - (acc as i64))
        }
    } else {
        Some(acc as i64)
    }
}

/// The digit text of a natural number is a nonempty string of digits that
/// denotes the number.
proof fn lemma_nat_text(n: nat)
    ensures
        nat_text(n).len() > 0,
        all_digits(nat_text(n)),
        digits_value(nat_text(n)) == n,
    decreases n,
{
    let d = if n < 10 { n as int } else { (n % 10) as int };
    assert(digit_char(d) as int == 48 + d);
    if n >= 10 {
        lemma_nat_text(n / 10);
        let s = nat_text(n / 10);
        assert(nat_text(n).drop_last() =~= s);
        assert(nat_text(n).last() == digit_char(d));
        assert(digit_value(digit_char(d)) == d);
        assert(n == (n / 10) * 10 + n % 10);
        assert forall|k: int| 0 <= k < nat_text(n).len() implies is_digit(
            #[trigger] nat_text(n)[k],
        ) by {
            if k < s.len() {
                assert(nat_text(n)[k] == s[k]);
            }
        }
    } else {
        assert(nat_text(n).drop_last() =~= Seq::<char>::empty());
        assert(digits_value(Seq::<char>::empty()) == 0);
        assert(digit_value(digit_char(d)) == d);
    }
}

/// The digit text of a positive number does not start with `0`, and it ends
/// with the number's units digit.
proof fn lemma_nat_text_ends(n: nat)
    ensures
        n > 0 ==> nat_text(n)[0] != '0',
        nat_text(n).last() == digit_char((n % 10) as int),
    decreases n,
{
    if n >= 10 {
        lemma_nat_text_ends(n / 10);
        lemma_nat_text(n / 10);
        assert(nat_text(n)[0] == nat_text(n / 10)[0]);
    } else {
        assert(digit_char(n as int) as int == 48 + n);
    }
}

/// The decimal text of an integer, as `{}` and `{:?}` write it: a `-` first
/// exactly when the integer is negative, then its digits in base ten, most
/// significant first, without a leading `0` (zero is `0`); the last
/// character is the units digit. Two integers have the same text only when
/// they are the same integer.
pub proof fn law_int_text_is_decimal(i: int, j: int)
    ensures
        digit_char(0) == '0',
        digit_char(9) == '9',
        int_text(i).len() > 0,
        int_text(i)[0] == '-' <==> i < 0,
        int_of_text(int_text(i)) == Some(i),
        i < 0 ==> int_text(i).last() == digit_char((-i) % 10),
        i >= 0 ==> int_text(i).last() == digit_char(i % 10),
        i > 0 ==> int_text(i)[0] != '0',
        i < 0 ==> int_text(i)[1] != '0',
        int_text(i) == int_text(j) <==> i == j,
{
    let m = if i < 0 {
        (-i) as nat
    } else {
        i as nat
    };
    lemma_nat_text(m);
    lemma_nat_text_ends(m);
    let t = int_text(i);
    if i < 0 {
        assert(t[0] == '-');
        assert(t.drop_first() =~= nat_text(m));
        assert(has_sign(t));
        assert(unsigned_part(t) =~= nat_text(m));
        assert(t.last() == nat_text(m).last());
        assert(t[1] == nat_text(m)[0]);
    } else {
        assert(is_digit(t[0]));
        assert(!has_sign(t));
    }
    let n = if j < 0 {
        (-j) as nat
    } else {
        j as nat
    };
    lemma_nat_text(n);
    let u = int_text(j);
    if j < 0 {
        assert(has_sign(u));
        assert(unsigned_part(u) =~= nat_text(n));
    } else {
        assert(is_digit(u[0]));
        assert(!has_sign(u));
    }
}

/// The decimal text of an integer holds no comma, and reading it as an `i64`
/// gives the integer back.
pub proof fn lemma_int_text_reads_back(i: i64)
    ensures
        i64_of_text(int_text(i as int)) == Some(i),
        comma_free(int_text(i as int)),
        int_text(i as int).len() > 0,
{
    if i < 0 {
        let m = (-i) as nat;
        lemma_nat_text(m);
        let t = int_text(i as int);
        assert(has_sign(t));
        assert(unsigned_part(t) =~= nat_text(m));
        assert forall|k: int| 0 <= k < t.len() implies #[trigger] t[k] != ',' by {
            if k > 0 {
                assert(t[k] == nat_text(m)[k - 1]);
                assert(is_digit(nat_text(m)[k - 1]));
            }
        }
    } else {
        let m = i as nat;
        lemma_nat_text(m);
        let t = int_text(i as int);
        assert(is_digit(t[0]));
        assert(!has_sign(t));
        assert forall|k: int| 0 <= k < t.len() implies #[trigger] t[k] != ',' by {
            assert(is_digit(t[k]));
        }
    }
}

/// Every text splits into at least one piece.
proof fn lemma_comma_pieces_nonempty(s: Seq<char>)
    ensures
        comma_pieces(s).len() > 0,
    decreases s.len(),
{
    if s.len() > 0 {
        lemma_comma_pieces_nonempty(s.drop_last());
    }
}

/// Text without commas that follows `s` extends the last piece of `s`.
proof fn lemma_comma_pieces_extend(s: Seq<char>, t: Seq<char>)
    requires
        comma_free(t),
    ensures
        comma_pieces(s + t) == comma_pieces(s).update(
            comma_pieces(s).len() - 1,
            comma_pieces(s).last() + t,
        ),
    decreases t.len(),
{
    lemma_comma_pieces_nonempty(s);
    let p = comma_pieces(s);
    if t.len() == 0 {
        assert(s + t =~= s);
        assert(p.last() + t =~= p.last());
        assert(p.update(p.len() - 1, p.last()) =~= p);
    } else {
        let u = t.drop_last();
        assert(comma_free(u)) by {
            assert forall|k: int| 0 <= k < u.len() implies #[trigger] u[k] != ',' by {
                assert(u[k] == t[k]);
            }
        }
        lemma_comma_pieces_extend(s, u);
        assert((s + t).drop_last() =~= s + u);
        assert((s + t).last() == t.last());
        assert(t.last() != ',');
        let q = comma_pieces(s + u);
        assert(q.last() == p.last() + u);
        assert((p.last() + u).push(t.last()) =~= p.last() + t);
        assert(comma_pieces(s + t) =~= p.update(p.len() - 1, p.last() + t));
    }
}

/// Joining comma-free pieces with commas and splitting the result again
/// gives the pieces back.
pub proof fn lemma_comma_pieces_of_join(pieces: Seq<Seq<char>>)
    requires
        pieces.len() > 0,
        forall|k: int| 0 <= k < pieces.len() ==> comma_free(#[trigger] pieces[k]),
    ensures
        comma_pieces(comma_join(pieces)) == pieces,
    decreases pieces.len(),
{
    if pieces.len() == 1 {
        lemma_comma_pieces_extend(Seq::<char>::empty(), pieces[0]);
        assert(Seq::<char>::empty() + pieces[0] =~= pieces[0]);
        assert(comma_pieces(Seq::<char>::empty()).last() + pieces[0] =~= pieces[0]);
        assert(comma_pieces(comma_join(pieces)) =~= pieces);
    } else {
        let init = pieces.drop_last();
        assert forall|k: int| 0 <= k < init.len() implies comma_free(#[trigger] init[k]) by {
            assert(init[k] == pieces[k]);
        }
        lemma_comma_pieces_of_join(init);
        let head = comma_join(init) + seq![','];
        assert(head.drop_last() =~= comma_join(init));
        assert(comma_pieces(head) == init.push(Seq::<char>::empty()));
        lemma_comma_pieces_extend(head, pieces.last());
        assert(comma_join(pieces) =~= head + pieces.last());
        assert(Seq::<char>::empty() + pieces.last() =~= pieces.last());
        assert(comma_pieces(comma_join(pieces)) =~= pieces);
    }
}

/// Formats `s` as Rust's `Debug` formatting does, in double quotes with
/// escapes.
#[verifier::external_body]
pub fn debug_text_of_str(s: &str) -> (r: String)
    ensures
        r@ == debug_quoted(s@),
{
    format!("{:?}", s)
}

} // verus!
