//! Character-level text utilities shared by the formatting and romanization
//! modules: decimal rendering, newline counting, and line splitting/joining.

use vstd::prelude::*;

verus! {

/// Relies on String::push: appends exactly one character at the end.
#[verifier::external_body]
pub(crate) fn push_char(s: &mut String, c: char)
    ensures
        final(s)@ == old(s)@.push(c),
{
    s.push(c);
}

/// The character for one decimal digit.
pub open spec fn digit_char(d: nat) -> char {
    if d == 0 {
        '0'
    } else if d == 1 {
        '1'
    } else if d == 2 {
        '2'
    } else if d == 3 {
        '3'
    } else if d == 4 {
        '4'
    } else if d == 5 {
        '5'
    } else if d == 6 {
        '6'
    } else if d == 7 {
        '7'
    } else if d == 8 {
        '8'
    } else {
        '9'
    }
}

/// The decimal rendering of a number, most significant digit first,
/// with no leading zeros (zero itself is the single digit `0`).
pub open spec fn dec_rep(n: nat) -> Seq<char>
    decreases n,
{
    if n < 10 {
        seq![digit_char(n)]
    } else {
        dec_rep(n / 10).push(digit_char(n % 10))
    }
}

/// A run of `k` zero characters.
pub open spec fn zeros(k: nat) -> Seq<char>
    decreases k,
{
    if k == 0 {
        Seq::<char>::empty()
    } else {
        zeros((k - 1) as nat).push('0')
    }
}

/// The decimal rendering padded with leading zeros to at least `width` characters.
pub open spec fn dec_rep_padded(n: nat, width: nat) -> Seq<char> {
    if dec_rep(n).len() >= width {
        dec_rep(n)
    } else {
        zeros((width - dec_rep(n).len()) as nat) + dec_rep(n)
    }
}

proof fn lemma_zeros_len(k: nat)
    ensures
        zeros(k).len() == k,
    decreases k,
{
    if k > 0 {
        lemma_zeros_len((k - 1) as nat);
    }
}

/// A padded rendering is exactly `width` characters whenever the plain
/// rendering is no longer than that.
pub proof fn lemma_dec_rep_padded_len(n: nat, width: nat)
    ensures
        dec_rep_padded(n, width).len() == if dec_rep(n).len() >= width {
            dec_rep(n).len()
        } else {
            width
        },
{
    if dec_rep(n).len() < width {
        lemma_zeros_len((width - dec_rep(n).len()) as nat);
    }
}

pub proof fn lemma_dec_rep_len(n: nat)
    ensures
        dec_rep(n).len() >= 1,
        n < 10 ==> dec_rep(n).len() == 1,
        n < 100 ==> dec_rep(n).len() <= 2,
    decreases n,
{
    if n >= 10 {
        lemma_dec_rep_len(n / 10);
    }
}

/// The leading digit of a positive number is never zero.
pub proof fn lemma_dec_rep_no_leading_zero(n: nat)
    ensures
        n > 0 ==> dec_rep(n).first() != '0',
    decreases n,
{
    if n >= 10 {
        lemma_dec_rep_no_leading_zero(n / 10);
        assert(dec_rep(n).first() == dec_rep(n / 10).first());
    }
}

fn digit_to_char(d: u64) -> (c: char)
    requires
        d < 10,
    ensures
        c == digit_char(d as nat),
{
    if d == 0 {
        '0'
    } else if d == 1 {
        '1'
    } else if d == 2 {
        '2'
    } else if d == 3 {
        '3'
    } else if d == 4 {
        '4'
    } else if d == 5 {
        '5'
    } else if d == 6 {
        '6'
    } else if d == 7 {
        '7'
    } else if d == 8 {
        '8'
    } else {
        '9'
    }
}

/// Appends the decimal rendering of `n` to `s`.
pub fn push_decimal(s: &mut String, n: u64)
    ensures
        final(s)@ == old(s)@ + dec_rep(n as nat),
    decreases n,
{
    if n < 10 {
        push_char(s, digit_to_char(n));
        assert(final(s)@ =~= old(s)@ + dec_rep(n as nat));
    } else {
        push_decimal(s, n / 10);
        push_char(s, digit_to_char(n % 10));
        assert(final(s)@ =~= old(s)@ + dec_rep(n as nat));
    }
}

/// The number of decimal digits of `n`.
fn decimal_len(n: u64) -> (len: u64)
    ensures
        len == dec_rep(n as nat).len(),
    decreases n,
{
    proof {
        lemma_dec_rep_len(n as nat);
    }
    if n < 10 {
        1
    } else {
        let rest = decimal_len(n / 10);
        proof {
            lemma_dec_rep_len_le((n / 10) as nat);
        }
        rest + 1
    }
}

/// A coarse bound on the digit count, enough to rule out overflow.
proof fn lemma_dec_rep_len_le(n: nat)
    ensures
        dec_rep(n).len() <= n + 1,
    decreases n,
{
    if n >= 10 {
        lemma_dec_rep_len_le(n / 10);
    }
}

/// Appends the decimal rendering of `n`, padded with leading zeros to at
/// least `width` characters.
pub fn push_decimal_padded(s: &mut String, n: u64, width: u64)
    requires
        width <= 100,
    ensures
        final(s)@ == old(s)@ + dec_rep_padded(n as nat, width as nat),
{
    let digits = decimal_len(n);
    let ghost start = s@;
    if digits < width {
        let goal = width - digits;
        let mut pad: u64 = 0;
        assert(s@ =~= start + zeros(0nat));
        while pad < goal
            invariant
                s@ == start + zeros(pad as nat),
                pad <= goal,
            decreases goal - pad,
        {
            push_char(s, '0');
            pad = pad + 1;
            assert(s@ =~= start + zeros(pad as nat));
        }
        push_decimal(s, n);
        assert(s@ =~= start + dec_rep_padded(n as nat, width as nat));
    } else {
        push_decimal(s, n);
        assert(s@ =~= start + dec_rep_padded(n as nat, width as nat));
    }
}

/// How many times `c` occurs in `s`.
pub open spec fn count_char(s: Seq<char>, c: char) -> nat
    decreases s.len(),
{
    if s.len() == 0 {
        0
    } else {
        count_char(s.drop_last(), c) + if s.last() == c {
            1nat
        } else {
            0nat
        }
    }
}

pub proof fn lemma_count_char_add(a: Seq<char>, b: Seq<char>, c: char)
    ensures
        count_char(a + b, c) == count_char(a, c) + count_char(b, c),
    decreases b.len(),
{
    if b.len() == 0 {
        assert(a + b =~= a);
    } else {
        lemma_count_char_add(a, b.drop_last(), c);
        assert((a + b).drop_last() =~= a + b.drop_last());
        assert((a + b).last() == b.last());
    }
}

/// Counting from the front; the form loop invariants want.
proof fn lemma_count_char_first(s: Seq<char>, c: char)
    requires
        s.len() > 0,
    ensures
        count_char(s, c) == count_char(s.drop_first(), c) + if s.first() == c {
            1nat
        } else {
            0nat
        },
    decreases s.len(),
{
    if s.len() == 1 {
        assert(s.drop_last() =~= Seq::<char>::empty());
        assert(s.drop_first() =~= Seq::<char>::empty());
    } else {
        lemma_count_char_first(s.drop_last(), c);
        assert(s.drop_last().drop_first() =~= s.drop_first().drop_last());
        assert(s.drop_last().first() == s.first());
        assert(s.drop_first().last() == s.last());
    }
}

/// Counts how many times `c` occurs in `s`.
pub fn count_char_in(s: &str, c: char) -> (n: usize)
    ensures
        n == count_char(s@, c),
{
    let len = s.unicode_len();
    let mut i: usize = 0;
    let mut n: usize = 0;
    while i < len
        invariant
            i <= len,
            len == s@.len(),
            n == count_char(s@.subrange(0, i as int), c),
            n <= i,
        decreases len - i,
    {
        let ch = s.get_char(i);
        proof {
            assert(s@.subrange(0, i + 1).drop_last() =~= s@.subrange(0, i as int));
        }
        if ch == c {
            n = n + 1;
        }
        i = i + 1;
    }
    proof {
        assert(s@.subrange(0, len as int) =~= s@);
    }
    n
}

/// Character-for-character string equality.
pub fn str_eq(a: &str, b: &str) -> (r: bool)
    ensures
        r == (a@ == b@),
{
    let alen = a.unicode_len();
    let blen = b.unicode_len();
    if alen != blen {
        return false;
    }
    let mut i: usize = 0;
    while i < alen
        invariant
            i <= alen,
            alen == a@.len(),
            alen == b@.len(),
            forall|j: int| 0 <= j < i ==> a@[j] == b@[j],
        decreases alen - i,
    {
        if a.get_char(i) != b.get_char(i) {
            return false;
        }
        i = i + 1;
    }
    proof {
        assert(a@ =~= b@);
    }
    true
}

/// The pieces of `s` between occurrences of `sep`: always one more piece
/// than there are separators, and no piece contains the separator.
pub open spec fn split_on(s: Seq<char>, sep: char) -> Seq<Seq<char>>
    decreases s.len(),
{
    if s.len() == 0 {
        seq![Seq::<char>::empty()]
    } else if s.first() == sep {
        seq![Seq::<char>::empty()] + split_on(s.drop_first(), sep)
    } else {
        let rest = split_on(s.drop_first(), sep);
        seq![seq![s.first()] + rest.first()] + rest.skip(1)
    }
}

pub proof fn lemma_split_on_len(s: Seq<char>, sep: char)
    ensures
        split_on(s, sep).len() == count_char(s, sep) + 1,
    decreases s.len(),
{
    if s.len() > 0 {
        lemma_split_on_len(s.drop_first(), sep);
        lemma_count_char_first(s, sep);
    }
}

/// `ss` with its first piece prefixed by `p`.
spec fn prefix_first(p: Seq<char>, ss: Seq<Seq<char>>) -> Seq<Seq<char>> {
    seq![p + ss.first()] + ss.skip(1)
}

proof fn lemma_prefix_first_empty(ss: Seq<Seq<char>>)
    requires
        ss.len() >= 1,
    ensures
        prefix_first(Seq::<char>::empty(), ss) =~~= ss,
{
}

proof fn lemma_prefix_first_push(p: Seq<char>, c: char, ss: Seq<Seq<char>>)
    requires
        ss.len() >= 1,
    ensures
        prefix_first(p, prefix_first(seq![c], ss)) =~~= prefix_first(p.push(c), ss),
{
    assert((p + (seq![c] + ss.first())) =~= (p.push(c) + ss.first()));
}

/// Splits `s` at every occurrence of `sep`.
pub fn split_char(s: &str, sep: char) -> (r: Vec<String>)
    ensures
        r.deep_view() == split_on(s@, sep),
        r.len() >= 1,
{
    let len = s.unicode_len();
    let mut pieces: Vec<String> = Vec::new();
    let mut cur = String::new();
    let mut i: usize = 0;
    proof {
        lemma_split_on_len(s@, sep);
        assert(s@.skip(0) =~= s@);
        lemma_prefix_first_empty(split_on(s@, sep));
        assert(pieces.deep_view() =~= Seq::<Seq<char>>::empty());
    }
    while i < len
        invariant
            i <= len,
            len == s@.len(),
            split_on(s@, sep) =~~= pieces.deep_view() + prefix_first(
                cur@,
                split_on(s@.skip(i as int), sep),
            ),
        decreases len - i,
    {
        let ghost tail = s@.skip(i as int);
        proof {
            assert(tail.len() > 0);
            assert(tail.drop_first() =~= s@.skip(i + 1));
            lemma_split_on_len(tail.drop_first(), sep);
        }
        let ch = s.get_char(i);
        proof {
            assert(tail.first() == s@[i as int]);
        }
        if ch == sep {
            pieces.push(cur);
            cur = String::new();
            proof {
                lemma_prefix_first_empty(split_on(s@.skip(i + 1), sep));
            }
        } else {
            proof {
                lemma_prefix_first_push(cur@, ch, split_on(s@.skip(i + 1), sep));
            }
            push_char(&mut cur, ch);
        }
        i = i + 1;
    }
    proof {
        assert(s@.skip(len as int) =~= Seq::<char>::empty());
        assert(prefix_first(cur@, split_on(s@.skip(len as int), sep)) =~~= seq![cur@]);
    }
    pieces.push(cur);
    pieces
}

/// The Unicode white-space characters: what surrounds a transform output and
/// is trimmed away from it.
pub open spec fn is_space(c: char) -> bool {
    ||| c == '\t'
    ||| c == '\n'
    ||| c == '\u{b}'
    ||| c == '\u{c}'
    ||| c == '\r'
    ||| c == ' '
    ||| c == '\u{85}'
    ||| c == '\u{a0}'
    ||| c == '\u{1680}'
    ||| c == '\u{2000}'
    ||| c == '\u{2001}'
    ||| c == '\u{2002}'
    ||| c == '\u{2003}'
    ||| c == '\u{2004}'
    ||| c == '\u{2005}'
    ||| c == '\u{2006}'
    ||| c == '\u{2007}'
    ||| c == '\u{2008}'
    ||| c == '\u{2009}'
    ||| c == '\u{200a}'
    ||| c == '\u{2028}'
    ||| c == '\u{2029}'
    ||| c == '\u{202f}'
    ||| c == '\u{205f}'
    ||| c == '\u{3000}'
}

pub open spec fn trim_start_spec(s: Seq<char>) -> Seq<char>
    decreases s.len(),
{
    if s.len() > 0 && is_space(s.first()) {
        trim_start_spec(s.drop_first())
    } else {
        s
    }
}

pub open spec fn trim_end_spec(s: Seq<char>) -> Seq<char>
    decreases s.len(),
{
    if s.len() > 0 && is_space(s.last()) {
        trim_end_spec(s.drop_last())
    } else {
        s
    }
}

/// `s` without leading and trailing whitespace.
pub open spec fn trimmed(s: Seq<char>) -> Seq<char> {
    trim_end_spec(trim_start_spec(s))
}

proof fn lemma_trim_start_skip(s: Seq<char>, a: int)
    requires
        0 <= a <= s.len(),
        forall|j: int| 0 <= j < a ==> is_space(s[j]),
    ensures
        trim_start_spec(s) == trim_start_spec(s.skip(a)),
    decreases a,
{
    if a > 0 {
        assert(is_space(s.first()));
        lemma_trim_start_skip(s.drop_first(), a - 1);
        assert(s.drop_first().skip(a - 1) =~= s.skip(a));
    } else {
        assert(s.skip(0) =~= s);
    }
}

proof fn lemma_trim_end_take(s: Seq<char>, b: int)
    requires
        0 <= b <= s.len(),
        forall|j: int| b <= j < s.len() ==> is_space(s[j]),
    ensures
        trim_end_spec(s) == trim_end_spec(s.take(b)),
    decreases s.len() - b,
{
    if b < s.len() {
        assert(is_space(s.last()));
        lemma_trim_end_take(s.drop_last(), b);
        assert(s.drop_last().take(b) =~= s.take(b));
    } else {
        assert(s.take(b) =~= s);
    }
}

fn is_space_char(c: char) -> (r: bool)
    ensures
        r == is_space(c),
{
    c == '\t' || c == '\n' || c == '\u{b}' || c == '\u{c}' || c == '\r' || c == ' '
        || c == '\u{85}' || c == '\u{a0}' || c == '\u{1680}' || c == '\u{2000}'
        || c == '\u{2001}' || c == '\u{2002}' || c == '\u{2003}' || c == '\u{2004}'
        || c == '\u{2005}' || c == '\u{2006}' || c == '\u{2007}' || c == '\u{2008}'
        || c == '\u{2009}' || c == '\u{200a}' || c == '\u{2028}' || c == '\u{2029}'
        || c == '\u{202f}' || c == '\u{205f}' || c == '\u{3000}'
}

/// Removes leading and trailing whitespace.
pub fn trim_str(s: &str) -> (r: String)
    ensures
        r@ == trimmed(s@),
{
    let len = s.unicode_len();
    let mut a: usize = 0;
    while a < len && is_space_char(s.get_char(a))
        invariant
            a <= len,
            len == s@.len(),
            forall|j: int| 0 <= j < a ==> is_space(s@[j]),
        decreases len - a,
    {
        a = a + 1;
    }
    proof {
        lemma_trim_start_skip(s@, a as int);
    }
    if a == len {
        proof {
            assert(s@.skip(len as int) =~= Seq::<char>::empty());
        }
        return String::new();
    }
    let mut b: usize = len;
    while b > a && is_space_char(s.get_char(b - 1))
        invariant
            a <= b <= len,
            len == s@.len(),
            forall|j: int| b <= j < len ==> is_space(s@[j]),
        decreases b,
    {
        b = b - 1;
    }
    proof {
        assert(!is_space(s@[a as int]));
        if b == a {
            assert(is_space(s@[a as int]));
        }
        assert(b > a);
        assert(!is_space(s@[b - 1]));
        let tail = s@.skip(a as int);
        assert(trim_start_spec(tail) == tail);
        lemma_trim_end_take(tail, b - a);
        let piece = tail.take(b - a);
        assert(piece =~= s@.subrange(a as int, b as int));
        assert(piece.last() == s@[b - 1]);
        assert(trim_end_spec(piece) == piece);
    }
    let piece = s.substring_char(a, b);
    piece.to_owned()
}

/// The pieces joined with `sep` between them; the inverse of `split_on`.
pub open spec fn join_with(ss: Seq<Seq<char>>, sep: char) -> Seq<char>
    decreases ss.len(),
{
    if ss.len() == 0 {
        Seq::<char>::empty()
    } else if ss.len() == 1 {
        ss.first()
    } else {
        ss.first() + seq![sep] + join_with(ss.skip(1), sep)
    }
}

/// Joins the pieces with `sep` between them.
pub fn join_char(pieces: &Vec<String>, sep: char) -> (r: String)
    ensures
        r@ == join_with(pieces.deep_view(), sep),
{
    let mut out = String::new();
    let mut i: usize = 0;
    while i < pieces.len()
        invariant
            i <= pieces.len(),
            out@ =~~= if i == 0 {
                Seq::<char>::empty()
            } else {
                join_with(pieces.deep_view().take(i as int), sep)
            },
        decreases pieces.len() - i,
    {
        if i > 0 {
            push_char(&mut out, sep);
        }
        out.append(pieces[i].as_str());
        proof {
            lemma_join_take_step(pieces.deep_view(), sep, i as int);
        }
        i = i + 1;
    }
    proof {
        assert(pieces.deep_view().take(pieces.len() as int) =~= pieces.deep_view());
        if pieces.len() == 0 {
            assert(out@ =~= join_with(pieces.deep_view(), sep));
        }
    }
    out
}

/// Joining pieces that hold no separator puts exactly one separator between
/// each neighboring pair.
pub proof fn lemma_join_count(ss: Seq<Seq<char>>, sep: char)
    requires
        ss.len() >= 1,
        forall|i: int| 0 <= i < ss.len() ==> count_char(#[trigger] ss[i], sep) == 0,
    ensures
        count_char(join_with(ss, sep), sep) == ss.len() - 1,
    decreases ss.len(),
{
    if ss.len() == 1 {
        assert(join_with(ss, sep) == ss.first());
    } else {
        lemma_join_count(ss.skip(1), sep);
        assert(forall|i: int|
            0 <= i < ss.skip(1).len() ==> count_char(#[trigger] ss.skip(1)[i], sep) == count_char(
                ss[i + 1],
                sep,
            ));
        lemma_count_char_add(ss.first(), seq![sep], sep);
        lemma_count_char_add(ss.first() + seq![sep], join_with(ss.skip(1), sep), sep);
        assert(count_char(seq![sep], sep) == 1) by {
            assert(seq![sep].drop_last() =~= Seq::<char>::empty());
            assert(count_char(Seq::<char>::empty(), sep) == 0);
            assert(count_char(seq![sep], sep) == count_char(seq![sep].drop_last(), sep) + 1);
        }
    }
}

proof fn lemma_count_char_zero(s: Seq<char>, c: char)
    ensures
        (count_char(s, c) == 0) <==> (forall|i: int| 0 <= i < s.len() ==> s[i] != c),
    decreases s.len(),
{
    if s.len() > 0 {
        lemma_count_char_zero(s.drop_last(), c);
        assert(forall|i: int| 0 <= i < s.len() - 1 ==> s[i] == s.drop_last()[i]);
    }
}

/// A separator-free piece splits to itself alone.
proof fn lemma_split_no_sep(t: Seq<char>, sep: char)
    requires
        count_char(t, sep) == 0,
    ensures
        split_on(t, sep) =~~= seq![t],
    decreases t.len(),
{
    lemma_count_char_zero(t, sep);
    if t.len() > 0 {
        lemma_count_char_first(t, sep);
        lemma_split_no_sep(t.drop_first(), sep);
        assert(split_on(t, sep) =~~= seq![seq![t.first()] + t.drop_first()]);
        assert(seq![t.first()] + t.drop_first() =~= t);
    }
}

/// Splitting takes a leading separator-free piece off whole.
proof fn lemma_split_boundary(t: Seq<char>, rest: Seq<char>, sep: char)
    requires
        count_char(t, sep) == 0,
    ensures
        split_on(t + seq![sep] + rest, sep) =~~= seq![t] + split_on(rest, sep),
    decreases t.len(),
{
    lemma_count_char_zero(t, sep);
    let whole = t + seq![sep] + rest;
    if t.len() == 0 {
        assert(whole =~= seq![sep] + rest);
        assert(whole.first() == sep);
        assert(whole.drop_first() =~= rest);
    } else {
        assert(whole.first() == t.first());
        assert(whole.first() != sep);
        lemma_count_char_first(t, sep);
        lemma_split_boundary(t.drop_first(), rest, sep);
        assert(whole.drop_first() =~= t.drop_first() + seq![sep] + rest);
        let tail_split = split_on(whole.drop_first(), sep);
        assert(tail_split =~~= seq![t.drop_first()] + split_on(rest, sep));
        assert(tail_split.first() == t.drop_first());
        assert(split_on(whole, sep) =~~= seq![seq![whole.first()] + tail_split.first()]
            + tail_split.skip(1));
        assert(seq![t.first()] + t.drop_first() =~= t);
        assert(tail_split.skip(1) =~~= split_on(rest, sep));
    }
}

/// Joining separator-free pieces and splitting the result gives the pieces
/// back exactly: what lets a batched caller zip split results against the
/// items it joined.
pub proof fn lemma_split_join_inverse(ss: Seq<Seq<char>>, sep: char)
    requires
        ss.len() >= 1,
        forall|i: int| 0 <= i < ss.len() ==> count_char(#[trigger] ss[i], sep) == 0,
    ensures
        split_on(join_with(ss, sep), sep) =~~= ss,
    decreases ss.len(),
{
    if ss.len() == 1 {
        assert(join_with(ss, sep) == ss.first());
        lemma_split_no_sep(ss.first(), sep);
        assert(seq![ss.first()] =~~= ss);
    } else {
        assert(forall|i: int|
            0 <= i < ss.skip(1).len() ==> count_char(#[trigger] ss.skip(1)[i], sep) == count_char(
                ss[i + 1],
                sep,
            ));
        lemma_split_join_inverse(ss.skip(1), sep);
        lemma_split_boundary(ss.first(), join_with(ss.skip(1), sep), sep);
        assert(join_with(ss, sep) == ss.first() + seq![sep] + join_with(ss.skip(1), sep));
        assert(seq![ss.first()] + ss.skip(1) =~~= ss);
    }
}

proof fn lemma_join_take_step(ss: Seq<Seq<char>>, sep: char, i: int)
    requires
        0 <= i < ss.len(),
    ensures
        i == 0 ==> join_with(ss.take(1), sep) == ss[0],
        i > 0 ==> join_with(ss.take(i + 1), sep) =~= join_with(ss.take(i), sep) + seq![sep]
            + ss[i],
    decreases i,
{
    if i == 0 {
        assert(join_with(ss.take(1), sep) == ss.take(1).first());
    } else {
        lemma_join_take_step(ss.skip(1), sep, i - 1);
        assert(ss.take(i + 1).skip(1) =~= ss.skip(1).take(i));
        assert(ss.take(i).skip(1) =~= ss.skip(1).take(i - 1));
        assert(ss.take(i + 1).first() == ss.first());
        assert(ss.take(i).first() == ss.first());
        if i == 1 {
            assert(join_with(ss.take(2), sep) == ss.take(2).first() + seq![sep] + join_with(
                ss.take(2).skip(1),
                sep,
            ));
            assert(ss.skip(1).take(1).first() == ss[1]);
        }
    }
}

} // verus!
