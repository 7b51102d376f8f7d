//! Rendering of song durations for chat replies.
//!
//! A duration of `t` seconds is shown as `H:MM:SS` when `t >= 3600` and as
//! `M:SS` otherwise; minutes and seconds are zero-padded to two digits, the
//! leading unit is not padded.

use vstd::prelude::*;

use crate::text::{
    count_char, dec_rep, dec_rep_padded, digit_char, lemma_count_char_add, lemma_dec_rep_len,
    lemma_dec_rep_no_leading_zero, lemma_dec_rep_padded_len, push_char, push_decimal,
    push_decimal_padded,
};

verus! {

/// The rendered form of a duration of `total` seconds.
pub open spec fn duration_display(total: nat) -> Seq<char> {
    if total >= 3600 {
        dec_rep(total / 3600) + seq![':'] + dec_rep_padded((total % 3600) / 60, 2) + seq![':']
            + dec_rep_padded(total % 60, 2)
    } else {
        dec_rep(total / 60) + seq![':'] + dec_rep_padded(total % 60, 2)
    }
}

/// Renders a duration, given in whole seconds.
pub fn format_duration(seconds: u64) -> (r: String)
    ensures
        r@ == duration_display(seconds as nat),
{
    let mut out = String::new();
    if seconds >= 3600 {
        push_decimal(&mut out, seconds / 3600);
        push_char(&mut out, ':');
        push_decimal_padded(&mut out, (seconds % 3600) / 60, 2);
        push_char(&mut out, ':');
        push_decimal_padded(&mut out, seconds % 60, 2);
        assert(out@ =~= duration_display(seconds as nat));
    } else {
        push_decimal(&mut out, seconds / 60);
        push_char(&mut out, ':');
        push_decimal_padded(&mut out, seconds % 60, 2);
        assert(out@ =~= duration_display(seconds as nat));
    }
    out
}

proof fn lemma_dec_rep_only_digits(n: nat)
    ensures
        count_char(dec_rep(n), ':') == 0,
    decreases n,
{
    if n < 10 {
        assert(dec_rep(n).drop_last() =~= Seq::<char>::empty());
        assert(count_char(Seq::<char>::empty(), ':') == 0);
        assert(dec_rep(n).last() == digit_char(n));
        assert(digit_char(n) != ':');
    } else {
        lemma_dec_rep_only_digits(n / 10);
        assert(dec_rep(n).drop_last() =~= dec_rep(n / 10));
    }
}

proof fn lemma_dec_rep_padded_only_digits(n: nat, width: nat)
    ensures
        count_char(dec_rep_padded(n, width), ':') == 0,
    decreases width,
{
    lemma_dec_rep_only_digits(n);
    if dec_rep(n).len() < width {
        lemma_zeros_only_digits((width - dec_rep(n).len()) as nat);
        lemma_count_char_add(
            crate::text::zeros((width - dec_rep(n).len()) as nat),
            dec_rep(n),
            ':',
        );
    }
}

proof fn lemma_zeros_only_digits(k: nat)
    ensures
        count_char(crate::text::zeros(k), ':') == 0,
    decreases k,
{
    if k > 0 {
        lemma_zeros_only_digits((k - 1) as nat);
        assert(crate::text::zeros(k).drop_last() =~= crate::text::zeros((k - 1) as nat));
    }
}

/// The shape of a rendered duration: it carries two field separators, a
/// hours-minutes-seconds form, exactly when the duration reaches one hour;
/// the minute and second fields are always two characters; the leading unit
/// starts with a nonzero digit whenever it is nonzero.
pub proof fn lemma_duration_display_shape(total: nat)
    ensures
        count_char(duration_display(total), ':') == if total >= 3600 {
            2nat
        } else {
            1nat
        },
        dec_rep_padded(total % 60, 2).len() == 2,
        dec_rep_padded((total % 3600) / 60, 2).len() == 2,
        total >= 3600 ==> duration_display(total).first() != '0',
{
    let colon = seq![':'];
    assert(count_char(colon, ':') == 1) by {
        assert(colon.drop_last() =~= Seq::<char>::empty());
        assert(count_char(Seq::<char>::empty(), ':') == 0);
        assert(count_char(colon, ':') == count_char(colon.drop_last(), ':') + 1);
    }
    assert(total % 60 < 60);
    assert((total % 3600) / 60 < 60);
    lemma_dec_rep_len(total % 60);
    lemma_dec_rep_len((total % 3600) / 60);
    lemma_dec_rep_padded_len(total % 60, 2);
    lemma_dec_rep_padded_len((total % 3600) / 60, 2);
    if total >= 3600 {
        let h = total / 3600;
        let m = (total % 3600) / 60;
        let s = total % 60;
        lemma_dec_rep_only_digits(h);
        lemma_dec_rep_padded_only_digits(m, 2);
        lemma_dec_rep_padded_only_digits(s, 2);
        lemma_count_char_add(dec_rep(h), colon, ':');
        lemma_count_char_add(dec_rep(h) + colon, dec_rep_padded(m, 2), ':');
        lemma_count_char_add(dec_rep(h) + colon + dec_rep_padded(m, 2), colon, ':');
        lemma_count_char_add(
            dec_rep(h) + colon + dec_rep_padded(m, 2) + colon,
            dec_rep_padded(s, 2),
            ':',
        );
        lemma_dec_rep_no_leading_zero(h);
        lemma_dec_rep_len(h);
        assert(duration_display(total).first() == dec_rep(h).first());
    } else {
        let m = total / 60;
        let s = total % 60;
        lemma_dec_rep_only_digits(m);
        lemma_dec_rep_padded_only_digits(s, 2);
        lemma_count_char_add(dec_rep(m), colon, ':');
        lemma_count_char_add(dec_rep(m) + colon, dec_rep_padded(s, 2), ':');
    }
}

} // verus!
