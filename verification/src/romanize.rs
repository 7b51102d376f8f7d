//! Romanization of mixed-script text with verification and bounded retry.
//!
//! The transform itself is an external one-shot process; this module owns
//! everything around it: text that is already latin is answered directly, a
//! transform output is accepted only when its line structure matches the
//! input, and a rejected output costs one of a bounded number of attempts.
//! The accepted output is trimmed of surrounding whitespace and the fullwidth
//! tilde marker is rewritten to a plain `~`.

use vstd::prelude::*;

use crate::text::count_char;
use crate::text::count_char_in;
use crate::text::lemma_split_on_len;
use crate::text::push_char;
use crate::text::split_on;
use crate::text::trim_str;
use crate::text::trimmed;
use vstd::string::StringExecFnsIsAscii;

verus! {

/// The fullwidth tilde the transform leaves in its output, rewritten to `~`.
pub open spec fn marker_rewritten(c: char) -> char {
    if c == '\u{ff5e}' {
        '~'
    } else {
        c
    }
}

/// `s` with every fullwidth tilde rewritten.
pub open spec fn replace_marker(s: Seq<char>) -> Seq<char> {
    s.map_values(|c: char| marker_rewritten(c))
}

/// What an accepted transform output is turned into: surrounding whitespace
/// trimmed, the marker rewritten.
pub open spec fn finalized(raw: Seq<char>) -> Seq<char> {
    replace_marker(trimmed(raw))
}

/// When a transform output is taken as sound: it is not empty, it has exactly
/// one newline more than the input (the transform answers with a trailing
/// newline), and what is left after trimming has exactly the input's newlines,
/// so that batched callers can split the result back line by line.
pub open spec fn transform_ok(input: Seq<char>, raw: Seq<char>) -> bool {
    &&& raw.len() > 0
    &&& count_char(raw, '\n') == count_char(input, '\n') + 1
    &&& count_char(finalized(raw), '\n') == count_char(input, '\n')
}

fn replace_marker_str(s: &str) -> (r: String)
    ensures
        r@ == replace_marker(s@),
{
    let len = s.unicode_len();
    let mut out = String::new();
    let mut i: usize = 0;
    assert(out@ =~= replace_marker(s@.take(0)));
    while i < len
        invariant
            i <= len,
            len == s@.len(),
            out@ =~~= replace_marker(s@.take(i as int)),
        decreases len - i,
    {
        let c = s.get_char(i);
        if c == '\u{ff5e}' {
            push_char(&mut out, '~');
        } else {
            push_char(&mut out, c);
        }
        assert(out@ =~~= replace_marker(s@.take(i + 1)));
        i = i + 1;
    }
    proof {
        assert(s@.take(len as int) =~= s@);
    }
    out
}

/// Checks one transform output against the input and, when it is sound,
/// returns its finalized form.
pub fn check_transform(input: &str, raw: &str) -> (r: Option<String>)
    ensures
        match r {
            Some(out) => transform_ok(input@, raw@) && out@ == finalized(raw@),
            None => !transform_ok(input@, raw@),
        },
{
    if raw.unicode_len() == 0 {
        return None;
    }
    let input_newlines = count_char_in(input, '\n');
    let raw_newlines = count_char_in(raw, '\n');
    if raw_newlines == 0 || raw_newlines - 1 != input_newlines {
        return None;
    }
    let cooked = replace_marker_str(trim_str(raw).as_str());
    let cooked_newlines = count_char_in(cooked.as_str(), '\n');
    if cooked_newlines != input_newlines {
        return None;
    }
    Some(cooked)
}

/// How one offered transform output left the task.
#[derive(Clone, Copy, Debug, PartialEq, Eq, Structural)]
pub enum RomanizeStep {
    Accepted,
    RetryNeeded,
    Unavailable,
}

/// One romanization request: the input, the attempts that are left, and the
/// result once one is known. Latin-only input is answered on construction
/// without consulting the transform at all, so such text comes back unchanged.
pub struct RomanizeTask {
    input: String,
    attempts_left: u32,
    result: Option<String>,
}

impl RomanizeTask {
    pub closed spec fn spec_input(&self) -> Seq<char> {
        self.input@
    }

    pub closed spec fn spec_attempts_left(&self) -> u32 {
        self.attempts_left
    }

    pub closed spec fn spec_result(&self) -> Option<Seq<char>> {
        match self.result {
            Some(s) => Some(s@),
            None => None,
        }
    }

    /// Starts a request. Text that is entirely latin already is its own
    /// romanization and is answered at once.
    pub fn new(input: String, max_attempts: u32) -> (t: Self)
        ensures
            t.spec_input() == input@,
            t.spec_attempts_left() == max_attempts,
            vstd::string::string_is_ascii(&input) ==> t.spec_result() == Some(input@),
            !vstd::string::string_is_ascii(&input) ==> t.spec_result() is None,
    {
        let result = if input.is_ascii() {
            Some(input.clone())
        } else {
            None
        };
        RomanizeTask { input, attempts_left: max_attempts, result }
    }

    /// The text to hand to the external transform.
    pub fn input(&self) -> (r: &String)
        ensures
            r@ == self.spec_input(),
    {
        &self.input
    }

    /// Whether the transform still has to be consulted.
    pub fn needs_transform(&self) -> (b: bool)
        ensures
            b == (self.spec_result() is None && self.spec_attempts_left() > 0),
    {
        self.result.is_none() && self.attempts_left > 0
    }

    /// The romanized text, once one is known.
    pub fn result(&self) -> (r: Option<&String>)
        ensures
            match r {
                Some(s) => self.spec_result() == Some(s@),
                None => self.spec_result() is None,
            },
    {
        self.result.as_ref()
    }

    /// Judges one transform output. A sound output settles the task; an
    /// unsound one costs an attempt and asks for a retry until the attempts
    /// are exhausted, after which the romanization is reported unavailable.
    pub fn offer(&mut self, raw: &str) -> (step: RomanizeStep)
        requires
            old(self).spec_result() is None,
            old(self).spec_attempts_left() > 0,
        ensures
            final(self).spec_input() == old(self).spec_input(),
            transform_ok(old(self).spec_input(), raw@) ==> {
                &&& step == RomanizeStep::Accepted
                &&& final(self).spec_result() == Some(finalized(raw@))
                &&& final(self).spec_attempts_left() == old(self).spec_attempts_left()
            },
            !transform_ok(old(self).spec_input(), raw@) ==> {
                &&& final(self).spec_result() is None
                &&& final(self).spec_attempts_left() == old(self).spec_attempts_left() - 1
                &&& step == if old(self).spec_attempts_left() > 1 {
                    RomanizeStep::RetryNeeded
                } else {
                    RomanizeStep::Unavailable
                }
            },
    {
        match check_transform(self.input.as_str(), raw) {
            Some(out) => {
                self.result = Some(out);
                RomanizeStep::Accepted
            },
            None => {
                self.attempts_left = self.attempts_left - 1;
                if self.attempts_left > 0 {
                    RomanizeStep::RetryNeeded
                } else {
                    RomanizeStep::Unavailable
                }
            },
        }
    }
}

/// An accepted transform output splits into exactly as many lines as the
/// input: a violating output is never accepted, it asks for a retry instead.
pub proof fn lemma_romanize_line_parity(input: Seq<char>, raw: Seq<char>)
    requires
        transform_ok(input, raw),
    ensures
        split_on(finalized(raw), '\n').len() == split_on(input, '\n').len(),
{
    lemma_split_on_len(finalized(raw), '\n');
    lemma_split_on_len(input, '\n');
}

/// The batched use the queue view relies on: join newline-free items, accept
/// a transform output for the joined text, and splitting the accepted result
/// gives exactly one line per item, while splitting the joined input gives
/// the items themselves back, so the two zip position by position.
pub proof fn lemma_batched_romanize(items: Seq<Seq<char>>, raw: Seq<char>)
    requires
        items.len() >= 1,
        forall|i: int| 0 <= i < items.len() ==> count_char(#[trigger] items[i], '\n') == 0,
        transform_ok(crate::text::join_with(items, '\n'), raw),
    ensures
        split_on(finalized(raw), '\n').len() == items.len(),
        split_on(crate::text::join_with(items, '\n'), '\n') == items,
{
    crate::text::lemma_join_count(items, '\n');
    lemma_split_on_len(finalized(raw), '\n');
    crate::text::lemma_split_join_inverse(items, '\n');
}

/// The queue view never renders from a count-violating transform output:
/// an output for the joined titles is accepted only with the batch's line
/// structure kept, and such an accepted output splits into exactly one line
/// per queued song, so the render takes it.
pub proof fn lemma_render_from_accepted(songs: Seq<crate::song::Track>, raw: Seq<char>)
    requires
        songs.len() >= 1,
        forall|i: int|
            0 <= i < songs.len() ==> count_char(
                crate::queue_view::title_or_missing(#[trigger] songs[i]),
                '\n',
            ) == 0,
        transform_ok(crate::text::join_with(crate::queue_view::spec_queue_titles(songs), '\n'), raw),
    ensures
        split_on(finalized(raw), '\n').len() == songs.len(),
{
    let titles = crate::queue_view::spec_queue_titles(songs);
    assert forall|i: int| 0 <= i < titles.len() implies count_char(#[trigger] titles[i], '\n')
        == 0 by {
        assert(titles[i] == crate::queue_view::title_or_missing(songs[i]));
    }
    lemma_batched_romanize(titles, raw);
}

} // verus!
