//! Parsing of incoming chat messages into commands.
//!
//! A message is a command only when its first space-separated token is
//! exactly the command prefix `!r`. The second token names the verb; with no
//! second token the default verb `join` is taken. Everything after the verb
//! is kept as the argument list.

use vstd::prelude::*;

use crate::text::split_on;
use crate::text::split_char;
use crate::text::str_eq;

verus! {

/// The closed set of verbs a message can carry; anything unrecognized falls
/// to `Unknown` and is answered with a placeholder reply.
#[derive(Clone, Copy, Debug, PartialEq, Eq, Structural)]
pub enum Verb {
    Pause,
    Next,
    Prev,
    Play,
    Info,
    Quit,
    Join,
    Unknown,
}

/// One parsed chat command: a verb and the tokens that followed it.
pub struct Command {
    pub verb: Verb,
    pub args: Vec<String>,
}

/// The verb named by the token after the prefix.
pub open spec fn spec_verb(token: Seq<char>) -> Verb {
    if token == "pause"@ {
        Verb::Pause
    } else if token == "next"@ {
        Verb::Next
    } else if token == "prev"@ {
        Verb::Prev
    } else if token == "play"@ {
        Verb::Play
    } else if token == "info"@ {
        Verb::Info
    } else if token == "quit"@ {
        Verb::Quit
    } else if token == "join"@ {
        Verb::Join
    } else {
        Verb::Unknown
    }
}

/// What a message parses to: `None` when its first token is not exactly the
/// prefix, otherwise the verb (defaulting to `join`) and the argument tokens.
pub open spec fn spec_parse_command(content: Seq<char>) -> Option<(Verb, Seq<Seq<char>>)> {
    let toks = split_on(content, ' ');
    if toks.first() != "!r"@ {
        None
    } else if toks.len() == 1 {
        Some((Verb::Join, Seq::<Seq<char>>::empty()))
    } else {
        Some((spec_verb(toks[1]), toks.skip(2)))
    }
}

fn parse_verb(token: &str) -> (v: Verb)
    ensures
        v == spec_verb(token@),
{
    if str_eq(token, "pause") {
        Verb::Pause
    } else if str_eq(token, "next") {
        Verb::Next
    } else if str_eq(token, "prev") {
        Verb::Prev
    } else if str_eq(token, "play") {
        Verb::Play
    } else if str_eq(token, "info") {
        Verb::Info
    } else if str_eq(token, "quit") {
        Verb::Quit
    } else if str_eq(token, "join") {
        Verb::Join
    } else {
        Verb::Unknown
    }
}

/// Parses one chat message. Messages whose first token is not the command
/// prefix yield no command at all and the caller stays silent.
pub fn parse_command(content: &str) -> (r: Option<Command>)
    ensures
        match spec_parse_command(content@) {
            Some(parsed) => {
                &&& r matches Some(cmd)
                &&& cmd.verb == parsed.0
                &&& cmd.args.deep_view() == parsed.1
            },
            None => r is None,
        },
{
    let tokens = split_char(content, ' ');
    let ghost toks = split_on(content@, ' ');
    if !str_eq(tokens[0].as_str(), "!r") {
        return None;
    }
    if tokens.len() == 1 {
        let args: Vec<String> = Vec::new();
        assert(args.deep_view() =~= Seq::<Seq<char>>::empty());
        return Some(Command { verb: Verb::Join, args });
    }
    let verb = parse_verb(tokens[1].as_str());
    let mut args: Vec<String> = Vec::new();
    let mut i: usize = 2;
    assert(args.deep_view() =~= toks.skip(2).take(0));
    while i < tokens.len()
        invariant
            2 <= i <= tokens.len(),
            tokens.deep_view() == toks,
            toks.len() == tokens.len(),
            args.deep_view() =~~= toks.skip(2).take(i - 2),
        decreases tokens.len() - i,
    {
        let t = tokens[i].clone();
        proof {
            assert(t@ == tokens.deep_view()[i as int]);
            assert(toks.skip(2)[i - 2] == toks[i as int]);
            assert(toks.skip(2).take(i - 1) =~= toks.skip(2).take(i - 2).push(toks[i as int]));
        }
        args.push(t);
        assert(args.deep_view() =~~= toks.skip(2).take(i - 1));
        i = i + 1;
    }
    assert(args.deep_view() =~~= toks.skip(2));
    Some(Command { verb, args })
}

/// The numeric value of a digit character; ten for any other character.
pub open spec fn digit_val(c: char) -> nat {
    if c == '0' {
        0
    } else if c == '1' {
        1
    } else if c == '2' {
        2
    } else if c == '3' {
        3
    } else if c == '4' {
        4
    } else if c == '5' {
        5
    } else if c == '6' {
        6
    } else if c == '7' {
        7
    } else if c == '8' {
        8
    } else if c == '9' {
        9
    } else {
        10
    }
}

pub open spec fn all_digits(s: Seq<char>) -> bool {
    forall|i: int| 0 <= i < s.len() ==> digit_val(s[i]) < 10
}

/// The number written by a digit string, most significant digit first.
pub open spec fn digits_val(s: Seq<char>) -> nat
    decreases s.len(),
{
    if s.len() == 0 {
        0
    } else {
        digits_val(s.drop_last()) * 10 + digit_val(s.last())
    }
}

/// What a token parses to as an unsigned 32-bit number: an optional leading
/// plus sign, then at least one digit, and a value that fits.
pub open spec fn spec_parse_u32(s: Seq<char>) -> Option<u32> {
    let body = if s.len() > 0 && s.first() == '+' {
        s.drop_first()
    } else {
        s
    };
    if body.len() > 0 && all_digits(body) && digits_val(body) <= u32::MAX {
        Some(digits_val(body) as u32)
    } else {
        None
    }
}

/// A longer digit string never writes a smaller number.
proof fn lemma_digits_val_take_le(s: Seq<char>, j: int)
    requires
        0 <= j <= s.len(),
    ensures
        digits_val(s.take(j)) <= digits_val(s),
    decreases s.len() - j,
{
    if j < s.len() {
        lemma_digits_val_take_le(s, j + 1);
        assert(s.take(j + 1).drop_last() =~= s.take(j));
        assert(digits_val(s.take(j + 1)) == digits_val(s.take(j)) * 10 + digit_val(
            s.take(j + 1).last(),
        ));
    } else {
        assert(s.take(j) =~= s);
    }
}

fn char_digit(c: char) -> (d: u32)
    ensures
        d == digit_val(c),
{
    if c == '0' {
        0
    } else if c == '1' {
        1
    } else if c == '2' {
        2
    } else if c == '3' {
        3
    } else if c == '4' {
        4
    } else if c == '5' {
        5
    } else if c == '6' {
        6
    } else if c == '7' {
        7
    } else if c == '8' {
        8
    } else if c == '9' {
        9
    } else {
        10
    }
}

/// Parses a numeric token the way the play command reads its song id.
pub fn parse_u32(s: &str) -> (r: Option<u32>)
    ensures
        r == spec_parse_u32(s@),
{
    let len = s.unicode_len();
    if len == 0 {
        return None;
    }
    let start: usize = if s.get_char(0) == '+' {
        1
    } else {
        0
    };
    let ghost body = if s@.first() == '+' {
        s@.drop_first()
    } else {
        s@
    };
    proof {
        assert(body =~= s@.skip(start as int));
    }
    if start == len {
        return None;
    }
    let mut acc: u32 = 0;
    let mut i: usize = start;
    assert(body.take(0) =~= Seq::<char>::empty());
    while i < len
        invariant
            start <= i <= len,
            0 < len == s@.len(),
            start == if s@.first() == '+' {
                1int
            } else {
                0int
            },
            body == s@.skip(start as int),
            body == if s@.len() > 0 && s@.first() == '+' {
                s@.drop_first()
            } else {
                s@
            },
            body.len() == len - start,
            all_digits(body.take(i - start)),
            acc == digits_val(body.take(i - start)),
        decreases len - i,
    {
        let c = s.get_char(i);
        let d = char_digit(c);
        proof {
            assert(body[i - start] == s@[i as int]);
        }
        if d >= 10 {
            assert(!all_digits(body));
            return None;
        }
        let ghost k = i - start;
        proof {
            assert(body.take(k + 1).drop_last() =~= body.take(k as int));
            assert(body.take(k + 1).last() == body[k as int]);
        }
        if acc > (u32::MAX - d) / 10 {
            proof {
                assert(acc * 10 + d > u32::MAX) by (nonlinear_arith)
                    requires
                        acc > (u32::MAX - d) / 10,
                        d < 10,
                ;
                assert(digits_val(body.take(k + 1)) > u32::MAX);
                lemma_digits_val_take_le(body, k + 1);
            }
            return None;
        }
        proof {
            assert(acc * 10 + d <= u32::MAX) by (nonlinear_arith)
                requires
                    acc <= (u32::MAX - d) / 10,
                    d < 10,
            ;
        }
        acc = acc * 10 + d;
        i = i + 1;
    }
    proof {
        assert(body.take(len - start) =~= body);
    }
    Some(acc)
}

} // verus!
