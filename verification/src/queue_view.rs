//! The play-queue rendering behind the web view: one line per queued song
//! with its position, artist, album, title and romanized title.
//!
//! The romanization of all titles is made in one batch: the titles joined by
//! newlines go through the romanizer, whose accepted output splits back into
//! exactly one line per title (see the batched law in the romanize module).

use vstd::prelude::*;

use crate::song::Track;
use crate::song::find_tag;
use crate::text::dec_rep_padded;
use crate::text::push_decimal_padded;
use crate::text::split_char;
use crate::text::split_on;
use crate::text::trim_str;
use crate::text::trimmed;
use vstd::string::StringExecFns;

verus! {

/// A song's displayed title: the missing-title marker when it has none.
pub open spec fn title_or_missing(song: Track) -> Seq<char> {
    match song.title {
        Some(t) => t@,
        None => "[missing title]"@,
    }
}

/// The titles handed to the romanizer, one per queued song.
pub open spec fn spec_queue_titles(songs: Seq<Track>) -> Seq<Seq<char>> {
    songs.map_values(|s: Track| title_or_missing(s))
}

/// Collects each song's displayed title.
pub fn queue_titles(songs: &Vec<Track>) -> (r: Vec<String>)
    ensures
        r.deep_view() == spec_queue_titles(songs@),
{
    let mut titles: Vec<String> = Vec::new();
    let mut i: usize = 0;
    assert(titles.deep_view() =~= spec_queue_titles(songs@.take(0)));
    while i < songs.len()
        invariant
            i <= songs.len(),
            titles.deep_view() =~~= spec_queue_titles(songs@.take(i as int)),
        decreases songs.len() - i,
    {
        let t = match &songs[i].title {
            Some(t) => t.clone(),
            None => String::from_str("[missing title]"),
        };
        titles.push(t);
        proof {
            assert(songs@.take(i + 1).drop_last() =~= songs@.take(i as int));
            assert(spec_queue_titles(songs@.take(i + 1)) =~= spec_queue_titles(
                songs@.take(i as int),
            ).push(title_or_missing(songs@[i as int])));
        }
        assert(titles.deep_view() =~~= spec_queue_titles(songs@.take(i + 1)));
        i = i + 1;
    }
    proof {
        assert(songs@.take(songs.len() as int) =~= songs@);
    }
    titles
}

/// The queue position shown for a song; songs the daemon reported without a
/// place show position zero.
pub open spec fn place_pos(song: Track) -> u32 {
    match song.place {
        Some(p) => p.pos,
        None => 0u32,
    }
}

/// One rendered queue line.
pub open spec fn queue_line(song: Track, rom: Seq<char>) -> Seq<char> {
    dec_rep_padded(place_pos(song) as nat, 4) + ": "@ + (match song.artist {
        Some(a) => a@,
        None => "unknown"@,
    }) + " - "@ + (match find_tag(song.tags@, "Album"@) {
        Some(v) => v,
        None => "unknown"@,
    }) + " - "@ + title_or_missing(song) + " ("@ + trimmed(rom) + ")"@ + "\n"@
}

/// The rendered queue, one line per song, each paired with its romanized
/// title.
pub open spec fn spec_queue_display(songs: Seq<Track>, roms: Seq<Seq<char>>) -> Seq<char>
    decreases songs.len(),
{
    if songs.len() == 0 {
        Seq::<char>::empty()
    } else {
        spec_queue_display(songs.drop_last(), roms.drop_last()) + queue_line(
            songs.last(),
            roms.last(),
        )
    }
}

/// Renders the queue against the already split romanized titles.
#[verifier::rlimit(100)]
pub fn format_queue(songs: &Vec<Track>, romanized: &Vec<String>) -> (r: String)
    requires
        romanized@.len() == songs@.len(),
    ensures
        r@ == spec_queue_display(songs@, romanized.deep_view()),
{
    let mut out = String::new();
    let mut i: usize = 0;
    assert(out@ =~= spec_queue_display(songs@.take(0), romanized.deep_view().take(0)));
    while i < songs.len()
        invariant
            i <= songs.len(),
            songs@.len() == romanized@.len(),
            romanized.deep_view().len() == romanized@.len(),
            out@ =~~= spec_queue_display(
                songs@.take(i as int),
                romanized.deep_view().take(i as int),
            ),
        decreases songs.len() - i,
    {
        let song = &songs[i];
        let ghost line_start = out@;
        push_decimal_padded(&mut out, place_pos_exec(song) as u64, 4);
        out.append(": ");
        match &song.artist {
            Some(a) => out.append(a.as_str()),
            None => out.append("unknown"),
        }
        out.append(" - ");
        match crate::song::tag_value(&song.tags, "Album") {
            Some(v) => out.append(v.as_str()),
            None => out.append("unknown"),
        }
        out.append(" - ");
        match &song.title {
            Some(t) => out.append(t.as_str()),
            None => out.append("[missing title]"),
        }
        out.append(" (");
        let rom = trim_str(romanized[i].as_str());
        out.append(rom.as_str());
        out.append(")");
        out.append("\n");
        proof {
            assert(romanized.deep_view()[i as int] == romanized@[i as int]@);
            assert(out@ =~~= line_start + queue_line(
                songs@[i as int],
                romanized.deep_view()[i as int],
            ));
            assert(songs@.take(i + 1).drop_last() =~= songs@.take(i as int));
            assert(romanized.deep_view().take(i + 1).drop_last() =~= romanized.deep_view().take(
                i as int,
            ));
            assert(songs@.take(i + 1).last() == songs@[i as int]);
            assert(romanized.deep_view().take(i + 1).last() == romanized.deep_view()[i as int]);
        }
        assert(out@ =~~= spec_queue_display(songs@.take(i + 1), romanized.deep_view().take(i + 1)));
        i = i + 1;
    }
    proof {
        assert(songs@.take(songs.len() as int) =~= songs@);
        assert(romanized.deep_view().take(songs.len() as int) =~= romanized.deep_view());
    }
    out
}

fn place_pos_exec(song: &Track) -> (r: u32)
    ensures
        r == place_pos(*song),
{
    match &song.place {
        Some(p) => p.pos,
        None => 0,
    }
}

/// Renders the queue against the romanizer's accepted output for the joined
/// titles; answers nothing when the line counts do not pair up, which the
/// caller treats as a failed romanization.
pub fn render_queue(songs: &Vec<Track>, romanized_block: &str) -> (r: Option<String>)
    ensures
        match r {
            Some(out) => {
                &&& split_on(romanized_block@, '\n').len() == songs@.len()
                &&& out@ == spec_queue_display(songs@, split_on(romanized_block@, '\n'))
            },
            None => split_on(romanized_block@, '\n').len() != songs@.len(),
        },
{
    let lines = split_char(romanized_block, '\n');
    if lines.len() != songs.len() {
        return None;
    }
    Some(format_queue(songs, &lines))
}

} // verus!
