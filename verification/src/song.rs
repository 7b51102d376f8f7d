//! The song model the library reasons about, and the fixed-width song-info
//! block the `info` command answers with.
//!
//! Display ordering is canonical here: the original text comes first and the
//! romanized form follows in parentheses, shown only when the two differ.

use vstd::prelude::*;

use crate::duration::duration_display;
use crate::duration::format_duration;
use crate::text::str_eq;
use vstd::string::StringExecFns;

verus! {

/// A song's slot in the play queue: the server-side id and the zero-based
/// position.
#[derive(Clone, Copy, Debug, PartialEq, Eq, Structural)]
pub struct QueuePlace {
    pub id: u32,
    pub pos: u32,
}

/// What the library reads of a song the daemon reported: the raw file path
/// (the title fallback), the optional title, artist and duration, the queue
/// place, and the remaining tags as name-value pairs.
pub struct Track {
    pub file: String,
    pub title: Option<String>,
    pub artist: Option<String>,
    pub duration_secs: Option<u64>,
    pub place: Option<QueuePlace>,
    pub tags: Vec<(String, String)>,
}

/// The value of the first tag with the given name.
pub open spec fn find_tag(tags: Seq<(String, String)>, name: Seq<char>) -> Option<Seq<char>>
    decreases tags.len(),
{
    if tags.len() == 0 {
        None
    } else if tags.first().0@ == name {
        Some(tags.first().1@)
    } else {
        find_tag(tags.drop_first(), name)
    }
}

/// Looks a tag up by name.
pub fn tag_value<'a>(tags: &'a Vec<(String, String)>, name: &str) -> (r: Option<&'a String>)
    ensures
        match r {
            Some(v) => find_tag(tags@, name@) == Some(v@),
            None => find_tag(tags@, name@) is None,
        },
{
    let mut i: usize = 0;
    proof {
        assert(tags@.skip(0) =~= tags@);
    }
    while i < tags.len()
        invariant
            i <= tags.len(),
            find_tag(tags@, name@) == find_tag(tags@.skip(i as int), name@),
        decreases tags.len() - i,
    {
        proof {
            assert(tags@.skip(i as int).first() == tags@[i as int]);
            assert(tags@.skip(i as int).drop_first() =~= tags@.skip(i + 1));
        }
        if str_eq(tags[i].0.as_str(), name) {
            return Some(&tags[i].1);
        }
        i = i + 1;
    }
    proof {
        assert(tags@.skip(tags.len() as int) =~= Seq::<(String, String)>::empty());
    }
    None
}

/// A field with its romanization appended in parentheses, only when the
/// romanization differs from the original.
pub open spec fn with_romanization(orig: Seq<char>, rom: Seq<char>) -> Seq<char> {
    if rom == orig {
        orig
    } else {
        orig + " ("@ + rom + ")"@
    }
}

/// `with_romanization` where no romanization may be known.
pub open spec fn opt_rom(orig: Seq<char>, rom: Option<Seq<char>>) -> Seq<char> {
    match rom {
        Some(r) => with_romanization(orig, r),
        None => orig,
    }
}

/// Appends the romanized form in parentheses when it differs.
pub fn add_romanization(orig: String, rom: &str) -> (r: String)
    ensures
        r@ == with_romanization(orig@, rom@),
{
    if str_eq(orig.as_str(), rom) {
        orig
    } else {
        let ghost orig_view = orig@;
        let mut out = orig;
        out.append(" (");
        out.append(rom);
        out.append(")");
        proof {
            assert(out@ =~= with_romanization(orig_view, rom@));
        }
        out
    }
}

/// The romanized forms of a song's displayed fields, as far as they exist.
pub struct SongRomanizations {
    pub title: Option<String>,
    pub artist: Option<String>,
    pub album: Option<String>,
}

pub open spec fn view_opt(o: Option<String>) -> Option<Seq<char>> {
    match o {
        Some(s) => Some(s@),
        None => None,
    }
}

/// The fenced info block for one song: the title (the file path when there is
/// no title), then artist, album and duration as far as they are known.
pub open spec fn song_info_display(song: Track, rom: SongRomanizations) -> Seq<char> {
    let title_line = match song.title {
        Some(t) => "Title:    "@ + opt_rom(t@, view_opt(rom.title)) + "\n"@,
        None => "Title:    "@ + song.file@ + "\n"@,
    };
    let artist_line = match song.artist {
        Some(a) => "Artist:   "@ + opt_rom(a@, view_opt(rom.artist)) + "\n"@,
        None => Seq::<char>::empty(),
    };
    let album_line = match find_tag(song.tags@, "Album"@) {
        Some(v) => "Album:    "@ + opt_rom(v, view_opt(rom.album)) + "\n"@,
        None => Seq::<char>::empty(),
    };
    let duration_line = match song.duration_secs {
        Some(d) => "Duration: "@ + duration_display(d as nat) + "\n"@,
        None => Seq::<char>::empty(),
    };
    "```\n"@ + title_line + artist_line + album_line + duration_line + "```"@
}

fn opt_romanized(orig: &String, rom: &Option<String>) -> (r: String)
    ensures
        r@ == opt_rom(orig@, view_opt(*rom)),
{
    match rom {
        Some(rt) => add_romanization(orig.clone(), rt.as_str()),
        None => orig.clone(),
    }
}

/// Builds the info block the `info` command answers with.
pub fn format_song_info(song: &Track, rom: &SongRomanizations) -> (r: String)
    ensures
        r@ == song_info_display(*song, *rom),
{
    let ghost title_line: Seq<char> = match &song.title {
        Some(t) => "Title:    "@ + opt_rom(t@, view_opt(rom.title)) + "\n"@,
        None => "Title:    "@ + song.file@ + "\n"@,
    };
    let ghost artist_line: Seq<char> = match &song.artist {
        Some(a) => "Artist:   "@ + opt_rom(a@, view_opt(rom.artist)) + "\n"@,
        None => Seq::<char>::empty(),
    };
    let ghost album_line: Seq<char> = match find_tag(song.tags@, "Album"@) {
        Some(v) => "Album:    "@ + opt_rom(v, view_opt(rom.album)) + "\n"@,
        None => Seq::<char>::empty(),
    };
    let ghost duration_line: Seq<char> = match song.duration_secs {
        Some(d) => "Duration: "@ + duration_display(d as nat) + "\n"@,
        None => Seq::<char>::empty(),
    };
    let mut out = String::from_str("```\n");
    out.append("Title:    ");
    match &song.title {
        Some(t) => {
            let line = opt_romanized(t, &rom.title);
            out.append(line.as_str());
        },
        None => {
            out.append(song.file.as_str());
        },
    }
    out.append("\n");
    assert(out@ =~= "```\n"@ + title_line);
    match &song.artist {
        Some(a) => {
            out.append("Artist:   ");
            let line = opt_romanized(a, &rom.artist);
            out.append(line.as_str());
            out.append("\n");
        },
        None => {},
    }
    assert(out@ =~= "```\n"@ + title_line + artist_line);
    match tag_value(&song.tags, "Album") {
        Some(v) => {
            out.append("Album:    ");
            let line = opt_romanized(v, &rom.album);
            out.append(line.as_str());
            out.append("\n");
        },
        None => {},
    }
    assert(out@ =~= "```\n"@ + title_line + artist_line + album_line);
    match song.duration_secs {
        Some(d) => {
            out.append("Duration: ");
            let line = format_duration(d);
            out.append(line.as_str());
            out.append("\n");
        },
        None => {},
    }
    assert(out@ =~= "```\n"@ + title_line + artist_line + album_line + duration_line);
    out.append("```");
    proof {
        assert(out@ =~= song_info_display(*song, *rom));
    }
    out
}

} // verus!
