//! The command dispatcher: one parsed command in, at most one reply out,
//! side-effecting the media client and the voice bridge.
//!
//! Gateway work (joining or leaving a voice channel, romanizing the info
//! block) cannot happen here; the dispatcher answers with what is to be done
//! and the hosting program carries it out and records the result.
//!
//! Failures of `pause`, `next`, `prev`, `info` and of the title lookup after
//! a successful `play` are handed back to the caller unanswered, as the
//! observed behavior propagates them; every other failure turns into a chat
//! reply.

use vstd::prelude::*;

use crate::command::Command;
use crate::command::Verb;
use crate::command::spec_parse_u32;
use crate::command::parse_u32;
use crate::command::parse_command;
use crate::mpd_client::MpdClient;
use crate::mpd_client::MpdError;
use crate::song::Track;
use crate::song::view_opt;
use crate::text::dec_rep;
use crate::text::push_decimal;
use crate::voice::VoiceBridge;
use vstd::string::StringExecFns;

verus! {

/// Where a message came from: the guild (none for direct and group messages)
/// and the author's current voice channel within that guild.
pub struct MessageContext {
    pub guild: Option<u64>,
    pub voice_channel: Option<u64>,
}

/// What one dispatched command asks the hosting program to do.
pub enum Dispatched {
    /// Nothing to say and nothing left to do.
    Done,
    /// Send this text back on the originating channel.
    Reply(String),
    /// Join this voice channel and start streaming the audio source into it;
    /// record the session on success, answer with `join_failure_reply` on
    /// failure.
    JoinVoice { guild: u64, channel: u64 },
    /// Tear the guild's voice session down; its map entry is already gone.
    LeaveVoice { guild: u64 },
    /// Romanize this song's displayed fields and answer with the info block.
    ShowInfo { song: Track },
}

pub open spec fn missing_id_text() -> Seq<char> {
    "Missing or failed to parse song id"@
}

pub open spec fn play_failure_text(n: u32) -> Seq<char> {
    "Failed to play "@ + dec_rep(n as nat) + "!"@
}

pub open spec fn play_success_text(title: Option<Seq<char>>) -> Seq<char> {
    "Playing \""@ + (match title {
        Some(t) => t,
        None => "???"@,
    }) + "\" now."@
}

pub open spec fn no_song_text() -> Seq<char> {
    "Currently no song is playing!"@
}

pub open spec fn groups_dms_text() -> Seq<char> {
    "Groups and DMs not supported"@
}

pub open spec fn not_in_channel_text() -> Seq<char> {
    "Currently not in any channel!"@
}

pub open spec fn no_voice_channel_text() -> Seq<char> {
    "Not in a voice channel"@
}

pub open spec fn unknown_text() -> Seq<char> {
    "Unrecognized command... TODO: reference"@
}

/// The song id the play command was given: its first argument, read as an
/// unsigned number.
pub open spec fn play_arg(args: Seq<Seq<char>>) -> Option<u32> {
    if args.len() == 0 {
        None
    } else {
        spec_parse_u32(args[0])
    }
}

/// The reply to a play whose switch the daemon rejected.
pub fn play_failure_reply(n: u32) -> (r: String)
    ensures
        r@ == play_failure_text(n),
{
    let mut out = String::from_str("Failed to play ");
    push_decimal(&mut out, n as u64);
    out.append("!");
    proof {
        assert(out@ =~= play_failure_text(n));
    }
    out
}

/// The reply to a successful play: the now-current song's title, `???` when
/// it has none.
pub fn play_success_reply(title: &Option<String>) -> (r: String)
    ensures
        r@ == play_success_text(view_opt(*title)),
{
    let mut out = String::from_str("Playing \"");
    match title {
        Some(t) => out.append(t.as_str()),
        None => out.append("???"),
    }
    out.append("\" now.");
    proof {
        assert(out@ =~= play_success_text(view_opt(*title)));
    }
    out
}

/// The one reply a play command with a well-formed song id ends in, for each
/// way the daemon's switch can come out: a rejected or failed switch is
/// answered deterministically with the failure text for that id, a successful
/// one with the now-current song's title.
pub fn play_reply(n: u32, switch_ok: bool, current_title: &Option<String>) -> (r: String)
    ensures
        switch_ok ==> r@ == play_success_text(view_opt(*current_title)),
        !switch_ok ==> r@ == play_failure_text(n),
{
    if switch_ok {
        play_success_reply(current_title)
    } else {
        play_failure_reply(n)
    }
}

/// The one outcome an info command ends in, for each answer the daemon can
/// give: no current song is answered with the no-song reply, and a current
/// song is shown exactly as it was reported.
pub fn info_outcome(current: Option<Track>) -> (d: Dispatched)
    ensures
        match current {
            Some(song) => d matches Dispatched::ShowInfo { song: s } && s == song,
            None => d matches Dispatched::Reply(t) && t@ == no_song_text(),
        },
{
    match current {
        Some(song) => Dispatched::ShowInfo { song },
        None => Dispatched::Reply(String::from_str("Currently no song is playing!")),
    }
}

/// The reply when the gateway refused to join a voice channel, carrying its
/// diagnostic.
pub fn join_failure_reply(detail: &str) -> (r: String)
    ensures
        r@ == "Error joining the channel: "@ + detail@,
{
    let mut out = String::from_str("Error joining the channel: ");
    out.append(detail);
    out
}

/// Everything a dispatched command promises, given the verb and arguments,
/// where the message came from, and the voice sessions before and after: the
/// deterministic replies are pinned exactly, the session map moves only on a
/// quit that found a session, and outcomes that hang on the daemon's answers
/// are pinned as far as those answers reach.
pub open spec fn dispatch_post(
    verb: Verb,
    args: Seq<Seq<char>>,
    ctx: MessageContext,
    sessions_before: Map<u64, u64>,
    sessions_after: Map<u64, u64>,
    r: Result<Dispatched, MpdError>,
) -> bool {
    match verb {
        Verb::Pause | Verb::Next | Verb::Prev => {
            &&& sessions_after == sessions_before
            &&& (r matches Ok(d) ==> d is Done)
        },
        Verb::Play => {
            &&& sessions_after == sessions_before
            &&& match play_arg(args) {
                None => r matches Ok(d) && d matches Dispatched::Reply(t) && t@
                    == missing_id_text(),
                Some(n) => r matches Ok(d) ==> d matches Dispatched::Reply(t) && (t@
                    == play_failure_text(n) || exists|title: Option<Seq<char>>|
                    t@ == play_success_text(title)),
            }
        },
        Verb::Info => {
            &&& sessions_after == sessions_before
            &&& (r matches Ok(d) ==> (d matches Dispatched::Reply(t) && t@ == no_song_text())
                || d is ShowInfo)
        },
        Verb::Quit => match ctx.guild {
            None => {
                &&& sessions_after == sessions_before
                &&& r matches Ok(d) && d matches Dispatched::Reply(t) && t@ == groups_dms_text()
            },
            Some(g) => {
                if sessions_before.contains_key(g) {
                    &&& sessions_after == sessions_before.remove(g)
                    &&& r matches Ok(d) && d matches Dispatched::LeaveVoice { guild } && guild == g
                } else {
                    &&& sessions_after == sessions_before
                    &&& r matches Ok(d) && d matches Dispatched::Reply(t) && t@
                        == not_in_channel_text()
                }
            },
        },
        Verb::Join => {
            &&& sessions_after == sessions_before
            &&& match ctx.guild {
                None => r matches Ok(d) && d matches Dispatched::Reply(t) && t@
                    == groups_dms_text(),
                Some(g) => match ctx.voice_channel {
                    None => r matches Ok(d) && d matches Dispatched::Reply(t) && t@
                        == no_voice_channel_text(),
                    Some(c) => r matches Ok(d) && d matches Dispatched::JoinVoice {
                        guild,
                        channel,
                    } && guild == g && channel == c,
                },
            }
        },
        Verb::Unknown => {
            &&& sessions_after == sessions_before
            &&& r matches Ok(d) && d matches Dispatched::Reply(t) && t@ == unknown_text()
        },
    }
}

/// Dispatches one parsed command.
pub fn dispatch(cmd: &Command, ctx: &MessageContext, mpd: &mut MpdClient, voice: &mut VoiceBridge)
    -> (r: Result<Dispatched, MpdError>)
    ensures
        final(mpd).spec_address() == old(mpd).spec_address(),
        dispatch_post(
            cmd.verb,
            cmd.args.deep_view(),
            *ctx,
            old(voice).spec_sessions(),
            final(voice).spec_sessions(),
            r,
        ),
{
    match cmd.verb {
        Verb::Pause => match mpd.toggle_pause() {
            Ok(()) => Ok(Dispatched::Done),
            Err(e) => Err(e),
        },
        Verb::Next => match mpd.next() {
            Ok(()) => Ok(Dispatched::Done),
            Err(e) => Err(e),
        },
        Verb::Prev => match mpd.prev() {
            Ok(()) => Ok(Dispatched::Done),
            Err(e) => Err(e),
        },
        Verb::Play => {
            let parsed: Option<u32> = if cmd.args.len() == 0 {
                None
            } else {
                proof {
                    assert(cmd.args.deep_view()[0] == cmd.args@[0]@);
                }
                parse_u32(cmd.args[0].as_str())
            };
            match parsed {
                None => Ok(Dispatched::Reply(String::from_str("Missing or failed to parse song id"))),
                Some(n) => match mpd.switch(n) {
                    Ok(()) => match mpd.current_song() {
                        Ok(Some(song)) => Ok(Dispatched::Reply(play_reply(n, true, &song.title))),
                        Ok(None) => {
                            let none_title: Option<String> = None;
                            Ok(Dispatched::Reply(play_reply(n, true, &none_title)))
                        },
                        Err(e) => Err(e),
                    },
                    Err(_) => Ok(Dispatched::Reply(play_reply(n, false, &None))),
                },
            }
        },
        Verb::Info => match mpd.current_song() {
            Ok(current) => Ok(info_outcome(current)),
            Err(e) => Err(e),
        },
        Verb::Quit => match ctx.guild {
            None => Ok(Dispatched::Reply(String::from_str("Groups and DMs not supported"))),
            Some(g) => {
                if voice.has_session(g) {
                    voice.record_quit(g);
                    Ok(Dispatched::LeaveVoice { guild: g })
                } else {
                    Ok(Dispatched::Reply(String::from_str("Currently not in any channel!")))
                }
            },
        },
        Verb::Join => match ctx.guild {
            None => Ok(Dispatched::Reply(String::from_str("Groups and DMs not supported"))),
            Some(g) => match ctx.voice_channel {
                None => Ok(Dispatched::Reply(String::from_str("Not in a voice channel"))),
                Some(c) => Ok(Dispatched::JoinVoice { guild: g, channel: c }),
            },
        },
        Verb::Unknown => Ok(
            Dispatched::Reply(String::from_str("Unrecognized command... TODO: reference")),
        ),
    }
}

/// Handles one raw chat message: a message whose first token is not the
/// command prefix is no command and leaves everything untouched.
pub fn handle_message(
    content: &str,
    ctx: &MessageContext,
    mpd: &mut MpdClient,
    voice: &mut VoiceBridge,
) -> (r: Result<Dispatched, MpdError>)
    ensures
        final(mpd).spec_address() == old(mpd).spec_address(),
        match crate::command::spec_parse_command(content@) {
            None => {
                &&& r matches Ok(d) && d is Done
                &&& final(voice).spec_sessions() == old(voice).spec_sessions()
            },
            Some(parsed) => dispatch_post(
                parsed.0,
                parsed.1,
                *ctx,
                old(voice).spec_sessions(),
                final(voice).spec_sessions(),
                r,
            ),
        },
{
    match parse_command(content) {
        Some(cmd) => dispatch(&cmd, ctx, mpd, voice),
        None => Ok(Dispatched::Done),
    }
}

} // verus!
