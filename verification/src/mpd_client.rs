//! The self-healing client around the media daemon connection.
//!
//! Every stateful operation first checks that the connection is alive: one
//! probe, a second one after a failure, and only when both fail is the
//! connection re-established against the stored address, so that a single
//! stale read never forces a reconnect. A failed re-establishment fails that
//! operation with `Connection`; the handle and its address stay as they were
//! and the next operation probes again.

use vstd::prelude::*;

verus! {

/// One live session to the media daemon. Verus refuses a declaration of the
/// mpd crate's client type (its socket parameter's bounds cannot be stated
/// here), so the session is held opaquely behind this struct and reached only
/// through the trusted wrappers below.
#[verifier::external_body]
pub struct DaemonConn {
    inner: mpd::Client,
}

/// The mpd crate's error type, declared so it can cross trusted boundaries.
#[verifier::external_type_specification]
#[verifier::external_body]
pub struct ExMpdCrateError(mpd::error::Error);

/// A song as the mpd crate reports it, declared so that verified code can
/// carry it to the conversion below.
#[verifier::external_type_specification]
#[verifier::external_body]
pub struct ExMpdCrateSong(mpd::Song);

/// How a media-daemon operation can fail.
#[derive(Clone, Copy, Debug, PartialEq, Eq, Structural)]
pub enum MpdError {
    /// Re-establishing the connection failed; the next operation retries.
    Connection,
    /// The daemon rejected the requested queue position.
    InvalidQueuePosition,
    /// Any other protocol, parse or transport failure.
    Other,
}

/// Relies on mpd::error::Error's taxonomy: a server `ACK` with code
/// `Argument` or `NoExist` means the daemon rejected the requested queue
/// place; every other class is carried as `Other`.
#[verifier::external_body]
fn map_error(e: mpd::error::Error) -> MpdError {
    match e {
        mpd::error::Error::Server(se) => match se.code {
            mpd::error::ErrorCode::Argument => MpdError::InvalidQueuePosition,
            mpd::error::ErrorCode::NoExist => MpdError::InvalidQueuePosition,
            _ => MpdError::Other,
        },
        _ => MpdError::Other,
    }
}

/// Relies on mpd::Client::connect: opens a session against the address (any
/// name the system can resolve) and performs the protocol handshake.
#[verifier::external_body]
fn daemon_connect(address: &str) -> (r: Option<DaemonConn>) {
    match mpd::Client::connect(address) {
        Ok(client) => Some(DaemonConn { inner: client }),
        Err(_) => None,
    }
}

/// Relies on mpd::Client::ping: sends a ping and reports whether the daemon
/// answered; nothing is promised of the outcome.
#[verifier::external_body]
fn mpd_ping(conn: &mut DaemonConn) -> (r: bool) {
    conn.inner.ping().is_ok()
}

/// Relies on mpd::Client::toggle_pause: toggles the daemon's pause state;
/// its failures come mapped through `map_error`, never as `Connection`.
#[verifier::external_body]
fn mpd_toggle_pause(conn: &mut DaemonConn) -> (r: Result<(), MpdError>)
    ensures
        r matches Err(e) ==> e != MpdError::Connection,
{
    conn.inner.toggle_pause().map_err(map_error)
}

/// Relies on mpd::Client::next: skips to the next song in the queue; its
/// failures come mapped through `map_error`, never as `Connection`.
#[verifier::external_body]
fn mpd_next(conn: &mut DaemonConn) -> (r: Result<(), MpdError>)
    ensures
        r matches Err(e) ==> e != MpdError::Connection,
{
    conn.inner.next().map_err(map_error)
}

/// Relies on mpd::Client::prev: goes back to the previous song in the queue;
/// its failures come mapped through `map_error`, never as `Connection`.
#[verifier::external_body]
fn mpd_prev(conn: &mut DaemonConn) -> (r: Result<(), MpdError>)
    ensures
        r matches Err(e) ==> e != MpdError::Connection,
{
    conn.inner.prev().map_err(map_error)
}

/// Relies on mpd::Client::switch: starts playback at the given zero-based
/// queue position; the daemon answers with an `ACK` when the position does
/// not exist, which comes back as `InvalidQueuePosition`; its failures come
/// mapped through `map_error`, never as `Connection`.
#[verifier::external_body]
fn mpd_switch(conn: &mut DaemonConn, queue_position: u32) -> (r: Result<(), MpdError>)
    ensures
        r matches Err(e) ==> e != MpdError::Connection,
{
    conn.inner.switch(queue_position).map_err(map_error)
}

/// Relies on mpd::Client::currentsong: the currently playing song, if one
/// is; its failures come mapped through `map_error`, never as `Connection`.
#[verifier::external_body]
fn mpd_currentsong(conn: &mut DaemonConn) -> (r: Result<Option<mpd::Song>, MpdError>)
    ensures
        r matches Err(e) ==> e != MpdError::Connection,
{
    conn.inner.currentsong().map_err(map_error)
}

/// Relies on mpd::Client::queue: all songs in the play queue, in queue
/// order; its failures come mapped through `map_error`, never as `Connection`.
#[verifier::external_body]
fn mpd_queue(conn: &mut DaemonConn) -> (r: Result<Vec<mpd::Song>, MpdError>)
    ensures
        r matches Err(e) ==> e != MpdError::Connection,
{
    conn.inner.queue().map_err(map_error)
}

/// Relies on mpd::Song's fields: carries them over one for one, the duration
/// as whole seconds, the queue place as its id and position.
#[verifier::external_body]
fn song_from_daemon(s: mpd::Song) -> (r: crate::song::Track) {
    crate::song::Track {
        file: s.file,
        title: s.title,
        artist: s.artist,
        duration_secs: s.duration.map(|d| d.as_secs()),
        place: s.place.map(|p| crate::song::QueuePlace { id: p.id.0, pos: p.pos }),
        tags: s.tags,
    }
}

/// The decision at the heart of the self-healing client: reconnect exactly
/// when both liveness probes failed.
pub open spec fn spec_reconnect_needed(first_ok: bool, second_ok: bool) -> bool {
    !first_ok && !second_ok
}

pub fn reconnect_needed(first_ok: bool, second_ok: bool) -> (r: bool)
    ensures
        r == spec_reconnect_needed(first_ok, second_ok),
{
    !first_ok && !second_ok
}

/// The course one guarded operation takes around its liveness probes.
#[derive(Clone, Copy, Debug, PartialEq, Eq, Structural)]
pub enum OperationCourse {
    /// Some probe answered: execute on the current connection.
    Direct,
    /// Both probes failed and the reconnect succeeded: execute on the fresh
    /// connection.
    ReconnectFirst,
    /// Both probes failed and so did the reconnect: the operation fails.
    FailConnection,
}

/// The course taken for given probe and reconnect outcomes.
pub open spec fn spec_operation_course(
    first_ok: bool,
    second_ok: bool,
    reconnect_ok: bool,
) -> OperationCourse {
    if !spec_reconnect_needed(first_ok, second_ok) {
        OperationCourse::Direct
    } else if reconnect_ok {
        OperationCourse::ReconnectFirst
    } else {
        OperationCourse::FailConnection
    }
}

pub fn operation_course(first_ok: bool, second_ok: bool, reconnect_ok: bool) -> (c:
    OperationCourse)
    ensures
        c == spec_operation_course(first_ok, second_ok, reconnect_ok),
{
    if !reconnect_needed(first_ok, second_ok) {
        OperationCourse::Direct
    } else if reconnect_ok {
        OperationCourse::ReconnectFirst
    } else {
        OperationCourse::FailConnection
    }
}

/// How many reconnect attempts a course carries.
pub open spec fn reconnect_attempts(c: OperationCourse) -> nat {
    match c {
        OperationCourse::Direct => 0,
        OperationCourse::ReconnectFirst => 1,
        OperationCourse::FailConnection => 1,
    }
}

/// Whatever the probes and the reconnect answered, an operation makes at most
/// one reconnect attempt, makes it exactly when both probes failed, and is
/// stopped only by a reconnect that itself failed.
pub proof fn lemma_reconnect_discipline(first_ok: bool, second_ok: bool, reconnect_ok: bool)
    ensures
        reconnect_attempts(spec_operation_course(first_ok, second_ok, reconnect_ok)) <= 1,
        reconnect_attempts(spec_operation_course(first_ok, second_ok, reconnect_ok)) == 1
            <==> spec_reconnect_needed(first_ok, second_ok),
        spec_operation_course(first_ok, second_ok, reconnect_ok)
            == OperationCourse::FailConnection <==> (spec_reconnect_needed(first_ok, second_ok)
            && !reconnect_ok),
{
}

/// One owned session to the media daemon plus the address it was opened
/// against; every reconnect goes to that same address. The ghost course
/// records, for the latest operation, what its liveness phase did, so that a
/// `Connection` failure is tied to the failed reconnect in the contracts.
pub struct MpdClient {
    conn: DaemonConn,
    address: String,
    last_course: Ghost<OperationCourse>,
}

impl MpdClient {
    /// The address reconnects are made against.
    pub closed spec fn spec_address(&self) -> Seq<char> {
        self.address@
    }

    /// What the latest operation's liveness phase did; a fresh handle stands
    /// at `Direct`.
    pub closed spec fn spec_last_course(&self) -> OperationCourse {
        self.last_course@
    }

    /// Opens the client against an address; fails with `Connection` exactly
    /// when the initial handshake fails.
    pub fn connect(address: String) -> (r: Result<Self, MpdError>)
        ensures
            match r {
                Ok(c) => c.spec_address() == address@ && c.spec_last_course()
                    == OperationCourse::Direct,
                Err(e) => e == MpdError::Connection,
            },
    {
        match daemon_connect(address.as_str()) {
            Some(conn) => Ok(
                MpdClient { conn, address, last_course: Ghost(OperationCourse::Direct) },
            ),
            None => Err(MpdError::Connection),
        }
    }

    /// Probes the connection, up to twice, and re-establishes it against the
    /// stored address when both probes failed. Fails only when that
    /// re-establishment failed, and never touches the stored address; the
    /// course taken is recorded, and failing is the same as having taken
    /// `FailConnection`.
    fn ensure_live(&mut self) -> (r: Result<(), MpdError>)
        ensures
            final(self).spec_address() == old(self).spec_address(),
            r matches Err(e) ==> e == MpdError::Connection,
            r is Err <==> final(self).spec_last_course() == OperationCourse::FailConnection,
    {
        let first_ok = mpd_ping(&mut self.conn);
        if first_ok {
            self.last_course = Ghost(spec_operation_course(first_ok, false, true));
            return Ok(());
        }
        let second_ok = mpd_ping(&mut self.conn);
        if !reconnect_needed(first_ok, second_ok) {
            self.last_course = Ghost(spec_operation_course(first_ok, second_ok, true));
            return Ok(());
        }
        match daemon_connect(self.address.as_str()) {
            Some(fresh) => {
                self.conn = fresh;
                self.last_course = Ghost(spec_operation_course(first_ok, second_ok, true));
                Ok(())
            },
            None => {
                self.last_course = Ghost(spec_operation_course(first_ok, second_ok, false));
                Err(MpdError::Connection)
            },
        }
    }

    /// Toggles the daemon's pause state.
    pub fn toggle_pause(&mut self) -> (r: Result<(), MpdError>)
        ensures
            final(self).spec_address() == old(self).spec_address(),
            (r matches Err(e) && e == MpdError::Connection) <==> final(self).spec_last_course()
                == OperationCourse::FailConnection,
    {
        let live = self.ensure_live();
        if let Err(e) = live {
            return Err(e);
        }
        mpd_toggle_pause(&mut self.conn)
    }

    /// Skips to the next song.
    pub fn next(&mut self) -> (r: Result<(), MpdError>)
        ensures
            final(self).spec_address() == old(self).spec_address(),
            (r matches Err(e) && e == MpdError::Connection) <==> final(self).spec_last_course()
                == OperationCourse::FailConnection,
    {
        let live = self.ensure_live();
        if let Err(e) = live {
            return Err(e);
        }
        mpd_next(&mut self.conn)
    }

    /// Goes back to the previous song.
    pub fn prev(&mut self) -> (r: Result<(), MpdError>)
        ensures
            final(self).spec_address() == old(self).spec_address(),
            (r matches Err(e) && e == MpdError::Connection) <==> final(self).spec_last_course()
                == OperationCourse::FailConnection,
    {
        let live = self.ensure_live();
        if let Err(e) = live {
            return Err(e);
        }
        mpd_prev(&mut self.conn)
    }

    /// Starts playback at the given queue position; `InvalidQueuePosition`
    /// reports a position the daemon rejected.
    pub fn switch(&mut self, queue_id: u32) -> (r: Result<(), MpdError>)
        ensures
            final(self).spec_address() == old(self).spec_address(),
            (r matches Err(e) && e == MpdError::Connection) <==> final(self).spec_last_course()
                == OperationCourse::FailConnection,
    {
        let live = self.ensure_live();
        if let Err(e) = live {
            return Err(e);
        }
        mpd_switch(&mut self.conn, queue_id)
    }

    /// The currently playing song, if one is.
    pub fn current_song(&mut self) -> (r: Result<Option<crate::song::Track>, MpdError>)
        ensures
            final(self).spec_address() == old(self).spec_address(),
            (r matches Err(e) && e == MpdError::Connection) <==> final(self).spec_last_course()
                == OperationCourse::FailConnection,
    {
        let live = self.ensure_live();
        if let Err(e) = live {
            return Err(e);
        }
        match mpd_currentsong(&mut self.conn) {
            Ok(Some(s)) => Ok(Some(song_from_daemon(s))),
            Ok(None) => Ok(None),
            Err(e) => Err(e),
        }
    }

    /// The whole play queue, in queue order.
    pub fn queue(&mut self) -> (r: Result<Vec<crate::song::Track>, MpdError>)
        ensures
            final(self).spec_address() == old(self).spec_address(),
            (r matches Err(e) && e == MpdError::Connection) <==> final(self).spec_last_course()
                == OperationCourse::FailConnection,
    {
        let live = self.ensure_live();
        if let Err(e) = live {
            return Err(e);
        }
        match mpd_queue(&mut self.conn) {
            Ok(mut raw) => {
                let mut songs: Vec<crate::song::Track> = Vec::new();
                while raw.len() > 0
                    decreases raw.len(),
                {
                    let s = raw.remove(0);
                    songs.push(song_from_daemon(s));
                }
                Ok(songs)
            },
            Err(e) => Err(e),
        }
    }
}

} // verus!
