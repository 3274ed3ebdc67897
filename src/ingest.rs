//! Ingestion of one batch as a state machine: each state names the one store
//! operation to perform next, and the store's reply decides the next state.
//!
//! Per event: artist, then album, then track are resolved (looked up, inserted
//! when missing, re-read after an insert that lost a race), then the stream is
//! recorded. The upload row is written `Processing` first and rewritten once to
//! `Completed` or `Failed`.
use vstd::prelude::*;
use vstd::string::StringExecFns;
use crate::models::{
    lemma_status_texts_distinct, status_of, track_of, stream_of, is_upload_row, upload_row, Album, Artist, Stream, StreamData, Track,
    Upload, UploadStatus, UploadableStream,
};
use crate::values::{parse_uuid, uuid_value_of};

verus! {

/// The catalog entity being resolved.
#[derive(Debug, Clone, Copy, PartialEq, Eq, Structural)]
pub enum Kind {
    Artist,
    Album,
    Track,
}

/// Where the ingestion of a batch stands.
#[derive(Debug, PartialEq)]
pub enum Phase {
    /// The `Processing` row is to be written.
    Begin,
    /// The current event's entity is to be looked up.
    Find(Kind),
    /// The entity was missing: it is to be inserted.
    Create(Kind),
    /// The insert met an existing row: it is to be read back.
    Reread(Kind),
    /// The current event's stream row is to be inserted.
    Record,
    /// Every event is in: the `Completed` row is to be written.
    Complete,
    /// Processing stopped: the `Failed` row with this message is to be written.
    Fail(String),
    /// Nothing is left to do; the batch ended in this status.
    Finished(UploadStatus),
    /// The `Processing` row could not be written: the batch was not accepted.
    Rejected(String),
}

/// What the store answered to the last operation.
#[derive(Debug, PartialEq)]
pub enum StoreReply {
    /// The write took effect.
    Written,
    /// The looked-up row exists.
    Found,
    /// The looked-up row does not exist.
    Missing,
    /// The insert violated the uniqueness of the key.
    Conflict,
    /// The store failed, with its message.
    Unavailable(String),
}

/// The store operation that a state asks for.
#[derive(Debug, PartialEq)]
pub enum Action<'a> {
    PutUpload(Upload),
    FindArtist(&'a str),
    FindAlbum(&'a str),
    FindTrack(&'a str),
    InsertArtist(&'a Artist),
    InsertAlbum(&'a Album),
    InsertTrack(Track),
    InsertStream(Stream),
    Stop,
}

/// The ingestion of one batch.
pub struct Ingestion {
    pub batch: StreamData,
    pub upload_id: u128,
    /// The event being processed.
    pub index: usize,
    pub phase: Phase,
    /// The stream rows the store has acknowledged, in order.
    pub recorded: Ghost<Seq<Stream>>,
    /// The status of the last upload row the store has acknowledged.
    pub last_status: Ghost<Option<UploadStatus>>,
}

/// The message recorded for a failed batch.
pub open spec fn failure_text(reply: StoreReply) -> Seq<char> {
    match reply {
        StoreReply::Unavailable(m) => if m@.len() > 0 {
            m@
        } else {
            "storage unavailable"@
        },
        _ => "unexpected reply from storage"@,
    }
}

/// The message of a failure phase, if it is one.
pub open spec fn phase_message(p: Phase) -> Option<Seq<char>> {
    match p {
        Phase::Fail(m) => Some(m@),
        Phase::Rejected(m) => Some(m@),
        _ => None,
    }
}

/// The phase that follows a successful resolution of `k`.
pub open spec fn after(k: Kind) -> Phase {
    match k {
        Kind::Artist => Phase::Find(Kind::Album),
        Kind::Album => Phase::Find(Kind::Track),
        Kind::Track => Phase::Record,
    }
}

/// The uri of the entity of kind `k` that event `e` refers to.
pub open spec fn uri_of(e: UploadableStream, k: Kind) -> Seq<char> {
    match k {
        Kind::Artist => e.track.artist.uri@,
        Kind::Album => e.track.album.uri@,
        Kind::Track => e.track.uri@,
    }
}

/// `a` looks up the entity of kind `k` with uri `uri`.
pub open spec fn is_find(a: Action, k: Kind, uri: Seq<char>) -> bool {
    match a {
        Action::FindArtist(s) => k == Kind::Artist && s@ == uri,
        Action::FindAlbum(s) => k == Kind::Album && s@ == uri,
        Action::FindTrack(s) => k == Kind::Track && s@ == uri,
        _ => false,
    }
}

/// `a` inserts the row of kind `k` that event `e` introduces.
pub open spec fn is_insert(a: Action, k: Kind, e: UploadableStream) -> bool {
    match a {
        Action::InsertArtist(r) => k == Kind::Artist && *r == e.track.artist,
        Action::InsertAlbum(r) => k == Kind::Album && *r == e.track.album,
        Action::InsertTrack(t) => k == Kind::Track && t == track_of(e.track),
        _ => false,
    }
}

impl Ingestion {
    pub open spec fn events(self) -> Seq<UploadableStream> {
        self.batch.streams@
    }

    pub open spec fn event(self) -> UploadableStream {
        self.events()[self.index as int]
    }

    /// The stream rows of the first `n` events.
    pub open spec fn rows_of_first(self, n: int) -> Seq<Stream> {
        self.events().take(n).map_values(|e: UploadableStream| stream_of(e))
    }

    pub open spec fn in_event(self) -> bool {
        match self.phase {
            Phase::Find(_) | Phase::Create(_) | Phase::Reread(_) | Phase::Record => true,
            _ => false,
        }
    }

    pub open spec fn is_done(self) -> bool {
        self.phase is Finished || self.phase is Rejected
    }

    /// The invariant of an ingestion.
    pub open spec fn wf(self) -> bool {
        &&& self.index <= self.events().len()
        &&& self.in_event() ==> self.index < self.events().len()
        &&& self.phase is Complete ==> self.index == self.events().len()
        &&& self.phase == Phase::Finished(UploadStatus::Completed) ==> {
            &&& self.index == self.events().len()
            &&& self.last_status@ == Some(UploadStatus::Completed)
        }
        &&& self.phase == Phase::Finished(UploadStatus::Processing) ==> false
        &&& self.recorded@ == self.rows_of_first(self.index as int)
        &&& self.phase is Begin ==> self.index == 0 && self.last_status@ is None
        &&& self.phase is Rejected ==> self.last_status@ is None
        &&& !(self.phase is Begin || self.phase is Rejected) ==> self.last_status@ is Some
        &&& (self.in_event() || self.phase is Complete) ==> self.last_status@ == Some(
            UploadStatus::Processing,
        )
        &&& phase_message(self.phase) is Some ==> phase_message(self.phase).unwrap().len() > 0
    }

    /// `a` is the operation this state asks for.
    pub open spec fn asks(self, a: Action) -> bool {
        match self.phase {
            Phase::Begin => match a {
                Action::PutUpload(u) => is_upload_row(
                    u,
                    self.batch,
                    self.upload_id,
                    UploadStatus::Processing,
                    Seq::empty(),
                ),
                _ => false,
            },
            Phase::Find(k) => is_find(a, k, uri_of(self.event(), k)),
            Phase::Reread(k) => is_find(a, k, uri_of(self.event(), k)),
            Phase::Create(k) => is_insert(a, k, self.event()),
            Phase::Record => a == Action::InsertStream(stream_of(self.event())),
            Phase::Complete => match a {
                Action::PutUpload(u) => is_upload_row(
                    u,
                    self.batch,
                    self.upload_id,
                    UploadStatus::Completed,
                    Seq::empty(),
                ),
                _ => false,
            },
            Phase::Fail(m) => match a {
                Action::PutUpload(u) => is_upload_row(
                    u,
                    self.batch,
                    self.upload_id,
                    UploadStatus::Failed,
                    m@,
                ),
                _ => false,
            },
            Phase::Finished(_) | Phase::Rejected(_) => a == Action::Stop,
        }
    }

    /// `n` is the phase `p` with index `i` and the ghost state kept.
    pub open spec fn moves_to(self, n: Self, p: Phase, i: int) -> bool {
        n.phase == p && n.index == i && n.last_status == self.last_status
    }

    /// `n` is this ingestion stopped by a failure that `reply` reports.
    pub open spec fn fails_to(self, reply: StoreReply, n: Self) -> bool {
        &&& n.phase is Fail
        &&& phase_message(n.phase) == Some(failure_text(reply))
        &&& n.index == self.index
        &&& n.last_status == self.last_status
    }

    /// The state after this one when the store answers `reply`.
    pub open spec fn steps_to(self, reply: StoreReply, n: Self) -> bool {
        &&& n.batch == self.batch
        &&& n.upload_id == self.upload_id
        &&& match self.phase {
            Phase::Begin => if reply == StoreReply::Written {
                &&& n.phase == (if self.events().len() == 0 {
                    Phase::Complete
                } else {
                    Phase::Find(Kind::Artist)
                })
                &&& n.index == self.index
                &&& n.last_status@ == Some(UploadStatus::Processing)
            } else {
                &&& n.phase is Rejected
                &&& phase_message(n.phase) == Some(failure_text(reply))
                &&& n.index == self.index
                &&& n.last_status == self.last_status
            },
            Phase::Find(k) => if reply == StoreReply::Found {
                self.moves_to(n, after(k), self.index as int)
            } else if reply == StoreReply::Missing {
                self.moves_to(n, Phase::Create(k), self.index as int)
            } else {
                self.fails_to(reply, n)
            },
            Phase::Create(k) => if reply == StoreReply::Written {
                self.moves_to(n, after(k), self.index as int)
            } else if reply == StoreReply::Conflict {
                self.moves_to(n, Phase::Reread(k), self.index as int)
            } else {
                self.fails_to(reply, n)
            },
            Phase::Reread(k) => if reply == StoreReply::Found {
                self.moves_to(n, after(k), self.index as int)
            } else {
                self.fails_to(reply, n)
            },
            Phase::Record => if reply == StoreReply::Written {
                self.moves_to(
                    n,
                    if self.index + 1 == self.events().len() {
                        Phase::Complete
                    } else {
                        Phase::Find(Kind::Artist)
                    },
                    self.index + 1,
                )
            } else {
                self.fails_to(reply, n)
            },
            Phase::Complete => if reply == StoreReply::Written {
                &&& n.phase == Phase::Finished(UploadStatus::Completed)
                &&& n.index == self.index
                &&& n.last_status@ == Some(UploadStatus::Completed)
            } else {
                self.fails_to(reply, n)
            },
            Phase::Fail(_) => {
                &&& n.phase == Phase::Finished(UploadStatus::Failed)
                &&& n.index == self.index
                &&& n.last_status@ == (if reply == StoreReply::Written {
                    Some(UploadStatus::Failed)
                } else {
                    self.last_status@
                })
            },
            Phase::Finished(_) | Phase::Rejected(_) => n == self,
        }
    }
}

/// The message for a failure that `reply` reports; never empty.
fn failure_message(reply: StoreReply) -> (r: String)
    ensures
        r@ == failure_text(reply),
        r@.len() > 0,
{
    proof {
        reveal_strlit("storage unavailable");
        reveal_strlit("unexpected reply from storage");
    }
    match reply {
        StoreReply::Unavailable(m) => if m.as_str().is_empty() {
            String::from_str("storage unavailable")
        } else {
            m
        },
        _ => String::from_str("unexpected reply from storage"),
    }
}

fn next_after(k: Kind) -> (p: Phase)
    ensures
        p == after(k),
{
    match k {
        Kind::Artist => Phase::Find(Kind::Album),
        Kind::Album => Phase::Find(Kind::Track),
        Kind::Track => Phase::Record,
    }
}

impl Ingestion {
    /// Starts the ingestion of `batch`; `None` when its upload id is no uuid.
    pub fn start(batch: StreamData) -> (r: Option<Ingestion>)
        ensures
            r is None <==> uuid_value_of(batch.upload_id@) is None,
            r matches Some(g) ==> {
                &&& g.wf()
                &&& g.batch == batch
                &&& Some(g.upload_id) == uuid_value_of(batch.upload_id@)
                &&& g.phase == Phase::Begin
                &&& g.index == 0
            },
    {
        match parse_uuid(batch.upload_id.as_str()) {
            Some(id) => {
                let g = Ingestion {
                    batch,
                    upload_id: id,
                    index: 0,
                    phase: Phase::Begin,
                    recorded: Ghost(Seq::empty()),
                    last_status: Ghost(None),
                };
                assert(g.rows_of_first(0) =~= Seq::empty());
                Some(g)
            },
            None => None,
        }
    }

    /// Whether nothing is left to do.
    pub fn is_finished(&self) -> (r: bool)
        ensures
            r == self.is_done(),
    {
        match self.phase {
            Phase::Finished(_) | Phase::Rejected(_) => true,
            _ => false,
        }
    }

    /// The store operation to perform next.
    pub fn action(&self) -> (a: Action<'_>)
        requires
            self.wf(),
        ensures
            self.asks(a),
    {
        match &self.phase {
            Phase::Begin => {
                proof {
                    reveal_strlit("");
                    assert(""@ =~= Seq::<char>::empty());
                }
                Action::PutUpload(upload_row(&self.batch, self.upload_id, UploadStatus::Processing, ""))
            },
            Phase::Find(k) | Phase::Reread(k) => {
                let e = &self.batch.streams[self.index];
                match k {
                    Kind::Artist => Action::FindArtist(e.track.artist.uri.as_str()),
                    Kind::Album => Action::FindAlbum(e.track.album.uri.as_str()),
                    Kind::Track => Action::FindTrack(e.track.uri.as_str()),
                }
            },
            Phase::Create(k) => {
                let e = &self.batch.streams[self.index];
                match k {
                    Kind::Artist => Action::InsertArtist(&e.track.artist),
                    Kind::Album => Action::InsertAlbum(&e.track.album),
                    Kind::Track => Action::InsertTrack(e.track.to_track()),
                }
            },
            Phase::Record => Action::InsertStream(self.batch.streams[self.index].to_stream()),
            Phase::Complete => {
                proof {
                    reveal_strlit("");
                    assert(""@ =~= Seq::<char>::empty());
                }
                Action::PutUpload(upload_row(&self.batch, self.upload_id, UploadStatus::Completed, ""))
            },
            Phase::Fail(m) => Action::PutUpload(
                upload_row(&self.batch, self.upload_id, UploadStatus::Failed, m.as_str()),
            ),
            Phase::Finished(_) | Phase::Rejected(_) => Action::Stop,
        }
    }

    /// Takes the store's reply to the operation that `action` asked for.
    pub fn advance(&mut self, reply: StoreReply)
        requires
            old(self).wf(),
        ensures
            old(self).steps_to(reply, *final(self)),
            final(self).wf(),
    {
        let len = self.batch.streams.len();
        let ghost pre = *self;
        match &self.phase {
            Phase::Begin => match reply {
                StoreReply::Written => {
                    self.phase = if len == 0 {
                        Phase::Complete
                    } else {
                        Phase::Find(Kind::Artist)
                    };
                    self.last_status = Ghost(Some(UploadStatus::Processing));
                },
                other => {
                    self.phase = Phase::Rejected(failure_message(other));
                },
            },
            Phase::Find(k) => {
                let k = *k;
                match reply {
                    StoreReply::Found => {
                        self.phase = next_after(k);
                    },
                    StoreReply::Missing => {
                        self.phase = Phase::Create(k);
                    },
                    other => {
                        self.phase = Phase::Fail(failure_message(other));
                    },
                }
            },
            Phase::Create(k) => {
                let k = *k;
                match reply {
                    StoreReply::Written => {
                        self.phase = next_after(k);
                    },
                    StoreReply::Conflict => {
                        self.phase = Phase::Reread(k);
                    },
                    other => {
                        self.phase = Phase::Fail(failure_message(other));
                    },
                }
            },
            Phase::Reread(k) => {
                let k = *k;
                match reply {
                    StoreReply::Found => {
                        self.phase = next_after(k);
                    },
                    other => {
                        self.phase = Phase::Fail(failure_message(other));
                    },
                }
            },
            Phase::Record => match reply {
                StoreReply::Written => {
                    proof {
                        let n = self.index as int;
                        assert(self.events().take(n + 1) =~= self.events().take(n).push(
                            self.events()[n],
                        ));
                        assert(self.rows_of_first(n + 1) =~= self.rows_of_first(n).push(
                            stream_of(self.events()[n]),
                        ));
                    }
                    self.recorded = Ghost(self.recorded@.push(stream_of(self.batch.streams@[self.index as int])));
                    self.index = self.index + 1;
                    self.phase = if self.index == len {
                        Phase::Complete
                    } else {
                        Phase::Find(Kind::Artist)
                    };
                },
                other => {
                    self.phase = Phase::Fail(failure_message(other));
                },
            },
            Phase::Complete => match reply {
                StoreReply::Written => {
                    self.phase = Phase::Finished(UploadStatus::Completed);
                    self.last_status = Ghost(Some(UploadStatus::Completed));
                },
                other => {
                    self.phase = Phase::Fail(failure_message(other));
                },
            },
            Phase::Fail(_) => {
                if let StoreReply::Written = reply {
                    self.last_status = Ghost(Some(UploadStatus::Failed));
                }
                self.phase = Phase::Finished(UploadStatus::Failed);
            },
            Phase::Finished(_) | Phase::Rejected(_) => {},
        }
    }
}

} // verus!

verus! {

/// Once a batch has completed, one stream row was recorded per submitted event,
/// in submission order, each referring to its event's track uri.
pub proof fn lemma_completed_batch_recorded_every_event(g: Ingestion)
    requires
        g.wf(),
        g.phase == Phase::Finished(UploadStatus::Completed),
    ensures
        g.recorded@.len() == g.events().len(),
        forall|i: int|
            0 <= i < g.events().len() ==> #[trigger] g.recorded@[i] == stream_of(g.events()[i])
                && g.recorded@[i].track_uri == Some(g.events()[i].track.uri),
{
    assert(g.events().take(g.events().len() as int) =~= g.events());
}

/// The upload's status never goes back: after a terminal status was written no
/// later write is `Processing`, the first phase is never re-entered, and a
/// finished ingestion stays as it is.
pub proof fn lemma_status_never_reverts(g: Ingestion, reply: StoreReply, n: Ingestion)
    requires
        g.wf(),
        g.steps_to(reply, n),
    ensures
        g.phase != Phase::Begin ==> n.phase != Phase::Begin,
        g.last_status@ matches Some(s) && s.is_terminal() ==> (n.last_status@ matches Some(t)
            && t.is_terminal()),
        g.phase is Fail ==> n.phase == Phase::Finished(UploadStatus::Failed),
        g.is_done() ==> n == g,
{
}

/// Only the first state writes a `Processing` row, and a `Failed` row always
/// carries a non-empty message.
pub proof fn lemma_upload_rows_written(g: Ingestion, a: Action)
    requires
        g.wf(),
        g.asks(a),
    ensures
        a matches Action::PutUpload(u) ==> {
            &&& status_of(u) == Some(UploadStatus::Processing) <==> g.phase == Phase::Begin
            &&& status_of(u) == Some(UploadStatus::Completed) ==> g.index == g.events().len()
            &&& status_of(u) == Some(UploadStatus::Failed) ==> u.message.unwrap()@.len() > 0
        },
{
    lemma_status_texts_distinct();
}

/// A stream row is only asked for after its event's track was found or
/// inserted, and it refers to that track's uri.
pub proof fn lemma_stream_follows_track(g: Ingestion, reply: StoreReply, n: Ingestion, a: Action)
    requires
        g.wf(),
        g.steps_to(reply, n),
        n.phase == Phase::Record,
        g.phase != Phase::Record,
        n.asks(a),
    ensures
        g.phase == Phase::Find(Kind::Track) || g.phase == Phase::Create(Kind::Track)
            || g.phase == Phase::Reread(Kind::Track),
        reply == StoreReply::Found || reply == StoreReply::Written,
        n.index == g.index,
        a matches Action::InsertStream(s) && s.track_uri matches Some(t) && t@ == uri_of(
            g.event(),
            Kind::Track,
        ),
{
}

} // verus!
