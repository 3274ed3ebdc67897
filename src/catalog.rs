//! A model of the store that the ingestion talks to, and what resolution does
//! against it: at most one row per uri, the first write wins, and an insert
//! that loses a race is recovered by reading the row back.
use vstd::prelude::*;
use crate::ingest::{after, uri_of, Action, Ingestion, Kind, Phase, StoreReply};
use crate::models::{
    lemma_status_texts_distinct, status_of, Album, Artist, Stream, Track, Upload, UploadableStream,
};

verus! {

/// The five relations: catalog rows keyed by uri, stream rows in insertion
/// order, upload rows keyed by id.
pub ghost struct Db {
    pub artists: Map<Seq<char>, Artist>,
    pub albums: Map<Seq<char>, Album>,
    pub tracks: Map<Seq<char>, Track>,
    pub streams: Seq<Stream>,
    pub uploads: Map<u128, Upload>,
}

/// The uris of the catalog rows of kind `k`.
pub open spec fn uris(db: Db, k: Kind) -> Set<Seq<char>> {
    match k {
        Kind::Artist => db.artists.dom(),
        Kind::Album => db.albums.dom(),
        Kind::Track => db.tracks.dom(),
    }
}

/// The name stored on the catalog row of kind `k` with `uri`.
pub open spec fn stored_name(db: Db, k: Kind, uri: Seq<char>) -> Option<String> {
    match k {
        Kind::Artist => db.artists[uri].name,
        Kind::Album => db.albums[uri].name,
        Kind::Track => db.tracks[uri].name,
    }
}

/// The name that event `e` gives the entity of kind `k`.
pub open spec fn offered_name(e: UploadableStream, k: Kind) -> Option<String> {
    match k {
        Kind::Artist => e.track.artist.name,
        Kind::Album => e.track.album.name,
        Kind::Track => e.track.name,
    }
}

/// How a reachable store answers `a`: lookups by key, inserts only where the key
/// is absent, stream rows appended, upload rows replaced by key.
pub open spec fn answer(db: Db, a: Action) -> (Db, StoreReply) {
    match a {
        Action::FindArtist(s) => (db, if db.artists.contains_key(s@) {
            StoreReply::Found
        } else {
            StoreReply::Missing
        }),
        Action::FindAlbum(s) => (db, if db.albums.contains_key(s@) {
            StoreReply::Found
        } else {
            StoreReply::Missing
        }),
        Action::FindTrack(s) => (db, if db.tracks.contains_key(s@) {
            StoreReply::Found
        } else {
            StoreReply::Missing
        }),
        Action::InsertArtist(r) => if db.artists.contains_key(r.uri@) {
            (db, StoreReply::Conflict)
        } else {
            (Db { artists: db.artists.insert(r.uri@, *r), ..db }, StoreReply::Written)
        },
        Action::InsertAlbum(r) => if db.albums.contains_key(r.uri@) {
            (db, StoreReply::Conflict)
        } else {
            (Db { albums: db.albums.insert(r.uri@, *r), ..db }, StoreReply::Written)
        },
        Action::InsertTrack(t) => if db.tracks.contains_key(t.uri@) {
            (db, StoreReply::Conflict)
        } else {
            (Db { tracks: db.tracks.insert(t.uri@, t), ..db }, StoreReply::Written)
        },
        Action::InsertStream(s) => (Db { streams: db.streams.push(s), ..db }, StoreReply::Written),
        Action::PutUpload(u) => (
            Db { uploads: db.uploads.insert(u.upload_id, u), ..db },
            StoreReply::Written,
        ),
        Action::Stop => (db, StoreReply::Written),
    }
}

/// Ingestion `g` asks for `a`, the store goes from `db` to `db2`, and `g`
/// becomes `n` on the store's reply.
pub open spec fn serves(db: Db, g: Ingestion, a: Action, db2: Db, n: Ingestion) -> bool {
    &&& g.asks(a)
    &&& answer(db, a).0 == db2
    &&& g.steps_to(answer(db, a).1, n)
}

/// The store is unchanged but for the catalog relation of kind `k`.
pub open spec fn same_but(db: Db, db2: Db, k: Kind) -> bool {
    &&& k != Kind::Artist ==> db2.artists == db.artists
    &&& k != Kind::Album ==> db2.albums == db.albums
    &&& k != Kind::Track ==> db2.tracks == db.tracks
    &&& db2.streams == db.streams
    &&& db2.uploads == db.uploads
}

/// Resolving an entity whose uri is already stored reads it and writes nothing:
/// a second resolution of a uri never creates a second row.
pub proof fn lemma_resolving_stored_uri_writes_nothing(
    db: Db,
    h: Ingestion,
    a: Action,
    db2: Db,
    n: Ingestion,
    k: Kind,
)
    requires
        h.wf(),
        h.phase == Phase::Find(k),
        uris(db, k).contains(uri_of(h.event(), k)),
        serves(db, h, a, db2, n),
    ensures
        db2 == db,
        n.phase == after(k),
        n.index == h.index,
{
}

/// Resolving an entity whose uri is not stored inserts exactly one row, under
/// that uri, carrying the event's attributes, and moves on.
pub proof fn lemma_resolving_new_uri_inserts_one_row(
    db0: Db,
    g0: Ingestion,
    a0: Action,
    db1: Db,
    g1: Ingestion,
    a1: Action,
    db2: Db,
    g2: Ingestion,
    k: Kind,
)
    requires
        g0.wf(),
        g0.phase == Phase::Find(k),
        !uris(db0, k).contains(uri_of(g0.event(), k)),
        serves(db0, g0, a0, db1, g1),
        serves(db1, g1, a1, db2, g2),
    ensures
        g1.phase == Phase::Create(k),
        g2.phase == after(k),
        uris(db2, k) == uris(db0, k).insert(uri_of(g0.event(), k)),
        stored_name(db2, k, uri_of(g0.event(), k)) == offered_name(g0.event(), k),
        same_but(db0, db2, k),
{
    let e = g0.event();
    assert(g1.event() == e);
    match k {
        Kind::Artist => {
            assert(db2.artists.dom() =~= db0.artists.dom().insert(e.track.artist.uri@));
        },
        Kind::Album => {
            assert(db2.albums.dom() =~= db0.albums.dom().insert(e.track.album.uri@));
        },
        Kind::Track => {
            assert(db2.tracks.dom() =~= db0.tracks.dom().insert(e.track.uri@));
        },
    }
}

/// Two batches that introduce the same new uri at once: both look it up and
/// miss, `g` inserts first, `h`'s insert meets the key and `h` reads the row
/// back. Neither fails, exactly one row stands for the uri, and it carries the
/// name of the first writer.
pub proof fn lemma_racing_creators_share_one_row(
    db0: Db,
    g0: Ingestion,
    ga: Action,
    g1: Ingestion,
    gb: Action,
    g2: Ingestion,
    h0: Ingestion,
    ha: Action,
    h1: Ingestion,
    hb: Action,
    h2: Ingestion,
    hc: Action,
    h3: Ingestion,
    db1: Db,
    db2: Db,
    db3: Db,
    db4: Db,
    db5: Db,
    k: Kind,
)
    requires
        g0.wf(),
        h0.wf(),
        g0.phase == Phase::Find(k),
        h0.phase == Phase::Find(k),
        uri_of(g0.event(), k) == uri_of(h0.event(), k),
        !uris(db0, k).contains(uri_of(g0.event(), k)),
        serves(db0, g0, ga, db1, g1),
        serves(db1, h0, ha, db2, h1),
        serves(db2, g1, gb, db3, g2),
        serves(db3, h1, hb, db4, h2),
        serves(db4, h2, hc, db5, h3),
    ensures
        g2.phase == after(k),
        h2.phase == Phase::Reread(k),
        h3.phase == after(k),
        uris(db5, k) == uris(db0, k).insert(uri_of(g0.event(), k)),
        stored_name(db5, k, uri_of(g0.event(), k)) == offered_name(g0.event(), k),
        same_but(db0, db5, k),
{
    let e = g0.event();
    assert(g1.event() == e);
    assert(h1.event() == h0.event());
    assert(h2.event() == h0.event());
    match k {
        Kind::Artist => {
            assert(db5.artists.dom() =~= db0.artists.dom().insert(e.track.artist.uri@));
        },
        Kind::Album => {
            assert(db5.albums.dom() =~= db0.albums.dom().insert(e.track.album.uri@));
        },
        Kind::Track => {
            assert(db5.tracks.dom() =~= db0.tracks.dom().insert(e.track.uri@));
        },
    }
}

/// The stored upload row of a batch always shows the status that the batch
/// last had acknowledged: `Processing` once the submission is accepted, then
/// the terminal status.
pub proof fn lemma_stored_upload_shows_last_status(
    db: Db,
    g: Ingestion,
    a: Action,
    db2: Db,
    n: Ingestion,
)
    requires
        g.wf(),
        serves(db, g, a, db2, n),
        a is PutUpload,
    ensures
        db2.uploads.contains_key(g.upload_id),
        n.last_status@ matches Some(s) && status_of(db2.uploads[g.upload_id]) == Some(s),
{
    lemma_status_texts_distinct();
}

/// A batch writes only its own upload row: an id that no batch was submitted
/// under has no row, and a query for it finds nothing.
pub proof fn lemma_other_upload_ids_untouched(
    db: Db,
    g: Ingestion,
    a: Action,
    db2: Db,
    n: Ingestion,
    id: u128,
)
    requires
        g.wf(),
        serves(db, g, a, db2, n),
        id != g.upload_id,
    ensures
        db2.uploads.contains_key(id) == db.uploads.contains_key(id),
{
}

} // verus!
