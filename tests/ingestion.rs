use std::collections::HashMap;
use std::str::FromStr;

use bigdecimal::BigDecimal;
use chrono::{NaiveDate, NaiveDateTime};
use music_insights::ingest::{Action, Ingestion, Kind, Phase, StoreReply};
use music_insights::models::{
    map_stream_data_to_upload, upload_row, Album, Artist, Stream, StreamData, Track, Upload,
    UploadStatus, UploadableStream, UploadableTrack,
};

const ID: &str = "67e55044-10b1-426f-9247-bb680e5fe0c8";
const ID_VALUE: u128 = 0x67e5504410b1426f9247bb680e5fe0c8;

fn at(h: u32) -> NaiveDateTime {
    NaiveDate::from_ymd_opt(2024, 3, 1).unwrap().and_hms_opt(h, 0, 0).unwrap()
}

fn event(user: &str, track: &str, album: &str, artist: &str, artist_name: &str) -> UploadableStream {
    UploadableStream {
        username: user.to_string(),
        time_streamed: at(1),
        stream_length_ms: BigDecimal::from_str("183000.25").unwrap(),
        track: UploadableTrack {
            uri: track.to_string(),
            name: Some(format!("name of {}", track)),
            album: Album {
                uri: album.to_string(),
                name: Some(format!("name of {}", album)),
                image_urls: Some(vec![Some("http://img/1".to_string()), None]),
            },
            artist: Artist { uri: artist.to_string(), name: Some(artist_name.to_string()) },
        },
    }
}

fn batch(id: &str, events: Vec<UploadableStream>) -> StreamData {
    StreamData {
        upload_id: id.to_string(),
        username: "listener".to_string(),
        first_stream: at(1),
        last_stream: at(2),
        number_of_streams: events.len() as i32,
        streams: events,
    }
}

fn copy_upload(u: &Upload) -> Upload {
    Upload {
        upload_id: u.upload_id,
        username: u.username.clone(),
        first_stream: u.first_stream,
        last_stream: u.last_stream,
        number_of_streams: u.number_of_streams,
        status: u.status.clone(),
        message: u.message.clone(),
    }
}

/// A store in memory; `outage` names the operation numbers (counted from 0)
/// at which it is unreachable.
#[derive(Default)]
struct Store {
    artists: HashMap<String, Artist>,
    albums: HashMap<String, Album>,
    tracks: HashMap<String, Track>,
    streams: Vec<Stream>,
    uploads: HashMap<u128, Upload>,
    status_log: Vec<String>,
    ops: usize,
    outage: Vec<usize>,
}

impl Store {
    fn perform(&mut self, a: Action<'_>) -> StoreReply {
        let op = self.ops;
        self.ops += 1;
        if self.outage.contains(&op) {
            return StoreReply::Unavailable("connection refused".to_string());
        }
        let look = |b: bool| if b { StoreReply::Found } else { StoreReply::Missing };
        match a {
            Action::PutUpload(u) => {
                self.status_log.push(u.status.clone().unwrap());
                self.uploads.insert(u.upload_id, u);
                StoreReply::Written
            }
            Action::FindArtist(uri) => look(self.artists.contains_key(uri)),
            Action::FindAlbum(uri) => look(self.albums.contains_key(uri)),
            Action::FindTrack(uri) => look(self.tracks.contains_key(uri)),
            Action::InsertArtist(r) => {
                if self.artists.contains_key(&r.uri) {
                    return StoreReply::Conflict;
                }
                let row = Artist { uri: r.uri.clone(), name: r.name.clone() };
                self.artists.insert(r.uri.clone(), row);
                StoreReply::Written
            }
            Action::InsertAlbum(r) => {
                if self.albums.contains_key(&r.uri) {
                    return StoreReply::Conflict;
                }
                let row = Album { uri: r.uri.clone(), name: r.name.clone(), image_urls: r.image_urls.clone() };
                self.albums.insert(r.uri.clone(), row);
                StoreReply::Written
            }
            Action::InsertTrack(t) => {
                if self.tracks.contains_key(&t.uri) {
                    return StoreReply::Conflict;
                }
                self.tracks.insert(t.uri.clone(), t);
                StoreReply::Written
            }
            Action::InsertStream(s) => {
                self.streams.push(s);
                StoreReply::Written
            }
            Action::Stop => StoreReply::Written,
        }
    }

    fn step(&mut self, g: &mut Ingestion) {
        let reply = self.perform(g.action());
        g.advance(reply);
    }

    fn run(&mut self, g: &mut Ingestion) {
        while !g.is_finished() {
            self.step(g);
        }
    }

    fn status(&self, id: u128) -> Option<String> {
        self.uploads.get(&id).and_then(|u| u.status.clone())
    }
}

#[test]
fn status_texts() {
    assert_eq!(UploadStatus::Processing.to_string(), "Processing");
    assert_eq!(UploadStatus::Failed.to_string(), "Failed");
    assert_eq!(UploadStatus::Completed.to_string(), "Completed");
}

#[test]
fn upload_row_of_a_batch() {
    let data = batch(ID, vec![event("u", "t1", "al1", "a1", "A")]);
    let u = map_stream_data_to_upload(&data, UploadStatus::Processing).unwrap();
    assert_eq!(u.upload_id, ID_VALUE);
    assert_eq!(u.username, Some("listener".to_string()));
    assert_eq!(u.first_stream, Some(at(1)));
    assert_eq!(u.last_stream, Some(at(2)));
    assert_eq!(u.number_of_streams, Some(1));
    assert_eq!(u.status, Some("Processing".to_string()));
    assert_eq!(u.message, Some(String::new()));
    let f = upload_row(&data, 7, UploadStatus::Failed, "disk full");
    assert_eq!(f.upload_id, 7);
    assert_eq!(f.status, Some("Failed".to_string()));
    assert_eq!(f.message, Some("disk full".to_string()));
}

#[test]
fn upload_id_that_is_no_uuid() {
    let data = batch("not-a-uuid", vec![]);
    assert!(map_stream_data_to_upload(&data, UploadStatus::Completed).is_none());
    assert!(Ingestion::start(batch("", vec![])).is_none());
}

#[test]
fn rows_of_an_event() {
    let e = event("u", "t1", "al1", "a1", "A");
    let t = e.track.to_track();
    assert_eq!(t.uri, "t1");
    assert_eq!(t.name, Some("name of t1".to_string()));
    assert_eq!(t.album_uri, Some("al1".to_string()));
    assert_eq!(t.artist_uri, Some("a1".to_string()));
    let s = e.to_stream();
    assert_eq!(s.username, Some("u".to_string()));
    assert_eq!(s.time_streamed, Some(at(1)));
    assert_eq!(s.stream_length_ms, Some(BigDecimal::from_str("183000.25").unwrap()));
    assert_eq!(s.track_uri, Some("t1".to_string()));
}

#[test]
fn scenario_a_new_entities_then_reuse() {
    let mut store = Store::default();
    let mut g = Ingestion::start(batch(ID, vec![event("u", "t1", "al1", "a1", "A")])).unwrap();
    assert_eq!(g.upload_id, ID_VALUE);
    store.run(&mut g);
    assert_eq!(g.phase, Phase::Finished(UploadStatus::Completed));
    assert_eq!(store.status(ID_VALUE), Some("Completed".to_string()));
    assert_eq!(store.artists.len(), 1);
    assert_eq!(store.albums.len(), 1);
    assert_eq!(store.tracks["t1"].album_uri, Some("al1".to_string()));
    assert_eq!(store.tracks["t1"].artist_uri, Some("a1".to_string()));

    let other = "11111111-2222-3333-4444-555555555555";
    let mut h = Ingestion::start(batch(other, vec![event("v", "t9", "al9", "a1", "Renamed")])).unwrap();
    store.run(&mut h);
    assert_eq!(h.phase, Phase::Finished(UploadStatus::Completed));
    assert_eq!(store.artists.len(), 1);
    assert_eq!(store.artists["a1"].name, Some("A".to_string()));
    assert_eq!(store.streams.len(), 2);
}

#[test]
fn resolving_the_same_uri_twice_keeps_one_row() {
    let mut store = Store::default();
    let events = vec![event("u", "t1", "al1", "a1", "A"), event("u", "t1", "al1", "a1", "A")];
    let mut g = Ingestion::start(batch(ID, events)).unwrap();
    store.run(&mut g);
    assert_eq!(g.phase, Phase::Finished(UploadStatus::Completed));
    assert_eq!(store.artists.len(), 1);
    assert_eq!(store.albums.len(), 1);
    assert_eq!(store.tracks.len(), 1);
    assert_eq!(store.streams.len(), 2);
}

#[test]
fn every_event_gets_its_stream_row() {
    let mut store = Store::default();
    let events = vec![
        event("u", "t1", "al1", "a1", "A"),
        event("u", "t2", "al1", "a1", "A"),
        event("w", "t1", "al1", "a1", "A"),
    ];
    let mut g = Ingestion::start(batch(ID, events)).unwrap();
    store.run(&mut g);
    assert_eq!(g.phase, Phase::Finished(UploadStatus::Completed));
    let uris: Vec<_> = store.streams.iter().map(|s| s.track_uri.clone().unwrap()).collect();
    assert_eq!(uris, vec!["t1", "t2", "t1"]);
    assert_eq!(store.streams[2].username, Some("w".to_string()));
    assert_eq!(store.tracks.len(), 2);
}

#[test]
fn scenario_b_outage_after_first_event() {
    let mut store = Store::default();
    // operations: put, 3 finds, 3 inserts, stream: 8 for event one; the 9th fails
    store.outage = vec![8];
    let events = vec![event("u", "t1", "al1", "a1", "A"), event("u", "t2", "al2", "a2", "B")];
    let mut g = Ingestion::start(batch(ID, events)).unwrap();
    store.run(&mut g);
    assert_eq!(g.phase, Phase::Finished(UploadStatus::Failed));
    assert_eq!(store.streams.len(), 1);
    assert_eq!(store.streams[0].track_uri, Some("t1".to_string()));
    assert!(store.tracks.contains_key("t1"));
    assert!(!store.artists.contains_key("a2"));
    let u = &store.uploads[&ID_VALUE];
    assert_eq!(u.status, Some("Failed".to_string()));
    assert_eq!(u.message, Some("connection refused".to_string()));
}

#[test]
fn scenario_c_concurrent_batches_share_a_new_track() {
    let mut store = Store::default();
    let other = "11111111-2222-3333-4444-555555555555";
    let mut g = Ingestion::start(batch(ID, vec![event("u", "t2", "al2", "a2", "G")])).unwrap();
    let mut h = Ingestion::start(batch(other, vec![event("v", "t2", "al2", "a2", "H")])).unwrap();
    let mut saw_reread = false;
    while !(g.is_finished() && h.is_finished()) {
        if !g.is_finished() {
            store.step(&mut g);
        }
        if !h.is_finished() {
            store.step(&mut h);
            saw_reread |= matches!(h.phase, Phase::Reread(_));
        }
    }
    assert!(saw_reread);
    assert_eq!(g.phase, Phase::Finished(UploadStatus::Completed));
    assert_eq!(h.phase, Phase::Finished(UploadStatus::Completed));
    assert_eq!(store.tracks.len(), 1);
    assert_eq!(store.artists.len(), 1);
    assert_eq!(store.artists["a2"].name, Some("G".to_string()));
    assert_eq!(store.streams.len(), 2);
    assert!(store.streams.iter().all(|s| s.track_uri == Some("t2".to_string())));
}

#[test]
fn racing_creators_persist_exactly_one_name() {
    let mut store = Store::default();
    let other = "11111111-2222-3333-4444-555555555555";
    let mut g = Ingestion::start(batch(ID, vec![event("u", "t3", "al3", "a3", "First")])).unwrap();
    let mut h = Ingestion::start(batch(other, vec![event("v", "t3", "al3", "a3", "Second")])).unwrap();
    store.step(&mut g);
    store.step(&mut h);
    // both look the artist up and miss
    store.step(&mut g);
    store.step(&mut h);
    assert_eq!(g.phase, Phase::Create(Kind::Artist));
    assert_eq!(h.phase, Phase::Create(Kind::Artist));
    store.step(&mut h);
    store.step(&mut g);
    assert_eq!(h.phase, Phase::Find(Kind::Album));
    assert_eq!(g.phase, Phase::Reread(Kind::Artist));
    store.step(&mut g);
    assert_eq!(g.phase, Phase::Find(Kind::Album));
    store.run(&mut g);
    store.run(&mut h);
    assert_eq!(store.artists.len(), 1);
    assert_eq!(store.artists["a3"].name, Some("Second".to_string()));
}

#[test]
fn status_lifecycle() {
    let mut store = Store::default();
    let mut g = Ingestion::start(batch(ID, vec![event("u", "t1", "al1", "a1", "A")])).unwrap();
    assert_eq!(g.phase, Phase::Begin);
    store.step(&mut g);
    assert_eq!(store.status(ID_VALUE), Some("Processing".to_string()));
    assert_eq!(g.phase, Phase::Find(Kind::Artist));
    store.run(&mut g);
    assert_eq!(store.status_log, vec!["Processing", "Completed"]);
    let before = store.ops;
    store.step(&mut g);
    assert_eq!(g.phase, Phase::Finished(UploadStatus::Completed));
    assert_eq!(store.ops, before + 1);
    assert_eq!(store.status_log.len(), 2);
}

#[test]
fn failed_batch_has_a_message_even_when_the_store_gives_none() {
    let mut g = Ingestion::start(batch(ID, vec![event("u", "t1", "al1", "a1", "A")])).unwrap();
    g.advance(StoreReply::Written);
    g.advance(StoreReply::Unavailable(String::new()));
    assert_eq!(g.phase, Phase::Fail("storage unavailable".to_string()));
    match g.action() {
        Action::PutUpload(u) => {
            assert_eq!(u.status, Some("Failed".to_string()));
            assert_eq!(u.message, Some("storage unavailable".to_string()));
        }
        other => panic!("unexpected action {:?}", other),
    }
    g.advance(StoreReply::Written);
    assert_eq!(g.phase, Phase::Finished(UploadStatus::Failed));
    assert!(matches!(g.action(), Action::Stop));
}

#[test]
fn unexpected_reply_fails_the_batch() {
    let mut g = Ingestion::start(batch(ID, vec![event("u", "t1", "al1", "a1", "A")])).unwrap();
    g.advance(StoreReply::Written);
    g.advance(StoreReply::Conflict);
    assert_eq!(g.phase, Phase::Fail("unexpected reply from storage".to_string()));
}

#[test]
fn row_missing_after_conflict_fails_the_batch() {
    let mut g = Ingestion::start(batch(ID, vec![event("u", "t1", "al1", "a1", "A")])).unwrap();
    g.advance(StoreReply::Written);
    g.advance(StoreReply::Missing);
    g.advance(StoreReply::Conflict);
    assert_eq!(g.phase, Phase::Reread(Kind::Artist));
    g.advance(StoreReply::Missing);
    assert_eq!(g.phase, Phase::Fail("unexpected reply from storage".to_string()));
}

#[test]
fn completion_write_failure_ends_failed() {
    let mut store = Store::default();
    store.outage = vec![1];
    let mut g = Ingestion::start(batch(ID, vec![])).unwrap();
    store.run(&mut g);
    assert_eq!(g.phase, Phase::Finished(UploadStatus::Failed));
    assert_eq!(store.status_log, vec!["Processing", "Failed"]);
}

#[test]
fn empty_batch_completes() {
    let mut store = Store::default();
    let mut g = Ingestion::start(batch(ID, vec![])).unwrap();
    store.run(&mut g);
    assert_eq!(g.phase, Phase::Finished(UploadStatus::Completed));
    assert_eq!(store.status_log, vec!["Processing", "Completed"]);
    assert!(store.streams.is_empty());
}

#[test]
fn store_down_at_submission_rejects_the_batch() {
    let mut store = Store::default();
    store.outage = vec![0];
    let mut g = Ingestion::start(batch(ID, vec![event("u", "t1", "al1", "a1", "A")])).unwrap();
    store.run(&mut g);
    assert_eq!(g.phase, Phase::Rejected("connection refused".to_string()));
    assert!(store.uploads.is_empty());
    assert!(store.streams.is_empty());
}

#[test]
fn actions_follow_the_resolution_order() {
    let g0 = Ingestion::start(batch(ID, vec![event("u", "t1", "al1", "a1", "A")])).unwrap();
    let mut g = g0;
    g.advance(StoreReply::Written);
    assert!(matches!(g.action(), Action::FindArtist("a1")));
    g.advance(StoreReply::Missing);
    match g.action() {
        Action::InsertArtist(a) => assert_eq!(a.uri, "a1"),
        other => panic!("unexpected action {:?}", other),
    }
    g.advance(StoreReply::Written);
    assert!(matches!(g.action(), Action::FindAlbum("al1")));
    g.advance(StoreReply::Found);
    assert!(matches!(g.action(), Action::FindTrack("t1")));
    g.advance(StoreReply::Missing);
    match g.action() {
        Action::InsertTrack(t) => assert_eq!(t.album_uri, Some("al1".to_string())),
        other => panic!("unexpected action {:?}", other),
    }
    g.advance(StoreReply::Written);
    match g.action() {
        Action::InsertStream(s) => assert_eq!(s.track_uri, Some("t1".to_string())),
        other => panic!("unexpected action {:?}", other),
    }
    g.advance(StoreReply::Written);
    assert_eq!(g.index, 1);
    assert_eq!(g.phase, Phase::Complete);
}
