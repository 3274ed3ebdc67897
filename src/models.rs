//! The persisted rows and the decoded batch.
use vstd::prelude::*;
use vstd::string::StringExecFns;
use crate::values::{parse_uuid, uuid_value_of};

verus! {

/// Lifecycle of an upload: `Processing` first, then one of the two terminal states.
#[derive(Debug, Clone, Copy, PartialEq, Eq, Structural)]
pub enum UploadStatus {
    Processing,
    Failed,
    Completed,
}

impl UploadStatus {
    /// The text stored for this status.
    pub open spec fn text(self) -> Seq<char> {
        match self {
            UploadStatus::Processing => "Processing"@,
            UploadStatus::Failed => "Failed"@,
            UploadStatus::Completed => "Completed"@,
        }
    }

    pub open spec fn is_terminal(self) -> bool {
        self != UploadStatus::Processing
    }

    /// The text stored for this status.
    pub fn to_string(&self) -> (r: String)
        ensures
            r@ == self.text(),
    {
        match self {
            UploadStatus::Processing => String::from_str("Processing"),
            UploadStatus::Failed => String::from_str("Failed"),
            UploadStatus::Completed => String::from_str("Completed"),
        }
    }
}

/// A catalog album, keyed by `uri`.
#[derive(Debug, PartialEq)]
pub struct Album {
    pub uri: String,
    pub name: Option<String>,
    pub image_urls: Option<Vec<Option<String>>>,
}

/// A catalog artist, keyed by `uri`.
#[derive(Debug, PartialEq)]
pub struct Artist {
    pub uri: String,
    pub name: Option<String>,
}

/// One playback fact.
#[derive(Debug, PartialEq)]
pub struct Stream {
    pub username: Option<String>,
    pub time_streamed: Option<chrono::NaiveDateTime>,
    pub stream_length_ms: Option<bigdecimal::BigDecimal>,
    pub track_uri: Option<String>,
}

/// A catalog track, keyed by `uri`, referring to its album and artist by uri.
#[derive(Debug, PartialEq)]
pub struct Track {
    pub uri: String,
    pub name: Option<String>,
    pub album_uri: Option<String>,
    pub artist_uri: Option<String>,
}

/// The tracked state of one submitted batch.
#[derive(Debug, PartialEq)]
pub struct Upload {
    pub upload_id: u128,
    pub username: Option<String>,
    pub first_stream: Option<chrono::NaiveDateTime>,
    pub last_stream: Option<chrono::NaiveDateTime>,
    pub number_of_streams: Option<i32>,
    pub status: Option<String>,
    pub message: Option<String>,
}

/// A decoded batch as the client sent it.
#[derive(Debug, PartialEq)]
pub struct StreamData {
    pub upload_id: String,
    pub username: String,
    pub streams: Vec<UploadableStream>,
    pub first_stream: chrono::NaiveDateTime,
    pub last_stream: chrono::NaiveDateTime,
    pub number_of_streams: i32,
}

/// One playback event of a batch.
#[derive(Debug, PartialEq)]
pub struct UploadableStream {
    pub username: String,
    pub time_streamed: chrono::NaiveDateTime,
    pub stream_length_ms: bigdecimal::BigDecimal,
    pub track: UploadableTrack,
}

/// The track an event refers to, with its album and artist.
#[derive(Debug, PartialEq)]
pub struct UploadableTrack {
    pub uri: String,
    pub name: Option<String>,
    pub album: Album,
    pub artist: Artist,
}

/// The track row that an event's track descriptor gives: album and artist by uri.
pub open spec fn track_of(t: UploadableTrack) -> Track {
    Track {
        uri: t.uri,
        name: t.name,
        album_uri: Some(t.album.uri),
        artist_uri: Some(t.artist.uri),
    }
}

/// The stream row that an event gives.
pub open spec fn stream_of(e: UploadableStream) -> Stream {
    Stream {
        username: Some(e.username),
        time_streamed: Some(e.time_streamed),
        stream_length_ms: Some(e.stream_length_ms),
        track_uri: Some(e.track.uri),
    }
}

/// `u` is the upload row of batch `d` under id `id`, in `status`, with `message`.
pub open spec fn is_upload_row(
    u: Upload,
    d: StreamData,
    id: u128,
    status: UploadStatus,
    message: Seq<char>,
) -> bool {
    &&& u.upload_id == id
    &&& u.username == Some(d.username)
    &&& u.first_stream == Some(d.first_stream)
    &&& u.last_stream == Some(d.last_stream)
    &&& u.number_of_streams == Some(d.number_of_streams)
    &&& u.status.is_some() && u.status.unwrap()@ == status.text()
    &&& u.message.is_some() && u.message.unwrap()@ == message
}

/// The status that an upload row holds, if its text is one of the three.
pub open spec fn status_of(u: Upload) -> Option<UploadStatus> {
    if u.status.is_none() {
        None
    } else if u.status.unwrap()@ == UploadStatus::Processing.text() {
        Some(UploadStatus::Processing)
    } else if u.status.unwrap()@ == UploadStatus::Failed.text() {
        Some(UploadStatus::Failed)
    } else if u.status.unwrap()@ == UploadStatus::Completed.text() {
        Some(UploadStatus::Completed)
    } else {
        None
    }
}

/// The three status texts are pairwise different.
pub proof fn lemma_status_texts_distinct()
    ensures
        UploadStatus::Processing.text() != UploadStatus::Failed.text(),
        UploadStatus::Processing.text() != UploadStatus::Completed.text(),
        UploadStatus::Failed.text() != UploadStatus::Completed.text(),
{
    reveal_strlit("Processing");
    reveal_strlit("Failed");
    reveal_strlit("Completed");
    assert(UploadStatus::Processing.text().len() == 10);
    assert(UploadStatus::Failed.text().len() == 6);
    assert(UploadStatus::Completed.text().len() == 9);
}

pub(crate) fn copy_text(o: &Option<String>) -> (r: Option<String>)
    ensures
        r == *o,
{
    match o {
        Some(s) => Some(s.clone()),
        None => None,
    }
}

impl UploadableTrack {
    /// The track row for this descriptor.
    pub fn to_track(&self) -> (r: Track)
        ensures
            r == track_of(*self),
    {
        Track {
            uri: self.uri.clone(),
            name: copy_text(&self.name),
            album_uri: Some(self.album.uri.clone()),
            artist_uri: Some(self.artist.uri.clone()),
        }
    }
}

impl UploadableStream {
    /// The stream row for this event, referring to the event's track uri.
    pub fn to_stream(&self) -> (r: Stream)
        ensures
            r == stream_of(*self),
    {
        Stream {
            username: Some(self.username.clone()),
            time_streamed: Some(self.time_streamed),
            stream_length_ms: Some(self.stream_length_ms.clone()),
            track_uri: Some(self.track.uri.clone()),
        }
    }
}

/// The upload row of a batch under an already parsed id.
pub fn upload_row(stream_data: &StreamData, upload_id: u128, status: UploadStatus, message: &str) -> (r: Upload)
    ensures
        is_upload_row(r, *stream_data, upload_id, status, message@),
        status_of(r) == Some(status),
{
    proof {
        lemma_status_texts_distinct();
    }
    Upload {
        upload_id,
        username: Some(stream_data.username.clone()),
        first_stream: Some(stream_data.first_stream),
        last_stream: Some(stream_data.last_stream),
        number_of_streams: Some(stream_data.number_of_streams),
        status: Some(status.to_string()),
        message: Some(String::from_str(message)),
    }
}

/// The upload row of a batch in `status` with an empty message; `None` when the
/// batch's upload id is no uuid.
pub fn map_stream_data_to_upload(stream_data: &StreamData, status: UploadStatus) -> (r: Option<Upload>)
    ensures
        r.is_none() <==> uuid_value_of(stream_data.upload_id@).is_none(),
        r.is_some() ==> is_upload_row(
            r.unwrap(),
            *stream_data,
            uuid_value_of(stream_data.upload_id@).unwrap(),
            status,
            Seq::empty(),
        ),
{
    match parse_uuid(stream_data.upload_id.as_str()) {
        Some(id) => {
            let r = upload_row(stream_data, id, status, "");
            proof {
                reveal_strlit("");
                assert(""@ =~= Seq::<char>::empty());
            }
            Some(r)
        },
        None => None,
    }
}

} // verus!
