//! The rules of the extension's HTTP side: where spoken audio is kept, what
//! the audio and transcription endpoints answer, and the URLs a client uses.
use vstd::prelude::*;
use crate::text::starts_with;

verus! {

/// The name of the file that holds the speech with the given id.
pub open spec fn audio_file_name_spec(id: Seq<char>) -> Seq<char> {
    "sai_"@ + id + ".mp3"@
}

/// The name of the file that holds the speech with the given id (in the
/// temporary directory).
pub fn audio_file_name(id: &str) -> (r: String)
    ensures
        r@ == audio_file_name_spec(id@),
{
    let mut r = String::from_str("sai_");
    r.append(id);
    r.append(".mp3");
    r
}

/// The body of an HTTP reply.
pub enum ReplyBody {
    Text(String),
    Bytes(Vec<u8>),
}

/// An HTTP reply: status, content type, optional content disposition, body.
pub struct HttpReply {
    pub status: u16,
    pub content_type: String,
    pub disposition: Option<String>,
    pub body: ReplyBody,
}

/// What reading a speech file gave.
pub enum AudioFile {
    /// There is no such file.
    Missing,
    /// The file's bytes.
    Read(Vec<u8>),
    /// The file exists but could not be read.
    Unreadable,
}

/// The answer to a request for the speech with the given id: the MP3 as an
/// attachment, 404 when there is none, 500 when it could not be read.
pub fn speak_reply(id: &str, file: AudioFile) -> (r: HttpReply)
    ensures
        file is Missing ==> {
            &&& r.status == 404
            &&& r.content_type@ == "text/plain"@
            &&& r.disposition is None
            &&& r.body matches ReplyBody::Text(t) && t@ == "Audio file with ID "@ + id@ + " not found"@
        },
        file matches AudioFile::Read(data) ==> {
            &&& r.status == 200
            &&& r.content_type@ == "audio/mpeg"@
            &&& r.disposition matches Some(d) && d@ == "attachment; filename=\""@ + id@ + ".mp3\""@
            &&& r.body matches ReplyBody::Bytes(b) && b@ == data@
        },
        file is Unreadable ==> {
            &&& r.status == 500
            &&& r.content_type@ == "text/plain"@
            &&& r.disposition is None
            &&& r.body matches ReplyBody::Text(t) && t@ == "Error reading audio file"@
        },
{
    match file {
        AudioFile::Missing => {
            let mut t = String::from_str("Audio file with ID ");
            t.append(id);
            t.append(" not found");
            HttpReply {
                status: 404,
                content_type: String::from_str("text/plain"),
                disposition: None,
                body: ReplyBody::Text(t),
            }
        },
        AudioFile::Read(data) => {
            let mut d = String::from_str("attachment; filename=\"");
            d.append(id);
            d.append(".mp3\"");
            HttpReply {
                status: 200,
                content_type: String::from_str("audio/mpeg"),
                disposition: Some(d),
                body: ReplyBody::Bytes(data),
            }
        },
        AudioFile::Unreadable => HttpReply {
            status: 500,
            content_type: String::from_str("text/plain"),
            disposition: None,
            body: ReplyBody::Text(String::from_str("Error reading audio file")),
        },
    }
}

/// What the transcription endpoint does with one field of a multipart upload.
#[derive(PartialEq, Eq, Structural, Clone, Copy, Debug)]
pub enum FieldAction {
    /// The extension's context is gone: fail.
    NoContext,
    /// The field is the audio: read its bytes.
    ReadAudio,
    /// Go on to the next field.
    Skip,
}

/// What the transcription endpoint does with a field of the given name.
pub fn spoke_field_action(has_context: bool, name: &str) -> (a: FieldAction)
    ensures
        !has_context ==> a == FieldAction::NoContext,
        has_context && name@ == "audio"@ ==> a == FieldAction::ReadAudio,
        has_context && name@ != "audio"@ ==> a == FieldAction::Skip,
{
    if !has_context {
        FieldAction::NoContext
    } else if crate::text::same_text(name, "audio") {
        FieldAction::ReadAudio
    } else {
        FieldAction::Skip
    }
}

/// How a transcription request ended.
pub enum SpokeOutcome {
    NoContext,
    ClientError,
    TranscriptionError,
    Transcribed(String),
    NoAudio,
}

/// The status and text that the transcription endpoint answers.
pub fn spoke_reply(outcome: SpokeOutcome) -> (r: (u16, String))
    ensures
        outcome is NoContext ==> r.0 == 500 && r.1@ == "Failed to get context"@,
        outcome is ClientError ==> r.0 == 500 && r.1@ == "Error creating client"@,
        outcome is TranscriptionError ==> r.0 == 500 && r.1@ == "Error processing audio file"@,
        outcome matches SpokeOutcome::Transcribed(t) ==> r.0 == 200 && r.1@ == t@,
        outcome is NoAudio ==> r.0 == 400 && r.1@ == "No audio file received"@,
{
    match outcome {
        SpokeOutcome::NoContext => (500, String::from_str("Failed to get context")),
        SpokeOutcome::ClientError => (500, String::from_str("Error creating client")),
        SpokeOutcome::TranscriptionError => (500, String::from_str("Error processing audio file")),
        SpokeOutcome::Transcribed(t) => (200, t),
        SpokeOutcome::NoAudio => (400, String::from_str("No audio file received")),
    }
}

/// Whether a host is given with an HTTP or HTTPS scheme.
pub open spec fn is_http_host(host: Seq<char>) -> bool {
    "http://"@.is_prefix_of(host) || "https://"@.is_prefix_of(host)
}

/// The scheme alone decides whether a host is usable: every host written
/// as `http://` or `https://` followed by anything gives a URL.
pub proof fn lemma_scheme_decides_host(rest: Seq<char>)
    ensures
        is_http_host("http://"@ + rest),
        is_http_host("https://"@ + rest),
{
    assert(("http://"@ + rest).subrange(0, "http://"@.len() as int) =~= "http://"@);
    assert(("https://"@ + rest).subrange(0, "https://"@.len() as int) =~= "https://"@);
}

/// The URL a client fetches the speech with the given id from; none when
/// the host lacks an HTTP scheme.
pub fn speak_url(host: &str, id: &str) -> (r: Option<String>)
    ensures
        is_http_host(host@) ==> (r matches Some(u) && u@ == host@ + "/speak/"@ + id@),
        !is_http_host(host@) ==> r is None,
{
    if !starts_with(host, "http://") && !starts_with(host, "https://") {
        return None;
    }
    let mut u = String::from_str(host);
    u.append("/speak/");
    u.append(id);
    Some(u)
}

/// The concatenation of a sequence of texts.
pub open spec fn joined(parts: Seq<Seq<char>>) -> Seq<char>
    decreases parts.len(),
{
    if parts.len() == 0 {
        Seq::empty()
    } else {
        joined(parts.drop_last()) + parts.last()
    }
}

/// What a local transcription says: its segments run together, or nothing
/// when they hold no text.
pub fn spoken_text(segments: &Vec<String>) -> (r: Option<String>)
    ensures
        joined(segments@.map_values(|s: String| s@)).len() == 0 ==> r is None,
        joined(segments@.map_values(|s: String| s@)).len() > 0 ==> (r matches Some(t)
            && t@ == joined(segments@.map_values(|s: String| s@))),
{
    let ghost parts = segments@.map_values(|s: String| s@);
    let mut out = String::new();
    let mut i: usize = 0;
    while i < segments.len()
        invariant
            i <= segments@.len(),
            parts == segments@.map_values(|s: String| s@),
            out@ == joined(parts.subrange(0, i as int)),
        decreases segments@.len() - i,
    {
        assert(parts.subrange(0, i + 1).drop_last() =~= parts.subrange(0, i as int));
        out.append(segments[i].as_str());
        i = i + 1;
    }
    assert(parts.subrange(0, segments@.len() as int) =~= parts);
    if out.unicode_len() == 0 {
        None
    } else {
        Some(out)
    }
}

/// How a request for speech ended.
pub enum SpeechOutcome {
    /// The audio was saved and Arma was told.
    Announced,
    /// The audio was saved but Arma could not be told.
    CallbackFailed,
    /// The service answered that it did not produce the audio.
    NotProduced,
    /// The request to the service failed.
    RequestFailed,
}

/// The result of asking for speech.
pub fn speech_result(outcome: SpeechOutcome) -> (r: Result<(), String>)
    ensures
        outcome is Announced ==> r is Ok,
        outcome is CallbackFailed ==> (r matches Err(e) && e@ == "Error sending callback data"@),
        outcome is NotProduced || outcome is RequestFailed ==> (r matches Err(e) && e@ == "Error processing audio file"@),
{
    match outcome {
        SpeechOutcome::Announced => Ok(()),
        SpeechOutcome::CallbackFailed => Err(String::from_str("Error sending callback data")),
        SpeechOutcome::NotProduced => Err(String::from_str("Error processing audio file")),
        SpeechOutcome::RequestFailed => Err(String::from_str("Error processing audio file")),
    }
}

} // verus!
