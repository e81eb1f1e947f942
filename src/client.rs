//! The synthesis client: the engine's address, the speaker cache, and the
//! decisions taken around each engine call.
use vstd::prelude::*;
use vstd::string::StringExecFns;
use crate::decimal::{decimal_string, decimal_text, parsed_u32};
use crate::error::VoxmixError;
use crate::resolve::{find_speaker_id, resolved_id};
use crate::types::{AudioQuery, AudioQueryRequest, Speaker, SynthesisRequest};

verus! {

/// The engine's base URL for a host and a port.
pub open spec fn base_url_text(host: Seq<char>, port: u16) -> Seq<char> {
    "http://"@ + host + ":"@ + decimal_text(port as nat)
}

/// Whether an HTTP status reports success (the 2xx range).
pub open spec fn status_ok(status: u16) -> bool {
    200 <= status && status <= 299
}

/// The engine's endpoints.
#[derive(Debug, Clone, Copy, PartialEq, Eq, Structural)]
pub enum Endpoint {
    Speakers,
    AudioQuery,
    Synthesis,
}

impl Endpoint {
    /// The path of the endpoint under the base URL.
    pub open spec fn path_text(self) -> Seq<char> {
        match self {
            Endpoint::Speakers => "/speakers"@,
            Endpoint::AudioQuery => "/audio_query"@,
            Endpoint::Synthesis => "/synthesis"@,
        }
    }

    /// What a call of the endpoint does, as error messages name it.
    pub open spec fn action_text(self) -> Seq<char> {
        match self {
            Endpoint::Speakers => "fetch speakers"@,
            Endpoint::AudioQuery => "create audio query"@,
            Endpoint::Synthesis => "synthesize audio"@,
        }
    }

    pub fn path(&self) -> (r: &'static str)
        ensures
            r@ == self.path_text(),
    {
        match self {
            Endpoint::Speakers => "/speakers",
            Endpoint::AudioQuery => "/audio_query",
            Endpoint::Synthesis => "/synthesis",
        }
    }

    pub fn action(&self) -> (r: &'static str)
        ensures
            r@ == self.action_text(),
    {
        match self {
            Endpoint::Speakers => "fetch speakers",
            Endpoint::AudioQuery => "create audio query",
            Endpoint::Synthesis => "synthesize audio",
        }
    }
}

/// The message of an engine failure: the action, then the status code.
pub open spec fn api_failure_text(endpoint: Endpoint, status: u16) -> Seq<char> {
    "Failed to "@ + endpoint.action_text() + ": "@ + decimal_text(status as nat)
}

/// Whether an HTTP status reports success.
pub fn is_success(status: u16) -> (r: bool)
    ensures
        r == status_ok(status),
{
    200 <= status && status <= 299
}

/// Judges the status of an engine reply: a success status passes, any other
/// is a `VoicevoxApi` error that names the action and carries the status.
pub fn check_status(endpoint: Endpoint, status: u16) -> (r: Result<(), VoxmixError>)
    ensures
        status_ok(status) <==> r is Ok,
        !status_ok(status) ==> (r matches Err(VoxmixError::VoicevoxApi(m)) && m@
            == api_failure_text(endpoint, status)),
{
    if is_success(status) {
        Ok(())
    } else {
        let m = String::from_str("Failed to ").concat(endpoint.action()).concat(": ").concat(
            decimal_string(status as u32).as_str(),
        );
        Err(VoxmixError::VoicevoxApi(m))
    }
}

/// The outcome of resolving a speaker with what the client holds.
#[derive(Debug, Clone, Copy, PartialEq, Eq, Structural)]
pub enum Resolution {
    /// The style id to synthesize with.
    Id(u32),
    /// The name needs the speaker list, which has not been fetched yet.
    NeedSpeakers,
}

/// A client of one engine; it fetches the speaker list at most once.
pub struct VoicevoxClient {
    base_url: String,
    speakers_cache: Option<Vec<Speaker>>,
}

impl VoicevoxClient {
    /// The engine's base URL.
    pub closed spec fn base_url_view(&self) -> Seq<char> {
        self.base_url@
    }

    /// The cached speaker list, if it has been fetched.
    pub closed spec fn cache_view(&self) -> Option<Seq<Speaker>> {
        match self.speakers_cache {
            Some(v) => Some(v@),
            None => None,
        }
    }

    /// A client of the engine at `http://{host}:{port}`, with no speakers cached.
    pub fn new(host: &str, port: u16) -> (r: Result<Self, VoxmixError>)
        ensures
            r matches Ok(c) && c.base_url_view() == base_url_text(host@, port) && c.cache_view() is None,
    {
        let base_url = String::from_str("http://").concat(host).concat(":").concat(
            decimal_string(port as u32).as_str(),
        );
        Ok(VoicevoxClient { base_url, speakers_cache: None })
    }

    /// The engine's base URL.
    pub fn base_url(&self) -> (r: &str)
        ensures
            r@ == self.base_url_view(),
    {
        self.base_url.as_str()
    }

    /// The full URL of an endpoint.
    pub fn url(&self, endpoint: Endpoint) -> (r: String)
        ensures
            r@ == self.base_url_view() + endpoint.path_text(),
    {
        String::from_str(self.base_url.as_str()).concat(endpoint.path())
    }

    /// The cached speaker list; `None` until it has been fetched.
    pub fn get_speakers(&self) -> (r: Option<&Vec<Speaker>>)
        ensures
            r matches Some(v) ==> self.cache_view() == Some(v@),
            r is None ==> self.cache_view() is None,
    {
        match &self.speakers_cache {
            Some(v) => Some(v),
            None => None,
        }
    }

    /// Caches a fetched speaker list. A list already cached stays: the list
    /// is taken once per client.
    pub fn store_speakers(&mut self, speakers: Vec<Speaker>)
        ensures
            final(self).base_url_view() == old(self).base_url_view(),
            old(self).cache_view() is None ==> final(self).cache_view() == Some(speakers@),
            old(self).cache_view() is Some ==> final(self).cache_view() == old(self).cache_view(),
    {
        if self.speakers_cache.is_none() {
            self.speakers_cache = Some(speakers);
        }
    }

    /// Resolves a speaker with what the client holds. A decimal id is
    /// returned without the speaker list; a name is looked up in the cached
    /// list, or answered with `NeedSpeakers` while none is cached. A name that
    /// matches no speaker is `SpeakerNotFound`, carrying the name.
    pub fn resolve_speaker(&self, speaker_name: &str) -> (r: Result<Resolution, VoxmixError>)
        ensures
            parsed_u32(speaker_name@) matches Some(id) ==> r == Ok::<Resolution, VoxmixError>(
                Resolution::Id(id),
            ),
            parsed_u32(speaker_name@) is None && self.cache_view() is None ==> r == Ok::<
                Resolution,
                VoxmixError,
            >(Resolution::NeedSpeakers),
            self.cache_view() matches Some(s) ==> (resolved_id(s, speaker_name@) matches Some(id)
                ==> r == Ok::<Resolution, VoxmixError>(Resolution::Id(id))),
            self.cache_view() matches Some(s) ==> (resolved_id(s, speaker_name@) is None ==> (r matches Err(
                VoxmixError::SpeakerNotFound(m),
            ) && m@ == speaker_name@)),
    {
        if let Some(id) = crate::decimal::parse_u32(speaker_name) {
            return Ok(Resolution::Id(id));
        }
        match &self.speakers_cache {
            None => Ok(Resolution::NeedSpeakers),
            Some(speakers) => match find_speaker_id(speakers, speaker_name) {
                Some(id) => Ok(Resolution::Id(id)),
                None => Err(VoxmixError::SpeakerNotFound(String::from_str(speaker_name))),
            },
        }
    }

    /// Sets the speed scale, pitch offset and volume scale of a query, each
    /// given as an `f32` bit pattern; every other field is kept as it was.
    pub fn modify_audio_query(
        &self,
        audio_query: AudioQuery,
        speed: u32,
        pitch_offset: u32,
        volume: u32,
    ) -> (r: Result<AudioQuery, VoxmixError>)
        ensures
            r == Ok::<AudioQuery, VoxmixError>(
                AudioQuery {
                    speed_scale: speed,
                    pitch_scale: pitch_offset,
                    volume_scale: volume,
                    ..audio_query
                },
            ),
    {
        let mut q = audio_query;
        q.speed_scale = speed;
        q.pitch_scale = pitch_offset;
        q.volume_scale = volume;
        Ok(q)
    }

    /// The parameters of the audio-query call for a text and a style id.
    pub fn audio_query_request(&self, text: &str, speaker_id: u32) -> (r: AudioQueryRequest)
        ensures
            r.text@ == text@,
            r.speaker == speaker_id,
    {
        AudioQueryRequest { text: String::from_str(text), speaker: speaker_id }
    }

    /// The parameters and body of the synthesis call.
    pub fn synthesis_request(&self, audio_query: AudioQuery, speaker_id: u32) -> (r: SynthesisRequest)
        ensures
            r.audio_query == audio_query,
            r.speaker == speaker_id,
    {
        SynthesisRequest { audio_query, speaker: speaker_id }
    }
}

} // verus!
