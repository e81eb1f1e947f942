//! The `say` command: parameter checks and the decisions of one run.
use vstd::prelude::*;
use vstd::string::StringExecFns;
use crate::client::{api_failure_text, check_status, status_ok, Endpoint, Resolution, VoicevoxClient};
use crate::decimal::parsed_u32;
use crate::error::VoxmixError;
use crate::resolve::resolved_id;
use crate::types::Speaker;

verus! {

/// Whether an `f32` bit pattern is a NaN.
pub open spec fn f32_is_nan(bits: u32) -> bool {
    bits % 0x8000_0000 > 0x7f80_0000
}

/// Whether the `f32` of a bit pattern compares `<= 0.0`: zero of either
/// sign, or any negative number; never a NaN.
pub open spec fn f32_not_positive(bits: u32) -> bool {
    !f32_is_nan(bits) && (bits % 0x8000_0000 == 0 || bits >= 0x8000_0000)
}

/// The message of the first check that the parameters fail, in the order
/// text, speed, pitch, volume; `None` when all pass.
pub open spec fn validation_failure(text: Seq<char>, speed: u32, pitch: u32, volume: u32) -> Option<Seq<char>> {
    if text.len() == 0 {
        Some("Text cannot be empty"@)
    } else if f32_not_positive(speed) {
        Some("Speed must be greater than 0"@)
    } else if f32_not_positive(pitch) {
        Some("Pitch must be greater than 0"@)
    } else if f32_not_positive(volume) {
        Some("Volume must be greater than 0"@)
    } else {
        None
    }
}

/// Whether the `f32` of a bit pattern compares `<= 0.0`.
pub fn not_positive(bits: u32) -> (r: bool)
    ensures
        r == f32_not_positive(bits),
{
    let magnitude = bits % 0x8000_0000;
    magnitude <= 0x7f80_0000 && (magnitude == 0 || bits >= 0x8000_0000)
}

/// One `say` invocation: the text, the speaker, where the audio goes, the
/// voice parameters as `f32` bit patterns, and the engine's address.
#[derive(Debug, Clone, PartialEq, Eq)]
pub struct SayCommand {
    pub text: String,
    pub speaker: String,
    pub output: String,
    pub speed: u32,
    pub pitch: u32,
    pub volume: u32,
    pub host: String,
    pub port: u16,
}

/// Where a run stands between engine calls.
#[derive(Debug, Clone, Copy, PartialEq, Eq, Structural)]
pub enum SayStage {
    Start,
    AwaitSpeakers,
    AwaitQuery(u32),
    AwaitAudio(u32),
    AwaitSave,
    Finished,
    Failed,
}

/// What the caller reports back: the run began, an engine call replied
/// with a status, or the audio was written.
#[derive(Debug, Clone, Copy, PartialEq, Eq, Structural)]
pub enum SayEvent {
    Begin,
    Reply(u16),
    Saved,
}

/// What the caller does next.
#[derive(Debug, Clone, PartialEq, Eq)]
pub enum SayAction {
    /// Fetch the speaker list, store it in the client, report its status.
    FetchSpeakers,
    /// Request an audio query for the text and this style id.
    CreateAudioQuery(u32),
    /// Adjust the query and request synthesis with this style id.
    Synthesize(u32),
    /// Write the synthesized audio to the output path.
    SaveAudio,
    /// The run is complete.
    Finish,
    /// The run stops with this error.
    Fail(VoxmixError),
    /// The event does not belong to the stage; nothing to do.
    Ignore,
}

/// Whether `next` is where resolving `name` with the speaker cache `cache`
/// leads: a decimal id or a found name goes on to the audio query, a name
/// without a cached list asks for the list, and a name that matches no
/// speaker fails with `SpeakerNotFound` carrying the name.
pub open spec fn resolves_to(cache: Option<Seq<Speaker>>, name: Seq<char>, next: (SayStage, SayAction)) -> bool {
    match parsed_u32(name) {
        Some(id) => next == (SayStage::AwaitQuery(id), SayAction::CreateAudioQuery(id)),
        None => match cache {
            None => next == (SayStage::AwaitSpeakers, SayAction::FetchSpeakers),
            Some(s) => match resolved_id(s, name) {
                Some(id) => next == (SayStage::AwaitQuery(id), SayAction::CreateAudioQuery(id)),
                None => next.0 == SayStage::Failed && (next.1 matches SayAction::Fail(
                    VoxmixError::SpeakerNotFound(m),
                ) && m@ == name),
            },
        },
    }
}

/// Whether a stage waits for the reply of an engine call.
pub open spec fn awaits_reply(stage: SayStage) -> bool {
    stage is AwaitSpeakers || stage is AwaitQuery || stage is AwaitAudio
}

/// The endpoint whose reply a waiting stage expects.
pub open spec fn awaited_endpoint(stage: SayStage) -> Endpoint {
    match stage {
        SayStage::AwaitSpeakers => Endpoint::Speakers,
        SayStage::AwaitQuery(_) => Endpoint::AudioQuery,
        _ => Endpoint::Synthesis,
    }
}

/// Whether `next` ends the run with the engine failure of the endpoint that
/// `stage` waits on, naming its action and carrying `status`.
pub open spec fn failed_with_status(next: (SayStage, SayAction), stage: SayStage, status: u16) -> bool {
    next.0 == SayStage::Failed && (next.1 matches SayAction::Fail(VoxmixError::VoicevoxApi(m))
        && m@ == api_failure_text(awaited_endpoint(stage), status))
}

impl SayCommand {
    /// Checks the parameters before any engine call: the text must not be
    /// empty and speed, pitch and volume must be greater than zero, checked
    /// in that order; the first failure is reported.
    pub fn validate_parameters(&self) -> (r: Result<(), VoxmixError>)
        ensures
            validation_failure(self.text@, self.speed, self.pitch, self.volume) is None <==> r is Ok,
            validation_failure(self.text@, self.speed, self.pitch, self.volume) matches Some(m)
                ==> (r matches Err(VoxmixError::InvalidParameter(e)) && e@ == m),
    {
        if self.text.as_str().is_empty() {
            return Err(VoxmixError::InvalidParameter(String::from_str("Text cannot be empty")));
        }
        if not_positive(self.speed) {
            return Err(
                VoxmixError::InvalidParameter(String::from_str("Speed must be greater than 0")),
            );
        }
        if not_positive(self.pitch) {
            return Err(
                VoxmixError::InvalidParameter(String::from_str("Pitch must be greater than 0")),
            );
        }
        if not_positive(self.volume) {
            return Err(
                VoxmixError::InvalidParameter(String::from_str("Volume must be greater than 0")),
            );
        }
        Ok(())
    }

    fn resolve_step(&self, client: &VoicevoxClient) -> (r: (SayStage, SayAction))
        ensures
            resolves_to(client.cache_view(), self.speaker@, r),
    {
        let res = client.resolve_speaker(self.speaker.as_str());
        match res {
            Ok(Resolution::Id(id)) => (SayStage::AwaitQuery(id), SayAction::CreateAudioQuery(id)),
            Ok(Resolution::NeedSpeakers) => (SayStage::AwaitSpeakers, SayAction::FetchSpeakers),
            Err(e) => (SayStage::Failed, SayAction::Fail(e)),
        }
    }

    /// Decides the next stage and action of a run from its stage and the
    /// event the caller reports. The run validates, resolves the speaker
    /// (fetching the list when a name needs it), creates the audio query,
    /// synthesizes, and only then saves; a failed check or a non-success
    /// status ends it in `Failed`.
    pub fn advance(&self, client: &VoicevoxClient, stage: SayStage, event: SayEvent) -> (r: (SayStage, SayAction))
        ensures
            event matches SayEvent::Reply(st) ==> (awaits_reply(stage) && !status_ok(st)
                ==> failed_with_status(r, stage, st)),
            r.1 is SaveAudio ==> stage is AwaitAudio && (event matches SayEvent::Reply(st)
                && status_ok(st)),
            (stage, event) matches (SayStage::Start, SayEvent::Begin) ==> (
                match validation_failure(self.text@, self.speed, self.pitch, self.volume) {
                    Some(m) => r.0 == SayStage::Failed && (r.1 matches SayAction::Fail(
                        VoxmixError::InvalidParameter(e),
                    ) && e@ == m),
                    None => resolves_to(client.cache_view(), self.speaker@, r),
                }
            ),
            (stage, event) matches (SayStage::AwaitSpeakers, SayEvent::Reply(st)) ==> (
                if status_ok(st) {
                    resolves_to(client.cache_view(), self.speaker@, r)
                } else {
                    failed_with_status(r, stage, st)
                }
            ),
            (stage, event) matches (SayStage::AwaitQuery(id), SayEvent::Reply(st)) ==> (
                if status_ok(st) {
                    r == (SayStage::AwaitAudio(id), SayAction::Synthesize(id))
                } else {
                    failed_with_status(r, stage, st)
                }
            ),
            (stage, event) matches (SayStage::AwaitAudio(id), SayEvent::Reply(st)) ==> (
                if status_ok(st) {
                    r == (SayStage::AwaitSave, SayAction::SaveAudio)
                } else {
                    failed_with_status(r, stage, st)
                }
            ),
            (stage, event) matches (SayStage::AwaitSave, SayEvent::Saved) ==> r == (
                SayStage::Finished,
                SayAction::Finish,
            ),
            !((stage, event) matches (SayStage::Start, SayEvent::Begin)
                || (stage, event) matches (SayStage::AwaitSpeakers, SayEvent::Reply(_))
                || (stage, event) matches (SayStage::AwaitQuery(_), SayEvent::Reply(_))
                || (stage, event) matches (SayStage::AwaitAudio(_), SayEvent::Reply(_))
                || (stage, event) matches (SayStage::AwaitSave, SayEvent::Saved)) ==> r == (
                stage,
                SayAction::Ignore,
            ),
    {
        match (stage, event) {
            (SayStage::Start, SayEvent::Begin) => match self.validate_parameters() {
                Err(e) => (SayStage::Failed, SayAction::Fail(e)),
                Ok(()) => self.resolve_step(client),
            },
            (SayStage::AwaitSpeakers, SayEvent::Reply(st)) => match check_status(
                Endpoint::Speakers,
                st,
            ) {
                Err(e) => (SayStage::Failed, SayAction::Fail(e)),
                Ok(()) => self.resolve_step(client),
            },
            (SayStage::AwaitQuery(id), SayEvent::Reply(st)) => match check_status(
                Endpoint::AudioQuery,
                st,
            ) {
                Err(e) => (SayStage::Failed, SayAction::Fail(e)),
                Ok(()) => (SayStage::AwaitAudio(id), SayAction::Synthesize(id)),
            },
            (SayStage::AwaitAudio(_), SayEvent::Reply(st)) => match check_status(
                Endpoint::Synthesis,
                st,
            ) {
                Err(e) => (SayStage::Failed, SayAction::Fail(e)),
                Ok(()) => (SayStage::AwaitSave, SayAction::SaveAudio),
            },
            (SayStage::AwaitSave, SayEvent::Saved) => (SayStage::Finished, SayAction::Finish),
            _ => (stage, SayAction::Ignore),
        }
    }
}

} // verus!
