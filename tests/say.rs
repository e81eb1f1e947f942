use voxmix::client::VoicevoxClient;
use voxmix::error::VoxmixError;
use voxmix::say::{not_positive, SayAction, SayCommand, SayEvent, SayStage};
use voxmix::types::{Speaker, SpeakerStyle};

fn command(text: &str, speed: f32, pitch: f32, volume: f32, speaker: &str) -> SayCommand {
    SayCommand {
        text: text.to_string(),
        speaker: speaker.to_string(),
        output: "out.wav".to_string(),
        speed: speed.to_bits(),
        pitch: pitch.to_bits(),
        volume: volume.to_bits(),
        host: "127.0.0.1".to_string(),
        port: 50021,
    }
}

fn invalid(m: &str) -> Result<(), VoxmixError> {
    Err(VoxmixError::InvalidParameter(m.to_string()))
}

#[test]
fn validation_messages() {
    assert_eq!(command("", 1.0, 1.0, 1.0, "1").validate_parameters(), invalid("Text cannot be empty"));
    assert_eq!(command("a", 0.0, 1.0, 1.0, "1").validate_parameters(), invalid("Speed must be greater than 0"));
    assert_eq!(command("a", 1.0, -0.5, 1.0, "1").validate_parameters(), invalid("Pitch must be greater than 0"));
    assert_eq!(command("a", 1.0, 1.0, -0.0, "1").validate_parameters(), invalid("Volume must be greater than 0"));
    assert_eq!(command("a", 1.0, 1.0, 1.0, "1").validate_parameters(), Ok(()));
}

#[test]
fn validation_order() {
    assert_eq!(command("", 0.0, 0.0, 0.0, "1").validate_parameters(), invalid("Text cannot be empty"));
    assert_eq!(command("a", -1.0, 0.0, 0.0, "1").validate_parameters(), invalid("Speed must be greater than 0"));
    assert_eq!(command("a", 2.0, 0.0, 0.0, "1").validate_parameters(), invalid("Pitch must be greater than 0"));
}

#[test]
fn not_positive_follows_float_comparison() {
    for x in [0.0f32, -0.0, -1.0, 1.0, 1e-40, -1e-40, f32::INFINITY, f32::NEG_INFINITY, f32::NAN, -f32::NAN, f32::MAX, f32::MIN] {
        assert_eq!(not_positive(x.to_bits()), x <= 0.0, "{x}");
    }
}

#[test]
fn run_with_numeric_speaker() {
    let cmd = command("こんにちは", 1.0, 1.0, 1.0, "3");
    let client = VoicevoxClient::new("127.0.0.1", 50021).unwrap();
    let (stage, action) = cmd.advance(&client, SayStage::Start, SayEvent::Begin);
    assert_eq!(action, SayAction::CreateAudioQuery(3));
    let (stage, action) = cmd.advance(&client, stage, SayEvent::Reply(200));
    assert_eq!(action, SayAction::Synthesize(3));
    let (stage, action) = cmd.advance(&client, stage, SayEvent::Reply(200));
    assert_eq!(action, SayAction::SaveAudio);
    let (stage, action) = cmd.advance(&client, stage, SayEvent::Saved);
    assert_eq!(action, SayAction::Finish);
    assert_eq!(stage, SayStage::Finished);
}

#[test]
fn run_with_named_speaker_fetches_list() {
    let cmd = command("こんにちは", 1.0, 1.0, 1.0, "四国めたん（あまあま）");
    let mut client = VoicevoxClient::new("127.0.0.1", 50021).unwrap();
    let (stage, action) = cmd.advance(&client, SayStage::Start, SayEvent::Begin);
    assert_eq!(action, SayAction::FetchSpeakers);
    client.store_speakers(vec![Speaker {
        name: "四国めたん".to_string(),
        speaker_uuid: "u".to_string(),
        styles: vec![
            SpeakerStyle { name: "ノーマル".to_string(), id: 2 },
            SpeakerStyle { name: "あまあま".to_string(), id: 0 },
        ],
    }]);
    let (_, action) = cmd.advance(&client, stage, SayEvent::Reply(200));
    assert_eq!(action, SayAction::CreateAudioQuery(0));
}

#[test]
fn failed_status_never_saves() {
    let cmd = command("こんにちは", 1.0, 1.0, 1.0, "3");
    let client = VoicevoxClient::new("127.0.0.1", 50021).unwrap();
    let cases = [
        (SayStage::AwaitSpeakers, 503, "Failed to fetch speakers: 503"),
        (SayStage::AwaitQuery(3), 422, "Failed to create audio query: 422"),
        (SayStage::AwaitAudio(3), 500, "Failed to synthesize audio: 500"),
    ];
    for (stage, status, message) in cases {
        let (next, action) = cmd.advance(&client, stage, SayEvent::Reply(status));
        assert_eq!(next, SayStage::Failed);
        assert_eq!(action, SayAction::Fail(VoxmixError::VoicevoxApi(message.to_string())));
    }
}

#[test]
fn invalid_parameters_fail_before_any_call() {
    let cmd = command("", 1.0, 1.0, 1.0, "3");
    let client = VoicevoxClient::new("127.0.0.1", 50021).unwrap();
    let (stage, action) = cmd.advance(&client, SayStage::Start, SayEvent::Begin);
    assert_eq!(stage, SayStage::Failed);
    assert_eq!(action, SayAction::Fail(VoxmixError::InvalidParameter("Text cannot be empty".to_string())));
}

#[test]
fn unknown_speaker_fails_after_fetch() {
    let cmd = command("a", 1.0, 1.0, 1.0, "nobody");
    let mut client = VoicevoxClient::new("127.0.0.1", 50021).unwrap();
    client.store_speakers(vec![]);
    let (stage, action) = cmd.advance(&client, SayStage::Start, SayEvent::Begin);
    assert_eq!(stage, SayStage::Failed);
    assert_eq!(action, SayAction::Fail(VoxmixError::SpeakerNotFound("nobody".to_string())));
}

#[test]
fn mismatched_event_is_ignored() {
    let cmd = command("a", 1.0, 1.0, 1.0, "1");
    let client = VoicevoxClient::new("127.0.0.1", 50021).unwrap();
    assert_eq!(cmd.advance(&client, SayStage::AwaitSave, SayEvent::Reply(200)), (SayStage::AwaitSave, SayAction::Ignore));
    assert_eq!(cmd.advance(&client, SayStage::Finished, SayEvent::Begin), (SayStage::Finished, SayAction::Ignore));
}
