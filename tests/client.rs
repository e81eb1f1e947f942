use voxmix::client::{check_status, is_success, Endpoint, Resolution, VoicevoxClient};
use voxmix::error::VoxmixError;
use voxmix::types::{AudioQuery, Speaker, SpeakerStyle};

fn metan() -> Vec<Speaker> {
    vec![Speaker {
        name: "四国めたん".to_string(),
        speaker_uuid: "7ffcb7ce-00ec-4bdc-82cd-45a8889e43ff".to_string(),
        styles: vec![
            SpeakerStyle { name: "ノーマル".to_string(), id: 2 },
            SpeakerStyle { name: "あまあま".to_string(), id: 0 },
        ],
    }]
}

fn plain_query() -> AudioQuery {
    AudioQuery {
        accent_phrases: vec![],
        speed_scale: 1.0f32.to_bits(),
        pitch_scale: 1.0f32.to_bits(),
        intonation_scale: 1.0f32.to_bits(),
        volume_scale: 1.0f32.to_bits(),
        pre_phoneme_length: 0.1f32.to_bits(),
        post_phoneme_length: 0.1f32.to_bits(),
        output_sampling_rate: 24000,
        output_stereo: false,
        pause_length: None,
        pause_length_scale: 1.0f32.to_bits(),
        kana: "".to_string(),
    }
}

#[test]
fn test_client_creation() {
    let client = VoicevoxClient::new("localhost", 50021);
    assert!(client.is_ok());
}

#[test]
fn test_modify_audio_query() {
    let client = VoicevoxClient::new("localhost", 50021).unwrap();

    let audio_query = plain_query();

    // the engine's pitch is an offset: (1.2 - 1.0) * 0.15
    let pitch_offset = (1.2f32 - 1.0) * 0.15;
    let modified = client
        .modify_audio_query(audio_query, 1.5f32.to_bits(), pitch_offset.to_bits(), 0.8f32.to_bits())
        .unwrap();

    assert_eq!(f32::from_bits(modified.speed_scale), 1.5);
    assert!((f32::from_bits(modified.pitch_scale) - 0.03).abs() < 0.001);
    assert_eq!(f32::from_bits(modified.volume_scale), 0.8);
}

#[test]
fn modify_keeps_every_other_field() {
    let client = VoicevoxClient::new("localhost", 50021).unwrap();
    let mut query = plain_query();
    query.kana = "コンニチワ'".to_string();
    query.pause_length = Some(0.5f32.to_bits());
    let before = query.clone();
    let modified = client
        .modify_audio_query(query, 1.5f32.to_bits(), 0.0f32.to_bits(), 0.8f32.to_bits())
        .unwrap();
    assert_eq!(modified.kana, before.kana);
    assert_eq!(modified.accent_phrases, before.accent_phrases);
    assert_eq!(modified.intonation_scale, before.intonation_scale);
    assert_eq!(modified.pre_phoneme_length, before.pre_phoneme_length);
    assert_eq!(modified.post_phoneme_length, before.post_phoneme_length);
    assert_eq!(modified.output_sampling_rate, 24000);
    assert_eq!(modified.output_stereo, false);
    assert_eq!(modified.pause_length, Some(0.5f32.to_bits()));
    assert_eq!(modified.pause_length_scale, before.pause_length_scale);
    assert_eq!(modified.pitch_scale, 0.0f32.to_bits());
}

#[test]
fn base_url_and_endpoint_urls() {
    let client = VoicevoxClient::new("localhost", 50021).unwrap();
    assert_eq!(client.base_url(), "http://localhost:50021");
    assert_eq!(client.url(Endpoint::Speakers), "http://localhost:50021/speakers");
    assert_eq!(client.url(Endpoint::AudioQuery), "http://localhost:50021/audio_query");
    assert_eq!(client.url(Endpoint::Synthesis), "http://localhost:50021/synthesis");
    let other = VoicevoxClient::new("127.0.0.1", 0).unwrap();
    assert_eq!(other.base_url(), "http://127.0.0.1:0");
}

#[test]
fn numeric_speaker_needs_no_list() {
    let client = VoicevoxClient::new("localhost", 50021).unwrap();
    assert!(client.get_speakers().is_none());
    assert_eq!(client.resolve_speaker("3"), Ok(Resolution::Id(3)));
    assert_eq!(client.resolve_speaker("+7"), Ok(Resolution::Id(7)));
    assert_eq!(client.resolve_speaker("四国めたん"), Ok(Resolution::NeedSpeakers));
}

#[test]
fn speaker_list_is_cached_once() {
    let mut client = VoicevoxClient::new("localhost", 50021).unwrap();
    client.store_speakers(metan());
    assert_eq!(client.get_speakers().unwrap().len(), 1);
    client.store_speakers(vec![]);
    assert_eq!(client.get_speakers().unwrap().len(), 1);
    assert_eq!(client.resolve_speaker("四国めたん"), Ok(Resolution::Id(2)));
    assert_eq!(client.resolve_speaker("四国めたん（あまあま）"), Ok(Resolution::Id(0)));
    assert_eq!(
        client.resolve_speaker("ずんだもん"),
        Err(VoxmixError::SpeakerNotFound("ずんだもん".to_string()))
    );
}

#[test]
fn status_checks() {
    assert!(is_success(200));
    assert!(is_success(299));
    assert!(!is_success(199));
    assert!(!is_success(300));
    assert_eq!(check_status(Endpoint::Speakers, 200), Ok(()));
    assert_eq!(
        check_status(Endpoint::Speakers, 404),
        Err(VoxmixError::VoicevoxApi("Failed to fetch speakers: 404".to_string()))
    );
    assert_eq!(
        check_status(Endpoint::AudioQuery, 422),
        Err(VoxmixError::VoicevoxApi("Failed to create audio query: 422".to_string()))
    );
    assert_eq!(
        check_status(Endpoint::Synthesis, 500),
        Err(VoxmixError::VoicevoxApi("Failed to synthesize audio: 500".to_string()))
    );
}

#[test]
fn request_parameters() {
    let client = VoicevoxClient::new("localhost", 50021).unwrap();
    let req = client.audio_query_request("こんにちは", 3);
    assert_eq!(req.text, "こんにちは");
    assert_eq!(req.speaker, 3);
    let syn = client.synthesis_request(plain_query(), 8);
    assert_eq!(syn.speaker, 8);
    assert_eq!(syn.audio_query, plain_query());
}
