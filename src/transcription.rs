use vstd::prelude::*;

verus! {

/// Services that can turn a finished recording into text.
#[derive(Debug, Clone, Copy, PartialEq, Eq, Structural)]
pub enum TranscriptionService {
    OpenAIWhisper,
    GoogleSpeechToText,
    AzureSpeechService,
    AWSTranscribe,
    Local,
}

/// Output formats of a transcript.
#[derive(Debug, Clone, Copy, PartialEq, Eq, Structural)]
pub enum TranscriptionFormat {
    Text,
    SRT,
    VTT,
    JSON,
}

/// Settings of the transcription of finished recordings.
#[derive(Debug)]
pub struct TranscriptionConfig {
    pub service: TranscriptionService,
    pub api_key: Option<String>,
    pub language: Option<String>,
    pub output_format: TranscriptionFormat,
    pub include_timestamps: bool,
    pub include_speaker_labels: bool,
}

/// Holds the transcription settings.
#[derive(Debug)]
pub struct TranscriptionManager {
    pub config: TranscriptionConfig,
}

impl TranscriptionManager {
    pub fn new(config: TranscriptionConfig) -> (r: Self)
        ensures
            r.config == config,
    {
        TranscriptionManager { config }
    }

    /// Local service, English, plain text with timestamps, no speaker labels.
    pub fn default_config() -> (r: TranscriptionConfig)
        ensures
            r.service == TranscriptionService::Local,
            r.api_key is None,
            r.language matches Some(l) && l@ == "en"@,
            r.output_format == TranscriptionFormat::Text,
            r.include_timestamps,
            !r.include_speaker_labels,
    {
        TranscriptionConfig {
            service: TranscriptionService::Local,
            api_key: None,
            language: Some("en".to_owned()),
            output_format: TranscriptionFormat::Text,
            include_timestamps: true,
            include_speaker_labels: false,
        }
    }

    /// Every service, the local one first.
    pub fn get_available_services() -> (r: Vec<TranscriptionService>)
        ensures
            r@ == seq![
                TranscriptionService::Local,
                TranscriptionService::OpenAIWhisper,
                TranscriptionService::GoogleSpeechToText,
                TranscriptionService::AzureSpeechService,
                TranscriptionService::AWSTranscribe,
            ],
    {
        let mut v: Vec<TranscriptionService> = Vec::new();
        v.push(TranscriptionService::Local);
        v.push(TranscriptionService::OpenAIWhisper);
        v.push(TranscriptionService::GoogleSpeechToText);
        v.push(TranscriptionService::AzureSpeechService);
        v.push(TranscriptionService::AWSTranscribe);
        assert(v@ =~= seq![
            TranscriptionService::Local,
            TranscriptionService::OpenAIWhisper,
            TranscriptionService::GoogleSpeechToText,
            TranscriptionService::AzureSpeechService,
            TranscriptionService::AWSTranscribe,
        ]);
        v
    }
}

} // verus!
