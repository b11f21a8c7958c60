use samwise_audio::{
    gemini_role, service_failure, transcription_failure, DeepgramService, GroqService,
    RecordingUpdate, SettingEntry, SettingValue, TextGenerationOptions, TextGenerationStrategy,
    TranscriptionBackend, TranscriptionManager, TranscriptionStep,
};

fn entry(id: &str, value: SettingValue) -> SettingEntry {
    SettingEntry { id: id.to_string(), value }
}

fn text(s: &str) -> SettingValue {
    SettingValue::Text(s.to_string())
}

#[test]
fn local_transcription_is_refused() {
    let r = TranscriptionManager::new(&vec![entry("useCloudTranscription", SettingValue::Bool(false))]);
    assert_eq!(r.err().unwrap(), "Currently only cloud is supported");
    let r = TranscriptionManager::new(&vec![]);
    assert_eq!(r.err().unwrap(), "Currently only cloud is supported");
}

#[test]
fn deepgram_is_preferred() {
    let settings = vec![
        entry("groqApiKey", text("g-key")),
        entry("useCloudTranscription", SettingValue::Bool(true)),
        entry("deepgramApiKey", text("d-key")),
    ];
    let m = TranscriptionManager::new(&settings).ok().unwrap();
    assert_eq!(m.services.len(), 1);
    match &m.services[0] {
        TranscriptionBackend::Deepgram(d) => {
            assert_eq!(d.api_key, "d-key");
            assert_eq!(d.model, "whisper-medium");
        }
        _ => panic!("expected Deepgram"),
    }
    assert_eq!(m.services[0].name(), "Deepgram");
}

#[test]
fn groq_is_used_when_deepgram_key_is_empty() {
    let settings = vec![
        entry("useCloudTranscription", SettingValue::Bool(true)),
        entry("deepgramApiKey", text("")),
        entry("groqApiKey", text("g-key")),
    ];
    let m = TranscriptionManager::new(&settings).ok().unwrap();
    match &m.services[0] {
        TranscriptionBackend::Groq(g) => assert_eq!(g.api_key, "g-key"),
        _ => panic!("expected Groq"),
    }
}

#[test]
fn missing_keys_are_an_error() {
    let settings = vec![
        entry("useCloudTranscription", SettingValue::Bool(true)),
        entry("groqApiKey", SettingValue::Other),
    ];
    let r = TranscriptionManager::new(&settings);
    assert_eq!(r.err().unwrap(), "No API key provided for any transcription service");
}

#[test]
fn first_matching_setting_wins() {
    let settings = vec![
        entry("useCloudTranscription", SettingValue::Bool(false)),
        entry("useCloudTranscription", SettingValue::Bool(true)),
        entry("deepgramApiKey", text("d")),
    ];
    assert!(TranscriptionManager::new(&settings).is_err());
}

#[test]
fn service_constructors() {
    let d = DeepgramService::new("abc");
    assert_eq!(d.api_key, "abc");
    assert_eq!(
        d.request_url(),
        "https://api.deepgram.com/v1/listen?model=whisper-medium&smart_format=true&diarize=true&language=en"
    );
    assert_eq!(d.authorization(), "Token abc");
    assert_eq!(GroqService::new("xyz").api_key, "xyz");
}

#[test]
fn failure_messages_are_joined_by_lines() {
    let a = service_failure("Deepgram", "timeout");
    assert_eq!(a, "Service Deepgram failed: timeout");
    let b = service_failure("Groq", "401");
    assert_eq!(transcription_failure(&vec![a, b]), "Transcription failed:\nService Deepgram failed: timeout\nService Groq failed: 401");
    assert_eq!(transcription_failure(&vec![]), "Transcription failed:\n");
}

#[test]
fn strategy_names() {
    assert_eq!(TextGenerationStrategy::from_name("ollama").ok(), Some(TextGenerationStrategy::Ollama));
    assert_eq!(TextGenerationStrategy::from_name("gemini").ok(), Some(TextGenerationStrategy::GoogleGemini));
    assert_eq!(
        TextGenerationStrategy::from_name("gpt").err().unwrap(),
        "Invalid text generation strategy: gpt"
    );
}

#[test]
fn text_generation_endpoints() {
    let options = TextGenerationOptions {
        ollama_base_url: "http://localhost:11434".to_string(),
        ollama_model: "phi3.5".to_string(),
        ollama_api_key: "k".to_string(),
        google_api_key: "gemini_api_key".to_string(),
        gemini_model: "gemini-1.5-flash".to_string(),
        max_output_tokens: 1024,
    };
    assert_eq!(options.ollama_url(), "http://localhost:11434/v1/chat/completions");
    assert_eq!(options.ollama_authorization(), "Bearer k");
    assert_eq!(
        options.gemini_url(),
        "https://generativelanguage.googleapis.com/v1beta/models/gemini-1.5-flash:generateContent?key=gemini_api_key"
    );
}

#[test]
fn gemini_roles() {
    assert_eq!(gemini_role("assistant"), "model");
    assert_eq!(gemini_role("user"), "user");
    assert_eq!(gemini_role("system"), "system");
}

#[test]
fn update_statement_lists_changed_columns() {
    let u = RecordingUpdate {
        name: None,
        transcription: Some("hello".to_string()),
        summary: None,
        action_items: None,
        status: Some("Completed".to_string()),
        file_path: Some("/a.mp3".to_string()),
    };
    let st = u.statement(7);
    assert_eq!(st.sql, "UPDATE recordings SET transcription = ?, status = ?, file_path = ? WHERE id = ?");
    assert_eq!(st.values, vec!["hello".to_string(), "Completed".to_string(), "/a.mp3".to_string()]);
}

#[test]
fn update_statement_with_one_column() {
    let u = RecordingUpdate {
        name: None,
        transcription: None,
        summary: None,
        action_items: None,
        status: Some("Processing".to_string()),
        file_path: None,
    };
    assert_eq!(u.statement(1).sql, "UPDATE recordings SET status = ? WHERE id = ?");
}

#[test]
fn services_are_tried_in_order_until_one_succeeds() {
    let two = TranscriptionManager {
        services: vec![
            TranscriptionBackend::Deepgram(DeepgramService::new("d")),
            TranscriptionBackend::Groq(GroqService::new("g")),
        ],
    };
    assert_eq!(two.first_step(), TranscriptionStep::Try(0));
    assert_eq!(two.after_attempt(0, false), TranscriptionStep::Try(1));
    assert_eq!(two.after_attempt(1, false), TranscriptionStep::Failed);
    assert_eq!(two.after_attempt(0, true), TranscriptionStep::Done);
    let none = TranscriptionManager { services: vec![] };
    assert_eq!(none.first_step(), TranscriptionStep::Failed);
}
