use vstd::prelude::*;

verus! {

/// The value of one user setting, as far as service selection reads it.
#[derive(Clone, Debug)]
pub enum SettingValue {
    Bool(bool),
    Text(String),
    /// Any other kind of value.
    Other,
}

/// One user setting: its identifier and its value.
#[derive(Clone, Debug)]
pub struct SettingEntry {
    pub id: String,
    pub value: SettingValue,
}

/// The value of the first setting of `settings` whose identifier is `id`.
pub open spec fn lookup(settings: Seq<SettingEntry>, id: Seq<char>) -> Option<SettingValue>
    decreases settings.len(),
{
    if settings.len() == 0 {
        None
    } else if settings[0].id@ == id {
        Some(settings[0].value)
    } else {
        lookup(settings.drop_first(), id)
    }
}

/// The setting `id` is the flag `true`.
pub open spec fn flag_set(settings: Seq<SettingEntry>, id: Seq<char>) -> bool {
    lookup(settings, id) == Some(SettingValue::Bool(true))
}

/// The setting `id` is a non-empty text; the text.
pub open spec fn nonempty_text(settings: Seq<SettingEntry>, id: Seq<char>) -> Option<Seq<char>> {
    match lookup(settings, id) {
        Some(SettingValue::Text(t)) => if t@.len() > 0 {
            Some(t@)
        } else {
            None
        },
        _ => None,
    }
}

fn find_setting<'a>(settings: &'a Vec<SettingEntry>, id: &String) -> (r: Option<&'a SettingValue>)
    ensures
        r matches Some(v) ==> lookup(settings@, id@) == Some(*v),
        r is None ==> lookup(settings@, id@) is None,
{
    let mut i: usize = 0;
    assert(settings@.skip(0) =~= settings@);
    while i < settings.len()
        invariant
            i <= settings@.len(),
            lookup(settings@, id@) == lookup(settings@.skip(i as int), id@),
        decreases settings@.len() - i,
    {
        let entry = &settings[i];
        if entry.id == *id {
            return Some(&entry.value);
        }
        assert(settings@.skip(i as int).drop_first() =~= settings@.skip(i + 1));
        i = i + 1;
    }
    None
}

fn setting_flag(settings: &Vec<SettingEntry>, id: &str) -> (r: bool)
    ensures
        r == flag_set(settings@, id@),
{
    let key = String::from_str(id);
    match find_setting(settings, &key) {
        Some(SettingValue::Bool(b)) => *b,
        _ => false,
    }
}

fn setting_text(settings: &Vec<SettingEntry>, id: &str) -> (r: Option<String>)
    ensures
        r matches Some(t) ==> nonempty_text(settings@, id@) == Some(t@),
        r is None ==> nonempty_text(settings@, id@) is None,
{
    let key = String::from_str(id);
    match find_setting(settings, &key) {
        Some(SettingValue::Text(t)) => {
            if t.as_str().unicode_len() > 0 {
                Some(t.clone())
            } else {
                None
            }
        },
        _ => None,
    }
}

/// The cloud transcription service with the Whisper model.
pub struct DeepgramService {
    pub api_key: String,
    pub model: String,
}

impl DeepgramService {
    pub fn new(api_key: &str) -> (r: DeepgramService)
        ensures
            r.api_key@ == api_key@,
            r.model@ == "whisper-medium"@,
    {
        DeepgramService {
            api_key: String::from_str(api_key),
            model: String::from_str("whisper-medium"),
        }
    }

    /// The endpoint that the audio is posted to.
    pub fn request_url(&self) -> (r: String)
        ensures
            r@ == "https://api.deepgram.com/v1/listen?model="@ + self.model@
                + "&smart_format=true&diarize=true&language=en"@,
    {
        let mut s = String::from_str("https://api.deepgram.com/v1/listen?model=");
        s.append(self.model.as_str());
        s.append("&smart_format=true&diarize=true&language=en");
        s
    }

    /// The value of the authorization header.
    pub fn authorization(&self) -> (r: String)
        ensures
            r@ == "Token "@ + self.api_key@,
    {
        let mut s = String::from_str("Token ");
        s.append(self.api_key.as_str());
        s
    }
}

/// The Groq transcription service.
pub struct GroqService {
    pub api_key: String,
}

impl GroqService {
    pub fn new(api_key: &str) -> (r: GroqService)
        ensures
            r.api_key@ == api_key@,
    {
        GroqService { api_key: String::from_str(api_key) }
    }
}

/// A transcription service that a manager may call.
pub enum TranscriptionBackend {
    Deepgram(DeepgramService),
    Groq(GroqService),
}

impl TranscriptionBackend {
    /// The service's name in error messages.
    pub fn name(&self) -> (r: String)
        ensures
            self is Deepgram ==> r@ == "Deepgram"@,
            self is Groq ==> r@ == "Groq"@,
    {
        match self {
            TranscriptionBackend::Deepgram(_) => String::from_str("Deepgram"),
            TranscriptionBackend::Groq(_) => String::from_str("Groq"),
        }
    }
}

/// The transcription services of a user, tried in order.
pub struct TranscriptionManager {
    pub services: Vec<TranscriptionBackend>,
}

pub open spec fn use_cloud_id() -> Seq<char> {
    "useCloudTranscription"@
}

pub open spec fn deepgram_key_id() -> Seq<char> {
    "deepgramApiKey"@
}

pub open spec fn groq_key_id() -> Seq<char> {
    "groqApiKey"@
}

/// What service selection yields, in terms of plain values.
pub enum Selection {
    /// One Deepgram service with this key.
    Deepgram(Seq<char>),
    /// One Groq service with this key.
    Groq(Seq<char>),
    /// No manager; this error message.
    Refused(Seq<char>),
    /// A manager of any other shape.
    Unexpected,
}

/// The selection that the settings call for.
pub open spec fn expected_selection(settings: Seq<SettingEntry>) -> Selection {
    if !flag_set(settings, use_cloud_id()) {
        Selection::Refused("Currently only cloud is supported"@)
    } else {
        match nonempty_text(settings, deepgram_key_id()) {
            Some(k) => Selection::Deepgram(k),
            None => match nonempty_text(settings, groq_key_id()) {
                Some(k) => Selection::Groq(k),
                None => Selection::Refused("No API key provided for any transcription service"@),
            },
        }
    }
}

/// The selection that a manager, or the error, stands for.
pub open spec fn selection_of(r: &Result<TranscriptionManager, String>) -> Selection {
    match r {
        Err(e) => Selection::Refused(e@),
        Ok(m) => if m.services@.len() == 1 {
            match m.services@[0] {
                TranscriptionBackend::Deepgram(d) => if d.model@ == "whisper-medium"@ {
                    Selection::Deepgram(d.api_key@)
                } else {
                    Selection::Unexpected
                },
                TranscriptionBackend::Groq(g) => Selection::Groq(g.api_key@),
            }
        } else {
            Selection::Unexpected
        },
    }
}

impl TranscriptionManager {
    /// Picks the services from the user's transcription settings: with cloud
    /// transcription on, Deepgram when its key is set, else Groq when its key
    /// is set; an empty key counts as unset.
    pub fn new(settings: &Vec<SettingEntry>) -> (r: Result<TranscriptionManager, String>)
        ensures
            selection_of(&r) == expected_selection(settings@),
    {
        if !setting_flag(settings, "useCloudTranscription") {
            return Err(String::from_str("Currently only cloud is supported"));
        }
        let mut services: Vec<TranscriptionBackend> = Vec::new();
        match setting_text(settings, "deepgramApiKey") {
            Some(key) => {
                services.push(TranscriptionBackend::Deepgram(DeepgramService::new(key.as_str())));
            },
            None => match setting_text(settings, "groqApiKey") {
                Some(key) => {
                    services.push(TranscriptionBackend::Groq(GroqService::new(key.as_str())));
                },
                None => {
                    return Err(
                        String::from_str("No API key provided for any transcription service"),
                    );
                },
            },
        }
        Ok(TranscriptionManager { services })
    }
}

/// What to do next while transcribing.
#[derive(Clone, Copy, Debug, PartialEq, Eq, Structural)]
pub enum TranscriptionStep {
    /// Call the service at this position.
    Try(usize),
    /// A service returned a transcript.
    Done,
    /// Every service failed.
    Failed,
}

impl TranscriptionManager {
    /// The first step: the first service, or failure when there is none.
    pub fn first_step(&self) -> (r: TranscriptionStep)
        ensures
            self.services@.len() > 0 ==> r == TranscriptionStep::Try(0),
            self.services@.len() == 0 ==> r == TranscriptionStep::Failed,
    {
        if self.services.len() > 0 {
            TranscriptionStep::Try(0)
        } else {
            TranscriptionStep::Failed
        }
    }

    /// The step after the service at `tried` succeeded or failed: done on
    /// success, else the next service in order, else failure.
    pub fn after_attempt(&self, tried: usize, succeeded: bool) -> (r: TranscriptionStep)
        requires
            tried < self.services@.len(),
        ensures
            succeeded ==> r == TranscriptionStep::Done,
            !succeeded && tried + 1 < self.services@.len() ==> r == TranscriptionStep::Try(
                (tried + 1) as usize,
            ),
            !succeeded && tried + 1 == self.services@.len() ==> r == TranscriptionStep::Failed,
    {
        if succeeded {
            TranscriptionStep::Done
        } else if tried < self.services.len() - 1 {
            TranscriptionStep::Try(tried + 1)
        } else {
            TranscriptionStep::Failed
        }
    }
}

/// The message of one failed service.
pub fn service_failure(name: &str, error: &str) -> (r: String)
    ensures
        r@ == "Service "@ + name@ + " failed: "@ + error@,
{
    let mut s = String::from_str("Service ");
    s.append(name);
    s.append(" failed: ");
    s.append(error);
    s
}

/// `lines` joined by line breaks.
pub open spec fn joined(lines: Seq<Seq<char>>) -> Seq<char>
    decreases lines.len(),
{
    if lines.len() == 0 {
        Seq::empty()
    } else if lines.len() == 1 {
        lines[0]
    } else {
        joined(lines.drop_last()) + "\n"@ + lines.last()
    }
}

/// The error of a transcription that every service failed: a heading line,
/// then one line per failure.
pub fn transcription_failure(messages: &Vec<String>) -> (r: String)
    ensures
        r@ == "Transcription failed:\n"@ + joined(Seq::new(messages@.len(), |i: int| messages@[i]@)),
{
    let ghost lines = Seq::new(messages@.len(), |i: int| messages@[i]@);
    let mut s = String::from_str("Transcription failed:\n");
    let ghost head = s@;
    let mut i: usize = 0;
    while i < messages.len()
        invariant
            i <= messages@.len(),
            lines == Seq::new(messages@.len(), |i: int| messages@[i]@),
            s@ == head + joined(lines.take(i as int)),
        decreases messages@.len() - i,
    {
        if i > 0 {
            s.append("\n");
        }
        s.append(messages[i].as_str());
        proof {
            let next = lines.take(i + 1);
            assert(next.drop_last() =~= lines.take(i as int));
            assert(next.last() == messages@[i as int]@);
            if i == 0 {
                assert(joined(next) == next[0]);
                assert(joined(lines.take(0)) =~= Seq::<char>::empty());
            }
        }
        assert(s@ =~= head + joined(lines.take(i + 1)));
        i = i + 1;
    }
    assert(lines.take(i as int) =~= lines);
    s
}

} // verus!
