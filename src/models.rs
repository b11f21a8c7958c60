use vstd::prelude::*;

verus! {

/// A recording as stored by the metadata store.
#[derive(Clone, Debug)]
pub struct Recording {
    pub id: Option<i64>,
    pub user_id: i64,
    pub name: String,
    pub transcription: Option<String>,
    pub summary: Option<String>,
    pub action_items: Option<String>,
    pub status: String,
    pub created_at: String,
    pub file_path: Option<String>,
}

/// A user setting as stored by the metadata store.
#[derive(Clone, Debug)]
pub struct Setting {
    pub id: Option<i64>,
    pub user_id: i64,
    pub setting_type: String,
    pub value: String,
    pub title: String,
}

/// A user as stored by the metadata store.
#[derive(Clone, Debug)]
pub struct User {
    pub id: Option<i64>,
    pub created_at: Option<String>,
    pub name: String,
}

/// Where and how text is generated.
#[derive(Clone, Debug)]
pub struct TextGenerationOptions {
    pub ollama_base_url: String,
    pub ollama_model: String,
    pub ollama_api_key: String,
    pub google_api_key: String,
    pub gemini_model: String,
    pub max_output_tokens: i32,
}

/// The text generation service to use.
#[derive(Clone, Copy, Debug, PartialEq, Eq, Structural)]
pub enum TextGenerationStrategy {
    Ollama,
    GoogleGemini,
}

impl TextGenerationStrategy {
    /// Reads a strategy name: `ollama` or `gemini`.
    pub fn from_name(name: &str) -> (r: Result<TextGenerationStrategy, String>)
        ensures
            name@ == "ollama"@ ==> r == Ok::<TextGenerationStrategy, String>(
                TextGenerationStrategy::Ollama,
            ),
            name@ == "gemini"@ ==> r == Ok::<TextGenerationStrategy, String>(
                TextGenerationStrategy::GoogleGemini,
            ),
            name@ != "ollama"@ && name@ != "gemini"@ ==> (r matches Err(e) && e@
                == "Invalid text generation strategy: "@ + name@),
    {
        proof {
            reveal_strlit("ollama");
            reveal_strlit("gemini");
            assert("gemini"@[0] != "ollama"@[0]);
        }
        let given = String::from_str(name);
        if given == String::from_str("ollama") {
            Ok(TextGenerationStrategy::Ollama)
        } else if given == String::from_str("gemini") {
            Ok(TextGenerationStrategy::GoogleGemini)
        } else {
            let mut e = String::from_str("Invalid text generation strategy: ");
            e.append(name);
            Err(e)
        }
    }
}

impl TextGenerationOptions {
    /// The chat completion endpoint of the Ollama server.
    pub fn ollama_url(&self) -> (r: String)
        ensures
            r@ == self.ollama_base_url@ + "/v1/chat/completions"@,
    {
        let mut s = self.ollama_base_url.clone();
        s.append("/v1/chat/completions");
        s
    }

    /// The value of the authorization header sent to Ollama.
    pub fn ollama_authorization(&self) -> (r: String)
        ensures
            r@ == "Bearer "@ + self.ollama_api_key@,
    {
        let mut s = String::from_str("Bearer ");
        s.append(self.ollama_api_key.as_str());
        s
    }

    /// The content generation endpoint of the configured Gemini model.
    pub fn gemini_url(&self) -> (r: String)
        ensures
            r@ == "https://generativelanguage.googleapis.com/v1beta/models/"@ + self.gemini_model@
                + ":generateContent?key="@ + self.google_api_key@,
    {
        let mut s = String::from_str("https://generativelanguage.googleapis.com/v1beta/models/");
        s.append(self.gemini_model.as_str());
        s.append(":generateContent?key=");
        s.append(self.google_api_key.as_str());
        s
    }
}

/// The role that Gemini expects for a chat role: `assistant` becomes `model`,
/// any other role is kept.
pub fn gemini_role(role: &str) -> (r: String)
    ensures
        role@ == "assistant"@ ==> r@ == "model"@,
        role@ != "assistant"@ ==> r@ == role@,
{
    let given = String::from_str(role);
    if given == String::from_str("assistant") {
        String::from_str("model")
    } else {
        given
    }
}

} // verus!
