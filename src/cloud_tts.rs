use vstd::prelude::*;

use crate::engine::{is_success, push_header, push_voice, HttpRequest, HttpResponse, HttpView};
use crate::text::{
    json_quote, json_string_literal, lossy_text, milli_decimal, push_milli, push_signed, push_str,
    quick_xml_escape, signed_decimal, string_of, utf8_lossy, xml_escaped,
};
use crate::types::{opt_view, voices_view, CloudProvider, TtsError, TtsRequest, TtsResult, VoiceInfo, VoiceView, LEVEL_ONE};

verus! {

#[verifier::external_type_specification]
#[verifier::external_body]
pub struct ExDecodeError(base64::DecodeError);

/// What base64's standard engine decodes a text to; none when the text is
/// not valid padded standard-alphabet base64.
pub uninterp spec fn base64_standard_decoded(s: Seq<char>) -> Option<Seq<u8>>;

/// The text of member `key` of the JSON object a body holds; none when the
/// body is not JSON, not an object, or the member is missing or not a string.
pub uninterp spec fn json_text_member(body: Seq<u8>, key: Seq<char>) -> Option<Seq<char>>;

/// Relies on `base64::engine::general_purpose::STANDARD.decode`: the bytes
/// the text encodes, or its `DecodeError`.
#[verifier::external_body]
fn decode_base64(s: &str) -> (r: Result<Vec<u8>, base64::DecodeError>)
    ensures
        match r {
            Ok(v) => base64_standard_decoded(s@) == Some(v@),
            Err(_) => base64_standard_decoded(s@) is None,
        },
{
    base64::Engine::decode(&base64::engine::general_purpose::STANDARD, s)
}

/// Relies on `serde_json::from_slice` into a `serde_json::Value`, with
/// `Value::get` and `Value::as_str` to read one string member.
#[verifier::external_body]
fn json_text_field(body: &[u8], key: &str) -> (r: Option<String>)
    ensures
        opt_view(r) == json_text_member(body@, key@),
{
    let v: serde_json::Value = match serde_json::from_slice(body) {
        Ok(v) => v,
        Err(_) => return None,
    };
    match v.get(key) {
        Some(x) => x.as_str().map(String::from),
        None => None,
    }
}

/// The remote voice engine.
pub struct CloudTtsEngine {
    provider: CloudProvider,
    api_key: String,
    voice: String,
    endpoint: Option<String>,
}

/// The remote engine's settings as text.
pub struct CloudView {
    pub provider: CloudProvider,
    pub api_key: Seq<char>,
    pub voice: Seq<char>,
    pub endpoint: Option<Seq<char>>,
}

impl View for CloudTtsEngine {
    type V = CloudView;

    closed spec fn view(&self) -> CloudView {
        CloudView {
            provider: self.provider,
            api_key: self.api_key@,
            voice: self.voice@,
            endpoint: opt_view(self.endpoint),
        }
    }
}

/// The voice a provider uses when none is configured.
pub open spec fn default_voice(p: CloudProvider) -> Seq<char> {
    match p {
        CloudProvider::OpenAI => "alloy"@,
        CloudProvider::Azure => "en-US-JennyNeural"@,
        CloudProvider::Google => "en-US-Standard-C"@,
    }
}

/// The display label of a provider's engine.
pub open spec fn provider_label(p: CloudProvider) -> Seq<char> {
    match p {
        CloudProvider::OpenAI => "OpenAI TTS"@,
        CloudProvider::Azure => "Azure TTS"@,
        CloudProvider::Google => "Google TTS"@,
    }
}

/// An American English voice.
pub open spec fn en_us(id: Seq<char>, name: Seq<char>) -> VoiceView {
    VoiceView { id, name, language: Some("en-US"@) }
}

/// The commonly used voices of each provider.
pub open spec fn provider_voices(p: CloudProvider) -> Seq<VoiceView> {
    match p {
        CloudProvider::OpenAI => seq![
            en_us("alloy"@, "Alloy"@),
            en_us("echo"@, "Echo"@),
            en_us("fable"@, "Fable"@),
            en_us("onyx"@, "Onyx"@),
            en_us("nova"@, "Nova"@),
            en_us("shimmer"@, "Shimmer"@),
        ],
        CloudProvider::Azure => seq![
            en_us("en-US-JennyNeural"@, "Jenny (US)"@),
            en_us("en-US-GuyNeural"@, "Guy (US)"@),
            en_us("en-GB-SoniaNeural"@, "Sonia (UK)"@),
            en_us("zh-CN-XiaoxiaoNeural"@, "Xiaoxiao (CN)"@),
            en_us("ja-JP-NanamiNeural"@, "Nanami (JP)"@),
        ],
        CloudProvider::Google => seq![
            en_us("en-US-Standard-C"@, "Standard C (US Female)"@),
            en_us("en-US-Standard-D"@, "Standard D (US Male)"@),
            en_us("en-US-Wavenet-C"@, "Wavenet C (US Female)"@),
            en_us("en-US-Wavenet-D"@, "Wavenet D (US Male)"@),
        ],
    }
}

/// Integer division truncated toward zero, by a positive divisor.
pub open spec fn trunc_div(a: int, d: int) -> int {
    if a >= 0 {
        a / d
    } else {
        -((-a) / d)
    }
}

/// The level in effect: the one given, else the nominal 1.0.
pub open spec fn level_in_effect(l: Option<u32>) -> int {
    match l {
        Some(v) => v as int,
        None => LEVEL_ONE as int,
    }
}

/// The voice in effect: the request's, else the engine's.
pub open spec fn voice_in_effect(req: TtsRequest, engine_voice: Seq<char>) -> Seq<char> {
    match req.voice {
        Some(v) => v@,
        None => engine_voice,
    }
}

/// The JSON body of an OpenAI speech request.
pub open spec fn openai_body(text: Seq<char>, voice: Seq<char>, rate: int) -> Seq<char> {
    "{\"model\":\"tts-1\",\"input\":"@ + json_string_literal(text) + ",\"voice\":"@ + json_string_literal(voice)
        + ",\"speed\":"@ + milli_decimal(rate) + ",\"response_format\":\"wav\"}"@
}

/// The SSML document of an Azure speech request; rate and pitch are
/// percentage offsets from the voice's own.
pub open spec fn azure_ssml(voice: Seq<char>, rate_pct: int, pitch_pct: int, text: Seq<char>) -> Seq<char> {
    "<speak version=\"1.0\" xmlns=\"http://www.w3.org/2001/10/synthesis\" xml:lang=\"en-US\"><voice name=\""@
        + xml_escaped(voice) + "\"><prosody rate=\""@ + signed_decimal(rate_pct) + "%\" pitch=\""@
        + signed_decimal(pitch_pct) + "%\">"@ + xml_escaped(text) + "</prosody></voice></speak>"@
}

/// The JSON body of a Google speech request; pitch is in thousandths of a
/// semitone.
pub open spec fn google_body(text: Seq<char>, voice: Seq<char>, rate: int, pitch: int) -> Seq<char> {
    "{\"input\":{\"text\":"@ + json_string_literal(text)
        + "},\"voice\":{\"languageCode\":\"en-US\",\"name\":"@ + json_string_literal(voice)
        + "},\"audioConfig\":{\"audioEncoding\":\"LINEAR16\",\"speakingRate\":"@ + milli_decimal(rate)
        + ",\"pitch\":"@ + milli_decimal(pitch) + ",\"sampleRateHertz\":24000}}"@
}

/// The HTTP request that synthesises `req` with the engine's settings.
/// Azure needs an endpoint: its URL is only meaningful when one is set.
pub open spec fn cloud_http(e: CloudView, req: TtsRequest) -> HttpView {
    let voice = voice_in_effect(req, e.voice);
    let rate = level_in_effect(req.rate);
    let pitch = level_in_effect(req.pitch);
    match e.provider {
        CloudProvider::OpenAI => HttpView {
            url: match e.endpoint {
                Some(u) => u,
                None => "https://api.openai.com/v1/audio/speech"@,
            },
            headers: seq![("Authorization"@, "Bearer "@ + e.api_key), ("Content-Type"@, "application/json"@)],
            body: openai_body(req.text@, voice, rate),
        },
        CloudProvider::Azure => HttpView {
            url: e.endpoint.unwrap(),
            headers: seq![
                ("Ocp-Apim-Subscription-Key"@, e.api_key),
                ("Content-Type"@, "application/ssml+xml"@),
                ("X-Microsoft-OutputFormat"@, "riff-24khz-16bit-mono-pcm"@),
            ],
            body: azure_ssml(voice, trunc_div(rate - 1000, 10), trunc_div(pitch - 1000, 20), req.text@),
        },
        CloudProvider::Google => HttpView {
            url: "https://texttospeech.googleapis.com/v1/text:synthesize?key="@ + e.api_key,
            headers: seq![("Content-Type"@, "application/json"@)],
            body: google_body(req.text@, voice, rate, (pitch - 1000) * 10),
        },
    }
}

/// The provider's name in error messages.
pub open spec fn provider_title(p: CloudProvider) -> Seq<char> {
    match p {
        CloudProvider::OpenAI => "OpenAI"@,
        CloudProvider::Azure => "Azure"@,
        CloudProvider::Google => "Google"@,
    }
}

/// The detail of a failed provider call.
pub open spec fn api_error(p: CloudProvider, status_line: Seq<char>, body: Seq<u8>) -> Seq<char> {
    provider_title(p) + " TTS API error "@ + status_line + ": "@ + utf8_lossy(body)
}

/// The audio a successful provider response carries: the body itself, or
/// for Google the base64 `audioContent` member of its JSON body.
pub open spec fn response_audio(p: CloudProvider, body: Seq<u8>) -> Option<Seq<u8>> {
    if p == CloudProvider::Google {
        match json_text_member(body, "audioContent"@) {
            Some(t) => base64_standard_decoded(t),
            None => None,
        }
    } else {
        Some(body)
    }
}

/// The detail when a successful Google response carries no audio.
pub open spec fn google_audio_error(body: Seq<u8>) -> Seq<char> {
    match json_text_member(body, "audioContent"@) {
        Some(t) => "Invalid base64 in Google TTS audioContent"@,
        None => "Missing audioContent in Google TTS response"@,
    }
}

/// The percentage-like offset of a level from the nominal 1.0, one step per
/// `d` thousandths, truncated toward zero.
fn level_offset(level: u32, d: u32) -> (r: i32)
    requires
        d >= 10,
    ensures
        r == trunc_div(level as int - 1000, d as int),
{
    if level >= 1000 {
        let a: u32 = level - 1000;
        assert(a / d <= a / 10) by (nonlinear_arith)
            requires
                d >= 10,
        ;
        (a / d) as i32
    } else {
        let a: u32 = 1000 - level;
        assert(a / d <= a / 10) by (nonlinear_arith)
            requires
                d >= 10,
        ;
        0 - ((a / d) as i32)
    }
}

/// An American English voice.
fn en_us_voice(id: &str, name: &str) -> (r: VoiceInfo)
    ensures
        r@ == en_us(id@, name@),
{
    VoiceInfo { id: string_of(id), name: string_of(name), language: Some(string_of("en-US")) }
}

impl CloudTtsEngine {
    /// An engine for a provider; without a voice the provider's default is used.
    pub fn new(provider: CloudProvider, api_key: String, voice: Option<String>, endpoint: Option<String>) -> (r: Self)
        ensures
            r@.provider == provider,
            r@.api_key == api_key@,
            r@.voice == match voice {
                Some(v) => v@,
                None => default_voice(provider),
            },
            r@.endpoint == opt_view(endpoint),
    {
        let voice = match voice {
            Some(v) => v,
            None => match provider {
                CloudProvider::OpenAI => string_of("alloy"),
                CloudProvider::Azure => string_of("en-US-JennyNeural"),
                CloudProvider::Google => string_of("en-US-Standard-C"),
            },
        };
        CloudTtsEngine { provider, api_key, voice, endpoint }
    }

    /// The provider.
    pub fn provider(&self) -> (r: CloudProvider)
        ensures
            r == self@.provider,
    {
        self.provider
    }

    /// The engine's voice.
    pub fn voice(&self) -> (r: &String)
        ensures
            r@ == self@.voice,
    {
        &self.voice
    }

    /// The configured endpoint, if any.
    pub fn endpoint(&self) -> (r: Option<&String>)
        ensures
            match r {
                Some(u) => self@.endpoint == Some(u@),
                None => self@.endpoint is None,
            },
    {
        match &self.endpoint {
            Some(u) => Some(u),
            None => None,
        }
    }

    /// Display label.
    pub fn name(&self) -> (r: &'static str)
        ensures
            r@ == provider_label(self@.provider),
    {
        match self.provider {
            CloudProvider::OpenAI => "OpenAI TTS",
            CloudProvider::Azure => "Azure TTS",
            CloudProvider::Google => "Google TTS",
        }
    }

    /// Usable when a credential is set.
    pub fn is_available(&self) -> (r: bool)
        ensures
            r == (self@.api_key.len() > 0),
    {
        !self.api_key.as_str().is_empty()
    }

    /// The commonly used voices of the provider.
    pub fn list_voices(&self) -> (r: Vec<VoiceInfo>)
        ensures
            voices_view(r@) == provider_voices(self@.provider),
    {
        let mut v: Vec<VoiceInfo> = Vec::new();
        match self.provider {
            CloudProvider::OpenAI => {
                push_voice(&mut v, en_us_voice("alloy", "Alloy"));
                push_voice(&mut v, en_us_voice("echo", "Echo"));
                push_voice(&mut v, en_us_voice("fable", "Fable"));
                push_voice(&mut v, en_us_voice("onyx", "Onyx"));
                push_voice(&mut v, en_us_voice("nova", "Nova"));
                push_voice(&mut v, en_us_voice("shimmer", "Shimmer"));
            },
            CloudProvider::Azure => {
                push_voice(&mut v, en_us_voice("en-US-JennyNeural", "Jenny (US)"));
                push_voice(&mut v, en_us_voice("en-US-GuyNeural", "Guy (US)"));
                push_voice(&mut v, en_us_voice("en-GB-SoniaNeural", "Sonia (UK)"));
                push_voice(&mut v, en_us_voice("zh-CN-XiaoxiaoNeural", "Xiaoxiao (CN)"));
                push_voice(&mut v, en_us_voice("ja-JP-NanamiNeural", "Nanami (JP)"));
            },
            CloudProvider::Google => {
                push_voice(&mut v, en_us_voice("en-US-Standard-C", "Standard C (US Female)"));
                push_voice(&mut v, en_us_voice("en-US-Standard-D", "Standard D (US Male)"));
                push_voice(&mut v, en_us_voice("en-US-Wavenet-C", "Wavenet C (US Female)"));
                push_voice(&mut v, en_us_voice("en-US-Wavenet-D", "Wavenet D (US Male)"));
            },
        }
        assert(voices_view(v@) =~= provider_voices(self@.provider));
        v
    }

    /// The HTTP request that synthesises `request`. Azure without an
    /// endpoint is refused.
    pub fn synthesize_request(&self, request: &TtsRequest) -> (r: Result<HttpRequest, TtsError>)
        ensures
            self@.provider == CloudProvider::Azure && self@.endpoint is None ==> (r matches Err(e)
                && e is EngineUnavailable
                && e.text() == "Azure TTS requires an endpoint (e.g. https://eastus.tts.speech.microsoft.com/cognitiveservices/v1)"@),
            !(self@.provider == CloudProvider::Azure && self@.endpoint is None) ==> (r matches Ok(h)
                && h@ == cloud_http(self@, *request)),
    {
        let voice: &str = match &request.voice {
            Some(v) => v.as_str(),
            None => self.voice.as_str(),
        };
        let rate: u32 = match request.rate {
            Some(v) => v,
            None => LEVEL_ONE,
        };
        let pitch: u32 = match request.pitch {
            Some(v) => v,
            None => LEVEL_ONE,
        };
        let mut headers: Vec<(String, String)> = Vec::new();
        match self.provider {
            CloudProvider::OpenAI => {
                let url = match &self.endpoint {
                    Some(u) => u.clone(),
                    None => string_of("https://api.openai.com/v1/audio/speech"),
                };
                let mut bearer = string_of("Bearer ");
                push_str(&mut bearer, self.api_key.as_str());
                push_header(&mut headers, string_of("Authorization"), bearer);
                push_header(&mut headers, string_of("Content-Type"), string_of("application/json"));
                let mut body = string_of("{\"model\":\"tts-1\",\"input\":");
                push_str(&mut body, json_quote(request.text.as_str()).as_str());
                push_str(&mut body, ",\"voice\":");
                push_str(&mut body, json_quote(voice).as_str());
                push_str(&mut body, ",\"speed\":");
                push_milli(&mut body, rate as i64);
                push_str(&mut body, ",\"response_format\":\"wav\"}");
                let h = HttpRequest { url, headers, body };
                assert(h@.headers =~= cloud_http(self@, *request).headers);
                assert(h@.body =~= cloud_http(self@, *request).body);
                Ok(h)
            },
            CloudProvider::Azure => {
                let url = match &self.endpoint {
                    Some(u) => u.clone(),
                    None => {
                        return Err(
                            TtsError::EngineUnavailable(
                                string_of(
                                    "Azure TTS requires an endpoint (e.g. https://eastus.tts.speech.microsoft.com/cognitiveservices/v1)",
                                ),
                            ),
                        );
                    },
                };
                push_header(&mut headers, string_of("Ocp-Apim-Subscription-Key"), self.api_key.clone());
                push_header(&mut headers, string_of("Content-Type"), string_of("application/ssml+xml"));
                push_header(&mut headers, string_of("X-Microsoft-OutputFormat"), string_of("riff-24khz-16bit-mono-pcm"));
                let mut body = string_of(
                    "<speak version=\"1.0\" xmlns=\"http://www.w3.org/2001/10/synthesis\" xml:lang=\"en-US\"><voice name=\"",
                );
                push_str(&mut body, quick_xml_escape(voice).as_str());
                push_str(&mut body, "\"><prosody rate=\"");
                push_signed(&mut body, level_offset(rate, 10));
                push_str(&mut body, "%\" pitch=\"");
                push_signed(&mut body, level_offset(pitch, 20));
                push_str(&mut body, "%\">");
                push_str(&mut body, quick_xml_escape(request.text.as_str()).as_str());
                push_str(&mut body, "</prosody></voice></speak>");
                let h = HttpRequest { url, headers, body };
                assert(h@.headers =~= cloud_http(self@, *request).headers);
                assert(h@.body =~= cloud_http(self@, *request).body);
                Ok(h)
            },
            CloudProvider::Google => {
                let mut url = string_of("https://texttospeech.googleapis.com/v1/text:synthesize?key=");
                push_str(&mut url, self.api_key.as_str());
                push_header(&mut headers, string_of("Content-Type"), string_of("application/json"));
                let mut body = string_of("{\"input\":{\"text\":");
                push_str(&mut body, json_quote(request.text.as_str()).as_str());
                push_str(&mut body, "},\"voice\":{\"languageCode\":\"en-US\",\"name\":");
                push_str(&mut body, json_quote(voice).as_str());
                push_str(&mut body, "},\"audioConfig\":{\"audioEncoding\":\"LINEAR16\",\"speakingRate\":");
                push_milli(&mut body, rate as i64);
                push_str(&mut body, ",\"pitch\":");
                push_milli(&mut body, (pitch as i64 - 1000) * 10);
                push_str(&mut body, ",\"sampleRateHertz\":24000}}");
                let h = HttpRequest { url, headers, body };
                assert(h@.headers =~= cloud_http(self@, *request).headers);
                assert(h@.body =~= cloud_http(self@, *request).body);
                Ok(h)
            },
        }
    }

    /// The result of a provider response: 24 kHz mono WAV on a 2xx answer,
    /// the status and body of the answer otherwise.
    pub fn finish_synthesis(&self, response: HttpResponse) -> (r: Result<TtsResult, TtsError>)
        ensures
            !is_success(response.status) ==> (r matches Err(e) && e is SynthesisFailure
                && e.text() == api_error(self@.provider, response.status_line@, response.body@)),
            is_success(response.status) && response_audio(self@.provider, response.body@) is Some ==> (
            r matches Ok(t) && t.audio_data@ == response_audio(self@.provider, response.body@).unwrap()
                && t.sample_rate == 24000 && t.channels == 1 && t.format@ == "wav"@),
            is_success(response.status) && response_audio(self@.provider, response.body@) is None ==> (
            r matches Err(e) && e is SynthesisFailure && e.text() == google_audio_error(response.body@)),
    {
        if !(200 <= response.status && response.status <= 299) {
            let mut msg = match self.provider {
                CloudProvider::OpenAI => string_of("OpenAI"),
                CloudProvider::Azure => string_of("Azure"),
                CloudProvider::Google => string_of("Google"),
            };
            push_str(&mut msg, " TTS API error ");
            push_str(&mut msg, response.status_line.as_str());
            push_str(&mut msg, ": ");
            push_str(&mut msg, lossy_text(response.body.as_slice()).as_str());
            return Err(TtsError::SynthesisFailure(msg));
        }
        if self.provider != CloudProvider::Google {
            return Ok(TtsResult { audio_data: response.body, sample_rate: 24000, channels: 1, format: string_of("wav") });
        }
        match json_text_field(response.body.as_slice(), "audioContent") {
            None => Err(TtsError::SynthesisFailure(string_of("Missing audioContent in Google TTS response"))),
            Some(t) => match decode_base64(t.as_str()) {
                Ok(audio) => Ok(TtsResult { audio_data: audio, sample_rate: 24000, channels: 1, format: string_of("wav") }),
                Err(_) => Err(TtsError::SynthesisFailure(string_of("Invalid base64 in Google TTS audioContent"))),
            },
        }
    }
}

} // verus!
