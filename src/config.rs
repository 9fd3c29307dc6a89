use vstd::prelude::*;
use crate::decimal::{decimal_text_of, decimal_of, in_unit_interval, lemma_scan_prefix, scan_decimal, Decimal};
use crate::error::{missing_key, missing_key_error, GenerationError};
use crate::text::{ascii_lower, decimal_digits, decimal_text, eq_ascii_case, is_digit, eq_ignore_ascii_case, parse_unsigned, unsigned_of};

verus! {

/// The backends a session can route prompts to.
#[derive(Debug, Clone, Copy, PartialEq, Eq, Structural)]
pub enum LlmProvider {
    Ollama,
    Gemini,
    Groq,
    HuggingFace,
}

/// Display name of a provider.
pub open spec fn provider_name(p: LlmProvider) -> Seq<char> {
    match p {
        LlmProvider::Ollama => "Ollama"@,
        LlmProvider::Gemini => "Gemini"@,
        LlmProvider::Groq => "Groq"@,
        LlmProvider::HuggingFace => "HuggingFace"@,
    }
}

/// The name a provider goes by in commands and settings.
pub open spec fn provider_config_name(p: LlmProvider) -> Seq<char> {
    match p {
        LlmProvider::Ollama => "ollama"@,
        LlmProvider::Gemini => "gemini"@,
        LlmProvider::Groq => "groq"@,
        LlmProvider::HuggingFace => "huggingface"@,
    }
}

/// The name of the setting that holds a provider's default model.
pub open spec fn provider_model_setting(p: LlmProvider) -> Seq<char> {
    match p {
        LlmProvider::Ollama => "default_ollama_model"@,
        LlmProvider::Gemini => "default_gemini_model"@,
        LlmProvider::Groq => "default_groq_model"@,
        LlmProvider::HuggingFace => "default_huggingface_model"@,
    }
}

/// The environment variable that holds a provider's API key; empty for the
/// local server, which needs none.
pub open spec fn api_key_variable(p: LlmProvider) -> Seq<char> {
    match p {
        LlmProvider::Ollama => ""@,
        LlmProvider::Gemini => "GEMINI_API_KEY"@,
        LlmProvider::Groq => "GROQ_API_KEY"@,
        LlmProvider::HuggingFace => "HUGGINGFACE_API_KEY"@,
    }
}

/// The name of the setting that holds a provider's base URL; empty where the
/// endpoint is fixed.
pub open spec fn base_url_setting(p: LlmProvider) -> Seq<char> {
    match p {
        LlmProvider::Ollama => "ollama_base_url"@,
        LlmProvider::Gemini => ""@,
        LlmProvider::Groq => "groq_api_base_url"@,
        LlmProvider::HuggingFace => ""@,
    }
}

impl LlmProvider {
    pub fn get_provider_name(&self) -> (r: &str)
        ensures
            r@ == provider_name(*self),
    {
        match self {
            LlmProvider::Ollama => "Ollama",
            LlmProvider::Gemini => "Gemini",
            LlmProvider::Groq => "Groq",
            LlmProvider::HuggingFace => "HuggingFace",
        }
    }

    pub fn get_provider_config_name(&self) -> (r: &str)
        ensures
            r@ == provider_config_name(*self),
    {
        match self {
            LlmProvider::Ollama => "ollama",
            LlmProvider::Gemini => "gemini",
            LlmProvider::Groq => "groq",
            LlmProvider::HuggingFace => "huggingface",
        }
    }

    pub fn get_provider_model_name(&self) -> (r: &str)
        ensures
            r@ == provider_model_setting(*self),
    {
        match self {
            LlmProvider::Ollama => "default_ollama_model",
            LlmProvider::Gemini => "default_gemini_model",
            LlmProvider::Groq => "default_groq_model",
            LlmProvider::HuggingFace => "default_huggingface_model",
        }
    }

    pub fn get_provider_api_key_name(&self) -> (r: &str)
        ensures
            r@ == api_key_variable(*self),
    {
        match self {
            LlmProvider::Ollama => "",
            LlmProvider::Gemini => "GEMINI_API_KEY",
            LlmProvider::Groq => "GROQ_API_KEY",
            LlmProvider::HuggingFace => "HUGGINGFACE_API_KEY",
        }
    }

    pub fn get_provider_base_url_name(&self) -> (r: &str)
        ensures
            r@ == base_url_setting(*self),
    {
        match self {
            LlmProvider::Ollama => "ollama_base_url",
            LlmProvider::Gemini => "",
            LlmProvider::Groq => "groq_api_base_url",
            LlmProvider::HuggingFace => "",
        }
    }
}

/// The session's settings: the active provider and, per provider, its
/// endpoint, default model, API key and generation parameters.
#[derive(Debug, Clone)]
pub struct Config {
    pub active_provider: LlmProvider,
    pub ollama_base_url: String,
    pub default_ollama_model: String,
    pub gemini_api_key: Option<String>,
    pub default_gemini_model: String,
    pub gemini_temperature: Option<Decimal>,
    pub gemini_top_p: Option<Decimal>,
    pub gemini_max_tokens: Option<u32>,
    pub groq_api_key: Option<String>,
    pub default_groq_model: String,
    pub groq_api_base_url: String,
    pub huggingface_api_key: Option<String>,
    pub default_huggingface_model: String,
}

/// The built-in temperature: 0.7.
pub open spec fn default_temperature() -> Option<Decimal> {
    Some(Decimal { negative: false, mantissa: 7, scale: 1 })
}

/// The built-in top-p: the provider's own.
pub open spec fn default_top_p() -> Option<Decimal> {
    None
}

/// The built-in limit on output tokens: 2048.
pub open spec fn default_max_tokens() -> Option<u32> {
    Some(2048)
}

/// The generation parameters of a configuration, in the order temperature,
/// top-p, maximum output tokens.
pub open spec fn gemini_params(c: Config) -> (Option<Decimal>, Option<Decimal>, Option<u32>) {
    (c.gemini_temperature, c.gemini_top_p, c.gemini_max_tokens)
}

pub open spec fn default_params() -> (Option<Decimal>, Option<Decimal>, Option<u32>) {
    (default_temperature(), default_top_p(), default_max_tokens())
}

/// The settings a session starts with, before any key is loaded.
pub open spec fn is_default(c: Config) -> bool {
    &&& c.active_provider == LlmProvider::Ollama
    &&& c.ollama_base_url@ == "http://localhost:11434"@
    &&& c.default_ollama_model@ == "llama3"@
    &&& c.gemini_api_key is None
    &&& c.default_gemini_model@ == "gemini-1.5-pro-latest"@
    &&& gemini_params(c) == default_params()
    &&& c.groq_api_key is None
    &&& c.default_groq_model@ == "llama3-8b-8192"@
    &&& c.groq_api_base_url@ == "https://api.groq.com/openai/v1"@
    &&& c.huggingface_api_key is None
    &&& c.default_huggingface_model@ == "meta-llama/Llama-2-7b-chat-hf"@
}

/// The API key a provider has in a configuration; the local server has none.
pub open spec fn key_of(c: Config, p: LlmProvider) -> Option<String> {
    match p {
        LlmProvider::Ollama => None,
        LlmProvider::Gemini => c.gemini_api_key,
        LlmProvider::Groq => c.groq_api_key,
        LlmProvider::HuggingFace => c.huggingface_api_key,
    }
}

/// Whether a provider can be used: the local server always, the others
/// once their key is set.
pub open spec fn is_usable(c: Config, p: LlmProvider) -> bool {
    p == LlmProvider::Ollama || key_of(c, p) is Some
}

/// A provider's default model in a configuration.
pub open spec fn model_of(c: Config, p: LlmProvider) -> String {
    match p {
        LlmProvider::Ollama => c.default_ollama_model,
        LlmProvider::Gemini => c.default_gemini_model,
        LlmProvider::Groq => c.default_groq_model,
        LlmProvider::HuggingFace => c.default_huggingface_model,
    }
}

/// A configuration with one provider's default model replaced.
pub open spec fn with_model(c: Config, p: LlmProvider, m: String) -> Config {
    match p {
        LlmProvider::Ollama => Config { default_ollama_model: m, ..c },
        LlmProvider::Gemini => Config { default_gemini_model: m, ..c },
        LlmProvider::Groq => Config { default_groq_model: m, ..c },
        LlmProvider::HuggingFace => Config { default_huggingface_model: m, ..c },
    }
}

/// A configuration with its generation parameters back at the built-in
/// values.
pub open spec fn with_params_reset(c: Config) -> Config {
    Config {
        gemini_temperature: default_temperature(),
        gemini_top_p: default_top_p(),
        gemini_max_tokens: default_max_tokens(),
        ..c
    }
}

/// How a fraction setting reads: its decimal, or `Default` when unset.
pub open spec fn fraction_text(d: Option<Decimal>) -> Seq<char> {
    match d {
        Some(x) => decimal_text_of(x),
        None => "Default"@,
    }
}

/// How a count setting reads: its digits, or `Default` when unset.
pub open spec fn count_text(n: Option<u32>) -> Seq<char> {
    match n {
        Some(x) => decimal_digits(x as nat),
        None => "Default"@,
    }
}

/// A provider's settings as names and readable values, in display order.
pub open spec fn provider_settings(c: Config, p: LlmProvider) -> Seq<(Seq<char>, Seq<char>)> {
    match p {
        LlmProvider::Ollama => seq![
            ("ollama_base_url"@, c.ollama_base_url@),
            ("default_ollama_model"@, c.default_ollama_model@),
        ],
        LlmProvider::Gemini => seq![
            ("default_gemini_model"@, c.default_gemini_model@),
            ("gemini_temperature"@, fraction_text(c.gemini_temperature)),
            ("gemini_top_p"@, fraction_text(c.gemini_top_p)),
            ("gemini_max_tokens"@, count_text(c.gemini_max_tokens)),
        ],
        LlmProvider::Groq => seq![
            ("groq_api_base_url"@, c.groq_api_base_url@),
            ("default_groq_model"@, c.default_groq_model@),
        ],
        LlmProvider::HuggingFace => seq![
            ("default_huggingface_model"@, c.default_huggingface_model@),
        ],
    }
}

pub open spec fn entry_views(v: Seq<(String, String)>) -> Seq<(Seq<char>, Seq<char>)> {
    v.map_values(|e: (String, String)| (e.0@, e.1@))
}

fn fraction_display(d: Option<Decimal>) -> (r: String)
    ensures
        r@ == fraction_text(d),
{
    match d {
        Some(x) => x.to_text(),
        None => String::from_str("Default"),
    }
}

fn count_display(n: Option<u32>) -> (r: String)
    ensures
        r@ == count_text(n),
{
    match n {
        Some(x) => decimal_text(x as u64),
        None => String::from_str("Default"),
    }
}

fn entry(name: &str, value: String) -> (r: (String, String))
    ensures
        r.0@ == name@,
        r.1@ == value@,
{
    (String::from_str(name), value)
}

/// Why a generation parameter was not set.
#[derive(Debug, Clone, Copy, PartialEq, Eq, Structural)]
pub enum ParamError {
    /// The value is not a number of the parameter's kind.
    Malformed,
    /// The value is a number outside the parameter's range.
    OutOfRange,
}

/// What setting a fraction parameter (temperature, top-p) from `text` gives:
/// `reset`, in any case, restores `default`; a decimal in the closed interval
/// from 0 to 1 is taken; anything else is refused.
pub open spec fn fraction_setting(text: Seq<char>, default: Option<Decimal>) -> Result<
    Option<Decimal>,
    ParamError,
> {
    if eq_ascii_case(text, "reset"@) {
        Ok(default)
    } else {
        match decimal_of(text) {
            None => Err(ParamError::Malformed),
            Some(d) => if in_unit_interval(d) {
                Ok(Some(d))
            } else {
                Err(ParamError::OutOfRange)
            },
        }
    }
}

/// What setting the output-token limit from `text` gives: `reset` restores
/// the default; a positive integer that fits in 32 bits is taken.
pub open spec fn token_setting(text: Seq<char>) -> Result<Option<u32>, ParamError> {
    if eq_ascii_case(text, "reset"@) {
        Ok(default_max_tokens())
    } else {
        match unsigned_of(text, u32::MAX as nat) {
            None => Err(ParamError::Malformed),
            Some(n) => if n > 0 {
                Ok(Some(n as u32))
            } else {
                Err(ParamError::OutOfRange)
            },
        }
    }
}

fn fraction_from(text: &str, default: Option<Decimal>) -> (r: Result<Option<Decimal>, ParamError>)
    ensures
        r == fraction_setting(text@, default),
{
    if eq_ignore_ascii_case(text, "reset") {
        return Ok(default);
    }
    match Decimal::parse(text) {
        None => Err(ParamError::Malformed),
        Some(d) => if d.is_unit_interval() {
            Ok(Some(d))
        } else {
            Err(ParamError::OutOfRange)
        },
    }
}

impl Default for Config {
    fn default() -> (r: Config)
        ensures
            is_default(r),
    {
        Config {
            active_provider: LlmProvider::Ollama,
            ollama_base_url: String::from_str("http://localhost:11434"),
            default_ollama_model: String::from_str("llama3"),
            gemini_api_key: None,
            default_gemini_model: String::from_str("gemini-1.5-pro-latest"),
            gemini_temperature: Some(Decimal { negative: false, mantissa: 7, scale: 1 }),
            gemini_top_p: None,
            gemini_max_tokens: Some(2048),
            groq_api_key: None,
            default_groq_model: String::from_str("llama3-8b-8192"),
            groq_api_base_url: String::from_str("https://api.groq.com/openai/v1"),
            huggingface_api_key: None,
            default_huggingface_model: String::from_str("meta-llama/Llama-2-7b-chat-hf"),
        }
    }
}

impl Config {
    /// The settings a session starts with: the defaults, with the API keys
    /// found in the environment.
    pub fn load(
        gemini_api_key: Option<String>,
        groq_api_key: Option<String>,
        huggingface_api_key: Option<String>,
    ) -> (r: Config)
        ensures
            is_default((Config { gemini_api_key: None, groq_api_key: None, huggingface_api_key: None, ..r })),
            r.gemini_api_key == gemini_api_key,
            r.groq_api_key == groq_api_key,
            r.huggingface_api_key == huggingface_api_key,
    {
        let mut c = Config::default();
        c.gemini_api_key = gemini_api_key;
        c.groq_api_key = groq_api_key;
        c.huggingface_api_key = huggingface_api_key;
        c
    }

    pub fn reset_to_default(&mut self)
        ensures
            is_default(*final(self)),
    {
        *self = Config::default();
    }

    pub fn get_active_model_name(&self) -> (r: &str)
        ensures
            r@ == model_of(*self, self.active_provider)@,
    {
        self.model_for(self.active_provider)
    }

    /// The default model of a provider.
    pub fn model_for(&self, provider: LlmProvider) -> (r: &str)
        ensures
            r@ == model_of(*self, provider)@,
    {
        match provider {
            LlmProvider::Ollama => self.default_ollama_model.as_str(),
            LlmProvider::Gemini => self.default_gemini_model.as_str(),
            LlmProvider::Groq => self.default_groq_model.as_str(),
            LlmProvider::HuggingFace => self.default_huggingface_model.as_str(),
        }
    }

    /// The API key of a provider, if it has one.
    pub fn api_key_for(&self, provider: LlmProvider) -> (r: Option<&str>)
        ensures
            match key_of(*self, provider) {
                Some(k) => r matches Some(s) && s@ == k@,
                None => r is None,
            },
    {
        match provider {
            LlmProvider::Ollama => None,
            LlmProvider::Gemini => match &self.gemini_api_key {
                Some(k) => Some(k.as_str()),
                None => None,
            },
            LlmProvider::Groq => match &self.groq_api_key {
                Some(k) => Some(k.as_str()),
                None => None,
            },
            LlmProvider::HuggingFace => match &self.huggingface_api_key {
                Some(k) => Some(k.as_str()),
                None => None,
            },
        }
    }

    pub fn get_active_api_key(&self) -> (r: Option<&str>)
        ensures
            match key_of(*self, self.active_provider) {
                Some(k) => r matches Some(s) && s@ == k@,
                None => r is None,
            },
    {
        self.api_key_for(self.active_provider)
    }

    /// The settings of a provider as names and readable values.
    pub fn get_provider_config(&self, provider: &LlmProvider) -> (r: Vec<(String, String)>)
        ensures
            entry_views(r@) == provider_settings(*self, *provider),
    {
        let r = match provider {
            LlmProvider::Ollama => vec![
                entry("ollama_base_url", self.ollama_base_url.clone()),
                entry("default_ollama_model", self.default_ollama_model.clone()),
            ],
            LlmProvider::Gemini => vec![
                entry("default_gemini_model", self.default_gemini_model.clone()),
                entry("gemini_temperature", fraction_display(self.gemini_temperature)),
                entry("gemini_top_p", fraction_display(self.gemini_top_p)),
                entry("gemini_max_tokens", count_display(self.gemini_max_tokens)),
            ],
            LlmProvider::Groq => vec![
                entry("groq_api_base_url", self.groq_api_base_url.clone()),
                entry("default_groq_model", self.default_groq_model.clone()),
            ],
            LlmProvider::HuggingFace => vec![
                entry("default_huggingface_model", self.default_huggingface_model.clone()),
            ],
        };
        assert(entry_views(r@) =~= provider_settings(*self, *provider));
        r
    }

    pub fn set_provider_model(&mut self, provider: &LlmProvider, model: String)
        ensures
            *final(self) == with_model(*old(self), *provider, model),
    {
        match provider {
            LlmProvider::Ollama => self.default_ollama_model = model,
            LlmProvider::Gemini => self.default_gemini_model = model,
            LlmProvider::Groq => self.default_groq_model = model,
            LlmProvider::HuggingFace => self.default_huggingface_model = model,
        }
    }

    /// Makes `target` the active provider. A provider whose API key is not
    /// set is refused with a configuration error naming its variable, and
    /// the settings stay as they were.
    pub fn switch_provider(&mut self, target: LlmProvider) -> (r: Result<(), GenerationError>)
        ensures
            is_usable(*old(self), target) ==> r is Ok && *final(self) == (Config {
                active_provider: target,
                ..*old(self)
            }),
            !is_usable(*old(self), target) ==> (r matches Err(e) && e@ == missing_key(
                api_key_variable(target),
            )),
            !is_usable(*old(self), target) ==> *final(self) == *old(self),
    {
        if target != LlmProvider::Ollama && self.api_key_for(target).is_none() {
            return Err(missing_key_error(target.get_provider_api_key_name()));
        }
        self.active_provider = target;
        Ok(())
    }

    /// The generation parameters: temperature, top-p, maximum output tokens.
    pub fn gemini_parameters(&self) -> (r: (Option<Decimal>, Option<Decimal>, Option<u32>))
        ensures
            r == gemini_params(*self),
    {
        (self.gemini_temperature, self.gemini_top_p, self.gemini_max_tokens)
    }

    /// Sets the temperature from its text; a refused value changes nothing.
    pub fn set_gemini_temperature(&mut self, text: &str) -> (r: Result<(), ParamError>)
        ensures
            match fraction_setting(text@, default_temperature()) {
                Ok(v) => r is Ok && *final(self) == (Config { gemini_temperature: v, ..*old(self) }),
                Err(e) => r == Err::<(), ParamError>(e) && *final(self) == *old(self),
            },
    {
        match fraction_from(text, Some(Decimal { negative: false, mantissa: 7, scale: 1 })) {
            Ok(v) => {
                self.gemini_temperature = v;
                Ok(())
            },
            Err(e) => Err(e),
        }
    }

    /// Sets top-p from its text; a refused value changes nothing.
    pub fn set_gemini_top_p(&mut self, text: &str) -> (r: Result<(), ParamError>)
        ensures
            match fraction_setting(text@, default_top_p()) {
                Ok(v) => r is Ok && *final(self) == (Config { gemini_top_p: v, ..*old(self) }),
                Err(e) => r == Err::<(), ParamError>(e) && *final(self) == *old(self),
            },
    {
        match fraction_from(text, None) {
            Ok(v) => {
                self.gemini_top_p = v;
                Ok(())
            },
            Err(e) => Err(e),
        }
    }

    /// Sets the limit on output tokens from its text; a refused value
    /// changes nothing.
    pub fn set_gemini_max_tokens(&mut self, text: &str) -> (r: Result<(), ParamError>)
        ensures
            match token_setting(text@) {
                Ok(v) => r is Ok && *final(self) == (Config { gemini_max_tokens: v, ..*old(self) }),
                Err(e) => r == Err::<(), ParamError>(e) && *final(self) == *old(self),
            },
    {
        if eq_ignore_ascii_case(text, "reset") {
            self.gemini_max_tokens = Some(2048);
            return Ok(());
        }
        match parse_unsigned(text, u32::MAX as u64) {
            None => Err(ParamError::Malformed),
            Some(n) => if n > 0 {
                self.gemini_max_tokens = Some(n as u32);
                Ok(())
            } else {
                Err(ParamError::OutOfRange)
            },
        }
    }

    /// Restores all generation parameters to the built-in values at once.
    pub fn reset_gemini_parameters(&mut self)
        ensures
            *final(self) == with_params_reset(*old(self)),
    {
        self.gemini_temperature = Some(Decimal { negative: false, mantissa: 7, scale: 1 });
        self.gemini_top_p = None;
        self.gemini_max_tokens = Some(2048);
    }
}

/// Resetting the generation parameters and reading them back gives the
/// built-in values, whatever the settings were before.
pub proof fn reset_parameters_reads_back_defaults(c: Config, other: Config)
    ensures
        gemini_params(with_params_reset(c)) == default_params(),
        gemini_params(with_params_reset(c)) == gemini_params(with_params_reset(other)),
{
}

/// A fraction parameter (temperature, top-p) refuses every decimal outside
/// the closed interval from 0 to 1, and the output-token limit refuses zero;
/// the setters leave the configuration unchanged whenever they refuse.
pub proof fn out_of_range_values_are_refused(text: Seq<char>, default: Option<Decimal>)
    ensures
        (decimal_of(text) matches Some(d) && !in_unit_interval(d)) ==> fraction_setting(text, default)
            == Err::<Option<Decimal>, ParamError>(ParamError::OutOfRange),
        unsigned_of(text, u32::MAX as nat) == Some(0nat) ==> token_setting(text) == Err::<
            Option<u32>,
            ParamError,
        >(ParamError::OutOfRange),
{
    if eq_ascii_case(text, "reset"@) {
        reveal_strlit("reset");
        assert(ascii_lower(text[0]) == ascii_lower('r'));
        assert("reset"@[0] == 'r');
        assert(ascii_lower(text[0]) == 114);
        assert(text[0] != '+' && text[0] != '-' && text[0] != '.');
        lemma_scan_prefix(text, 1);
        assert(text.take(1).drop_last() =~= Seq::<char>::empty());
        assert(scan_decimal(text.take(1)) is None);
        assert(!is_digit(text[0]));
    }
}

} // verus!
