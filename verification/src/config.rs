//! The settings of the service, and how they are read from the text of the
//! process environment.

use vstd::prelude::*;

verus! {

/// Name of the setting that holds the time to live of a cached answer.
pub const CACHE_DURATION_SECS: &'static str = "CACHE_DURATION_SECS";

/// Name of the setting that holds the identifier of the weather station.
pub const PWS_ID: &'static str = "PWS_ID";

/// Name of the setting that holds the credential for the provider.
pub const API_KEY: &'static str = "API_KEY";

/// What the settings are, to a contract.
pub struct ConfigModel {
    pub cache_duration_secs: u64,
    pub pws_id: Seq<char>,
    pub api_key: Seq<char>,
}

/// The settings of a running service. They are fixed once loaded.
#[derive(Debug)]
pub struct AppConfig {
    cache_duration_secs: u64,
    pws_id: String,
    api_key: String,
}

impl View for AppConfig {
    type V = ConfigModel;

    closed spec fn view(&self) -> ConfigModel {
        ConfigModel {
            cache_duration_secs: self.cache_duration_secs,
            pws_id: self.pws_id@,
            api_key: self.api_key@,
        }
    }
}

/// Why the settings could not be loaded.
#[derive(Clone, Copy, Debug, PartialEq, Eq, Structural)]
pub enum ConfigError {
    /// The time to live is not set.
    CacheDurationMissing,
    /// The time to live is set to something that is no number of seconds.
    CacheDurationInvalid,
    /// The station identifier is not set.
    PwsIdMissing,
    /// The credential is not set.
    ApiKeyMissing,
}

/// The sentence that tells an operator what is wrong.
pub open spec fn error_text(error: ConfigError) -> Seq<char> {
    match error {
        ConfigError::CacheDurationMissing => "CACHE_DURATION_SECS not defined"@,
        ConfigError::CacheDurationInvalid => "CACHE_DURATION_SECS wrong value"@,
        ConfigError::PwsIdMissing => "PWS_ID not defined"@,
        ConfigError::ApiKeyMissing => "API_KEY not defined"@,
    }
}

impl ConfigError {
    /// The sentence that tells an operator what is wrong.
    pub fn message(&self) -> (text: &'static str)
        ensures
            text@ == error_text(*self),
    {
        match self {
            ConfigError::CacheDurationMissing => "CACHE_DURATION_SECS not defined",
            ConfigError::CacheDurationInvalid => "CACHE_DURATION_SECS wrong value",
            ConfigError::PwsIdMissing => "PWS_ID not defined",
            ConfigError::ApiKeyMissing => "API_KEY not defined",
        }
    }
}

/// Whether `c` is one of the ten decimal digits.
pub open spec fn is_digit(c: char) -> bool {
    '0' <= c && c <= '9'
}

/// The number that the decimal digit `c` stands for.
pub open spec fn digit_value(c: char) -> nat {
    (c as int - '0' as int) as nat
}

/// The number that a row of decimal digits stands for, the first digit
/// weighing most. An empty row stands for zero.
pub open spec fn decimal_value(digits: Seq<char>) -> nat
    decreases digits.len(),
{
    if digits.len() == 0 {
        0
    } else {
        decimal_value(digits.drop_last()) * 10 + digit_value(digits.last())
    }
}

/// Whether every character of `text` is a decimal digit.
pub open spec fn all_digits(text: Seq<char>) -> bool {
    forall|i: int| 0 <= i < text.len() ==> is_digit(#[trigger] text[i])
}

/// `text` without the one plus sign that may lead it.
pub open spec fn without_sign(text: Seq<char>) -> Seq<char> {
    if text.len() > 0 && text[0] == '+' {
        text.drop_first()
    } else {
        text
    }
}

/// The number of seconds that `text` spells: an optional plus sign, then one
/// or more decimal digits and nothing else, naming a number that fits in 64
/// bits. Any other text spells none.
pub open spec fn seconds_of(text: Seq<char>) -> Option<u64> {
    let digits = without_sign(text);
    if digits.len() > 0 && all_digits(digits) && decimal_value(digits) <= u64::MAX {
        Some(decimal_value(digits) as u64)
    } else {
        None
    }
}

/// A row of digits is worth its leading part times ten, plus its last digit.
proof fn lemma_decimal_value_step(digits: Seq<char>, k: int)
    requires
        0 <= k < digits.len(),
    ensures
        decimal_value(digits.take(k + 1)) == decimal_value(digits.take(k)) * 10 + digit_value(
            digits[k],
        ),
{
    assert(digits.take(k + 1).drop_last() =~= digits.take(k));
}

/// A leading part of a row of digits is worth no more than the row.
proof fn lemma_decimal_value_grows(digits: Seq<char>, k: int)
    requires
        0 <= k <= digits.len(),
    ensures
        decimal_value(digits.take(k)) <= decimal_value(digits),
    decreases digits.len() - k,
{
    if k == digits.len() {
        assert(digits.take(k) =~= digits);
    } else {
        lemma_decimal_value_step(digits, k);
        lemma_decimal_value_grows(digits, k + 1);
    }
}

/// Reads a number of seconds from `text`.
pub fn parse_seconds(text: &str) -> (parsed: Option<u64>)
    ensures
        parsed == seconds_of(text@),
{
    let len = text.unicode_len();
    let start: usize = if len > 0 && text.get_char(0) == '+' {
        1
    } else {
        0
    };
    let ghost digits = without_sign(text@);
    assert(digits =~= text@.subrange(start as int, len as int));
    if start == len {
        return None;
    }
    let mut value: u64 = 0;
    let mut i: usize = start;
    while i < len
        invariant
            start <= i <= len,
            len == text@.len(),
            digits == without_sign(text@),
            digits == text@.subrange(start as int, len as int),
            forall|j: int| 0 <= j < i - start ==> is_digit(#[trigger] digits[j]),
            value == decimal_value(digits.take(i - start)),
        decreases len - i,
    {
        let c = text.get_char(i);
        assert(c == digits[i - start]);
        if c < '0' || c > '9' {
            return None;
        }
        let digit: u64 = (c as u32 - '0' as u32) as u64;
        proof {
            lemma_decimal_value_step(digits, i - start);
            lemma_decimal_value_grows(digits, i - start + 1);
        }
        if value > (u64::MAX - digit) / 10 {
            return None;
        }
        value = value * 10 + digit;
        i = i + 1;
    }
    assert(digits.take(len - start) =~= digits);
    Some(value)
}

impl Clone for AppConfig {
    fn clone(&self) -> (copy: AppConfig)
        ensures
            copy@ == self@,
    {
        AppConfig {
            cache_duration_secs: self.cache_duration_secs,
            pws_id: self.pws_id.clone(),
            api_key: self.api_key.clone(),
        }
    }
}

impl AppConfig {
    /// Settings made of their three parts.
    pub fn new(cache_duration_secs: u64, pws_id: String, api_key: String) -> (config: AppConfig)
        ensures
            config@ == (ConfigModel { cache_duration_secs, pws_id: pws_id@, api_key: api_key@ }),
    {
        AppConfig { cache_duration_secs, pws_id, api_key }
    }

    /// For how many seconds a cached answer may be served.
    pub fn cache_duration_secs(&self) -> (secs: u64)
        ensures
            secs == self@.cache_duration_secs,
    {
        self.cache_duration_secs
    }

    /// The identifier of the weather station.
    pub fn pws_id(&self) -> (id: &str)
        ensures
            id@ == self@.pws_id,
    {
        self.pws_id.as_str()
    }

    /// The credential for the provider.
    pub fn api_key(&self) -> (key: &str)
        ensures
            key@ == self@.api_key,
    {
        self.api_key.as_str()
    }
}

/// What loading makes of the three settings as the environment holds them,
/// `None` standing for a setting that is not there. The time to live is
/// looked at first, then the station, then the credential, and the first
/// fault found is the one reported.
pub open spec fn loaded(
    cache_duration_secs: Option<Seq<char>>,
    pws_id: Option<Seq<char>>,
    api_key: Option<Seq<char>>,
) -> Result<ConfigModel, ConfigError> {
    if cache_duration_secs is None {
        Err(ConfigError::CacheDurationMissing)
    } else if seconds_of(cache_duration_secs->0) is None {
        Err(ConfigError::CacheDurationInvalid)
    } else if pws_id is None {
        Err(ConfigError::PwsIdMissing)
    } else if api_key is None {
        Err(ConfigError::ApiKeyMissing)
    } else {
        Ok(
            ConfigModel {
                cache_duration_secs: seconds_of(cache_duration_secs->0)->0,
                pws_id: pws_id->0,
                api_key: api_key->0,
            },
        )
    }
}

/// The text of an optional setting.
pub open spec fn text_of(setting: Option<String>) -> Option<Seq<char>> {
    match setting {
        Some(text) => Some(text@),
        None => None,
    }
}

/// Loads the settings from the values that the environment holds under
/// [`CACHE_DURATION_SECS`], [`PWS_ID`] and [`API_KEY`].
pub fn load_config(
    cache_duration_secs: Option<String>,
    pws_id: Option<String>,
    api_key: Option<String>,
) -> (outcome: Result<AppConfig, ConfigError>)
    ensures
        match outcome {
            Ok(config) => loaded(text_of(cache_duration_secs), text_of(pws_id), text_of(api_key))
                == Ok::<ConfigModel, ConfigError>(config@),
            Err(error) => loaded(text_of(cache_duration_secs), text_of(pws_id), text_of(api_key))
                == Err::<ConfigModel, ConfigError>(error),
        },
{
    let raw = match cache_duration_secs {
        Some(raw) => raw,
        None => {
            return Err(ConfigError::CacheDurationMissing);
        },
    };
    let secs = match parse_seconds(raw.as_str()) {
        Some(secs) => secs,
        None => {
            return Err(ConfigError::CacheDurationInvalid);
        },
    };
    let pws_id = match pws_id {
        Some(pws_id) => pws_id,
        None => {
            return Err(ConfigError::PwsIdMissing);
        },
    };
    let api_key = match api_key {
        Some(api_key) => api_key,
        None => {
            return Err(ConfigError::ApiKeyMissing);
        },
    };
    Ok(AppConfig::new(secs, pws_id, api_key))
}

} // verus!
