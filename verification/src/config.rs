//! The settings of the poller, checked once at startup.

use vstd::prelude::*;

verus! {

/// The settings, each with the variable that it is read from.
#[derive(Clone, Copy, Debug, PartialEq, Eq, Structural)]
pub enum Setting {
    /// The address of the data endpoint.
    DataUrl,
    /// The address of the token endpoint.
    TokenUrl,
    /// The identifier of the spreadsheet document.
    Document,
    /// The name of the page within the document.
    Sheet,
    /// The seconds from one run to the next.
    Interval,
}

impl Setting {
    /// The name of the variable that holds the setting.
    pub open spec fn variable_text(self) -> Seq<char> {
        match self {
            Setting::DataUrl => "ENOC_QUERY_URL"@,
            Setting::TokenUrl => "ENOC_AUTHORIZATION_TOKEN"@,
            Setting::Document => "SPREADSHEET_ID"@,
            Setting::Sheet => "SHEET_NAME"@,
            Setting::Interval => "POLL_INTERVAL_SECS"@,
        }
    }

    /// The name of the variable that holds the setting.
    pub fn variable(self) -> (name: &'static str)
        ensures
            name@ == self.variable_text(),
    {
        match self {
            Setting::DataUrl => "ENOC_QUERY_URL",
            Setting::TokenUrl => "ENOC_AUTHORIZATION_TOKEN",
            Setting::Document => "SPREADSHEET_ID",
            Setting::Sheet => "SHEET_NAME",
            Setting::Interval => "POLL_INTERVAL_SECS",
        }
    }
}

/// Why the settings were refused.
#[derive(Clone, Copy, Debug, PartialEq, Eq, Structural)]
pub enum ConfigError {
    /// A setting without a default has no value.
    Missing(Setting),
    /// The interval is not a decimal number from 1 to 18446744073709551615.
    BadInterval,
}

/// The seconds from one run to the next where none are set.
pub const DEFAULT_INTERVAL_SECS: u64 = 300;

/// The name of the page where none is set.
pub open spec fn default_sheet() -> Seq<char> {
    "Sheet1"@
}

/// The settings of the poller.
#[derive(Clone, Debug, PartialEq, Eq)]
pub struct Config {
    pub data_url: String,
    pub token_url: String,
    pub document: String,
    pub sheet: String,
    pub interval_secs: u64,
}

/// The settings as a mathematical value.
pub struct ConfigView {
    pub data_url: Seq<char>,
    pub token_url: Seq<char>,
    pub document: Seq<char>,
    pub sheet: Seq<char>,
    pub interval_secs: u64,
}

impl ConfigView {
    /// Settings that a timer can be run on: the interval is at least one
    /// second.
    pub open spec fn well_formed(self) -> bool {
        self.interval_secs >= 1
    }
}

impl View for Config {
    type V = ConfigView;

    open spec fn view(&self) -> ConfigView {
        ConfigView {
            data_url: self.data_url@,
            token_url: self.token_url@,
            document: self.document@,
            sheet: self.sheet@,
            interval_secs: self.interval_secs,
        }
    }
}

/// One of the characters `0` to `9`.
pub open spec fn is_digit(c: char) -> bool {
    '0' <= c <= '9'
}

/// A text made of digits only.
pub open spec fn all_digits(text: Seq<char>) -> bool {
    forall|i: int| 0 <= i < text.len() ==> is_digit(#[trigger] text[i])
}

/// The number that a text of digits writes in base ten.
pub open spec fn digits_value(text: Seq<char>) -> nat
    decreases text.len(),
{
    if text.len() == 0 {
        0
    } else {
        10 * digits_value(text.drop_last()) + (text.last() as nat - '0' as nat) as nat
    }
}

/// The interval that a text sets: the number it writes in base ten, where it
/// is one or more digits and the number is from 1 to 18446744073709551615.
pub open spec fn interval_of(text: Seq<char>) -> Option<u64> {
    if text.len() > 0 && all_digits(text) && 1 <= digits_value(text) <= u64::MAX {
        Some(digits_value(text) as u64)
    } else {
        None
    }
}

/// The settings that the given values make. The two addresses and the
/// document have no default; they are looked at in this order. The page is
/// `Sheet1` and the interval 300 seconds where not set.
pub open spec fn config_of(
    data_url: Option<Seq<char>>,
    token_url: Option<Seq<char>>,
    document: Option<Seq<char>>,
    sheet: Option<Seq<char>>,
    interval: Option<Seq<char>>,
) -> Result<ConfigView, ConfigError> {
    if data_url is None {
        Err(ConfigError::Missing(Setting::DataUrl))
    } else if token_url is None {
        Err(ConfigError::Missing(Setting::TokenUrl))
    } else if document is None {
        Err(ConfigError::Missing(Setting::Document))
    } else if interval is Some && interval_of(interval.unwrap()) is None {
        Err(ConfigError::BadInterval)
    } else {
        Ok(
            ConfigView {
                data_url: data_url.unwrap(),
                token_url: token_url.unwrap(),
                document: document.unwrap(),
                sheet: match sheet {
                    Some(name) => name,
                    None => default_sheet(),
                },
                interval_secs: match interval {
                    Some(text) => interval_of(text).unwrap(),
                    None => DEFAULT_INTERVAL_SECS,
                },
            },
        )
    }
}

/// The number written by the first `k` digits of a text of digits is at most
/// the number written by all of them.
pub proof fn lemma_prefix_value(text: Seq<char>, k: int)
    requires
        all_digits(text),
        0 <= k <= text.len(),
    ensures
        digits_value(text.take(k)) <= digits_value(text),
    decreases text.len() - k,
{
    if k == text.len() {
        assert(text.take(k) =~= text);
    } else {
        let longer = text.take(k + 1);
        assert(longer.drop_last() =~= text.take(k));
        assert(is_digit(longer.last()));
        lemma_prefix_value(text, k + 1);
    }
}

/// Reads an interval in seconds; `None` where the text sets none.
pub fn parse_interval(text: &str) -> (seconds: Option<u64>)
    ensures
        seconds == interval_of(text@),
{
    if !text.is_ascii() {
        proof {
            let at = choose|i: int| 0 <= i < text@.len() && !('\0' <= #[trigger] text@[i] <= '\u{7f}');
            assert(!is_digit(text@[at]));
        }
        return None;
    }
    let bytes = text.as_bytes();
    proof {
        vstd::string::is_ascii_spec_bytes(text);
    }
    if bytes.len() == 0 {
        return None;
    }
    let mut value: u64 = 0;
    let mut i: usize = 0;
    while i < bytes.len()
        invariant
            i <= bytes.len(),
            bytes@.len() == text@.len(),
            forall|k: int| 0 <= k < text@.len() ==> bytes@[k] == text@[k] as u8,
            forall|k: int| 0 <= k < text@.len() ==> '\0' <= #[trigger] text@[k] <= '\u{7f}',
            all_digits(text@.take(i as int)),
            value == digits_value(text@.take(i as int)),
        decreases bytes.len() - i,
    {
        let byte = bytes[i];
        assert(byte == text@[i as int] as u8);
        if byte < 48 || byte > 57 {
            assert(!is_digit(text@[i as int]));
            return None;
        }
        let digit: u64 = (byte - 48) as u64;
        let ghost longer = text@.take(i + 1);
        proof {
            assert(longer.drop_last() =~= text@.take(i as int));
            assert(longer.last() == text@[i as int]);
            assert(is_digit(text@[i as int]));
            assert(digits_value(longer) == 10 * value + digit);
            assert(all_digits(longer));
        }
        if value > (u64::MAX - digit) / 10 {
            proof {
                if all_digits(text@) {
                    lemma_prefix_value(text@, i + 1);
                }
            }
            return None;
        }
        value = value * 10 + digit;
        i += 1;
    }
    assert(text@.take(i as int) =~= text@);
    if value == 0 {
        None
    } else {
        Some(value)
    }
}

impl Config {
    /// Checks the values that were found for the five settings, `None` for
    /// one that has no value.
    pub fn from_values(
        data_url: Option<String>,
        token_url: Option<String>,
        document: Option<String>,
        sheet: Option<String>,
        interval: Option<String>,
    ) -> (made: Result<Config, ConfigError>)
        ensures
            made matches Ok(config) ==> config@.well_formed(),
            match made {
                Ok(config) => config_of(
                    data_url.deep_view(),
                    token_url.deep_view(),
                    document.deep_view(),
                    sheet.deep_view(),
                    interval.deep_view(),
                ) == Ok::<ConfigView, ConfigError>(config@),
                Err(error) => config_of(
                    data_url.deep_view(),
                    token_url.deep_view(),
                    document.deep_view(),
                    sheet.deep_view(),
                    interval.deep_view(),
                ) == Err::<ConfigView, ConfigError>(error),
            },
    {
        let data_url = match data_url {
            Some(url) => url,
            None => {
                return Err(ConfigError::Missing(Setting::DataUrl));
            },
        };
        let token_url = match token_url {
            Some(url) => url,
            None => {
                return Err(ConfigError::Missing(Setting::TokenUrl));
            },
        };
        let document = match document {
            Some(id) => id,
            None => {
                return Err(ConfigError::Missing(Setting::Document));
            },
        };
        let interval_secs = match interval {
            Some(text) => match parse_interval(text.as_str()) {
                Some(seconds) => seconds,
                None => {
                    return Err(ConfigError::BadInterval);
                },
            },
            None => DEFAULT_INTERVAL_SECS,
        };
        let sheet = match sheet {
            Some(name) => name,
            None => String::from_str("Sheet1"),
        };
        Ok(Config { data_url, token_url, document, sheet, interval_secs })
    }
}

} // verus!
