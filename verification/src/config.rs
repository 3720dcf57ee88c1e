//! The settings of the service, as its environment gives them.

use vstd::prelude::*;

use crate::text;

verus! {

/// The namespace that is meant where none is given.
pub const DEFAULT_NAMESPACE: &'static str = "default";

/// The port that is meant where none is given.
pub const DEFAULT_PORT: &'static str = "8080";

/// How long a finished Job is kept where nothing is said of it: a day.
pub const DEFAULT_JOB_TTL_SECONDS: &'static str = "86400";

/// One or more decimal digits.
pub open spec fn is_digits(s: Seq<char>) -> bool {
    s.len() > 0 && forall|i: int| 0 <= i < s.len() ==> '0' <= #[trigger] s[i] <= '9'
}

/// The number that decimal digits stand for.
pub open spec fn digits_value(s: Seq<char>) -> int
    decreases s.len(),
{
    if s.len() == 0 {
        0
    } else {
        10 * digits_value(s.drop_last()) + (s.last() as int - '0' as int)
    }
}

/// The number that digits stand for, with or without a plus sign.
pub open spec fn unsigned_number(s: Seq<char>) -> Option<int> {
    if is_digits(s) {
        Some(digits_value(s))
    } else if s.len() > 0 && s[0] == '+' && is_digits(s.skip(1)) {
        Some(digits_value(s.skip(1)))
    } else {
        None
    }
}

/// The number that digits stand for, with or without a sign.
pub open spec fn signed_number(s: Seq<char>) -> Option<int> {
    if s.len() > 0 && s[0] == '-' && is_digits(s.skip(1)) {
        Some(-digits_value(s.skip(1)))
    } else {
        unsigned_number(s)
    }
}

/// The text as a `u16`, where it is a number of that range.
pub open spec fn u16_of(s: Seq<char>) -> Option<u16> {
    match unsigned_number(s) {
        Some(n) => if n <= u16::MAX {
            Some(n as u16)
        } else {
            None
        },
        None => None,
    }
}

/// The text as an `i32`, where it is a number of that range.
pub open spec fn i32_of(s: Seq<char>) -> Option<i32> {
    match signed_number(s) {
        Some(n) => if i32::MIN <= n <= i32::MAX {
            Some(n as i32)
        } else {
            None
        },
        None => None,
    }
}

/// `str::parse` to a `u16`: decimal digits, after a plus sign or none, and an
/// error on any other text and on a number that is too large.
#[verifier::external_body]
pub(crate) fn parse_u16(s: &str) -> (res: Option<u16>)
    ensures
        res == u16_of(s@),
{
    s.parse::<u16>().ok()
}

/// `str::parse` to an `i32`: decimal digits, after a sign or none, and an error
/// on any other text and on a number out of range.
#[verifier::external_body]
pub(crate) fn parse_i32(s: &str) -> (res: Option<i32>)
    ensures
        res == i32_of(s@),
{
    s.parse::<i32>().ok()
}

/// The text as a number of seconds: an `i32` that is not negative.
pub open spec fn seconds_of(s: Seq<char>) -> Option<i32> {
    match i32_of(s) {
        Some(n) => if n >= 0 {
            Some(n)
        } else {
            None
        },
        None => None,
    }
}

/// How long a finished Job is kept, by the setting: not at all limited where it
/// is missing or empty.
pub open spec fn ttl_setting(raw: Option<Seq<char>>) -> Option<i32> {
    match raw {
        Some(s) => if s.len() == 0 {
            None
        } else {
            seconds_of(s)
        },
        None => None,
    }
}

/// Whether the setting is missing, empty or a non-negative integer.
pub open spec fn ttl_setting_is_valid(raw: Option<Seq<char>>) -> bool {
    raw matches Some(s) ==> s.len() == 0 || seconds_of(s) is Some
}

/// Reads the setting for how long a finished Job is kept, in seconds.
pub fn parse_job_ttl(raw: Option<String>) -> (ttl: Option<i32>)
    requires
        ttl_setting_is_valid(text::opt_string(raw)),
    ensures
        ttl == ttl_setting(text::opt_string(raw)),
{
    match raw {
        Some(raw) => if raw.as_str().is_empty() {
            None
        } else {
            parse_i32(raw.as_str())
        },
        None => None,
    }
}

/// The settings of the service.
pub struct Config {
    pub api_secret: String,
    pub cronjob_name: String,
    pub namespace: String,
    pub port: u16,
    pub job_ttl_seconds: Option<i32>,
}

/// [`Config`] by its contents.
pub struct ConfigView {
    pub api_secret: Seq<char>,
    pub cronjob_name: Seq<char>,
    pub namespace: Seq<char>,
    pub port: u16,
    pub job_ttl_seconds: Option<i32>,
}

impl View for Config {
    type V = ConfigView;

    open spec fn view(&self) -> ConfigView {
        ConfigView {
            api_secret: self.api_secret@,
            cronjob_name: self.cronjob_name@,
            namespace: self.namespace@,
            port: self.port,
            job_ttl_seconds: self.job_ttl_seconds,
        }
    }
}

/// Why the service cannot start with the settings it has.
#[derive(Clone, Copy, Debug, PartialEq, Eq, Structural)]
pub enum ConfigError {
    NoApiSecret,
    EmptyApiSecret,
    NoCronJobName,
    BadPort,
    BadJobTtl,
}

impl ConfigError {
    /// The error in words.
    pub open spec fn words(self) -> Seq<char> {
        match self {
            ConfigError::NoApiSecret => "API_SECRET environment variable is required"@,
            ConfigError::EmptyApiSecret => "API_SECRET must not be empty"@,
            ConfigError::NoCronJobName => "CRON_JOB_NAME environment variable is required"@,
            ConfigError::BadPort => "PORT must be a valid port number"@,
            ConfigError::BadJobTtl => "JOB_TTL_SECONDS must be a non-negative integer"@,
        }
    }

    /// The error in words.
    pub fn message(self) -> (message: String)
        ensures
            message@ == self.words(),
    {
        match self {
            ConfigError::NoApiSecret => "API_SECRET environment variable is required".to_owned(),
            ConfigError::EmptyApiSecret => "API_SECRET must not be empty".to_owned(),
            ConfigError::NoCronJobName =>
            "CRON_JOB_NAME environment variable is required".to_owned(),
            ConfigError::BadPort => "PORT must be a valid port number".to_owned(),
            ConfigError::BadJobTtl => "JOB_TTL_SECONDS must be a non-negative integer".to_owned(),
        }
    }
}

/// A setting, or what is meant where it is missing.
pub open spec fn or_default(setting: Option<Seq<char>>, default: Seq<char>) -> Seq<char> {
    match setting {
        Some(s) => s,
        None => default,
    }
}

/// The settings of the service, or the first thing that is wrong with them.
pub open spec fn config_from(
    api_secret: Option<Seq<char>>,
    cronjob_name: Option<Seq<char>>,
    namespace: Option<Seq<char>>,
    port: Option<Seq<char>>,
    job_ttl_seconds: Option<Seq<char>>,
) -> Result<ConfigView, ConfigError> {
    let ttl = Some(or_default(job_ttl_seconds, DEFAULT_JOB_TTL_SECONDS@));
    if api_secret is None {
        Err(ConfigError::NoApiSecret)
    } else if api_secret->0.len() == 0 {
        Err(ConfigError::EmptyApiSecret)
    } else if cronjob_name is None {
        Err(ConfigError::NoCronJobName)
    } else if u16_of(or_default(port, DEFAULT_PORT@)) is None {
        Err(ConfigError::BadPort)
    } else if !ttl_setting_is_valid(ttl) {
        Err(ConfigError::BadJobTtl)
    } else {
        Ok(
            ConfigView {
                api_secret: api_secret->0,
                cronjob_name: cronjob_name->0,
                namespace: or_default(namespace, DEFAULT_NAMESPACE@),
                port: u16_of(or_default(port, DEFAULT_PORT@))->0,
                job_ttl_seconds: ttl_setting(ttl),
            },
        )
    }
}

/// Settings, or what is wrong with them, by their contents.
pub open spec fn loaded_view(res: Result<Config, ConfigError>) -> Result<ConfigView, ConfigError> {
    match res {
        Ok(config) => Ok(config@),
        Err(error) => Err(error),
    }
}

fn setting_or(setting: Option<String>, default: &str) -> (res: String)
    ensures
        res@ == or_default(text::opt_string(setting), default@),
{
    match setting {
        Some(s) => s,
        None => default.to_owned(),
    }
}

/// Reads the settings of the service. A setting is `None` where the environment
/// does not give it, or not as text.
pub fn load_config(
    api_secret: Option<String>,
    cronjob_name: Option<String>,
    namespace: Option<String>,
    port: Option<String>,
    job_ttl_seconds: Option<String>,
) -> (res: Result<Config, ConfigError>)
    ensures
        loaded_view(res) == config_from(
            text::opt_string(api_secret),
            text::opt_string(cronjob_name),
            text::opt_string(namespace),
            text::opt_string(port),
            text::opt_string(job_ttl_seconds),
        ),
{
    let api_secret = match api_secret {
        Some(api_secret) => api_secret,
        None => return Err(ConfigError::NoApiSecret),
    };
    if api_secret.as_str().is_empty() {
        return Err(ConfigError::EmptyApiSecret);
    }
    let cronjob_name = match cronjob_name {
        Some(cronjob_name) => cronjob_name,
        None => return Err(ConfigError::NoCronJobName),
    };
    let namespace = setting_or(namespace, DEFAULT_NAMESPACE);
    let port: u16 = match parse_u16(setting_or(port, DEFAULT_PORT).as_str()) {
        Some(port) => port,
        None => return Err(ConfigError::BadPort),
    };
    let raw_ttl = setting_or(job_ttl_seconds, DEFAULT_JOB_TTL_SECONDS);
    if !raw_ttl.as_str().is_empty() {
        match parse_i32(raw_ttl.as_str()) {
            Some(ttl) => if ttl < 0 {
                return Err(ConfigError::BadJobTtl);
            },
            None => return Err(ConfigError::BadJobTtl),
        }
    }
    let job_ttl_seconds = parse_job_ttl(Some(raw_ttl));
    Ok(Config { api_secret, cronjob_name, namespace, port, job_ttl_seconds })
}

/// The secret and the CronJob have to be given, the secret not empty. Without
/// the other settings the service runs in the namespace `default`, listens on
/// port 8080 and keeps finished Jobs for a day.
pub proof fn law_defaults(api_secret: Seq<char>, cronjob_name: Seq<char>)
    requires
        api_secret.len() > 0,
    ensures
        config_from(Some(api_secret), Some(cronjob_name), None, None, None) == Ok::<
            ConfigView,
            ConfigError,
        >(
            ConfigView {
                api_secret,
                cronjob_name,
                namespace: "default"@,
                port: 8080,
                job_ttl_seconds: Some(86400),
            },
        ),
{
    reveal_strlit("8080");
    reveal_strlit("86400");
    reveal_with_fuel(digits_value, 6);
    let port = "8080"@;
    assert(port.drop_last().drop_last().drop_last().drop_last() =~= Seq::empty());
    assert(digits_value(port) == 8080);
    let ttl = "86400"@;
    assert(digits_value(ttl) == 86400);
}

/// The service never runs with an empty secret.
pub proof fn law_secret_is_not_empty(
    api_secret: Option<Seq<char>>,
    cronjob_name: Option<Seq<char>>,
    namespace: Option<Seq<char>>,
    port: Option<Seq<char>>,
    job_ttl_seconds: Option<Seq<char>>,
)
    ensures
        config_from(
            api_secret,
            cronjob_name,
            namespace,
            port,
            job_ttl_seconds,
        ) matches Ok(config) ==> config.api_secret.len() > 0,
{
}

/// An empty setting lifts the limit on how long finished Jobs are kept.
pub proof fn law_empty_ttl_disables(
    api_secret: Option<Seq<char>>,
    cronjob_name: Option<Seq<char>>,
    namespace: Option<Seq<char>>,
    port: Option<Seq<char>>,
)
    ensures
        config_from(
            api_secret,
            cronjob_name,
            namespace,
            port,
            Some(Seq::empty()),
        ) matches Ok(config) ==> config.job_ttl_seconds is None,
        !(config_from(api_secret, cronjob_name, namespace, port, Some(Seq::empty())) == Err::<
            ConfigView,
            ConfigError,
        >(ConfigError::BadJobTtl)),
{
}

/// The service never runs with a negative time for which finished Jobs are
/// kept.
pub proof fn law_ttl_is_not_negative(
    api_secret: Option<Seq<char>>,
    cronjob_name: Option<Seq<char>>,
    namespace: Option<Seq<char>>,
    port: Option<Seq<char>>,
    job_ttl_seconds: Option<Seq<char>>,
)
    ensures
        config_from(
            api_secret,
            cronjob_name,
            namespace,
            port,
            job_ttl_seconds,
        ) matches Ok(config) ==> (config.job_ttl_seconds matches Some(ttl) ==> ttl >= 0),
{
}

/// A number written in decimal digits, without leading zeros.
pub open spec fn decimal(n: nat) -> Seq<char>
    decreases n,
{
    let digit = ('0' as nat + n % 10) as char;
    if n < 10 {
        seq![digit]
    } else {
        decimal(n / 10).push(digit)
    }
}

/// A number in decimal digits stands for itself.
proof fn lemma_decimal_reads_back(n: nat)
    ensures
        is_digits(decimal(n)),
        digits_value(decimal(n)) == n,
    decreases n,
{
    let digit = ('0' as nat + n % 10) as char;
    if n < 10 {
        assert(decimal(n).drop_last() =~= Seq::empty());
        assert(digits_value(decimal(n).drop_last()) == 0);
    } else {
        lemma_decimal_reads_back(n / 10);
        assert(decimal(n).drop_last() =~= decimal(n / 10));
    }
}

/// A time written in decimal digits is read back, up to the largest `i32`.
pub proof fn law_ttl_reads_back(n: nat)
    requires
        n <= i32::MAX,
    ensures
        ttl_setting_is_valid(Some(decimal(n))),
        ttl_setting(Some(decimal(n))) == Some(n as i32),
{
    lemma_decimal_reads_back(n);
}

/// On its own, too, the setting is read as it is written: missing or empty it
/// sets nothing, and otherwise it sets the number that it writes, or is refused
/// where it writes none.
pub proof fn law_ttl_setting(raw: Option<Seq<char>>)
    ensures
        raw is None ==> ttl_setting_is_valid(raw) && ttl_setting(raw) is None,
        raw matches Some(s) ==> {
            &&& ttl_setting_is_valid(raw) <==> (s.len() == 0 || writes_number_up_to(s, 2147483647)
                || writes_minus_zero(s))
            &&& s.len() == 0 ==> ttl_setting(raw) is None
            &&& s.len() > 0 && ttl_setting_is_valid(raw) ==> {
                &&& ttl_setting(raw) matches Some(n)
                &&& n >= 0
                &&& writes(s, n as nat) || (n == 0
                    && writes_minus_zero(s))
            }
        },
{
    if raw is Some {
        lemma_ttl_texts(raw->0);
    }
}

/// So many zeros.
pub open spec fn zeros(count: nat) -> Seq<char> {
    Seq::new(count, |i: int| '0')
}

/// A number as it may be written: in decimal digits, with zeros before them,
/// and with a plus sign or without.
pub open spec fn numeral(plus: bool, leading: nat, n: nat) -> Seq<char> {
    (if plus {
        seq!['+']
    } else {
        Seq::empty()
    }) + zeros(leading) + decimal(n)
}

/// Whether a text is a way to write this number.
pub open spec fn writes(s: Seq<char>, n: nat) -> bool {
    exists|plus: bool, leading: nat| s == #[trigger] numeral(plus, leading, n)
}

/// Whether a text is a way to write some number up to `max`.
pub open spec fn writes_number_up_to(s: Seq<char>, max: nat) -> bool {
    exists|n: nat| n <= max && #[trigger] writes(s, n)
}

/// Whether a text is zero behind a minus sign.
pub open spec fn writes_minus_zero(s: Seq<char>) -> bool {
    exists|leading: nat| s == seq!['-'] + #[trigger] numeral(false, leading, 0)
}

/// A zero in front changes no number.
proof fn lemma_leading_zero(s: Seq<char>)
    ensures
        digits_value(seq!['0'] + s) == digits_value(s),
    decreases s.len(),
{
    let longer = seq!['0'] + s;
    if s.len() == 0 {
        assert(longer.drop_last() =~= s);
        assert(longer.last() == '0');
    } else {
        lemma_leading_zero(s.drop_last());
        assert(longer.drop_last() =~= seq!['0'] + s.drop_last());
        assert(longer.last() == s.last());
    }
}

proof fn lemma_zeros_before_digits(leading: nat, n: nat)
    ensures
        is_digits(zeros(leading) + decimal(n)),
        digits_value(zeros(leading) + decimal(n)) == n,
    decreases leading,
{
    lemma_decimal_reads_back(n);
    let s = zeros(leading) + decimal(n);
    if leading == 0 {
        assert(s =~= decimal(n));
    } else {
        let shorter = zeros((leading - 1) as nat) + decimal(n);
        lemma_zeros_before_digits((leading - 1) as nat, n);
        lemma_leading_zero(shorter);
        assert(s =~= seq!['0'] + shorter);
    }
}

/// Any digits are some number in decimal, with zeros before it.
proof fn lemma_digits_are_a_number(s: Seq<char>) -> (leading: nat)
    requires
        is_digits(s),
    ensures
        digits_value(s) >= 0,
        s == zeros(leading) + decimal(digits_value(s) as nat),
    decreases s.len(),
{
    let front = s.drop_last();
    let last = s.last();
    assert(s =~= front.push(last));
    assert('0' <= s[s.len() - 1] <= '9');
    let digit = (last as int - '0' as int) as nat;
    assert(decimal(digit) =~= seq![last]);
    if front.len() == 0 {
        assert(digits_value(front) == 0);
        assert(s =~= zeros(0) + decimal(digit));
        0
    } else {
        assert forall|i: int| 0 <= i < front.len() implies '0' <= #[trigger] front[i] <= '9' by {
            assert(front[i] == s[i]);
        }
        let leading = lemma_digits_are_a_number(front);
        let value = digits_value(front) as nat;
        if value == 0 {
            assert(decimal(0) =~= seq!['0']);
            assert(s =~= zeros(leading + 1) + decimal(digit));
            leading + 1
        } else {
            assert(decimal(10 * value + digit) =~= decimal(value).push(last));
            assert(s =~= zeros(leading) + decimal(10 * value + digit));
            leading
        }
    }
}

proof fn lemma_numeral_is_read(plus: bool, leading: nat, n: nat)
    ensures
        unsigned_number(numeral(plus, leading, n)) == Some(n as int),
        signed_number(numeral(plus, leading, n)) == Some(n as int),
        numeral(plus, leading, n).len() > 0,
{
    lemma_zeros_before_digits(leading, n);
    let s = numeral(plus, leading, n);
    let digits = zeros(leading) + decimal(n);
    if plus {
        assert(s.skip(1) =~= digits);
        assert(s[0] == '+');
    } else {
        assert(s =~= digits);
        assert('0' <= s[0] <= '9');
    }
}

proof fn lemma_written_is_read(s: Seq<char>, n: nat)
    requires
        writes(s, n),
    ensures
        unsigned_number(s) == Some(n as int),
        signed_number(s) == Some(n as int),
        s.len() > 0,
{
    let (plus, leading) = choose|plus: bool, leading: nat|
        s == #[trigger] numeral(plus, leading, n);
    lemma_numeral_is_read(plus, leading, n);
}

proof fn lemma_read_is_a_numeral(s: Seq<char>)
    ensures
        unsigned_number(s) matches Some(n) ==> n >= 0 && writes(s, n as nat),
{
    if is_digits(s) {
        let leading = lemma_digits_are_a_number(s);
        assert(s =~= numeral(false, leading, digits_value(s) as nat));
        assert(writes(s, digits_value(s) as nat));
    } else if s.len() > 0 && s[0] == '+' && is_digits(s.skip(1)) {
        let leading = lemma_digits_are_a_number(s.skip(1));
        let n = digits_value(s.skip(1)) as nat;
        assert(s =~= seq!['+'] + s.skip(1));
        assert(numeral(true, leading, n) =~= seq!['+'] + (zeros(leading) + decimal(n)));
        assert(s == numeral(true, leading, n));
        assert(writes(s, n));
    }
}

proof fn lemma_port_texts(s: Seq<char>)
    ensures
        u16_of(s) is Some <==> writes_number_up_to(s, 65535),
        u16_of(s) matches Some(p) ==> writes(s, p as nat),
{
    lemma_read_is_a_numeral(s);
    if writes_number_up_to(s, 65535) {
        let n = choose|n: nat| n <= 65535 && #[trigger] writes(s, n);
        lemma_written_is_read(s, n);
    }
    if u16_of(s) is Some {
        assert(writes(s, u16_of(s)->0 as nat));
    }
}

proof fn lemma_minus_zero_is_read(leading: nat)
    ensures
        seconds_of(seq!['-'] + numeral(false, leading, 0)) == Some(0i32),
{
    let digits = zeros(leading) + decimal(0);
    let s = seq!['-'] + numeral(false, leading, 0);
    lemma_zeros_before_digits(leading, 0);
    assert(s.skip(1) =~= digits);
    assert(s[0] == '-');
}

proof fn lemma_ttl_texts(s: Seq<char>)
    ensures
        seconds_of(s) is Some <==> writes_number_up_to(s, 2147483647) || writes_minus_zero(s),
        seconds_of(s) matches Some(n) ==> n >= 0 && (writes(s, n as nat) || (n == 0 && writes_minus_zero(s))),
{
    if writes_number_up_to(s, 2147483647) {
        let n = choose|n: nat| n <= 2147483647 && #[trigger] writes(s, n);
        lemma_written_is_read(s, n);
    }
    if writes_minus_zero(s) {
        let leading = choose|leading: nat| s == seq!['-'] + #[trigger] numeral(false, leading, 0);
        lemma_minus_zero_is_read(leading);
    }
    if seconds_of(s) is Some {
        if s.len() > 0 && s[0] == '-' && is_digits(s.skip(1)) {
            let leading = lemma_digits_are_a_number(s.skip(1));
            assert(digits_value(s.skip(1)) == 0);
            assert(s =~= seq!['-'] + numeral(false, leading, 0));
        } else {
            lemma_read_is_a_numeral(s);
            assert(writes(s, seconds_of(s)->0 as nat));
        }
    }
}

/// A text writes one number at most.
pub proof fn law_numerals_are_unambiguous(s: Seq<char>, n: nat, other: nat)
    requires
        writes(s, n),
        writes(s, other),
    ensures
        n == other,
{
    lemma_written_is_read(s, n);
    lemma_written_is_read(s, other);
}

/// A number in decimal digits is one way to write it.
pub proof fn law_decimal_is_a_numeral(n: nat)
    ensures
        writes(decimal(n), n),
{
    assert(numeral(false, 0, n) =~= decimal(n));
}

/// The service runs with what it was given: each setting is the one that the
/// environment holds, number for number and character for character, and the
/// default where the environment holds none.
pub proof fn law_settings_are_those_given(
    api_secret: Option<Seq<char>>,
    cronjob_name: Option<Seq<char>>,
    namespace: Option<Seq<char>>,
    port: Option<Seq<char>>,
    job_ttl_seconds: Option<Seq<char>>,
)
    ensures
        config_from(
            api_secret,
            cronjob_name,
            namespace,
            port,
            job_ttl_seconds,
        ) matches Ok(config) ==> {
            &&& api_secret == Some(config.api_secret)
            &&& cronjob_name == Some(config.cronjob_name)
            &&& match namespace {
                Some(given) => config.namespace == given,
                None => config.namespace == "default"@,
            }
            &&& match port {
                Some(given) => writes(given, config.port as nat),
                None => config.port == 8080,
            }
            &&& match job_ttl_seconds {
                Some(given) => match config.job_ttl_seconds {
                    None => given.len() == 0,
                    Some(n) => n >= 0 && (writes(given, n as nat) || (n == 0
                        && writes_minus_zero(given))),
                },
                None => config.job_ttl_seconds == Some(86400i32),
            }
        },
{
    if port is Some {
        lemma_port_texts(port->0);
    }
    if job_ttl_seconds is Some {
        lemma_ttl_texts(job_ttl_seconds->0);
    }
    law_defaults(seq!['s'], seq!['c']);
}

/// What keeps the service from starting: a secret that is missing or empty, a
/// CronJob that is missing, a port that is no number up to 65535, and a time
/// that is neither empty nor a number from zero up to the largest `i32`; in this
/// order, and nothing else.
pub proof fn law_settings_that_are_refused(
    api_secret: Option<Seq<char>>,
    cronjob_name: Option<Seq<char>>,
    namespace: Option<Seq<char>>,
    port: Option<Seq<char>>,
    job_ttl_seconds: Option<Seq<char>>,
)
    ensures
        ({
            let loaded = config_from(api_secret, cronjob_name, namespace, port, job_ttl_seconds);
            if api_secret is None {
                loaded == Err::<ConfigView, ConfigError>(ConfigError::NoApiSecret)
            } else if api_secret->0.len() == 0 {
                loaded == Err::<ConfigView, ConfigError>(ConfigError::EmptyApiSecret)
            } else if cronjob_name is None {
                loaded == Err::<ConfigView, ConfigError>(ConfigError::NoCronJobName)
            } else if port is Some && !writes_number_up_to(port->0, 65535) {
                loaded == Err::<ConfigView, ConfigError>(ConfigError::BadPort)
            } else if job_ttl_seconds is Some && job_ttl_seconds->0.len() > 0
                && !writes_number_up_to(job_ttl_seconds->0, 2147483647) && !writes_minus_zero(
                job_ttl_seconds->0,
            ) {
                loaded == Err::<ConfigView, ConfigError>(ConfigError::BadJobTtl)
            } else {
                loaded is Ok
            }
        }),
{
    if port is Some {
        lemma_port_texts(port->0);
    }
    if job_ttl_seconds is Some {
        lemma_ttl_texts(job_ttl_seconds->0);
    }
    law_defaults(seq!['s'], seq!['c']);
}

/// A time that is set, up to the largest `i32`, is the time for which finished
/// Jobs are kept, and changes no other setting.
pub proof fn law_ttl_that_is_set_is_used(
    api_secret: Option<Seq<char>>,
    cronjob_name: Option<Seq<char>>,
    namespace: Option<Seq<char>>,
    port: Option<Seq<char>>,
    given: Seq<char>,
    n: nat,
)
    requires
        writes(given, n),
        n <= i32::MAX,
    ensures
        config_from(api_secret, cronjob_name, namespace, port, None) matches Ok(base)
            ==> config_from(
            api_secret,
            cronjob_name,
            namespace,
            port,
            Some(given),
        ) == Ok::<ConfigView, ConfigError>(
            ConfigView { job_ttl_seconds: Some(n as i32), ..base },
        ),
{
    lemma_written_is_read(given, n);
}

/// A port that is set is the port that the service listens on, and changes no
/// other setting.
pub proof fn law_port_that_is_set_is_used(
    api_secret: Option<Seq<char>>,
    cronjob_name: Option<Seq<char>>,
    namespace: Option<Seq<char>>,
    job_ttl_seconds: Option<Seq<char>>,
    given: Seq<char>,
    p: nat,
)
    requires
        writes(given, p),
        p <= 65535,
    ensures
        config_from(api_secret, cronjob_name, namespace, None, job_ttl_seconds) matches Ok(base)
            ==> config_from(
            api_secret,
            cronjob_name,
            namespace,
            Some(given),
            job_ttl_seconds,
        ) == Ok::<ConfigView, ConfigError>(ConfigView { port: p as u16, ..base }),
{
    lemma_written_is_read(given, p);
}

/// A namespace that is set is the namespace of the service, and changes no
/// other setting.
pub proof fn law_namespace_that_is_set_is_used(
    api_secret: Option<Seq<char>>,
    cronjob_name: Option<Seq<char>>,
    namespace: Seq<char>,
    port: Option<Seq<char>>,
    job_ttl_seconds: Option<Seq<char>>,
)
    ensures
        config_from(api_secret, cronjob_name, None, port, job_ttl_seconds) matches Ok(base)
            ==> config_from(
            api_secret,
            cronjob_name,
            Some(namespace),
            port,
            job_ttl_seconds,
        ) == Ok::<ConfigView, ConfigError>(ConfigView { namespace, ..base }),
{
}

/// Loaded settings are shown as they are, and so is the error where there are
/// none.
pub proof fn law_loaded_settings_are_shown(config: Config, error: ConfigError)
    ensures
        loaded_view(Err(error)) == Err::<ConfigView, ConfigError>(error),
        loaded_view(Ok(config)) is Ok,
        loaded_view(Ok(config))->Ok_0.api_secret == config.api_secret@,
        loaded_view(Ok(config))->Ok_0.cronjob_name == config.cronjob_name@,
        loaded_view(Ok(config))->Ok_0.namespace == config.namespace@,
        loaded_view(Ok(config))->Ok_0.port == config.port,
        loaded_view(Ok(config))->Ok_0.job_ttl_seconds == config.job_ttl_seconds,
{
}

/// The errors in words: each names the setting and says what is wrong with it.
pub proof fn law_config_errors_in_words(error: ConfigError)
    ensures
        match error {
            ConfigError::NoApiSecret => error.words() == "API_SECRET"@
                + " environment variable is required"@,
            ConfigError::EmptyApiSecret => error.words() == "API_SECRET"@ + " must not be empty"@,
            ConfigError::NoCronJobName => error.words() == "CRON_JOB_NAME"@
                + " environment variable is required"@,
            ConfigError::BadPort => error.words() == "PORT"@ + " must be a valid port number"@,
            ConfigError::BadJobTtl => error.words() == "JOB_TTL_SECONDS"@
                + " must be a non-negative integer"@,
        },
{
    reveal_strlit("API_SECRET");
    reveal_strlit("CRON_JOB_NAME");
    reveal_strlit("PORT");
    reveal_strlit("JOB_TTL_SECONDS");
    reveal_strlit(" environment variable is required");
    reveal_strlit(" must not be empty");
    reveal_strlit(" must be a valid port number");
    reveal_strlit(" must be a non-negative integer");
    reveal_strlit("API_SECRET environment variable is required");
    reveal_strlit("API_SECRET must not be empty");
    reveal_strlit("CRON_JOB_NAME environment variable is required");
    reveal_strlit("PORT must be a valid port number");
    reveal_strlit("JOB_TTL_SECONDS must be a non-negative integer");
}

} // verus!
