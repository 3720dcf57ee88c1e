use renovate_k8s_trigger::config::{load_config, parse_job_ttl, Config, ConfigError};

fn some(s: &str) -> Option<String> {
    Some(s.to_string())
}

fn with_port(port: &str) -> Result<Config, ConfigError> {
    load_config(some("secret"), some("renovate"), None, some(port), None)
}

fn with_ttl(ttl: &str) -> Result<Config, ConfigError> {
    load_config(some("secret"), some("renovate"), None, None, some(ttl))
}

#[test]
fn ttl_settings() {
    assert_eq!(parse_job_ttl(None), None);
    assert_eq!(parse_job_ttl(some("")), None);
    assert_eq!(parse_job_ttl(some("86400")), Some(86400));
    assert_eq!(parse_job_ttl(some("0")), Some(0));
    assert_eq!(parse_job_ttl(some("+7")), Some(7));
    assert_eq!(parse_job_ttl(some("-0")), Some(0));
    assert_eq!(parse_job_ttl(some("0060")), Some(60));
    assert_eq!(parse_job_ttl(some("2147483647")), Some(2147483647));
}

#[test]
fn defaults() {
    let config = load_config(some("secret"), some("renovate"), None, None, None).ok().unwrap();
    assert_eq!(config.api_secret, "secret");
    assert_eq!(config.cronjob_name, "renovate");
    assert_eq!(config.namespace, "default");
    assert_eq!(config.port, 8080);
    assert_eq!(config.job_ttl_seconds, Some(86400));
}

#[test]
fn given_settings() {
    let config =
        load_config(some("s"), some("c"), some("ns"), some("65535"), some("60")).ok().unwrap();
    assert_eq!(config.api_secret, "s");
    assert_eq!(config.cronjob_name, "c");
    assert_eq!(config.namespace, "ns");
    assert_eq!(config.port, 65535);
    assert_eq!(config.job_ttl_seconds, Some(60));
}

#[test]
fn an_empty_ttl_disables() {
    assert_eq!(with_ttl("").ok().unwrap().job_ttl_seconds, None);
}

#[test]
fn required_settings() {
    let error = load_config(None, None, None, some("x"), some("x")).err().unwrap();
    assert_eq!(error, ConfigError::NoApiSecret);
    assert_eq!(error.message(), "API_SECRET environment variable is required");
    let error = load_config(some(""), None, None, None, None).err().unwrap();
    assert_eq!(error, ConfigError::EmptyApiSecret);
    assert_eq!(error.message(), "API_SECRET must not be empty");
    let error = load_config(some("s"), None, None, some("x"), None).err().unwrap();
    assert_eq!(error, ConfigError::NoCronJobName);
    assert_eq!(error.message(), "CRON_JOB_NAME environment variable is required");
}

#[test]
fn ports() {
    assert_eq!(with_port("0").ok().unwrap().port, 0);
    assert_eq!(with_port("+80").ok().unwrap().port, 80);
    for bad in ["", "65536", "-1", "-0", "8080 ", "80a", "+", "8_080", "\u{663}"] {
        let error = with_port(bad).err().unwrap();
        assert_eq!(error, ConfigError::BadPort);
        assert_eq!(error.message(), "PORT must be a valid port number");
    }
}

#[test]
fn ttls_that_are_refused() {
    for bad in ["x", "1.5", " 1", "2147483648", "-1", "-5", "-2147483648", "-2147483649", "-", "+", "--1", "1d"] {
        let error = with_ttl(bad).err().unwrap();
        assert_eq!(error, ConfigError::BadJobTtl);
        assert_eq!(error.message(), "JOB_TTL_SECONDS must be a non-negative integer");
    }
    assert_eq!(with_ttl("-0").ok().unwrap().job_ttl_seconds, Some(0));
}

#[test]
fn a_ttl_in_digits_reads_back() {
    for n in [0, 1, 9, 10, 99, 100, 3600, 86400, 1000000000, i32::MAX] {
        assert_eq!(parse_job_ttl(Some(n.to_string())), Some(n));
    }
}
