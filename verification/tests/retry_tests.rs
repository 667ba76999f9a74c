use dtqs::config::{Config, DEFAULT_SERVER_PORT};
use dtqs::retry::{retry_delay_ms, should_retry, RETRY_BUDGET};

#[test]
fn the_schedule_is_exponential_from_one_hundred_milliseconds() {
    assert_eq!(retry_delay_ms(0), 100);
    assert_eq!(retry_delay_ms(1), 10_000);
    assert_eq!(retry_delay_ms(2), 1_000_000);
    assert_eq!(retry_delay_ms(3), 100_000_000);
    assert_eq!(retry_delay_ms(4), 10_000_000_000);
}

#[test]
fn the_schedule_saturates_instead_of_overflowing() {
    assert_eq!(retry_delay_ms(40), u64::MAX);
}

#[test]
fn five_attempts_are_owed_before_giving_up() {
    for n in 0..RETRY_BUDGET {
        assert!(should_retry(n));
    }
    assert!(!should_retry(RETRY_BUDGET));
    assert!(!should_retry(RETRY_BUDGET + 1));
}

#[test]
fn the_port_defaults_when_the_environment_names_none() {
    let c = Config::new("postgres://db".to_string(), "amqp://mq".to_string(), None);
    assert_eq!(c.server_port, DEFAULT_SERVER_PORT);
    assert_eq!(c.database_url.as_str(), "postgres://db");
    let c2 = Config::new("postgres://db".to_string(), "amqp://mq".to_string(), Some(9000));
    assert_eq!(c2.server_port, 9000);
}
