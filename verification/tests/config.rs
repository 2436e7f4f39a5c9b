use actor::config::{ActorConfig, BATCH_SIZE};

#[test]
fn new_config_takes_default_batches() {
    let config = ActorConfig::new(32);
    assert_eq!(config.channel_size, 32);
    assert_eq!(config.batch_size, 16);
    assert_eq!(BATCH_SIZE, 16);
}

#[test]
fn batch_size_is_at_least_one() {
    let config = ActorConfig::new(8);
    assert_eq!(config.with_batch_size(0).batch_size, 1);
    assert_eq!(config.with_batch_size(1).batch_size, 1);
    assert_eq!(config.with_batch_size(5).batch_size, 5);
    assert_eq!(config.with_batch_size(5).channel_size, 8);
    assert_eq!(config.with_batch_size(usize::MAX).batch_size, usize::MAX);
}

#[test]
fn batch_limit_mends_a_written_zero() {
    let config = ActorConfig { channel_size: 4, batch_size: 0 };
    assert_eq!(config.batch_limit(), 1);
    assert_eq!(ActorConfig { channel_size: 4, batch_size: 7 }.batch_limit(), 7);
}
