use push_notify_service::consumer::{
    commit_position, create_consumer_config, default_enable_idempotence, keep_collecting, AutoOffsetReset,
    BaseConsumerConfig, ConfigError, ConsumerOffset, DeserializerType, KafkaTopic, MessageHandler,
    MessageWithOffset, StreamConsumerBuilder,
};
use push_notify_service::pagination::{PaginationQuery, PaginationResponseDto};
use push_notify_service::scopes::{convert_scopes, EAvailableScope};

#[test]
fn builder_defaults_and_setters() {
    let c = StreamConsumerBuilder::new().build();
    assert_eq!(c.base.batch_size, 100);
    assert_eq!(c.base.batch_timeout_ms, 5000);
    assert_eq!(c.base.session_timeout_ms, 30000);
    assert!(!c.base.auto_commit);
    assert_eq!(c.auto_offset_reset, AutoOffsetReset::Latest);
    assert_eq!(c.offset_config, None);
    let c = StreamConsumerBuilder::new()
        .batch_size(5)
        .batch_timeout_ms(7)
        .deserializer(DeserializerType::SerdeJson)
        .offset_config(ConsumerOffset { partition: 2, offset: Some(9) })
        .session_timeout_ms(11)
        .auto_commit(true)
        .auto_offset_reset(AutoOffsetReset::Earliest)
        .partition_eof(true)
        .enable_debug(true)
        .build();
    assert_eq!(c.base.batch_size, 5);
    assert_eq!(c.base.batch_timeout_ms, 7);
    assert_eq!(c.base.deserializer, DeserializerType::SerdeJson);
    assert_eq!(c.offset_config, Some(ConsumerOffset { partition: 2, offset: Some(9) }));
    assert_eq!(c.base.session_timeout_ms, 11);
    assert!(c.base.auto_commit && c.base.partition_eof && c.base.enable_debug);
    assert_eq!(c.auto_offset_reset, AutoOffsetReset::Earliest);
    assert_eq!(create_consumer_config(DeserializerType::RmpRead).base.deserializer, DeserializerType::RmpRead);
    assert_eq!(MessageHandler::new(DeserializerType::SerdeJson).deserializer(), DeserializerType::SerdeJson);
    assert!(default_enable_idempotence());
}

#[test]
fn validation_errors() {
    let base = StreamConsumerBuilder::new().build();
    assert_eq!(base.validate(), Ok(()));
    assert_eq!(StreamConsumerBuilder::new().batch_size(0).build().validate(), Err(ConfigError::ZeroBatchSize));
    assert_eq!(StreamConsumerBuilder::new().batch_timeout_ms(0).build().validate(), Err(ConfigError::ZeroBatchTimeout));
    let b = BaseConsumerConfig { batch_size: 0, batch_timeout_ms: 0, ..base.base };
    assert_eq!(b.validate(), Err(ConfigError::ZeroBatchSize));
}

#[test]
fn reset_names_and_topics() {
    assert_eq!(AutoOffsetReset::Earliest.as_str(), "earliest");
    assert_eq!(AutoOffsetReset::Latest.as_str(), "latest");
    assert_eq!(AutoOffsetReset::NoReset.as_str(), "none");
    assert_eq!(AutoOffsetReset::default(), AutoOffsetReset::Latest);
    assert_eq!(KafkaTopic::UserNotificationPersister.name(), "raidenx.user.notify.persister");
    assert_eq!(KafkaTopic::UserNotificationPublisher.name(), "raidenx.user.notify.publisher");
}

#[test]
fn batching_decisions() {
    assert!(keep_collecting(0, 100, 0, 5000));
    assert!(!keep_collecting(100, 100, 0, 5000));
    assert!(!keep_collecting(3, 100, 5000, 5000));
    let rec = |o: i64, p: i32| MessageWithOffset { message: (), offset: o, partition: p, topic: "t".to_string() };
    assert_eq!(commit_position::<()>(&vec![]), None);
    assert_eq!(commit_position(&vec![rec(4, 1), rec(9, 3)]), Some((3, 10)));
    assert_eq!(commit_position(&vec![rec(i64::MAX, 0)]), None);
}

#[test]
fn pagination() {
    let q = PaginationQuery { page: None, limit: None };
    assert_eq!((q.page(), q.limit(), q.skip()), (1, 20, 0));
    let q = PaginationQuery { page: Some(0), limit: Some(0) };
    assert_eq!((q.page(), q.limit(), q.skip()), (1, 20, 0));
    let q = PaginationQuery { page: Some(3), limit: Some(15) };
    assert_eq!((q.page(), q.limit(), q.skip()), (3, 15, 30));
    let e = PaginationResponseDto::<u8>::empty();
    assert_eq!((e.page, e.limit, e.total_docs, e.total_pages, e.docs.len()), (1, 20, 0, 0, 0));
}

#[test]
fn scopes() {
    assert_eq!(EAvailableScope::parse("FULL_ACCESS"), Ok(EAvailableScope::FullAccess));
    assert_eq!(EAvailableScope::parse("Common.Token.Read_Only"), Ok(EAvailableScope::TokenReadOnly));
    assert_eq!(EAvailableScope::parse("bogus"), Err("Invalid scope: bogus".to_string()));
    let got = convert_scopes(vec!["settings.full_access".to_string(), "nope".to_string(), "COMMON.REFERRALS.WRITE".to_string()]);
    assert_eq!(got, vec![EAvailableScope::SettingsFullAccess, EAvailableScope::ReferralsWrite]);
}
