//! Bus consumer configuration and the batching decisions of a consumer.

use vstd::prelude::*;

verus! {

/// How a bus payload is decoded.
#[derive(Debug, Clone, Copy, PartialEq, Eq, Structural)]
pub enum DeserializerType {
    /// MessagePack through serde.
    RmpSerde,
    /// JSON through serde.
    SerdeJson,
    /// MessagePack, read as by `RmpSerde`.
    RmpRead,
}

impl Default for DeserializerType {
    fn default() -> (r: Self)
        ensures
            r == DeserializerType::RmpSerde,
    {
        DeserializerType::RmpSerde
    }
}

/// A decoded bus record with its position.
#[derive(Debug, Clone)]
pub struct MessageWithOffset<T> {
    pub message: T,
    pub offset: i64,
    pub partition: i32,
    pub topic: String,
}

/// The two bus topics of the pipeline.
#[derive(Debug, Clone, Copy, PartialEq, Eq, Structural, Hash)]
pub enum KafkaTopic {
    UserNotificationPersister,
    UserNotificationPublisher,
}

/// The name of a topic on the bus.
pub open spec fn topic_name(t: KafkaTopic) -> Seq<char> {
    match t {
        KafkaTopic::UserNotificationPersister => "raidenx.user.notify.persister"@,
        KafkaTopic::UserNotificationPublisher => "raidenx.user.notify.publisher"@,
    }
}

impl KafkaTopic {
    /// The topic's name on the bus.
    pub fn name(&self) -> (r: String)
        ensures
            r@ == topic_name(*self),
    {
        match self {
            KafkaTopic::UserNotificationPersister => String::from_str("raidenx.user.notify.persister"),
            KafkaTopic::UserNotificationPublisher => String::from_str("raidenx.user.notify.publisher"),
        }
    }
}

/// Connection settings of the bus client.
#[derive(Debug, Clone)]
pub struct KafkaConfig {
    pub kafka_group_id: String,
    pub kafka_brokers: String,
    pub kafka_ssl_enabled: bool,
    pub kafka_sasl_username: String,
    pub kafka_sasl_password: String,
    pub enable_idempotence: bool,
}

/// Idempotent production is on unless configured off.
pub fn default_enable_idempotence() -> (r: bool)
    ensures
        r,
{
    true
}

/// Settings shared by every consumer.
#[derive(Debug, Clone, Copy, PartialEq, Eq, Structural)]
pub struct BaseConsumerConfig {
    pub batch_size: usize,
    pub batch_timeout_ms: u64,
    pub deserializer: DeserializerType,
    pub session_timeout_ms: u64,
    pub auto_commit: bool,
    pub partition_eof: bool,
    pub enable_debug: bool,
}

/// Why a consumer configuration was refused.
#[derive(Debug, Clone, Copy, PartialEq, Eq, Structural)]
pub enum ConfigError {
    /// `batch_size` is 0.
    ZeroBatchSize,
    /// `batch_timeout_ms` is 0.
    ZeroBatchTimeout,
}

impl BaseConsumerConfig {
    /// Accepts a configuration whose batch size and batch timeout are positive.
    pub fn validate(&self) -> (r: Result<(), ConfigError>)
        ensures
            self.batch_size == 0 ==> r == Err::<(), ConfigError>(ConfigError::ZeroBatchSize),
            self.batch_size != 0 && self.batch_timeout_ms == 0 ==> r == Err::<(), ConfigError>(ConfigError::ZeroBatchTimeout),
            self.batch_size != 0 && self.batch_timeout_ms != 0 ==> r is Ok,
    {
        if self.batch_size == 0 {
            return Err(ConfigError::ZeroBatchSize);
        }
        if self.batch_timeout_ms == 0 {
            return Err(ConfigError::ZeroBatchTimeout);
        }
        Ok(())
    }
}

/// A fixed starting position: a partition and, optionally, an offset in it.
#[derive(Debug, Clone, Copy, PartialEq, Eq, Structural)]
pub struct ConsumerOffset {
    pub partition: i32,
    pub offset: Option<i64>,
}

/// Where a consumer without a committed offset starts.
#[derive(Debug, Clone, Copy, PartialEq, Eq, Structural)]
pub enum AutoOffsetReset {
    Earliest,
    Latest,
    NoReset,
}

impl Default for AutoOffsetReset {
    fn default() -> (r: Self)
        ensures
            r == AutoOffsetReset::Latest,
    {
        AutoOffsetReset::Latest
    }
}

/// The client setting value of a reset policy.
pub open spec fn reset_name(a: AutoOffsetReset) -> Seq<char> {
    match a {
        AutoOffsetReset::Earliest => "earliest"@,
        AutoOffsetReset::Latest => "latest"@,
        AutoOffsetReset::NoReset => "none"@,
    }
}

impl AutoOffsetReset {
    pub fn as_str(&self) -> (r: &'static str)
        ensures
            r@ == reset_name(*self),
    {
        match self {
            AutoOffsetReset::Earliest => "earliest",
            AutoOffsetReset::Latest => "latest",
            AutoOffsetReset::NoReset => "none",
        }
    }
}

/// Full configuration of a stream consumer.
#[derive(Debug, Clone, Copy, PartialEq, Eq, Structural)]
pub struct StreamConsumerConfig {
    pub base: BaseConsumerConfig,
    pub offset_config: Option<ConsumerOffset>,
    pub auto_offset_reset: AutoOffsetReset,
}

impl StreamConsumerConfig {
    /// Accepts exactly what the base configuration accepts.
    pub fn validate(&self) -> (r: Result<(), ConfigError>)
        ensures
            self.base.batch_size == 0 ==> r == Err::<(), ConfigError>(ConfigError::ZeroBatchSize),
            self.base.batch_size != 0 && self.base.batch_timeout_ms == 0 ==> r == Err::<(), ConfigError>(ConfigError::ZeroBatchTimeout),
            self.base.batch_size != 0 && self.base.batch_timeout_ms != 0 ==> r is Ok,
    {
        self.base.validate()
    }
}

/// The configuration a builder starts from: batches of 100 within 5 s,
/// MessagePack payloads, a 30 s session, explicit commits, no end-of-partition
/// events, no debug output, no fixed position, and the latest offset on reset.
pub open spec fn default_consumer_config() -> StreamConsumerConfig {
    StreamConsumerConfig {
        base: BaseConsumerConfig {
            batch_size: 100,
            batch_timeout_ms: 5000,
            deserializer: DeserializerType::RmpSerde,
            session_timeout_ms: 30000,
            auto_commit: false,
            partition_eof: false,
            enable_debug: false,
        },
        offset_config: None,
        auto_offset_reset: AutoOffsetReset::Latest,
    }
}

/// Builds a [`StreamConsumerConfig`] one setting at a time.
pub struct StreamConsumerBuilder {
    config: StreamConsumerConfig,
}

impl View for StreamConsumerBuilder {
    type V = StreamConsumerConfig;

    closed spec fn view(&self) -> StreamConsumerConfig {
        self.config
    }
}

impl StreamConsumerBuilder {
    pub fn new() -> (r: Self)
        ensures
            r@ == default_consumer_config(),
    {
        StreamConsumerBuilder {
            config: StreamConsumerConfig {
                base: BaseConsumerConfig {
                    batch_size: 100,
                    batch_timeout_ms: 5000,
                    deserializer: DeserializerType::RmpSerde,
                    session_timeout_ms: 30000,
                    auto_commit: false,
                    partition_eof: false,
                    enable_debug: false,
                },
                offset_config: None,
                auto_offset_reset: AutoOffsetReset::Latest,
            },
        }
    }

    pub fn batch_size(self, size: usize) -> (r: Self)
        ensures
            r@ == (StreamConsumerConfig { base: BaseConsumerConfig { batch_size: size, ..self@.base }, ..self@ }),
    {
        let mut s = self;
        s.config.base.batch_size = size;
        s
    }

    pub fn batch_timeout_ms(self, timeout: u64) -> (r: Self)
        ensures
            r@ == (StreamConsumerConfig { base: BaseConsumerConfig { batch_timeout_ms: timeout, ..self@.base }, ..self@ }),
    {
        let mut s = self;
        s.config.base.batch_timeout_ms = timeout;
        s
    }

    pub fn deserializer(self, deserializer: DeserializerType) -> (r: Self)
        ensures
            r@ == (StreamConsumerConfig { base: BaseConsumerConfig { deserializer: deserializer, ..self@.base }, ..self@ }),
    {
        let mut s = self;
        s.config.base.deserializer = deserializer;
        s
    }

    pub fn offset_config(self, offset: ConsumerOffset) -> (r: Self)
        ensures
            r@ == (StreamConsumerConfig { offset_config: Some(offset), ..self@ }),
    {
        let mut s = self;
        s.config.offset_config = Some(offset);
        s
    }

    pub fn session_timeout_ms(self, timeout: u64) -> (r: Self)
        ensures
            r@ == (StreamConsumerConfig { base: BaseConsumerConfig { session_timeout_ms: timeout, ..self@.base }, ..self@ }),
    {
        let mut s = self;
        s.config.base.session_timeout_ms = timeout;
        s
    }

    pub fn auto_commit(self, enable: bool) -> (r: Self)
        ensures
            r@ == (StreamConsumerConfig { base: BaseConsumerConfig { auto_commit: enable, ..self@.base }, ..self@ }),
    {
        let mut s = self;
        s.config.base.auto_commit = enable;
        s
    }

    pub fn auto_offset_reset(self, strategy: AutoOffsetReset) -> (r: Self)
        ensures
            r@ == (StreamConsumerConfig { auto_offset_reset: strategy, ..self@ }),
    {
        let mut s = self;
        s.config.auto_offset_reset = strategy;
        s
    }

    pub fn partition_eof(self, enable: bool) -> (r: Self)
        ensures
            r@ == (StreamConsumerConfig { base: BaseConsumerConfig { partition_eof: enable, ..self@.base }, ..self@ }),
    {
        let mut s = self;
        s.config.base.partition_eof = enable;
        s
    }

    pub fn enable_debug(self, enable: bool) -> (r: Self)
        ensures
            r@ == (StreamConsumerConfig { base: BaseConsumerConfig { enable_debug: enable, ..self@.base }, ..self@ }),
    {
        let mut s = self;
        s.config.base.enable_debug = enable;
        s
    }

    pub fn build(self) -> (r: StreamConsumerConfig)
        ensures
            r == self@,
    {
        self.config
    }
}

/// The configuration of a consumer that decodes with `deserializer` and keeps
/// every other default.
pub fn create_consumer_config(deserializer: DeserializerType) -> (r: StreamConsumerConfig)
    ensures
        r == (StreamConsumerConfig { base: BaseConsumerConfig { deserializer: deserializer, ..default_consumer_config().base }, ..default_consumer_config() }),
{
    StreamConsumerBuilder::new().deserializer(deserializer).build()
}

/// Decodes payloads in one format.
pub struct MessageHandler {
    deserializer: DeserializerType,
}

impl MessageHandler {
    pub fn new(deserializer: DeserializerType) -> (r: Self)
        ensures
            r.format() == deserializer,
    {
        MessageHandler { deserializer }
    }

    /// The format this handler decodes.
    pub closed spec fn format(&self) -> DeserializerType {
        self.deserializer
    }

    /// The format this handler decodes.
    pub fn deserializer(&self) -> (r: DeserializerType)
        ensures
            r == self.format(),
    {
        self.deserializer
    }
}

/// Whether a batch being filled should take another record: it is below
/// `batch_size` and `elapsed_ms` has not reached the batch timeout.
pub fn keep_collecting(len: usize, batch_size: usize, elapsed_ms: u64, batch_timeout_ms: u64) -> (r: bool)
    ensures
        r == (len < batch_size && elapsed_ms < batch_timeout_ms),
{
    len < batch_size && elapsed_ms < batch_timeout_ms
}

/// The position to commit once a batch is processed: the partition of its last
/// record and the offset after it; `None` for an empty batch or an offset that
/// has no successor.
pub fn commit_position<T>(batch: &Vec<MessageWithOffset<T>>) -> (r: Option<(i32, i64)>)
    ensures
        batch@.len() == 0 ==> r is None,
        batch@.len() > 0 ==> r == if batch@.last().offset < i64::MAX {
            Some((batch@.last().partition, (batch@.last().offset + 1) as i64))
        } else {
            None::<(i32, i64)>
        },
{
    if batch.len() == 0 {
        return None;
    }
    let last = &batch[batch.len() - 1];
    if last.offset < i64::MAX {
        Some((last.partition, last.offset + 1))
    } else {
        None
    }
}

} // verus!
