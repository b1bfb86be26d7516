use vstd::prelude::*;

verus! {

/// Address the gRPC server listens on when the node config names none.
pub const DEFAULT_ADDRESS: &'static str = "0.0.0.0:50051";

/// Transactions returned in a single stream response, by default.
pub const DEFAULT_OUTPUT_BATCH_SIZE: u16 = 100;

/// Transactions each processor handles, by default.
pub const DEFAULT_PROCESSOR_BATCH_SIZE: u16 = 1000;

/// Processor tasks fanned out, by default.
pub const DEFAULT_PROCESSOR_TASK_COUNT: u16 = 20;

/// Configuration of the indexer gRPC service of a node.
#[derive(Clone, Debug, PartialEq, Eq)]
pub struct IndexerGrpcConfig {
    pub enabled: bool,
    /// The address that the grpc server will listen on
    pub address: Option<String>,
    /// Number of processor tasks to fan out
    pub processor_task_count: Option<u16>,
    /// Number of transactions each processor will process
    pub processor_batch_size: Option<u16>,
    /// Number of transactions returned in a single stream response
    pub output_batch_size: Option<u16>,
}

/// The mathematical value of an [`IndexerGrpcConfig`]: the address taken as
/// its characters.
pub struct IndexerGrpcConfigView {
    pub enabled: bool,
    pub address: Option<Seq<char>>,
    pub processor_task_count: Option<u16>,
    pub processor_batch_size: Option<u16>,
    pub output_batch_size: Option<u16>,
}

/// The characters of [`DEFAULT_ADDRESS`].
pub open spec fn default_address() -> Seq<char> {
    DEFAULT_ADDRESS@
}

/// `value` where it is set, else `default`.
pub open spec fn or_default<T>(value: Option<T>, default: T) -> Option<T> {
    match value {
        Some(v) => Some(v),
        None => Some(default),
    }
}

impl View for IndexerGrpcConfig {
    type V = IndexerGrpcConfigView;

    open spec fn view(&self) -> IndexerGrpcConfigView {
        IndexerGrpcConfigView {
            enabled: self.enabled,
            address: match self.address {
                Some(a) => Some(a@),
                None => None,
            },
            processor_task_count: self.processor_task_count,
            processor_batch_size: self.processor_batch_size,
            output_batch_size: self.output_batch_size,
        }
    }
}

impl IndexerGrpcConfigView {
    /// The configuration that optimizing `self` leaves: a disabled indexer is
    /// left as it is; an enabled one keeps every value that is set and takes
    /// the default for every value that is not.
    pub open spec fn optimized(self) -> IndexerGrpcConfigView {
        if !self.enabled {
            self
        } else {
            IndexerGrpcConfigView {
                enabled: self.enabled,
                address: or_default(self.address, default_address()),
                processor_task_count: or_default(self.processor_task_count, DEFAULT_PROCESSOR_TASK_COUNT),
                processor_batch_size: or_default(self.processor_batch_size, DEFAULT_PROCESSOR_BATCH_SIZE),
                output_batch_size: or_default(self.output_batch_size, DEFAULT_OUTPUT_BATCH_SIZE),
            }
        }
    }

    /// Every optional value of the configuration is set.
    pub open spec fn is_complete(self) -> bool {
        &&& self.address is Some
        &&& self.processor_task_count is Some
        &&& self.processor_batch_size is Some
        &&& self.output_batch_size is Some
    }
}

impl Default for IndexerGrpcConfig {
    /// A disabled indexer with no value set.
    fn default() -> (config: Self)
        ensures
            !config.enabled,
            config.address is None,
            config.processor_task_count is None,
            config.processor_batch_size is None,
            config.output_batch_size is None,
    {
        IndexerGrpcConfig {
            enabled: false,
            address: None,
            processor_task_count: None,
            processor_batch_size: None,
            output_batch_size: None,
        }
    }
}

fn u16_or_default(value: Option<u16>, default: u16) -> (res: Option<u16>)
    ensures
        res == or_default(value, default),
{
    match value {
        Some(v) => Some(v),
        None => Some(default),
    }
}

impl IndexerGrpcConfig {
    /// Fills in the defaults of an enabled indexer: every value that the
    /// node config leaves unset takes its default, every value that it sets
    /// is kept. Returns whether the indexer is enabled; a disabled indexer
    /// is left untouched.
    pub fn optimize(&mut self) -> (changed: bool)
        ensures
            changed == old(self).enabled,
            final(self)@ == old(self)@.optimized(),
            final(self).enabled == old(self).enabled,
            !old(self).enabled ==> final(self)@ == old(self)@,
            old(self).enabled && old(self).address is None
                ==> final(self)@.address == Some("0.0.0.0:50051"@),
            old(self).enabled && old(self).processor_task_count is None
                ==> final(self).processor_task_count == Some(20u16),
            old(self).enabled && old(self).processor_batch_size is None
                ==> final(self).processor_batch_size == Some(1000u16),
            old(self).enabled && old(self).output_batch_size is None
                ==> final(self).output_batch_size == Some(100u16),
            old(self).address is Some ==> final(self)@.address == old(self)@.address,
            old(self).processor_task_count is Some
                ==> final(self).processor_task_count == old(self).processor_task_count,
            old(self).processor_batch_size is Some
                ==> final(self).processor_batch_size == old(self).processor_batch_size,
            old(self).output_batch_size is Some
                ==> final(self).output_batch_size == old(self).output_batch_size,
    {
        if !self.enabled {
            return false;
        }
        let address = match &self.address {
            Some(a) => Some(a.clone()),
            None => Some(DEFAULT_ADDRESS.to_owned()),
        };
        self.address = address;
        self.processor_task_count = u16_or_default(self.processor_task_count, DEFAULT_PROCESSOR_TASK_COUNT);
        self.processor_batch_size = u16_or_default(self.processor_batch_size, DEFAULT_PROCESSOR_BATCH_SIZE);
        self.output_batch_size = u16_or_default(self.output_batch_size, DEFAULT_OUTPUT_BATCH_SIZE);
        true
    }
}

/// Optimizing twice gives what optimizing once gives: the second pass finds
/// every value of an enabled indexer set, and a disabled one untouched.
pub proof fn lemma_optimize_idempotent(config: IndexerGrpcConfigView)
    ensures
        config.optimized().optimized() == config.optimized(),
{
}

/// An enabled indexer comes out of optimizing with every value set.
pub proof fn lemma_optimize_completes(config: IndexerGrpcConfigView)
    requires
        config.enabled,
    ensures
        config.optimized().is_complete(),
{
}

/// Optimizing never overrides a value that the node config sets, never turns
/// the indexer on or off, and leaves a disabled indexer exactly as it is.
pub proof fn lemma_optimize_keeps_set_values(config: IndexerGrpcConfigView)
    ensures
        config.optimized().enabled == config.enabled,
        !config.enabled ==> config.optimized() == config,
        config.address is Some ==> config.optimized().address == config.address,
        config.processor_task_count is Some ==> config.optimized().processor_task_count == config.processor_task_count,
        config.processor_batch_size is Some ==> config.optimized().processor_batch_size == config.processor_batch_size,
        config.output_batch_size is Some ==> config.optimized().output_batch_size == config.output_batch_size,
{
}

/// Each unset value of an enabled indexer takes its own fixed default,
/// whatever the other values hold: the listen address "0.0.0.0:50051",
/// 20 processor tasks, 1000 transactions per processor batch and 100 per
/// output batch.
pub proof fn lemma_optimize_fixed_defaults(config: IndexerGrpcConfigView)
    requires
        config.enabled,
    ensures
        config.address is None ==> config.optimized().address == Some("0.0.0.0:50051"@),
        config.processor_task_count is None ==> config.optimized().processor_task_count == Some(20u16),
        config.processor_batch_size is None ==> config.optimized().processor_batch_size == Some(1000u16),
        config.output_batch_size is None ==> config.optimized().output_batch_size == Some(100u16),
{
    reveal_strlit("0.0.0.0:50051");
}

/// Each value of an optimized enabled indexer depends on that same value of
/// the node config alone: two enabled configs that agree on one value agree
/// on it after optimizing, whatever their other values are.
pub proof fn lemma_optimize_fields_independent(a: IndexerGrpcConfigView, b: IndexerGrpcConfigView)
    requires
        a.enabled,
        b.enabled,
    ensures
        a.address == b.address ==> a.optimized().address == b.optimized().address,
        a.processor_task_count == b.processor_task_count
            ==> a.optimized().processor_task_count == b.optimized().processor_task_count,
        a.processor_batch_size == b.processor_batch_size
            ==> a.optimized().processor_batch_size == b.optimized().processor_batch_size,
        a.output_batch_size == b.output_batch_size
            ==> a.optimized().output_batch_size == b.optimized().output_batch_size,
{
}

} // verus!
