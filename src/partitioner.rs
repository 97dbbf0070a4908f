use vstd::prelude::*;

verus! {

/// The `partitioner` settings that librdkafka understands.
#[derive(Debug, Clone, Copy, PartialEq, Eq, Structural)]
pub enum PartitionerConfig {
    /// Random distribution.
    Random,
    /// CRC32 hash of key (empty and null keys are mapped to a single partition).
    Consistent,
    /// CRC32 hash of key (empty and null keys are randomly partitioned).
    ConsistentRandom,
    /// Java producer compatible Murmur2 hash of key (null keys are mapped to a single partition).
    Murmur2,
    /// Java producer compatible Murmur2 hash of key (null keys are randomly partitioned).
    Murmur2Random,
    /// FNV-1a hash of key (null keys are mapped to a single partition).
    Fnv1a,
    /// FNV-1a hash of key (null keys are randomly partitioned).
    Fnv1aRandom,
}

impl PartitionerConfig {
    /// The name of the setting, as librdkafka knows it.
    pub open spec fn spec_name(self) -> Seq<char> {
        match self {
            PartitionerConfig::Random => "random"@,
            PartitionerConfig::Consistent => "consistent"@,
            PartitionerConfig::ConsistentRandom => "consistent_random"@,
            PartitionerConfig::Murmur2 => "murmur2"@,
            PartitionerConfig::Murmur2Random => "murmur2_random"@,
            PartitionerConfig::Fnv1a => "fnv1a"@,
            PartitionerConfig::Fnv1aRandom => "fnv1a_random"@,
        }
    }

    /// Returns the name of the setting, as librdkafka knows it.
    pub fn name(&self) -> (r: String)
        ensures
            r@ == self.spec_name(),
    {
        match self {
            PartitionerConfig::Random => String::from_str("random"),
            PartitionerConfig::Consistent => String::from_str("consistent"),
            PartitionerConfig::ConsistentRandom => String::from_str("consistent_random"),
            PartitionerConfig::Murmur2 => String::from_str("murmur2"),
            PartitionerConfig::Murmur2Random => String::from_str("murmur2_random"),
            PartitionerConfig::Fnv1a => String::from_str("fnv1a"),
            PartitionerConfig::Fnv1aRandom => String::from_str("fnv1a_random"),
        }
    }
}

impl Default for PartitionerConfig {
    fn default() -> (r: Self)
        ensures
            r == PartitionerConfig::ConsistentRandom,
    {
        PartitionerConfig::ConsistentRandom
    }
}

} // verus!
