use ksunami::generator::ValueGenerator;
use ksunami::parse::kv_clap_value_parser;
use ksunami::partitioner::PartitionerConfig;

fn parse_float(s: String) -> Result<u64, String> {
    s.parse::<f64>().map(f64::to_bits).map_err(|e| e.to_string())
}

fn parse(s: &str) -> Result<ValueGenerator, String> {
    ValueGenerator::clap_value_parser(s, &parse_float)
}

#[test]
fn kv_pairs_split_at_first_colon() {
    assert_eq!(Ok(("a".to_string(), "b:c".to_string())), kv_clap_value_parser("a:b:c"));
    assert_eq!(Ok(("".to_string(), "".to_string())), kv_clap_value_parser(":"));
    assert_eq!(Err("Should have 'K:V' format".to_string()), kv_clap_value_parser("abc"));
}

#[test]
fn value_specs_of_each_kind() {
    assert_eq!(Ok(ValueGenerator::Fixed("a:b".to_string())), parse("string:a:b"));
    assert_eq!(Ok(ValueGenerator::File("/tmp/x".to_string())), parse("file:/tmp/x"));
    assert_eq!(Ok(ValueGenerator::RandAlphaNum(12)), parse("alpha:12"));
    assert_eq!(Ok(ValueGenerator::RandBytes(3)), parse("bytes:+3"));
    assert_eq!(Ok(ValueGenerator::RandInt(4, 9)), parse("int:4-9"));
    assert_eq!(Ok(ValueGenerator::RandFloat(1.5f64.to_bits(), 2.0f64.to_bits())), parse("float:1.5-2"));
}

#[test]
fn value_spec_errors() {
    assert_eq!(Err("Should have 'TYPE:CONTENT' format".to_string()), parse("string"));
    assert_eq!(Err("Unsupported value 'text:...'".to_string()), parse("text:abc"));
    assert_eq!(Err("Inclusive range should have 'min-max' format".to_string()), parse("int:5"));
    assert_eq!(Err("Inclusive range should have 'min-max' format".to_string()), parse("float:5"));
    assert!(parse("alpha:x").unwrap_err().starts_with("Failed to parse 'SIZE' from 'alpha:SIZE': "));
    assert!(parse("bytes:-1").unwrap_err().starts_with("Failed to parse 'SIZE' from 'bytes:SIZE': "));
    assert!(parse("int:-1-5").unwrap_err().starts_with("Failed to parse 'MIN' from 'int:MIN-MAX': "));
    assert!(parse("int:1-x").unwrap_err().starts_with("Failed to parse 'MAX' from 'int:MIN-MAX': "));
    assert!(parse("float:a-1").unwrap_err().starts_with("Failed to parse 'MIN' from 'float:MIN-MAX': "));
    assert!(parse("float:1-b").unwrap_err().starts_with("Failed to parse 'MAX' from 'float:MIN-MAX': "));
}

#[test]
fn partitioner_names() {
    assert_eq!("random", PartitionerConfig::Random.name());
    assert_eq!("consistent", PartitionerConfig::Consistent.name());
    assert_eq!("consistent_random", PartitionerConfig::ConsistentRandom.name());
    assert_eq!("murmur2", PartitionerConfig::Murmur2.name());
    assert_eq!("murmur2_random", PartitionerConfig::Murmur2Random.name());
    assert_eq!("fnv1a", PartitionerConfig::Fnv1a.name());
    assert_eq!("fnv1a_random", PartitionerConfig::Fnv1aRandom.name());
    assert_eq!(PartitionerConfig::ConsistentRandom, PartitionerConfig::default());
}
