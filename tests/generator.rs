use std::str::from_utf8;

use rand::Rng;

use ksunami::generator::{to_be_bytes, FieldError, ValueGenerator};
use ksunami::record::RecordGenerator;

fn no_float(_lo: u64, _hi: u64) -> Vec<u8> {
    Vec::new()
}

fn draw_float(lo: u64, hi: u64) -> Vec<u8> {
    rand::thread_rng()
        .gen_range(f64::from_bits(lo)..=f64::from_bits(hi))
        .to_be_bytes()
        .to_vec()
}

#[test]
fn test_payload_only() {
    let mut generator = RecordGenerator::new("a_topic_name".to_string());
    assert!(generator.set_payload_field(ValueGenerator::Fixed("a payload content".to_string()), None).is_ok());

    let rec = generator.generate_record(&no_float);
    assert_eq!("a_topic_name", rec.topic);
    assert_eq!(None, rec.key);
    assert_eq!("a payload content".as_bytes(), rec.payload.unwrap());
    assert!(rec.headers.is_empty());
    assert_eq!(None, rec.partition);

    generator.set_destination_partition(10);
    let rec = generator.generate_record(&no_float);
    assert_eq!(Some(10), rec.partition);
}

#[test]
fn test_key_and_headers() {
    let mut generator = RecordGenerator::new("another_topic".to_string());
    assert!(generator.set_payload_field(ValueGenerator::Fixed("another payload".to_string()), None).is_ok());

    generator.add_record_header("k1".to_string(), "v1".to_string());
    generator.add_record_header("k2".to_string(), "v2".to_string());
    generator.add_record_header("k3".to_string(), "v3".to_string());

    assert!(generator.set_key_field(ValueGenerator::RandInt(10, 10), None).is_ok());

    let rec = generator.generate_record(&no_float);
    assert_eq!("another_topic", rec.topic);
    assert_eq!(10u64.to_be_bytes().to_vec(), rec.key.unwrap());
    assert_eq!("another payload".as_bytes(), rec.payload.unwrap());

    assert_eq!(3, rec.headers.len());
    assert!(rec.headers.contains_key("k1"));
    assert!(rec.headers.contains_key("k2"));
    assert!(rec.headers.contains_key("k3"));

    assert_eq!(None, rec.partition);
}

#[test]
fn test_file_payload() {
    let content = b"[package]\nname = \"ksunami\"\n".to_vec();
    let mut generator = RecordGenerator::new("topic_zzz".to_string());
    assert!(generator
        .set_payload_field(ValueGenerator::File("./Cargo.toml".to_string()), Some(content.clone()))
        .is_ok());

    let rec = generator.generate_record(&no_float);
    assert_eq!("topic_zzz", rec.topic);
    assert_eq!(None, rec.key);
    assert_eq!(content, rec.payload.unwrap());
    assert!(rec.headers.is_empty());
    assert_eq!(None, rec.partition);
}

#[test]
fn test_randomizers() {
    let mut generator = RecordGenerator::new("topic".to_string());
    assert!(generator.set_key_field(ValueGenerator::RandBytes(20), None).is_ok());
    assert!(generator.set_payload_field(ValueGenerator::RandAlphaNum(20), None).is_ok());

    let rec = generator.generate_record(&draw_float);
    assert_eq!(20, rec.key.unwrap().len());
    assert!(from_utf8(rec.payload.unwrap().as_slice()).is_ok());

    assert!(generator.set_payload_field(ValueGenerator::RandInt(123, 125), None).is_ok());
    assert!(generator
        .set_key_field(ValueGenerator::RandFloat(1.5f64.to_bits(), 2.0f64.to_bits()), None)
        .is_ok());

    let rec = generator.generate_record(&draw_float);
    let rec_key = f64::from_be_bytes(rec.key.unwrap().as_slice().try_into().unwrap());
    assert!((1.5..=2.0).contains(&rec_key));

    let rec_payload = i64::from_be_bytes(rec.payload.unwrap().as_slice().try_into().unwrap());
    assert!((123..=125).contains(&rec_payload));
}

#[test]
fn file_field_without_content_is_refused() {
    let mut generator = RecordGenerator::new("t".to_string());
    assert_eq!(
        Err(FieldError::MissingFileContent),
        generator.set_key_field(ValueGenerator::File("x".to_string()), None)
    );
    let rec = generator.generate_record(&no_float);
    assert_eq!(None, rec.key);
}

#[test]
fn empty_int_range_is_refused() {
    let mut generator = RecordGenerator::new("t".to_string());
    assert_eq!(Err(FieldError::EmptyRange), generator.set_payload_field(ValueGenerator::RandInt(5, 4), None));
    assert_eq!(None, generator.generate_record(&no_float).payload);
}

#[test]
fn kept_fields_repeat() {
    let mut generator = RecordGenerator::new("t".to_string());
    assert!(generator.set_key_field(ValueGenerator::Fixed("k".to_string()), None).is_ok());
    assert!(generator.set_payload_field(ValueGenerator::File("p".to_string()), Some(vec![1, 2, 3])).is_ok());
    let a = generator.generate_record(&no_float);
    let b = generator.generate_record(&no_float);
    assert_eq!(a, b);
    assert_eq!(Some(b"k".to_vec()), a.key);
    assert_eq!(Some(vec![1, 2, 3]), a.payload);
}

#[test]
fn random_lengths_are_exact() {
    for n in [0usize, 1, 7, 64] {
        let out = ValueGenerator::RandBytes(n).generate(&no_float);
        assert_eq!(n, out.len());
        let out = ValueGenerator::RandAlphaNum(n).generate(&no_float);
        assert_eq!(n, out.len());
        assert!(out.iter().all(|b| b.is_ascii_alphanumeric()));
    }
}

#[test]
fn random_ints_stay_in_range() {
    let g = ValueGenerator::RandInt(-3, 4);
    for _ in 0..500 {
        let out = g.generate(&no_float);
        let v = i64::from_be_bytes(out.as_slice().try_into().unwrap());
        assert!((-3..=4).contains(&v));
    }
    let g = ValueGenerator::RandInt(i64::MIN, i64::MAX);
    assert_eq!(8, g.generate(&no_float).len());
}

#[test]
fn random_floats_stay_in_range() {
    let g = ValueGenerator::RandFloat((-2.5f64).to_bits(), 7.25f64.to_bits());
    for _ in 0..500 {
        let v = f64::from_be_bytes(g.generate(&draw_float).as_slice().try_into().unwrap());
        assert!((-2.5..=7.25).contains(&v));
    }
}

#[test]
fn big_endian_bytes() {
    assert_eq!(vec![1, 2, 3, 4, 5, 6, 7, 8], to_be_bytes(0x0102030405060708));
    assert_eq!((-2i64).to_be_bytes().to_vec(), to_be_bytes((-2i64) as u64));
}

#[test]
fn header_keys_are_unique() {
    let mut generator = RecordGenerator::new("t".to_string());
    generator.add_record_header("k".to_string(), "1".to_string());
    generator.add_record_header("k".to_string(), "2".to_string());
    let rec = generator.generate_record(&no_float);
    assert_eq!(1, rec.headers.len());
    assert!(rec.headers.contains_key("k"));
    assert!(!rec.headers.contains_key("j"));
}
