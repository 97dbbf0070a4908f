use vstd::prelude::*;
use vstd::slice::slice_to_vec;
use vstd::utf8::encode_utf8;

use crate::generator::{FieldError, ValueGenerator};

verus! {

/// Whether some entry of `s` has the key `k`.
pub open spec fn has_key(s: Seq<(Seq<char>, Seq<char>)>, k: Seq<char>) -> bool {
    exists|i: int| 0 <= i < s.len() && (#[trigger] s[i]).0 == k
}

/// No two entries of `s` share a key.
pub open spec fn unique_keys(s: Seq<(Seq<char>, Seq<char>)>) -> bool {
    forall|i: int, j: int| 0 <= i < s.len() && 0 <= j < s.len() && i != j ==> (#[trigger] s[i]).0
        != (#[trigger] s[j]).0
}

/// The headers of a record, each key at most once, in no meaningful order.
#[derive(Debug, Clone, PartialEq, Eq)]
pub struct Headers {
    entries: Vec<(String, String)>,
}

impl View for Headers {
    type V = Seq<(Seq<char>, Seq<char>)>;

    closed spec fn view(&self) -> Seq<(Seq<char>, Seq<char>)> {
        self.entries@.map_values(|p: (String, String)| (p.0@, p.1@))
    }
}

impl Headers {
    pub open spec fn wf(&self) -> bool {
        unique_keys(self@)
    }

    pub fn new() -> (r: Headers)
        ensures
            r@ == Seq::<(Seq<char>, Seq<char>)>::empty(),
            r.wf(),
    {
        let r = Headers { entries: Vec::new() };
        assert(r@ =~= Seq::<(Seq<char>, Seq<char>)>::empty());
        r
    }

    /// Sets the value of key `k` to `v`, in place of the value it had, if any.
    pub fn insert(&mut self, k: String, v: String)
        requires
            old(self).wf(),
        ensures
            final(self).wf(),
            has_key(old(self)@, k@) ==> exists|i: int|
                0 <= i < old(self)@.len() && (#[trigger] old(self)@[i]).0 == k@ && final(self)@
                    == old(self)@.update(i, (k@, v@)),
            !has_key(old(self)@, k@) ==> final(self)@ == old(self)@.push((k@, v@)),
    {
        let ghost before = self@;
        let mut i: usize = 0;
        while i < self.entries.len()
            invariant
                self@ == before,
                before == old(self)@,
                unique_keys(before),
                0 <= i <= self@.len(),
                forall|j: int| 0 <= j < i ==> (#[trigger] before[j]).0 != k@,
            decreases self.entries.len() - i,
        {
            if self.entries[i].0 == k {
                let ghost at = i as int;
                assert(self@[at].0 == k@);
                self.entries.set(i, (k, v));
                assert(self@ =~= before.update(at, (k@, v@)));
                assert(unique_keys(self@)) by {
                    assert forall|a: int, b: int|
                        0 <= a < self@.len() && 0 <= b < self@.len() && a != b implies (
                        #[trigger] self@[a]).0 != (#[trigger] self@[b]).0 by {
                        if a != at && b != at {
                            assert(before[a] == self@[a] && before[b] == self@[b]);
                            assert(before[a].0 != before[b].0);
                        } else if a == at {
                            assert(before[at].0 == k@ && before[b] == self@[b]);
                            assert(before[at].0 != before[b].0);
                        } else {
                            assert(before[at].0 == k@ && before[a] == self@[a]);
                            assert(before[at].0 != before[a].0);
                        }
                    }
                }
                assert(old(self)@[at].0 == k@ && final(self)@ == old(self)@.update(at, (k@, v@)));
                return;
            }
            i = i + 1;
        }
        assert(!has_key(before, k@));
        self.entries.push((k, v));
        assert(self@ =~= before.push((k@, v@)));
        assert(unique_keys(self@)) by {
            assert forall|a: int, b: int|
                0 <= a < self@.len() && 0 <= b < self@.len() && a != b implies (
                #[trigger] self@[a]).0 != (#[trigger] self@[b]).0 by {
                if a < before.len() && b < before.len() {
                    assert(before[a] == self@[a] && before[b] == self@[b]);
                } else if a < before.len() {
                    assert(before[a] == self@[a]);
                } else {
                    assert(before[b] == self@[b]);
                }
            }
        }
    }

    /// How many headers there are.
    pub fn len(&self) -> (r: usize)
        ensures
            r == self@.len(),
    {
        self.entries.len()
    }

    pub fn is_empty(&self) -> (r: bool)
        ensures
            r == (self@.len() == 0),
    {
        self.entries.len() == 0
    }

    /// Whether a header has the key `k`.
    pub fn contains_key(&self, k: &str) -> (r: bool)
        ensures
            r == has_key(self@, k@),
    {
        let key = k.to_owned();
        let mut i: usize = 0;
        while i < self.entries.len()
            invariant
                0 <= i <= self@.len(),
                key@ == k@,
                forall|j: int| 0 <= j < i ==> (#[trigger] self@[j]).0 != k@,
            decreases self.entries.len() - i,
        {
            if self.entries[i].0 == key {
                assert(self@[i as int].0 == k@);
                return true;
            }
            i = i + 1;
        }
        false
    }

    /// The headers as key and value pairs.
    pub fn pairs(&self) -> (r: &Vec<(String, String)>)
        ensures
            r@.map_values(|p: (String, String)| (p.0@, p.1@)) == self@,
    {
        &self.entries
    }

    /// A copy of these headers.
    pub fn duplicate(&self) -> (r: Headers)
        ensures
            r@ == self@,
    {
        let mut entries: Vec<(String, String)> = Vec::new();
        let mut i: usize = 0;
        while i < self.entries.len()
            invariant
                0 <= i <= self@.len(),
                entries@.len() == i,
                forall|j: int|
                    0 <= j < i ==> (#[trigger] entries@[j]).0@ == self@[j].0 && entries@[j].1@
                        == self@[j].1,
            decreases self.entries.len() - i,
        {
            let (k, v) = &self.entries[i];
            entries.push((k.clone(), v.clone()));
            i = i + 1;
        }
        let r = Headers { entries };
        assert(r@ =~= self@);
        r
    }
}

/// The data of a record, as a [`RecordGenerator`] makes it.
#[derive(Debug, Clone, PartialEq, Eq)]
pub struct GeneratedRecord {
    pub topic: String,
    pub key: Option<Vec<u8>>,
    pub payload: Option<Vec<u8>>,
    pub partition: Option<i32>,
    pub headers: Headers,
}

pub open spec fn bytes_view(o: Option<Vec<u8>>) -> Option<Seq<u8>> {
    match o {
        Option::Some(v) => Option::Some(v@),
        Option::None => Option::None,
    }
}

/// What a [`RecordGenerator`] holds, as mathematical values.
pub struct RecordGeneratorView {
    pub topic: Seq<char>,
    pub key: Option<ValueGenerator>,
    pub key_content: Option<Seq<u8>>,
    pub payload: Option<ValueGenerator>,
    pub payload_content: Option<Seq<u8>>,
    pub headers: Seq<(Seq<char>, Seq<char>)>,
    pub partition: Option<i32>,
}

/// The content kept for a field set to `g`, with `file_content` read for a `File`.
pub open spec fn kept_content(g: ValueGenerator, file_content: Option<Seq<u8>>) -> Option<Seq<u8>> {
    match g {
        ValueGenerator::Fixed(s) => Option::Some(encode_utf8(s@)),
        ValueGenerator::File(_) => file_content,
        _ => Option::None,
    }
}

/// Whether a field may be set to `g`, given what was read for it.
pub open spec fn field_error(g: ValueGenerator, file_content: Option<Seq<u8>>) -> Option<FieldError> {
    match g {
        ValueGenerator::File(_) => if file_content is None {
            Option::Some(FieldError::MissingFileContent)
        } else {
            Option::None
        },
        ValueGenerator::RandInt(min, max) => if min > max {
            Option::Some(FieldError::EmptyRange)
        } else {
            Option::None
        },
        _ => Option::None,
    }
}

/// A field is well formed: its generator is valid and keeps content exactly
/// when its content is the same at every generation.
pub open spec fn field_wf(g: Option<ValueGenerator>, content: Option<Seq<u8>>) -> bool {
    match g {
        Option::None => content is None,
        Option::Some(g) => g.wf() && (content is Some <==> g.is_memoized()) && (g matches ValueGenerator::Fixed(s) ==> content == Option::Some(encode_utf8(s@))),
    }
}

/// Whether `out` is what a generation of a field may give.
pub open spec fn field_gives<F: Fn(u64, u64) -> Vec<u8>>(
    g: Option<ValueGenerator>,
    content: Option<Seq<u8>>,
    out: Option<Seq<u8>>,
    draw_float: F,
) -> bool {
    match content {
        Option::Some(c) => out == Option::Some(c),
        Option::None => match g {
            Option::None => out is None,
            Option::Some(g) => out is Some && g.may_give(out.unwrap(), draw_float),
        },
    }
}

impl RecordGeneratorView {
    pub open spec fn wf(self) -> bool {
        &&& field_wf(self.key, self.key_content)
        &&& field_wf(self.payload, self.payload_content)
        &&& unique_keys(self.headers)
    }

    /// Whether `r` is a record that a generation may give.
    pub open spec fn produces<F: Fn(u64, u64) -> Vec<u8>>(
        self,
        r: GeneratedRecord,
        draw_float: F,
    ) -> bool {
        &&& r.topic@ == self.topic
        &&& field_gives(self.key, self.key_content, bytes_view(r.key), draw_float)
        &&& field_gives(self.payload, self.payload_content, bytes_view(r.payload), draw_float)
        &&& r.partition == self.partition
        &&& r.headers@ == self.headers
        &&& r.headers.wf()
    }
}

/// Makes records from a topic, optional key and payload fields, headers and an
/// optional partition.
#[derive(Debug, Clone)]
pub struct RecordGenerator {
    /// Topic the record is destined to.
    destination_topic: String,
    /// Generator of the content of the record key.
    key_generator: Option<ValueGenerator>,
    /// The key content, kept where it is the same at every generation.
    key_generated_content: Option<Vec<u8>>,
    /// Generator of the content of the record payload.
    payload_generator: Option<ValueGenerator>,
    /// The payload content, kept where it is the same at every generation.
    payload_generated_content: Option<Vec<u8>>,
    /// Headers added to each record.
    headers: Headers,
    /// Partition the record is destined to; where absent, the producer picks one.
    destination_partition: Option<i32>,
}

impl View for RecordGenerator {
    type V = RecordGeneratorView;

    closed spec fn view(&self) -> RecordGeneratorView {
        RecordGeneratorView {
            topic: self.destination_topic@,
            key: self.key_generator,
            key_content: bytes_view(self.key_generated_content),
            payload: self.payload_generator,
            payload_content: bytes_view(self.payload_generated_content),
            headers: self.headers@,
            partition: self.destination_partition,
        }
    }
}

/// The content to keep for a field set to `g`, or why it cannot be set.
fn resolve_field(g: &ValueGenerator, file_content: Option<Vec<u8>>) -> (r: Result<
    Option<Vec<u8>>,
    FieldError,
>)
    ensures
        match field_error(*g, bytes_view(file_content)) {
            Option::Some(e) => r == Err::<Option<Vec<u8>>, FieldError>(e),
            Option::None => r is Ok && bytes_view(r->Ok_0) == kept_content(
                *g,
                bytes_view(file_content),
            ),
        },
{
    match g {
        ValueGenerator::Fixed(s) => Ok(Some(slice_to_vec(s.as_str().as_bytes()))),
        ValueGenerator::File(_) => match file_content {
            None => Err(FieldError::MissingFileContent),
            Some(c) => Ok(Some(c)),
        },
        ValueGenerator::RandInt(min, max) => if *min > *max {
            Err(FieldError::EmptyRange)
        } else {
            Ok(None)
        },
        _ => Ok(None),
    }
}

/// The content of a field for one record.
fn field_content<F: Fn(u64, u64) -> Vec<u8>>(
    g: &Option<ValueGenerator>,
    content: &Option<Vec<u8>>,
    draw_float: &F,
) -> (r: Option<Vec<u8>>)
    requires
        field_wf(*g, bytes_view(*content)),
        forall|lo: u64, hi: u64| draw_float.requires((lo, hi)),
    ensures
        field_gives(*g, bytes_view(*content), bytes_view(r), *draw_float),
{
    if let Some(mem) = content {
        Some(slice_to_vec(mem.as_slice()))
    } else if let Some(gen) = g {
        Some(gen.generate(draw_float))
    } else {
        None
    }
}

impl RecordGenerator {
    pub open spec fn wf(&self) -> bool {
        self@.wf()
    }

    pub fn new(destination_topic: String) -> (r: RecordGenerator)
        ensures
            r@ == (RecordGeneratorView {
                topic: destination_topic@,
                key: None,
                key_content: None,
                payload: None,
                payload_content: None,
                headers: Seq::empty(),
                partition: None,
            }),
            r.wf(),
    {
        RecordGenerator {
            destination_topic,
            key_generator: None,
            key_generated_content: None,
            payload_generator: None,
            payload_generated_content: None,
            headers: Headers::new(),
            destination_partition: None,
        }
    }

    /// Adds header `k` with value `v` to every record, in place of an earlier value.
    pub fn add_record_header(&mut self, k: String, v: String)
        requires
            old(self).wf(),
        ensures
            final(self).wf(),
            final(self)@ == (RecordGeneratorView { headers: final(self)@.headers, ..old(self)@ }),
            has_key(old(self)@.headers, k@) ==> exists|i: int|
                0 <= i < old(self)@.headers.len() && (#[trigger] old(self)@.headers[i]).0 == k@
                    && final(self)@.headers == old(self)@.headers.update(i, (k@, v@)),
            !has_key(old(self)@.headers, k@) ==> final(self)@.headers == old(
                self,
            )@.headers.push((k@, v@)),
    {
        self.headers.insert(k, v);
    }

    /// Sets the generator of the record key. `file_content` is what was read, ahead,
    /// from the file of a `File` generator; it is not used for other generators.
    pub fn set_key_field(&mut self, key_generator: ValueGenerator, file_content: Option<Vec<u8>>) -> (r:
        Result<(), FieldError>)
        requires
            old(self).wf(),
        ensures
            final(self).wf(),
            match field_error(key_generator, bytes_view(file_content)) {
                Option::Some(e) => r == Err::<(), FieldError>(e) && final(self)@ == old(self)@,
                Option::None => r is Ok && final(self)@ == (RecordGeneratorView {
                    key: Some(key_generator),
                    key_content: kept_content(key_generator, bytes_view(file_content)),
                    ..old(self)@
                }),
            },
    {
        let content = resolve_field(&key_generator, file_content);
        match content {
            Err(e) => Err(e),
            Ok(c) => {
                self.key_generated_content = c;
                self.key_generator = Some(key_generator);
                Ok(())
            },
        }
    }

    /// Sets the generator of the record payload. `file_content` is what was read,
    /// ahead, from the file of a `File` generator; it is not used for other generators.
    pub fn set_payload_field(
        &mut self,
        payload_generator: ValueGenerator,
        file_content: Option<Vec<u8>>,
    ) -> (r: Result<(), FieldError>)
        requires
            old(self).wf(),
        ensures
            final(self).wf(),
            match field_error(payload_generator, bytes_view(file_content)) {
                Option::Some(e) => r == Err::<(), FieldError>(e) && final(self)@ == old(self)@,
                Option::None => r is Ok && final(self)@ == (RecordGeneratorView {
                    payload: Some(payload_generator),
                    payload_content: kept_content(payload_generator, bytes_view(file_content)),
                    ..old(self)@
                }),
            },
    {
        let content = resolve_field(&payload_generator, file_content);
        match content {
            Err(e) => Err(e),
            Ok(c) => {
                self.payload_generated_content = c;
                self.payload_generator = Some(payload_generator);
                Ok(())
            },
        }
    }

    /// Sets the partition of every record.
    pub fn set_destination_partition(&mut self, partition: i32)
        requires
            old(self).wf(),
        ensures
            final(self).wf(),
            final(self)@ == (RecordGeneratorView { partition: Some(partition), ..old(self)@ }),
    {
        self.destination_partition = Some(partition);
    }

    /// Makes a record: kept content is copied, other content generated afresh;
    /// `draw_float` draws the bytes of a float of a range given by bit patterns.
    pub fn generate_record<F: Fn(u64, u64) -> Vec<u8>>(&self, draw_float: &F) -> (r:
        GeneratedRecord)
        requires
            self.wf(),
            forall|lo: u64, hi: u64| draw_float.requires((lo, hi)),
        ensures
            self@.produces(r, *draw_float),
    {
        GeneratedRecord {
            topic: self.destination_topic.clone(),
            key: field_content(&self.key_generator, &self.key_generated_content, draw_float),
            payload: field_content(
                &self.payload_generator,
                &self.payload_generated_content,
                draw_float,
            ),
            partition: self.destination_partition,
            headers: self.headers.duplicate(),
        }
    }
}

/// Two records from one generator have the same key, and the same payload, wherever
/// that field's content is the same at every generation (`Fixed` or `File`).
pub proof fn lemma_kept_fields_repeat<F: Fn(u64, u64) -> Vec<u8>>(
    g: RecordGenerator,
    r1: GeneratedRecord,
    r2: GeneratedRecord,
    draw_float: F,
)
    requires
        g.wf(),
        g@.produces(r1, draw_float),
        g@.produces(r2, draw_float),
    ensures
        g@.key matches Some(k) && k.is_memoized() ==> bytes_view(r1.key) == bytes_view(r2.key),
        g@.payload matches Some(p) && p.is_memoized() ==> bytes_view(r1.payload) == bytes_view(
            r2.payload,
        ),
        g@.key matches Some(ValueGenerator::Fixed(s)) ==> bytes_view(r1.key) == Some(encode_utf8(s@)),
        g@.payload matches Some(ValueGenerator::Fixed(s)) ==> bytes_view(r1.payload) == Some(
            encode_utf8(s@),
        ),
{
}

} // verus!
