use vstd::prelude::*;
use crate::error::Error;

verus! {

/// Schema identifier shared by all batches created from plain text.
pub const STRING_SCHEMA: u64 = 0;

/// An ordered, immutable collection of structured records sharing one
/// schema; the atomic unit of transport. A record is carried in its encoded
/// text form; the schema is carried as an identifier, equal identifiers
/// meaning one and the same field layout, which is what a lossless merge
/// requires. Created by a source or by a buffer merge; never mutated in
/// place.
#[derive(Debug, Clone, PartialEq, Eq)]
pub struct MessageBatch {
    schema: u64,
    records: Vec<String>,
}

impl MessageBatch {
    /// The schema identifier of this batch.
    pub closed spec fn spec_schema(self) -> u64 {
        self.schema
    }

    /// The records of this batch, in order.
    pub closed spec fn spec_records(self) -> Seq<String> {
        self.records@
    }

    /// Create a batch from a schema identifier and its records.
    pub fn new(schema: u64, records: Vec<String>) -> (r: MessageBatch)
        ensures
            r.spec_schema() == schema,
            r.spec_records() == records@,
    {
        MessageBatch { schema, records }
    }

    /// Create a single-record batch from one text message.
    pub fn from_string(s: String) -> (r: Result<MessageBatch, Error>)
        ensures
            r matches Ok(b) && b.spec_schema() == STRING_SCHEMA && b.spec_records().len() == 1
                && b.spec_records()[0] == s,
    {
        let mut records: Vec<String> = Vec::new();
        records.push(s);
        Ok(MessageBatch { schema: STRING_SCHEMA, records })
    }

    /// The number of records (rows) in this batch.
    pub fn len(&self) -> (r: usize)
        ensures
            r == self.spec_records().len(),
    {
        self.records.len()
    }

    /// The schema identifier of this batch.
    pub fn schema(&self) -> (r: u64)
        ensures
            r == self.spec_schema(),
    {
        self.schema
    }
}

/// Whether every batch carries the same field layout as the first, so that
/// merging them loses nothing.
pub open spec fn schemas_match(s: Seq<MessageBatch>) -> bool {
    forall|i: int| 0 <= i < s.len() ==> #[trigger] s[i].spec_schema() == s[0].spec_schema()
}

/// The records of a run of batches, in batch order and, within each batch,
/// in record order.
pub open spec fn concat_records(s: Seq<MessageBatch>) -> Seq<String>
    decreases s.len(),
{
    if s.len() == 0 {
        Seq::empty()
    } else {
        s[0].spec_records() + concat_records(s.drop_first())
    }
}

/// Appending one batch at the back appends exactly its records at the back.
pub proof fn lemma_concat_records_push(s: Seq<MessageBatch>, b: MessageBatch)
    ensures
        concat_records(s.push(b)) == concat_records(s) + b.spec_records(),
    decreases s.len(),
{
    if s.len() == 0 {
        assert(s.push(b)[0] == b);
        assert(s.push(b).drop_first() =~= Seq::<MessageBatch>::empty());
        assert(concat_records(s.push(b).drop_first()) == Seq::<String>::empty());
        assert(concat_records(s.push(b)) =~= concat_records(s) + b.spec_records());
    } else {
        lemma_concat_records_push(s.drop_first(), b);
        assert(s.push(b).drop_first() =~= s.drop_first().push(b));
        assert(concat_records(s.push(b)) =~= concat_records(s) + b.spec_records());
    }
}

/// Merge a non-empty run of batches into one batch holding every record in
/// arrival order. All batches must share one schema; a mismatch anywhere
/// yields a processing error and no merged batch.
#[verifier::loop_isolation(false)]
pub fn merge(batches: Vec<MessageBatch>) -> (r: Result<MessageBatch, Error>)
    requires
        batches@.len() >= 1,
    ensures
        schemas_match(batches@) ==> (r matches Ok(b) && b.spec_schema() == batches@[0].spec_schema()
            && b.spec_records() == concat_records(batches@)),
        !schemas_match(batches@) ==> (r matches Err(e) && e is Process),
{
    let ghost g = batches@;
    let mut rest = batches;
    let schema = rest[0].schema();
    let mut records: Vec<String> = Vec::new();
    let ghost mut k: int = 0;
    while rest.len() > 0
        invariant
            0 <= k <= g.len(),
            rest@ =~= g.subrange(k, g.len() as int),
            g.len() >= 1,
            schema == g[0].spec_schema(),
            records@ == concat_records(g.take(k)),
            forall|i: int| 0 <= i < k ==> g[i].spec_schema() == schema,
        decreases rest@.len(),
    {
        let mut b = rest.remove(0);
        proof {
            assert(b == g[k]);
            assert(rest@ =~= g.subrange(k + 1, g.len() as int));
        }
        if b.schema() != schema {
            proof {
                assert(g[k].spec_schema() != g[0].spec_schema());
                assert(!schemas_match(g));
            }
            return Err(Error::Process("merge failed: schema mismatch among batches".to_owned()));
        }
        records.append(&mut b.records);
        proof {
            assert(g.take(k).push(g[k]) =~= g.take(k + 1));
            lemma_concat_records_push(g.take(k), g[k]);
            k = k + 1;
        }
    }
    proof {
        assert(g.take(g.len() as int) =~= g);
        assert(schemas_match(g));
    }
    Ok(MessageBatch { schema, records })
}

} // verus!
