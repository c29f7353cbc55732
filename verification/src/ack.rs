use vstd::prelude::*;

verus! {

/// One elementary completion signal travelling backward with a batch.
///
/// At most one acknowledgment per logical unit of work is required for
/// correctness; the engine never relies on more.
#[derive(Debug, Clone, PartialEq, Eq)]
pub enum Ack {
    /// For sources that cannot track delivery: firing it signals nothing.
    Noop,
    /// A trackable signal, identified by a token of the source's choosing.
    Token(u64),
}

/// The tokens an elementary ack emits when fired: none for `Noop`, its own
/// token otherwise.
pub open spec fn ack_signals(a: Ack) -> Seq<u64> {
    match a {
        Ack::Noop => Seq::empty(),
        Ack::Token(t) => seq![t],
    }
}

/// The tokens an ordered collection of acks emits when fired front to back.
pub open spec fn signals_of(s: Seq<Ack>) -> Seq<u64>
    decreases s.len(),
{
    if s.len() == 0 {
        Seq::empty()
    } else {
        ack_signals(s[0]) + signals_of(s.drop_first())
    }
}

/// Owns an ordered collection of child acks; firing it fires every child, in
/// order. Used whenever several original batches collapse into one unit of
/// work (a buffer merge), so a source never needs to know whether its batch
/// was delivered individually or absorbed into a larger merged unit.
#[derive(Debug, Clone, PartialEq, Eq)]
pub struct CompositeAck {
    pub children: Vec<Ack>,
}

impl Ack {
    /// Fire this ack; the returned tokens are the signals emitted, in order.
    pub fn fire(&self) -> (r: Vec<u64>)
        ensures
            r@ == ack_signals(*self),
    {
        match self {
            Ack::Noop => Vec::new(),
            Ack::Token(t) => {
                let mut v: Vec<u64> = Vec::new();
                v.push(*t);
                proof {
                    assert(v@ =~= ack_signals(*self));
                }
                v
            },
        }
    }
}

/// Appending one ack at the back appends exactly its own signals at the back.
pub proof fn lemma_signals_push(s: Seq<Ack>, a: Ack)
    ensures
        signals_of(s.push(a)) == signals_of(s) + ack_signals(a),
    decreases s.len(),
{
    if s.len() == 0 {
        assert(s.push(a)[0] == a);
        assert(s.push(a).drop_first() =~= Seq::<Ack>::empty());
        assert(signals_of(s.push(a).drop_first()) == Seq::<u64>::empty());
        assert(signals_of(s.push(a)) =~= signals_of(s) + ack_signals(a));
    } else {
        lemma_signals_push(s.drop_first(), a);
        assert(s.push(a).drop_first() =~= s.drop_first().push(a));
        assert(signals_of(s.push(a)) =~= signals_of(s) + ack_signals(a));
    }
}

/// Firing acks collected from two runs one after the other emits the signals
/// of the first run, then those of the second: no child is skipped and none
/// fires twice.
pub proof fn lemma_signals_concat(s: Seq<Ack>, t: Seq<Ack>)
    ensures
        signals_of(s + t) == signals_of(s) + signals_of(t),
    decreases s.len(),
{
    if s.len() == 0 {
        assert(s + t =~= t);
        assert(signals_of(s) + signals_of(t) =~= signals_of(t));
    } else {
        lemma_signals_concat(s.drop_first(), t);
        assert((s + t).drop_first() =~= s.drop_first() + t);
        assert((s + t)[0] == s[0]);
        assert(signals_of(s + t) =~= signals_of(s) + signals_of(t));
    }
}

/// Each child fires exactly once, at its own arrival position: the signals
/// of a collection split around any child into the signals of its
/// predecessors, the child's own signals, and those of its successors. So a
/// source whose batch was absorbed into a merged unit is acknowledged
/// exactly once when that unit's composite ack fires.
pub proof fn lemma_child_fires_once_in_place(s: Seq<Ack>, k: int)
    requires
        0 <= k < s.len(),
    ensures
        signals_of(s) == signals_of(s.take(k)) + ack_signals(s[k]) + signals_of(s.skip(k + 1)),
{
    let middle = seq![s[k]];
    assert(s =~= s.take(k) + middle + s.skip(k + 1));
    lemma_signals_concat(s.take(k) + middle, s.skip(k + 1));
    lemma_signals_concat(s.take(k), middle);
    assert(middle.drop_first() =~= Seq::<Ack>::empty());
    assert(signals_of(middle.drop_first()) == Seq::<u64>::empty());
    assert(signals_of(middle) =~= ack_signals(s[k]));
}

impl CompositeAck {
    /// Wrap the given children, preserving their arrival order.
    pub fn new(children: Vec<Ack>) -> (r: CompositeAck)
        ensures
            r.children@ == children@,
    {
        CompositeAck { children }
    }

    /// Fire every child in order; the returned tokens are all signals
    /// emitted, each child contributing its own exactly once.
    pub fn fire(&self) -> (r: Vec<u64>)
        ensures
            r@ == signals_of(self.children@),
    {
        let mut r: Vec<u64> = Vec::new();
        let mut i: usize = 0;
        while i < self.children.len()
            invariant
                i <= self.children.len(),
                r@ == signals_of(self.children@.take(i as int)),
            decreases self.children.len() - i,
        {
            let mut part = self.children[i].fire();
            r.append(&mut part);
            proof {
                assert(self.children@.take(i as int).push(self.children@[i as int]) =~= self
                    .children@.take(i as int + 1));
                lemma_signals_push(self.children@.take(i as int), self.children@[i as int]);
            }
            i = i + 1;
        }
        proof {
            assert(self.children@.take(self.children@.len() as int) =~= self.children@);
        }
        r
    }
}

} // verus!
