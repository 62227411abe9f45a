use vstd::prelude::*;

verus! {

/// The slot that holds the current preview identifier. Writers replace the
/// whole value; readers take a copy, so a request keeps the identifier it
/// read however the slot changes afterwards.
pub struct SessionSlot {
    current: String,
}

impl View for SessionSlot {
    type V = Seq<char>;

    closed spec fn view(&self) -> Seq<char> {
        self.current@
    }
}

impl SessionSlot {
    pub fn new(id: String) -> (r: SessionSlot)
        ensures
            r@ == id@,
    {
        SessionSlot { current: id }
    }

    /// A copy of the identifier now in the slot.
    pub fn read(&self) -> (r: String)
        ensures
            r@ == self@,
    {
        self.current.clone()
    }

    /// Puts a new identifier in the slot in place of the old one.
    pub fn replace(&mut self, id: String)
        ensures
            final(self)@ == id@,
    {
        self.current = id;
    }
}

/// One operation on the slot, in the order the slot's lock admits them.
pub ghost enum SlotOp {
    Read,
    Write(Seq<char>),
}

/// What the reads in `ops` return, in order, for a slot that starts with
/// `init`: each read sees the value of the latest write before it.
pub open spec fn reads_of(init: Seq<char>, ops: Seq<SlotOp>) -> Seq<Seq<char>>
    decreases ops.len(),
{
    if ops.len() == 0 {
        Seq::empty()
    } else {
        match ops[0] {
            SlotOp::Read => seq![init] + reads_of(init, ops.drop_first()),
            SlotOp::Write(v) => reads_of(v, ops.drop_first()),
        }
    }
}

/// Whether `ops` writes `v` as a whole value.
pub open spec fn written(ops: Seq<SlotOp>, v: Seq<char>) -> bool {
    exists|j: int| 0 <= j < ops.len() && ops[j] == SlotOp::Write(v)
}

/// No read is torn: whatever the order in which reads and writes reach the
/// slot, each read returns the initial identifier or one that a write put
/// there whole.
pub proof fn lemma_reads_are_whole(init: Seq<char>, ops: Seq<SlotOp>)
    ensures
        forall|i: int|
            0 <= i < reads_of(init, ops).len() ==> (#[trigger] reads_of(init, ops)[i] == init
                || written(ops, reads_of(init, ops)[i])),
    decreases ops.len(),
{
    if ops.len() > 0 {
        let rest = ops.drop_first();
        match ops[0] {
            SlotOp::Read => {
                lemma_reads_are_whole(init, rest);
                assert forall|i: int|
                    0 <= i < reads_of(init, ops).len() implies (#[trigger] reads_of(init, ops)[i]
                    == init || written(ops, reads_of(init, ops)[i])) by {
                    if i > 0 {
                        assert(reads_of(init, ops)[i] == reads_of(init, rest)[i - 1]);
                        if reads_of(init, rest)[i - 1] != init {
                            let j = choose|j: int|
                                0 <= j < rest.len() && rest[j] == SlotOp::Write(
                                    reads_of(init, rest)[i - 1],
                                );
                            assert(ops[j + 1] == rest[j]);
                        }
                    }
                }
            },
            SlotOp::Write(v) => {
                lemma_reads_are_whole(v, rest);
                assert forall|i: int|
                    0 <= i < reads_of(init, ops).len() implies (#[trigger] reads_of(init, ops)[i]
                    == init || written(ops, reads_of(init, ops)[i])) by {
                    let x = reads_of(v, rest)[i];
                    if x == v {
                        assert(ops[0] == SlotOp::Write(x));
                    } else {
                        let j = choose|j: int| 0 <= j < rest.len() && rest[j] == SlotOp::Write(x);
                        assert(ops[j + 1] == rest[j]);
                    }
                }
            },
        }
    }
}

/// A copy taken before a write keeps the old identifier, and a read after
/// the write sees the new one.
pub proof fn lemma_copy_outlives_write(init: Seq<char>, v: Seq<char>)
    ensures
        reads_of(init, seq![SlotOp::Read, SlotOp::Write(v), SlotOp::Read]) == seq![init, v],
{
    let ops = seq![SlotOp::Read, SlotOp::Write(v), SlotOp::Read];
    assert(ops.drop_first() =~= seq![SlotOp::Write(v), SlotOp::Read]);
    assert(ops.drop_first().drop_first() =~= seq![SlotOp::Read]);
    assert(ops.drop_first().drop_first().drop_first() =~= Seq::<SlotOp>::empty());
    let r3 = reads_of(v, ops.drop_first().drop_first().drop_first());
    assert(r3 =~= Seq::<Seq<char>>::empty());
    let r2 = reads_of(v, ops.drop_first().drop_first());
    assert(r2 =~= seq![v] + r3);
    assert(reads_of(init, ops.drop_first()) == r2);
    assert(reads_of(init, ops) =~= seq![init] + r2);
    assert(reads_of(init, ops) =~= seq![init, v]);
}

} // verus!
