//! What is hashed of a file: its bytes as they are in binary mode, and with
//! every carriage return that a line feed follows taken out in text mode. A
//! file is read in chunks, and a line ending may lie across two of them.

use vstd::prelude::*;
use crate::checksum::ChecksumMode;

verus! {

/// The byte of a carriage return.
pub const CR: u8 = 13;

/// The byte of a line feed.
pub const LF: u8 = 10;

/// The bytes with every carriage return that a line feed follows taken out.
pub open spec fn normalized(data: Seq<u8>) -> Seq<u8>
    decreases data.len(),
{
    if data.len() == 0 {
        Seq::empty()
    } else if data.len() >= 2 && data[0] == CR && data[1] == LF {
        seq![LF] + normalized(data.skip(2))
    } else {
        seq![data[0]] + normalized(data.skip(1))
    }
}

/// The bytes of a file's content that are hashed in a mode.
pub open spec fn digest_input(mode: ChecksumMode, content: Seq<u8>) -> Seq<u8> {
    match mode {
        ChecksumMode::Binary => content,
        ChecksumMode::Text => normalized(content),
    }
}

/// Normalising two pieces one after the other is normalising them apart,
/// unless a line ending lies across them.
pub proof fn lemma_normalized_concat(a: Seq<u8>, b: Seq<u8>)
    requires
        !(a.len() > 0 && b.len() > 0 && a.last() == CR && b[0] == LF),
    ensures
        normalized(a + b) == normalized(a) + normalized(b),
    decreases a.len(),
{
    let whole = a + b;
    if a.len() == 0 {
        assert(whole =~= b);
        assert(normalized(a) + normalized(b) =~= normalized(b));
    } else if a.len() >= 2 && a[0] == CR && a[1] == LF {
        assert(whole.skip(2) =~= a.skip(2) + b);
        if a.skip(2).len() > 0 {
            assert(a.skip(2).last() == a.last());
        }
        lemma_normalized_concat(a.skip(2), b);
        assert(normalized(whole) =~= normalized(a) + normalized(b));
    } else {
        assert(whole.skip(1) =~= a.skip(1) + b);
        if a.skip(1).len() > 0 {
            assert(a.skip(1).last() == a.last());
        }
        // The first byte of the whole opens a line ending only where that of `a` does.
        if a.len() == 1 {
            assert(whole.len() >= 2 ==> whole[1] == b[0]);
        } else {
            assert(whole[1] == a[1]);
        }
        lemma_normalized_concat(a.skip(1), b);
        assert(normalized(whole) =~= normalized(a) + normalized(b));
    }
}

/// A single byte stays as it is.
proof fn lemma_normalized_one(byte: u8)
    ensures
        normalized(seq![byte]) == seq![byte],
{
    let one = seq![byte];
    assert(one.skip(1) =~= Seq::<u8>::empty());
    assert(normalized(one.skip(1)) =~= Seq::<u8>::empty());
    assert(normalized(one) =~= one);
}

/// A carriage return and the byte after it: a line feed alone where that
/// byte is one, and both bytes as they are where it is not.
proof fn lemma_normalized_two(byte: u8)
    ensures
        normalized(seq![CR, byte]) == if byte == LF {
            seq![LF]
        } else {
            seq![CR, byte]
        },
{
    let two = seq![CR, byte];
    if byte == LF {
        assert(two.skip(2) =~= Seq::<u8>::empty());
        assert(normalized(two.skip(2)) =~= Seq::<u8>::empty());
        assert(normalized(two) =~= seq![LF]);
    } else {
        assert(two.skip(1) =~= seq![byte]);
        lemma_normalized_one(byte);
        assert(normalized(two) =~= two);
    }
}

/// The bytes of a file on their way to the digest. The chunks of the file
/// are fed in order, and what comes out is handed to the digest, in order
/// too; `finish` gives the rest.
pub struct DigestFeed {
    mode: ChecksumMode,
    /// Whether a carriage return has been read and not yet handed on.
    pending_cr: bool,
    consumed: Ghost<Seq<u8>>,
    emitted: Ghost<Seq<u8>>,
}

impl DigestFeed {
    /// The mode in which the file is read.
    pub closed spec fn mode(self) -> ChecksumMode {
        self.mode
    }

    /// The bytes that have been fed so far.
    pub closed spec fn consumed(self) -> Seq<u8> {
        self.consumed@
    }

    /// The bytes that have come out so far.
    pub closed spec fn emitted(self) -> Seq<u8> {
        self.emitted@
    }

    /// What has come out is what is hashed of what has been fed, short of
    /// a carriage return at its end that is held back.
    #[verifier::type_invariant]
    pub closed spec fn consistent(self) -> bool {
        if self.pending_cr {
            &&& self.mode == ChecksumMode::Text
            &&& self.consumed@.len() > 0
            &&& self.consumed@.last() == CR
            &&& self.emitted@ == normalized(self.consumed@.drop_last())
        } else {
            &&& self.emitted@ == digest_input(self.mode, self.consumed@)
            &&& self.mode == ChecksumMode::Text ==> self.consumed@.len() == 0
                || self.consumed@.last() != CR
        }
    }

    /// A feed into which nothing has been fed.
    pub fn new(mode: ChecksumMode) -> (feed: Self)
        ensures
            feed.mode() == mode,
            feed.consumed() == Seq::<u8>::empty(),
            feed.emitted() == Seq::<u8>::empty(),
    {
        DigestFeed {
            mode,
            pending_cr: false,
            consumed: Ghost(Seq::empty()),
            emitted: Ghost(Seq::empty()),
        }
    }

    /// Feeds the next chunk of the file; returns the bytes to hand to the digest.
    pub fn feed(&mut self, chunk: &[u8]) -> (out: Vec<u8>)
        ensures
            final(self).mode() == old(self).mode(),
            final(self).consumed() == old(self).consumed() + chunk@,
            final(self).emitted() == old(self).emitted() + out@,
            final(self).mode() == ChecksumMode::Binary ==> out@ == chunk@,
    {
        proof {
            use_type_invariant(&*self);
        }
        let mode = self.mode;
        let mut pending: bool = self.pending_cr;
        let ghost before_in = self.consumed@;
        let ghost before_out = self.emitted@;
        let mut out: Vec<u8> = Vec::new();
        let mut i: usize = 0;
        proof {
            assert(before_in + chunk@.take(0) =~= before_in);
            assert(before_out + out@ =~= before_out);
        }
        while i < chunk.len()
            invariant
                i <= chunk.len(),
                mode == ChecksumMode::Binary ==> out@ == chunk@.take(i as int) && !pending,
                ({
                    let fed = before_in + chunk@.take(i as int);
                    let given = before_out + out@;
                    if pending {
                        &&& mode == ChecksumMode::Text
                        &&& fed.len() > 0
                        &&& fed.last() == CR
                        &&& given == normalized(fed.drop_last())
                    } else {
                        &&& given == digest_input(mode, fed)
                        &&& mode == ChecksumMode::Text ==> fed.len() == 0 || fed.last() != CR
                    }
                }),
            decreases chunk.len() - i,
        {
            let byte: u8 = chunk[i];
            let ghost fed = before_in + chunk@.take(i as int);
            let ghost next = before_in + chunk@.take(i + 1);
            let ghost out_before = out@;
            proof {
                assert(chunk@.take(i + 1) =~= chunk@.take(i as int).push(byte));
                assert(next =~= fed.push(byte));
            }
            match mode {
                ChecksumMode::Binary => {
                    out.push(byte);
                    proof {
                        assert(before_out + out@ =~= next);
                    }
                },
                ChecksumMode::Text => {
                    if pending {
                        let ghost q = fed.drop_last();
                        proof {
                            assert(fed =~= q.push(CR));
                        }
                        if byte == LF {
                            out.push(LF);
                            pending = false;
                            proof {
                                let pair = seq![CR, LF];
                                assert(next =~= q + pair);
                                lemma_normalized_concat(q, pair);
                                lemma_normalized_two(LF);
                                assert(before_out + out@ =~= normalized(q) + seq![LF]);
                            }
                        } else if byte == CR {
                            out.push(CR);
                            proof {
                                let one = seq![CR];
                                assert(next.drop_last() =~= q + one);
                                lemma_normalized_concat(q, one);
                                lemma_normalized_one(CR);
                                assert(before_out + out@ =~= normalized(q) + one);
                            }
                        } else {
                            out.push(CR);
                            out.push(byte);
                            pending = false;
                            proof {
                                let two = seq![CR, byte];
                                assert(next =~= q + two);
                                lemma_normalized_concat(q, two);
                                lemma_normalized_two(byte);
                                assert(before_out + out@ =~= normalized(q) + two);
                            }
                        }
                    } else {
                        if byte == CR {
                            pending = true;
                            proof {
                                assert(next.drop_last() =~= fed);
                            }
                        } else {
                            out.push(byte);
                            proof {
                                let one = seq![byte];
                                assert(next =~= fed + one);
                                lemma_normalized_concat(fed, one);
                                lemma_normalized_one(byte);
                                assert(before_out + out@ =~= normalized(fed) + one);
                            }
                        }
                    }
                },
            }
            i += 1;
        }
        proof {
            assert(chunk@.take(i as int) =~= chunk@);
        }
        let ghost consumed = before_in + chunk@;
        let ghost emitted = before_out + out@;
        *self = DigestFeed {
            mode,
            pending_cr: pending,
            consumed: Ghost(consumed),
            emitted: Ghost(emitted),
        };
        out
    }

    /// Ends the file; returns the last bytes to hand to the digest. With
    /// them, everything that has come out is what is hashed of the file's
    /// content in the mode, however the content was cut into chunks.
    pub fn finish(self) -> (out: Vec<u8>)
        ensures
            self.emitted() + out@ == digest_input(self.mode(), self.consumed()),
    {
        proof {
            use_type_invariant(&self);
        }
        let mut out: Vec<u8> = Vec::new();
        if self.pending_cr {
            out.push(CR);
            proof {
                let q = self.consumed@.drop_last();
                let one = seq![CR];
                assert(self.consumed@ =~= q + one);
                lemma_normalized_concat(q, one);
                lemma_normalized_one(CR);
                assert(self.emitted@ + out@ =~= normalized(q) + one);
            }
        } else {
            proof {
                assert(self.emitted@ + out@ =~= self.emitted@);
            }
        }
        out
    }
}

} // verus!
