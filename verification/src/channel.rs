use vstd::prelude::*;

verus! {

/// One direction of the duplex transport, modelled in memory: bytes that
/// have been written become readable by the peer only once flushed, which
/// is how the engine's "flush before awaiting the peer" discipline is made
/// checkable.
pub struct Wire {
    pub data: Vec<u8>,
    pub flushed: usize,
    pub consumed: usize,
}

impl Wire {
    pub open spec fn wf(self) -> bool {
        self.consumed <= self.flushed <= self.data@.len()
    }

    /// Flushed bytes the peer has not read yet.
    pub open spec fn available(self) -> Seq<u8> {
        self.data@.subrange(self.consumed as int, self.flushed as int)
    }

    pub fn new() -> (r: Wire)
        ensures
            r.wf(),
            r.data@ == Seq::<u8>::empty(),
            r.flushed == 0,
            r.consumed == 0,
    {
        Wire { data: Vec::new(), flushed: 0, consumed: 0 }
    }

    /// Append bytes; they are not visible to the peer until a flush.
    pub fn write(&mut self, bytes: &Vec<u8>)
        requires
            old(self).wf(),
        ensures
            final(self).wf(),
            final(self).data@ == old(self).data@ + bytes@,
            final(self).flushed == old(self).flushed,
            final(self).consumed == old(self).consumed,
    {
        let n = bytes.len();
        let mut i: usize = 0;
        while i < n
            invariant
                i <= n,
                n == bytes@.len(),
                self.data@ == old(self).data@ + bytes@.take(i as int),
                self.flushed == old(self).flushed,
                self.consumed == old(self).consumed,
            decreases n - i,
        {
            self.data.push(bytes[i]);
            proof {
                assert(bytes@.take(i + 1 as int) == bytes@.take(i as int).push(bytes@[i as int]));
            }
            i = i + 1;
        }
        proof {
            assert(bytes@.take(n as int) == bytes@);
        }
    }

    /// Make everything written so far readable by the peer.
    pub fn flush(&mut self)
        requires
            old(self).wf(),
        ensures
            final(self).wf(),
            final(self).data@ == old(self).data@,
            final(self).flushed == old(self).data@.len(),
            final(self).consumed == old(self).consumed,
    {
        self.flushed = self.data.len();
    }

    /// Read exactly `n` bytes if that many have been flushed and not yet
    /// read; otherwise leave the wire unchanged.
    pub fn read_exact(&mut self, n: usize) -> (r: Option<Vec<u8>>)
        requires
            old(self).wf(),
        ensures
            final(self).wf(),
            final(self).data@ == old(self).data@,
            final(self).flushed == old(self).flushed,
            old(self).available().len() >= n ==> {
                &&& r matches Some(v) && v@ == old(self).available().take(n as int)
                &&& final(self).consumed == old(self).consumed + n
            },
            old(self).available().len() < n ==> (r matches None && final(self).consumed == old(
                self,
            ).consumed),
    {
        if self.flushed - self.consumed < n {
            return None;
        }
        let mut out: Vec<u8> = Vec::new();
        let mut i: usize = 0;
        while i < n
            invariant
                i <= n,
                self.wf(),
                self == old(self),
                self.consumed + n <= self.flushed,
                out@ == self.available().take(n as int).take(i as int),
            decreases n - i,
        {
            out.push(self.data[self.consumed + i]);
            proof {
                let av = self.available().take(n as int);
                assert(av.take(i + 1 as int) == av.take(i as int).push(av[i as int]));
            }
            i = i + 1;
        }
        proof {
            assert(self.available().take(n as int).take(n as int) == self.available().take(
                n as int,
            ));
        }
        self.consumed = self.consumed + n;
        Some(out)
    }
}

/// In-memory duplex channel between the two roles: one wire from Prover to
/// Verifier and one from Verifier to Prover.  The circuit driver passes the
/// same channel to both evaluators in turn; communication is synchronous and
/// single-threaded.
pub struct Channel {
    pub p2v: Wire,
    pub v2p: Wire,
}

impl Channel {
    pub open spec fn wf(self) -> bool {
        self.p2v.wf() && self.v2p.wf()
    }

    pub fn new() -> (r: Channel)
        ensures
            r.wf(),
            r.p2v.data@ == Seq::<u8>::empty(),
            r.v2p.data@ == Seq::<u8>::empty(),
            r.p2v.consumed == 0,
            r.v2p.consumed == 0,
            r.p2v.flushed == 0,
            r.v2p.flushed == 0,
    {
        Channel { p2v: Wire::new(), v2p: Wire::new() }
    }
}

} // verus!
