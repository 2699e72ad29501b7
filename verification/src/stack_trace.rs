//! Stack traces collected by walking the frame-pointer chain.
//!
//! Reading the frame pointer and the words it points to is the caller's
//! part; [`StackWalker`] decides which frame to read next, which return
//! addresses to keep and when to stop.

use vstd::prelude::*;

verus! {

/// The greatest number of return addresses a [`StackTrace`] holds.
pub const MAX_STACK_FRAMES: usize = 32;

/// Whether `addr` is a canonical x86-64 virtual address: bits 47 to 63 are
/// all clear or all set.
pub open spec fn canonical(addr: usize) -> bool {
    (addr as int) < 0x8000_0000_0000 || (addr as int) >= 0xffff_8000_0000_0000
}

/// Whether `addr` is a canonical x86-64 virtual address.
pub fn is_canonical(addr: usize) -> (r: bool)
    ensures
        r == canonical(addr),
{
    let wide = addr as u64;
    let upper = wide >> 47;
    assert((upper == 0 || upper == 0x1ffff) == (wide < 0x8000_0000_0000u64 || wide
        >= 0xffff_8000_0000_0000u64)) by (bit_vector)
        requires
            upper == wide >> 47u64,
    ;
    upper == 0 || upper == 0x1ffff
}

/// A bounded list of return addresses; pushes beyond
/// [`MAX_STACK_FRAMES`] are dropped.
pub struct StackTrace {
    frames: [usize; 32],
    len: usize,
}

impl StackTrace {
    #[verifier::type_invariant]
    spec fn inv(self) -> bool {
        self.len <= MAX_STACK_FRAMES
    }

    /// The recorded return addresses, oldest push first.
    pub closed spec fn view(&self) -> Seq<usize> {
        self.frames@.subrange(0, self.len as int)
    }

    /// An empty trace.
    pub fn new() -> (t: Self)
        ensures
            t@ == Seq::<usize>::empty(),
    {
        let t = StackTrace { frames: [0usize; 32], len: 0 };
        assert(t@ =~= Seq::<usize>::empty());
        t
    }

    /// Appends `addr` unless the trace is full, in which case nothing changes.
    pub fn push(&mut self, addr: usize)
        ensures
            old(self)@.len() < MAX_STACK_FRAMES ==> final(self)@ == old(self)@.push(addr),
            old(self)@.len() >= MAX_STACK_FRAMES ==> final(self)@ == old(self)@,
            final(self)@.len() <= MAX_STACK_FRAMES,
        no_unwind
    {
        proof {
            use_type_invariant(&*self);
        }
        if self.len < MAX_STACK_FRAMES {
            let ghost before = self@;
            self.frames[self.len] = addr;
            self.len = self.len + 1;
            assert(self@ =~= before.push(addr));
        }
    }

    /// Whether no address has been recorded.
    pub fn is_empty(&self) -> (r: bool)
        ensures
            r == (self@.len() == 0),
    {
        proof {
            use_type_invariant(self);
        }
        self.len == 0
    }

    /// The number of recorded addresses.
    pub fn len(&self) -> (r: usize)
        ensures
            r == self@.len(),
            r <= MAX_STACK_FRAMES,
    {
        proof {
            use_type_invariant(self);
        }
        self.len
    }

    /// The recorded addresses in order.
    pub fn iter(&self) -> (r: Vec<usize>)
        ensures
            r@ == self@,
    {
        proof {
            use_type_invariant(self);
        }
        let mut r: Vec<usize> = Vec::new();
        let mut i: usize = 0;
        while i < self.len
            invariant
                i <= self.len <= MAX_STACK_FRAMES,
                r@ == self@.subrange(0, i as int),
            decreases self.len - i,
        {
            r.push(self.frames[i]);
            i = i + 1;
            assert(r@ =~= self@.subrange(0, i as int));
        }
        assert(r@ =~= self@);
        r
    }
}

/// The first [`MAX_STACK_FRAMES`] elements of `s` (all of them when there
/// are no more).
pub open spec fn capped(s: Seq<usize>) -> Seq<usize> {
    if s.len() <= MAX_STACK_FRAMES {
        s
    } else {
        s.take(MAX_STACK_FRAMES as int)
    }
}

/// The return addresses that a walk of at most `steps` frames records from
/// frame address `rbp` onwards, when `memory` maps each frame address to
/// the saved frame pointer and the return address stored there. The walk
/// ends at a frame address below [`MIN_FRAME_ADDRESS`] or not canonical, at
/// a null or non-canonical return address (not recorded), or after a frame
/// whose saved frame pointer does not lie above it.
pub open spec fn chain_frames(memory: spec_fn(usize) -> (usize, usize), rbp: usize, steps: nat) -> Seq<
    usize,
>
    decreases steps,
{
    if steps == 0 || rbp < MIN_FRAME_ADDRESS || !canonical(rbp) {
        Seq::empty()
    } else {
        let (next, ret) = memory(rbp);
        if ret == 0 || !canonical(ret) {
            Seq::empty()
        } else if next <= rbp {
            seq![ret]
        } else {
            seq![ret] + chain_frames(memory, next, (steps - 1) as nat)
        }
    }
}

/// Recording `x` into a trace holding `f` (dropped when full) and cutting
/// leaves what cutting `f` followed by `x` leaves.
proof fn lemma_capped_push(f: Seq<usize>, x: usize)
    requires
        f.len() <= MAX_STACK_FRAMES,
    ensures
        capped(if f.len() < MAX_STACK_FRAMES {
            f.push(x)
        } else {
            f
        }) == capped(f + seq![x]),
        (if f.len() < MAX_STACK_FRAMES {
            f.push(x)
        } else {
            f
        }) == capped(f + seq![x]),
{
    if f.len() >= MAX_STACK_FRAMES {
        assert((f + seq![x]).take(MAX_STACK_FRAMES as int) =~= f);
    } else {
        assert(f.push(x) =~= f + seq![x]);
    }
}

/// The same as [`lemma_capped_push`] with the rest of a chain after `x`.
proof fn lemma_capped_push_then(f: Seq<usize>, x: usize, rest: Seq<usize>)
    requires
        f.len() <= MAX_STACK_FRAMES,
    ensures
        capped(
            (if f.len() < MAX_STACK_FRAMES {
                f.push(x)
            } else {
                f
            }) + rest,
        ) == capped(f + (seq![x] + rest)),
{
    if f.len() >= MAX_STACK_FRAMES {
        assert((f + rest).take(MAX_STACK_FRAMES as int) =~= f);
        assert((f + (seq![x] + rest)).take(MAX_STACK_FRAMES as int) =~= f);
    } else {
        assert(f.push(x) + rest =~= f + (seq![x] + rest));
    }
}

/// Walks the frame-pointer chain of a stack, at most a given number of
/// frames deep, recording return addresses into a [`StackTrace`].
///
/// The caller reads memory: while [`StackWalker::next_frame`] names a frame
/// address, it reads the saved frame pointer stored there and the return
/// address in the word after it, and hands both to
/// [`StackWalker::advance`].
pub struct StackWalker {
    trace: StackTrace,
    rbp: usize,
    remaining: usize,
    stopped: bool,
}

/// The smallest frame address that is read: below it, the frame chain is
/// taken to have ended.
pub const MIN_FRAME_ADDRESS: usize = 8;

impl StackWalker {
    #[verifier::type_invariant]
    spec fn inv(self) -> bool {
        forall|i: int|
            0 <= i < self.trace@.len() ==> #[trigger] self.trace@[i] != 0 && canonical(
                self.trace@[i],
            )
    }

    /// The return addresses recorded so far.
    pub closed spec fn frames(&self) -> Seq<usize> {
        self.trace@
    }

    /// The frame address the walk has reached.
    pub closed spec fn frame_pointer(&self) -> usize {
        self.rbp
    }

    /// How many more frames the walk may read.
    pub closed spec fn remaining(&self) -> usize {
        self.remaining
    }

    /// Whether the walk has met the end of the chain.
    pub closed spec fn stopped(&self) -> bool {
        self.stopped
    }

    /// The trace the walk ends with when the words still to be read are
    /// those of `memory`: the frames recorded so far followed by the rest of
    /// the chain, cut to [`MAX_STACK_FRAMES`].
    pub open spec fn outcome(&self, memory: spec_fn(usize) -> (usize, usize)) -> Seq<usize> {
        if self.stopped() {
            self.frames()
        } else {
            capped(self.frames() + chain_frames(memory, self.frame_pointer(), self.remaining() as nat))
        }
    }

    /// The frame to read next, if the walk goes on: the frame address,
    /// when frames remain, the walk has not stopped, and the address is at
    /// least [`MIN_FRAME_ADDRESS`] and canonical.
    pub open spec fn pending_frame(&self) -> Option<usize> {
        if !self.stopped() && self.remaining() > 0 && self.frame_pointer() >= MIN_FRAME_ADDRESS
            && canonical(self.frame_pointer()) {
            Some(self.frame_pointer())
        } else {
            None
        }
    }

    /// Starts a walk at frame address `rbp` that reads at most `max_frames`
    /// frames.
    pub fn new(max_frames: usize, rbp: usize) -> (w: Self)
        ensures
            w.frames() == Seq::<usize>::empty(),
            w.frame_pointer() == rbp,
            w.remaining() == max_frames,
            !w.stopped(),
            forall|memory: spec_fn(usize) -> (usize, usize)|
                #[trigger] w.outcome(memory) == capped(chain_frames(memory, rbp, max_frames as nat)),
    {
        assert(forall|s: Seq<usize>| Seq::<usize>::empty() + s =~= s);
        StackWalker { trace: StackTrace::new(), rbp, remaining: max_frames, stopped: false }
    }

    /// The frame address whose two words must be read next, or `None` when
    /// the walk is over.
    pub fn next_frame(&self) -> (r: Option<usize>)
        ensures
            r == self.pending_frame(),
            !self.stopped() && self.remaining() > 0 && self.frame_pointer() >= 8 && (
            self.frame_pointer() < 0x8000_0000_0000 || self.frame_pointer()
                >= 0xffff_8000_0000_0000) ==> r == Some(self.frame_pointer()),
            r is Some ==> r == Some(self.frame_pointer()) && !self.stopped() && self.remaining()
                > 0,
            r is None ==> forall|memory: spec_fn(usize) -> (usize, usize)|
                #[trigger] self.outcome(memory) == self.frames(),
    {
        proof {
            use_type_invariant(self);
            use_type_invariant(&self.trace);
            if self.pending_frame() is None {
                assert forall|memory: spec_fn(usize) -> (usize, usize)|
                    #[trigger] self.outcome(memory) == self.frames() by {
                    if !self.stopped {
                        assert(chain_frames(memory, self.rbp, self.remaining as nat)
                            =~= Seq::<usize>::empty());
                        assert(self.frames() + Seq::<usize>::empty() =~= self.frames());
                    }
                }
            }
        }
        if !self.stopped && self.remaining > 0 && self.rbp >= MIN_FRAME_ADDRESS && is_canonical(
            self.rbp,
        ) {
            Some(self.rbp)
        } else {
            None
        }
    }

    /// Takes the two words read at the pending frame: the saved frame
    /// pointer `next_rbp` and the return address `ret_addr`.
    ///
    /// A null or non-canonical return address ends the walk without being
    /// recorded. Otherwise it is recorded, and the walk moves on to
    /// `next_rbp` if that lies above the current frame, else it ends.
    pub fn advance(&mut self, next_rbp: usize, ret_addr: usize)
        requires
            old(self).pending_frame() is Some,
        ensures
            final(self).remaining() == old(self).remaining() - 1,
            ret_addr == 0 || !canonical(ret_addr) ==> {
                &&& final(self).stopped()
                &&& final(self).frames() == old(self).frames()
                &&& final(self).frame_pointer() == old(self).frame_pointer()
            },
            ret_addr != 0 && canonical(ret_addr) ==> {
                &&& old(self).frames().len() < MAX_STACK_FRAMES ==> final(self).frames()
                    == old(self).frames().push(ret_addr)
                &&& old(self).frames().len() >= MAX_STACK_FRAMES ==> final(self).frames()
                    == old(self).frames()
                &&& final(self).stopped() == (next_rbp <= old(self).frame_pointer())
                &&& final(self).frame_pointer() == if next_rbp <= old(self).frame_pointer() {
                    old(self).frame_pointer()
                } else {
                    next_rbp
                }
            },
            forall|memory: spec_fn(usize) -> (usize, usize)|
                memory(old(self).frame_pointer()) == (next_rbp, ret_addr)
                    ==> #[trigger] final(self).outcome(memory) == old(self).outcome(memory),
    {
        proof {
            use_type_invariant(&*self);
            use_type_invariant(&self.trace);
        }
        let ghost before = *self;
        self.remaining = self.remaining - 1;
        if ret_addr == 0 || !is_canonical(ret_addr) {
            self.stopped = true;
            proof {
                assert forall|memory: spec_fn(usize) -> (usize, usize)|
                    memory(before.frame_pointer()) == (next_rbp, ret_addr) implies #[trigger] self.outcome(
                    memory,
                ) == before.outcome(memory) by {
                    assert(chain_frames(memory, before.rbp, before.remaining as nat)
                        =~= Seq::<usize>::empty());
                    assert(before.frames() + Seq::<usize>::empty() =~= before.frames());
                }
            }
            return ;
        }
        self.trace.push(ret_addr);
        proof {
            lemma_capped_push(before.frames(), ret_addr);
        }
        if next_rbp <= self.rbp {
            self.stopped = true;
            proof {
                assert forall|memory: spec_fn(usize) -> (usize, usize)|
                    memory(before.frame_pointer()) == (next_rbp, ret_addr) implies #[trigger] self.outcome(
                    memory,
                ) == before.outcome(memory) by {
                    assert(chain_frames(memory, before.rbp, before.remaining as nat) =~= seq![
                        ret_addr,
                    ]);
                }
            }
            return ;
        }
        self.rbp = next_rbp;
        proof {
            assert forall|memory: spec_fn(usize) -> (usize, usize)|
                memory(before.frame_pointer()) == (next_rbp, ret_addr) implies #[trigger] self.outcome(
                memory,
            ) == before.outcome(memory) by {
                let rest = chain_frames(memory, next_rbp, self.remaining as nat);
                assert(chain_frames(memory, before.rbp, before.remaining as nat) =~= seq![ret_addr]
                    + rest);
                lemma_capped_push_then(before.frames(), ret_addr, rest);
            }
        }
    }

    /// Every recorded return address is non-null and canonical, and at most
    /// [`MAX_STACK_FRAMES`] are recorded.
    pub fn check_frames(&self) -> (r: usize)
        ensures
            r == self.frames().len(),
            r <= MAX_STACK_FRAMES,
            forall|i: int|
                0 <= i < self.frames().len() ==> #[trigger] self.frames()[i] != 0 && canonical(
                    self.frames()[i],
                ),
    {
        proof {
            use_type_invariant(self);
        }
        self.trace.len()
    }

    /// Ends the walk and gives the recorded trace.
    pub fn finish(self) -> (t: StackTrace)
        ensures
            t@ == self.frames(),
            forall|i: int| 0 <= i < t@.len() ==> #[trigger] t@[i] != 0 && canonical(t@[i]),
    {
        proof {
            use_type_invariant(&self);
        }
        self.trace
    }
}

/// A finished walk records exactly the return addresses of the frame
/// chain: when the walk started at `rbp` with at most `max_frames` frames,
/// and every [`StackWalker::advance`] was given the two words that `memory`
/// holds at the frame it was asked for (so the walk's
/// [`StackWalker::outcome`] for `memory` is still that of the start), then
/// once no frame is pending the recorded trace is the chain's first
/// [`MAX_STACK_FRAMES`] return addresses.
pub proof fn lemma_finished_walk_records_chain(
    w: StackWalker,
    memory: spec_fn(usize) -> (usize, usize),
    rbp: usize,
    max_frames: usize,
)
    requires
        w.outcome(memory) == capped(chain_frames(memory, rbp, max_frames as nat)),
        w.pending_frame() is None,
        w.frames().len() <= MAX_STACK_FRAMES,
    ensures
        w.frames() == capped(chain_frames(memory, rbp, max_frames as nat)),
{
    if !w.stopped() {
        assert(chain_frames(memory, w.frame_pointer(), w.remaining() as nat) =~= Seq::<
            usize,
        >::empty());
        assert(w.frames() + Seq::<usize>::empty() =~= w.frames());
    }
}

/// An address is canonical exactly when its bits 47 to 63 are all equal;
/// in particular every address of the higher half is canonical.
pub proof fn lemma_canonical_iff_high_bits_equal(addr: usize)
    ensures
        canonical(addr) <==> (((addr as u64) >> 47u64) == 0 || ((addr as u64) >> 47u64)
            == 0x1ffff),
        addr >= 0xffff_8000_0000_0000 ==> canonical(addr),
        0x8000_0000_0000 <= addr < 0xffff_8000_0000_0000 ==> !canonical(addr),
{
    let wide = addr as u64;
    assert(((wide >> 47u64) == 0 || (wide >> 47u64) == 0x1ffff) <==> (wide < 0x8000_0000_0000u64
        || wide >= 0xffff_8000_0000_0000u64)) by (bit_vector);
}

/// A walk that has not stopped and has frames left reads the frame it has
/// reached whenever that address is at least 8 and has bits 47 to 63 all
/// clear or all set, lower-half user or higher-half kernel alike; it ends
/// at a frame address only when that is below 8 or not canonical.
pub proof fn lemma_walk_reads_canonical_frames(w: StackWalker)
    requires
        !w.stopped(),
        w.remaining() > 0,
    ensures
        w.frame_pointer() >= 8 && (w.frame_pointer() < 0x8000_0000_0000 || w.frame_pointer()
            >= 0xffff_8000_0000_0000) ==> w.pending_frame() == Some(w.frame_pointer()),
        w.pending_frame() is None ==> w.frame_pointer() < 8 || (0x8000_0000_0000
            <= w.frame_pointer() < 0xffff_8000_0000_0000),
{
}

/// The chain from a frame at least 8 whose address is canonical, with
/// steps left and a non-null canonical return address stored there, starts
/// with that return address; any address in the higher half qualifies.
pub proof fn lemma_chain_starts_at_frame(
    memory: spec_fn(usize) -> (usize, usize),
    rbp: usize,
    steps: nat,
)
    requires
        steps > 0,
        rbp >= 8,
        rbp < 0x8000_0000_0000 || rbp >= 0xffff_8000_0000_0000,
        memory(rbp).1 != 0,
        memory(rbp).1 < 0x8000_0000_0000 || memory(rbp).1 >= 0xffff_8000_0000_0000,
    ensures
        chain_frames(memory, rbp, steps).len() >= 1,
        chain_frames(memory, rbp, steps)[0] == memory(rbp).1,
{
}

} // verus!
