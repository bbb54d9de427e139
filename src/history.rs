use vstd::prelude::*;

verus! {

/// Number of frames the history keeps by default.
pub const HISTORY_CAP: usize = 1000;

/// What a history bounded by `cap` holds once `frame` is recorded on top of
/// `frames`: the new frame first, then the older ones, cut from the tail.
pub open spec fn pushed_front<T>(frames: Seq<T>, frame: T, cap: nat) -> Seq<T> {
    let grown = seq![frame] + frames;
    if grown.len() <= cap {
        grown
    } else {
        grown.take(cap as int)
    }
}

/// The history after recording each of `inserted` in turn, starting empty.
pub open spec fn history_of<T>(inserted: Seq<T>, cap: nat) -> Seq<T>
    decreases inserted.len(),
{
    if inserted.len() == 0 {
        Seq::empty()
    } else {
        pushed_front(history_of(inserted.drop_last(), cap), inserted.last(), cap)
    }
}

/// Sensor frames, newest first, never more than a fixed cap.
pub struct SensorHistory<T> {
    frames: Vec<T>,
    cap: usize,
}

impl<T> View for SensorHistory<T> {
    type V = Seq<T>;

    closed spec fn view(&self) -> Seq<T> {
        self.frames@
    }
}

impl<T> SensorHistory<T> {
    /// The bound on the number of frames kept.
    pub closed spec fn spec_cap(&self) -> nat {
        self.cap as nat
    }

    /// An empty history holding at most `HISTORY_CAP` frames.
    pub fn new() -> (h: Self)
        ensures
            h@.len() == 0,
            h.spec_cap() == HISTORY_CAP,
    {
        SensorHistory { frames: Vec::new(), cap: HISTORY_CAP }
    }

    /// An empty history holding at most `cap` frames.
    pub fn with_cap(cap: usize) -> (h: Self)
        ensures
            h@.len() == 0,
            h.spec_cap() == cap,
    {
        SensorHistory { frames: Vec::new(), cap }
    }

    pub fn cap(&self) -> (r: usize)
        ensures
            r == self.spec_cap(),
    {
        self.cap
    }

    pub fn len(&self) -> (r: usize)
        ensures
            r == self@.len(),
    {
        self.frames.len()
    }

    /// The frames, newest first.
    pub fn frames(&self) -> (r: &[T])
        ensures
            r@ == self@,
    {
        self.frames.as_slice()
    }

    /// Puts `frame` at the head and drops the oldest frames beyond the cap.
    pub fn record(&mut self, frame: T)
        ensures
            final(self).spec_cap() == old(self).spec_cap(),
            final(self)@ == pushed_front(old(self)@, frame, old(self).spec_cap()),
    {
        let ghost grown = seq![frame] + self.frames@;
        self.frames.insert(0, frame);
        assert(self.frames@ =~= grown);
        assert(grown.take(grown.len() as int) =~= grown);
        while self.frames.len() > self.cap
            invariant
                self.cap == old(self).cap,
                self.frames@.len() <= grown.len(),
                self.frames@ == grown.take(self.frames@.len() as int),
                self.frames@.len() < grown.len() ==> self.frames@.len() >= self.cap,
            decreases self.frames.len(),
        {
            self.frames.pop();
            assert(self.frames@ =~= grown.take(self.frames@.len() as int));
        }
        assert(grown.take(grown.len() as int) =~= grown);
    }
}

/// Recording `inserted` one after another into an empty history with cap
/// `cap` leaves `min(K, cap)` frames, where K is the number recorded, and the
/// most recently recorded frame at the head.
pub proof fn lemma_history_bounded<T>(inserted: Seq<T>, cap: nat)
    requires
        cap > 0,
    ensures
        history_of(inserted, cap).len() == if inserted.len() <= cap { inserted.len() } else { cap },
        inserted.len() > 0 ==> history_of(inserted, cap)[0] == inserted.last(),
    decreases inserted.len(),
{
    if inserted.len() > 0 {
        lemma_history_bounded(inserted.drop_last(), cap);
    }
}

} // verus!
