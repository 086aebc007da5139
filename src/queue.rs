use vstd::prelude::*;

verus! {

/// The element that a pop from a queue holding `s` (front first) returns:
/// its front, or `None` when it is empty.
pub open spec fn front_of<T>(s: Seq<T>) -> Option<T> {
    if s.len() == 0 {
        None
    } else {
        Some(s[0])
    }
}

/// What a queue holding `s` (front first) holds after one pop: `s` without its
/// front, or `s` unchanged when it is empty.
pub open spec fn rest_of<T>(s: Seq<T>) -> Seq<T> {
    if s.len() == 0 {
        s
    } else {
        s.drop_first()
    }
}

/// Reversing a sequence with one more element at its end puts that element first.
proof fn lemma_reverse_push<T>(s: Seq<T>, x: T)
    ensures
        s.push(x).reverse() == seq![x] + s.reverse(),
{
    assert(s.push(x).reverse() =~= seq![x] + s.reverse());
}

/// A first-in-first-out queue held in two vectors.
///
/// `younger` receives pushed elements in arrival order; `older` holds the
/// front of the queue stored back to front, so that the next element to leave
/// is its last one. When `older` runs dry, `pop` moves all of `younger` into it
/// in reverse.
pub struct Queue<T> {
    older: Vec<T>,
    younger: Vec<T>,
    /// Number of successful pushes over the queue's lifetime.
    pushed: Ghost<nat>,
    /// Number of successful pops over the queue's lifetime.
    popped: Ghost<nat>,
    /// Number of element moves from `younger` into `older` over the queue's lifetime.
    moved: Ghost<nat>,
}

impl<T> View for Queue<T> {
    type V = Seq<T>;

    /// The queue's contents, front first.
    closed spec fn view(&self) -> Seq<T> {
        self.older@.reverse() + self.younger@
    }
}

impl<T> Queue<T> {
    /// The internal invariant: every element ever pushed has either been
    /// moved to `older` exactly once or is still waiting in `younger`, and
    /// every element ever moved has either been popped or still sits in `older`.
    /// The number of held elements fits in a `usize`.
    pub closed spec fn wf(&self) -> bool {
        &&& self.older@.len() + self.younger@.len() <= usize::MAX
        &&& self.moved@ + self.younger@.len() == self.pushed@
        &&& self.popped@ + self.older@.len() == self.moved@
    }

    /// How many elements have been pushed since the queue was created.
    pub closed spec fn pushes(&self) -> nat {
        self.pushed@
    }

    /// How many pops have returned an element since the queue was created.
    pub closed spec fn pops(&self) -> nat {
        self.popped@
    }

    /// How many element moves between the two backing vectors have happened
    /// since the queue was created.
    pub closed spec fn moves(&self) -> nat {
        self.moved@
    }

    /// How many of the held elements have not yet been moved between the
    /// backing vectors.
    pub closed spec fn unmoved(&self) -> nat {
        self.younger@.len()
    }

    /// The number of held elements is the number of pushes minus the number
    /// of pops that returned an element.
    pub proof fn lemma_len_is_pushes_minus_pops(&self)
        requires
            self.wf(),
        ensures
            self.pops() <= self.pushes(),
            self@.len() == self.pushes() - self.pops(),
    {
    }

    /// Every element is moved between the backing vectors at most once: the
    /// moves so far plus the elements still waiting to be moved are exactly the
    /// pushes so far. Since every push is one operation, no sequence of `n`
    /// operations on a new queue makes more than `n` moves.
    pub proof fn lemma_moves_bounded_by_pushes(&self)
        requires
            self.wf(),
        ensures
            self.moves() + self.unmoved() == self.pushes(),
            self.moves() <= self.pushes(),
            self.unmoved() <= self@.len(),
    {
    }

    /// Creates an empty queue.
    pub fn new() -> (q: Self)
        ensures
            q.wf(),
            q@ == Seq::<T>::empty(),
            q.pushes() == 0,
            q.pops() == 0,
            q.moves() == 0,
    {
        let q = Queue {
            older: Vec::new(),
            younger: Vec::new(),
            pushed: Ghost(0),
            popped: Ghost(0),
            moved: Ghost(0),
        };
        assert(q@ =~= Seq::<T>::empty());
        q
    }

    /// Appends `value` at the back of the queue.
    pub fn push(&mut self, value: T)
        requires
            old(self).wf(),
            old(self)@.len() < usize::MAX,
        ensures
            final(self).wf(),
            final(self)@ == old(self)@.push(value),
            final(self).pushes() == old(self).pushes() + 1,
            final(self).pops() == old(self).pops(),
            final(self).moves() == old(self).moves(),
    {
        self.younger.push(value);
        self.pushed = Ghost(self.pushed@ + 1);
        assert(self@ =~= old(self)@.push(value));
    }

    /// Removes and returns the element at the front of the queue, or returns
    /// `None`, leaving the queue as it is, when it is empty.
    pub fn pop(&mut self) -> (r: Option<T>)
        requires
            old(self).wf(),
        ensures
            final(self).wf(),
            r == front_of(old(self)@),
            final(self)@ == rest_of(old(self)@),
            final(self).pushes() == old(self).pushes(),
            final(self).pops() == old(self).pops() + if r is Some { 1int } else { 0int },
            final(self).moves() + final(self).unmoved() == old(self).moves() + old(self).unmoved(),
            final(self).moves() >= old(self).moves(),
    {
        if self.older.len() == 0 {
            let ghost start = self.younger@;
            while self.younger.len() > 0
                invariant
                    self.wf(),
                    self.younger@ + self.older@.reverse() == start,
                    self.pushed@ == old(self).pushed@,
                    self.popped@ == old(self).popped@,
                    self.moved@ + self.younger@.len() == old(self).moved@ + start.len(),
                decreases self.younger@.len(),
            {
                let ghost before_y = self.younger@;
                let ghost before_o = self.older@;
                let x = self.younger.pop().unwrap();
                self.older.push(x);
                self.moved = Ghost(self.moved@ + 1);
                proof {
                    lemma_reverse_push(before_o, x);
                    assert(before_y == self.younger@.push(x));
                    assert(self.younger@ + self.older@.reverse() =~= before_y + before_o.reverse());
                }
            }
            assert(self.older@.reverse() =~= start);
        }
        match self.older.pop() {
            Some(x) => {
                self.popped = Ghost(self.popped@ + 1);
                proof {
                    lemma_reverse_push(self.older@, x);
                    assert(self@ =~= old(self)@.drop_first());
                }
                Some(x)
            }
            None => {
                assert(self@ =~= old(self)@);
                None
            }
        }
    }

    /// References to the held elements, front first: `older` from its end,
    /// then `younger` from its start.
    pub fn items(&self) -> (r: Vec<&T>)
        requires
            self.wf(),
        ensures
            r@.len() == self@.len(),
            forall|i: int| 0 <= i < r@.len() ==> *r@[i] == self@[i],
    {
        let mut r: Vec<&T> = Vec::new();
        let mut k: usize = self.older.len();
        while k > 0
            invariant
                k <= self.older@.len(),
                r@.len() == self.older@.len() - k,
                forall|i: int| 0 <= i < r@.len() ==> *r@[i] == self@[i],
            decreases k,
        {
            k = k - 1;
            r.push(&self.older[k]);
        }
        let mut j: usize = 0;
        while j < self.younger.len()
            invariant
                j <= self.younger@.len(),
                r@.len() == self.older@.len() + j,
                forall|i: int| 0 <= i < r@.len() ==> *r@[i] == self@[i],
            decreases self.younger@.len() - j,
        {
            r.push(&self.younger[j]);
            j = j + 1;
        }
        r
    }

    /// Whether the queue holds no element.
    pub fn is_empty(&self) -> (r: bool)
        requires
            self.wf(),
        ensures
            r == (self@.len() == 0),
    {
        self.older.is_empty() && self.younger.is_empty()
    }

    /// The number of elements the queue holds.
    pub fn len(&self) -> (r: usize)
        requires
            self.wf(),
        ensures
            r == self@.len(),
    {
        self.older.len() + self.younger.len()
    }
}

} // verus!
