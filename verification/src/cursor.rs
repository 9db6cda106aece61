use vstd::prelude::*;

verus! {

/// Where the current index lands after the underlying sequence shrinks or
/// grows to `len` elements: it is clamped to the last valid index, and an
/// empty sequence keeps it at 0 by convention.
pub open spec fn clamp_index(i: int, len: nat) -> int {
    if len == 0 {
        0
    } else if i < len - 1 {
        i
    } else {
        len - 1
    }
}

/// A positional history: an ordered sequence of entries together with a
/// current index that always stays in bounds. Entries are appended at the
/// end, removed by index, and navigated one step at a time.
pub struct Cursor<T> {
    index: usize,
    data: Vec<T>,
}

impl<T> Default for Cursor<T> {
    /// An empty history with the current index at 0.
    fn default() -> (r: Self)
        ensures
            r.items().len() == 0,
            r.cur() == 0,
            r.wf(),
    {
        Cursor { index: 0, data: Vec::new() }
    }
}

impl<T> Cursor<T> {
    /// The entries held, oldest first.
    pub closed spec fn items(&self) -> Seq<T> {
        self.data@
    }

    /// The current index.
    pub closed spec fn cur(&self) -> int {
        self.index as int
    }

    /// The current index is 0 on an empty history and a valid index into the
    /// entries otherwise. Every operation below preserves this.
    pub open spec fn wf(&self) -> bool {
        if self.items().len() == 0 {
            self.cur() == 0
        } else {
            0 <= self.cur() < self.items().len()
        }
    }

    pub fn new(data: Vec<T>) -> (r: Self)
        ensures
            r.items() == data@,
            r.cur() == 0,
            r.wf(),
    {
        Cursor { index: 0, data }
    }

    /// Move the current index to `index`. Out-of-bounds requests (including
    /// any request on an empty history) are rejected and change nothing.
    pub fn goto(&mut self, index: usize) -> (r: bool)
        requires
            old(self).wf(),
        ensures
            final(self).items() == old(self).items(),
            r == (index < old(self).items().len()),
            r ==> final(self).cur() == index,
            !r ==> final(self).cur() == old(self).cur(),
            final(self).wf(),
    {
        if index >= self.data.len() {
            false
        } else {
            self.index = index;
            true
        }
    }

    /// All entries, oldest first.
    pub fn data(&self) -> (r: &[T])
        ensures
            r@ == self.items(),
    {
        self.data.as_slice()
    }

    /// Re-clamp the current index after a mutation of the sequence.
    fn constrain(&mut self)
        ensures
            final(self).items() == old(self).items(),
            final(self).cur() == clamp_index(old(self).cur(), old(self).items().len()),
            final(self).wf(),
    {
        let last = if self.data.len() == 0 {
            0
        } else {
            self.data.len() - 1
        };
        if self.index > last {
            self.index = last;
        }
    }

    pub fn index(&self) -> (r: usize)
        ensures
            r == self.cur(),
    {
        self.index
    }

    /// Advance the current index by one; at the last entry this is a no-op.
    /// Returns the entry now selected.
    pub fn next(&mut self) -> (r: &T)
        requires
            old(self).wf(),
            old(self).items().len() > 0,
        ensures
            final(self).items() == old(self).items(),
            final(self).cur() == if old(self).cur() + 1 < old(self).items().len() {
                old(self).cur() + 1
            } else {
                old(self).cur()
            },
            final(self).wf(),
            *r == final(self).items()[final(self).cur()],
    {
        let i = self.index;
        let n = self.data.len();
        proof {
            assert(i < n);
        }
        self.goto(i + 1);
        self.get()
    }

    /// Retreat the current index by one; at index 0 this is a no-op.
    /// Returns the entry now selected.
    pub fn prev(&mut self) -> (r: &T)
        requires
            old(self).wf(),
            old(self).items().len() > 0,
        ensures
            final(self).items() == old(self).items(),
            final(self).cur() == if old(self).cur() > 0 {
                old(self).cur() - 1
            } else {
                0
            },
            final(self).wf(),
            *r == final(self).items()[final(self).cur()],
    {
        let i = self.index;
        self.goto(if i > 0 { i - 1 } else { 0 });
        self.get()
    }

    /// The entry at the current index. The history must be non-empty;
    /// callers check `len() == 0` first.
    pub fn get(&self) -> (r: &T)
        requires
            self.wf(),
            self.items().len() > 0,
        ensures
            *r == self.items()[self.cur()],
    {
        &self.data[self.index]
    }

    /// The entry at `index`, or nothing when out of range; the current index
    /// is not consulted and not changed.
    pub fn get_at(&self, index: usize) -> (r: Option<&T>)
        ensures
            index < self.items().len() ==> (r matches Some(v) && *v == self.items()[index as int]),
            index >= self.items().len() ==> r is None,
    {
        if index < self.data.len() {
            Some(&self.data[index])
        } else {
            None
        }
    }

    pub fn len(&self) -> (r: usize)
        ensures
            r == self.items().len(),
    {
        self.data.len()
    }

    pub fn is_empty(&self) -> (r: bool)
        ensures
            r == (self.items().len() == 0),
    {
        self.data.len() == 0
    }

    /// Append an entry at the end. The current index is unchanged: on a
    /// previously empty history it was 0 and now selects the new entry.
    pub fn push(&mut self, value: T)
        requires
            old(self).wf(),
        ensures
            final(self).items() == old(self).items().push(value),
            final(self).cur() == old(self).cur(),
            final(self).wf(),
    {
        self.data.push(value);
        self.constrain();
    }

    /// Remove the entry at `index`, shifting later entries down by one, then
    /// clamp the current index to the last valid index. The index value is
    /// preserved rather than the selected entry: removing an entry before the
    /// current one silently shifts which entry is selected.
    pub fn remove(&mut self, index: usize)
        requires
            old(self).wf(),
            index < old(self).items().len(),
        ensures
            final(self).items() == old(self).items().remove(index as int),
            final(self).cur() == clamp_index(
                old(self).cur(),
                (old(self).items().len() - 1) as nat,
            ),
            final(self).wf(),
    {
        self.data.remove(index);
        self.constrain();
    }
}

/// A `push` onto an empty history leaves the current index at 0 and the
/// pushed value as the entry `get` returns: `post` here is related to `pre`
/// exactly as the contract of `push` states.
pub proof fn lemma_push_on_empty_selects_pushed<T>(pre: Cursor<T>, post: Cursor<T>, value: T)
    requires
        pre.wf(),
        pre.items().len() == 0,
        post.items() == pre.items().push(value),
        post.cur() == pre.cur(),
    ensures
        post.cur() == 0,
        post.items()[post.cur()] == value,
{
}

/// After any completed operation the current index is either 0 (on an empty
/// history) or within `[0, len - 1]`. Each mutating operation above requires
/// `wf()` and ensures it again, so any sequence of `push`, `remove`, `goto`,
/// `next` and `prev` starting from `new` stays within these bounds.
pub proof fn lemma_index_in_bounds<T>(c: Cursor<T>)
    requires
        c.wf(),
    ensures
        c.items().len() == 0 ==> c.cur() == 0,
        c.items().len() > 0 ==> 0 <= c.cur() < c.items().len(),
{
}

} // verus!
