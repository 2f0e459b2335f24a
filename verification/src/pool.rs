//! A growable pool of equally long scratch buffers, one per instance.

use crate::error::CepstrumError;
use vstd::prelude::*;

verus! {

/// The buffer of `len` samples that all equal `fill`.
pub open spec fn filled_with<S>(len: nat, fill: S) -> Seq<S> {
    Seq::new(len, |i: int| fill)
}

/// `buffer` brought to exactly `len` samples: cut at the end when it is
/// longer, padded at the end with `fill` when it is shorter.
pub open spec fn resized<S>(buffer: Seq<S>, len: nat, fill: S) -> Seq<S> {
    if len <= buffer.len() {
        buffer.take(len as int)
    } else {
        buffer + filled_with((len - buffer.len()) as nat, fill)
    }
}

/// The instance count after a request for `requested` instances: the pool
/// grows to the request and never shrinks.
pub open spec fn grown_count(count: nat, requested: nat) -> nat {
    if requested > count {
        requested
    } else {
        count
    }
}

/// The instance count never goes down, and a request that does not exceed
/// an earlier one changes nothing: after a request for `k` instances, a
/// request for `j <= k` leaves the count where the first request put it,
/// which is `k` whenever there were at most `k` instances to begin with.
pub proof fn lemma_growth_settles(count: nat, k: nat, j: nat)
    requires
        j <= k,
    ensures
        grown_count(count, k) >= count,
        grown_count(grown_count(count, k), j) == grown_count(count, k),
        count <= k ==> grown_count(grown_count(count, k), j) == k,
{
}

/// Cutting or padding a buffer to the length it already has leaves it as it
/// is.
pub proof fn lemma_resized_to_own_len<S>(buffer: Seq<S>, fill: S)
    ensures
        resized(buffer, buffer.len(), fill) == buffer,
{
    assert(buffer.take(buffer.len() as int) =~= buffer);
}

/// Scratch buffers of one common length, indexed by instance.
pub struct ScratchPool<S> {
    required_len: usize,
    fill: S,
    buffers: Vec<Vec<S>>,
}

impl<S> View for ScratchPool<S> {
    type V = Seq<Seq<S>>;

    /// The buffers in instance order, each as the sequence of its samples.
    closed spec fn view(&self) -> Seq<Seq<S>> {
        Seq::new(self.buffers@.len(), |i: int| self.buffers@[i]@)
    }
}

/// A vector of `len` copies of `fill`.
fn filled<S: Copy>(len: usize, fill: S) -> (buffer: Vec<S>)
    ensures
        buffer@ == filled_with(len as nat, fill),
{
    let mut buffer: Vec<S> = Vec::with_capacity(len);
    let mut i: usize = 0;
    while i < len
        invariant
            i <= len,
            buffer@ == filled_with(i as nat, fill),
        decreases len - i,
    {
        buffer.push(fill);
        i = i + 1;
    }
    buffer
}

/// Cuts or pads `buffer` to `len` samples.
fn resize_buffer<S: Copy>(buffer: &mut Vec<S>, len: usize, fill: S)
    ensures
        final(buffer)@ == resized(old(buffer)@, len as nat, fill),
{
    if len <= buffer.len() {
        buffer.truncate(len);
    } else {
        let ghost before = buffer@;
        while buffer.len() < len
            invariant
                before.len() <= buffer@.len() <= len,
                buffer@ == before + filled_with((buffer@.len() - before.len()) as nat, fill),
            decreases len - buffer@.len(),
        {
            buffer.push(fill);
        }
    }
}

impl<S: Copy> ScratchPool<S> {
    /// The length every buffer of the pool has.
    pub closed spec fn spec_required_len(&self) -> usize {
        self.required_len
    }

    /// The sample that fresh buffers and padding are made of.
    pub closed spec fn spec_fill(&self) -> S {
        self.fill
    }

    /// There is at least one buffer, and every buffer has the required
    /// length.
    pub open spec fn wf(&self) -> bool {
        &&& self@.len() >= 1
        &&& forall|i: int| 0 <= i < self@.len() ==> (#[trigger] self@[i]).len() == self.spec_required_len()
    }

    /// A pool of one buffer of `required_len` samples, all equal to `fill`.
    pub fn new(required_len: usize, fill: S) -> (pool: Self)
        ensures
            pool.wf(),
            pool.spec_required_len() == required_len,
            pool.spec_fill() == fill,
            pool@ == seq![filled_with(required_len as nat, fill)],
    {
        let mut buffers: Vec<Vec<S>> = Vec::new();
        buffers.push(filled(required_len, fill));
        ScratchPool { required_len, fill, buffers }
    }

    /// The length every buffer of the pool has.
    #[verifier::when_used_as_spec(spec_required_len)]
    pub fn required_len(&self) -> (len: usize)
        ensures
            len == self.spec_required_len(),
    {
        self.required_len
    }

    /// The sample that fresh buffers and padding are made of.
    #[verifier::when_used_as_spec(spec_fill)]
    pub fn fill(&self) -> (fill: S)
        ensures
            fill == self.spec_fill(),
    {
        self.fill
    }

    /// The number of buffers.
    pub fn count(&self) -> (count: usize)
        ensures
            count == self@.len(),
    {
        self.buffers.len()
    }

    /// The length of the buffer at `index`.
    pub fn buffer_len(&self, index: usize) -> (len: Result<usize, CepstrumError>)
        ensures
            index < self@.len() ==> len == Ok::<usize, CepstrumError>(self@[index as int].len() as usize),
            index >= self@.len() ==> len == Err::<usize, CepstrumError>(CepstrumError::IndexOutOfRange),
    {
        if index < self.buffers.len() {
            Ok(self.buffers[index].len())
        } else {
            Err(CepstrumError::IndexOutOfRange)
        }
    }

    /// Grows the pool to `new_count` buffers by appending fresh ones; does
    /// nothing when the pool already has that many.
    pub fn extend(&mut self, new_count: usize)
        requires
            old(self).wf(),
        ensures
            final(self).wf(),
            final(self).spec_required_len() == old(self).spec_required_len(),
            final(self).spec_fill() == old(self).spec_fill(),
            final(self)@.len() == grown_count(old(self)@.len(), new_count as nat),
            final(self)@ == old(self)@ + Seq::new(
                (final(self)@.len() - old(self)@.len()) as nat,
                |i: int| filled_with(old(self).spec_required_len() as nat, old(self).spec_fill()),
            ),
    {
        while self.buffers.len() < new_count
            invariant
                self.required_len == old(self).required_len,
                self.fill == old(self).fill,
                old(self)@.len() <= self@.len(),
                self@.len() <= grown_count(old(self)@.len(), new_count as nat),
                self@ == old(self)@ + Seq::new(
                    (self@.len() - old(self)@.len()) as nat,
                    |i: int| filled_with(old(self).spec_required_len() as nat, old(self).spec_fill()),
                ),
            decreases new_count - self.buffers@.len(),
        {
            let ghost before = self@;
            let fresh = filled(self.required_len, self.fill);
            self.buffers.push(fresh);
            assert(self@ =~= before.push(fresh@));
        }
    }

    /// Cuts or pads every buffer to `new_required_len` samples.
    pub fn resize_all(&mut self, new_required_len: usize)
        requires
            old(self).wf(),
        ensures
            final(self).wf(),
            final(self).spec_required_len() == new_required_len,
            final(self).spec_fill() == old(self).spec_fill(),
            final(self)@ == Seq::new(
                old(self)@.len(),
                |i: int| resized(old(self)@[i], new_required_len as nat, old(self).spec_fill()),
            ),
    {
        let count = self.buffers.len();
        let mut i: usize = 0;
        while i < count
            invariant
                i <= count,
                count == old(self)@.len(),
                self@.len() == count,
                self.fill == old(self).fill,
                forall|j: int| 0 <= j < i ==> self@[j] == resized(old(self)@[j], new_required_len as nat, self.fill),
                forall|j: int| i <= j < count ==> self@[j] == old(self)@[j],
            decreases count - i,
        {
            let ghost before = self@;
            resize_buffer(&mut self.buffers[i], new_required_len, self.fill);
            assert(self@ =~= before.update(
                i as int,
                resized(before[i as int], new_required_len as nat, self.fill),
            ));
            i = i + 1;
        }
        self.required_len = new_required_len;
    }

    /// Hands out the buffer at `index` for exclusive use until the borrow
    /// ends. Whatever the holder writes into it is what the pool holds
    /// afterwards; nothing else in the pool changes.
    pub fn acquire(&mut self, index: usize) -> (lease: Result<&mut [S], CepstrumError>)
        ensures
            final(self).spec_required_len() == old(self).spec_required_len(),
            final(self).spec_fill() == old(self).spec_fill(),
            index >= old(self)@.len() ==> lease == Err::<&mut [S], CepstrumError>(CepstrumError::IndexOutOfRange)
                && final(self)@ == old(self)@,
            index < old(self)@.len() ==> lease is Ok
                && lease->Ok_0@ == old(self)@[index as int]
                && final(self)@ == old(self)@.update(index as int, final(lease->Ok_0)@),
    {
        if index < self.buffers.len() {
            Ok(self.buffers[index].as_mut_slice())
        } else {
            Err(CepstrumError::IndexOutOfRange)
        }
    }
}

} // verus!
