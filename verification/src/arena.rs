//! The array arena: the mapping from a live 32-bit identifier to its
//! owned, fixed-length word array, with allocation, identifier reuse,
//! abandonment, indexed access, and the replacement of the program array
//! that Load Program performs.
//!
//! The arena is held as one slot per identifier ever minted, so that an
//! identifier is exactly an index: no two live arrays can share one, and
//! a fresh identifier is the first index never used. Abandoned
//! identifiers wait in a pool and are handed out again before any fresh
//! one is minted.

use vstd::prelude::*;
use vstd::pervasive::VecAdditionalExecFns;
use crate::errors::VmError;

verus! {

pub struct Arena {
    /// One slot per identifier minted so far; `None` marks an abandoned
    /// identifier.
    pub slots: Vec<Option<Vec<u32>>>,
    /// The identifiers abandoned and not yet reallocated, reused from
    /// the back.
    pub pool: Vec<u32>,
}

impl Arena {
    /// The identifier names a live array.
    pub open spec fn live(self, id: u32) -> bool {
        id < self.slots@.len() && self.slots@[id as int] is Some
    }

    /// The words of the live array named by the identifier.
    pub open spec fn contents(self, id: u32) -> Seq<u32> {
        self.slots@[id as int]->Some_0@
    }

    /// The identifier was abandoned and awaits reuse.
    pub open spec fn pooled(self, id: u32) -> bool {
        self.pool@.contains(id)
    }

    /// Well-formedness: identifier 0 is live for the arena's whole
    /// lifetime; every identifier fits in 32 bits; pooled identifiers
    /// are distinct, non-zero, minted, and not live.
    pub open spec fn wf(self) -> bool {
        &&& 1 <= self.slots@.len() <= 0x1_0000_0000
        &&& self.slots@[0] is Some
        &&& forall|i: int|
            0 <= i < self.pool@.len() ==> 0 < #[trigger] self.pool@[i]
                && self.pool@[i] < self.slots@.len() && self.slots@[self.pool@[i] as int] is None
        &&& forall|i: int, j: int|
            0 <= i < j < self.pool@.len() ==> self.pool@[i] != self.pool@[j]
    }

    /// The two arenas name the same live arrays with the same words and
    /// hold the same reuse pool.
    pub open spec fn same_state(self, other: Arena) -> bool {
        &&& forall|id: u32| self.live(id) == other.live(id)
        &&& forall|id: u32| other.live(id) ==> self.contents(id) == other.contents(id)
        &&& self.pool@ == other.pool@
    }

    /// A new arena whose only live array, identifier 0, holds the given
    /// program image.
    pub fn new(program: Vec<u32>) -> (a: Arena)
        ensures
            a.wf(),
            a.live(0),
            a.contents(0) == program@,
            forall|id: u32| id != 0 ==> !a.live(id),
            forall|id: u32| !a.pooled(id),
    {
        let mut slots: Vec<Option<Vec<u32>>> = Vec::new();
        slots.push(Some(program));
        Arena { slots, pool: Vec::new() }
    }

    /// Binds a previously-unused identifier to a zero-filled array of
    /// the given capacity and returns it. A pooled identifier is reused
    /// first, most recently abandoned first; only with the pool empty is
    /// a fresh one minted. The returned identifier is never 0 and was
    /// not live before the call.
    pub fn allocate(&mut self, capacity: u32) -> (r: Result<u32, VmError>)
        requires
            old(self).wf(),
        ensures
            final(self).wf(),
            match r {
                Ok(id) => {
                    &&& id != 0
                    &&& !old(self).live(id)
                    &&& final(self).live(id)
                    &&& !final(self).pooled(id)
                    &&& final(self).contents(id).len() == capacity as nat
                    &&& forall|k: int| 0 <= k < capacity ==> final(self).contents(id)[k] == 0u32
                    &&& forall|x: u32| x != id ==> final(self).live(x) == old(self).live(x)
                    &&& forall|x: u32|
                        x != id && old(self).live(x) ==> final(self).contents(x) == old(
                            self,
                        ).contents(x)
                    &&& forall|x: u32| x != id ==> (final(self).pooled(x) <==> old(self).pooled(x))
                    &&& (old(self).pool@.len() > 0 ==> id == old(self).pool@.last())
                },
                Err(e) => {
                    &&& e == VmError::ArenaExhausted
                    &&& old(self).pool@.len() == 0
                    &&& old(self).slots@.len() == 0x1_0000_0000
                    &&& final(self).same_state(*old(self))
                },
            },
    {
        let array = zero_words(capacity);
        if self.pool.len() > 0 {
            let ghost pre_pool = self.pool@;
            let id = match self.pool.pop() {
                Some(id) => id,
                None => { return Err(VmError::ArenaExhausted); },
            };
            proof {
                assert(pre_pool[pre_pool.len() - 1] == id);
                assert(self.pool@ == pre_pool.drop_last());
                // the popped identifier occurs nowhere else in the pool
                assert forall|k: int| 0 <= k < self.pool@.len() implies self.pool@[k] != id by {
                    assert(pre_pool[k] == self.pool@[k]);
                }
            }
            self.slots.set(id as usize, Some(array));
            proof {
                assert(!self.pooled(id)) by {
                    if self.pool@.contains(id) {
                        let k = choose|k: int| 0 <= k < self.pool@.len() && self.pool@[k] == id;
                        assert(self.pool@[k] != id);
                    }
                }
                assert forall|x: u32| x != id implies #[trigger] self.pooled(x) <==> old(
                    self,
                ).pooled(x) by {
                    if old(self).pool@.contains(x) {
                        let k = choose|k: int|
                            0 <= k < pre_pool.len() && pre_pool[k] == x;
                        assert(k < pre_pool.len() - 1);
                        assert(self.pool@[k] == x);
                    }
                    if self.pool@.contains(x) {
                        let k = choose|k: int|
                            0 <= k < self.pool@.len() && self.pool@[k] == x;
                        assert(pre_pool[k] == x);
                    }
                }
            }
            Ok(id)
        } else {
            if self.slots.len() <= (u32::MAX as usize) {
                let id = self.slots.len() as u32;
                self.slots.push(Some(array));
                proof {
                    assert forall|k: int| 0 <= k < self.pool@.len() implies self.pool@[k]
                        != id by {}
                }
                Ok(id)
            } else {
                Err(VmError::ArenaExhausted)
            }
        }
    }

    /// Removes the live array named by a non-zero identifier and pushes
    /// the identifier onto the reuse pool. Refused for identifier 0 and
    /// for identifiers with no live array.
    pub fn abandon(&mut self, id: u32) -> (r: Result<(), VmError>)
        requires
            old(self).wf(),
        ensures
            final(self).wf(),
            r is Ok <==> id != 0 && old(self).live(id),
            r is Ok ==> {
                &&& !final(self).live(id)
                &&& final(self).pooled(id)
                &&& final(self).pool@ == old(self).pool@.push(id)
                &&& forall|x: u32| x != id ==> final(self).live(x) == old(self).live(x)
                &&& forall|x: u32|
                    x != id && old(self).live(x) ==> final(self).contents(x) == old(
                        self,
                    ).contents(x)
            },
            match r {
                Ok(_) => true,
                Err(e) => {
                    &&& final(self).same_state(*old(self))
                    &&& e == (if id == 0 {
                        VmError::AbandonZero
                    } else {
                        VmError::DeadArray { id }
                    })
                },
            },
    {
        if id == 0 {
            return Err(VmError::AbandonZero);
        }
        let idx = id as usize;
        if idx < self.slots.len() && self.slots[idx].is_some() {
            self.slots.set(idx, None);
            self.pool.push(id);
            proof {
                assert(final(self).pool@.last() == id);
                assert forall|i: int, j: int|
                    0 <= i < j < self.pool@.len() implies self.pool@[i] != self.pool@[j] by {
                    if j == self.pool@.len() - 1 {
                        assert(old(self).pool@[i] == self.pool@[i]);
                    }
                }
            }
            Ok(())
        } else {
            Err(VmError::DeadArray { id })
        }
    }

    /// Reads the word at the given offset of the live array named by the
    /// identifier.
    pub fn read(&self, id: u32, offset: u32) -> (r: Result<u32, VmError>)
        requires
            self.wf(),
        ensures
            r is Ok <==> self.live(id) && (offset as int) < self.contents(id).len(),
            match r {
                Ok(w) => w == self.contents(id)[offset as int],
                Err(e) => e == (if !self.live(id) {
                    VmError::DeadArray { id }
                } else {
                    VmError::OutOfRange { id, offset }
                }),
            },
    {
        let idx = id as usize;
        if idx >= self.slots.len() {
            return Err(VmError::DeadArray { id });
        }
        match &self.slots[idx] {
            Some(array) => {
                let off = offset as usize;
                if off < array.len() {
                    Ok(array[off])
                } else {
                    Err(VmError::OutOfRange { id, offset })
                }
            },
            None => Err(VmError::DeadArray { id }),
        }
    }

    /// Replaces the word at the given offset of the live array named by
    /// the identifier.
    pub fn write(&mut self, id: u32, offset: u32, value: u32) -> (r: Result<(), VmError>)
        requires
            old(self).wf(),
        ensures
            final(self).wf(),
            r is Ok <==> old(self).live(id) && (offset as int) < old(self).contents(id).len(),
            r is Ok ==> {
                &&& final(self).contents(id) == old(self).contents(id).update(
                    offset as int,
                    value,
                )
                &&& forall|x: u32| final(self).live(x) == old(self).live(x)
                &&& forall|x: u32|
                    x != id && old(self).live(x) ==> final(self).contents(x) == old(
                        self,
                    ).contents(x)
                &&& final(self).pool@ == old(self).pool@
            },
            match r {
                Ok(_) => true,
                Err(e) => {
                    &&& final(self).same_state(*old(self))
                    &&& e == (if !old(self).live(id) {
                        VmError::DeadArray { id }
                    } else {
                        VmError::OutOfRange { id, offset }
                    })
                },
            },
    {
        let idx = id as usize;
        if idx >= self.slots.len() {
            return Err(VmError::DeadArray { id });
        }
        let mut taken: Option<Vec<u32>> = None;
        self.slots.set_and_swap(idx, &mut taken);
        match taken {
            Some(mut array) => {
                let off = offset as usize;
                if off < array.len() {
                    array.set(off, value);
                    self.slots.set(idx, Some(array));
                    proof {
                        assert(final(self).contents(id) =~= old(self).contents(id).update(
                            offset as int,
                            value,
                        ));
                    }
                    Ok(())
                } else {
                    self.slots.set(idx, Some(array));
                    proof {
                        assert(self.slots@ =~= old(self).slots@);
                    }
                    Err(VmError::OutOfRange { id, offset })
                }
            },
            None => {
                self.slots.set(idx, None);
                proof {
                    assert(self.slots@ =~= old(self).slots@);
                }
                Err(VmError::DeadArray { id })
            },
        }
    }

    /// Installs a deep copy of the live array named by the identifier as
    /// the new program array, identifier 0. The source array stays live
    /// with its words untouched; with identifier 0 itself the binding is
    /// left as it is.
    pub fn replace_zero(&mut self, id: u32) -> (r: Result<(), VmError>)
        requires
            old(self).wf(),
        ensures
            final(self).wf(),
            r is Ok <==> old(self).live(id),
            r is Ok ==> {
                &&& final(self).contents(0) == old(self).contents(id)
                &&& forall|x: u32| final(self).live(x) == old(self).live(x)
                &&& forall|x: u32|
                    x != 0 && old(self).live(x) ==> final(self).contents(x) == old(
                        self,
                    ).contents(x)
                &&& final(self).pool@ == old(self).pool@
            },
            r is Err ==> final(self).same_state(*old(self)) && r == Err::<(), VmError>(
                VmError::DeadArray { id },
            ),
    {
        if id == 0 {
            return Ok(());
        }
        let idx = id as usize;
        if idx >= self.slots.len() {
            return Err(VmError::DeadArray { id });
        }
        let copied = match &self.slots[idx] {
            Some(array) => copy_words(array),
            None => { return Err(VmError::DeadArray { id }); },
        };
        self.slots.set(0, Some(copied));
        Ok(())
    }
}

/// Identifier 0, the program array, is live in every well-formed arena:
/// the image installed at start is only ever replaced, never removed.
pub proof fn lemma_program_array_live(a: Arena)
    requires
        a.wf(),
    ensures
        a.live(0),
{
}

/// A vector of the given length, all words zero.
pub fn zero_words(n: u32) -> (v: Vec<u32>)
    ensures
        v@.len() == n as nat,
        forall|k: int| 0 <= k < n ==> v@[k] == 0u32,
{
    let mut v: Vec<u32> = Vec::new();
    let mut i: u32 = 0;
    while i < n
        invariant
            i <= n,
            v@.len() == i as nat,
            forall|k: int| 0 <= k < i ==> v@[k] == 0u32,
        decreases n - i,
    {
        v.push(0);
        i = i + 1;
    }
    v
}

/// A fresh vector holding exactly the words of the source.
pub fn copy_words(src: &Vec<u32>) -> (r: Vec<u32>)
    ensures
        r@ == src@,
{
    let mut r: Vec<u32> = Vec::new();
    let mut i: usize = 0;
    while i < src.len()
        invariant
            i <= src@.len(),
            r@.len() == i as nat,
            forall|k: int| 0 <= k < i ==> r@[k] == src@[k],
        decreases src@.len() - i,
    {
        r.push(src[i]);
        i = i + 1;
    }
    proof {
        assert(r@ =~= src@);
    }
    r
}

} // verus!
