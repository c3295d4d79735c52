use vstd::prelude::*;

use crate::errors::Error;
use crate::flip::affect;
use crate::model::{
    apply_ray, flip_byte, lemma_rays_in_range_push, rays_in_range, undo_rays,
};
use crate::ray::Ray;

verus! {

/// The buffer engine: owns a byte sequence and an ordered history of the
/// rays applied to it. Each successful attack is recorded; restores undo the
/// recorded rays in exact reverse order, which returns the bytes to their
/// pristine value because XOR is its own inverse.
pub struct RayBoxVec {
    data: Vec<u8>,
    rays: Vec<Ray>,
}

impl RayBoxVec {
    /// The bytes the engine currently holds (possibly corrupted).
    pub closed spec fn bytes(&self) -> Seq<u8> {
        self.data@
    }

    /// The recorded rays, in application order.
    pub closed spec fn history(&self) -> Seq<Ray> {
        self.rays@
    }

    /// Every recorded ray addresses a valid byte. Attacks only record rays
    /// they applied, and the buffer never changes length, so this holds for
    /// the engine's whole lifetime; it is what lets a restore re-apply a
    /// recorded ray without re-validation.
    pub open spec fn wf(&self) -> bool {
        rays_in_range(self.history(), self.bytes().len())
    }

    /// Wrap owned bytes; the history starts empty.
    pub fn new(data: Vec<u8>) -> (r: Self)
        ensures
            r.bytes() == data@,
            r.history() == Seq::<Ray>::empty(),
            r.wf(),
    {
        Self { data, rays: Vec::new() }
    }

    /// Apply `ray` to the owned bytes and record it. On success the new byte
    /// value is returned and `ray` is appended to the history; an offset at
    /// or beyond the end of the buffer fails with `OutOfRange`, the bytes are
    /// unchanged and nothing is recorded.
    pub fn attack(&mut self, ray: Ray) -> (r: Result<u8, Error>)
        requires
            old(self).wf(),
        ensures
            final(self).wf(),
            ray.offset < old(self).bytes().len() ==> {
                &&& r == Ok::<u8, Error>(
                    flip_byte(old(self).bytes()[ray.offset as int], ray.pattern),
                )
                &&& final(self).bytes() == apply_ray(old(self).bytes(), ray)
                &&& final(self).history() == old(self).history().push(ray)
            },
            ray.offset >= old(self).bytes().len() ==> {
                &&& r == Err::<u8, Error>(Error::OutOfRange)
                &&& final(self).bytes() == old(self).bytes()
                &&& final(self).history() == old(self).history()
            },
    {
        match affect(&mut self.data, &ray) {
            Ok(b) => {
                self.rays.push(ray);
                proof {
                    lemma_rays_in_range_push(
                        old(self).history(),
                        old(self).bytes().len(),
                        ray,
                    );
                    assert(self.bytes().len() == old(self).bytes().len());
                }
                Ok(b)
            },
            Err(e) => Err(e),
        }
    }

    /// Undo the most recently applied ray, if any, and return it. The
    /// recorded offset was valid when the ray was applied and the buffer has
    /// not changed length, so the re-application cannot fail. With an empty
    /// history nothing changes and nothing is returned.
    pub fn restore(&mut self) -> (r: Option<Ray>)
        requires
            old(self).wf(),
        ensures
            final(self).wf(),
            old(self).history().len() == 0 ==> {
                &&& r is None
                &&& final(self).bytes() == old(self).bytes()
                &&& final(self).history() == old(self).history()
            },
            old(self).history().len() > 0 ==> {
                &&& r == Some(old(self).history().last())
                &&& final(self).history() == old(self).history().drop_last()
                &&& final(self).bytes() == apply_ray(
                    old(self).bytes(),
                    old(self).history().last(),
                )
            },
    {
        match self.rays.pop() {
            Some(ray) => {
                let _ = affect(&mut self.data, &ray);
                Some(ray)
            },
            None => None,
        }
    }

    /// Undo every recorded ray in strict last-in-first-out order and clear
    /// the history. With an empty history this is a no-op.
    pub fn restore_all(&mut self)
        requires
            old(self).wf(),
        ensures
            final(self).wf(),
            final(self).history() == Seq::<Ray>::empty(),
            final(self).bytes() == undo_rays(old(self).bytes(), old(self).history()),
    {
        let ghost orig_bytes = self.data@;
        let ghost orig_hist = self.rays@;
        while self.rays.len() > 0
            invariant
                self.wf(),
                undo_rays(self.bytes(), self.history()) == undo_rays(orig_bytes, orig_hist),
            decreases self.rays.len(),
        {
            let _ = self.restore();
        }
        assert(self.rays@ =~= Seq::<Ray>::empty());
    }

    /// True iff the history is non-empty, i.e. the bytes may differ from
    /// their pristine value.
    pub fn is_damaged(&self) -> (r: bool)
        ensures
            r == (self.history().len() > 0),
    {
        self.rays.len() > 0
    }

    /// Consume the engine and hand the bytes back, discarding the history.
    /// If the engine was still damaged, the returned bytes are the currently
    /// corrupted ones: restore first to get the pristine bytes.
    pub fn into_inner(x: Self) -> (r: Vec<u8>)
        ensures
            r@ == x.bytes(),
    {
        let Self { data, .. } = x;
        data
    }

    /// Read access to the current (possibly corrupted) bytes.
    pub fn data(&self) -> (r: &Vec<u8>)
        ensures
            r@ == self.bytes(),
    {
        &self.data
    }
}

} // verus!
