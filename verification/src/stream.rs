use vstd::prelude::*;

use crate::errors::Error;
use crate::model::{
    apply_ray, flip_byte, lemma_rays_in_range_drop_last, lemma_rays_in_range_push,
    rays_in_range, undo_rays,
};
use crate::ray::Ray;
use crate::store::ByteStore;

verus! {

/// The stream engine: drives a seekable byte store through the
/// [`ByteStore`] capability and keeps the same ordered history discipline as
/// the buffer engine. It does not own the bytes themselves -- they live in
/// the underlying target -- it owns the access handle and the log.
///
/// Unlike the buffer engine, every touch of the target can fail with an
/// `IO` error; an attack that fails is recorded nowhere and leaves the
/// target as it was, while a restore that fails leaves both the target and
/// the history exactly as they were, so the remaining rollback still leads
/// to the pristine bytes.
pub struct RayBoxFile<T: ByteStore> {
    file: T,
    rays: Vec<Ray>,
}

impl<T: ByteStore> RayBoxFile<T> {
    /// The bytes the underlying target currently holds.
    pub closed spec fn contents(&self) -> Seq<u8> {
        self.file.contents()
    }

    /// The recorded rays, in application order.
    pub closed spec fn history(&self) -> Seq<Ray> {
        self.rays@
    }

    /// True when the underlying target's reads and writes cannot fail with
    /// `IO`. Over such a target -- the in-memory store, say -- every engine
    /// operation is owed success; over real I/O nothing more can be promised
    /// than what holds of every outcome.
    pub closed spec fn store_infallible(&self) -> bool {
        self.file.infallible()
    }

    /// Every recorded ray addresses a valid byte of the target. Attacks only
    /// record rays they applied and writes never change the target's length,
    /// so this holds for the engine's whole lifetime.
    pub open spec fn wf(&self) -> bool {
        rays_in_range(self.history(), self.contents().len())
    }

    /// Wrap an already-open byte store; the history starts empty.
    pub fn new(file: T) -> (r: Self)
        ensures
            r.contents() == file.contents(),
            r.history() == Seq::<Ray>::empty(),
            r.store_infallible() == file.infallible(),
            r.wf(),
    {
        Self { file, rays: Vec::new() }
    }

    /// Apply `ray` to the target (read the byte at `ray.offset`, XOR it with
    /// `ray.pattern`, write it back) and record it. The four-step sequence is
    /// a unit: if any step fails, the error is returned, the target is
    /// unchanged and nothing is recorded. An offset at or beyond the end of
    /// the target fails with `OutOfRange`, and `OutOfRange` comes only from
    /// such an offset; any other failure is an `IO` error.
    pub fn attack(&mut self, ray: Ray) -> (r: Result<u8, Error>)
        requires
            old(self).wf(),
        ensures
            final(self).wf(),
            r is Ok ==> {
                &&& ray.offset < old(self).contents().len()
                &&& r == Ok::<u8, Error>(
                    flip_byte(old(self).contents()[ray.offset as int], ray.pattern),
                )
                &&& final(self).contents() == apply_ray(old(self).contents(), ray)
                &&& final(self).history() == old(self).history().push(ray)
            },
            r is Err ==> {
                &&& final(self).contents() == old(self).contents()
                &&& final(self).history() == old(self).history()
            },
            ray.offset >= old(self).contents().len() ==> r == Err::<u8, Error>(
                Error::OutOfRange,
            ),
            r == Err::<u8, Error>(Error::OutOfRange) ==> ray.offset >= old(
                self,
            ).contents().len(),
            final(self).store_infallible() == old(self).store_infallible(),
            old(self).store_infallible() && ray.offset < old(self).contents().len() ==> r
                is Ok,
    {
        match self.file.read_at(ray.offset) {
            Ok(b) => {
                let nb = b ^ ray.pattern;
                match self.file.write_at(ray.offset, nb) {
                    Ok(()) => {
                        self.rays.push(ray);
                        proof {
                            lemma_rays_in_range_push(
                                old(self).history(),
                                old(self).contents().len(),
                                ray,
                            );
                        }
                        Ok(nb)
                    },
                    Err(e) => Err(e),
                }
            },
            Err(e) => Err(e),
        }
    }

    /// Undo the most recently applied ray, if any, and return it. The
    /// recorded offset is known to address a valid byte, so a failure here
    /// can only be an `IO` error; it is reported to the caller and leaves
    /// both the target and the history exactly as they were, because a
    /// partially-undone target would have no safe fallback. With an empty
    /// history nothing changes and `Ok(None)` is returned.
    pub fn restore(&mut self) -> (r: Result<Option<Ray>, Error>)
        requires
            old(self).wf(),
        ensures
            final(self).wf(),
            old(self).history().len() == 0 ==> {
                &&& r == Ok::<Option<Ray>, Error>(None)
                &&& final(self).contents() == old(self).contents()
                &&& final(self).history() == old(self).history()
            },
            old(self).history().len() > 0 ==> match r {
                Ok(opt) => {
                    &&& opt == Some(old(self).history().last())
                    &&& final(self).history() == old(self).history().drop_last()
                    &&& final(self).contents() == apply_ray(
                        old(self).contents(),
                        old(self).history().last(),
                    )
                },
                Err(e) => {
                    &&& e == Error::IO
                    &&& final(self).contents() == old(self).contents()
                    &&& final(self).history() == old(self).history()
                },
            },
            final(self).store_infallible() == old(self).store_infallible(),
            old(self).store_infallible() ==> r is Ok,
    {
        let n = self.rays.len();
        if n == 0 {
            return Ok(None);
        }
        let ray = self.rays[n - 1];
        match self.file.read_at(ray.offset) {
            Ok(b) => {
                match self.file.write_at(ray.offset, b ^ ray.pattern) {
                    Ok(()) => {
                        let _ = self.rays.pop();
                        proof {
                            lemma_rays_in_range_drop_last(
                                old(self).history(),
                                old(self).contents().len(),
                            );
                        }
                        Ok(Some(ray))
                    },
                    Err(e) => Err(e),
                }
            },
            Err(e) => Err(e),
        }
    }

    /// Undo every recorded ray in strict last-in-first-out order and clear
    /// the history. With an empty history this is a no-op that returns
    /// normally, and over an infallible target it always succeeds. If an
    /// undo step fails, the `IO` error is reported, the already-undone rays
    /// are gone from the history, the failed ray and everything before it
    /// are still recorded, and the rollback that remains still leads to the
    /// same pristine bytes.
    #[verifier::loop_isolation(false)]
    pub fn restore_all(&mut self) -> (r: Result<(), Error>)
        requires
            old(self).wf(),
        ensures
            final(self).wf(),
            r is Ok ==> {
                &&& final(self).history().len() == 0
                &&& final(self).contents() == undo_rays(
                    old(self).contents(),
                    old(self).history(),
                )
            },
            r is Err ==> {
                &&& r == Err::<(), Error>(Error::IO)
                &&& undo_rays(final(self).contents(), final(self).history()) == undo_rays(
                    old(self).contents(),
                    old(self).history(),
                )
                &&& final(self).history().len() <= old(self).history().len()
                &&& final(self).history() == old(self).history().take(
                    final(self).history().len() as int,
                )
            },
            old(self).history().len() == 0 ==> r is Ok,
            final(self).store_infallible() == old(self).store_infallible(),
            old(self).store_infallible() ==> r is Ok,
    {
        let ghost orig_c = self.contents();
        let ghost orig_h = self.history();
        let ghost orig_inf = self.store_infallible();
        proof {
            assert(orig_h.take(orig_h.len() as int) =~= orig_h);
        }
        while self.rays.len() > 0
            invariant
                self.wf(),
                self.history().len() <= orig_h.len(),
                self.store_infallible() == orig_inf,
                undo_rays(self.contents(), self.history()) == undo_rays(orig_c, orig_h),
                self.history() == orig_h.take(self.history().len() as int),
            decreases self.rays.len(),
        {
            let ghost h_before = self.history();
            match self.restore() {
                Ok(_) => {
                    proof {
                        let k = h_before.len() as int;
                        assert(orig_h.take(k).drop_last() =~= orig_h.take(k - 1));
                    }
                },
                Err(e) => {
                    return Err(e);
                },
            }
        }
        assert(self.history() =~= Seq::<Ray>::empty());
        Ok(())
    }

    /// True iff the history is non-empty, i.e. the target may differ from
    /// its pristine bytes.
    pub fn is_damaged(&self) -> (r: bool)
        ensures
            r == (self.history().len() > 0),
    {
        self.rays.len() > 0
    }

    /// Consume the engine and hand the byte store back, discarding the
    /// history. Any rays not restored first are left permanently applied to
    /// the underlying target.
    pub fn into_inner(x: Self) -> (r: T)
        ensures
            r.contents() == x.contents(),
    {
        let Self { file, .. } = x;
        file
    }

    /// Read access to the underlying byte store.
    pub fn store(&self) -> (r: &T)
        ensures
            r.contents() == self.contents(),
    {
        &self.file
    }
}

} // verus!
