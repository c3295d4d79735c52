use vstd::prelude::*;

use crate::ray::Ray;

verus! {

/// The result of XORing one byte with a mask.
pub open spec fn flip_byte(b: u8, m: u8) -> u8 {
    b ^ m
}

/// What one ray does to a byte sequence: the byte at `r.offset` is XORed in
/// place with `r.pattern`; a ray whose offset lies at or beyond the end of
/// the sequence changes nothing.
pub open spec fn apply_ray(s: Seq<u8>, r: Ray) -> Seq<u8> {
    if r.offset < s.len() {
        s.update(r.offset as int, flip_byte(s[r.offset as int], r.pattern))
    } else {
        s
    }
}

/// What a run of attacks does to a byte sequence: the rays are applied in
/// order, each against the bytes the previous ones left behind.
pub open spec fn apply_rays(s: Seq<u8>, rays: Seq<Ray>) -> Seq<u8>
    decreases rays.len(),
{
    if rays.len() == 0 {
        s
    } else {
        apply_ray(apply_rays(s, rays.drop_last()), rays.last())
    }
}

/// What a full rollback does to a byte sequence: the recorded rays are
/// applied once more in reverse order of application, last first.
pub open spec fn undo_rays(s: Seq<u8>, rays: Seq<Ray>) -> Seq<u8>
    decreases rays.len(),
{
    if rays.len() == 0 {
        s
    } else {
        undo_rays(apply_ray(s, rays.last()), rays.drop_last())
    }
}

/// Every ray of `h` addresses a byte of a target of length `len`.
pub open spec fn rays_in_range(h: Seq<Ray>, len: nat) -> bool {
    forall|i: int| 0 <= i < h.len() ==> (#[trigger] h[i]).offset < len
}

/// Recording one more in-range ray keeps a history in range.
pub proof fn lemma_rays_in_range_push(h: Seq<Ray>, len: nat, r: Ray)
    requires
        rays_in_range(h, len),
        r.offset < len,
    ensures
        rays_in_range(h.push(r), len),
{
    assert forall|i: int| 0 <= i < h.push(r).len() implies (#[trigger] h.push(r)[i]).offset
        < len by {
        if i < h.len() {
            assert(h.push(r)[i] == h[i]);
        } else {
            assert(h.push(r)[i] == r);
        }
    }
}

/// Dropping the last recorded ray keeps a history in range.
pub proof fn lemma_rays_in_range_drop_last(h: Seq<Ray>, len: nat)
    requires
        rays_in_range(h, len),
        h.len() > 0,
    ensures
        rays_in_range(h.drop_last(), len),
{
    assert forall|i: int| 0 <= i < h.drop_last().len() implies (
    #[trigger] h.drop_last()[i]).offset < len by {
        assert(h.drop_last()[i] == h[i]);
    }
}

/// XOR is its own inverse: flipping a byte twice with the same mask restores
/// the original value.
pub proof fn lemma_xor_involution(b: u8, m: u8)
    ensures
        flip_byte(flip_byte(b, m), m) == b,
{
    assert((b ^ m) ^ m == b) by (bit_vector);
}

/// Involution: applying the same ray twice to an otherwise-untouched byte
/// sequence yields the original bytes. This is the load-bearing property of
/// the whole engine.
pub proof fn lemma_flip_involution(s: Seq<u8>, r: Ray)
    ensures
        apply_ray(apply_ray(s, r), r) == s,
{
    if r.offset < s.len() {
        let i = r.offset as int;
        lemma_xor_involution(s[i], r.pattern);
        assert(apply_ray(apply_ray(s, r), r) =~= s);
    }
}

/// Full round trip: attacking a byte sequence with any sequence of rays --
/// rays that hit the same offset several times, and out-of-range rays, which
/// change nothing, included -- and then rolling all of them back in reverse
/// order reproduces the original bytes exactly.
pub proof fn lemma_round_trip(s: Seq<u8>, rays: Seq<Ray>)
    ensures
        undo_rays(apply_rays(s, rays), rays) == s,
    decreases rays.len(),
{
    if rays.len() > 0 {
        lemma_flip_involution(apply_rays(s, rays.drop_last()), rays.last());
        lemma_round_trip(s, rays.drop_last());
    }
}

/// One successful attack extends the run: a target holding
/// `apply_rays(s, h)` whose next attack applies `r` and records it holds
/// `apply_rays(s, h.push(r))`. Chaining this from an empty history shows
/// that an engine's bytes are always `apply_rays` of its pristine bytes and
/// its history, which is what the round-trip law speaks of.
pub proof fn lemma_apply_rays_push(s: Seq<u8>, h: Seq<Ray>, r: Ray)
    ensures
        apply_rays(s, h.push(r)) == apply_ray(apply_rays(s, h), r),
{
    assert(h.push(r).drop_last() =~= h);
    assert(h.push(r).last() == r);
}

/// History ordering: each restore removes and returns the last entry of the
/// history, so after `k` restores of a history `h` the entries that remain
/// are `h.take(h.len() - k)`. This lemma says the next restore then returns
/// `h.reverse()[k]`, that is `h[h.len() - 1 - k]`: the rays come back in
/// exact reverse order of application, and after `h.len()` restores the
/// history is empty and the engine reports itself undamaged.
pub proof fn lemma_restore_order(h: Seq<Ray>, k: int)
    requires
        0 <= k < h.len(),
    ensures
        h.take(h.len() - k).len() == h.len() - k,
        h.take(h.len() - k).last() == h.reverse()[k],
        h.take(h.len() - k).drop_last() == h.take(h.len() - k - 1),
{
    assert(h.take(h.len() - k).last() == h[h.len() - 1 - k]);
    assert(h.take(h.len() - k).drop_last() =~= h.take(h.len() - k - 1));
}

} // verus!
