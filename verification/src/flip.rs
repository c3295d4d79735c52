use vstd::prelude::*;

use crate::errors::Error;
use crate::model::{apply_ray, flip_byte};
use crate::ray::Ray;

verus! {

/// The flip primitive: XOR the byte of `buf` at `pat.offset` with
/// `pat.pattern`, in place, and return the new byte value. An offset at or
/// beyond the end of `buf` fails with [`Error::OutOfRange`] and no byte is
/// touched. Since it is an XOR, applying the same ray twice in succession
/// restores the original bytes.
pub fn affect(buf: &mut Vec<u8>, pat: &Ray) -> (r: Result<u8, Error>)
    ensures
        final(buf)@ == apply_ray(old(buf)@, *pat),
        pat.offset < old(buf)@.len() ==> r == Ok::<u8, Error>(
            flip_byte(old(buf)@[pat.offset as int], pat.pattern),
        ),
        pat.offset >= old(buf)@.len() ==> r == Err::<u8, Error>(Error::OutOfRange),
{
    if pat.offset < buf.len() {
        let b = buf[pat.offset];
        let nb = b ^ pat.pattern;
        buf.set(pat.offset, nb);
        Ok(nb)
    } else {
        Err(Error::OutOfRange)
    }
}

} // verus!
