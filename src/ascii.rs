use vstd::prelude::*;

verus! {

/// The ASCII lower-case form of a byte: `A..=Z` move up by 32, every other
/// byte stays as it is.
pub open spec fn lower(b: u8) -> u8 {
    if 65 <= b && b <= 90 {
        (b + 32) as u8
    } else {
        b
    }
}

/// The bytes of `s` with the first `n` of them folded to lower case.
pub open spec fn lower_prefix(s: Seq<u8>, n: int) -> Seq<u8> {
    Seq::new(s.len(), |i: int| if i < n { lower(s[i]) } else { s[i] })
}

/// Folds one byte to ASCII lower case.
pub fn to_lower(b: u8) -> (r: u8)
    ensures
        r == lower(b),
{
    if b >= 65 && b <= 90 {
        b + 32
    } else {
        b
    }
}

/// Folds the first `count` bytes of a packet buffer to ASCII lower case in
/// place; the rest of the buffer is left untouched.
pub fn lowercase_prefix(buf: &mut [u8; 64], count: usize)
    requires
        count <= 64,
    ensures
        final(buf)@ == lower_prefix(old(buf)@, count as int),
{
    let mut i: usize = 0;
    while i < count
        invariant
            i <= count <= 64,
            buf@.len() == 64,
            forall|j: int| 0 <= j < i ==> buf@[j] == lower(old(buf)@[j]),
            forall|j: int| i <= j < 64 ==> buf@[j] == old(buf)@[j],
        decreases count - i,
    {
        let b = buf[i];
        buf[i] = to_lower(b);
        i = i + 1;
    }
    assert(buf@ =~= lower_prefix(old(buf)@, count as int));
}

} // verus!
