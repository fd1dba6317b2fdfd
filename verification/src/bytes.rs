use vstd::prelude::*;

verus! {

/// True when every byte of `s` is zero: the state a transient secret
/// buffer must be left in before the core returns.
pub open spec fn all_zero(s: Seq<u8>) -> bool {
    forall|i: int| 0 <= i < s.len() ==> s[i] == 0u8
}

/// Overwrite every byte of `buf` with zero, keeping its length.
///
/// The write happens in place: the vector's allocation is retained, so
/// the bytes that held secret material are the ones overwritten.
pub fn zeroize(buf: &mut Vec<u8>)
    ensures
        final(buf)@.len() == old(buf)@.len(),
        all_zero(final(buf)@),
{
    let n = buf.len();
    buf.clear();
    let mut i: usize = 0;
    while i < n
        invariant
            i <= n,
            buf@.len() == i,
            all_zero(buf@),
        decreases n - i,
    {
        buf.push(0u8);
        i = i + 1;
    }
}

/// Append every byte of `src` to `dst`.
pub fn push_all(dst: &mut Vec<u8>, src: &Vec<u8>)
    ensures
        final(dst)@ == old(dst)@ + src@,
{
    let n = src.len();
    let mut i: usize = 0;
    while i < n
        invariant
            i <= n,
            n == src@.len(),
            dst@ == old(dst)@ + src@.take(i as int),
        decreases n - i,
    {
        dst.push(src[i]);
        assert(old(dst)@ + src@.take(i as int) + seq![src@[i as int]]
            =~= old(dst)@ + src@.take(i + 1));
        i = i + 1;
    }
    assert(old(dst)@ + src@.take(n as int) =~= old(dst)@ + src@);
}

/// Compare two byte buffers for equality of contents.
pub fn bytes_eq(a: &Vec<u8>, b: &Vec<u8>) -> (r: bool)
    ensures
        r == (a@ == b@),
{
    if a.len() != b.len() {
        return false;
    }
    let n = a.len();
    let mut i: usize = 0;
    while i < n
        invariant
            i <= n,
            n == a@.len() == b@.len(),
            forall|j: int| 0 <= j < i ==> a@[j] == b@[j],
        decreases n - i,
    {
        if a[i] != b[i] {
            return false;
        }
        i = i + 1;
    }
    assert(a@ =~= b@);
    true
}

/// Copy a byte buffer into a fresh one.
pub fn copy_bytes(src: &Vec<u8>) -> (r: Vec<u8>)
    ensures
        r@ == src@,
{
    let mut r: Vec<u8> = Vec::new();
    push_all(&mut r, src);
    assert(Seq::<u8>::empty() + src@ =~= src@);
    r
}

/// Copy the bytes of `v` from `from` (inclusive) to `to` (exclusive)
/// into a fresh buffer.
pub fn copy_range(v: &Vec<u8>, from: usize, to: usize) -> (r: Vec<u8>)
    requires
        from <= to <= v@.len(),
    ensures
        r@ == v@.subrange(from as int, to as int),
{
    let mut r: Vec<u8> = Vec::new();
    let mut i: usize = from;
    while i < to
        invariant
            from <= i <= to <= v@.len(),
            r@ == v@.subrange(from as int, i as int),
        decreases to - i,
    {
        r.push(v[i]);
        assert(v@.subrange(from as int, i as int).push(v@[i as int])
            =~= v@.subrange(from as int, i + 1));
        i = i + 1;
    }
    r
}

/// Concatenate three byte buffers into a fresh one.
pub fn concat3(a: &Vec<u8>, b: &Vec<u8>, c: &Vec<u8>) -> (r: Vec<u8>)
    ensures
        r@ == a@ + b@ + c@,
{
    let mut r: Vec<u8> = Vec::new();
    push_all(&mut r, a);
    push_all(&mut r, b);
    push_all(&mut r, c);
    assert(Seq::<u8>::empty() + a@ + b@ + c@ =~= a@ + b@ + c@);
    r
}

} // verus!
