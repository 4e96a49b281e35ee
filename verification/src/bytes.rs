//! Fixed-size, NUL-padded byte buffers as the kernel interface uses them.

use vstd::prelude::*;
use vstd::string::StringSliceAdditionalSpecFns;

verus! {

/// `bytes` followed by zeros up to a total length of `cap`.
pub open spec fn padded(bytes: Seq<u8>, cap: nat) -> Seq<u8> {
    bytes + Seq::new((cap - bytes.len()) as nat, |i: int| 0u8)
}

/// `prefix` is what a C string reader sees in `buf`: the bytes before the
/// first NUL, or the whole buffer when it holds no NUL.
pub open spec fn is_cstr_prefix(prefix: Seq<u8>, buf: Seq<u8>) -> bool {
    &&& prefix.len() <= buf.len()
    &&& prefix == buf.take(prefix.len() as int)
    &&& forall|i: int| 0 <= i < prefix.len() ==> buf[i] != 0u8
    &&& (prefix.len() == buf.len() || buf[prefix.len() as int] == 0u8)
}

/// Copies the UTF-8 bytes of `s` into a zeroed buffer of `cap` bytes,
/// leaving room for the terminating NUL; `None` when `s` does not fit.
pub fn fill_buffer(s: &str, cap: usize) -> (r: Option<Vec<u8>>)
    ensures
        r is None <==> s.spec_bytes().len() >= cap,
        r matches Some(v) ==> v@ == padded(s.spec_bytes(), cap as nat),
{
    let b = s.as_bytes();
    let n = b.len();
    if n >= cap {
        return None;
    }
    let mut v: Vec<u8> = Vec::with_capacity(cap);
    let mut i: usize = 0;
    while i < cap
        invariant
            n < cap,
            b@ == s.spec_bytes(),
            n == b@.len(),
            i <= cap,
            v@.len() == i,
            forall|j: int| 0 <= j < i ==> #[trigger] v@[j] == padded(b@, cap as nat)[j],
        decreases cap - i,
    {
        if i < n {
            v.push(b[i]);
        } else {
            v.push(0u8);
        }
        i = i + 1;
    }
    assert(v@ =~= padded(b@, cap as nat));
    Some(v)
}

/// The bytes of `buf` before its first NUL (the whole buffer if it has none).
pub fn cstr_prefix(buf: &Vec<u8>) -> (r: Vec<u8>)
    ensures
        is_cstr_prefix(r@, buf@),
{
    let mut r: Vec<u8> = Vec::new();
    let mut i: usize = 0;
    while i < buf.len() && buf[i] != 0u8
        invariant
            i <= buf@.len(),
            r@ == buf@.take(i as int),
            forall|j: int| 0 <= j < i ==> buf@[j] != 0u8,
        decreases buf@.len() - i,
    {
        r.push(buf[i]);
        i = i + 1;
        assert(r@ =~= buf@.take(i as int));
    }
    r
}

/// Whether `bytes` holds a NUL byte.
pub open spec fn has_nul(bytes: Seq<u8>) -> bool {
    exists|i: int| 0 <= i < bytes.len() && bytes[i] == 0u8
}

/// `p` is the position of the first NUL byte of `bytes`.
pub open spec fn first_nul_at(bytes: Seq<u8>, p: int) -> bool {
    &&& 0 <= p < bytes.len()
    &&& bytes[p] == 0u8
    &&& forall|j: int| 0 <= j < p ==> bytes[j] != 0u8
}

/// The C string of `s`: its UTF-8 bytes and a terminating NUL, or the
/// position of the first NUL byte inside `s`, which a C string cannot hold.
pub fn c_string(s: &str) -> (r: Result<Vec<u8>, usize>)
    ensures
        r is Err <==> has_nul(s.spec_bytes()),
        r matches Ok(v) ==> v@ == s.spec_bytes().push(0u8),
        r matches Err(p) ==> first_nul_at(s.spec_bytes(), p as int),
{
    let b = s.as_bytes();
    let mut v: Vec<u8> = Vec::new();
    let mut i: usize = 0;
    while i < b.len()
        invariant
            b@ == s.spec_bytes(),
            i <= b@.len(),
            v@ == b@.take(i as int),
            forall|j: int| 0 <= j < i ==> b@[j] != 0u8,
        decreases b@.len() - i,
    {
        if b[i] == 0u8 {
            return Err(i);
        }
        v.push(b[i]);
        i = i + 1;
        assert(v@ =~= b@.take(i as int));
    }
    assert(b@.take(b@.len() as int) =~= b@);
    v.push(0u8);
    Ok(v)
}

/// A buffer of `n` zero bytes.
pub fn zeroed(n: usize) -> (r: Vec<u8>)
    ensures
        r@ == Seq::new(n as nat, |i: int| 0u8),
{
    let mut v: Vec<u8> = Vec::with_capacity(n);
    let mut i: usize = 0;
    while i < n
        invariant
            i <= n,
            v@ =~= Seq::new(i as nat, |j: int| 0u8),
        decreases n - i,
    {
        v.push(0u8);
        i = i + 1;
    }
    v
}

} // verus!
