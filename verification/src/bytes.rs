use vstd::prelude::*;

verus! {

broadcast use vstd::array::group_array_axioms;

/// Bytes read as signed bytes, each with the same bits.
pub open spec fn as_i8s(s: Seq<u8>) -> Seq<i8> {
    s.map_values(|b: u8| b as i8)
}

/// Signed bytes read as bytes, each with the same bits.
pub open spec fn as_u8s(s: Seq<i8>) -> Seq<u8> {
    s.map_values(|b: i8| b as u8)
}

/// Reading a byte as a signed byte and back gives the byte, and the other way
/// round.
pub proof fn lemma_byte_casts(b: u8, c: i8)
    ensures
        (b as i8) as u8 == b,
        (c as u8) as i8 == c,
{
    assert((b as i8) as u8 == b) by (bit_vector);
    assert((c as u8) as i8 == c) by (bit_vector);
}

/// `as_i8s` and `as_u8s` undo each other.
pub proof fn lemma_i8s_round_trip(s: Seq<u8>, t: Seq<i8>)
    ensures
        as_u8s(as_i8s(s)) == s,
        as_i8s(as_u8s(t)) == t,
{
    assert forall|i: int| 0 <= i < s.len() implies #[trigger] as_u8s(as_i8s(s))[i] == s[i] by {
        lemma_byte_casts(s[i], 0);
    }
    assert forall|i: int| 0 <= i < t.len() implies #[trigger] as_i8s(as_u8s(t))[i] == t[i] by {
        lemma_byte_casts(0, t[i]);
    }
    assert(as_u8s(as_i8s(s)) =~= s);
    assert(as_i8s(as_u8s(t)) =~= t);
}

/// The 32 bytes of `data` from `start`.
pub fn read_32(data: &[u8], start: usize) -> (r: [u8; 32])
    requires
        start + 32 <= data@.len(),
    ensures
        r@ == data@.subrange(start as int, start + 32),
{
    let mut r = [0u8; 32];
    let mut i: usize = 0;
    while i < 32
        invariant
            i <= 32,
            start + 32 <= data.len(),
            forall|j: int| 0 <= j < i ==> r[j] == data@[start + j],
        decreases 32 - i,
    {
        r[i] = data[start + i];
        i = i + 1;
    }
    assert(r@ =~= data@.subrange(start as int, start + 32));
    r
}

/// The 8 bytes of `data` from `start`.
pub fn read_8(data: &[u8], start: usize) -> (r: [u8; 8])
    requires
        start + 8 <= data@.len(),
    ensures
        r@ == data@.subrange(start as int, start + 8),
{
    let mut r = [0u8; 8];
    let mut i: usize = 0;
    while i < 8
        invariant
            i <= 8,
            start + 8 <= data.len(),
            forall|j: int| 0 <= j < i ==> r[j] == data@[start + j],
        decreases 8 - i,
    {
        r[i] = data[start + i];
        i = i + 1;
    }
    assert(r@ =~= data@.subrange(start as int, start + 8));
    r
}

/// The 8 bytes of `data` from `start`, each read as a signed byte.
pub fn read_8_signed(data: &[u8], start: usize) -> (r: [i8; 8])
    requires
        start + 8 <= data@.len(),
    ensures
        r@ == as_i8s(data@.subrange(start as int, start + 8)),
{
    let mut r = [0i8; 8];
    let mut i: usize = 0;
    while i < 8
        invariant
            i <= 8,
            start + 8 <= data.len(),
            forall|j: int| 0 <= j < i ==> r[j] == data@[start + j] as i8,
        decreases 8 - i,
    {
        r[i] = #[verifier::truncate] (data[start + i] as i8);
        i = i + 1;
    }
    assert(r@ =~= as_i8s(data@.subrange(start as int, start + 8)));
    r
}

/// Appends the bytes of `src` to `dst`.
pub fn push_all(dst: &mut Vec<u8>, src: &[u8])
    ensures
        final(dst)@ == old(dst)@ + src@,
{
    let mut i: usize = 0;
    while i < src.len()
        invariant
            i <= src@.len(),
            dst@ == old(dst)@ + src@.subrange(0, i as int),
        decreases src@.len() - i,
    {
        dst.push(src[i]);
        i = i + 1;
        assert(dst@ =~= old(dst)@ + src@.subrange(0, i as int));
    }
    assert(src@.subrange(0, src@.len() as int) =~= src@);
}

/// Appends the bits of the signed bytes of `src` to `dst`.
pub fn push_all_signed(dst: &mut Vec<u8>, src: &[i8])
    ensures
        final(dst)@ == old(dst)@ + as_u8s(src@),
{
    let mut i: usize = 0;
    while i < src.len()
        invariant
            i <= src@.len(),
            dst@ == old(dst)@ + as_u8s(src@.subrange(0, i as int)),
        decreases src@.len() - i,
    {
        dst.push(src[i] as u8);
        i = i + 1;
        assert(dst@ =~= old(dst)@ + as_u8s(src@.subrange(0, i as int)));
    }
    assert(src@.subrange(0, src@.len() as int) =~= src@);
}

/// Overwrites the bytes of `data` from `start` with those of `src`.
pub fn write_at(data: &mut Vec<u8>, start: usize, src: &[u8])
    requires
        start + src@.len() <= old(data)@.len(),
    ensures
        final(data)@ == old(data)@.subrange(0, start as int) + src@ + old(data)@.subrange(
            start + src@.len(),
            old(data)@.len() as int,
        ),
{
    let mut i: usize = 0;
    while i < src.len()
        invariant
            i <= src@.len(),
            start + src@.len() <= old(data)@.len(),
            data@.len() == old(data)@.len(),
            start + src.len() <= data.len(),
            forall|j: int| 0 <= j < start ==> data@[j] == old(data)@[j],
            forall|j: int| 0 <= j < i ==> data@[start + j] == src@[j],
            forall|j: int| start + i <= j < data@.len() ==> data@[j] == old(data)@[j],
        decreases src@.len() - i,
    {
        data.set(start + i, src[i]);
        i = i + 1;
    }
    assert(data@ =~= old(data)@.subrange(0, start as int) + src@ + old(data)@.subrange(
        start + src@.len(),
        old(data)@.len() as int,
    ));
}

/// Whether two addresses are the same.
pub fn same_address(a: &[u8; 32], b: &[u8; 32]) -> (r: bool)
    ensures
        r == (a@ == b@),
{
    let mut i: usize = 0;
    while i < 32
        invariant
            i <= 32,
            forall|j: int| 0 <= j < i ==> a@[j] == b@[j],
        decreases 32 - i,
    {
        if a[i] != b[i] {
            return false;
        }
        i = i + 1;
    }
    assert(a@ =~= b@);
    true
}

} // verus!
