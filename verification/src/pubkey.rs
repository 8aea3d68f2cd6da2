use vstd::prelude::*;

verus! {

/// A 32-byte account address.
#[derive(Clone, Copy, Debug, Hash)]
pub struct Pubkey(pub [u8; 32]);

impl PartialEq for Pubkey {
    fn eq(&self, other: &Self) -> (r: bool) {
        let mut i: usize = 0;
        while i < 32
            invariant
                i <= 32,
                forall|j: int| 0 <= j < i ==> self.0[j] == other.0[j],
            decreases 32 - i,
        {
            if self.0[i] != other.0[i] {
                return false;
            }
            i = i + 1;
        }
        assert(self.0 =~= other.0);
        true
    }
}

impl vstd::std_specs::cmp::PartialEqSpecImpl for Pubkey {
    open spec fn obeys_eq_spec() -> bool {
        true
    }

    open spec fn eq_spec(&self, other: &Pubkey) -> bool {
        *self == *other
    }
}

impl Eq for Pubkey {}

/// Bytes of the all-zero key.
pub const ZERO_KEY_BYTES: [u8; 32] = [0, 0, 0, 0, 0, 0, 0, 0, 0, 0, 0, 0, 0, 0, 0, 0, 0, 0, 0, 0, 0, 0, 0, 0, 0, 0, 0, 0, 0, 0, 0, 0];

/// The all-zero key, which `Pubkey::default()` gives.
pub open spec fn spec_zero_pubkey() -> Pubkey {
    Pubkey(ZERO_KEY_BYTES)
}

impl Default for Pubkey {
    fn default() -> (r: Pubkey)
        ensures
            r == spec_zero_pubkey(),
    {
        Pubkey(ZERO_KEY_BYTES)
    }
}

impl Pubkey {
    pub fn new_from_array(bytes: [u8; 32]) -> (r: Pubkey)
        ensures r.0 == bytes,
    {
        Pubkey(bytes)
    }

    pub fn to_bytes(&self) -> (r: [u8; 32])
        ensures r == self.0,
    {
        self.0
    }
}

pub fn key_eq(a: &Pubkey, b: &Pubkey) -> (r: bool)
    ensures r == (*a == *b),
{
    *a == *b
}

/// Byte-wise equality of two 32-byte arrays.
pub fn bytes32_eq(a: &[u8; 32], b: &[u8; 32]) -> (r: bool)
    ensures r == (*a == *b),
{
    let mut i: usize = 0;
    while i < 32
        invariant
            i <= 32,
            forall|j: int| 0 <= j < i ==> a[j] == b[j],
        decreases 32 - i,
    {
        if a[i] != b[i] {
            return false;
        }
        i = i + 1;
    }
    assert(*a =~= *b);
    true
}

/// Equality of optional keys.
pub fn opt_key_eq(a: &Option<Pubkey>, b: &Option<Pubkey>) -> (r: bool)
    ensures
        r == (*a == *b),
{
    match (a, b) {
        (Some(x), Some(y)) => *x == *y,
        (None, None) => true,
        _ => false,
    }
}

/// Whether `k` occurs in `v`.
pub fn contains_key(v: &Vec<Pubkey>, k: &Pubkey) -> (r: bool)
    ensures
        r == v@.contains(*k),
{
    let mut i: usize = 0;
    while i < v.len()
        invariant
            i <= v@.len(),
            forall|j: int| 0 <= j < i ==> v@[j] != *k,
        decreases v@.len() - i,
    {
        if v[i] == *k {
            assert(v@[i as int] == *k);
            return true;
        }
        i = i + 1;
    }
    false
}

/// `i` is the first position of `k` in `s`.
pub open spec fn is_first_key(s: Seq<Pubkey>, k: Pubkey, i: int) -> bool {
    &&& 0 <= i < s.len()
    &&& s[i] == k
    &&& forall|j: int| 0 <= j < i ==> #[trigger] s[j] != k
}

/// The first position of `k` in `s` (meaningful when `s` contains `k`).
pub open spec fn first_key_index(s: Seq<Pubkey>, k: Pubkey) -> int {
    choose|i: int| is_first_key(s, k, i)
}

/// There is only one first position.
pub proof fn lemma_first_key_unique(s: Seq<Pubkey>, k: Pubkey, i: int)
    requires
        is_first_key(s, k, i),
    ensures
        first_key_index(s, k) == i,
{
    let f = first_key_index(s, k);
    assert(is_first_key(s, k, f));
    if f < i {
        assert(s[f] != k);
    } else if i < f {
        assert(s[i] != k);
    }
}

/// The first position of `k` in `v`, if any.
pub fn position_of(v: &Vec<Pubkey>, k: &Pubkey) -> (r: Option<usize>)
    ensures
        r is None <==> !v@.contains(*k),
        r matches Some(i) ==> i as int == first_key_index(v@, *k) && is_first_key(v@, *k, i as int),
{
    let mut i: usize = 0;
    while i < v.len()
        invariant
            i <= v@.len(),
            forall|j: int| 0 <= j < i ==> v@[j] != *k,
        decreases v@.len() - i,
    {
        if v[i] == *k {
            proof {
                lemma_first_key_unique(v@, *k, i as int);
            }
            return Some(i);
        }
        i = i + 1;
    }
    None
}

/// The keys of `s` other than `k`, in order.
pub open spec fn without_key(s: Seq<Pubkey>, k: Pubkey) -> Seq<Pubkey> {
    s.filter(|x: Pubkey| x != k)
}

/// Keeps the keys of `v` other than `k`, in order.
pub fn remove_key(v: &mut Vec<Pubkey>, k: &Pubkey)
    ensures
        final(v)@ == without_key(old(v)@, *k),
{
    let mut out: Vec<Pubkey> = Vec::new();
    let mut i: usize = 0;
    while i < v.len()
        invariant
            i <= v@.len(),
            out@ == without_key(v@.take(i as int), *k),
        decreases v@.len() - i,
    {
        proof {
            reveal(Seq::filter);
            assert(v@.take(i + 1).drop_last() =~= v@.take(i as int));
        }
        if v[i] != *k {
            out.push(v[i]);
        }
        i = i + 1;
    }
    assert(v@.take(v@.len() as int) =~= v@);
    *v = out;
}

pub fn make32(d: &[u8], pos: usize) -> (r: [u8; 32])
    requires pos + 32 <= d@.len(),
    ensures r@ == d@.subrange(pos as int, pos + 32),
{
    let r = [d[pos], d[pos+1], d[pos+2], d[pos+3], d[pos+4], d[pos+5], d[pos+6], d[pos+7],
        d[pos+8], d[pos+9], d[pos+10], d[pos+11], d[pos+12], d[pos+13], d[pos+14], d[pos+15],
        d[pos+16], d[pos+17], d[pos+18], d[pos+19], d[pos+20], d[pos+21], d[pos+22], d[pos+23],
        d[pos+24], d[pos+25], d[pos+26], d[pos+27], d[pos+28], d[pos+29], d[pos+30], d[pos+31]];
    assert(r@ =~= d@.subrange(pos as int, pos + 32));
    r
}

} // verus!
