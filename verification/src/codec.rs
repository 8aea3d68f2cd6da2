//! Byte layout of account state and instruction data: little-endian integers,
//! one-byte booleans and tags, `u32` length prefixes for sequences and strings.
//!
//! Every reader works on a byte slice from a position and is tied to a spec
//! decoder; every writer appends exactly the spec encoding.
use vstd::prelude::*;
use vstd::array::array_view;
use vstd::utf8::*;
use vstd::string::StringSliceAdditionalSpecFns;
use crate::pubkey::Pubkey;

verus! {

broadcast use vstd::utf8::encode_utf8_valid_utf8, vstd::utf8::encode_utf8_decode_utf8;

/// The exec reader result `r`, run on `d` from some position, matches the spec decoder result `spec`.
pub open spec fn read_ok<T>(spec: Option<(T, Seq<u8>)>, r: Option<(T, usize)>, d: Seq<u8>) -> bool {
    match r {
        None => spec is None,
        Some((v, p)) => p <= d.len() && spec == Some((v, d.skip(p as int))),
    }
}

pub proof fn lemma_skip_skip(d: Seq<u8>, a: int, b: int)
    requires
        0 <= a,
        0 <= b,
        a + b <= d.len(),
    ensures
        d.skip(a).skip(b) == d.skip(a + b),
{
    assert(d.skip(a).skip(b) =~= d.skip(a + b));
}

pub proof fn lemma_prefix(a: Seq<u8>, rest: Seq<u8>)
    ensures
        (a + rest).take(a.len() as int) == a,
        (a + rest).skip(a.len() as int) == rest,
{
    assert((a + rest).take(a.len() as int) =~= a);
    assert((a + rest).skip(a.len() as int) =~= rest);
}

pub proof fn lemma_assoc(a: Seq<u8>, b: Seq<u8>, c: Seq<u8>)
    ensures
        (a + b) + c == a + (b + c),
{
    assert((a + b) + c =~= a + (b + c));
}

// ── u8 / bool ───────────────────────────────────────────────────────────────

pub open spec fn dec_u8(s: Seq<u8>) -> Option<(u8, Seq<u8>)> {
    if s.len() >= 1 {
        Some((s[0], s.skip(1)))
    } else {
        None
    }
}

pub open spec fn enc_u8(v: u8) -> Seq<u8> {
    seq![v]
}

pub fn read_u8(d: &[u8], pos: usize) -> (r: Option<(u8, usize)>)
    requires
        pos <= d@.len(),
    ensures
        read_ok(dec_u8(d@.skip(pos as int)), r, d@),
{
    if pos < d.len() {
        proof {
            lemma_skip_skip(d@, pos as int, 1);
        }
        Some((d[pos], pos + 1))
    } else {
        None
    }
}

pub fn write_u8(out: &mut Vec<u8>, v: u8)
    ensures
        final(out)@ == old(out)@ + enc_u8(v),
{
    out.push(v);
    assert(final(out)@ =~= old(out)@ + enc_u8(v));
}

pub proof fn lemma_u8(v: u8, rest: Seq<u8>)
    ensures
        dec_u8(enc_u8(v) + rest) == Some((v, rest)),
{
    lemma_prefix(enc_u8(v), rest);
}

/// Booleans are one byte, 0 or 1; any other byte is rejected.
pub open spec fn dec_bool(s: Seq<u8>) -> Option<(bool, Seq<u8>)> {
    if s.len() >= 1 && s[0] == 0 {
        Some((false, s.skip(1)))
    } else if s.len() >= 1 && s[0] == 1 {
        Some((true, s.skip(1)))
    } else {
        None
    }
}

pub open spec fn enc_bool(v: bool) -> Seq<u8> {
    if v {
        seq![1u8]
    } else {
        seq![0u8]
    }
}

pub fn read_bool(d: &[u8], pos: usize) -> (r: Option<(bool, usize)>)
    requires
        pos <= d@.len(),
    ensures
        read_ok(dec_bool(d@.skip(pos as int)), r, d@),
{
    if pos < d.len() {
        proof {
            lemma_skip_skip(d@, pos as int, 1);
        }
        if d[pos] == 0 {
            Some((false, pos + 1))
        } else if d[pos] == 1 {
            Some((true, pos + 1))
        } else {
            None
        }
    } else {
        None
    }
}

pub fn write_bool(out: &mut Vec<u8>, v: bool)
    ensures
        final(out)@ == old(out)@ + enc_bool(v),
{
    if v {
        out.push(1u8);
    } else {
        out.push(0u8);
    }
    assert(final(out)@ =~= old(out)@ + enc_bool(v));
}

pub proof fn lemma_bool(v: bool, rest: Seq<u8>)
    ensures
        dec_bool(enc_bool(v) + rest) == Some((v, rest)),
{
    lemma_prefix(enc_bool(v), rest);
}

// ── little-endian integers ──────────────────────────────────────────────────

pub open spec fn le_u16(s: Seq<u8>) -> u16 {
    (s[0] as u16) | ((s[1] as u16) << 8)
}

pub open spec fn enc_u16(v: u16) -> Seq<u8> {
    seq![v as u8, (v >> 8) as u8]
}

pub open spec fn dec_u16(s: Seq<u8>) -> Option<(u16, Seq<u8>)> {
    if s.len() >= 2 {
        Some((le_u16(s), s.skip(2)))
    } else {
        None
    }
}

pub fn read_u16(d: &[u8], pos: usize) -> (r: Option<(u16, usize)>)
    requires
        pos <= d@.len(),
    ensures
        read_ok(dec_u16(d@.skip(pos as int)), r, d@),
{
    if d.len() - pos >= 2 {
        proof {
            lemma_skip_skip(d@, pos as int, 2);
        }
        let v = (d[pos] as u16) | ((d[pos + 1] as u16) << 8);
        Some((v, pos + 2))
    } else {
        None
    }
}

pub fn write_u16(out: &mut Vec<u8>, v: u16)
    ensures
        final(out)@ == old(out)@ + enc_u16(v),
{
    out.push(v as u8);
    out.push((v >> 8) as u8);
    assert(final(out)@ =~= old(out)@ + enc_u16(v));
}

pub proof fn lemma_u16(v: u16, rest: Seq<u8>)
    ensures
        dec_u16(enc_u16(v) + rest) == Some((v, rest)),
{
    lemma_prefix(enc_u16(v), rest);
    let s = enc_u16(v) + rest;
    assert(s[0] == v as u8 && s[1] == (v >> 8) as u8);
    assert(((v as u8) as u16) | ((((v >> 8) as u8) as u16) << 8) == v) by (bit_vector);
}

pub open spec fn le_u32(s: Seq<u8>) -> u32 {
    (s[0] as u32) | ((s[1] as u32) << 8) | ((s[2] as u32) << 16) | ((s[3] as u32) << 24)
}

pub open spec fn enc_u32(v: u32) -> Seq<u8> {
    seq![v as u8, (v >> 8) as u8, (v >> 16) as u8, (v >> 24) as u8]
}

pub open spec fn dec_u32(s: Seq<u8>) -> Option<(u32, Seq<u8>)> {
    if s.len() >= 4 {
        Some((le_u32(s), s.skip(4)))
    } else {
        None
    }
}

pub fn read_u32(d: &[u8], pos: usize) -> (r: Option<(u32, usize)>)
    requires
        pos <= d@.len(),
    ensures
        read_ok(dec_u32(d@.skip(pos as int)), r, d@),
{
    if d.len() - pos >= 4 {
        proof {
            lemma_skip_skip(d@, pos as int, 4);
        }
        let v = (d[pos] as u32) | ((d[pos + 1] as u32) << 8) | ((d[pos + 2] as u32) << 16) | ((
        d[pos + 3] as u32) << 24);
        Some((v, pos + 4))
    } else {
        None
    }
}

pub fn write_u32(out: &mut Vec<u8>, v: u32)
    ensures
        final(out)@ == old(out)@ + enc_u32(v),
{
    out.push(v as u8);
    out.push((v >> 8) as u8);
    out.push((v >> 16) as u8);
    out.push((v >> 24) as u8);
    assert(final(out)@ =~= old(out)@ + enc_u32(v));
}

pub proof fn lemma_u32(v: u32, rest: Seq<u8>)
    ensures
        dec_u32(enc_u32(v) + rest) == Some((v, rest)),
{
    lemma_prefix(enc_u32(v), rest);
    let s = enc_u32(v) + rest;
    assert(s[0] == v as u8 && s[1] == (v >> 8) as u8 && s[2] == (v >> 16) as u8 && s[3] == (v
        >> 24) as u8);
    assert(((v as u8) as u32) | ((((v >> 8) as u8) as u32) << 8) | ((((v >> 16) as u8) as u32)
        << 16) | ((((v >> 24) as u8) as u32) << 24) == v) by (bit_vector);
}

pub open spec fn le_u64(s: Seq<u8>) -> u64 {
    (s[0] as u64) | ((s[1] as u64) << 8) | ((s[2] as u64) << 16) | ((s[3] as u64) << 24) | ((
    s[4] as u64) << 32) | ((s[5] as u64) << 40) | ((s[6] as u64) << 48) | ((s[7] as u64) << 56)
}

pub open spec fn enc_u64(v: u64) -> Seq<u8> {
    seq![
        v as u8,
        (v >> 8) as u8,
        (v >> 16) as u8,
        (v >> 24) as u8,
        (v >> 32) as u8,
        (v >> 40) as u8,
        (v >> 48) as u8,
        (v >> 56) as u8,
    ]
}

pub open spec fn dec_u64(s: Seq<u8>) -> Option<(u64, Seq<u8>)> {
    if s.len() >= 8 {
        Some((le_u64(s), s.skip(8)))
    } else {
        None
    }
}

pub fn read_u64(d: &[u8], pos: usize) -> (r: Option<(u64, usize)>)
    requires
        pos <= d@.len(),
    ensures
        read_ok(dec_u64(d@.skip(pos as int)), r, d@),
{
    if d.len() - pos >= 8 {
        proof {
            lemma_skip_skip(d@, pos as int, 8);
        }
        let v = (d[pos] as u64) | ((d[pos + 1] as u64) << 8) | ((d[pos + 2] as u64) << 16) | ((
        d[pos + 3] as u64) << 24) | ((d[pos + 4] as u64) << 32) | ((d[pos + 5] as u64) << 40) | ((
        d[pos + 6] as u64) << 48) | ((d[pos + 7] as u64) << 56);
        Some((v, pos + 8))
    } else {
        None
    }
}

pub fn write_u64(out: &mut Vec<u8>, v: u64)
    ensures
        final(out)@ == old(out)@ + enc_u64(v),
{
    out.push(v as u8);
    out.push((v >> 8) as u8);
    out.push((v >> 16) as u8);
    out.push((v >> 24) as u8);
    out.push((v >> 32) as u8);
    out.push((v >> 40) as u8);
    out.push((v >> 48) as u8);
    out.push((v >> 56) as u8);
    assert(final(out)@ =~= old(out)@ + enc_u64(v));
}

pub proof fn lemma_u64(v: u64, rest: Seq<u8>)
    ensures
        dec_u64(enc_u64(v) + rest) == Some((v, rest)),
{
    lemma_prefix(enc_u64(v), rest);
    let s = enc_u64(v) + rest;
    assert(s[0] == v as u8 && s[1] == (v >> 8) as u8 && s[2] == (v >> 16) as u8 && s[3] == (v
        >> 24) as u8 && s[4] == (v >> 32) as u8 && s[5] == (v >> 40) as u8 && s[6] == (v >> 48) as u8
        && s[7] == (v >> 56) as u8);
    assert(((v as u8) as u64) | ((((v >> 8) as u8) as u64) << 8) | ((((v >> 16) as u8) as u64)
        << 16) | ((((v >> 24) as u8) as u64) << 24) | ((((v >> 32) as u8) as u64) << 32) | ((((v
        >> 40) as u8) as u64) << 40) | ((((v >> 48) as u8) as u64) << 48) | ((((v >> 56) as u8)
        as u64) << 56) == v) by (bit_vector);
}

/// `u128` is two little-endian `u64` halves, low half first.
pub open spec fn enc_u128(v: u128) -> Seq<u8> {
    enc_u64(v as u64) + enc_u64((v >> 64) as u64)
}

pub open spec fn join_u128(lo: u64, hi: u64) -> u128 {
    (lo as u128) | ((hi as u128) << 64)
}

pub open spec fn dec_u128(s: Seq<u8>) -> Option<(u128, Seq<u8>)> {
    match dec_u64(s) {
        Some((lo, r)) => match dec_u64(r) {
            Some((hi, r2)) => Some((join_u128(lo, hi), r2)),
            None => None,
        },
        None => None,
    }
}

pub fn read_u128(d: &[u8], pos: usize) -> (r: Option<(u128, usize)>)
    requires
        pos <= d@.len(),
    ensures
        read_ok(dec_u128(d@.skip(pos as int)), r, d@),
{
    match read_u64(d, pos) {
        None => None,
        Some((lo, p)) => match read_u64(d, p) {
            None => None,
            Some((hi, p2)) => Some(((lo as u128) | ((hi as u128) << 64), p2)),
        },
    }
}

pub fn write_u128(out: &mut Vec<u8>, v: u128)
    ensures
        final(out)@ == old(out)@ + enc_u128(v),
{
    write_u64(out, v as u64);
    write_u64(out, (v >> 64) as u64);
    assert(final(out)@ =~= old(out)@ + enc_u128(v));
}

pub proof fn lemma_u128(v: u128, rest: Seq<u8>)
    ensures
        dec_u128(enc_u128(v) + rest) == Some((v, rest)),
{
    let lo = v as u64;
    let hi = (v >> 64) as u64;
    assert(enc_u128(v) + rest =~= enc_u64(lo) + (enc_u64(hi) + rest));
    lemma_u64(lo, enc_u64(hi) + rest);
    lemma_u64(hi, rest);
    assert(((v as u64) as u128) | ((((v >> 64) as u64) as u128) << 64) == v) by (bit_vector);
}

/// `i64` is the two's-complement `u64` encoding.
pub open spec fn enc_i64(v: i64) -> Seq<u8> {
    enc_u64(v as u64)
}

pub open spec fn dec_i64(s: Seq<u8>) -> Option<(i64, Seq<u8>)> {
    match dec_u64(s) {
        Some((u, r)) => Some((u as i64, r)),
        None => None,
    }
}

pub fn read_i64(d: &[u8], pos: usize) -> (r: Option<(i64, usize)>)
    requires
        pos <= d@.len(),
    ensures
        read_ok(dec_i64(d@.skip(pos as int)), r, d@),
{
    match read_u64(d, pos) {
        None => None,
        Some((u, p)) => Some((u as i64, p)),
    }
}

pub fn write_i64(out: &mut Vec<u8>, v: i64)
    ensures
        final(out)@ == old(out)@ + enc_i64(v),
{
    write_u64(out, v as u64);
}

pub proof fn lemma_i64(v: i64, rest: Seq<u8>)
    ensures
        dec_i64(enc_i64(v) + rest) == Some((v, rest)),
{
    lemma_u64(v as u64, rest);
    assert((v as u64) as i64 == v) by (bit_vector);
}

// ── fixed byte arrays and keys ──────────────────────────────────────────────

pub open spec fn arr_of<const N: usize>(s: Seq<u8>) -> [u8; N] {
    choose|a: [u8; N]| #[trigger] array_view(a) == s
}

pub proof fn lemma_arr_of<const N: usize>(a: [u8; N])
    ensures
        arr_of::<N>(a@) == a,
{
    assert(array_view(a) == a@);
    let c = arr_of::<N>(a@);
    assert(c@ == a@);
    assert(c =~= a);
}

pub open spec fn dec_arr<const N: usize>(s: Seq<u8>) -> Option<([u8; N], Seq<u8>)> {
    if s.len() >= N {
        Some((arr_of::<N>(s.take(N as int)), s.skip(N as int)))
    } else {
        None
    }
}

pub open spec fn enc_arr<const N: usize>(a: [u8; N]) -> Seq<u8> {
    a@
}

pub fn read_arr<const N: usize>(d: &[u8], pos: usize) -> (r: Option<([u8; N], usize)>)
    requires
        pos <= d@.len(),
    ensures
        read_ok(dec_arr::<N>(d@.skip(pos as int)), r, d@),
{
    if d.len() - pos >= N {
        let mut a: [u8; N] = vstd::array::array_fill_for_copy_types::<u8, N>(0u8);
        let n = d.len();
        let mut i: usize = 0;
        while i < N
            invariant
                i <= N,
                n == d@.len(),
                pos + N <= d@.len(),
                a@.len() == N,
                forall|j: int| 0 <= j < i ==> a@[j] == d@[pos + j],
            decreases N - i,
        {
            a[i] = d[pos + i];
            i = i + 1;
        }
        proof {
            assert(a@ =~= d@.skip(pos as int).take(N as int));
            lemma_arr_of::<N>(a);
            lemma_skip_skip(d@, pos as int, N as int);
        }
        Some((a, pos + N))
    } else {
        None
    }
}

pub fn write_arr<const N: usize>(out: &mut Vec<u8>, a: &[u8; N])
    ensures
        final(out)@ == old(out)@ + enc_arr::<N>(*a),
{
    let mut i: usize = 0;
    while i < N
        invariant
            i <= N,
            a@.len() == N,
            out@ == old(out)@ + a@.take(i as int),
        decreases N - i,
    {
        out.push(a[i]);
        assert(a@.take(i + 1) =~= a@.take(i as int).push(a@[i as int]));
        i = i + 1;
    }
    assert(a@.take(N as int) =~= a@);
}

pub proof fn lemma_arr<const N: usize>(a: [u8; N], rest: Seq<u8>)
    ensures
        dec_arr::<N>(enc_arr::<N>(a) + rest) == Some((a, rest)),
{
    assert(a@.len() == N);
    lemma_prefix(a@, rest);
    lemma_arr_of::<N>(a);
}

pub open spec fn dec_pubkey(s: Seq<u8>) -> Option<(Pubkey, Seq<u8>)> {
    match dec_arr::<32>(s) {
        Some((a, r)) => Some((Pubkey(a), r)),
        None => None,
    }
}

pub open spec fn enc_pubkey(k: Pubkey) -> Seq<u8> {
    k.0@
}

pub fn read_pubkey(d: &[u8], pos: usize) -> (r: Option<(Pubkey, usize)>)
    requires
        pos <= d@.len(),
    ensures
        read_ok(dec_pubkey(d@.skip(pos as int)), r, d@),
{
    match read_arr::<32>(d, pos) {
        None => None,
        Some((a, p)) => Some((Pubkey(a), p)),
    }
}

pub fn write_pubkey(out: &mut Vec<u8>, k: &Pubkey)
    ensures
        final(out)@ == old(out)@ + enc_pubkey(*k),
{
    write_arr::<32>(out, &k.0);
}

pub proof fn lemma_pubkey(k: Pubkey, rest: Seq<u8>)
    ensures
        dec_pubkey(enc_pubkey(k) + rest) == Some((k, rest)),
{
    lemma_arr::<32>(k.0, rest);
}

// ── byte vectors and strings ────────────────────────────────────────────────

pub open spec fn dec_bytes(s: Seq<u8>) -> Option<(Seq<u8>, Seq<u8>)> {
    match dec_u32(s) {
        Some((n, r)) => if r.len() >= n {
            Some((r.take(n as int), r.skip(n as int)))
        } else {
            None
        },
        None => None,
    }
}

pub open spec fn enc_bytes(b: Seq<u8>) -> Seq<u8> {
    enc_u32(b.len() as u32) + b
}

/// A length prefix must fit in `u32`.
pub open spec fn fits_u32(n: nat) -> bool {
    n <= u32::MAX
}

fn copy_range(d: &[u8], from: usize, to: usize) -> (r: Vec<u8>)
    requires
        from <= to <= d@.len(),
    ensures
        r@ == d@.subrange(from as int, to as int),
{
    let mut r: Vec<u8> = Vec::new();
    let mut i = from;
    while i < to
        invariant
            from <= i <= to <= d@.len(),
            r@ == d@.subrange(from as int, i as int),
        decreases to - i,
    {
        r.push(d[i]);
        assert(d@.subrange(from as int, i + 1) =~= d@.subrange(from as int, i as int).push(d@[i as int]));
        i = i + 1;
    }
    r
}

pub fn read_bytes(d: &[u8], pos: usize) -> (r: Option<(Vec<u8>, usize)>)
    requires
        pos <= d@.len(),
    ensures
        match r {
            None => dec_bytes(d@.skip(pos as int)) is None,
            Some((v, p)) => p <= d@.len() && dec_bytes(d@.skip(pos as int)) == Some((v@, d@.skip(p as int))),
        },
{
    match read_u32(d, pos) {
        None => None,
        Some((n, p)) => {
            if d.len() - p >= n as usize {
                let v = copy_range(d, p, p + n as usize);
                proof {
                    assert(v@ =~= d@.skip(p as int).take(n as int));
                    lemma_skip_skip(d@, p as int, n as int);
                }
                Some((v, p + n as usize))
            } else {
                None
            }
        },
    }
}

pub fn push_all(out: &mut Vec<u8>, b: &[u8])
    ensures
        final(out)@ == old(out)@ + b@,
{
    let mut i: usize = 0;
    while i < b.len()
        invariant
            i <= b@.len(),
            out@ == old(out)@ + b@.take(i as int),
        decreases b@.len() - i,
    {
        out.push(b[i]);
        assert(b@.take(i + 1) =~= b@.take(i as int).push(b@[i as int]));
        i = i + 1;
    }
    assert(b@.take(b@.len() as int) =~= b@);
}

pub fn write_bytes(out: &mut Vec<u8>, b: &[u8]) -> (ok: bool)
    ensures
        ok == fits_u32(b@.len()),
        ok ==> final(out)@ == old(out)@ + enc_bytes(b@),
{
    if b.len() > u32::MAX as usize {
        return false;
    }
    write_u32(out, b.len() as u32);
    push_all(out, b);
    assert(final(out)@ =~= old(out)@ + enc_bytes(b@));
    true
}

pub proof fn lemma_bytes(b: Seq<u8>, rest: Seq<u8>)
    requires
        fits_u32(b.len()),
    ensures
        dec_bytes(enc_bytes(b) + rest) == Some((b, rest)),
{
    assert(enc_bytes(b) + rest =~= enc_u32(b.len() as u32) + (b + rest));
    lemma_u32(b.len() as u32, b + rest);
    lemma_prefix(b, rest);
}

/// Checks that bytes are UTF-8 (`std::str::from_utf8`); on success the returned
/// string slice has exactly these bytes.
#[verifier::external_body]
fn utf8_str(bytes: &[u8]) -> (r: Option<&str>)
    ensures
        r is Some <==> valid_utf8(bytes@),
        r matches Some(s) ==> s.spec_bytes() == bytes@,
{
    std::str::from_utf8(bytes).ok()
}

/// Strings are a `u32` byte length followed by UTF-8 bytes; invalid UTF-8 is rejected.
pub open spec fn dec_string(s: Seq<u8>) -> Option<(Seq<char>, Seq<u8>)> {
    match dec_bytes(s) {
        Some((b, r)) => if valid_utf8(b) {
            Some((decode_utf8(b), r))
        } else {
            None
        },
        None => None,
    }
}

pub open spec fn enc_string(c: Seq<char>) -> Seq<u8> {
    enc_bytes(encode_utf8(c))
}

pub open spec fn fits_string(c: Seq<char>) -> bool {
    fits_u32(encode_utf8(c).len())
}

pub fn read_string(d: &[u8], pos: usize) -> (r: Option<(String, usize)>)
    requires
        pos <= d@.len(),
    ensures
        match r {
            None => dec_string(d@.skip(pos as int)) is None,
            Some((v, p)) => p <= d@.len() && dec_string(d@.skip(pos as int)) == Some((v@, d@.skip(p as int))),
        },
{
    match read_bytes(d, pos) {
        None => None,
        Some((b, p)) => match utf8_str(b.as_slice()) {
            None => None,
            Some(s) => {
                let owned = s.to_owned();
                proof {
                    assert(encode_utf8(s@) == b@);
                    assert(decode_utf8(encode_utf8(s@)) == s@);
                }
                Some((owned, p))
            },
        },
    }
}

pub fn write_string(out: &mut Vec<u8>, s: &String) -> (ok: bool)
    ensures
        ok == fits_string(s@),
        ok ==> final(out)@ == old(out)@ + enc_string(s@),
{
    let b = s.as_str().as_bytes();
    write_bytes(out, b)
}

pub proof fn lemma_string(c: Seq<char>, rest: Seq<u8>)
    requires
        fits_string(c),
    ensures
        dec_string(enc_string(c) + rest) == Some((c, rest)),
{
    lemma_bytes(encode_utf8(c), rest);
}

} // verus!
