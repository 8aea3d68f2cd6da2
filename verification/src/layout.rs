//! Encodings of optional values and sequences of primitive values.
use vstd::prelude::*;
use crate::codec::{dec_arr, dec_i64, dec_pubkey, dec_string, dec_u128, dec_u16, dec_u32, dec_u64, dec_u8, enc_arr, enc_i64, enc_pubkey, enc_string, enc_u128, enc_u16, enc_u32, enc_u64, enc_u8, fits_string, fits_u32, lemma_arr, lemma_i64, lemma_pubkey, lemma_skip_skip, lemma_string, lemma_u128, lemma_u16, lemma_u32, lemma_u64, lemma_u8, read_arr, read_i64, read_ok, read_pubkey, read_string, read_u128, read_u16, read_u32, read_u64, read_u8, write_arr, write_i64, write_pubkey, write_string, write_u128, write_u16, write_u32, write_u64, write_u8};
use crate::pubkey::{Pubkey};

verus! {


pub open spec fn enc_opt_u64(o: Option<u64>) -> Seq<u8> {
    match o {
        None => seq![0u8],
        Some(x) => seq![1u8] + enc_u64(x),
    }
}

pub open spec fn dec_opt_u64(s: Seq<u8>) -> Option<(Option<u64>, Seq<u8>)> {
    if s.len() >= 1 && s[0] == 0 {
        Some((None, s.skip(1)))
    } else if s.len() >= 1 && s[0] == 1 {
        match dec_u64(s.skip(1)) {
            Some((x, r)) => Some((Some(x), r)),
            None => None,
        }
    } else {
        None
    }
}


pub fn read_opt_u64(d: &[u8], pos: usize) -> (r: Option<(Option<u64>, usize)>)
    requires
        pos <= d@.len(),
    ensures
        read_ok(dec_opt_u64(d@.skip(pos as int)), r, d@),
{
    match read_u8(d, pos) {
        None => None,
        Some((tag, p)) => {
            proof {
                lemma_skip_skip(d@, pos as int, 1);
            }
            if tag == 0 {
                Some((None, p))
            } else if tag == 1 {
                match read_u64(d, p) {
                    None => None,
                    Some((x, p2)) => Some((Some(x), p2)),
                }
            } else {
                None
            }
        },
    }
}


pub fn write_opt_u64(out: &mut Vec<u8>, o: &Option<u64>)
    ensures
        final(out)@ == old(out)@ + enc_opt_u64(*o),
{
    match o {
        None => {
            out.push(0u8);
        },
        Some(x) => {
            out.push(1u8);
            write_u64(out, *x);
        },
    }
    assert(final(out)@ =~= old(out)@ + enc_opt_u64(*o));
}


pub proof fn lemma_opt_u64(o: Option<u64>, rest: Seq<u8>)
    ensures
        dec_opt_u64(enc_opt_u64(o) + rest) == Some((o, rest)),
{
    match o {
        None => {
            assert((seq![0u8] + rest).skip(1) =~= rest);
        },
        Some(x) => {
            assert((seq![1u8] + enc_u64(x) + rest).skip(1) =~= enc_u64(x) + rest);
            lemma_u64(x, rest);
        },
    }
}


pub open spec fn enc_items_arr32(xs: Seq<[u8; 32]>) -> Seq<u8>
    decreases xs.len(),
{
    if xs.len() == 0 {
        Seq::empty()
    } else {
        enc_items_arr32(xs.drop_last()) + enc_arr::<32>(xs.last())
    }
}

pub open spec fn dec_items_arr32(s: Seq<u8>, n: nat) -> Option<(Seq<[u8; 32]>, Seq<u8>)>
    decreases n,
{
    if n == 0 {
        Some((Seq::empty(), s))
    } else {
        match dec_items_arr32(s, (n - 1) as nat) {
            Some((xs, r)) => match dec_arr::<32>(r) {
                Some((x, r2)) => Some((xs.push(x), r2)),
                None => None,
            },
            None => None,
        }
    }
}

pub open spec fn enc_vec_arr32(xs: Seq<[u8; 32]>) -> Seq<u8> {
    enc_u32(xs.len() as u32) + enc_items_arr32(xs)
}

pub open spec fn dec_vec_arr32(s: Seq<u8>) -> Option<(Seq<[u8; 32]>, Seq<u8>)> {
    match dec_u32(s) {
        Some((n, r)) => dec_items_arr32(r, n as nat),
        None => None,
    }
}


pub open spec fn fits_vec_arr32(xs: Seq<[u8; 32]>) -> bool {
    fits_u32(xs.len())
}


pub open spec fn model_vec_arr32(v: Seq<[u8; 32]>) -> Seq<[u8; 32]> {
    v
}

pub proof fn lemma_items_none_arr32(s: Seq<u8>, k: nat, n: nat)
    requires
        k <= n,
        dec_items_arr32(s, k) is None,
    ensures
        dec_items_arr32(s, n) is None,
    decreases n - k,
{
    if k < n {
        lemma_items_none_arr32(s, k, (n - 1) as nat);
    }
}

pub fn read_vec_arr32(d: &[u8], pos: usize) -> (r: Option<(Vec<[u8; 32]>, usize)>)
    requires
        pos <= d@.len(),
    ensures
        match r {
            None => dec_vec_arr32(d@.skip(pos as int)) is None,
            Some((v, p)) => p <= d@.len() && dec_vec_arr32(d@.skip(pos as int)) == Some((model_vec_arr32(v@), d@.skip(p as int))),
        },
{
    match read_u32(d, pos) {
        None => None,
        Some((n, p0)) => {
            let mut v: Vec<[u8; 32]> = Vec::new();
            let mut p = p0;
            let mut i: u32 = 0;
            while i < n
                invariant
                    p <= d@.len(),
                    pos <= d@.len(),
                    dec_u32(d@.skip(pos as int)) == Some((n, d@.skip(p0 as int))),
                    i <= n,
                    v@.len() == i,
                    dec_items_arr32(d@.skip(p0 as int), i as nat) == Some((model_vec_arr32(v@), d@.skip(p as int))),
                decreases n - i,
            {
                match read_arr::<32>(d, p) {
                    None => {
                        proof {
                            assert(dec_arr::<32>(d@.skip(p as int)) is None);
                            assert(dec_items_arr32(d@.skip(p0 as int), (i + 1) as nat) is None);
                            lemma_items_none_arr32(d@.skip(p0 as int), (i + 1) as nat, n as nat);
                        }
                        return None;
                    },
                    Some((x, p2)) => {
                        let ghost old_v = v@;
                        v.push(x);
                        proof {
                            assert(model_vec_arr32(v@) =~= model_vec_arr32(old_v).push(x));
                        }
                        p = p2;
                        i = i + 1;
                    },
                }
            }
            Some((v, p))
        },
    }
}


pub fn write_vec_arr32(out: &mut Vec<u8>, v: &Vec<[u8; 32]>) -> (ok: bool)
    ensures
        ok == fits_vec_arr32(model_vec_arr32(v@)),
        ok ==> final(out)@ == old(out)@ + enc_vec_arr32(model_vec_arr32(v@)),
{
    if v.len() > u32::MAX as usize {
        return false;
    }
    write_u32(out, v.len() as u32);
    let ghost base = out@;
    let mut i: usize = 0;
    while i < v.len()
        invariant
            i <= v@.len(),
            v@.len() <= u32::MAX,
            out@ == base + enc_items_arr32(model_vec_arr32(v@).take(i as int)),
        decreases v@.len() - i,
    {
        write_arr::<32>(out, &v[i]);
        proof {
            assert(model_vec_arr32(v@).take(i + 1).drop_last() =~= model_vec_arr32(v@).take(i as int));
            assert(model_vec_arr32(v@).take(i + 1).last() == model_vec_arr32(v@)[i as int]);
        }
        i = i + 1;
    }
    proof {
        assert(model_vec_arr32(v@).take(v@.len() as int) =~= model_vec_arr32(v@));
    }
    true
}


pub proof fn lemma_items_arr32(xs: Seq<[u8; 32]>, rest: Seq<u8>)
    requires
        true,
    ensures
        dec_items_arr32(enc_items_arr32(xs) + rest, xs.len()) == Some((xs, rest)),
    decreases xs.len(),
{
    if xs.len() == 0 {
        assert(enc_items_arr32(xs) + rest =~= rest);
        assert(xs =~= Seq::<[u8; 32]>::empty());
    } else {
        let init = xs.drop_last();
        let last = xs.last();
        assert forall|i: int| 0 <= i < init.len() implies init[i] == xs[i] by {}
        lemma_items_arr32(init, enc_arr::<32>(last) + rest);
        assert(enc_items_arr32(xs) + rest =~= enc_items_arr32(init) + (enc_arr::<32>(last) + rest));
        lemma_arr::<32>(last, rest);
        assert(init.push(last) =~= xs);
    }
}

pub proof fn lemma_vec_arr32(xs: Seq<[u8; 32]>, rest: Seq<u8>)
    requires
        fits_vec_arr32(xs),
    ensures
        dec_vec_arr32(enc_vec_arr32(xs) + rest) == Some((xs, rest)),
{
    assert(enc_vec_arr32(xs) + rest =~= enc_u32(xs.len() as u32) + (enc_items_arr32(xs) + rest));
    lemma_u32(xs.len() as u32, enc_items_arr32(xs) + rest);
    lemma_items_arr32(xs, rest);
}


pub open spec fn enc_items_pubkey(xs: Seq<Pubkey>) -> Seq<u8>
    decreases xs.len(),
{
    if xs.len() == 0 {
        Seq::empty()
    } else {
        enc_items_pubkey(xs.drop_last()) + enc_pubkey(xs.last())
    }
}

pub open spec fn dec_items_pubkey(s: Seq<u8>, n: nat) -> Option<(Seq<Pubkey>, Seq<u8>)>
    decreases n,
{
    if n == 0 {
        Some((Seq::empty(), s))
    } else {
        match dec_items_pubkey(s, (n - 1) as nat) {
            Some((xs, r)) => match dec_pubkey(r) {
                Some((x, r2)) => Some((xs.push(x), r2)),
                None => None,
            },
            None => None,
        }
    }
}

pub open spec fn enc_vec_pubkey(xs: Seq<Pubkey>) -> Seq<u8> {
    enc_u32(xs.len() as u32) + enc_items_pubkey(xs)
}

pub open spec fn dec_vec_pubkey(s: Seq<u8>) -> Option<(Seq<Pubkey>, Seq<u8>)> {
    match dec_u32(s) {
        Some((n, r)) => dec_items_pubkey(r, n as nat),
        None => None,
    }
}


pub open spec fn fits_vec_pubkey(xs: Seq<Pubkey>) -> bool {
    fits_u32(xs.len())
}


pub open spec fn model_vec_pubkey(v: Seq<Pubkey>) -> Seq<Pubkey> {
    v
}

pub proof fn lemma_items_none_pubkey(s: Seq<u8>, k: nat, n: nat)
    requires
        k <= n,
        dec_items_pubkey(s, k) is None,
    ensures
        dec_items_pubkey(s, n) is None,
    decreases n - k,
{
    if k < n {
        lemma_items_none_pubkey(s, k, (n - 1) as nat);
    }
}

pub fn read_vec_pubkey(d: &[u8], pos: usize) -> (r: Option<(Vec<Pubkey>, usize)>)
    requires
        pos <= d@.len(),
    ensures
        match r {
            None => dec_vec_pubkey(d@.skip(pos as int)) is None,
            Some((v, p)) => p <= d@.len() && dec_vec_pubkey(d@.skip(pos as int)) == Some((model_vec_pubkey(v@), d@.skip(p as int))),
        },
{
    match read_u32(d, pos) {
        None => None,
        Some((n, p0)) => {
            let mut v: Vec<Pubkey> = Vec::new();
            let mut p = p0;
            let mut i: u32 = 0;
            while i < n
                invariant
                    p <= d@.len(),
                    pos <= d@.len(),
                    dec_u32(d@.skip(pos as int)) == Some((n, d@.skip(p0 as int))),
                    i <= n,
                    v@.len() == i,
                    dec_items_pubkey(d@.skip(p0 as int), i as nat) == Some((model_vec_pubkey(v@), d@.skip(p as int))),
                decreases n - i,
            {
                match read_pubkey(d, p) {
                    None => {
                        proof {
                            assert(dec_pubkey(d@.skip(p as int)) is None);
                            assert(dec_items_pubkey(d@.skip(p0 as int), (i + 1) as nat) is None);
                            lemma_items_none_pubkey(d@.skip(p0 as int), (i + 1) as nat, n as nat);
                        }
                        return None;
                    },
                    Some((x, p2)) => {
                        let ghost old_v = v@;
                        v.push(x);
                        proof {
                            assert(model_vec_pubkey(v@) =~= model_vec_pubkey(old_v).push(x));
                        }
                        p = p2;
                        i = i + 1;
                    },
                }
            }
            Some((v, p))
        },
    }
}


pub fn write_vec_pubkey(out: &mut Vec<u8>, v: &Vec<Pubkey>) -> (ok: bool)
    ensures
        ok == fits_vec_pubkey(model_vec_pubkey(v@)),
        ok ==> final(out)@ == old(out)@ + enc_vec_pubkey(model_vec_pubkey(v@)),
{
    if v.len() > u32::MAX as usize {
        return false;
    }
    write_u32(out, v.len() as u32);
    let ghost base = out@;
    let mut i: usize = 0;
    while i < v.len()
        invariant
            i <= v@.len(),
            v@.len() <= u32::MAX,
            out@ == base + enc_items_pubkey(model_vec_pubkey(v@).take(i as int)),
        decreases v@.len() - i,
    {
        write_pubkey(out, &v[i]);
        proof {
            assert(model_vec_pubkey(v@).take(i + 1).drop_last() =~= model_vec_pubkey(v@).take(i as int));
            assert(model_vec_pubkey(v@).take(i + 1).last() == model_vec_pubkey(v@)[i as int]);
        }
        i = i + 1;
    }
    proof {
        assert(model_vec_pubkey(v@).take(v@.len() as int) =~= model_vec_pubkey(v@));
    }
    true
}


pub proof fn lemma_items_pubkey(xs: Seq<Pubkey>, rest: Seq<u8>)
    requires
        true,
    ensures
        dec_items_pubkey(enc_items_pubkey(xs) + rest, xs.len()) == Some((xs, rest)),
    decreases xs.len(),
{
    if xs.len() == 0 {
        assert(enc_items_pubkey(xs) + rest =~= rest);
        assert(xs =~= Seq::<Pubkey>::empty());
    } else {
        let init = xs.drop_last();
        let last = xs.last();
        assert forall|i: int| 0 <= i < init.len() implies init[i] == xs[i] by {}
        lemma_items_pubkey(init, enc_pubkey(last) + rest);
        assert(enc_items_pubkey(xs) + rest =~= enc_items_pubkey(init) + (enc_pubkey(last) + rest));
        lemma_pubkey(last, rest);
        assert(init.push(last) =~= xs);
    }
}

pub proof fn lemma_vec_pubkey(xs: Seq<Pubkey>, rest: Seq<u8>)
    requires
        fits_vec_pubkey(xs),
    ensures
        dec_vec_pubkey(enc_vec_pubkey(xs) + rest) == Some((xs, rest)),
{
    assert(enc_vec_pubkey(xs) + rest =~= enc_u32(xs.len() as u32) + (enc_items_pubkey(xs) + rest));
    lemma_u32(xs.len() as u32, enc_items_pubkey(xs) + rest);
    lemma_items_pubkey(xs, rest);
}


pub open spec fn enc_opt_arr32(o: Option<[u8; 32]>) -> Seq<u8> {
    match o {
        None => seq![0u8],
        Some(x) => seq![1u8] + enc_arr::<32>(x),
    }
}

pub open spec fn dec_opt_arr32(s: Seq<u8>) -> Option<(Option<[u8; 32]>, Seq<u8>)> {
    if s.len() >= 1 && s[0] == 0 {
        Some((None, s.skip(1)))
    } else if s.len() >= 1 && s[0] == 1 {
        match dec_arr::<32>(s.skip(1)) {
            Some((x, r)) => Some((Some(x), r)),
            None => None,
        }
    } else {
        None
    }
}


pub fn read_opt_arr32(d: &[u8], pos: usize) -> (r: Option<(Option<[u8; 32]>, usize)>)
    requires
        pos <= d@.len(),
    ensures
        read_ok(dec_opt_arr32(d@.skip(pos as int)), r, d@),
{
    match read_u8(d, pos) {
        None => None,
        Some((tag, p)) => {
            proof {
                lemma_skip_skip(d@, pos as int, 1);
            }
            if tag == 0 {
                Some((None, p))
            } else if tag == 1 {
                match read_arr::<32>(d, p) {
                    None => None,
                    Some((x, p2)) => Some((Some(x), p2)),
                }
            } else {
                None
            }
        },
    }
}


pub fn write_opt_arr32(out: &mut Vec<u8>, o: &Option<[u8; 32]>)
    ensures
        final(out)@ == old(out)@ + enc_opt_arr32(*o),
{
    match o {
        None => {
            out.push(0u8);
        },
        Some(x) => {
            out.push(1u8);
            write_arr::<32>(out, x);
        },
    }
    assert(final(out)@ =~= old(out)@ + enc_opt_arr32(*o));
}


pub proof fn lemma_opt_arr32(o: Option<[u8; 32]>, rest: Seq<u8>)
    ensures
        dec_opt_arr32(enc_opt_arr32(o) + rest) == Some((o, rest)),
{
    match o {
        None => {
            assert((seq![0u8] + rest).skip(1) =~= rest);
        },
        Some(x) => {
            assert((seq![1u8] + enc_arr::<32>(x) + rest).skip(1) =~= enc_arr::<32>(x) + rest);
            lemma_arr::<32>(x, rest);
        },
    }
}


pub open spec fn enc_opt_pubkey(o: Option<Pubkey>) -> Seq<u8> {
    match o {
        None => seq![0u8],
        Some(x) => seq![1u8] + enc_pubkey(x),
    }
}

pub open spec fn dec_opt_pubkey(s: Seq<u8>) -> Option<(Option<Pubkey>, Seq<u8>)> {
    if s.len() >= 1 && s[0] == 0 {
        Some((None, s.skip(1)))
    } else if s.len() >= 1 && s[0] == 1 {
        match dec_pubkey(s.skip(1)) {
            Some((x, r)) => Some((Some(x), r)),
            None => None,
        }
    } else {
        None
    }
}


pub fn read_opt_pubkey(d: &[u8], pos: usize) -> (r: Option<(Option<Pubkey>, usize)>)
    requires
        pos <= d@.len(),
    ensures
        read_ok(dec_opt_pubkey(d@.skip(pos as int)), r, d@),
{
    match read_u8(d, pos) {
        None => None,
        Some((tag, p)) => {
            proof {
                lemma_skip_skip(d@, pos as int, 1);
            }
            if tag == 0 {
                Some((None, p))
            } else if tag == 1 {
                match read_pubkey(d, p) {
                    None => None,
                    Some((x, p2)) => Some((Some(x), p2)),
                }
            } else {
                None
            }
        },
    }
}


pub fn write_opt_pubkey(out: &mut Vec<u8>, o: &Option<Pubkey>)
    ensures
        final(out)@ == old(out)@ + enc_opt_pubkey(*o),
{
    match o {
        None => {
            out.push(0u8);
        },
        Some(x) => {
            out.push(1u8);
            write_pubkey(out, x);
        },
    }
    assert(final(out)@ =~= old(out)@ + enc_opt_pubkey(*o));
}


pub proof fn lemma_opt_pubkey(o: Option<Pubkey>, rest: Seq<u8>)
    ensures
        dec_opt_pubkey(enc_opt_pubkey(o) + rest) == Some((o, rest)),
{
    match o {
        None => {
            assert((seq![0u8] + rest).skip(1) =~= rest);
        },
        Some(x) => {
            assert((seq![1u8] + enc_pubkey(x) + rest).skip(1) =~= enc_pubkey(x) + rest);
            lemma_pubkey(x, rest);
        },
    }
}


pub open spec fn enc_opt_u16(o: Option<u16>) -> Seq<u8> {
    match o {
        None => seq![0u8],
        Some(x) => seq![1u8] + enc_u16(x),
    }
}

pub open spec fn dec_opt_u16(s: Seq<u8>) -> Option<(Option<u16>, Seq<u8>)> {
    if s.len() >= 1 && s[0] == 0 {
        Some((None, s.skip(1)))
    } else if s.len() >= 1 && s[0] == 1 {
        match dec_u16(s.skip(1)) {
            Some((x, r)) => Some((Some(x), r)),
            None => None,
        }
    } else {
        None
    }
}


pub fn read_opt_u16(d: &[u8], pos: usize) -> (r: Option<(Option<u16>, usize)>)
    requires
        pos <= d@.len(),
    ensures
        read_ok(dec_opt_u16(d@.skip(pos as int)), r, d@),
{
    match read_u8(d, pos) {
        None => None,
        Some((tag, p)) => {
            proof {
                lemma_skip_skip(d@, pos as int, 1);
            }
            if tag == 0 {
                Some((None, p))
            } else if tag == 1 {
                match read_u16(d, p) {
                    None => None,
                    Some((x, p2)) => Some((Some(x), p2)),
                }
            } else {
                None
            }
        },
    }
}


pub fn write_opt_u16(out: &mut Vec<u8>, o: &Option<u16>)
    ensures
        final(out)@ == old(out)@ + enc_opt_u16(*o),
{
    match o {
        None => {
            out.push(0u8);
        },
        Some(x) => {
            out.push(1u8);
            write_u16(out, *x);
        },
    }
    assert(final(out)@ =~= old(out)@ + enc_opt_u16(*o));
}


pub proof fn lemma_opt_u16(o: Option<u16>, rest: Seq<u8>)
    ensures
        dec_opt_u16(enc_opt_u16(o) + rest) == Some((o, rest)),
{
    match o {
        None => {
            assert((seq![0u8] + rest).skip(1) =~= rest);
        },
        Some(x) => {
            assert((seq![1u8] + enc_u16(x) + rest).skip(1) =~= enc_u16(x) + rest);
            lemma_u16(x, rest);
        },
    }
}


pub open spec fn enc_opt_u128(o: Option<u128>) -> Seq<u8> {
    match o {
        None => seq![0u8],
        Some(x) => seq![1u8] + enc_u128(x),
    }
}

pub open spec fn dec_opt_u128(s: Seq<u8>) -> Option<(Option<u128>, Seq<u8>)> {
    if s.len() >= 1 && s[0] == 0 {
        Some((None, s.skip(1)))
    } else if s.len() >= 1 && s[0] == 1 {
        match dec_u128(s.skip(1)) {
            Some((x, r)) => Some((Some(x), r)),
            None => None,
        }
    } else {
        None
    }
}


pub fn read_opt_u128(d: &[u8], pos: usize) -> (r: Option<(Option<u128>, usize)>)
    requires
        pos <= d@.len(),
    ensures
        read_ok(dec_opt_u128(d@.skip(pos as int)), r, d@),
{
    match read_u8(d, pos) {
        None => None,
        Some((tag, p)) => {
            proof {
                lemma_skip_skip(d@, pos as int, 1);
            }
            if tag == 0 {
                Some((None, p))
            } else if tag == 1 {
                match read_u128(d, p) {
                    None => None,
                    Some((x, p2)) => Some((Some(x), p2)),
                }
            } else {
                None
            }
        },
    }
}


pub fn write_opt_u128(out: &mut Vec<u8>, o: &Option<u128>)
    ensures
        final(out)@ == old(out)@ + enc_opt_u128(*o),
{
    match o {
        None => {
            out.push(0u8);
        },
        Some(x) => {
            out.push(1u8);
            write_u128(out, *x);
        },
    }
    assert(final(out)@ =~= old(out)@ + enc_opt_u128(*o));
}


pub proof fn lemma_opt_u128(o: Option<u128>, rest: Seq<u8>)
    ensures
        dec_opt_u128(enc_opt_u128(o) + rest) == Some((o, rest)),
{
    match o {
        None => {
            assert((seq![0u8] + rest).skip(1) =~= rest);
        },
        Some(x) => {
            assert((seq![1u8] + enc_u128(x) + rest).skip(1) =~= enc_u128(x) + rest);
            lemma_u128(x, rest);
        },
    }
}


pub open spec fn enc_opt_string(o: Option<Seq<char>>) -> Seq<u8> {
    match o {
        None => seq![0u8],
        Some(x) => seq![1u8] + enc_string(x),
    }
}

pub open spec fn dec_opt_string(s: Seq<u8>) -> Option<(Option<Seq<char>>, Seq<u8>)> {
    if s.len() >= 1 && s[0] == 0 {
        Some((None, s.skip(1)))
    } else if s.len() >= 1 && s[0] == 1 {
        match dec_string(s.skip(1)) {
            Some((x, r)) => Some((Some(x), r)),
            None => None,
        }
    } else {
        None
    }
}


pub open spec fn model_opt_string(o: Option<String>) -> Option<Seq<char>> {
    match o {
        None => None,
        Some(x) => Some(x@),
    }
}


pub open spec fn fits_opt_string(o: Option<Seq<char>>) -> bool {
    match o {
        None => true,
        Some(x) => fits_string(x),
    }
}


pub fn read_opt_string(d: &[u8], pos: usize) -> (r: Option<(Option<String>, usize)>)
    requires
        pos <= d@.len(),
    ensures
        match r {
            None => dec_opt_string(d@.skip(pos as int)) is None,
            Some((v, p)) => p <= d@.len() && dec_opt_string(d@.skip(pos as int)) == Some((model_opt_string(v), d@.skip(p as int))),
        },
{
    match read_u8(d, pos) {
        None => None,
        Some((tag, p)) => {
            proof {
                lemma_skip_skip(d@, pos as int, 1);
            }
            if tag == 0 {
                Some((None, p))
            } else if tag == 1 {
                match read_string(d, p) {
                    None => None,
                    Some((x, p2)) => Some((Some(x), p2)),
                }
            } else {
                None
            }
        },
    }
}


pub fn write_opt_string(out: &mut Vec<u8>, o: &Option<String>) -> (ok: bool)
    ensures
        ok == fits_opt_string(model_opt_string(*o)),
        ok ==> final(out)@ == old(out)@ + enc_opt_string(model_opt_string(*o)),
{
    match o {
        None => {
            out.push(0u8);
        },
        Some(x) => {
            out.push(1u8);
            if !write_string(out, x) { return false; }
        },
    }
    assert(final(out)@ =~= old(out)@ + enc_opt_string(model_opt_string(*o)));
    true
}


pub proof fn lemma_opt_string(o: Option<Seq<char>>, rest: Seq<u8>)
    requires
        fits_opt_string(o),
    ensures
        dec_opt_string(enc_opt_string(o) + rest) == Some((o, rest)),
{
    match o {
        None => {
            assert((seq![0u8] + rest).skip(1) =~= rest);
        },
        Some(x) => {
            assert((seq![1u8] + enc_string(x) + rest).skip(1) =~= enc_string(x) + rest);
            lemma_string(x, rest);
        },
    }
}


pub open spec fn enc_opt_u8(o: Option<u8>) -> Seq<u8> {
    match o {
        None => seq![0u8],
        Some(x) => seq![1u8] + enc_u8(x),
    }
}

pub open spec fn dec_opt_u8(s: Seq<u8>) -> Option<(Option<u8>, Seq<u8>)> {
    if s.len() >= 1 && s[0] == 0 {
        Some((None, s.skip(1)))
    } else if s.len() >= 1 && s[0] == 1 {
        match dec_u8(s.skip(1)) {
            Some((x, r)) => Some((Some(x), r)),
            None => None,
        }
    } else {
        None
    }
}


pub fn read_opt_u8(d: &[u8], pos: usize) -> (r: Option<(Option<u8>, usize)>)
    requires
        pos <= d@.len(),
    ensures
        read_ok(dec_opt_u8(d@.skip(pos as int)), r, d@),
{
    match read_u8(d, pos) {
        None => None,
        Some((tag, p)) => {
            proof {
                lemma_skip_skip(d@, pos as int, 1);
            }
            if tag == 0 {
                Some((None, p))
            } else if tag == 1 {
                match read_u8(d, p) {
                    None => None,
                    Some((x, p2)) => Some((Some(x), p2)),
                }
            } else {
                None
            }
        },
    }
}


pub fn write_opt_u8(out: &mut Vec<u8>, o: &Option<u8>)
    ensures
        final(out)@ == old(out)@ + enc_opt_u8(*o),
{
    match o {
        None => {
            out.push(0u8);
        },
        Some(x) => {
            out.push(1u8);
            write_u8(out, *x);
        },
    }
    assert(final(out)@ =~= old(out)@ + enc_opt_u8(*o));
}


pub proof fn lemma_opt_u8(o: Option<u8>, rest: Seq<u8>)
    ensures
        dec_opt_u8(enc_opt_u8(o) + rest) == Some((o, rest)),
{
    match o {
        None => {
            assert((seq![0u8] + rest).skip(1) =~= rest);
        },
        Some(x) => {
            assert((seq![1u8] + enc_u8(x) + rest).skip(1) =~= enc_u8(x) + rest);
            lemma_u8(x, rest);
        },
    }
}


pub open spec fn enc_opt_i64(o: Option<i64>) -> Seq<u8> {
    match o {
        None => seq![0u8],
        Some(x) => seq![1u8] + enc_i64(x),
    }
}

pub open spec fn dec_opt_i64(s: Seq<u8>) -> Option<(Option<i64>, Seq<u8>)> {
    if s.len() >= 1 && s[0] == 0 {
        Some((None, s.skip(1)))
    } else if s.len() >= 1 && s[0] == 1 {
        match dec_i64(s.skip(1)) {
            Some((x, r)) => Some((Some(x), r)),
            None => None,
        }
    } else {
        None
    }
}


pub fn read_opt_i64(d: &[u8], pos: usize) -> (r: Option<(Option<i64>, usize)>)
    requires
        pos <= d@.len(),
    ensures
        read_ok(dec_opt_i64(d@.skip(pos as int)), r, d@),
{
    match read_u8(d, pos) {
        None => None,
        Some((tag, p)) => {
            proof {
                lemma_skip_skip(d@, pos as int, 1);
            }
            if tag == 0 {
                Some((None, p))
            } else if tag == 1 {
                match read_i64(d, p) {
                    None => None,
                    Some((x, p2)) => Some((Some(x), p2)),
                }
            } else {
                None
            }
        },
    }
}


pub fn write_opt_i64(out: &mut Vec<u8>, o: &Option<i64>)
    ensures
        final(out)@ == old(out)@ + enc_opt_i64(*o),
{
    match o {
        None => {
            out.push(0u8);
        },
        Some(x) => {
            out.push(1u8);
            write_i64(out, *x);
        },
    }
    assert(final(out)@ =~= old(out)@ + enc_opt_i64(*o));
}


pub proof fn lemma_opt_i64(o: Option<i64>, rest: Seq<u8>)
    ensures
        dec_opt_i64(enc_opt_i64(o) + rest) == Some((o, rest)),
{
    match o {
        None => {
            assert((seq![0u8] + rest).skip(1) =~= rest);
        },
        Some(x) => {
            assert((seq![1u8] + enc_i64(x) + rest).skip(1) =~= enc_i64(x) + rest);
            lemma_i64(x, rest);
        },
    }
}

} // verus!
