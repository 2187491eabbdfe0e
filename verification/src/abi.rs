//! Canonical ABI-style binary encoding: the deterministic word-oriented
//! layout shared by the off-chain tool and an on-chain verifier.
//!
//! Values are laid out in 32-byte words.  Dynamic values (`bytes`, `string`,
//! arrays) are encoded as a tail introduced by a length word, and referred
//! to from their enclosing sequence by an offset word.  The spec functions
//! here define the byte layout; the executable builders are proved to
//! produce exactly those bytes.

use vstd::prelude::*;
use vstd::slice::slice_to_vec;
use vstd::utf8::encode_utf8;

verus! {

/// Big-endian bytes of `n` (taken modulo `256^k`), exactly `k` bytes.
pub open spec fn be_bytes(n: nat, k: nat) -> Seq<u8>
    decreases k,
{
    if k == 0 {
        Seq::empty()
    } else {
        be_bytes(n / 256, (k - 1) as nat).push((n % 256) as u8)
    }
}

pub broadcast proof fn lemma_be_bytes_len(n: nat, k: nat)
    ensures
        (#[trigger] be_bytes(n, k)).len() == k,
    decreases k,
{
    if k > 0 {
        lemma_be_bytes_len(n / 256, (k - 1) as nat);
    }
}

/// One 32-byte ABI word holding `n`, big-endian, left-padded with zeros.
pub open spec fn abi_word(n: nat) -> Seq<u8> {
    be_bytes(n, 32)
}

/// `k` zero bytes.
pub open spec fn zeros(k: nat) -> Seq<u8> {
    Seq::new(k, |i: int| 0u8)
}

/// Zero bytes needed to pad `n` bytes up to a multiple of 32.
pub open spec fn pad_len(n: nat) -> nat {
    ((32 - (n % 32)) % 32) as nat
}

/// `s` right-padded with zeros to a multiple of 32 bytes.
pub open spec fn pad32(s: Seq<u8>) -> Seq<u8> {
    s + zeros(pad_len(s.len()))
}

/// Tail encoding of dynamic `bytes`: a length word, then the bytes,
/// zero-padded to a word boundary.
pub open spec fn enc_bytes(s: Seq<u8>) -> Seq<u8> {
    abi_word(s.len()) + pad32(s)
}

/// Tail encoding of a dynamic `string`: its UTF-8 bytes encoded as `bytes`.
pub open spec fn enc_string(s: Seq<char>) -> Seq<u8> {
    enc_bytes(encode_utf8(s))
}

/// The 32-byte word holding a 20-byte account address: 12 zero bytes, then
/// the address bytes.
pub open spec fn addr_word(a: Seq<u8>) -> Seq<u8>
    recommends
        a.len() == 20,
{
    zeros(12) + a
}

/// Concatenation of already-encoded element tails, in order.
pub open spec fn concat_seqs(es: Seq<Seq<u8>>) -> Seq<u8>
    decreases es.len(),
{
    if es.len() == 0 {
        Seq::empty()
    } else {
        es[0] + concat_seqs(es.drop_first())
    }
}

/// One offset word per dynamic element: the first tail sits at `base`,
/// each following tail directly after the previous one.
pub open spec fn offset_heads(es: Seq<Seq<u8>>, base: nat) -> Seq<u8>
    decreases es.len(),
{
    if es.len() == 0 {
        Seq::empty()
    } else {
        abi_word(base) + offset_heads(es.drop_first(), base + es[0].len())
    }
}

/// Encoding of a dynamic array of dynamic elements: a length word, one
/// offset word per element (offsets relative to just after the length
/// word), then the element tails in order.
pub open spec fn enc_dyn_array(es: Seq<Seq<u8>>) -> Seq<u8> {
    abi_word(es.len()) + offset_heads(es, 32 * es.len()) + concat_seqs(es)
}

/// One word per `uint16` element, in order.
pub open spec fn u16_words(xs: Seq<u16>) -> Seq<u8>
    decreases xs.len(),
{
    if xs.len() == 0 {
        Seq::empty()
    } else {
        abi_word(xs[0] as nat) + u16_words(xs.drop_first())
    }
}

/// Encoding of a `uint16[]`: a length word, then one word per element.
pub open spec fn enc_u16_array(xs: Seq<u16>) -> Seq<u8> {
    abi_word(xs.len()) + u16_words(xs)
}

pub proof fn lemma_concat_seqs_snoc(es: Seq<Seq<u8>>, x: Seq<u8>)
    ensures
        concat_seqs(es.push(x)) == concat_seqs(es) + x,
    decreases es.len(),
{
    assert(concat_seqs(es.push(x)) == es.push(x)[0] + concat_seqs(es.push(x).drop_first()));
    if es.len() == 0 {
        assert(es.push(x)[0] == x);
        assert(es.push(x).drop_first() =~= Seq::<Seq<u8>>::empty());
        assert(x + Seq::<u8>::empty() =~= x);
        assert(concat_seqs(es) + x =~= x);
    } else {
        assert(es.push(x)[0] == es[0]);
        assert(es.push(x).drop_first() =~= es.drop_first().push(x));
        lemma_concat_seqs_snoc(es.drop_first(), x);
        assert(es[0] + (concat_seqs(es.drop_first()) + x) =~= (es[0] + concat_seqs(
            es.drop_first(),
        )) + x);
    }
}

pub proof fn lemma_offset_heads_snoc(es: Seq<Seq<u8>>, x: Seq<u8>, base: nat)
    ensures
        offset_heads(es.push(x), base) == offset_heads(es, base) + abi_word(
            base + concat_seqs(es).len(),
        ),
    decreases es.len(),
{
    if es.len() == 0 {
        assert(es.push(x).drop_first() =~= Seq::<Seq<u8>>::empty());
        assert(offset_heads(es.push(x), base) == abi_word(base) + offset_heads(
            Seq::<Seq<u8>>::empty(),
            base + x.len(),
        ));
        assert(abi_word(base) + Seq::<u8>::empty() =~= abi_word(base));
        assert(Seq::<u8>::empty() + abi_word(base) =~= abi_word(base));
    } else {
        assert(es.push(x).drop_first() =~= es.drop_first().push(x));
        lemma_offset_heads_snoc(es.drop_first(), x, base + es[0].len());
        assert(concat_seqs(es).len() == es[0].len() + concat_seqs(es.drop_first()).len());
        assert(abi_word(base) + (offset_heads(es.drop_first(), base + es[0].len()) + abi_word(
            base + concat_seqs(es).len(),
        )) =~= (abi_word(base) + offset_heads(es.drop_first(), base + es[0].len())) + abi_word(
            base + concat_seqs(es).len(),
        ));
    }
}

pub proof fn lemma_concat_seqs_index(es: Seq<Seq<u8>>, k: int, i: int)
    requires
        0 <= k < es.len(),
        0 <= i < es[k].len(),
    ensures
        concat_seqs(es.take(k)).len() + i < concat_seqs(es).len(),
        concat_seqs(es)[concat_seqs(es.take(k)).len() + i] == es[k][i],
    decreases k,
{
    assert(concat_seqs(es) == es[0] + concat_seqs(es.drop_first()));
    if k == 0 {
        assert(es.take(0) =~= Seq::<Seq<u8>>::empty());
    } else {
        assert(es.take(k)[0] == es[0]);
        assert(es.take(k).drop_first() =~= es.drop_first().take(k - 1));
        assert(concat_seqs(es.take(k)) == es[0] + concat_seqs(es.drop_first().take(k - 1)));
        assert(es.drop_first()[k - 1] == es[k]);
        lemma_concat_seqs_index(es.drop_first(), k - 1, i);
    }
}

pub proof fn lemma_offset_heads_len(es: Seq<Seq<u8>>, base: nat)
    ensures
        offset_heads(es, base).len() == 32 * es.len(),
    decreases es.len(),
{
    broadcast use lemma_be_bytes_len;

    if es.len() > 0 {
        lemma_offset_heads_len(es.drop_first(), base + es[0].len());
    }
}

pub proof fn lemma_u16_words_snoc(xs: Seq<u16>, x: u16)
    ensures
        u16_words(xs.push(x)) == u16_words(xs) + abi_word(x as nat),
    decreases xs.len(),
{
    assert(u16_words(xs.push(x)) == abi_word(xs.push(x)[0] as nat) + u16_words(
        xs.push(x).drop_first(),
    ));
    if xs.len() == 0 {
        assert(xs.push(x).drop_first() =~= Seq::<u16>::empty());
        assert(xs.push(x)[0] == x);
        assert(abi_word(x as nat) + Seq::<u8>::empty() =~= abi_word(x as nat));
        assert(Seq::<u8>::empty() + abi_word(x as nat) =~= abi_word(x as nat));
    } else {
        assert(xs.push(x)[0] == xs[0]);
        assert(xs.push(x).drop_first() =~= xs.drop_first().push(x));
        lemma_u16_words_snoc(xs.drop_first(), x);
        assert(abi_word(xs[0] as nat) + (u16_words(xs.drop_first()) + abi_word(x as nat)) =~= (
        abi_word(xs[0] as nat) + u16_words(xs.drop_first())) + abi_word(x as nat));
    }
}

/// Appends a copy of `src` to `out`.
pub fn append_slice(out: &mut Vec<u8>, src: &[u8])
    ensures
        final(out)@ == old(out)@ + src@,
{
    let mut tmp = slice_to_vec(src);
    out.append(&mut tmp);
}

fn be_encode(n: u128, k: usize) -> (r: Vec<u8>)
    ensures
        r@ == be_bytes(n as nat, k as nat),
    decreases k,
{
    if k == 0 {
        Vec::new()
    } else {
        let mut r = be_encode(n / 256, k - 1);
        r.push((n % 256) as u8);
        r
    }
}

/// Builds the 32-byte ABI word for `n`.
pub fn encode_word(n: u128) -> (r: Vec<u8>)
    ensures
        r@ == abi_word(n as nat),
        r@.len() == 32,
{
    let r = be_encode(n, 32);
    proof {
        broadcast use lemma_be_bytes_len;

    }
    r
}

/// Builds the tail encoding of dynamic `bytes`.
pub fn abi_encode_bytes(data: &[u8]) -> (r: Vec<u8>)
    ensures
        r@ == enc_bytes(data@),
{
    let mut r = encode_word(data.len() as u128);
    append_slice(&mut r, data);
    let pad: usize = (32 - (data.len() % 32)) % 32;
    let mut i: usize = 0;
    while i < pad
        invariant
            i <= pad,
            pad == pad_len(data@.len()),
            r@ == abi_word(data@.len()) + data@ + zeros(i as nat),
        decreases pad - i,
    {
        r.push(0u8);
        proof {
            assert(zeros((i + 1) as nat) =~= zeros(i as nat).push(0u8));
            assert((abi_word(data@.len()) + data@ + zeros(i as nat)).push(0u8) =~= abi_word(
                data@.len(),
            ) + data@ + zeros((i + 1) as nat));
        }
        i = i + 1;
    }
    proof {
        assert(r@ =~= enc_bytes(data@));
    }
    r
}

/// Builds the tail encoding of a dynamic `string` from its UTF-8 bytes.
pub fn abi_encode_string(s: &str) -> (r: Vec<u8>)
    ensures
        r@ == enc_string(s@),
{
    abi_encode_bytes(s.as_bytes())
}

/// Builds the 32-byte word for a 20-byte account address.
pub fn encode_addr_word(addr: &[u8]) -> (r: Vec<u8>)
    ensures
        r@ == addr_word(addr@),
{
    let mut r: Vec<u8> = Vec::new();
    let mut i: usize = 0;
    while i < 12
        invariant
            i <= 12,
            r@ == zeros(i as nat),
        decreases 12 - i,
    {
        r.push(0u8);
        proof {
            assert(zeros((i + 1) as nat) =~= zeros(i as nat).push(0u8));
        }
        i = i + 1;
    }
    append_slice(&mut r, addr);
    r
}

/// Builds the encoding of a dynamic array whose element tails are already
/// encoded: a length word, the offset words, then the tails.
pub fn encode_dyn_array(elems: &Vec<Vec<u8>>) -> (r: Vec<u8>)
    ensures
        r@ == enc_dyn_array(elems.deep_view()),
{
    let ghost dv: Seq<Seq<u8>> = elems.deep_view();
    proof {
        assert forall|i: int| 0 <= i < dv.len() implies dv[i] == elems@[i]@ by {
            assert(elems@[i].deep_view() =~= elems@[i]@);
        }
    }
    let n = elems.len();
    let base: u128 = 32u128 * (n as u128);
    let mut heads: Vec<u8> = Vec::new();
    let mut tails: Vec<u8> = Vec::new();
    let mut i: usize = 0;
    while i < n
        invariant
            i <= n,
            n == dv.len(),
            n == elems@.len(),
            dv == elems.deep_view(),
            base == 32 * n as u128,
            forall|j: int| 0 <= j < elems@.len() ==> dv[j] == elems@[j]@,
            heads@ == offset_heads(dv.take(i as int), base as nat),
            tails@ == concat_seqs(dv.take(i as int)),
        decreases n - i,
    {
        let off: u128 = base + (tails.len() as u128);
        proof {
            lemma_offset_heads_snoc(dv.take(i as int), dv[i as int], base as nat);
            lemma_concat_seqs_snoc(dv.take(i as int), dv[i as int]);
            assert(dv.take(i + 1) =~= dv.take(i as int).push(dv[i as int]));
        }
        let mut w = encode_word(off);
        heads.append(&mut w);
        append_slice(&mut tails, elems[i].as_slice());
        i = i + 1;
    }
    let mut r = encode_word(n as u128);
    r.append(&mut heads);
    r.append(&mut tails);
    proof {
        assert(dv.take(n as int) =~= dv);
        assert(r@ =~= enc_dyn_array(dv));
    }
    r
}

/// Builds the encoding of a `uint16[]`.
pub fn encode_u16_array(xs: &Vec<u16>) -> (r: Vec<u8>)
    ensures
        r@ == enc_u16_array(xs@),
{
    let n = xs.len();
    let mut body: Vec<u8> = Vec::new();
    let mut i: usize = 0;
    while i < n
        invariant
            i <= n,
            n == xs@.len(),
            body@ == u16_words(xs@.take(i as int)),
        decreases n - i,
    {
        proof {
            lemma_u16_words_snoc(xs@.take(i as int), xs@[i as int]);
            assert(xs@.take(i + 1) =~= xs@.take(i as int).push(xs@[i as int]));
        }
        let mut w = encode_word(xs[i] as u128);
        body.append(&mut w);
        i = i + 1;
    }
    let mut r = encode_word(n as u128);
    r.append(&mut body);
    proof {
        assert(xs@.take(n as int) =~= xs@);
        assert(r@ =~= enc_u16_array(xs@));
    }
    r
}

} // verus!
