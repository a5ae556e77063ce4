//! What holds of decoding and encoding attributes, one after the other.

use crate::byte_order::{host_u16_bytes, lemma_host_u16_bytes_of_value, lemma_host_u16_of_bytes};
use crate::error::DecodeError;
use crate::nla::{
    after_first_nla, all_fit, behind, check_nla, declared_length, first_nla,
    lemma_nlas_bytes_concat, lemma_nlas_single, nla_align, nlas_bytes, spec_parse_nlas, NlaView,
};
use vstd::prelude::*;

verus! {

/// Whether `bytes` are one attribute as [`NlaView::bytes`] lays it out: the
/// header, the value, and zeros up to the next multiple of four, with
/// nothing behind them.
#[verifier::opaque]
pub open spec fn is_one_nla(bytes: Seq<u8>) -> bool {
    &&& check_nla(bytes) is Ok
    &&& bytes.len() == nla_align(declared_length(bytes) as nat)
    &&& forall|i: int| declared_length(bytes) <= i < bytes.len() ==> bytes[i] == 0
}

/// Decoding finds an attribute again at the front of its own bytes,
/// whatever follows them, and goes on behind its padding.
pub proof fn lemma_first_nla_of_bytes(nla: NlaView, tail: Seq<u8>)
    requires
        nla.fits(),
    ensures
        check_nla(nla.bytes() + tail) is Ok,
        first_nla(nla.bytes() + tail) == nla,
        after_first_nla(nla.bytes() + tail) == tail,
        is_one_nla(nla.bytes()),
{
    let length = (nla.value.len() + 4) as u16;
    let bytes = nla.bytes() + tail;
    lemma_host_u16_of_bytes(length);
    lemma_host_u16_of_bytes(nla.kind);
    assert(bytes.subrange(0, 2) =~= host_u16_bytes(length));
    assert(bytes.subrange(2, 4) =~= host_u16_bytes(nla.kind));
    assert(first_nla(bytes).value =~= nla.value);
    assert(after_first_nla(bytes) =~= tail);
    lemma_one_nla_of_bytes(nla);
}

/// The bytes of an attribute are one attribute.
proof fn lemma_one_nla_of_bytes(nla: NlaView)
    requires
        nla.fits(),
    ensures
        is_one_nla(nla.bytes()),
{
    let length = (nla.value.len() + 4) as u16;
    reveal(is_one_nla);
    lemma_host_u16_of_bytes(length);
    lemma_host_u16_of_bytes(nla.kind);
    assert(nla.bytes().subrange(0, 2) =~= host_u16_bytes(length));
}

/// Decoding the bytes of an attribute and what follows them gives the
/// attribute, and behind it what the rest decodes to.
proof fn lemma_parse_nlas_step(first: NlaView, tail: Seq<u8>)
    requires
        first.fits(),
    ensures
        spec_parse_nlas(first.bytes() + tail) == behind(seq![first], spec_parse_nlas(tail)),
{
    lemma_first_nla_of_bytes(first, tail);
    let bytes = first.bytes() + tail;
    assert(bytes.len() >= 4) by {
        assert(check_nla(bytes) is Ok);
    }
}

/// Where all attributes of a row fit, the first fits and the others fit.
proof fn lemma_all_fit_skip_front(nlas: Seq<NlaView>)
    requires
        nlas.len() > 0,
        all_fit(nlas),
    ensures
        nlas[0].fits(),
        all_fit(nlas.skip(1)),
{
    let others = nlas.skip(1);
    assert forall|i: int| 0 <= i < others.len() implies (#[trigger] others[i]).fits() by {
        assert(others[i] == nlas[i + 1]);
    }
}

/// Behind no attribute, the attributes that follow are all there is.
proof fn lemma_behind_nothing(rest: Result<Seq<NlaView>, DecodeError>)
    ensures
        behind(Seq::empty(), rest) == rest,
{
    match rest {
        Ok(nlas) => {
            assert(Seq::<NlaView>::empty() + nlas =~= nlas);
        },
        Err(_) => {},
    }
}

/// What follows a row follows its first attribute and then the others.
proof fn lemma_behind_front(done: Seq<NlaView>, rest: Result<Seq<NlaView>, DecodeError>)
    requires
        done.len() > 0,
    ensures
        behind(seq![done[0]], behind(done.skip(1), rest)) == behind(done, rest),
{
    match rest {
        Ok(nlas) => {
            assert(seq![done[0]] + (done.skip(1) + nlas) =~= done + nlas);
        },
        Err(_) => {},
    }
}

/// The bytes of a row and what follows them are the bytes of its first
/// attribute and what follows those.
proof fn lemma_nlas_bytes_front(done: Seq<NlaView>, rest: Seq<u8>)
    requires
        done.len() > 0,
    ensures
        nlas_bytes(done) + rest == done[0].bytes() + (nlas_bytes(done.skip(1)) + rest),
{
    assert((done[0].bytes() + nlas_bytes(done.skip(1))) + rest =~= done[0].bytes() + (nlas_bytes(
        done.skip(1),
    ) + rest));
}

/// Decoding finds a row of attributes again at the front of its own bytes,
/// and goes on with what follows them.
pub proof fn lemma_parse_nlas_behind(done: Seq<NlaView>, rest: Seq<u8>)
    requires
        all_fit(done),
    ensures
        spec_parse_nlas(nlas_bytes(done) + rest) == behind(done, spec_parse_nlas(rest)),
    decreases done.len(),
{
    if done.len() == 0 {
        assert(nlas_bytes(done) + rest =~= rest);
        lemma_behind_nothing(spec_parse_nlas(rest));
        assert(done =~= Seq::<NlaView>::empty());
    } else {
        lemma_all_fit_skip_front(done);
        lemma_parse_nlas_behind(done.skip(1), rest);
        lemma_parse_nlas_step(done[0], nlas_bytes(done.skip(1)) + rest);
        lemma_nlas_bytes_front(done, rest);
        lemma_behind_front(done, spec_parse_nlas(rest));
    }
}

/// Decoding the bytes of a row of attributes gives the attributes again.
pub proof fn lemma_parse_nlas_of_bytes(nlas: Seq<NlaView>)
    requires
        all_fit(nlas),
    ensures
        spec_parse_nlas(nlas_bytes(nlas)) == Ok::<Seq<NlaView>, DecodeError>(nlas),
{
    lemma_parse_nlas_behind(nlas, Seq::empty());
    assert(nlas_bytes(nlas) + Seq::<u8>::empty() =~= nlas_bytes(nlas));
    assert(nlas + Seq::<NlaView>::empty() =~= nlas);
}

/// An attribute that declares more bytes than are left is refused as
/// truncated, wherever in a row of attributes it stands.
pub proof fn lemma_parse_nlas_truncated(done: Seq<NlaView>, rest: Seq<u8>)
    requires
        all_fit(done),
        rest.len() >= 4,
        declared_length(rest) > rest.len(),
    ensures
        spec_parse_nlas(nlas_bytes(done) + rest) == Err::<Seq<NlaView>, DecodeError>(
            DecodeError::TruncatedAttribute,
        ),
{
    lemma_parse_nlas_behind(done, rest);
}

/// An attribute that was read from bytes laid out as [`NlaView::bytes`]
/// lays them out is written back as the same bytes, whatever its kind.
pub proof fn lemma_bytes_of_first_nla(bytes: Seq<u8>)
    requires
        is_one_nla(bytes),
    ensures
        first_nla(bytes).fits(),
        first_nla(bytes).bytes() == bytes,
{
    let nla = first_nla(bytes);
    reveal(is_one_nla);
    lemma_host_u16_bytes_of_value(bytes.subrange(0, 2));
    lemma_host_u16_bytes_of_value(bytes.subrange(2, 4));
    assert(nla.value.len() + 4 == declared_length(bytes));
    assert(nla.bytes() =~= bytes);
}

/// Whether `bytes` are a row of attributes as [`nlas_bytes`] lays them out:
/// each with its padding, and each padding made of zeros.
pub open spec fn is_nla_row(bytes: Seq<u8>) -> bool
    decreases bytes.len(),
{
    bytes.len() == 0 || {
        let aligned = nla_align(declared_length(bytes) as nat);
        &&& check_nla(bytes) is Ok
        &&& aligned <= bytes.len()
        &&& is_one_nla(bytes.take(aligned as int))
        &&& is_nla_row(bytes.skip(aligned as int))
    }
}

/// The first attribute of a row laid out as [`nlas_bytes`] lays it out is
/// written back as the front of the row, and the row goes on behind it.
proof fn lemma_front_of_nla_row(bytes: Seq<u8>)
    requires
        bytes.len() > 0,
        is_nla_row(bytes),
    ensures
        first_nla(bytes).fits(),
        first_nla(bytes).bytes() == bytes.take(nla_align(declared_length(bytes) as nat) as int),
        after_first_nla(bytes) == bytes.skip(nla_align(declared_length(bytes) as nat) as int),
{
    let aligned = nla_align(declared_length(bytes) as nat) as int;
    let head = bytes.take(aligned);
    assert(head.subrange(0, 2) =~= bytes.subrange(0, 2));
    assert(head.subrange(2, 4) =~= bytes.subrange(2, 4));
    assert(first_nla(head).value =~= first_nla(bytes).value);
    lemma_bytes_of_first_nla(head);
    assert(after_first_nla(bytes) =~= bytes.skip(aligned));
}

/// The attributes of bytes that start with an attribute are that attribute
/// and the attributes of what follows it.
proof fn lemma_parse_nlas_front(bytes: Seq<u8>)
    requires
        bytes.len() > 0,
        check_nla(bytes) is Ok,
        spec_parse_nlas(after_first_nla(bytes)) is Ok,
    ensures
        spec_parse_nlas(bytes) == Ok::<Seq<NlaView>, DecodeError>(
            seq![first_nla(bytes)] + spec_parse_nlas(after_first_nla(bytes))->Ok_0,
        ),
{
}

/// One attribute that fits before a row of attributes that fit makes a row
/// of attributes that fit.
proof fn lemma_all_fit_push_front(first: NlaView, rest: Seq<NlaView>)
    requires
        first.fits(),
        all_fit(rest),
    ensures
        all_fit(seq![first] + rest),
{
    let nlas = seq![first] + rest;
    assert forall|i: int| 0 <= i < nlas.len() implies (#[trigger] nlas[i]).fits() by {
        if i > 0 {
            assert(nlas[i] == rest[i - 1]);
        }
    }
}

/// Where the bytes of an attribute and the bytes of a row are the two parts
/// of `bytes`, the attribute before the row has `bytes` for its bytes.
proof fn lemma_nlas_bytes_push_front(bytes: Seq<u8>, first: NlaView, rest: Seq<NlaView>, at: int)
    requires
        0 <= at <= bytes.len(),
        first.bytes() == bytes.take(at),
        nlas_bytes(rest) == bytes.skip(at),
    ensures
        nlas_bytes(seq![first] + rest) == bytes,
{
    lemma_nlas_bytes_concat(seq![first], rest);
    lemma_nlas_single(first);
    assert(bytes.take(at) + bytes.skip(at) =~= bytes);
}

/// A row laid out as [`nlas_bytes`] lays it out decodes to its first
/// attribute and the attributes of the rest of the row.
proof fn lemma_parse_nla_row(bytes: Seq<u8>)
    requires
        bytes.len() > 0,
        is_nla_row(bytes),
        spec_parse_nlas(bytes.skip(nla_align(declared_length(bytes) as nat) as int)) is Ok,
    ensures
        spec_parse_nlas(bytes) == Ok::<Seq<NlaView>, DecodeError>(
            seq![first_nla(bytes)] + spec_parse_nlas(
                bytes.skip(nla_align(declared_length(bytes) as nat) as int),
            )->Ok_0,
        ),
{
    lemma_front_of_nla_row(bytes);
    lemma_parse_nlas_front(bytes);
}

/// The first attribute of a row laid out as [`nlas_bytes`] lays it out,
/// before attributes that are written back as the rest of the row, is
/// written back as the row.
proof fn lemma_nla_row_bytes(bytes: Seq<u8>, rest: Seq<NlaView>)
    requires
        bytes.len() > 0,
        is_nla_row(bytes),
        all_fit(rest),
        nlas_bytes(rest) == bytes.skip(nla_align(declared_length(bytes) as nat) as int),
    ensures
        all_fit(seq![first_nla(bytes)] + rest),
        nlas_bytes(seq![first_nla(bytes)] + rest) == bytes,
{
    let first = first_nla(bytes);
    lemma_front_of_nla_row(bytes);
    lemma_all_fit_push_front(first, rest);
    let at = nla_align(declared_length(bytes) as nat) as int;
    lemma_nlas_bytes_push_front(bytes, first, rest, at);
}

/// A row of attributes that was read from bytes laid out as [`nlas_bytes`]
/// lays them out is written back as the same bytes, whatever the kinds.
pub proof fn lemma_nlas_bytes_of_parse(bytes: Seq<u8>)
    requires
        is_nla_row(bytes),
    ensures
        spec_parse_nlas(bytes) is Ok,
        all_fit(spec_parse_nlas(bytes)->Ok_0),
        nlas_bytes(spec_parse_nlas(bytes)->Ok_0) == bytes,
    decreases bytes.len(),
{
    if bytes.len() == 0 {
        assert(nlas_bytes(Seq::<NlaView>::empty()) =~= bytes);
    } else {
        let tail = bytes.skip(nla_align(declared_length(bytes) as nat) as int);
        lemma_nlas_bytes_of_parse(tail);
        lemma_parse_nla_row(bytes);
        lemma_nla_row_bytes(bytes, spec_parse_nlas(tail)->Ok_0);
    }
}

} // verus!
