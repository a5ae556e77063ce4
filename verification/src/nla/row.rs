//! Rows of attributes: one after the other, each at a multiple of four.

use crate::byte_order::{lemma_host_u16_of_bytes, overwrite};
use crate::error::DecodeError;
use crate::nla::{after_first_nla, check_nla, first_nla, Nla, NlaView, NlasIterator};
use vstd::prelude::*;

verus! {

/// The attributes of a family as the wire shows them, in their order.
pub open spec fn nla_views<T: Nla>(nlas: Seq<T>) -> Seq<NlaView> {
    nlas.map_values(|nla: T| nla@)
}

/// Whether the length field can frame each of the attributes.
pub open spec fn all_fit(nlas: Seq<NlaView>) -> bool {
    forall|i: int| 0 <= i < nlas.len() ==> (#[trigger] nlas[i]).fits()
}

/// The bytes that the attributes take together.
pub open spec fn spec_nlas_buffer_len(nlas: Seq<NlaView>) -> nat
    decreases nlas.len(),
{
    if nlas.len() == 0 {
        0
    } else {
        nlas[0].buffer_len() + spec_nlas_buffer_len(nlas.skip(1))
    }
}

/// The attributes on the wire, one after the other.
pub open spec fn nlas_bytes(nlas: Seq<NlaView>) -> Seq<u8>
    decreases nlas.len(),
{
    if nlas.len() == 0 {
        Seq::empty()
    } else {
        nlas[0].bytes() + nlas_bytes(nlas.skip(1))
    }
}

/// The attributes that fill `bytes`, or the reason why the bytes are not a
/// row of attributes: the first check that fails, going from the front.
pub open spec fn spec_parse_nlas(bytes: Seq<u8>) -> Result<Seq<NlaView>, DecodeError>
    decreases bytes.len(),
{
    if bytes.len() == 0 {
        Ok(Seq::empty())
    } else {
        match check_nla(bytes) {
            Err(e) => Err(e),
            Ok(_) => match spec_parse_nlas(after_first_nla(bytes)) {
                Err(e) => Err(e),
                Ok(rest) => Ok(seq![first_nla(bytes)] + rest),
            },
        }
    }
}

/// The result of decoding what follows, behind the attributes that have
/// been decoded already.
pub open spec fn behind(
    done: Seq<NlaView>,
    rest: Result<Seq<NlaView>, DecodeError>,
) -> Result<Seq<NlaView>, DecodeError> {
    match rest {
        Ok(nlas) => Ok(done + nlas),
        Err(e) => Err(e),
    }
}

/// The bytes of one row of attributes behind another are the bytes of the
/// one behind the bytes of the other.
pub proof fn lemma_nlas_bytes_concat(a: Seq<NlaView>, b: Seq<NlaView>)
    ensures
        nlas_bytes(a + b) == nlas_bytes(a) + nlas_bytes(b),
    decreases a.len(),
{
    if a.len() == 0 {
        assert(a + b =~= b);
        assert(nlas_bytes(a) + nlas_bytes(b) =~= nlas_bytes(b));
    } else {
        lemma_nlas_bytes_concat(a.skip(1), b);
        assert((a + b).skip(1) =~= a.skip(1) + b);
        assert((a + b)[0] == a[0]);
        assert(nlas_bytes(a + b) =~= nlas_bytes(a) + nlas_bytes(b));
    }
}

/// A row of attributes takes as many bytes as its lengths add up to.
pub proof fn lemma_nlas_bytes_len(nlas: Seq<NlaView>)
    ensures
        nlas_bytes(nlas).len() == spec_nlas_buffer_len(nlas),
    decreases nlas.len(),
{
    if nlas.len() > 0 {
        lemma_nlas_bytes_len(nlas.skip(1));
        lemma_host_u16_of_bytes((nlas[0].value.len() + 4) as u16);
        lemma_host_u16_of_bytes(nlas[0].kind);
    }
}

/// The first `i + 1` attributes take the bytes of the first `i` and of the
/// next one, and no more than all of them take.
pub proof fn lemma_nlas_prefix(nlas: Seq<NlaView>, i: int)
    requires
        0 <= i < nlas.len(),
    ensures
        nlas_bytes(nlas.take(i + 1)) == nlas_bytes(nlas.take(i)) + nlas[i].bytes(),
        spec_nlas_buffer_len(nlas.take(i + 1)) == spec_nlas_buffer_len(nlas.take(i))
            + nlas[i].buffer_len(),
        spec_nlas_buffer_len(nlas.take(i + 1)) <= spec_nlas_buffer_len(nlas),
{
    let one = seq![nlas[i]];
    assert(nlas.take(i + 1) =~= nlas.take(i) + one);
    assert(nlas =~= nlas.take(i + 1) + nlas.skip(i + 1));
    lemma_nlas_bytes_concat(nlas.take(i), one);
    lemma_nlas_bytes_concat(nlas.take(i + 1), nlas.skip(i + 1));
    lemma_nlas_bytes_len(nlas);
    lemma_nlas_bytes_len(nlas.take(i));
    lemma_nlas_bytes_len(nlas.take(i + 1));
    lemma_nlas_bytes_len(nlas.skip(i + 1));
    lemma_nlas_bytes_len(one);
    lemma_nlas_single(nlas[i]);
}

/// A row of one attribute is that attribute.
pub proof fn lemma_nlas_single(nla: NlaView)
    ensures
        nlas_bytes(seq![nla]) == nla.bytes(),
        spec_nlas_buffer_len(seq![nla]) == nla.buffer_len(),
{
    let one = seq![nla];
    assert(one.skip(1) =~= Seq::<NlaView>::empty());
    assert(nlas_bytes(one.skip(1)) =~= Seq::<u8>::empty());
    assert(spec_nlas_buffer_len(one.skip(1)) == 0);
    assert(nlas_bytes(one) =~= nla.bytes());
}

/// Decodes the attributes that fill `buffer`, in their order.
pub fn parse_nlas<T: Nla>(buffer: &[u8]) -> (r: Result<Vec<T>, DecodeError>)
    ensures
        match r {
            Ok(nlas) => spec_parse_nlas(buffer@) == Ok::<Seq<NlaView>, DecodeError>(
                nla_views(nlas@),
            ),
            Err(e) => spec_parse_nlas(buffer@) == Err::<Seq<NlaView>, DecodeError>(e),
        },
{
    let mut nlas: Vec<T> = Vec::new();
    let mut iter = NlasIterator::new(buffer);
    assert(nla_views(nlas@) =~= Seq::<NlaView>::empty());
    loop
        invariant
            spec_parse_nlas(buffer@) == behind(nla_views(nlas@), spec_parse_nlas(iter@)),
        decreases iter@.len(),
    {
        let ghost before = iter@;
        let ghost done = nla_views(nlas@);
        match iter.next() {
            None => {
                assert(done + Seq::<NlaView>::empty() =~= done);
                return Ok(nlas);
            },
            Some(Err(e)) => {
                return Err(e);
            },
            Some(Ok(buf)) => {
                match T::parse(&buf) {
                    Err(e) => {
                        return Err(e);
                    },
                    Ok(nla) => {
                        nlas.push(nla);
                        assert(nla_views(nlas@) =~= done + seq![first_nla(before)]);
                        assert forall|rest: Seq<NlaView>|
                            done + (seq![first_nla(before)] + rest) == nla_views(nlas@)
                                + rest by {
                            assert(done + (seq![first_nla(before)] + rest) =~= nla_views(nlas@)
                                + rest);
                        }
                    },
                }
            },
        }
    }
}

/// Whether the length field of each attribute can frame its value.
pub fn nlas_fit<T: Nla>(nlas: &[T]) -> (fit: bool)
    ensures
        fit == all_fit(nla_views(nlas@)),
{
    let mut i: usize = 0;
    while i < nlas.len()
        invariant
            i <= nlas.len(),
            forall|j: int| 0 <= j < i ==> (#[trigger] nla_views(nlas@)[j]).fits(),
        decreases nlas.len() - i,
    {
        if !nlas[i].fits() {
            assert(!nla_views(nlas@)[i as int].fits());
            return false;
        }
        i += 1;
    }
    true
}

/// The bytes that the attributes take together, unless they are more than
/// a `usize` can count.
pub fn checked_nlas_buffer_len<T: Nla>(nlas: &[T]) -> (len: Option<usize>)
    ensures
        match len {
            Some(n) => n == spec_nlas_buffer_len(nla_views(nlas@)),
            None => spec_nlas_buffer_len(nla_views(nlas@)) > usize::MAX,
        },
{
    let ghost views = nla_views(nlas@);
    let mut len: usize = 0;
    let mut i: usize = 0;
    assert(views.take(0) =~= Seq::<NlaView>::empty());
    while i < nlas.len()
        invariant
            i <= nlas.len(),
            views == nla_views(nlas@),
            len == spec_nlas_buffer_len(views.take(i as int)),
        decreases nlas.len() - i,
    {
        proof {
            lemma_nlas_prefix(views, i as int);
        }
        let value_len = nlas[i].value_len();
        if value_len > usize::MAX - 7 {
            return None;
        }
        let attr_len = nlas[i].buffer_len();
        if attr_len > usize::MAX - len {
            return None;
        }
        len = len + attr_len;
        i += 1;
    }
    assert(views.take(i as int) =~= views);
    Some(len)
}

/// The bytes that the attributes take together.
pub fn nlas_buffer_len<T: Nla>(nlas: &[T]) -> (len: usize)
    requires
        spec_nlas_buffer_len(nla_views(nlas@)) <= usize::MAX,
    ensures
        len == spec_nlas_buffer_len(nla_views(nlas@)),
{
    let ghost views = nla_views(nlas@);
    let mut len: usize = 0;
    let mut i: usize = 0;
    assert(views.take(0) =~= Seq::<NlaView>::empty());
    while i < nlas.len()
        invariant
            i <= nlas.len(),
            views == nla_views(nlas@),
            spec_nlas_buffer_len(views) <= usize::MAX,
            len == spec_nlas_buffer_len(views.take(i as int)),
        decreases nlas.len() - i,
    {
        proof {
            lemma_nlas_prefix(views, i as int);
        }
        len = len + nlas[i].buffer_len();
        i += 1;
    }
    assert(views.take(i as int) =~= views);
    len
}

/// Writes the attributes one after the other, from `offset` on. Every other
/// byte of `buffer` stays as it was.
pub fn emit_nlas_at<T: Nla>(nlas: &[T], buffer: &mut [u8], offset: usize)
    requires
        all_fit(nla_views(nlas@)),
        offset + spec_nlas_buffer_len(nla_views(nlas@)) <= old(buffer).len(),
    ensures
        final(buffer)@ == overwrite(old(buffer)@, offset as int, nlas_bytes(nla_views(nlas@))),
{
    let ghost views = nla_views(nlas@);
    let mut start: usize = offset;
    let mut i: usize = 0;
    assert(views.take(0) =~= Seq::<NlaView>::empty());
    assert(buffer@ =~= overwrite(buffer@, offset as int, Seq::<u8>::empty()));
    while i < nlas.len()
        invariant
            i <= nlas.len(),
            views == nla_views(nlas@),
            all_fit(views),
            buffer.len() == old(buffer).len(),
            offset + spec_nlas_buffer_len(views) <= buffer.len(),
            start == offset + spec_nlas_buffer_len(views.take(i as int)),
            buffer@ == overwrite(old(buffer)@, offset as int, nlas_bytes(views.take(i as int))),
        decreases nlas.len() - i,
    {
        proof {
            lemma_nlas_prefix(views, i as int);
            lemma_nlas_bytes_len(views.take(i as int));
            lemma_nlas_bytes_len(views.take(i + 1));
            assert(views[i as int].fits());
        }
        let ghost before = buffer@;
        let nla = &nlas[i];
        let attr_len = nla.buffer_len();
        nla.emit_at(buffer, start);
        assert(buffer@ =~= overwrite(
            old(buffer)@,
            offset as int,
            nlas_bytes(views.take(i + 1)),
        ));
        start = start + attr_len;
        i += 1;
    }
    assert(views.take(i as int) =~= views);
}

/// Writes the attributes one after the other at the start of `buffer`.
pub fn emit_nlas<T: Nla>(nlas: &[T], buffer: &mut [u8])
    requires
        all_fit(nla_views(nlas@)),
        spec_nlas_buffer_len(nla_views(nlas@)) <= old(buffer).len(),
    ensures
        final(buffer)@ == overwrite(old(buffer)@, 0, nlas_bytes(nla_views(nlas@))),
{
    emit_nlas_at(nlas, buffer, 0)
}

} // verus!
