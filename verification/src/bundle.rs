//! Bundle transactions: a signed container of payload bytes plus
//! ordered metadata tags.
//!
//! Wire form: an eight-byte little-endian signature length, the
//! signature, the tag section, then the payload. The tag section is an
//! eight-byte tag count followed, per tag, by the length-prefixed UTF-8
//! bytes of its name and of its value. The signature covers the tag
//! section and the payload, so tag order is significant.
//!
//! [`parse_tags`] inverts the tag section exactly: it accepts precisely
//! the encodings, and on the encoding of a tag sequence it returns that
//! sequence.

use vstd::prelude::*;
use vstd::utf8::{
    decode_utf8, decode_utf8_encode_utf8, encode_utf8, encode_utf8_decode_utf8,
    encode_utf8_valid_utf8, valid_utf8,
};

use crate::tags::{Tag, TagModel};
use crate::wire::{
    copy_range, le_bytes, lemma_le_bytes_len, lemma_le_bytes_value, lemma_le_value_bytes,
    lemma_pow256_8, pow256, push_u64_le, read_u64_le,
};

verus! {

/// A capability to sign byte payloads with a backend's private key
/// material. Supplied by a currency backend; the key itself is never
/// exposed to this crate.
pub trait Signer {
    fn sign(&self, message: &Vec<u8>) -> Vec<u8>;
}

/// Bytes prefixed with their eight-byte little-endian length.
pub open spec fn spec_encode_lp(b: Seq<u8>) -> Seq<u8> {
    le_bytes(b.len(), 8) + b
}

/// One encoded tag: length-prefixed name bytes, then length-prefixed
/// value bytes, both UTF-8.
pub open spec fn spec_encode_tag(t: TagModel) -> Seq<u8> {
    spec_encode_lp(encode_utf8(t.name)) + spec_encode_lp(encode_utf8(t.value))
}

/// The encoded tags, in order, without the leading count.
pub open spec fn spec_encode_tag_list(ts: Seq<TagModel>) -> Seq<u8>
    decreases ts.len(),
{
    if ts.len() == 0 {
        Seq::empty()
    } else {
        spec_encode_tag(ts[0]) + spec_encode_tag_list(ts.drop_first())
    }
}

/// The tag section: an eight-byte tag count, then the encoded tags.
pub open spec fn spec_encode_tags(ts: Seq<TagModel>) -> Seq<u8> {
    le_bytes(ts.len(), 8) + spec_encode_tag_list(ts)
}

/// A tag whose length fields fit their eight bytes. Every tag built
/// from in-memory strings satisfies this.
pub open spec fn tag_wf(t: TagModel) -> bool {
    &&& encode_utf8(t.name).len() < pow256(8)
    &&& encode_utf8(t.value).len() < pow256(8)
}

pub open spec fn tags_wf(ts: Seq<TagModel>) -> bool {
    &&& ts.len() < pow256(8)
    &&& forall|i: int| 0 <= i < ts.len() ==> tag_wf(#[trigger] ts[i])
}

/// The bundle's binary wire form.
pub open spec fn spec_wire(sig: Seq<u8>, ts: Seq<TagModel>, data: Seq<u8>) -> Seq<u8> {
    le_bytes(sig.len(), 8) + sig + spec_encode_tags(ts) + data
}

proof fn lemma_enc_list_concat(a: Seq<TagModel>, b: Seq<TagModel>)
    ensures
        spec_encode_tag_list(a + b) == spec_encode_tag_list(a) + spec_encode_tag_list(b),
    decreases a.len(),
{
    if a.len() == 0 {
        assert(a + b =~= b);
        assert(spec_encode_tag_list(a) + spec_encode_tag_list(b)
            =~= spec_encode_tag_list(b));
    } else {
        assert((a + b).drop_first() =~= a.drop_first() + b);
        lemma_enc_list_concat(a.drop_first(), b);
        assert((a + b)[0] == a[0]);
        assert(spec_encode_tag(a[0]) + (spec_encode_tag_list(a.drop_first())
            + spec_encode_tag_list(b)) =~= (spec_encode_tag(a[0]) + spec_encode_tag_list(
            a.drop_first(),
        )) + spec_encode_tag_list(b));
    }
}

proof fn lemma_enc_list_snoc(ts: Seq<TagModel>)
    requires
        ts.len() > 0,
    ensures
        spec_encode_tag_list(ts) == spec_encode_tag_list(ts.drop_last()) + spec_encode_tag(
            ts.last(),
        ),
{
    assert(ts =~= ts.drop_last() + seq![ts.last()]);
    lemma_enc_list_concat(ts.drop_last(), seq![ts.last()]);
    assert(seq![ts.last()].drop_first() =~= Seq::<TagModel>::empty());
    assert(spec_encode_tag_list(Seq::<TagModel>::empty()) =~= Seq::<u8>::empty());
    assert(seq![ts.last()][0] == ts.last());
    assert(spec_encode_tag_list(seq![ts.last()]) =~= spec_encode_tag(ts.last()));
}

/// `seg` occurs in `bytes` at position `pos`.
pub open spec fn prefix_at(bytes: Seq<u8>, pos: int, seg: Seq<u8>) -> bool {
    &&& 0 <= pos
    &&& pos + seg.len() <= bytes.len()
    &&& bytes.subrange(pos, pos + seg.len()) == seg
}

proof fn lemma_prefix_split(bytes: Seq<u8>, pos: int, a: Seq<u8>, b: Seq<u8>)
    requires
        prefix_at(bytes, pos, a + b),
    ensures
        prefix_at(bytes, pos, a),
        prefix_at(bytes, pos + a.len(), b),
{
    let ab = a + b;
    assert forall|i: int| 0 <= i < ab.len() implies bytes[pos + i] == ab[i] by {
        assert(bytes.subrange(pos, pos + ab.len())[i] == ab[i]);
    }
    assert(bytes.subrange(pos, pos + a.len()) =~= a);
    assert forall|i: int| 0 <= i < b.len() implies bytes[pos + a.len() + i] == b[i] by {
        assert(bytes.subrange(pos, pos + ab.len())[a.len() + i] == ab[a.len() + i]);
    }
    assert(bytes.subrange(pos + a.len(), pos + a.len() + b.len()) =~= b);
}

/// Relies on `String::from_utf8`: it succeeds exactly on valid UTF-8
/// input, and then returns the string whose characters those bytes
/// encode (the bytes are reinterpreted, not altered).
#[verifier::external_body]
pub(crate) fn bytes_to_string(v: Vec<u8>) -> (r: Option<String>)
    ensures
        r is Some <==> valid_utf8(v@),
        r matches Some(s) ==> s@ == decode_utf8(v@),
{
    String::from_utf8(v).ok()
}

/// Append `src` to `out`.
fn push_bytes(out: &mut Vec<u8>, src: &Vec<u8>)
    ensures
        final(out)@ == old(out)@ + src@,
{
    let mut i: usize = 0;
    while i < src.len()
        invariant
            0 <= i <= src@.len(),
            out@ =~= old(out)@ + src@.subrange(0, i as int),
        decreases src@.len() - i,
    {
        out.push(src[i]);
        i = i + 1;
    }
    proof {
        assert(out@ =~= old(out)@ + src@);
    }
}

/// Append the length-prefixed UTF-8 bytes of `s`.
fn push_lp_string(out: &mut Vec<u8>, s: &String)
    ensures
        final(out)@ == old(out)@ + spec_encode_lp(encode_utf8(s@)),
        encode_utf8(s@).len() < pow256(8),
{
    let bytes = s.as_str().as_bytes_vec();
    proof {
        lemma_pow256_8();
    }
    push_u64_le(out, bytes.len() as u64);
    push_bytes(out, &bytes);
    proof {
        assert(out@ =~= old(out)@ + spec_encode_lp(encode_utf8(s@)));
    }
}

/// Append the tag section for `tags`.
fn push_tag_section(out: &mut Vec<u8>, tags: &Vec<Tag>)
    ensures
        final(out)@ == old(out)@ + spec_encode_tags(tags.deep_view()),
        tags_wf(tags.deep_view()),
{
    let ghost ts = tags.deep_view();
    proof {
        lemma_pow256_8();
        assert(ts.len() == tags@.len());
    }
    push_u64_le(out, tags.len() as u64);
    let mut i: usize = 0;
    while i < tags.len()
        invariant
            ts == tags.deep_view(),
            ts.len() == tags@.len(),
            0 <= i <= tags@.len(),
            out@ =~= old(out)@ + le_bytes(ts.len(), 8) + spec_encode_tag_list(
                ts.take(i as int),
            ),
            forall|j: int| 0 <= j < i ==> tag_wf(#[trigger] ts[j]),
        decreases tags@.len() - i,
    {
        push_lp_string(out, &tags[i].name);
        push_lp_string(out, &tags[i].value);
        proof {
            assert(ts[i as int] == tags@[i as int]@);
            assert(ts.take(i + 1).drop_last() =~= ts.take(i as int));
            assert(ts.take(i + 1).last() == ts[i as int]);
            lemma_enc_list_snoc(ts.take(i + 1));
            assert(out@ =~= old(out)@ + le_bytes(ts.len(), 8) + spec_encode_tag_list(
                ts.take(i + 1),
            ));
        }
        i = i + 1;
    }
    proof {
        assert(ts.take(ts.len() as int) =~= ts);
        assert(out@ =~= old(out)@ + spec_encode_tags(ts));
    }
}

/// An unsigned-or-signed bundle transaction: payload bytes, ordered
/// tags, and the signature over tag section plus payload.
pub struct BundlrTx {
    pub data: Vec<u8>,
    pub tags: Vec<Tag>,
    pub signature: Vec<u8>,
}

impl BundlrTx {
    /// Assemble a bundle from payload and tags and sign it: the signed
    /// message is the tag section followed by the payload.
    pub fn create_with_tags<S: Signer>(data: Vec<u8>, tags: Vec<Tag>, signer: &S) -> (tx:
        BundlrTx)
        ensures
            tx.data == data,
            tx.tags == tags,
            tags_wf(tags.deep_view()),
    {
        let mut message: Vec<u8> = Vec::new();
        push_tag_section(&mut message, &tags);
        push_bytes(&mut message, &data);
        let signature = signer.sign(&message);
        BundlrTx { data, tags, signature }
    }

    /// The encoded tag section of this bundle.
    pub fn tag_section(&self) -> (out: Vec<u8>)
        ensures
            out@ == spec_encode_tags(self.tags.deep_view()),
            tags_wf(self.tags.deep_view()),
    {
        let mut out: Vec<u8> = Vec::new();
        push_tag_section(&mut out, &self.tags);
        out
    }

    /// Serialize the bundle to its binary wire form, consuming it.
    pub fn into_inner(self) -> (out: Vec<u8>)
        ensures
            out@ == spec_wire(self.signature@, self.tags.deep_view(), self.data@),
    {
        proof {
            lemma_pow256_8();
        }
        let mut out: Vec<u8> = Vec::new();
        push_u64_le(&mut out, self.signature.len() as u64);
        push_bytes(&mut out, &self.signature);
        push_tag_section(&mut out, &self.tags);
        push_bytes(&mut out, &self.data);
        proof {
            assert(out@ =~= spec_wire(self.signature@, self.tags.deep_view(), self.data@));
        }
        out
    }
}

/// Parse one length-prefixed UTF-8 string at `pos`.
fn parse_lp_string(bytes: &Vec<u8>, pos: usize) -> (r: Option<(String, usize)>)
    requires
        pos <= bytes@.len(),
    ensures
        r matches Some(p) ==> {
            &&& encode_utf8(p.0@).len() < pow256(8)
            &&& pos + 8 + encode_utf8(p.0@).len() == p.1 <= bytes@.len()
            &&& bytes@.subrange(pos as int, p.1 as int) == spec_encode_lp(encode_utf8(p.0@))
        },
        forall|cs: Seq<char>|
            encode_utf8(cs).len() < pow256(8) && prefix_at(
                bytes@,
                pos as int,
                #[trigger] spec_encode_lp(encode_utf8(cs)),
            ) ==> (r matches Some(p) && p.0@ == cs && p.1 == pos + 8 + encode_utf8(cs).len()),
{
    proof {
        lemma_pow256_8();
    }
    if bytes.len() - pos < 8 {
        proof {
            assert forall|cs: Seq<char>|
                encode_utf8(cs).len() < pow256(8) && prefix_at(
                    bytes@,
                    pos as int,
                    spec_encode_lp(encode_utf8(cs)),
                ) implies false by {
                lemma_le_bytes_len(encode_utf8(cs).len(), 8);
            }
        }
        return None;
    }
    let len64 = read_u64_le(bytes, pos);
    let ghost prefix8 = bytes@.subrange(pos as int, pos + 8);
    proof {
        lemma_le_value_bytes(prefix8);
        assert forall|cs: Seq<char>|
            encode_utf8(cs).len() < pow256(8) && prefix_at(
                bytes@,
                pos as int,
                spec_encode_lp(encode_utf8(cs)),
            ) implies len64 as nat == encode_utf8(cs).len() && pos + 8 + encode_utf8(cs).len()
            <= bytes@.len() by {
            lemma_le_bytes_len(encode_utf8(cs).len(), 8);
            lemma_prefix_split(
                bytes@,
                pos as int,
                le_bytes(encode_utf8(cs).len(), 8),
                encode_utf8(cs),
            );
            assert(prefix8 == le_bytes(encode_utf8(cs).len(), 8));
            lemma_le_bytes_value(encode_utf8(cs).len(), 8);
        }
    }
    if len64 > (bytes.len() - (pos + 8)) as u64 {
        return None;
    }
    let len = len64 as usize;
    let sbytes = copy_range(bytes, pos + 8, len);
    proof {
        assert forall|cs: Seq<char>|
            encode_utf8(cs).len() < pow256(8) && prefix_at(
                bytes@,
                pos as int,
                spec_encode_lp(encode_utf8(cs)),
            ) implies sbytes@ == encode_utf8(cs) && valid_utf8(sbytes@) by {
            lemma_le_bytes_len(encode_utf8(cs).len(), 8);
            lemma_prefix_split(
                bytes@,
                pos as int,
                le_bytes(encode_utf8(cs).len(), 8),
                encode_utf8(cs),
            );
            assert(sbytes@ =~= encode_utf8(cs));
            encode_utf8_valid_utf8(cs);
        }
    }
    match bytes_to_string(sbytes) {
        None => None,
        Some(s) => {
            proof {
                let ghost sb = bytes@.subrange(pos + 8, pos + 8 + len);
                decode_utf8_encode_utf8(sb);
                assert(encode_utf8(s@) == sb);
                lemma_le_value_bytes(prefix8);
                assert(le_bytes(encode_utf8(s@).len(), 8) == prefix8);
                assert(bytes@.subrange(pos as int, pos + 8 + len) =~= prefix8 + sb);
                assert forall|cs: Seq<char>|
                    encode_utf8(cs).len() < pow256(8) && prefix_at(
                        bytes@,
                        pos as int,
                        spec_encode_lp(encode_utf8(cs)),
                    ) implies s@ == cs by {
                    lemma_le_bytes_len(encode_utf8(cs).len(), 8);
                    lemma_prefix_split(
                        bytes@,
                        pos as int,
                        le_bytes(encode_utf8(cs).len(), 8),
                        encode_utf8(cs),
                    );
                    assert(sb =~= encode_utf8(cs));
                    encode_utf8_decode_utf8(cs);
                }
            }
            Some((s, pos + 8 + len))
        },
    }
}

/// Parse one encoded tag at `pos`.
fn parse_tag(bytes: &Vec<u8>, pos: usize) -> (r: Option<(Tag, usize)>)
    requires
        pos <= bytes@.len(),
    ensures
        r matches Some(p) ==> {
            &&& tag_wf(p.0@)
            &&& pos + spec_encode_tag(p.0@).len() == p.1 <= bytes@.len()
            &&& bytes@.subrange(pos as int, p.1 as int) == spec_encode_tag(p.0@)
        },
        forall|t: TagModel|
            tag_wf(t) && prefix_at(bytes@, pos as int, #[trigger] spec_encode_tag(t)) ==> (r
                matches Some(p) && p.0@ == t && p.1 == pos + spec_encode_tag(t).len()),
{
    proof {
        assert forall|t: TagModel|
            tag_wf(t) && prefix_at(bytes@, pos as int, spec_encode_tag(t)) implies prefix_at(
            bytes@,
            pos as int,
            spec_encode_lp(encode_utf8(t.name)),
        ) by {
            lemma_prefix_split(
                bytes@,
                pos as int,
                spec_encode_lp(encode_utf8(t.name)),
                spec_encode_lp(encode_utf8(t.value)),
            );
        }
    }
    let (name, mid) = match parse_lp_string(bytes, pos) {
        None => {
            return None;
        },
        Some(p) => p,
    };
    proof {
        assert forall|t: TagModel|
            tag_wf(t) && prefix_at(bytes@, pos as int, spec_encode_tag(t)) implies name@ == t.name
            && mid == pos + spec_encode_lp(encode_utf8(t.name)).len() && prefix_at(
            bytes@,
            mid as int,
            spec_encode_lp(encode_utf8(t.value)),
        ) by {
            lemma_prefix_split(
                bytes@,
                pos as int,
                spec_encode_lp(encode_utf8(t.name)),
                spec_encode_lp(encode_utf8(t.value)),
            );
            lemma_le_bytes_len(encode_utf8(t.name).len(), 8);
        }
    }
    let (value, end) = match parse_lp_string(bytes, mid) {
        None => {
            return None;
        },
        Some(p) => p,
    };
    let tag = Tag { name, value };
    proof {
        lemma_le_bytes_len(encode_utf8(tag@.name).len(), 8);
        lemma_le_bytes_len(encode_utf8(tag@.value).len(), 8);
        assert(bytes@.subrange(pos as int, end as int) =~= bytes@.subrange(pos as int, mid as int)
            + bytes@.subrange(mid as int, end as int));
    }
    Some((tag, end))
}

/// Parse a complete tag section.
///
/// Exactly the encodings are accepted: a `Some` answer re-encodes to
/// the input, and on the encoding of any (well-formed) tag sequence the
/// answer is `Some` of exactly that sequence, in order.
pub fn parse_tags(bytes: &Vec<u8>) -> (r: Option<Vec<Tag>>)
    ensures
        r matches Some(v) ==> {
            &&& tags_wf(v.deep_view())
            &&& bytes@ == spec_encode_tags(v.deep_view())
        },
        forall|ts: Seq<TagModel>|
            tags_wf(ts) && bytes@ == #[trigger] spec_encode_tags(ts) ==> (r matches Some(v)
                && v.deep_view() == ts),
{
    proof {
        lemma_pow256_8();
        assert forall|ts: Seq<TagModel>|
            tags_wf(ts) && bytes@ == spec_encode_tags(ts) implies bytes@.len() >= 8
            && bytes@.subrange(0, 8) == le_bytes(ts.len(), 8) by {
            lemma_le_bytes_len(ts.len(), 8);
            assert(bytes@.subrange(0, 8) =~= le_bytes(ts.len(), 8));
        }
    }
    if bytes.len() < 8 {
        return None;
    }
    let count = read_u64_le(bytes, 0);
    proof {
        lemma_le_value_bytes(bytes@.subrange(0, 8));
        assert forall|ts: Seq<TagModel>|
            tags_wf(ts) && bytes@ == spec_encode_tags(ts) implies count as nat == ts.len() by {
            lemma_le_bytes_len(ts.len(), 8);
            assert(bytes@.subrange(0, 8) =~= le_bytes(ts.len(), 8));
            lemma_le_bytes_value(ts.len(), 8);
        }
    }
    let mut out: Vec<Tag> = Vec::new();
    let mut pos: usize = 8;
    let mut k: u64 = 0;
    while k < count
        invariant
            8 <= pos <= bytes@.len(),
            k <= count,
            k as nat == out.deep_view().len(),
            out.deep_view().len() == out@.len(),
            forall|j: int| 0 <= j < out.deep_view().len() ==> tag_wf(#[trigger] out.deep_view()[j]),
            le_bytes(count as nat, 8) == bytes@.subrange(0, 8),
            bytes@.subrange(0, pos as int) =~= le_bytes(count as nat, 8) + spec_encode_tag_list(
                out.deep_view(),
            ),
            forall|ts: Seq<TagModel>|
                tags_wf(ts) && bytes@ == #[trigger] spec_encode_tags(ts) ==> {
                    &&& count as nat == ts.len()
                    &&& k as nat <= ts.len()
                    &&& out.deep_view() == ts.take(k as int)
                    &&& pos == 8 + spec_encode_tag_list(ts.take(k as int)).len()
                },
        decreases count - k,
    {
        proof {
            assert forall|ts: Seq<TagModel>|
                tags_wf(ts) && bytes@ == spec_encode_tags(ts) implies prefix_at(
                bytes@,
                pos as int,
                spec_encode_tag(ts[k as int]),
            ) && tag_wf(ts[k as int]) by {
                lemma_le_bytes_len(ts.len(), 8);
                assert(ts =~= ts.take(k as int) + ts.skip(k as int));
                lemma_enc_list_concat(ts.take(k as int), ts.skip(k as int));
                assert(ts.skip(k as int)[0] == ts[k as int]);
                assert(ts.skip(k as int).drop_first() =~= ts.skip(k + 1));
                let head = spec_encode_tag(ts[k as int]);
                let tail = spec_encode_tag_list(ts.skip(k + 1));
                assert(spec_encode_tag_list(ts.skip(k as int)) == head + tail);
                assert(bytes@ =~= bytes@.subrange(0, pos as int) + head + tail);
                assert(bytes@.subrange(pos as int, pos + head.len() as int) =~= head);
            }
        }
        let (tag, end) = match parse_tag(bytes, pos) {
            None => {
                proof {
                    assert forall|ts: Seq<TagModel>|
                        tags_wf(ts) && bytes@ == spec_encode_tags(ts) implies false by {
                        let head = spec_encode_tag(ts[k as int]);
                    }
                }
                return None;
            },
            Some(p) => p,
        };
        let ghost prev = out.deep_view();
        out.push(tag);
        proof {
            assert(out.deep_view() =~= prev.push(tag@));
            assert(out.deep_view().drop_last() =~= prev);
            assert(out.deep_view().last() == tag@);
            lemma_enc_list_snoc(out.deep_view());
            assert(bytes@.subrange(0, end as int) =~= bytes@.subrange(0, pos as int)
                + bytes@.subrange(pos as int, end as int));
            assert forall|ts: Seq<TagModel>|
                tags_wf(ts) && bytes@ == spec_encode_tags(ts) implies out.deep_view() == ts.take(
                k + 1,
            ) && end == 8 + spec_encode_tag_list(ts.take(k + 1)).len() by {
                let head = spec_encode_tag(ts[k as int]);
                assert(ts.take(k + 1).drop_last() =~= ts.take(k as int));
                assert(ts.take(k + 1).last() == ts[k as int]);
                lemma_enc_list_snoc(ts.take(k + 1));
                assert(out.deep_view() =~= ts.take(k + 1));
            }
        }
        pos = end;
        k = k + 1;
    }
    if pos != bytes.len() {
        proof {
            assert forall|ts: Seq<TagModel>|
                tags_wf(ts) && bytes@ == spec_encode_tags(ts) implies false by {
                lemma_le_bytes_len(ts.len(), 8);
                assert(ts.take(k as int) =~= ts);
            }
        }
        return None;
    }
    proof {
        assert(bytes@ =~= bytes@.subrange(0, pos as int));
        assert(bytes@ == spec_encode_tags(out.deep_view()));
        assert forall|ts: Seq<TagModel>|
            tags_wf(ts) && bytes@ == spec_encode_tags(ts) implies out.deep_view() == ts by {
            assert(ts.take(k as int) =~= ts);
        }
    }
    Some(out)
}

} // verus!
