//! Record marking: how RPC messages are delimited on a byte stream.
//!
//! Each fragment starts with a four-byte big-endian header whose top bit
//! marks the last fragment of a message and whose other 31 bits give the
//! fragment's length. A message is the concatenation of its fragments.
use crate::xdr::{be32, lemma_word_be32, put_u32, word_at};
use vstd::prelude::*;

verus! {

/// Largest fragment body that a header can describe.
pub const MAX_FRAGMENT: u32 = 0x7fff_ffff;

/// Header bit that marks the last fragment of a message.
pub const LAST_FRAGMENT: u32 = 0x8000_0000;

/// Whether the header at the front of `s` marks a last fragment.
pub open spec fn frag_last(s: Seq<u8>) -> bool {
    word_at(s, 0) >= LAST_FRAGMENT
}

/// The body length given by the header at the front of `s`.
pub open spec fn frag_len(s: Seq<u8>) -> int {
    word_at(s, 0) as int % 0x8000_0000
}

/// Whether `s` starts with a header and the whole body it announces.
pub open spec fn has_fragment(s: Seq<u8>) -> bool {
    s.len() >= 4 && s.len() >= 4 + frag_len(s)
}

/// The complete messages that the stream `s` delivers, when `acc` holds the
/// fragments already gathered of a message not yet finished.
pub open spec fn messages(s: Seq<u8>, acc: Seq<u8>) -> Seq<Seq<u8>>
    decreases s.len(),
{
    if has_fragment(s) {
        let body = s.subrange(4, 4 + frag_len(s));
        let rest = s.subrange(4 + frag_len(s), s.len() as int);
        if frag_last(s) {
            seq![acc + body] + messages(rest, Seq::empty())
        } else {
            messages(rest, acc + body)
        }
    } else {
        Seq::empty()
    }
}

/// One fragment on the wire: its header, then its body.
pub open spec fn fragment(body: Seq<u8>, last: bool) -> Seq<u8> {
    be32(((if last { LAST_FRAGMENT as int } else { 0 }) + body.len()) as u32) + body
}

/// The stream that carries the pieces `frags` as the fragments of one
/// message, the last of them flagged as such.
pub open spec fn framed(frags: Seq<Seq<u8>>) -> Seq<u8>
    decreases frags.len(),
{
    if frags.len() == 0 {
        Seq::empty()
    } else if frags.len() == 1 {
        fragment(frags[0], true)
    } else {
        fragment(frags[0], false) + framed(frags.drop_first())
    }
}

/// The pieces of `frags`, joined in order.
pub open spec fn joined(frags: Seq<Seq<u8>>) -> Seq<u8>
    decreases frags.len(),
{
    if frags.len() == 0 {
        Seq::empty()
    } else {
        frags[0] + joined(frags.drop_first())
    }
}

/// The byte sequences of a list of buffers.
pub open spec fn views(v: Seq<Vec<u8>>) -> Seq<Seq<u8>> {
    v.map_values(|b: Vec<u8>| b@)
}

proof fn lemma_fragment_header(body: Seq<u8>, last: bool)
    requires
        body.len() <= MAX_FRAGMENT,
    ensures
        has_fragment(fragment(body, last)),
        frag_len(fragment(body, last)) == body.len(),
        frag_last(fragment(body, last)) == last,
        fragment(body, last).len() == 4 + body.len(),
        fragment(body, last).subrange(4, 4 + body.len() as int) == body,
{
    let h = ((if last { LAST_FRAGMENT as int } else { 0 }) + body.len()) as u32;
    lemma_word_be32(h);
    let s = fragment(body, last);
    assert(s.subrange(0, 4) =~= be32(h));
    assert(word_at(s, 0) == word_at(be32(h), 0));
    assert(s.subrange(4, 4 + body.len() as int) =~= body);
}

/// One complete fragment at the front of `s` is read the same way whatever
/// follows `s`.
proof fn lemma_step(s: Seq<u8>, f: Seq<u8>, acc: Seq<u8>)
    requires
        has_fragment(s),
    ensures
        ({
            let body = s.subrange(4, 4 + frag_len(s));
            let rest = s.subrange(4 + frag_len(s), s.len() as int);
            messages(s + f, acc) == if frag_last(s) {
                seq![acc + body] + messages(rest + f, Seq::empty())
            } else {
                messages(rest + f, acc + body)
            }
        }),
{
    let t = s + f;
    assert(word_at(t, 0) == word_at(s, 0));
    assert(t.subrange(4, 4 + frag_len(s)) =~= s.subrange(4, 4 + frag_len(s)));
    assert(t.subrange(4 + frag_len(s), t.len() as int) =~= s.subrange(
        4 + frag_len(s),
        s.len() as int,
    ) + f);
}

/// The fragments of one message, followed by anything, yield that message
/// first.
proof fn lemma_framed(frags: Seq<Seq<u8>>, f: Seq<u8>, acc: Seq<u8>)
    requires
        frags.len() >= 1,
        forall|i: int| 0 <= i < frags.len() ==> (#[trigger] frags[i]).len() <= MAX_FRAGMENT,
    ensures
        messages(framed(frags) + f, acc) == seq![acc + joined(frags)] + messages(
            f,
            Seq::empty(),
        ),
    decreases frags.len(),
{
    let first = frags[0];
    let last = frags.len() == 1;
    lemma_fragment_header(first, last);
    let s = fragment(first, last);
    assert(s.subrange(4 + first.len() as int, s.len() as int) =~= Seq::<u8>::empty());
    if last {
        assert(joined(frags.drop_first()) =~= Seq::<u8>::empty());
        assert(joined(frags) =~= first);
        lemma_step(s, f, acc);
        assert(Seq::<u8>::empty() + f =~= f);
    } else {
        let tail = frags.drop_first();
        assert(framed(frags) + f =~= s + (framed(tail) + f));
        lemma_step(s, framed(tail) + f, acc);
        assert(Seq::<u8>::empty() + (framed(tail) + f) =~= framed(tail) + f);
        lemma_framed(tail, f, acc + first);
        assert(acc + first + joined(tail) =~= acc + joined(frags));
    }
}

/// A message split into any number of fragments is reassembled into the
/// same bytes as when it is sent as a single fragment: both streams deliver
/// exactly that one message.
pub proof fn lemma_fragments_reassemble(frags: Seq<Seq<u8>>)
    requires
        frags.len() >= 1,
        forall|i: int| 0 <= i < frags.len() ==> (#[trigger] frags[i]).len() <= MAX_FRAGMENT,
        joined(frags).len() <= MAX_FRAGMENT,
    ensures
        messages(framed(frags), Seq::empty()) == seq![joined(frags)],
        messages(fragment(joined(frags), true), Seq::empty()) == seq![joined(frags)],
{
    let e = Seq::<u8>::empty();
    lemma_framed(frags, e, e);
    assert(framed(frags) + e =~= framed(frags));
    assert(e + joined(frags) =~= joined(frags));
    let one = seq![joined(frags)];
    assert(one.len() == 1);
    assert forall|i: int| 0 <= i < one.len() implies (#[trigger] one[i]).len() <= MAX_FRAGMENT by {}
    lemma_framed(one, e, e);
    assert(one.drop_first() =~= Seq::<Seq<u8>>::empty());
    assert(framed(one) == fragment(joined(frags), true));
    assert(framed(one) + e =~= framed(one));
    assert(joined(one.drop_first()) =~= e);
    assert(joined(one) =~= joined(frags));
    assert(messages(e, e) =~= Seq::<Seq<u8>>::empty());
    assert(seq![joined(frags)] + Seq::<Seq<u8>>::empty() =~= seq![joined(frags)]);
}

/// Reassembles messages from the bytes of a stream, delivered in chunks of
/// any size.
pub struct RecordDecoder {
    buffer: Vec<u8>,
    partial: Vec<u8>,
}

impl RecordDecoder {
    /// Bytes received that do not yet form a complete fragment.
    pub closed spec fn unparsed(&self) -> Seq<u8> {
        self.buffer@
    }

    /// Fragment bodies gathered of the message in progress.
    pub closed spec fn gathered(&self) -> Seq<u8> {
        self.partial@
    }

    pub fn new() -> (r: RecordDecoder)
        ensures
            r.unparsed() == Seq::<u8>::empty(),
            r.gathered() == Seq::<u8>::empty(),
    {
        RecordDecoder { buffer: Vec::new(), partial: Vec::new() }
    }

    /// Whether part of a message has been received and not yet delivered.
    pub fn has_pending(&self) -> (r: bool)
        ensures
            r == (self.unparsed().len() > 0 || self.gathered().len() > 0),
    {
        self.buffer.len() > 0 || self.partial.len() > 0
    }

    /// Takes the next chunk of the stream and returns the messages that it
    /// completes, in order. What the decoder delivers, now and from any
    /// bytes that come later, is what the whole stream delivers, however it
    /// was cut into chunks; and nothing complete is held back.
    pub fn feed(&mut self, chunk: &[u8]) -> (out: Vec<Vec<u8>>)
        ensures
            forall|f: Seq<u8>|
                messages(old(self).unparsed() + chunk@ + f, old(self).gathered()) == views(out@)
                    + messages(final(self).unparsed() + f, final(self).gathered()),
            messages(final(self).unparsed(), final(self).gathered()) == Seq::<Seq<u8>>::empty(),
    {
        let mut data: Vec<u8> = Vec::new();
        std::mem::swap(&mut data, &mut self.buffer);
        let mut j: usize = 0;
        while j < chunk.len()
            invariant
                j <= chunk@.len(),
                data@ == old(self).buffer@ + chunk@.subrange(0, j as int),
            decreases chunk@.len() - j,
        {
            data.push(chunk[j]);
            j += 1;
            assert(data@ =~= old(self).buffer@ + chunk@.subrange(0, j as int));
        }
        assert(chunk@.subrange(0, j as int) =~= chunk@);
        let ghost whole = data@;
        let ghost acc0 = old(self).partial@;
        let mut out: Vec<Vec<u8>> = Vec::new();
        let mut pos: usize = 0;
        let len = data.len();
        assert forall|f: Seq<u8>|
            messages(whole + f, acc0) == views(out@) + messages(
                whole.subrange(0, len as int) + f,
                self.partial@,
            ) by {
            assert(whole.subrange(0, len as int) =~= whole);
            assert(views(out@) + messages(whole + f, acc0) =~= messages(whole + f, acc0));
        }
        loop
            invariant
                len == data@.len(),
                data@ == whole,
                pos <= len,
                forall|f: Seq<u8>|
                    messages(whole + f, acc0) == views(out@) + messages(
                        whole.subrange(pos as int, len as int) + f,
                        self.partial@,
                    ),
            ensures
                pos <= len,
                !has_fragment(whole.subrange(pos as int, len as int)),
            decreases len - pos,
        {
            let ghost s = whole.subrange(pos as int, len as int);
            if len - pos < 4 {
                assert(!has_fragment(s));
                break;
            }
            let w = crate::xdr::get_u32(data.as_slice(), pos);
            let n = (w % LAST_FRAGMENT) as usize;
            assert(word_at(s, 0) == w);
            if n > len - pos - 4 {
                assert(!has_fragment(s));
                break;
            }
            let ghost old_out = out@;
            let ghost old_partial = self.partial@;
            let body_end = pos + 4 + n;
            let mut k: usize = pos + 4;
            while k < body_end
                invariant
                    pos + 4 <= k <= body_end <= len,
                    len == data@.len(),
                    self.partial@ == old_partial + data@.subrange(pos + 4, k as int),
                decreases body_end - k,
            {
                self.partial.push(data[k]);
                k += 1;
                assert(self.partial@ =~= old_partial + data@.subrange(pos + 4, k as int));
            }
            let ghost body = s.subrange(4, 4 + frag_len(s));
            let ghost rest = s.subrange(4 + frag_len(s), s.len() as int);
            assert(body =~= data@.subrange(pos + 4, body_end as int));
            assert(rest =~= whole.subrange(body_end as int, len as int));
            assert forall|f: Seq<u8>|
                messages(s + f, old_partial) == if frag_last(s) {
                    seq![old_partial + body] + messages(rest + f, Seq::empty())
                } else {
                    messages(rest + f, old_partial + body)
                } by {
                lemma_step(s, f, old_partial);
            }
            if w >= LAST_FRAGMENT {
                let mut done: Vec<u8> = Vec::new();
                std::mem::swap(&mut done, &mut self.partial);
                out.push(done);
                assert(views(out@) =~= views(old_out) + seq![old_partial + body]);
                assert forall|f: Seq<u8>|
                    messages(whole + f, acc0) == views(out@) + messages(
                        whole.subrange(body_end as int, len as int) + f,
                        self.partial@,
                    ) by {
                    assert(self.partial@ =~= Seq::<u8>::empty());
                    assert(views(old_out) + (seq![old_partial + body] + messages(
                        rest + f,
                        Seq::empty(),
                    )) =~= views(out@) + messages(rest + f, Seq::empty()));
                }
            }
            pos = body_end;
        }
        self.buffer = crate::xdr::copy_range(data.as_slice(), pos, len);
        assert forall|f: Seq<u8>|
            messages(old(self).buffer@ + chunk@ + f, old(self).partial@) == views(out@) + messages(
                self.buffer@ + f,
                self.partial@,
            ) by {
            assert(old(self).buffer@ + chunk@ + f =~= whole + f);
        }
        assert(messages(self.buffer@, self.partial@) == Seq::<Seq<u8>>::empty());
        out
    }
}

/// Frames a complete reply as a single, last fragment.
pub fn encode_record(msg: &[u8]) -> (r: Vec<u8>)
    requires
        msg@.len() <= MAX_FRAGMENT,
    ensures
        r@ == fragment(msg@, true),
{
    let mut r: Vec<u8> = Vec::new();
    put_u32(&mut r, LAST_FRAGMENT + msg.len() as u32);
    let ghost head = r@;
    let mut i: usize = 0;
    while i < msg.len()
        invariant
            i <= msg@.len(),
            r@ == head + msg@.subrange(0, i as int),
        decreases msg@.len() - i,
    {
        r.push(msg[i]);
        i += 1;
        assert(r@ =~= head + msg@.subrange(0, i as int));
    }
    assert(msg@.subrange(0, i as int) =~= msg@);
    assert(head =~= Seq::<u8>::empty() + be32((LAST_FRAGMENT as int + msg@.len()) as u32));
    assert(r@ =~= fragment(msg@, true));
    r
}

} // verus!
