//! Splits a byte stream into lines.
use vstd::prelude::*;
use vstd::utf8::{valid_utf8, decode_utf8};
use crate::text::string_from_utf8;
use crate::frame::drop_front;

verus! {

/// The index of the first newline in `s`, if any.
pub open spec fn first_newline(s: Seq<u8>) -> Option<nat> {
    if exists|i: int| 0 <= i < s.len() && s[i] == 10u8 {
        Some(
            (choose|i: int| 0 <= i < s.len() && s[i] == 10u8 && forall|j: int| 0 <= j < i ==> s[j] != 10u8) as nat,
        )
    } else {
        None
    }
}

/// A line whose bytes are not valid UTF-8.
#[derive(Clone, Copy, Debug, PartialEq, Eq, Structural)]
pub struct InvalidUtf8;

/// Decoder of newline-terminated lines: bytes are collected until a newline
/// arrives, then the collected bytes (without the newline) make a line.
pub struct Decoder {
    buf: Vec<u8>,
}

impl Decoder {
    /// A decoder with nothing collected; `buf_size` is the room reserved for
    /// a line.
    pub fn new(buf_size: usize) -> (r: Decoder)
        ensures
            r.buffered() == Seq::<u8>::empty(),
    {
        Decoder { buf: Vec::with_capacity(buf_size) }
    }

    /// The bytes collected towards the next line.
    pub closed spec fn buffered(&self) -> Seq<u8> {
        self.buf@
    }

    /// Takes bytes from `src` up to and including the first newline. Without
    /// a newline, all of `src` is collected and `Ok(None)` returned. With
    /// one, the collected bytes and those before the newline form the line,
    /// which is returned as a string (an error if it is not valid UTF-8), and
    /// nothing stays collected.
    pub fn decode(&mut self, src: &mut Vec<u8>) -> (r: Result<Option<String>, InvalidUtf8>)
        ensures
            match first_newline(old(src)@) {
                None => {
                    &&& r == Ok::<Option<String>, InvalidUtf8>(None)
                    &&& final(self).buffered() == old(self).buffered() + old(src)@
                    &&& final(src)@ == Seq::<u8>::empty()
                },
                Some(i) => {
                    let line = old(self).buffered() + old(src)@.take(i as int);
                    &&& final(self).buffered() == Seq::<u8>::empty()
                    &&& final(src)@ == old(src)@.skip(i + 1 as int)
                    &&& match r {
                        Ok(Some(s)) => valid_utf8(line) && s@ == decode_utf8(line),
                        Ok(None) => false,
                        Err(_) => !valid_utf8(line),
                    }
                },
            },
    {
        let mut i: usize = 0;
        while i < src.len()
            invariant
                i <= src@.len(),
                src@ == old(src)@,
                self.buf@ == old(self).buffered(),
                forall|j: int| 0 <= j < i ==> src@[j] != 10u8,
            decreases src@.len() - i,
        {
            if src[i] == 10u8 {
                let ghost s = old(src)@;
                assert(s[i as int] == 10u8);
                assert(first_newline(s) == Some(i as nat)) by {
                    let k = choose|k: int| 0 <= k < s.len() && s[k] == 10u8 && forall|j: int| 0 <= j < k ==> s[j] != 10u8;
                    assert(0 <= k < s.len() && s[k] == 10u8 && forall|j: int| 0 <= j < k ==> s[j] != 10u8);
                    if k < i {
                    } else if k > i {
                        assert(s[i as int] != 10u8);
                    }
                }
                let mut line: Vec<u8> = Vec::new();
                std::mem::swap(&mut line, &mut self.buf);
                let mut j: usize = 0;
                while j < i
                    invariant
                        j <= i < src@.len(),
                        src@ == old(src)@,
                        line@ == old(self).buffered() + src@.take(j as int),
                    decreases i - j,
                {
                    line.push(src[j]);
                    assert(src@.take(j + 1) =~= src@.take(j as int).push(src@[j as int]));
                    j = j + 1;
                }
                drop_front(src, i + 1);
                return match string_from_utf8(line) {
                    Some(s) => Ok(Some(s)),
                    None => Err(InvalidUtf8),
                };
            }
            i = i + 1;
        }
        assert(first_newline(old(src)@) is None);
        let n = src.len();
        let mut j: usize = 0;
        while j < n
            invariant
                j <= n == old(src)@.len(),
                src@ == old(src)@,
                self.buf@ == old(self).buffered() + src@.take(j as int),
            decreases n - j,
        {
            self.buf.push(src[j]);
            assert(src@.take(j + 1) =~= src@.take(j as int).push(src@[j as int]));
            j = j + 1;
        }
        assert(src@.take(n as int) =~= src@);
        src.clear();
        Ok(None)
    }
}

/// The line the decoder completes from the collected bytes `buf` and the new
/// bytes `src`, with the bytes of `src` left after its newline; none while
/// `src` has no newline.
pub open spec fn line_step(buf: Seq<u8>, src: Seq<u8>) -> Option<(Seq<u8>, Seq<u8>)> {
    match first_newline(src) {
        Some(i) => Some((buf + src.take(i as int), src.skip(i as int + 1))),
        None => None,
    }
}

proof fn lemma_first_newline_at(s: Seq<u8>, i: int)
    requires
        0 <= i < s.len(),
        s[i] == 10u8,
        forall|j: int| 0 <= j < i ==> s[j] != 10u8,
    ensures
        first_newline(s) == Some(i as nat),
{
    let k = choose|k: int| 0 <= k < s.len() && s[k] == 10u8 && forall|j: int| 0 <= j < k ==> s[j] != 10u8;
    assert(0 <= k < s.len() && s[k] == 10u8 && forall|j: int| 0 <= j < k ==> s[j] != 10u8);
    if k < i {
        assert(s[k] != 10u8);
    } else if k > i {
        assert(s[i] != 10u8);
    }
}

proof fn lemma_first_newline_props(s: Seq<u8>)
    ensures
        first_newline(s) matches Some(i) ==> {
            &&& i < s.len()
            &&& s[i as int] == 10u8
            &&& forall|j: int| 0 <= j < i ==> s[j] != 10u8
        },
        first_newline(s) is None ==> forall|j: int| 0 <= j < s.len() ==> s[j] != 10u8,
{
    if exists|i: int| 0 <= i < s.len() && s[i] == 10u8 {
        let w = choose|i: int| 0 <= i < s.len() && s[i] == 10u8;
        lemma_least_newline(s, w);
    }
}

proof fn lemma_least_newline(s: Seq<u8>, w: int)
    requires
        0 <= w < s.len(),
        s[w] == 10u8,
    ensures
        exists|k: int| 0 <= k < s.len() && s[k] == 10u8 && forall|j: int| 0 <= j < k ==> s[j] != 10u8,
    decreases w,
{
    if exists|j: int| 0 <= j < w && s[j] == 10u8 {
        let j = choose|j: int| 0 <= j < w && s[j] == 10u8;
        lemma_least_newline(s, j);
    } else {
        assert(0 <= w < s.len() && s[w] == 10u8 && forall|j: int| 0 <= j < w ==> s[j] != 10u8);
    }
}

proof fn lemma_no_newline(s: Seq<u8>)
    requires
        forall|j: int| 0 <= j < s.len() ==> s[j] != 10u8,
    ensures
        first_newline(s) is None,
{
}

/// Lines come out the same however the bytes are cut: bytes without a
/// newline, collected first, count as the start of the next bytes.
pub proof fn lemma_line_chunking(buf: Seq<u8>, a: Seq<u8>, b: Seq<u8>)
    requires
        first_newline(a) is None,
    ensures
        line_step(buf, a + b) == line_step(buf + a, b),
{
    let ab = a + b;
    lemma_first_newline_props(a);
    lemma_first_newline_props(b);
    match first_newline(b) {
        Some(i) => {
            let k = i as int;
            assert forall|j: int| 0 <= j < a.len() + k implies ab[j] != 10u8 by {
                if j >= a.len() {
                    assert(ab[j] == b[j - a.len()]);
                } else {
                    assert(ab[j] == a[j]);
                }
            }
            assert(ab[a.len() + k] == b[k]);
            lemma_first_newline_at(ab, a.len() + k);
            assert(buf + ab.take(a.len() + k) =~= (buf + a) + b.take(k));
            assert(ab.skip(a.len() + k + 1) =~= b.skip(k + 1));
        },
        None => {
            assert forall|j: int| 0 <= j < ab.len() implies ab[j] != 10u8 by {
                if j >= a.len() {
                    assert(ab[j] == b[j - a.len()]);
                } else {
                    assert(ab[j] == a[j]);
                }
            }
            lemma_no_newline(ab);
        },
    }
}

} // verus!
