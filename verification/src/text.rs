//! Byte-level text helpers used to turn documentation text into short
//! error messages.

use vstd::prelude::*;
use vstd::string::StringSliceAdditionalSpecFns;
use vstd::utf8::*;

verus! {

/// The ASCII whitespace bytes: space, tab, line feed, form feed and carriage return.
pub open spec fn is_ascii_ws(b: u8) -> bool {
    b == 0x20u8 || b == 0x09u8 || b == 0x0Au8 || b == 0x0Cu8 || b == 0x0Du8
}

/// `s` without its leading ASCII whitespace.
pub open spec fn trim_ascii_start(s: Seq<u8>) -> Seq<u8>
    decreases s.len(),
{
    if s.len() > 0 && is_ascii_ws(s[0]) {
        trim_ascii_start(s.drop_first())
    } else {
        s
    }
}

/// `s` without its trailing ASCII whitespace.
pub open spec fn trim_ascii_end(s: Seq<u8>) -> Seq<u8>
    decreases s.len(),
{
    if s.len() > 0 && is_ascii_ws(s.last()) {
        trim_ascii_end(s.drop_last())
    } else {
        s
    }
}

/// `s` without its leading and trailing ASCII whitespace.
pub open spec fn trim_ascii(s: Seq<u8>) -> Seq<u8> {
    trim_ascii_end(trim_ascii_start(s))
}

/// Where the trimmed text starts in `s`: after its leading whitespace.
pub open spec fn trim_offset(s: Seq<u8>) -> int {
    s.len() - trim_ascii_start(s).len()
}

/// Whether the byte at `p` is a full stop that ends a sentence of `t`: it
/// ends the text or is followed by whitespace, and it does not close an
/// abbreviation such as "e.g." or "i.e.".
pub open spec fn ends_sentence(t: Seq<u8>, p: int) -> bool {
    &&& 0 <= p < t.len()
    &&& t[p] == 0x2Eu8
    &&& (p + 1 == t.len() || is_ascii_ws(t[p + 1]))
    &&& !closes_abbreviation(t, p)
}

/// The ASCII letters.
pub open spec fn is_ascii_letter(b: u8) -> bool {
    (0x41u8 <= b <= 0x5Au8) || (0x61u8 <= b <= 0x7Au8)
}

/// Whether the full stop at `p` closes an abbreviation of single letters
/// such as "e.g.": the byte before it is a letter that follows another full
/// stop, which itself follows a letter.
pub open spec fn closes_abbreviation(t: Seq<u8>, p: int) -> bool {
    &&& p >= 3
    &&& is_ascii_letter(t[p - 1])
    &&& t[p - 2] == 0x2Eu8
    &&& is_ascii_letter(t[p - 3])
}

fn is_letter(b: u8) -> (res: bool)
    ensures
        res == is_ascii_letter(b),
{
    (0x41 <= b && b <= 0x5A) || (0x61 <= b && b <= 0x7A)
}

/// The position of the first full stop at or after `from` that ends a
/// sentence of `t`; the length of `t` when there is none.
pub open spec fn sentence_end(t: Seq<u8>, from: int) -> int
    decreases t.len() - from,
{
    if from < 0 || from >= t.len() {
        t.len() as int
    } else if ends_sentence(t, from) {
        from
    } else {
        sentence_end(t, from + 1)
    }
}

/// The first sentence of `t`, without the full stop that ends it.
pub open spec fn first_sentence(t: Seq<u8>) -> Seq<u8> {
    t.subrange(0, sentence_end(t, 0))
}

/// The message that a documentation text gives: the first sentence of the
/// text with surrounding whitespace removed.
pub open spec fn message_of(text: Seq<u8>) -> Seq<u8> {
    first_sentence(trim_ascii(text))
}

/// The search for the end of a sentence finds the first full stop that
/// ends one, or the end of the text when none does.
pub proof fn lemma_sentence_end(t: Seq<u8>, from: int)
    requires
        0 <= from <= t.len(),
    ensures
        from <= sentence_end(t, from) <= t.len(),
        sentence_end(t, from) == t.len() || ends_sentence(t, sentence_end(t, from)),
        forall|j: int| from <= j < sentence_end(t, from) ==> !#[trigger] ends_sentence(t, j),
    decreases t.len() - from,
{
    if from < t.len() && !ends_sentence(t, from) {
        lemma_sentence_end(t, from + 1);
    }
}

/// An index in front of an ASCII byte, and the index right after it, are
/// character boundaries of valid UTF-8.
proof fn lemma_ascii_boundaries(bytes: Seq<u8>, i: int)
    requires
        valid_utf8(bytes),
        0 <= i < bytes.len(),
        bytes[i] < 0x80,
    ensures
        is_char_boundary(bytes, i),
        is_char_boundary(bytes, i + 1),
{
    is_char_boundary_iff_not_is_continuation_byte(bytes, i);
    if i + 1 == bytes.len() {
        is_char_boundary_start_end_of_seq(bytes);
    } else {
        valid_utf8_split(bytes, i);
        let rest = bytes.subrange(i, bytes.len() as int);
        assert(valid_utf8(rest));
        assert(rest[0] == bytes[i]);
        assert(length_of_first_scalar(rest) == 1);
        assert(valid_utf8(pop_first_scalar(rest)));
        assert(is_char_boundary(rest, 1)) by {
            reveal_with_fuel(is_char_boundary, 2);
        }
        is_char_boundary_iff_not_is_continuation_byte(rest, 1);
        assert(rest[1] == bytes[i + 1]);
        is_char_boundary_iff_not_is_continuation_byte(bytes, i + 1);
    }
}

proof fn lemma_trim_start_skip(s: Seq<u8>, start: int)
    requires
        0 <= start < s.len(),
        is_ascii_ws(s[start]),
    ensures
        trim_ascii_start(s.subrange(start, s.len() as int)) == trim_ascii_start(
            s.subrange(start + 1, s.len() as int),
        ),
{
    let r = s.subrange(start, s.len() as int);
    assert(r.drop_first() =~= s.subrange(start + 1, s.len() as int));
}

proof fn lemma_trim_end_skip(s: Seq<u8>, end: int)
    requires
        0 < end <= s.len(),
        is_ascii_ws(s[end - 1]),
    ensures
        trim_ascii_end(s.subrange(0, end)) == trim_ascii_end(s.subrange(0, end - 1)),
{
    let r = s.subrange(0, end);
    assert(r.drop_last() =~= s.subrange(0, end - 1));
}

proof fn lemma_trim_start_shape(s: Seq<u8>)
    ensures
        trim_ascii_start(s).len() <= s.len(),
        trim_ascii_start(s) == s.subrange(s.len() - trim_ascii_start(s).len(), s.len() as int),
        trim_ascii_start(s).len() > 0 ==> !is_ascii_ws(trim_ascii_start(s)[0]),
    decreases s.len(),
{
    if s.len() > 0 && is_ascii_ws(s[0]) {
        lemma_trim_start_shape(s.drop_first());
        let r = trim_ascii_start(s.drop_first());
        assert(s.drop_first().subrange(s.len() - 1 - r.len(), s.len() - 1) =~= s.subrange(
            s.len() - r.len(),
            s.len() as int,
        ));
    } else {
        assert(s.subrange(0, s.len() as int) =~= s);
    }
}

proof fn lemma_trim_end_shape(s: Seq<u8>)
    ensures
        trim_ascii_end(s).len() <= s.len(),
        trim_ascii_end(s) == s.subrange(0, trim_ascii_end(s).len() as int),
        trim_ascii_end(s).len() > 0 ==> !is_ascii_ws(trim_ascii_end(s).last()),
    decreases s.len(),
{
    if s.len() > 0 && is_ascii_ws(s.last()) {
        lemma_trim_end_shape(s.drop_last());
        let r = trim_ascii_end(s.drop_last());
        assert(s.drop_last().subrange(0, r.len() as int) =~= s.subrange(0, r.len() as int));
    } else {
        assert(s.subrange(0, s.len() as int) =~= s);
    }
}

/// The text that a message is taken from is a part of the documentation
/// that neither starts nor ends with whitespace, and the message is a prefix
/// of it: the whole of it when no full stop in it ends a sentence.
pub proof fn lemma_message_of(text: Seq<u8>)
    ensures
        ({
            let t = trim_ascii(text);
            &&& 0 <= trim_offset(text) && trim_offset(text) + t.len() <= text.len()
            &&& t == text.subrange(trim_offset(text), trim_offset(text) + t.len())
            &&& t.len() > 0 ==> !is_ascii_ws(t[0]) && !is_ascii_ws(t.last())
            &&& message_of(text).len() <= t.len()
            &&& message_of(text) == t.subrange(0, message_of(text).len() as int)
            &&& (forall|i: int| 0 <= i < t.len() ==> !#[trigger] ends_sentence(t, i))
                ==> message_of(text) == t
        }),
{
    let a = trim_ascii_start(text);
    let t = trim_ascii(text);
    lemma_trim_start_shape(text);
    lemma_trim_end_shape(a);
    let start = text.len() - a.len();
    assert(t =~= text.subrange(start, start + t.len()));
    if t.len() > 0 {
        assert(t[0] == a[0]);
    }
    lemma_sentence_end(t, 0);
    if forall|i: int| 0 <= i < t.len() ==> !#[trigger] ends_sentence(t, i) {
        assert(sentence_end(t, 0) == t.len());
        assert(t.subrange(0, t.len() as int) =~= t);
    }
}

/// `text` without its leading and trailing ASCII whitespace.
pub fn trim_ascii_str(text: &str) -> (res: &str)
    ensures
        res.spec_bytes() == trim_ascii(text.spec_bytes()),
{
    let bytes = text.as_bytes();
    let len = bytes.len();
    let ghost s = text.spec_bytes();
    proof {
        encode_utf8_valid_utf8(text@);
        assert(s.subrange(0, len as int) =~= s);
    }
    let mut start: usize = 0;
    while start < len && (bytes[start] == 0x20 || bytes[start] == 0x09 || bytes[start] == 0x0A
        || bytes[start] == 0x0C || bytes[start] == 0x0D)
        invariant
            bytes@ == s,
            len == s.len(),
            start <= len,
            trim_ascii_start(s) == trim_ascii_start(s.subrange(start as int, len as int)),
            start > 0 ==> is_ascii_ws(s[start - 1]),
        decreases len - start,
    {
        proof {
            lemma_trim_start_skip(s, start as int);
        }
        start = start + 1;
    }
    let ghost t = s.subrange(start as int, len as int);
    proof {
        if start < len {
            assert(!is_ascii_ws(t[0]));
            assert(trim_ascii_start(t) == t);
        } else {
            assert(t.len() == 0);
        }
    }
    let mut end: usize = len;
    while end > start && (bytes[end - 1] == 0x20 || bytes[end - 1] == 0x09 || bytes[end - 1]
        == 0x0A || bytes[end - 1] == 0x0C || bytes[end - 1] == 0x0D)
        invariant
            bytes@ == s,
            len == s.len(),
            start <= end <= len,
            t == s.subrange(start as int, len as int),
            trim_ascii_end(t) == trim_ascii_end(s.subrange(start as int, end as int)),
            end < len ==> is_ascii_ws(s[end as int]),
        decreases end - start,
    {
        proof {
            let u = s.subrange(start as int, end as int);
            assert(u.drop_last() =~= s.subrange(start as int, end - 1));
        }
        end = end - 1;
    }
    proof {
        let u = s.subrange(start as int, end as int);
        if end > start {
            assert(!is_ascii_ws(u.last()));
        }
        assert(trim_ascii_end(u) == u);
        if start == len {
            is_char_boundary_start_end_of_seq(s);
        } else if start == 0 {
            is_char_boundary_start_end_of_seq(s);
        } else {
            lemma_ascii_boundaries(s, start - 1);
        }
    }
    let (_, rest) = text.split_at(start);
    let ghost r = rest.spec_bytes();
    proof {
        assert(r =~= s.subrange(start as int, len as int));
        encode_utf8_valid_utf8(rest@);
        if end == len {
            is_char_boundary_start_end_of_seq(r);
            assert(r.len() == end - start);
        } else {
            assert(r[end - start] == s[end as int]);
            lemma_ascii_boundaries(r, end - start);
        }
    }
    let (mid, _) = rest.split_at(end - start);
    proof {
        assert(mid.spec_bytes() =~= s.subrange(start as int, end as int));
    }
    mid
}

/// Trims whitespace and keeps at most the first sentence of `text`: the
/// text up to the first full stop that ends a sentence, where the full stops
/// of abbreviations such as "e.g." do not count.
pub fn errormsg(text: &str) -> (res: &str)
    ensures
        res.spec_bytes() == message_of(text.spec_bytes()),
        ({
            let t = trim_ascii(text.spec_bytes());
            let k = res.spec_bytes().len() as int;
            &&& k <= t.len()
            &&& res.spec_bytes() == t.subrange(0, k)
            &&& k == t.len() || ends_sentence(t, k)
            &&& forall|j: int| 0 <= j < k ==> !#[trigger] ends_sentence(t, j)
        }),
{
    let trimmed = trim_ascii_str(text);
    let bytes = trimmed.as_bytes();
    let len = bytes.len();
    let ghost t = trimmed.spec_bytes();
    proof {
        encode_utf8_valid_utf8(trimmed@);
        lemma_sentence_end(t, 0);
    }
    let mut pos: usize = 0;
    while pos < len
        invariant
            bytes@ == t,
            t == trimmed.spec_bytes(),
            t == trim_ascii(text.spec_bytes()),
            len == t.len(),
            valid_utf8(t),
            pos <= len,
            sentence_end(t, pos as int) == sentence_end(t, 0),
        decreases len - pos,
    {
        if bytes[pos] == 0x2E && (pos + 1 == len || (bytes[pos + 1] == 0x20 || bytes[pos + 1]
            == 0x09 || bytes[pos + 1] == 0x0A || bytes[pos + 1] == 0x0C || bytes[pos + 1] == 0x0D))
            && !(pos >= 3 && is_letter(bytes[pos - 1]) && bytes[pos - 2] == 0x2E && is_letter(
            bytes[pos - 3],
        )) {
            proof {
                assert(ends_sentence(t, pos as int));
                lemma_sentence_end(t, 0);
                lemma_ascii_boundaries(t, pos as int);
            }
            let (head, _) = trimmed.split_at(pos);
            proof {
                assert(head.spec_bytes() =~= t.subrange(0, pos as int));
            }
            return head;
        }
        pos = pos + 1;
    }
    proof {
        lemma_sentence_end(t, 0);
        assert(sentence_end(t, 0) == t.len());
        assert(t.subrange(0, t.len() as int) =~= t);
    }
    trimmed
}

} // verus!
