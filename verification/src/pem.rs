//! The framing of a PEM container: input that comes without the PKCS7
//! header is trimmed and wrapped before it is parsed.

use vstd::prelude::*;
use vstd::string::*;
use vstd::utf8::encode_utf8;

verus! {

/// The line that opens a framed container.
pub open spec fn header() -> Seq<char> {
    "-----BEGIN PKCS7-----"@
}

/// The line that closes a framed container.
pub open spec fn footer() -> Seq<char> {
    "-----END PKCS7-----"@
}

/// The characters with the Unicode property `White_Space`.
pub open spec fn is_white_space(c: char) -> bool {
    let code = c as u32;
    ||| 0x09 <= code <= 0x0d
    ||| code == 0x20
    ||| code == 0x85
    ||| code == 0xa0
    ||| code == 0x1680
    ||| 0x2000 <= code <= 0x200a
    ||| code == 0x2028
    ||| code == 0x2029
    ||| code == 0x202f
    ||| code == 0x205f
    ||| code == 0x3000
}

/// `text` without its leading white space.
pub open spec fn trim_start(text: Seq<char>) -> Seq<char>
    decreases text.len(),
{
    if text.len() > 0 && is_white_space(text.first()) {
        trim_start(text.drop_first())
    } else {
        text
    }
}

/// `text` without its trailing white space.
pub open spec fn trim_end(text: Seq<char>) -> Seq<char>
    decreases text.len(),
{
    if text.len() > 0 && is_white_space(text.last()) {
        trim_end(text.drop_last())
    } else {
        text
    }
}

/// `text` without its leading and trailing white space.
pub open spec fn trimmed(text: Seq<char>) -> Seq<char> {
    trim_end(trim_start(text))
}

/// The container that is handed to the parser for the input `pem`: the
/// input itself where it starts with the header, else the trimmed input
/// between header and footer, each on a line of its own.
pub open spec fn framed(pem: Seq<char>) -> Seq<char> {
    if header().is_prefix_of(pem) {
        pem
    } else {
        header() + seq!['\n'] + trimmed(pem) + seq!['\n'] + footer()
    }
}

/// Dropping `count` leading white space characters is what `trim_start`
/// does, where the character after them is none.
pub proof fn lemma_trim_start(text: Seq<char>, count: int)
    requires
        0 <= count <= text.len(),
        forall|j: int| 0 <= j < count ==> is_white_space(#[trigger] text[j]),
        count == text.len() || !is_white_space(text[count]),
    ensures
        trim_start(text) == text.subrange(count, text.len() as int),
    decreases count,
{
    if count == 0 {
        assert(text.subrange(0, text.len() as int) =~= text);
    } else {
        let rest = text.drop_first();
        assert forall|j: int| 0 <= j < count - 1 implies is_white_space(#[trigger] rest[j]) by {
            assert(rest[j] == text[j + 1]);
        }
        lemma_trim_start(rest, count - 1);
        assert(rest.subrange(count - 1, rest.len() as int) =~= text.subrange(
            count,
            text.len() as int,
        ));
    }
}

/// Keeping the first `keep` characters is what `trim_end` does, where all
/// that follows them is white space and the last of them is none.
pub proof fn lemma_trim_end(text: Seq<char>, keep: int)
    requires
        0 <= keep <= text.len(),
        forall|j: int| keep <= j < text.len() ==> is_white_space(#[trigger] text[j]),
        keep == 0 || !is_white_space(text[keep - 1]),
    ensures
        trim_end(text) == text.subrange(0, keep),
    decreases text.len() - keep,
{
    if keep == text.len() {
        assert(text.subrange(0, keep) =~= text);
    } else {
        let rest = text.drop_last();
        assert forall|j: int| keep <= j < rest.len() implies is_white_space(#[trigger] rest[j]) by {
            assert(rest[j] == text[j]);
        }
        lemma_trim_end(rest, keep);
        assert(rest.subrange(0, keep) =~= text.subrange(0, keep));
    }
}

/// Whether `c` has the Unicode property `White_Space`.
pub fn is_space(c: char) -> (space: bool)
    ensures
        space == is_white_space(c),
{
    let code: u32 = c as u32;
    (0x09 <= code && code <= 0x0d) || code == 0x20 || code == 0x85 || code == 0xa0 || code
        == 0x1680 || (0x2000 <= code && code <= 0x200a) || code == 0x2028 || code == 0x2029 || code
        == 0x202f || code == 0x205f || code == 0x3000
}

/// Whether `text` starts with the header of a framed container.
pub fn starts_with_header(text: &str) -> (starts: bool)
    ensures
        starts == header().is_prefix_of(text@),
{
    let head = "-----BEGIN PKCS7-----";
    let head_len = head.unicode_len();
    if text.unicode_len() < head_len {
        return false;
    }
    let mut i: usize = 0;
    while i < head_len
        invariant
            i <= head_len,
            head_len == head@.len(),
            head@ == header(),
            head_len <= text@.len(),
            forall|j: int| 0 <= j < i ==> head@[j] == text@[j],
        decreases head_len - i,
    {
        if head.get_char(i) != text.get_char(i) {
            assert(head@[i as int] != text@.subrange(0, head_len as int)[i as int]);
            return false;
        }
        i += 1;
    }
    assert(head@ =~= text@.subrange(0, head_len as int));
    true
}

/// `text` without its leading and trailing white space.
pub fn trim(text: &str) -> (inner: &str)
    ensures
        inner@ == trimmed(text@),
{
    let len = text.unicode_len();
    let mut start: usize = 0;
    while start < len && is_space(text.get_char(start))
        invariant
            start <= len,
            len == text@.len(),
            forall|j: int| 0 <= j < start ==> is_white_space(#[trigger] text@[j]),
        decreases len - start,
    {
        start += 1;
    }
    let mut end: usize = len;
    while end > start && is_space(text.get_char(end - 1))
        invariant
            start <= end <= len,
            len == text@.len(),
            forall|j: int| end <= j < len ==> is_white_space(#[trigger] text@[j]),
        decreases end,
    {
        end -= 1;
    }
    proof {
        let tail = text@.subrange(start as int, len as int);
        lemma_trim_start(text@, start as int);
        assert forall|j: int| end - start <= j < tail.len() implies is_white_space(
            #[trigger] tail[j],
        ) by {
            assert(tail[j] == text@[j + start]);
        }
        if end > start {
            assert(tail[end - start - 1] == text@[end - 1]);
        }
        lemma_trim_end(tail, end - start);
        assert(tail.subrange(0, end - start) =~= text@.subrange(start as int, end as int));
    }
    text.substring_char(start, end)
}

/// Frames a container for the parser: input that starts with the header is
/// taken as it is; any other input is trimmed and set between header and
/// footer.
pub fn frame_pem(pem: &str) -> (container: String)
    ensures
        container@ == framed(pem@),
{
    if starts_with_header(pem) {
        String::from_str(pem)
    } else {
        let mut container = String::from_str("-----BEGIN PKCS7-----");
        container.append("\n");
        container.append(trim(pem));
        container.append("\n");
        container.append("-----END PKCS7-----");
        proof {
            reveal_strlit("\n");
            assert("\n"@ =~= seq!['\n']);
        }
        container
    }
}

/// The bytes of `Proc-Type:`, with which the headers of an encrypted PEM
/// text begin.
pub open spec fn encryption_marker() -> Seq<u8> {
    seq![0x50u8, 0x72u8, 0x6fu8, 0x63u8, 0x2du8, 0x54u8, 0x79u8, 0x70u8, 0x65u8, 0x3au8]
}

/// The encryption marker stands at position `at` of `bytes`.
pub open spec fn marker_at(bytes: Seq<u8>, at: int) -> bool {
    0 <= at && at + 10 <= bytes.len() && bytes.subrange(at, at + 10) == encryption_marker()
}

/// The encryption marker stands somewhere in `bytes`.
pub open spec fn names_encryption(bytes: Seq<u8>) -> bool {
    exists|at: int| marker_at(bytes, at)
}

fn is_marker_at(bytes: &[u8], at: usize) -> (found: bool)
    requires
        at + 10 <= bytes@.len(),
    ensures
        found == marker_at(bytes@, at as int),
{
    let found = bytes[at] == 0x50 && bytes[at + 1] == 0x72 && bytes[at + 2] == 0x6f && bytes[at + 3]
        == 0x63 && bytes[at + 4] == 0x2d && bytes[at + 5] == 0x54 && bytes[at + 6] == 0x79
        && bytes[at + 7] == 0x70 && bytes[at + 8] == 0x65 && bytes[at + 9] == 0x3a;
    proof {
        let window = bytes@.subrange(at as int, at + 10);
        let marker = encryption_marker();
        if found {
            assert(window =~= marker);
        } else {
            assert(window[0] == bytes@[at + 0] && window[1] == bytes@[at + 1] && window[2]
                == bytes@[at + 2] && window[3] == bytes@[at + 3] && window[4] == bytes@[at + 4]
                && window[5] == bytes@[at + 5] && window[6] == bytes@[at + 6] && window[7]
                == bytes@[at + 7] && window[8] == bytes@[at + 8] && window[9] == bytes@[at + 9]);
            assert(window != marker);
        }
    }
    found
}

/// Whether `text` holds the marker of PEM encryption headers. A text
/// without it never makes the parser ask for a pass phrase.
pub fn has_encryption_header(text: &str) -> (found: bool)
    ensures
        found == names_encryption(text.spec_bytes()),
{
    let bytes = text.as_bytes();
    let len = bytes.len();
    if len < 10 {
        return false;
    }
    let mut at: usize = 0;
    while at <= len - 10
        invariant
            10 <= len == bytes@.len(),
            at <= len - 10 + 1,
            bytes@ == text.spec_bytes(),
            forall|earlier: int| 0 <= earlier < at ==> !marker_at(bytes@, earlier),
        decreases len - at,
    {
        if is_marker_at(bytes, at) {
            return true;
        }
        at += 1;
    }
    false
}

/// Frames a container as [`frame_pem`] does, but hands it out only where
/// it has no more than `limit` bytes.
pub fn frame_within(pem: &str, limit: usize) -> (container: Option<String>)
    ensures
        match container {
            Some(container) => container@ == framed(pem@) && encode_utf8(container@).len() <= limit,
            None => encode_utf8(framed(pem@)).len() > limit,
        },
{
    let container = frame_pem(pem);
    if container.as_str().as_bytes().len() <= limit {
        Some(container)
    } else {
        None
    }
}

} // verus!
