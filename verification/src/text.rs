//! Small operations on text, stated over sequences of characters and, where
//! room is counted in bytes, over their UTF-8 encoding.

use vstd::prelude::*;
use vstd::std_specs::iter::IteratorSpec;
use vstd::string::StringSliceAdditionalSpecFns;
use vstd::utf8::decode_utf8;
use vstd::utf8::decode_utf8_encode_utf8;
use vstd::utf8::decode_utf8_split;
use vstd::utf8::encode_utf8;
use vstd::utf8::encode_utf8_decode_utf8;
use vstd::utf8::encode_utf8_valid_utf8;
use vstd::utf8::is_char_boundary;
use vstd::utf8::valid_utf8;
use vstd::utf8::valid_utf8_split;

verus! {

/// Whether two string slices hold the same characters.
pub fn str_eq(a: &str, b: &str) -> (same: bool)
    ensures
        same == (a@ == b@),
{
    let left = a.as_bytes();
    let right = b.as_bytes();
    proof {
        encode_utf8_decode_utf8(a@);
        encode_utf8_decode_utf8(b@);
    }
    if left.len() != right.len() {
        return false;
    }
    let mut i: usize = 0;
    while i < left.len()
        invariant
            i <= left.len(),
            left.len() == right.len(),
            left@ == a.spec_bytes(),
            right@ == b.spec_bytes(),
            forall|j: int| 0 <= j < i ==> left@[j] == right@[j],
        decreases left.len() - i,
    {
        if left[i] != right[i] {
            return false;
        }
        i += 1;
    }
    assert(left@ =~= right@);
    true
}

/// The first `count` characters of `text`; all of it where it has fewer.
pub open spec fn prefix_of(text: Seq<char>, count: nat) -> Seq<char> {
    if count >= text.len() {
        text
    } else {
        text.take(count as int)
    }
}

/// The first `count` characters of `text`, or all of it where it has fewer.
pub fn prefix(text: &str, count: usize) -> (head: String)
    ensures
        head@ == prefix_of(text@, count as nat),
{
    let total = text.unicode_len();
    if count >= total {
        text.to_owned()
    } else {
        text.substring_char(0, count).to_owned()
    }
}

/// The number of characters of `text` before its first line feed; its
/// length where it has none.
pub open spec fn line_end(text: Seq<char>) -> int
    decreases text.len(),
{
    if text.len() == 0 || text[0] == '\n' {
        0
    } else {
        1 + line_end(text.drop_first())
    }
}

/// The first line of `text`: the characters before its first line feed,
/// without the carriage return that may stand directly before that line
/// feed. A text without a line feed is its own first line, and the first
/// line of the empty text is empty.
pub open spec fn first_line_of(text: Seq<char>) -> Seq<char> {
    let end = line_end(text);
    if end < text.len() && end > 0 && text[end - 1] == '\r' {
        text.take(end - 1)
    } else {
        text.take(end)
    }
}

/// `line_end` is the one position before which no line feed stands and at
/// which one does, or the text ends.
pub proof fn lemma_line_end(text: Seq<char>, at: int)
    ensures
        0 <= line_end(text) <= text.len(),
        line_end(text) < text.len() ==> text[line_end(text)] == '\n',
        forall|j: int| 0 <= j < line_end(text) ==> text[j] != '\n',
        ({
            &&& 0 <= at <= text.len()
            &&& (at < text.len() ==> text[at] == '\n')
            &&& (forall|j: int| 0 <= j < at ==> text[j] != '\n')
        }) ==> at == line_end(text),
    decreases text.len(),
{
    if text.len() == 0 || text[0] == '\n' {
    } else {
        let rest = text.drop_first();
        lemma_line_end(rest, at - 1);
        assert forall|j: int| 0 <= j < line_end(text) implies text[j] != '\n' by {
            if j > 0 {
                assert(text[j] == rest[j - 1]);
            }
        }
        if 0 <= at <= text.len() && (at < text.len() ==> text[at] == '\n') && (forall|j: int|
            0 <= j < at ==> text[j] != '\n') {
            assert(at > 0);
            assert(at - 1 < rest.len() ==> rest[at - 1] == '\n');
            assert forall|j: int| 0 <= j < at - 1 implies rest[j] != '\n' by {
                assert(rest[j] == text[j + 1]);
            }
        }
    }
}

/// The first line of `text`.
pub fn first_line(text: &str) -> (line: String)
    ensures
        line@ == first_line_of(text@),
{
    let total = text.unicode_len();
    let mut chars = text.chars();
    let mut at: usize = 0;
    let mut after_return = false;
    let mut found = false;
    loop
        invariant_except_break
            chars.remaining() == text@.skip(at as int),
            chars.obeys_prophetic_iter_laws(),
            !found,
        invariant
            total == text@.len(),
            at <= total,
            forall|j: int| 0 <= j < at ==> text@[j] != '\n',
            after_return == (at > 0 && text@[at - 1] == '\r'),
        ensures
            found ==> at < total && text@[at as int] == '\n',
            !found ==> at == total,
        decreases total - at,
    {
        match chars.next() {
            Some(c) => {
                assert(c == text@[at as int]);
                if c == '\n' {
                    found = true;
                    break;
                }
                assert(text@.skip(at as int).drop_first() =~= text@.skip(at + 1));
                after_return = c == '\r';
                at += 1;
            },
            None => {
                break;
            },
        }
    }
    proof {
        lemma_line_end(text@, at as int);
    }
    let end = if found && after_return {
        at - 1
    } else {
        at
    };
    text.substring_char(0, end).to_owned()
}

/// The characters of `text` after its last slash; all of it where it has none.
pub open spec fn after_last_slash(text: Seq<char>) -> Seq<char>
    decreases text.len(),
{
    if text.len() == 0 {
        text
    } else if text.last() == '/' {
        Seq::empty()
    } else {
        after_last_slash(text.drop_last()).push(text.last())
    }
}

/// The ending that a repository's address may carry after the name.
pub open spec fn git_suffix() -> Seq<char> {
    seq!['.', 'g', 'i', 't']
}

/// `name` without the `.git` at its end, however often it stands there.
pub open spec fn without_git_suffix(name: Seq<char>) -> Seq<char>
    decreases name.len(),
{
    if name.len() >= 4 && name.skip(name.len() - 4) == git_suffix() {
        without_git_suffix(name.take(name.len() - 4))
    } else {
        name
    }
}

/// The name of the repository at the address `url`: what stands after the
/// last slash, without `.git` at its end.
pub open spec fn repo_name_of(url: Seq<char>) -> Seq<char> {
    without_git_suffix(after_last_slash(url))
}

/// What stands after the last slash is the end of the text from the one
/// place behind which no slash stands and before which one does, or the
/// text begins.
pub proof fn lemma_after_last_slash(text: Seq<char>, from: int)
    requires
        0 <= from <= text.len(),
        from > 0 ==> text[from - 1] == '/',
        forall|j: int| from <= j < text.len() ==> text[j] != '/',
    ensures
        after_last_slash(text) == text.skip(from),
    decreases text.len(),
{
    if text.len() == 0 {
        assert(text.skip(from) =~= text);
    } else if text.last() == '/' {
        assert(from == text.len());
        assert(text.skip(from) =~= Seq::<char>::empty());
    } else {
        let front = text.drop_last();
        assert(from < text.len());
        lemma_after_last_slash(front, from);
        assert(front.skip(from).push(text.last()) =~= text.skip(from));
    }
}

/// The characters of `text`, one by one.
pub fn chars_of(text: &str) -> (chars: Vec<char>)
    ensures
        chars@ == text@,
{
    let total = text.unicode_len();
    let mut iter = text.chars();
    let mut chars: Vec<char> = Vec::new();
    loop
        invariant_except_break
            iter.remaining() == text@.skip(chars@.len() as int),
            iter.obeys_prophetic_iter_laws(),
        invariant
            total == text@.len(),
            chars@.len() <= total,
            chars@ == text@.take(chars@.len() as int),
        ensures
            chars@.len() == total,
        decreases total - chars@.len(),
    {
        match iter.next() {
            Some(c) => {
                let ghost at = chars@.len() as int;
                assert(c == text@[at]);
                assert(text@.skip(at).drop_first() =~= text@.skip(at + 1));
                chars.push(c);
                assert(chars@ =~= text@.take(at + 1));
            },
            None => {
                break;
            },
        }
    }
    assert(text@.take(total as int) =~= text@);
    chars
}

/// The name of the repository at the address `url`.
pub fn repo_name(url: &str) -> (name: String)
    ensures
        name@ == repo_name_of(url@),
{
    let chars = chars_of(url);
    let total = chars.len();
    let mut start = total;
    while start > 0 && chars[start - 1] != '/'
        invariant
            start <= total,
            total == chars@.len(),
            forall|j: int| start <= j < total ==> chars@[j] != '/',
        decreases start,
    {
        start -= 1;
    }
    proof {
        lemma_after_last_slash(url@, start as int);
    }
    let mut end = total;
    while end - start >= 4 && chars[end - 4] == '.' && chars[end - 3] == 'g' && chars[end - 2] == 'i'
        && chars[end - 1] == 't'
        invariant
            start <= end <= total,
            total == chars@.len(),
            chars@ == url@,
            without_git_suffix(url@.skip(start as int)) == without_git_suffix(
                url@.subrange(start as int, end as int),
            ),
        decreases end,
    {
        proof {
            let name = url@.subrange(start as int, end as int);
            assert(name.skip(name.len() - 4) =~= git_suffix());
            assert(name.take(name.len() - 4) =~= url@.subrange(start as int, end - 4));
        }
        end -= 4;
    }
    proof {
        let name = url@.subrange(start as int, end as int);
        if name.len() >= 4 {
            let tail = name.skip(name.len() - 4);
            assert(tail[0] == chars@[end - 4] && tail[1] == chars@[end - 3] && tail[2] == chars@[end
                - 2] && tail[3] == chars@[end - 1]);
            assert(git_suffix()[0] == '.' && git_suffix()[1] == 'g' && git_suffix()[2] == 'i'
                && git_suffix()[3] == 't');
            assert(tail != git_suffix());
        }
        assert(without_git_suffix(name) == name);
    }
    url.substring_char(start, end).to_owned()
}

/// The last place at or before `limit` at which a character of the UTF-8
/// text `line` begins, or at which the text ends.
pub open spec fn boundary_before(line: Seq<u8>, limit: int) -> int
    decreases limit,
{
    if limit <= 0 {
        0
    } else if is_char_boundary(line, limit) {
        limit
    } else {
        boundary_before(line, limit - 1)
    }
}

/// The longest run of whole characters from the start of `text` whose
/// UTF-8 encoding has at most `limit` bytes.
pub open spec fn fitting_of(text: Seq<char>, limit: nat) -> Seq<char> {
    let line = encode_utf8(text);
    if line.len() <= limit {
        text
    } else {
        decode_utf8(line.subrange(0, boundary_before(line, limit as int)))
    }
}

/// `boundary_before` is a place at which a character begins, it is not
/// beyond the limit, and no character begins between it and the limit.
pub proof fn lemma_boundary_before(line: Seq<u8>, limit: int)
    requires
        valid_utf8(line),
        0 <= limit,
    ensures
        0 <= boundary_before(line, limit) <= limit,
        is_char_boundary(line, boundary_before(line, limit)),
        forall|k: int| boundary_before(line, limit) < k <= limit ==> !is_char_boundary(line, k),
    decreases limit,
{
    if limit > 0 && !is_char_boundary(line, limit) {
        lemma_boundary_before(line, limit - 1);
    }
}

/// What fits is a beginning of the text, its encoding is the beginning of
/// the text's encoding up to a place where a character begins, and it has
/// no more bytes than the limit.
pub proof fn lemma_fitting_of(text: Seq<char>, limit: nat)
    ensures
        encode_utf8(fitting_of(text, limit)).len() <= limit,
        fitting_of(text, limit).len() <= text.len(),
        fitting_of(text, limit) == text.take(fitting_of(text, limit).len() as int),
        encode_utf8(text).len() > limit ==> encode_utf8(fitting_of(text, limit)) == encode_utf8(
            text,
        ).subrange(0, boundary_before(encode_utf8(text), limit as int)),
{
    let line = encode_utf8(text);
    encode_utf8_valid_utf8(text);
    encode_utf8_decode_utf8(text);
    if line.len() <= limit {
        assert(text.take(text.len() as int) =~= text);
    } else {
        let cut = boundary_before(line, limit as int);
        lemma_boundary_before(line, limit as int);
        let head = line.subrange(0, cut);
        let rest = line.subrange(cut, line.len() as int);
        valid_utf8_split(line, cut);
        decode_utf8_split(line, cut);
        decode_utf8_encode_utf8(head);
        assert(text =~= decode_utf8(head) + decode_utf8(rest));
        assert(text.take(decode_utf8(head).len() as int) =~= decode_utf8(head));
    }
}

/// The encoding of two texts, one after the other, is the encoding of the
/// one followed by the encoding of the other.
pub proof fn lemma_encode_joined(front: Seq<char>, back: Seq<char>)
    ensures
        encode_utf8(front + back) == encode_utf8(front) + encode_utf8(back),
    decreases front.len(),
{
    if front.len() == 0 {
        assert(front + back =~= back);
        assert(encode_utf8(front) + encode_utf8(back) =~= encode_utf8(back));
    } else {
        lemma_encode_joined(front.drop_first(), back);
        assert((front + back).drop_first() =~= front.drop_first() + back);
        assert((front + back)[0] == front[0]);
        assert(encode_utf8(front + back) =~= encode_utf8(front) + encode_utf8(back));
    }
}

/// The longest run of whole characters from the start of `text` whose
/// UTF-8 encoding has at most `limit` bytes.
pub fn fitting(text: &str, limit: usize) -> (head: &str)
    ensures
        head@ == fitting_of(text@, limit as nat),
{
    proof {
        encode_utf8_valid_utf8(text@);
    }
    let total = text.as_bytes().len();
    if total <= limit {
        return text;
    }
    let mut cut = limit;
    while cut > 0 && !text.is_char_boundary(cut)
        invariant
            cut <= limit,
            valid_utf8(text.spec_bytes()),
            boundary_before(text.spec_bytes(), limit as int) == boundary_before(
                text.spec_bytes(),
                cut as int,
            ),
        decreases cut,
    {
        cut -= 1;
    }
    proof {
        lemma_boundary_before(text.spec_bytes(), cut as int);
    }
    let (head, _) = text.split_at(cut);
    proof {
        encode_utf8_decode_utf8(head@);
    }
    head
}

} // verus!
