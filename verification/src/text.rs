use crate::util::text_eq;
use vstd::prelude::*;
use vstd::utf8::{
    decode_utf8, encode_utf8, is_ascii_chars, is_ascii_chars_encode_utf8, valid_utf8,
};

verus! {

/// What `String::from_utf8_lossy` makes of `bytes`: their text, with the
/// replacement character where they are no UTF-8.
pub uninterp spec fn lossy_text(bytes: Seq<u8>) -> Seq<char>;

/// The text of a message with the given bytes: the text that they encode
/// where they are UTF-8, and else what `String::from_utf8_lossy` makes of
/// them.
pub open spec fn text_of(bytes: Seq<u8>) -> Seq<char> {
    if valid_utf8(bytes) {
        decode_utf8(bytes)
    } else {
        lossy_text(bytes)
    }
}

/// Calls `String::from_utf8_lossy` and owns the result. Bytes that are valid
/// UTF-8 give the text they encode; what other bytes give is only named.
#[verifier::external_body]
pub(crate) fn text_of_bytes(bytes: &[u8]) -> (text: String)
    ensures
        text@ == lossy_text(bytes@),
        valid_utf8(bytes@) ==> text@ == decode_utf8(bytes@),
{
    String::from_utf8_lossy(bytes).into_owned()
}

/// Calls `String::push`: the character stands at the end of the text.
#[verifier::external_body]
pub(crate) fn push_char(text: &mut String, c: char)
    ensures
        final(text)@ == old(text)@.push(c),
{
    text.push(c)
}

/// Calls `String::pop`: the last character leaves the text and is
/// returned; an empty text stays empty and gives nothing.
#[verifier::external_body]
pub(crate) fn pop_char(text: &mut String) -> (last: Option<char>)
    ensures
        old(text)@.len() == 0 ==> last is None && final(text)@ == old(text)@,
        old(text)@.len() > 0 ==> last == Some(old(text)@.last()) && final(text)@ == old(
            text,
        )@.drop_last(),
{
    text.pop()
}

/// A text without its last character; the empty text as it is.
pub open spec fn without_last(text: Seq<char>) -> Seq<char> {
    if text.len() > 0 {
        text.drop_last()
    } else {
        text
    }
}

/// The lines of a list, with a line feed between each two.
pub open spec fn joined_lines(lines: Seq<Seq<char>>) -> Seq<char>
    decreases lines.len(),
{
    if lines.len() == 0 {
        Seq::empty()
    } else if lines.len() == 1 {
        lines[0]
    } else {
        joined_lines(lines.drop_last()) + "\n"@ + lines.last()
    }
}

/// Joins the lines of a list, with a line feed between each two.
pub fn join_lines(lines: &Vec<String>) -> (text: String)
    ensures
        text@ == joined_lines(lines.deep_view()),
{
    let mut text = String::new();
    let mut i: usize = 0;
    while i < lines.len()
        invariant
            i <= lines@.len(),
            text@ == joined_lines(lines.deep_view().take(i as int)),
        decreases lines@.len() - i,
    {
        proof {
            let next = lines.deep_view().take(i + 1);
            assert(next.drop_last() =~= lines.deep_view().take(i as int));
        }
        if i > 0 {
            text.append("\n");
        }
        text.append(lines[i].as_str());
        i += 1;
    }
    assert(lines.deep_view().take(i as int) =~= lines.deep_view());
    text
}

/// The line that opens the history of a room.
pub open spec fn welcome_line(room: Seq<char>) -> Seq<char> {
    "✨ Welcome to the "@ + room + " chat!"@
}

/// The line that opens the history of a direct-message channel once the
/// other peer's nickname is known.
pub open spec fn join_line(nickname: Seq<char>) -> Seq<char> {
    "😀 Chatting with "@ + nickname
}

/// A chat line as it is shown: the sender's name, a colon and the text.
pub open spec fn plain_line(name: Seq<char>, message: Seq<char>) -> Seq<char> {
    name + ": "@ + message
}

/// A received line as it is shown: a glyph for the sender's reputation
/// (none for a rating of zero), then the sender's name and the text.
pub open spec fn rated_line(rating: int, nickname: Seq<char>, message: Seq<char>) -> Seq<char> {
    if rating > 0 {
        "😇 "@ + plain_line(nickname, message)
    } else if rating < 0 {
        "👿 "@ + plain_line(nickname, message)
    } else {
        plain_line(nickname, message)
    }
}

/// Builds the line that opens the history of a room.
pub fn format_welcome(room: &str) -> (line: String)
    ensures
        line@ == welcome_line(room@),
{
    let mut line = String::from_str("✨ Welcome to the ");
    line.append(room);
    line.append(" chat!");
    line
}

/// Builds the line that opens the history of a direct-message channel.
pub fn format_join(nickname: &str) -> (line: String)
    ensures
        line@ == join_line(nickname@),
{
    let mut line = String::from_str("😀 Chatting with ");
    line.append(nickname);
    line
}

/// Builds a chat line from the sender's name and the text.
pub fn format_plain(name: &str, message: &str) -> (line: String)
    ensures
        line@ == plain_line(name@, message@),
{
    let mut line = String::from_str(name);
    line.append(": ");
    line.append(message);
    line
}

/// Builds a received line, decorated by the sender's reputation.
pub fn format_rated(rating: i32, nickname: &str, message: &str) -> (line: String)
    ensures
        line@ == rated_line(rating as int, nickname@, message@),
{
    let mut line = if rating > 0 {
        String::from_str("😇 ")
    } else if rating < 0 {
        String::from_str("👿 ")
    } else {
        String::new()
    };
    line.append(format_plain(nickname, message).as_str());
    assert(Seq::<char>::empty() + plain_line(nickname@, message@) =~= plain_line(
        nickname@,
        message@,
    ));
    line
}

/// Adds a string at the end of a list.
pub fn push_text(list: &mut Vec<String>, text: String)
    ensures
        final(list).deep_view() == old(list).deep_view().push(text@),
{
    list.push(text);
}

/// Whether a list of strings holds `item`.
pub fn list_contains(list: &Vec<String>, item: &str) -> (b: bool)
    ensures
        b == list.deep_view().contains(item@),
{
    let mut i: usize = 0;
    while i < list.len()
        invariant
            i <= list@.len(),
            forall|j: int| 0 <= j < i ==> list.deep_view()[j] != item@,
        decreases list@.len() - i,
    {
        if text_eq(list[i].as_str(), item) {
            assert(list.deep_view()[i as int] == item@);
            return true;
        }
        i += 1;
    }
    false
}

/// A copy of a list of strings.
pub fn clone_list(list: &Vec<String>) -> (copy: Vec<String>)
    ensures
        copy.deep_view() == list.deep_view(),
{
    let mut copy: Vec<String> = Vec::new();
    let mut i: usize = 0;
    while i < list.len()
        invariant
            i <= list@.len(),
            copy@.len() == i,
            forall|j: int| 0 <= j < i ==> copy@[j]@ == list@[j]@,
        decreases list@.len() - i,
    {
        copy.push(list[i].clone());
        i += 1;
    }
    copy
}

/// `needle` occurs in `hay` as a run of neighbouring bytes.
pub open spec fn bytes_contain(hay: Seq<u8>, needle: Seq<u8>) -> bool {
    exists|at: int| #[trigger] occurs_at(hay, needle, at)
}

/// `needle` stands in `hay` from position `at` on.
pub open spec fn occurs_at(hay: Seq<u8>, needle: Seq<u8>, at: int) -> bool {
    0 <= at && at + needle.len() <= hay.len() && hay.subrange(at, at + needle.len()) == needle
}

/// One string occurs within another: the bytes of `needle` stand somewhere
/// in the bytes of `hay`.
pub open spec fn text_contains(hay: Seq<char>, needle: Seq<char>) -> bool {
    bytes_contain(encode_utf8(hay), encode_utf8(needle))
}

/// `needle` stands in `hay` from position `at` on, character by character.
pub open spec fn chars_occur_at(hay: Seq<char>, needle: Seq<char>, at: int) -> bool {
    0 <= at && at + needle.len() <= hay.len() && hay.subrange(at, at + needle.len()) == needle
}

/// For texts of ASCII characters, one occurs within the other where its
/// characters stand somewhere in the characters of the other.
pub proof fn lemma_ascii_contains(hay: Seq<char>, needle: Seq<char>)
    requires
        is_ascii_chars(hay),
        is_ascii_chars(needle),
    ensures
        text_contains(hay, needle) == exists|at: int| #[trigger] chars_occur_at(hay, needle, at),
{
    is_ascii_chars_encode_utf8(hay);
    is_ascii_chars_encode_utf8(needle);
    let h = encode_utf8(hay);
    let n = encode_utf8(needle);
    if bytes_contain(h, n) {
        let at = choose|at: int| #[trigger] occurs_at(h, n, at);
        assert forall|j: int| 0 <= j < needle.len() implies hay[at + j] == needle[j] by {
            assert(h.subrange(at, at + n.len())[j] == n[j]);
        }
        assert(hay.subrange(at, at + needle.len()) =~= needle);
        assert(chars_occur_at(hay, needle, at));
    }
    if exists|at: int| #[trigger] chars_occur_at(hay, needle, at) {
        let at = choose|at: int| #[trigger] chars_occur_at(hay, needle, at);
        assert forall|j: int| 0 <= j < n.len() implies h[at + j] == n[j] by {
            assert(hay.subrange(at, at + needle.len())[j] == needle[j]);
        }
        assert(h.subrange(at, at + n.len()) =~= n);
        assert(occurs_at(h, n, at));
    }
}

fn matches_at(hay: &[u8], needle: &[u8], at: usize) -> (b: bool)
    requires
        at + needle@.len() <= hay@.len(),
    ensures
        b == occurs_at(hay@, needle@, at as int),
{
    let size: usize = needle.len();
    let room: usize = hay.len();
    let mut j: usize = 0;
    while j < size
        invariant
            j <= size,
            size == needle@.len(),
            room == hay@.len(),
            at + size <= room,
            forall|k: int| 0 <= k < j ==> hay@[at + k] == needle@[k],
        decreases size - j,
    {
        if hay[at + j] != needle[j] {
            return false;
        }
        j += 1;
    }
    assert(hay@.subrange(at as int, at + needle@.len()) =~= needle@);
    true
}

/// Whether `needle` occurs within `hay`.
pub fn contains_text(hay: &str, needle: &str) -> (b: bool)
    ensures
        b == text_contains(hay@, needle@),
{
    let h = hay.as_bytes();
    let n = needle.as_bytes();
    if n.len() > h.len() {
        return false;
    }
    let last: usize = h.len() - n.len();
    let mut at: usize = 0;
    loop
        invariant
            at <= last,
            last == h@.len() - n@.len(),
            h@ == encode_utf8(hay@),
            n@ == encode_utf8(needle@),
            forall|k: int| 0 <= k < at ==> !occurs_at(h@, n@, k),
        decreases last - at,
    {
        if matches_at(h, n, at) {
            return true;
        }
        if at == last {
            return false;
        }
        at += 1;
    }
}

} // verus!
