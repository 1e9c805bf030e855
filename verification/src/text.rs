//! Text helpers: the blank-input test and the avatar address of a user.

use vstd::prelude::*;
use vstd::string::StringExecFns;

verus! {

/// The code points with the Unicode `White_Space` property.
pub open spec fn is_white_space(c: char) -> bool {
    let n = c as u32;
    ||| 0x09 <= n <= 0x0D
    ||| n == 0x20
    ||| n == 0x85
    ||| n == 0xA0
    ||| n == 0x1680
    ||| 0x2000 <= n <= 0x200A
    ||| n == 0x2028
    ||| n == 0x2029
    ||| n == 0x202F
    ||| n == 0x205F
    ||| n == 0x3000
}

/// A text is blank when nothing is left of it once the white space at both
/// ends is taken away: every character of it is white space.
pub open spec fn is_blank(text: Seq<char>) -> bool {
    forall|i: int| 0 <= i < text.len() ==> is_white_space(#[trigger] text[i])
}

/// Tells whether `c` is white space.
pub fn white_space(c: char) -> (r: bool)
    ensures
        r == is_white_space(c),
{
    let n: u32 = c as u32;
    (0x09 <= n && n <= 0x0D) || n == 0x20 || n == 0x85 || n == 0xA0 || n == 0x1680 || (0x2000 <= n
        && n <= 0x200A) || n == 0x2028 || n == 0x2029 || n == 0x202F || n == 0x205F || n == 0x3000
}

/// Tells whether `text` is blank.
pub fn blank(text: &str) -> (r: bool)
    ensures
        r == is_blank(text@),
{
    for c in it: text.chars()
        invariant
            it.seq() == text@,
            forall|j: int| 0 <= j < it.index() ==> is_white_space(#[trigger] text@[j]),
    {
        if !white_space(c) {
            return false;
        }
    }
    true
}

/// The characters of each of `items`, in order.
pub open spec fn texts_of(items: Seq<String>) -> Seq<Seq<char>> {
    items.map_values(|s: String| s@)
}

/// Tells whether `a` and `b` hold the same characters.
pub fn same_text(a: &str, b: &str) -> (r: bool)
    ensures
        r == (a@ == b@),
{
    let left: String = a.to_owned();
    let right: String = b.to_owned();
    left == right
}

/// The address of the avatar picture of the user called `name`.
pub open spec fn avatar_of(name: Seq<char>) -> Seq<char> {
    "https://robohash.org/"@ + name + "?set=set4&size=200x200"@
}

/// Builds the avatar address of the user called `name`. The address is a
/// function of the name alone, so one name never has two avatars.
pub fn derive_avatar(name: &str) -> (url: String)
    ensures
        url@ == avatar_of(name@),
{
    let mut url = String::from_str("https://robohash.org/");
    url.append(name);
    url.append("?set=set4&size=200x200");
    url
}

/// `part` stands in `text` at the place `at`.
pub open spec fn occurs_at(text: Seq<char>, part: Seq<char>, at: int) -> bool {
    0 <= at && at + part.len() <= text.len() && text.subrange(at, at + part.len()) == part
}

/// `part` stands somewhere in `text`.
pub open spec fn has_part(text: Seq<char>, part: Seq<char>) -> bool {
    exists|at: int| occurs_at(text, part, at)
}

/// A chat line is shown as a picture where its text ends in `.gif`, or starts
/// with `http` and has `.jpg` or `.png` somewhere in it.
pub open spec fn is_image_link(text: Seq<char>) -> bool {
    occurs_at(text, ".gif"@, text.len() - ".gif"@.len()) || (occurs_at(text, "http"@, 0) && (
    has_part(text, ".jpg"@) || has_part(text, ".png"@)))
}

/// The characters of `text`, one by one.
pub fn chars_of(text: &str) -> (chars: Vec<char>)
    ensures
        chars@ == text@,
{
    let mut chars: Vec<char> = Vec::new();
    for c in it: text.chars()
        invariant
            it.seq() == text@,
            chars@ == text@.take(it.index()),
    {
        chars.push(c);
        assert(text@.take(it.index() + 1) =~= text@.take(it.index()).push(c));
    }
    assert(text@.take(text@.len() as int) =~= text@);
    chars
}

/// Tells whether `part` stands in `text` at the place `at`.
pub fn stands_at(text: &Vec<char>, part: &Vec<char>, at: usize) -> (r: bool)
    ensures
        r == occurs_at(text@, part@, at as int),
{
    if part.len() > text.len() || at > text.len() - part.len() {
        return false;
    }
    let mut i: usize = 0;
    while i < part.len()
        invariant
            i <= part.len(),
            at + part.len() <= text.len(),
            forall|j: int| 0 <= j < i ==> text@[at + j] == part@[j],
        decreases part.len() - i,
    {
        if text[at + i] != part[i] {
            assert(text@.subrange(at as int, at + part.len())[i as int] != part@[i as int]);
            return false;
        }
        i = i + 1;
    }
    assert(text@.subrange(at as int, at + part.len()) =~= part@);
    true
}

/// Tells whether `part` stands somewhere in `text`.
pub fn holds_part(text: &Vec<char>, part: &Vec<char>) -> (r: bool)
    ensures
        r == has_part(text@, part@),
{
    if part.len() > text.len() {
        return false;
    }
    let last: usize = text.len() - part.len();
    let mut at: usize = 0;
    while at < last
        invariant
            last == text.len() - part.len(),
            at <= last,
            forall|k: int| 0 <= k < at ==> !occurs_at(text@, part@, k),
        decreases last - at,
    {
        if stands_at(text, part, at) {
            return true;
        }
        at = at + 1;
    }
    stands_at(text, part, last)
}

/// Tells whether the chat line `text` is shown as a picture.
pub fn image_link(text: &str) -> (r: bool)
    ensures
        r == is_image_link(text@),
{
    let chars = chars_of(text);
    let gif = chars_of(".gif");
    if chars.len() >= gif.len() && stands_at(&chars, &gif, chars.len() - gif.len()) {
        return true;
    }
    if !stands_at(&chars, &chars_of("http"), 0) {
        return false;
    }
    holds_part(&chars, &chars_of(".jpg")) || holds_part(&chars, &chars_of(".png"))
}

} // verus!
