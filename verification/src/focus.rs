//! The focus snapshot manager: which application had the keyboard when the
//! hold began, kept so that focus can be handed back to it, together with
//! the text exchanged with the system's scripting service to ask for the
//! foreground application and to change it.

use vstd::prelude::*;
use vstd::string::*;
use crate::command::name_view;

verus! {

/// Whether a character is one that Unicode marks as `White_Space`.
pub open spec fn is_space(c: char) -> bool {
    let u = c as u32;
    ||| 0x09 <= u <= 0x0D
    ||| u == 0x20
    ||| u == 0x85
    ||| u == 0xA0
    ||| u == 0x1680
    ||| 0x2000 <= u <= 0x200A
    ||| u == 0x2028
    ||| u == 0x2029
    ||| u == 0x202F
    ||| u == 0x205F
    ||| u == 0x3000
}

/// `s` without the white space it begins with.
pub open spec fn without_leading_space(s: Seq<char>) -> Seq<char>
    decreases s.len(),
{
    if s.len() > 0 && is_space(s.first()) {
        without_leading_space(s.drop_first())
    } else {
        s
    }
}

/// `s` without the white space it ends with.
pub open spec fn without_trailing_space(s: Seq<char>) -> Seq<char>
    decreases s.len(),
{
    if s.len() > 0 && is_space(s.last()) {
        without_trailing_space(s.drop_last())
    } else {
        s
    }
}

/// `s` without the white space around it.
pub open spec fn trimmed(s: Seq<char>) -> Seq<char> {
    without_trailing_space(without_leading_space(s))
}

/// The application name that an answer of the scripting service stands
/// for: the output without the white space around it, unless the query
/// failed or nothing is left.
pub open spec fn frontmost_name(succeeded: bool, output: Seq<char>) -> Option<Seq<char>> {
    if succeeded && trimmed(output).len() > 0 {
        Some(trimmed(output))
    } else {
        None
    }
}

/// The script that brings the process called `name` to the foreground.
pub open spec fn activation_script_text(name: Seq<char>) -> Seq<char> {
    "tell application \"System Events\" to set frontmost of process \""@ + name + "\" to true"@
}

/// Tells whether `c` is white space.
pub fn is_white_space(c: char) -> (b: bool)
    ensures
        b == is_space(c),
{
    let u: u32 = c as u32;
    (0x09 <= u && u <= 0x0D) || u == 0x20 || u == 0x85 || u == 0xA0 || u == 0x1680 || (0x2000 <= u
        && u <= 0x200A) || u == 0x2028 || u == 0x2029 || u == 0x202F || u == 0x205F || u == 0x3000
}

/// The part of `s` that is left when the white space around it is removed.
pub fn trim_white_space(s: &str) -> (r: &str)
    ensures
        r@ == trimmed(s@),
{
    let len: usize = s.unicode_len();
    let mut from: usize = 0;
    assert(s@.subrange(0, len as int) =~= s@);
    while from < len && is_white_space(s.get_char(from))
        invariant
            from <= len,
            len == s@.len(),
            without_leading_space(s@) == without_leading_space(s@.subrange(from as int, len as int)),
        decreases len - from,
    {
        proof {
            let rest = s@.subrange(from as int, len as int);
            assert(rest.first() == s@[from as int]);
            assert(rest.drop_first() =~= s@.subrange(from + 1, len as int));
        }
        from = from + 1;
    }
    let ghost body = s@.subrange(from as int, len as int);
    assert(without_leading_space(s@) == body) by {
        if from < len {
            assert(body.first() == s@[from as int]);
        }
    }
    let mut to: usize = len;
    while to > from && is_white_space(s.get_char(to - 1))
        invariant
            from <= to <= len,
            len == s@.len(),
            body == s@.subrange(from as int, len as int),
            without_trailing_space(body) == without_trailing_space(
                s@.subrange(from as int, to as int),
            ),
        decreases to - from,
    {
        proof {
            let rest = s@.subrange(from as int, to as int);
            assert(rest.last() == s@[to - 1]);
            assert(rest.drop_last() =~= s@.subrange(from as int, to - 1));
        }
        to = to - 1;
    }
    proof {
        let kept = s@.subrange(from as int, to as int);
        if to > from {
            assert(kept.last() == s@[to - 1]);
        }
        assert(without_trailing_space(body) == kept);
    }
    s.substring_char(from, to)
}

/// The text that the bytes `bytes` stand for when they are read as UTF-8
/// and every malformed part is replaced by U+FFFD.
pub uninterp spec fn lossy_utf8(bytes: Seq<u8>) -> Seq<char>;

/// Decodes bytes with `String::from_utf8_lossy`. Nothing is proved of the
/// decoding: the contract only names its result, which depends on the bytes
/// alone.
#[verifier::external_body]
fn decode_lossy(bytes: &[u8]) -> (text: String)
    ensures
        text@ == lossy_utf8(bytes@),
{
    String::from_utf8_lossy(bytes).into_owned()
}

/// Reads an answer of the scripting service, already decoded, to the
/// question which application is in the foreground. `succeeded` tells
/// whether the service reported success, `output` is what it printed.
pub fn frontmost_app_name_in(succeeded: bool, output: &str) -> (name: Option<String>)
    ensures
        name_view(name) == frontmost_name(succeeded, output@),
{
    if !succeeded {
        return None;
    }
    let kept = trim_white_space(output);
    if kept.unicode_len() == 0 {
        None
    } else {
        Some(kept.to_owned())
    }
}

/// Reads the answer of the scripting service to the question which
/// application is in the foreground. `succeeded` tells whether the service
/// reported success, `stdout` is what it wrote to its standard output. The
/// bytes are decoded as UTF-8, leniently; what is left of the text without
/// the white space around it is the name.
pub fn parse_frontmost_app_name(succeeded: bool, stdout: &[u8]) -> (name: Option<String>)
    ensures
        name_view(name) == frontmost_name(succeeded, lossy_utf8(stdout@)),
{
    if !succeeded {
        return None;
    }
    let text = decode_lossy(stdout);
    frontmost_app_name_in(succeeded, text.as_str())
}

/// The script that asks the scripting service for the name of the
/// application in the foreground.
pub fn frontmost_query_script() -> (script: &'static str)
    ensures
        script@
            == "tell application \"System Events\" to get name of (first process whose frontmost is true)"@,
{
    "tell application \"System Events\" to get name of (first process whose frontmost is true)"
}

/// The script that tells the scripting service to bring the process called
/// `name` to the foreground. The name is inserted as it is.
pub fn activation_script(name: &str) -> (script: String)
    ensures
        script@ == activation_script_text(name@),
{
    let mut script = String::from_str("tell application \"System Events\" to set frontmost of process \"");
    script.append(name);
    script.append("\" to true");
    script
}

/// How much white space `s` begins with: `without_leading_space` drops
/// exactly that many characters, all of them white space, and what is left
/// does not begin with white space.
pub proof fn lemma_leading_space(s: Seq<char>) -> (from: int)
    ensures
        0 <= from <= s.len(),
        without_leading_space(s) == s.subrange(from, s.len() as int),
        forall|i: int| 0 <= i < from ==> is_space(#[trigger] s[i]),
        from < s.len() ==> !is_space(s[from]),
    decreases s.len(),
{
    if s.len() > 0 && is_space(s.first()) {
        let rest = s.drop_first();
        let inner = lemma_leading_space(rest);
        assert(rest.subrange(inner, rest.len() as int) =~= s.subrange(inner + 1, s.len() as int));
        assert forall|i: int| 0 <= i < inner + 1 implies is_space(#[trigger] s[i]) by {
            if i > 0 {
                assert(s[i] == rest[i - 1]);
            }
        }
        if inner + 1 < s.len() {
            assert(s[inner + 1] == rest[inner]);
        }
        inner + 1
    } else {
        assert(s.subrange(0, s.len() as int) =~= s);
        0
    }
}

/// Where the white space that `s` ends with begins: `without_trailing_space`
/// keeps exactly the characters before it, drops only white space, and what
/// is left does not end with white space.
pub proof fn lemma_trailing_space(s: Seq<char>) -> (to: int)
    ensures
        0 <= to <= s.len(),
        without_trailing_space(s) == s.subrange(0, to),
        forall|i: int| to <= i < s.len() ==> is_space(#[trigger] s[i]),
        to > 0 ==> !is_space(s[to - 1]),
    decreases s.len(),
{
    if s.len() > 0 && is_space(s.last()) {
        let rest = s.drop_last();
        let inner = lemma_trailing_space(rest);
        assert(rest.subrange(0, inner) =~= s.subrange(0, inner));
        assert forall|i: int| inner <= i < s.len() implies is_space(#[trigger] s[i]) by {
            if i < s.len() - 1 {
                assert(s[i] == rest[i]);
            }
        }
        if inner > 0 {
            assert(s[inner - 1] == rest[inner - 1]);
        }
        inner
    } else {
        assert(s.subrange(0, s.len() as int) =~= s);
        s.len() as int
    }
}

/// Trimming keeps one stretch of `s`: everything before it and everything
/// after it is white space, and the stretch itself neither begins nor ends
/// with white space.
pub proof fn lemma_trimmed_is_the_core(s: Seq<char>)
    ensures
        exists|from: int, to: int|
            {
                &&& 0 <= from <= to <= s.len()
                &&& trimmed(s) == #[trigger] s.subrange(from, to)
                &&& forall|i: int| 0 <= i < from ==> is_space(#[trigger] s[i])
                &&& forall|i: int| to <= i < s.len() ==> is_space(#[trigger] s[i])
            },
        trimmed(s).len() > 0 ==> !is_space(trimmed(s).first()) && !is_space(trimmed(s).last()),
{
    let from = lemma_leading_space(s);
    let body = s.subrange(from, s.len() as int);
    let kept = lemma_trailing_space(body);
    let to = from + kept;
    assert(body.subrange(0, kept) =~= s.subrange(from, to));
    assert forall|i: int| to <= i < s.len() implies is_space(#[trigger] s[i]) by {
        assert(s[i] == body[i - from]);
    }
    if kept > 0 {
        assert(trimmed(s).first() == s[from]);
        assert(trimmed(s).last() == body[kept - 1]);
    }
}

/// The name of the application that had the keyboard when the hold began.
/// At most one name is kept; taking it empties the slot, so a name is never
/// handed out twice.
#[derive(Debug)]
pub struct FocusSnapshot {
    name: Option<String>,
}

impl View for FocusSnapshot {
    type V = Option<Seq<char>>;

    closed spec fn view(&self) -> Option<Seq<char>> {
        name_view(self.name)
    }
}

impl FocusSnapshot {
    /// An empty slot.
    pub fn new() -> (snapshot: FocusSnapshot)
        ensures
            snapshot@ is None,
    {
        FocusSnapshot { name: None }
    }

    /// Stores what the query for the foreground application gave, in place
    /// of whatever was kept before. A failed query leaves the slot empty.
    pub fn capture(&mut self, name: Option<String>)
        ensures
            final(self)@ == name_view(name),
    {
        self.name = name;
    }

    /// A copy of the name that is kept. The slot stays as it is.
    pub fn recall(&self) -> (name: Option<String>)
        ensures
            name_view(name) == self@,
    {
        match &self.name {
            Some(s) => Some(s.clone()),
            None => None,
        }
    }

    /// Hands out the name that is kept and empties the slot.
    pub fn take(&mut self) -> (name: Option<String>)
        ensures
            name_view(name) == old(self)@,
            final(self)@ is None,
    {
        self.name.take()
    }
}

} // verus!
