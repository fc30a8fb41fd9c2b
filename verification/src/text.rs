//! The texts that the relay builds and takes apart: chat lines and typed
//! entries.

use vstd::prelude::*;
use vstd::string::*;

verus! {

/// The separator placed between a peer's name and its message.
pub open spec fn name_separator() -> Seq<char> {
    seq![':', ' ']
}

/// The text `"{from}: {msg}"`, without a line terminator.
pub open spec fn chat_text(from: Seq<char>, msg: Seq<char>) -> Seq<char> {
    from + name_separator() + msg
}

/// The broadcast line `"{from}: {msg}\n"` as it is queued for every peer.
pub open spec fn broadcast_line(from: Seq<char>, msg: Seq<char>) -> Seq<char> {
    chat_text(from, msg).push('\n')
}

/// Builds `"{from}: {msg}"`.
pub fn format_chat_text(from: &str, msg: &str) -> (text: String)
    ensures
        text@ == chat_text(from@, msg@),
{
    let mut text = String::from_str(from);
    let sep: &str = ": ";
    proof {
        reveal_strlit(": ");
        assert(sep@ =~= name_separator());
    }
    text.append(sep);
    text.append(msg);
    text
}

/// Builds the broadcast line `"{from}: {msg}\n"`.
pub fn format_broadcast_line(from: &str, msg: &str) -> (line: String)
    ensures
        line@ == broadcast_line(from@, msg@),
{
    let mut line = format_chat_text(from, msg);
    let newline: &str = "\n";
    proof {
        reveal_strlit("\n");
        assert(newline@ =~= seq!['\n']);
        assert(chat_text(from@, msg@) + seq!['\n'] =~= chat_text(from@, msg@).push('\n'));
    }
    line.append(newline);
    line
}

/// Whether `c` is white space in the sense of `char::is_whitespace`, that
/// is, of Unicode's `White_Space`.
pub uninterp spec fn is_white_space(c: char) -> bool;

/// `char::is_whitespace` of std. The contract only gives its answer the name
/// [`is_white_space`]; which characters count is left to std.
#[verifier::external_body]
fn is_whitespace(c: char) -> (b: bool)
    ensures
        b == is_white_space(c),
{
    c.is_whitespace()
}

/// `s` without its leading white space.
pub open spec fn trim_start(s: Seq<char>) -> Seq<char>
    decreases s.len(),
{
    if s.len() > 0 && is_white_space(s[0]) {
        trim_start(s.drop_first())
    } else {
        s
    }
}

/// `s` without its trailing white space.
pub open spec fn trim_end(s: Seq<char>) -> Seq<char>
    decreases s.len(),
{
    if s.len() > 0 && is_white_space(s.last()) {
        trim_end(s.drop_last())
    } else {
        s
    }
}

/// `s` without its leading and trailing white space.
pub open spec fn trimmed(s: Seq<char>) -> Seq<char> {
    trim_end(trim_start(s))
}

/// Strips leading and trailing white space from `s`.
pub fn trim(s: &str) -> (t: &str)
    ensures
        t@ == trimmed(s@),
{
    let n: usize = s.unicode_len();
    let mut start: usize = 0;
    assert(s@.subrange(0, n as int) =~= s@);
    while start < n
        invariant
            n == s@.len(),
            start <= n,
            trim_start(s@) == trim_start(s@.subrange(start as int, n as int)),
        ensures
            start <= n,
            trim_start(s@) == s@.subrange(start as int, n as int),
        decreases n - start,
    {
        let ghost rest = s@.subrange(start as int, n as int);
        assert(rest[0] == s@[start as int]);
        if !is_whitespace(s.get_char(start)) {
            break;
        }
        assert(rest.drop_first() =~= s@.subrange(start as int + 1, n as int));
        start = start + 1;
    }
    let mut end: usize = n;
    while start < end
        invariant
            n == s@.len(),
            start <= end <= n,
            trimmed(s@) == trim_end(s@.subrange(start as int, end as int)),
        ensures
            start <= end <= n,
            trimmed(s@) == s@.subrange(start as int, end as int),
        decreases end - start,
    {
        let ghost rest = s@.subrange(start as int, end as int);
        assert(rest.last() == s@[end as int - 1]);
        if !is_whitespace(s.get_char(end - 1)) {
            break;
        }
        assert(rest.drop_last() =~= s@.subrange(start as int, end as int - 1));
        end = end - 1;
    }
    s.substring_char(start, end)
}

} // verus!
