//! Read access to the text being paged: how many lines it has and how wide
//! each line is once trailing whitespace is dropped.
use ropey::Rope;
use vstd::prelude::*;
use vstd::string::StringSliceAdditionalSpecFns;
use vstd::utf8::encode_utf8;

verus! {

#[verifier::external_type_specification]
#[verifier::external_body]
pub struct ExRope(ropey::Rope);

/// The lines of a rope as ropey splits them, each with its line break.
pub uninterp spec fn rope_lines(r: Rope) -> Seq<Seq<char>>;

/// The characters with the Unicode property White_Space, which is what
/// `str::trim_end` removes.
pub open spec fn is_white_space(c: char) -> bool {
    let u = c as u32;
    ||| 0x9 <= u <= 0xd
    ||| u == 0x20
    ||| u == 0x85
    ||| u == 0xa0
    ||| u == 0x1680
    ||| 0x2000 <= u <= 0x200a
    ||| u == 0x2028
    ||| u == 0x2029
    ||| u == 0x202f
    ||| u == 0x205f
    ||| u == 0x3000
}

/// The string without its trailing White_Space characters.
pub open spec fn trim_end_of(s: Seq<char>) -> Seq<char>
    decreases s.len(),
{
    if s.len() > 0 && is_white_space(s.last()) {
        trim_end_of(s.drop_last())
    } else {
        s
    }
}

/// Relies on `ropey::Rope::len_lines`: the number of lines, which is one more
/// than the number of line breaks, so never zero.
#[verifier::external_body]
fn rope_len_lines(r: &Rope) -> (n: usize)
    ensures
        n == rope_lines(*r).len(),
        n >= 1,
{
    r.len_lines()
}

/// Relies on `ropey::Rope::line` and ropey's `From<RopeSlice> for String`: the
/// text of line `i`, line break included.
#[verifier::external_body]
fn rope_line_text(r: &Rope, i: usize) -> (s: String)
    requires
        i < rope_lines(*r).len(),
    ensures
        s@ == rope_lines(*r)[i as int],
{
    String::from(r.line(i))
}

/// Relies on `str::trim_end`: `s` without its trailing whitespace, which
/// its documentation defines by the Unicode property White_Space; being a
/// string slice, it holds at most `isize::MAX` bytes.
#[verifier::external_body]
fn trim_end(s: &str) -> (r: &str)
    ensures
        r@ == trim_end_of(s@),
        r.spec_bytes().len() <= isize::MAX,
{
    s.trim_end()
}

/// The number of lines of the text: a final line break does not start
/// another line, and an empty text is one empty line.
pub open spec fn line_total(r: Rope) -> nat {
    let ls = rope_lines(r);
    if ls.len() > 1 && ls.last().len() == 0 {
        (ls.len() - 1) as nat
    } else {
        ls.len()
    }
}

/// The width of line `i`: its length in bytes of UTF-8 once trailing
/// whitespace is removed.
pub open spec fn line_width(r: Rope, i: int) -> nat {
    encode_utf8(trim_end_of(rope_lines(r)[i])).len()
}

/// The number of lines of the text (see `line_total`).
pub fn count_lines(lines: &Rope) -> (n: usize)
    ensures
        n == line_total(*lines),
        1 <= n <= rope_lines(*lines).len(),
{
    let total = rope_len_lines(lines);
    if total > 1 {
        let last = rope_line_text(lines, total - 1);
        if last.as_str().is_empty() {
            return total - 1;
        }
    }
    total
}

/// The width of line `idx`, which the cursor column may not pass.
pub fn get_stripped_line_length(lines: &Rope, idx: usize) -> (n: usize)
    requires
        idx < rope_lines(*lines).len(),
    ensures
        n == line_width(*lines, idx as int),
{
    let text = rope_line_text(lines, idx);
    trim_end(text.as_str()).len()
}

} // verus!
