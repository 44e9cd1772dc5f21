use vstd::prelude::*;
use vstd::string::*;

verus! {

/// The characters with the Unicode `White_Space` property, the ones that
/// `str::trim` removes.
pub open spec fn is_white_space(c: char) -> bool {
    let u = c as u32;
    ||| 0x09 <= u <= 0x0D
    ||| u == 0x20
    ||| u == 0x85
    ||| u == 0xA0
    ||| u == 0x1680
    ||| 0x2000 <= u <= 0x200A
    ||| u == 0x2028
    ||| u == 0x2029
    ||| u == 0x202F
    ||| u == 0x205F
    ||| u == 0x3000
}

/// A text is blank when trimming it leaves nothing: every character is white space.
pub open spec fn is_blank_text(s: Seq<char>) -> bool {
    forall|i: int| 0 <= i < s.len() ==> is_white_space(#[trigger] s[i])
}

/// Whether `c` is a white-space character.
pub fn is_white_space_char(c: char) -> (ws: bool)
    ensures
        ws == is_white_space(c),
{
    let u = c as u32;
    (0x09 <= u && u <= 0x0D) || u == 0x20 || u == 0x85 || u == 0xA0 || u == 0x1680
        || (0x2000 <= u && u <= 0x200A) || u == 0x2028 || u == 0x2029 || u == 0x202F
        || u == 0x205F || u == 0x3000
}

/// Whether `s` consists of white space only (so that it trims to the empty string).
pub fn is_blank(s: &str) -> (blank: bool)
    ensures
        blank == is_blank_text(s@),
{
    let n = s.unicode_len();
    let mut i: usize = 0;
    while i < n
        invariant
            n == s@.len(),
            i <= n,
            forall|j: int| 0 <= j < i ==> is_white_space(#[trigger] s@[j]),
        decreases n - i,
    {
        if !is_white_space_char(s.get_char(i)) {
            return false;
        }
        i = i + 1;
    }
    true
}

/// `s` without its last character when that character is `c`.
pub open spec fn drop_final(s: Seq<char>, c: char) -> Seq<char> {
    if s.len() > 0 && s.last() == c {
        s.drop_last()
    } else {
        s
    }
}

/// A line as typed: one trailing `'\n'` removed, then one trailing `'\r'`.
pub open spec fn without_line_ending(s: Seq<char>) -> Seq<char> {
    drop_final(drop_final(s, '\n'), '\r')
}

/// Removes the line ending that reading a line leaves at the end of it: a
/// final `'\n'` and, before it, a final `'\r'`.
pub fn strip_line_ending(s: &str) -> (line: String)
    ensures
        line@ == without_line_ending(s@),
{
    let n = s.unicode_len();
    let mut end = n;
    if end > 0 && s.get_char(end - 1) == '\n' {
        end = end - 1;
    }
    if end > 0 && s.get_char(end - 1) == '\r' {
        end = end - 1;
    }
    let line = String::from_str(s.substring_char(0, end));
    assert(line@ =~= without_line_ending(s@));
    line
}

/// Index at which the last `'\\'`-separated component of `s` begins: just
/// after the last backslash, or 0 when there is none.
pub open spec fn component_start(s: Seq<char>) -> int
    decreases s.len(),
{
    if s.len() == 0 {
        0
    } else if s.last() == '\\' {
        s.len() as int
    } else {
        component_start(s.drop_last())
    }
}

/// The last component of a backslash-separated path (the file name of a
/// Windows path); the whole text when it holds no backslash.
pub open spec fn last_component(s: Seq<char>) -> Seq<char> {
    s.skip(component_start(s))
}

/// The start of the last component lies within the text, right after a
/// backslash when it is not 0, and no backslash follows it.
pub proof fn lemma_component_start(s: Seq<char>)
    ensures
        0 <= component_start(s) <= s.len(),
        component_start(s) > 0 ==> s[component_start(s) - 1] == '\\',
        forall|j: int| component_start(s) <= j < s.len() ==> s[j] != '\\',
    decreases s.len(),
{
    if s.len() > 0 && s.last() != '\\' {
        let p = s.drop_last();
        lemma_component_start(p);
        assert forall|j: int| component_start(s) <= j < s.len() implies s[j] != '\\' by {
            if j < s.len() - 1 {
                assert(s[j] == p[j]);
            }
        }
    }
}

/// A text without backslashes is its own last component.
pub proof fn lemma_component_start_no_separator(s: Seq<char>)
    requires
        forall|j: int| 0 <= j < s.len() ==> s[j] != '\\',
    ensures
        component_start(s) == 0,
    decreases s.len(),
{
    if s.len() > 0 {
        assert(s.last() == s[s.len() - 1]);
        lemma_component_start_no_separator(s.drop_last());
    }
}

/// The last component of a path holds no backslash, and taking the last
/// component again changes nothing.
pub proof fn lemma_last_component_idempotent(s: Seq<char>)
    ensures
        forall|j: int| 0 <= j < last_component(s).len() ==> last_component(s)[j] != '\\',
        last_component(last_component(s)) == last_component(s),
{
    lemma_component_start(s);
    let t = last_component(s);
    assert forall|j: int| 0 <= j < t.len() implies t[j] != '\\' by {
        assert(t[j] == s[component_start(s) + j]);
    }
    lemma_component_start_no_separator(t);
    assert(t.skip(0) =~= t);
}

/// The file name at the end of a backslash-separated path: what follows the
/// last backslash, or the whole text when there is none.
pub fn last_path_component(path: &str) -> (name: String)
    ensures
        name@ == last_component(path@),
{
    let n = path.unicode_len();
    let mut start: usize = 0;
    let mut i: usize = 0;
    while i < n
        invariant
            n == path@.len(),
            start <= i <= n,
            start == component_start(path@.take(i as int)),
        decreases n - i,
    {
        let c = path.get_char(i);
        assert(path@.take(i + 1).drop_last() =~= path@.take(i as int));
        assert(path@.take(i + 1).last() == c);
        if c == '\\' {
            start = i + 1;
        }
        i = i + 1;
    }
    assert(path@.take(n as int) =~= path@);
    proof {
        lemma_component_start(path@);
    }
    let name = String::from_str(path.substring_char(start, n));
    assert(name@ =~= last_component(path@));
    name
}

} // verus!
