use vstd::prelude::*;
use vstd::string::*;

verus! {

/// The first entry of the program list, which lets the user type a program
/// name instead of picking an open window.
pub const CUSTOM_PROGRAM_LABEL: &'static str = "Open Custom Program";

/// A UTF-16 code unit that starts a surrogate pair.
pub open spec fn is_high_surrogate(u: u16) -> bool {
    0xD800 <= u <= 0xDBFF
}

/// A UTF-16 code unit that ends a surrogate pair.
pub open spec fn is_low_surrogate(u: u16) -> bool {
    0xDC00 <= u <= 0xDFFF
}

/// The characters that the UTF-16 code units `units` encode, or `None` when
/// they hold an unpaired surrogate.
pub open spec fn utf16_decode(units: Seq<u16>) -> Option<Seq<char>>
    decreases units.len(),
{
    if units.len() == 0 {
        Some(Seq::empty())
    } else if !is_high_surrogate(units[0]) && !is_low_surrogate(units[0]) {
        match utf16_decode(units.drop_first()) {
            Some(rest) => Some(seq![units[0] as char] + rest),
            None => None,
        }
    } else if is_high_surrogate(units[0]) && units.len() >= 2 && is_low_surrogate(units[1]) {
        match utf16_decode(units.skip(2)) {
            Some(rest) => Some(
                seq![(0x10000 + (units[0] - 0xD800) * 0x400 + (units[1] - 0xDC00)) as char] + rest,
            ),
            None => None,
        }
    } else {
        None
    }
}

/// The UTF-16 code units of one character: itself below U+10000, else a
/// surrogate pair.
pub open spec fn utf16_encode_char(c: char) -> Seq<u16> {
    let u = c as u32;
    if u < 0x10000 {
        seq![u as u16]
    } else {
        seq![(0xD800 + (u - 0x10000) / 0x400) as u16, (0xDC00 + (u - 0x10000) % 0x400) as u16]
    }
}

/// The UTF-16 encoding of a text.
pub open spec fn utf16_encode(s: Seq<char>) -> Seq<u16>
    decreases s.len(),
{
    if s.len() == 0 {
        Seq::empty()
    } else {
        utf16_encode(s.drop_last()) + utf16_encode_char(s.last())
    }
}

/// A single character encodes as its own code units.
pub proof fn lemma_utf16_encode_single(c: char)
    ensures
        utf16_encode(seq![c]) == utf16_encode_char(c),
{
    let one = seq![c];
    assert(one.drop_last() =~= Seq::<char>::empty());
    assert(one.last() == c);
    assert(utf16_encode(Seq::<char>::empty()) =~= Seq::<u16>::empty());
    assert(utf16_encode(one) =~= utf16_encode(one.drop_last()) + utf16_encode_char(one.last()));
    assert(Seq::<u16>::empty() + utf16_encode_char(c) =~= utf16_encode_char(c));
}

/// Encoding a concatenation concatenates the encodings.
pub proof fn lemma_utf16_encode_concat(a: Seq<char>, b: Seq<char>)
    ensures
        utf16_encode(a + b) == utf16_encode(a) + utf16_encode(b),
    decreases b.len(),
{
    if b.len() == 0 {
        assert(a + b =~= a);
        assert(utf16_encode(a) + utf16_encode(b) =~= utf16_encode(a));
    } else {
        lemma_utf16_encode_concat(a, b.drop_last());
        assert((a + b).drop_last() =~= a + b.drop_last());
        assert((a + b).last() == b.last());
        assert(utf16_encode(a) + utf16_encode(b) =~= utf16_encode(a) + utf16_encode(b.drop_last())
            + utf16_encode_char(b.last()));
    }
}

/// Decoding gives back every text from its encoding: for every text `s`,
/// decoding `utf16_encode(s)` yields exactly `s`.
pub proof fn lemma_utf16_round_trip(s: Seq<char>)
    ensures
        utf16_decode(utf16_encode(s)) == Some(s),
    decreases s.len(),
{
    if s.len() > 0 {
        let c = s[0];
        let rest = s.drop_first();
        assert(s =~= seq![c] + rest);
        lemma_utf16_encode_concat(seq![c], rest);
                lemma_utf16_encode_single(c);
        lemma_utf16_round_trip(rest);
        let units = utf16_encode(s);
        let u = c as u32;
        assert(vstd::utf8::is_scalar(u)) by {
            vstd::utf8::char_is_scalar(c);
        }
        assert((u as char) == c) by {
            vstd::utf8::char_u32_cast(c, u);
        }
        if u < 0x10000 {
            assert(units =~= seq![u as u16] + utf16_encode(rest));
            assert(units.drop_first() =~= utf16_encode(rest));
            assert(units[0] as char == c);
            assert(seq![units[0] as char] + rest =~= s);
        } else {
            let v = u - 0x10000;
            let hi = (0xD800 + v / 0x400) as u16;
            let lo = (0xDC00 + v % 0x400) as u16;
            assert(units =~= seq![hi, lo] + utf16_encode(rest));
            assert(units.skip(2) =~= utf16_encode(rest));
            assert(0 <= v <= 0xFFFFF);
            assert(v == (v / 0x400) * 0x400 + v % 0x400);
            assert(0x10000 + (hi - 0xD800) * 0x400 + (lo - 0xDC00) == u);
            assert(seq![(0x10000 + (hi - 0xD800) * 0x400 + (lo - 0xDC00)) as char] + rest =~= s);
        }
    }
}

/// Whatever decodes is the encoding of what it decodes to.
pub proof fn lemma_utf16_decode_encodes(units: Seq<u16>)
    ensures
        utf16_decode(units) matches Some(s) ==> utf16_encode(s) == units,
    decreases units.len(),
{
    if units.len() > 0 {
        if !is_high_surrogate(units[0]) && !is_low_surrogate(units[0]) {
            lemma_utf16_decode_encodes(units.drop_first());
            if let Some(rest) = utf16_decode(units.drop_first()) {
                let c = units[0] as char;
                assert((c as u32) == units[0]);
                lemma_utf16_encode_concat(seq![c], rest);
                                lemma_utf16_encode_single(c);
                assert(units =~= seq![units[0]] + units.drop_first());
            }
        } else if is_high_surrogate(units[0]) && units.len() >= 2 && is_low_surrogate(units[1]) {
            lemma_utf16_decode_encodes(units.skip(2));
            if let Some(rest) = utf16_decode(units.skip(2)) {
                let hi = units[0];
                let lo = units[1];
                let code = 0x10000 + (hi - 0xD800) * 0x400 + (lo - 0xDC00);
                let c = code as char;
                assert(0x10000 <= code <= 0x10FFFF);
                assert((c as u32) == code);
                let v = code - 0x10000;
                assert(v / 0x400 == hi - 0xD800);
                assert(v % 0x400 == lo - 0xDC00);
                lemma_utf16_encode_concat(seq![c], rest);
                                lemma_utf16_encode_single(c);
                assert(utf16_encode_char(c) =~= seq![hi, lo]);
                assert(units =~= seq![hi, lo] + units.skip(2));
            }
        }
    }
}

/// Decodes UTF-16 with `String::from_utf16`.
///
/// Trusted: std documents that `from_utf16` decodes a UTF-16 encoded slice
/// and fails when it holds invalid data (an unpaired surrogate); the contract
/// states that decoding as `utf16_decode`.
#[verifier::external_body]
fn decode_utf16(units: &[u16]) -> (text: Option<String>)
    ensures
        match text {
            Some(s) => utf16_decode(units@) == Some(s@),
            None => utf16_decode(units@) is None,
        },
{
    String::from_utf16(units).ok()
}

/// How many UTF-16 units to ask a window's title into, given whether the
/// window is visible and the length of its title: none for hidden windows and
/// windows without a title, else the title's length plus the terminating zero.
pub fn title_buffer_len(visible: bool, text_len: i32) -> (len: Option<i32>)
    requires
        0 <= text_len < i32::MAX,
    ensures
        len == (if !visible || text_len == 0 { None } else { Some((text_len + 1) as i32) }),
{
    if !visible {
        return None;
    }
    if text_len == 0 {
        return None;
    }
    Some(text_len + 1)
}

/// The UTF-16 code units of `text`.
fn encode_utf16_units(text: &str) -> (units: Vec<u16>)
    ensures
        units@ == utf16_encode(text@),
{
    let n = text.unicode_len();
    let mut units: Vec<u16> = Vec::new();
    let mut i: usize = 0;
    while i < n
        invariant
            n == text@.len(),
            i <= n,
            units@ == utf16_encode(text@.take(i as int)),
        decreases n - i,
    {
        let c = text.get_char(i);
        let u = c as u32;
        proof {
            vstd::utf8::char_is_scalar(c);
        }
        let ghost before = units@;
        if u < 0x10000 {
            units.push(u as u16);
        } else {
            let v = u - 0x10000;
            units.push((0xD800 + v / 0x400) as u16);
            units.push((0xDC00 + v % 0x400) as u16);
        }
        assert(units@ =~= before + utf16_encode_char(c));
        assert(text@.take(i + 1).drop_last() =~= text@.take(i as int));
        assert(text@.take(i + 1).last() == c);
        i = i + 1;
    }
    assert(text@.take(n as int) =~= text@);
    units
}

/// Whether two runs of code units are the same.
fn same_units(a: &[u16], b: &Vec<u16>) -> (same: bool)
    ensures
        same == (a@ == b@),
{
    if a.len() != b.len() {
        return false;
    }
    let mut i: usize = 0;
    while i < a.len()
        invariant
            a@.len() == b@.len(),
            i <= a@.len(),
            forall|j: int| 0 <= j < i ==> a@[j] == b@[j],
        decreases a@.len() - i,
    {
        if a[i] != b[i] {
            return false;
        }
        i = i + 1;
    }
    assert(a@ =~= b@);
    true
}

/// The title in the first `copied` units of `buffer`, as a window reported it:
/// none when nothing was copied or when the units are not valid UTF-16. A
/// title that comes back is checked to encode exactly those units; in
/// particular the units of any text decode to that very text.
pub fn decode_window_title(buffer: &[u16], copied: i32) -> (title: Option<String>)
    requires
        0 <= copied <= buffer@.len(),
    ensures
        copied == 0 ==> title is None,
        copied != 0 ==> match title {
            Some(t) => utf16_decode(buffer@.take(copied as int)) == Some(t@),
            None => utf16_decode(buffer@.take(copied as int)) is None,
        },
        title matches Some(t) ==> utf16_encode(t@) == buffer@.take(copied as int),
        copied != 0 ==> forall|s: Seq<char>|
            buffer@.take(copied as int) == #[trigger] utf16_encode(s) ==> (title matches Some(t)
                && t@ == s),
{
    if copied == 0 {
        return None;
    }
    let units = vstd::slice::slice_subrange(buffer, 0, copied as usize);
    assert(units@ =~= buffer@.take(copied as int));
    proof {
        lemma_utf16_decode_encodes(units@);
        assert forall|s: Seq<char>| units@ == #[trigger] utf16_encode(s) implies utf16_decode(
            units@,
        ) == Some(s) by {
            lemma_utf16_round_trip(s);
        }
    }
    match decode_utf16(units) {
        Some(text) => {
            let back = encode_utf16_units(text.as_str());
            if same_units(units, &back) {
                Some(text)
            } else {
                None
            }
        },
        None => None,
    }
}

/// The list of programs the user picks from: the entry for typing a program
/// name, then the titles of the open windows in the order they were found.
pub struct ProgramTitles {
    windows: Vec<String>,
}

/// What the user's pick in the program list stands for.
pub enum Selection {
    /// The first entry: the user types the program's name.
    Custom,
    /// The title of an open window.
    Window(String),
}

impl View for ProgramTitles {
    type V = Seq<Seq<char>>;

    closed spec fn view(&self) -> Seq<Seq<char>> {
        seq![CUSTOM_PROGRAM_LABEL@] + self.windows@.map_values(|t: String| t@)
    }
}

impl ProgramTitles {
    /// A list that holds only the entry for typing a program name.
    pub fn new() -> (list: Self)
        ensures
            list@ == seq![CUSTOM_PROGRAM_LABEL@],
    {
        let list = ProgramTitles { windows: Vec::new() };
        assert(list@ =~= seq![CUSTOM_PROGRAM_LABEL@]);
        list
    }

    /// The list never lacks its first entry, the one for typing a program name.
    pub proof fn lemma_starts_with_custom_entry(list: Self)
        ensures
            list@.len() >= 1,
            list@[0] == CUSTOM_PROGRAM_LABEL@,
    {
    }

    /// Number of window titles in the list (all entries but the first).
    pub fn window_count(&self) -> (n: usize)
        ensures
            n == self@.len() - 1,
    {
        self.windows.len()
    }

    /// Adds the title a window reported in the first `copied` units of
    /// `buffer`, unless nothing was copied or the units are not valid UTF-16.
    /// Returns whether a title was added.
    pub fn add_window_title(&mut self, buffer: &[u16], copied: i32) -> (added: bool)
        requires
            0 <= copied <= buffer@.len(),
        ensures
            added == (copied != 0 && utf16_decode(buffer@.take(copied as int)) is Some),
            added ==> final(self)@ == old(self)@.push(
                utf16_decode(buffer@.take(copied as int))->Some_0,
            ),
            !added ==> final(self)@ == old(self)@,
            copied != 0 ==> forall|s: Seq<char>|
                buffer@.take(copied as int) == #[trigger] utf16_encode(s) ==> added
                    && final(self)@ == old(self)@.push(s),
    {
        match decode_window_title(buffer, copied) {
            Some(title) => {
                self.windows.push(title);
                assert(self@ =~= old(self)@.push(utf16_decode(buffer@.take(copied as int))->Some_0));
                true
            },
            None => false,
        }
    }

    /// All entries, in order, as strings.
    pub fn to_vec(&self) -> (entries: Vec<String>)
        ensures
            entries@.map_values(|t: String| t@) == self@,
    {
        let mut entries: Vec<String> = Vec::new();
        entries.push(String::from_str(CUSTOM_PROGRAM_LABEL));
        let mut i: usize = 0;
        while i < self.windows.len()
            invariant
                i <= self.windows@.len(),
                entries@.len() == i + 1,
                entries@.map_values(|t: String| t@) == self@.take(i + 1),
            decreases self.windows@.len() - i,
        {
            let ghost before = entries@;
            let title = self.windows[i].clone();
            entries.push(title);
            assert(entries@ == before.push(title));
            assert(self@[i + 1] == self.windows@[i as int]@);
            let ghost now = entries@.map_values(|t: String| t@);
            assert forall|k: int| 0 <= k < i + 2 implies #[trigger] now[k] == self@.take(i + 2)[k] by {
                if k < i + 1 {
                    assert(entries@[k] == before[k]);
                    assert(before.map_values(|t: String| t@)[k] == self@.take(i + 1)[k]);
                }
            }
            assert(entries@.map_values(|t: String| t@) =~= self@.take(i + 2));
            i = i + 1;
        }
        assert(self@.take(i + 1) =~= self@);
        entries
    }

    /// What entry `index` of the list stands for: the first one asks for a
    /// typed program name, any other is that window's title.
    pub fn select(&self, index: usize) -> (pick: Selection)
        requires
            index < self@.len(),
        ensures
            index == 0 ==> pick is Custom,
            index != 0 ==> (pick matches Selection::Window(t) && t@ == self@[index as int]),
    {
        if index == 0 {
            Selection::Custom
        } else {
            Selection::Window(self.windows[index - 1].clone())
        }
    }
}

} // verus!
