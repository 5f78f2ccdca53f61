use vstd::prelude::*;
use crate::chars::{chars_of, string_from_chars};

verus! {

/// A coarse Unicode general category, enough to tell invisible characters apart.
#[derive(Debug, Clone, Copy, PartialEq, Eq, Structural)]
pub enum UnicodeCategory {
    Control,
    Format,
    PrivateUse,
    Other,
}

/// The category of `c` by code point ranges: C0 and C1 controls; the common
/// format characters (soft hyphen, Arabic marks, zero-width and bidi marks,
/// word joiners, byte order mark, interlinear annotation); the private use
/// areas; everything else.
pub open spec fn category_of(c: char) -> UnicodeCategory {
    let cp = c as u32;
    if cp <= 0x1F || (0x7F <= cp && cp <= 0x9F) {
        UnicodeCategory::Control
    } else if cp == 0xAD || (0x600 <= cp && cp <= 0x605) || cp == 0x61C || cp == 0x6DD || cp == 0x70F
        || (0x200B <= cp && cp <= 0x200F) || (0x2028 <= cp && cp <= 0x202E) || (0x2060 <= cp && cp
        <= 0x206F) || cp == 0xFEFF || (0xFFF9 <= cp && cp <= 0xFFFB) {
        UnicodeCategory::Format
    } else if (0xE000 <= cp && cp <= 0xF8FF) || (0xF0000 <= cp && cp <= 0xFFFFD) || (0x100000 <= cp
        && cp <= 0x10FFFD) {
        UnicodeCategory::PrivateUse
    } else {
        UnicodeCategory::Other
    }
}

/// The category of `c`.
pub fn unicode_general_category(c: char) -> (r: UnicodeCategory)
    ensures
        r == category_of(c),
{
    let cp = c as u32;
    if cp <= 0x1F || (cp >= 0x7F && cp <= 0x9F) {
        return UnicodeCategory::Control;
    }
    if cp == 0xAD || (cp >= 0x600 && cp <= 0x605) || cp == 0x61C || cp == 0x6DD || cp == 0x70F || (cp
        >= 0x200B && cp <= 0x200F) || (cp >= 0x2028 && cp <= 0x202E) || (cp >= 0x2060 && cp <= 0x206F)
        || cp == 0xFEFF || (cp >= 0xFFF9 && cp <= 0xFFFB) {
        return UnicodeCategory::Format;
    }
    if (cp >= 0xE000 && cp <= 0xF8FF) || (cp >= 0xF0000 && cp <= 0xFFFFD) || (cp >= 0x100000 && cp
        <= 0x10FFFD) {
        return UnicodeCategory::PrivateUse;
    }
    UnicodeCategory::Other
}

/// Whether `c` is a control character (general category Cc), as
/// `char::is_control` says.
pub open spec fn is_control_char(c: char) -> bool {
    (c as u32) <= 0x1F || (0x7F <= (c as u32) && (c as u32) <= 0x9F)
}

fn is_control(c: char) -> (r: bool)
    ensures
        r == is_control_char(c),
{
    let cp = c as u32;
    cp <= 0x1F || (cp >= 0x7F && cp <= 0x9F)
}

/// Spinner and progress-bar characters, dropped from cleaned output.
pub open spec fn is_spinner_char(c: char) -> bool {
    match c {
        '\u{2733}' | '\u{2736}' | '\u{273B}' | '\u{273D}' | '\u{2722}' | '\u{2723}' | '\u{2724}' | '\u{2725}'
        | '\u{25CF}' | '\u{25CB}' | '\u{25D0}' | '\u{25D3}' | '\u{25D1}' | '\u{25D2}' | '\u{25D4}' | '\u{25D5}'
        | '\u{25F4}' | '\u{25F5}' | '\u{25F6}' | '\u{25F7}' | '\u{25F0}' | '\u{25F1}' | '\u{25F2}' | '\u{25F3}'
        | '\u{280B}' | '\u{2819}' | '\u{2839}' | '\u{2838}' | '\u{283C}' | '\u{2834}' | '\u{2826}' | '\u{2827}'
        | '\u{2807}' | '\u{280F}' | '\u{28FE}' | '\u{28FD}' | '\u{28FB}' | '\u{28BF}' | '\u{287F}' | '\u{28DF}'
        | '\u{28EF}' | '\u{28F7}' | '\u{2581}' | '\u{2582}' | '\u{2583}' | '\u{2584}' | '\u{2585}' | '\u{2586}'
        | '\u{2587}' | '\u{2588}' | '\u{258F}' | '\u{258E}' | '\u{258D}' | '\u{258C}' | '\u{258B}' | '\u{258A}'
        | '\u{2589}' | '\u{23F3}' | '\u{231B}' | '\u{1F504}' => true,
        _ => false,
    }
}

/// Box-drawing and decorative characters, turned into word separators.
pub open spec fn is_decorative_char(c: char) -> bool {
    match c {
        '\u{2500}' | '\u{2501}' | '\u{2502}' | '\u{2503}' | '\u{250C}' | '\u{2510}' | '\u{2514}' | '\u{2518}'
        | '\u{251C}' | '\u{2524}' | '\u{252C}' | '\u{2534}' | '\u{253C}' | '\u{256D}' | '\u{256E}' | '\u{256F}'
        | '\u{2570}' | '\u{2571}' | '\u{2572}' | '\u{2573}' | '\u{2550}' | '\u{2551}' | '\u{2554}' | '\u{2557}'
        | '\u{255A}' | '\u{255D}' | '\u{2560}' | '\u{2563}' | '\u{2566}' | '\u{2569}' | '\u{256C}' | '\u{25B6}'
        | '\u{25B7}' | '\u{25C0}' | '\u{25C1}' | '\u{25B2}' | '\u{25B3}' | '\u{25BC}' | '\u{25BD}' | '\u{276F}'
        | '\u{276E}' | '\u{203A}' | '\u{2039}' | '\u{BB}' | '\u{AB}' => true,
        _ => false,
    }
}

fn is_spinner(c: char) -> (r: bool)
    ensures
        r == is_spinner_char(c),
{
    match c {
        '\u{2733}' | '\u{2736}' | '\u{273B}' | '\u{273D}' | '\u{2722}' | '\u{2723}' | '\u{2724}' | '\u{2725}'
        | '\u{25CF}' | '\u{25CB}' | '\u{25D0}' | '\u{25D3}' | '\u{25D1}' | '\u{25D2}' | '\u{25D4}' | '\u{25D5}'
        | '\u{25F4}' | '\u{25F5}' | '\u{25F6}' | '\u{25F7}' | '\u{25F0}' | '\u{25F1}' | '\u{25F2}' | '\u{25F3}'
        | '\u{280B}' | '\u{2819}' | '\u{2839}' | '\u{2838}' | '\u{283C}' | '\u{2834}' | '\u{2826}' | '\u{2827}'
        | '\u{2807}' | '\u{280F}' | '\u{28FE}' | '\u{28FD}' | '\u{28FB}' | '\u{28BF}' | '\u{287F}' | '\u{28DF}'
        | '\u{28EF}' | '\u{28F7}' | '\u{2581}' | '\u{2582}' | '\u{2583}' | '\u{2584}' | '\u{2585}' | '\u{2586}'
        | '\u{2587}' | '\u{2588}' | '\u{258F}' | '\u{258E}' | '\u{258D}' | '\u{258C}' | '\u{258B}' | '\u{258A}'
        | '\u{2589}' | '\u{23F3}' | '\u{231B}' | '\u{1F504}' => true,
        _ => false,
    }
}

fn is_decorative(c: char) -> (r: bool)
    ensures
        r == is_decorative_char(c),
{
    match c {
        '\u{2500}' | '\u{2501}' | '\u{2502}' | '\u{2503}' | '\u{250C}' | '\u{2510}' | '\u{2514}' | '\u{2518}'
        | '\u{251C}' | '\u{2524}' | '\u{252C}' | '\u{2534}' | '\u{253C}' | '\u{256D}' | '\u{256E}' | '\u{256F}'
        | '\u{2570}' | '\u{2571}' | '\u{2572}' | '\u{2573}' | '\u{2550}' | '\u{2551}' | '\u{2554}' | '\u{2557}'
        | '\u{255A}' | '\u{255D}' | '\u{2560}' | '\u{2563}' | '\u{2566}' | '\u{2569}' | '\u{256C}' | '\u{25B6}'
        | '\u{25B7}' | '\u{25C0}' | '\u{25C1}' | '\u{25B2}' | '\u{25B3}' | '\u{25BC}' | '\u{25BD}' | '\u{276F}'
        | '\u{276E}' | '\u{203A}' | '\u{2039}' | '\u{BB}' | '\u{AB}' => true,
        _ => false,
    }
}

/// The text `s` cut to `max_chars` characters, with `...` appended when it
/// was longer.
pub open spec fn truncated(s: Seq<char>, max_chars: nat) -> Seq<char> {
    if s.len() <= max_chars {
        s
    } else {
        s.subrange(0, max_chars as int) + seq!['.', '.', '.']
    }
}

/// Cuts `s` to at most `max_chars` characters, marking a cut with `...`.
pub fn truncate_string(s: &str, max_chars: usize) -> (r: String)
    ensures
        r@ == truncated(s@, max_chars as nat),
{
    let cs = chars_of(s);
    if cs.len() <= max_chars {
        return string_from_chars(&cs);
    }
    let mut out: Vec<char> = Vec::new();
    let mut i: usize = 0;
    while i < max_chars
        invariant
            0 <= i <= max_chars < cs@.len(),
            out@ == cs@.subrange(0, i as int),
        decreases max_chars - i,
    {
        out.push(cs[i]);
        assert(out@ =~= cs@.subrange(0, i + 1));
        i = i + 1;
    }
    out.push('.');
    out.push('.');
    out.push('.');
    assert(out@ =~= cs@.subrange(0, max_chars as int) + seq!['.', '.', '.']);
    string_from_chars(&out)
}

/// Whitespace normalisation of `s[i..]`, given the text `res` produced so
/// far and the scanner's flags: runs of spaces and tabs become one space,
/// runs of line breaks (with the blanks around them) one line break, and
/// leading and trailing whitespace goes.
pub open spec fn normalize_from(
    s: Seq<char>,
    i: int,
    res: Seq<char>,
    last_was_space: bool,
    last_was_newline: bool,
    pending_newline: bool,
) -> Seq<char>
    decreases s.len() - i,
{
    if i >= s.len() {
        res
    } else {
        let c = s[i];
        if c == '\n' {
            let mark = !last_was_newline && res.len() > 0;
            normalize_from(
                s,
                i + 1,
                res,
                true,
                if mark { true } else { last_was_newline },
                if mark { true } else { pending_newline },
            )
        } else if c == ' ' || c == '\t' {
            normalize_from(s, i + 1, res, last_was_space || res.len() > 0, last_was_newline, pending_newline)
        } else {
            let sep = if pending_newline {
                res.push('\n')
            } else if last_was_space && res.len() > 0 {
                res.push(' ')
            } else {
                res
            };
            normalize_from(s, i + 1, sep.push(c), false, false, false)
        }
    }
}

/// The whitespace normalisation of `s`.
pub open spec fn normalized(s: Seq<char>) -> Seq<char> {
    normalize_from(s, 0, Seq::empty(), false, false, false)
}

fn normalize_chars(cs: &Vec<char>) -> (r: Vec<char>)
    ensures
        r@ == normalized(cs@),
{
    let mut result: Vec<char> = Vec::new();
    let mut last_was_space = false;
    let mut last_was_newline = false;
    let mut pending_newline = false;
    let mut i: usize = 0;
    while i < cs.len()
        invariant
            0 <= i <= cs@.len(),
            normalized(cs@) == normalize_from(
                cs@,
                i as int,
                result@,
                last_was_space,
                last_was_newline,
                pending_newline,
            ),
        decreases cs@.len() - i,
    {
        let c = cs[i];
        if c == '\n' {
            if !last_was_newline && result.len() > 0 {
                pending_newline = true;
                last_was_newline = true;
            }
            last_was_space = true;
        } else if c == ' ' || c == '\t' {
            if !last_was_space && result.len() > 0 {
                last_was_space = true;
            }
        } else {
            if pending_newline {
                result.push('\n');
                pending_newline = false;
                last_was_space = false;
            } else if last_was_space && result.len() > 0 {
                result.push(' ');
            }
            result.push(c);
            last_was_space = false;
            last_was_newline = false;
        }
        i = i + 1;
    }
    result
}

/// Collapses runs of blanks to one space and runs of line breaks to one line
/// break, and trims both ends.
pub fn normalize_whitespace(s: &str) -> (r: String)
    ensures
        r@ == normalized(s@),
{
    let cs = chars_of(s);
    let out = normalize_chars(&cs);
    string_from_chars(&out)
}


/// A final byte of a control sequence: `@` to `~`.
pub open spec fn is_final_byte(c: char) -> bool {
    '@' <= c && c <= '~'
}

/// Where a control sequence body that starts at `j` ends: just past its
/// first final byte, or at the end of the text.
pub open spec fn csi_end(s: Seq<char>, j: int) -> int
    decreases s.len() - j,
{
    if j >= s.len() {
        s.len() as int
    } else if is_final_byte(s[j]) {
        j + 1
    } else {
        csi_end(s, j + 1)
    }
}

/// Where a string that starts at `j` ends: just past the string terminator
/// (ESC, with the `\` that may follow it) or, when `bel_ends`, past a BEL; or
/// at the end of the text.
pub open spec fn st_end(s: Seq<char>, j: int, bel_ends: bool) -> int
    decreases s.len() - j,
{
    if j >= s.len() {
        s.len() as int
    } else if bel_ends && s[j] == '\x07' {
        j + 1
    } else if s[j] == '\x1b' {
        if j + 1 < s.len() && s[j + 1] == '\\' {
            j + 2
        } else {
            j + 1
        }
    } else {
        st_end(s, j + 1, bel_ends)
    }
}

/// Where an 8-bit operating system command that starts at `j` ends: just
/// past a BEL or an 8-bit string terminator, or at the end of the text.
pub open spec fn c1_osc_end(s: Seq<char>, j: int) -> int
    decreases s.len() - j,
{
    if j >= s.len() {
        s.len() as int
    } else if s[j] == '\x07' || s[j] == '\u{9c}' {
        j + 1
    } else {
        c1_osc_end(s, j + 1)
    }
}

/// Where the escape sequence whose ESC stands at `i` ends.
pub open spec fn esc_end(s: Seq<char>, i: int) -> int {
    let n = i + 1;
    if n >= s.len() {
        n
    } else {
        let d = s[n];
        if d == '[' {
            csi_end(s, n + 1)
        } else if d == ']' {
            st_end(s, n + 1, true)
        } else if d == 'P' {
            st_end(s, n + 1, false)
        } else if d == '(' || d == ')' || d == '*' || d == '+' || d == '#' || d == '%' || d == ' ' {
            if n + 2 <= s.len() {
                n + 2
            } else {
                s.len() as int
            }
        } else if '0' <= d && d <= '~' {
            n + 1
        } else {
            n
        }
    }
}

/// Where the piece of text that starts at `i` ends: an escape sequence, an
/// 8-bit control sequence or command, or a single character.
pub open spec fn strip_next(s: Seq<char>, i: int) -> int {
    let c = s[i];
    if c == '\x1b' {
        esc_end(s, i)
    } else if c == '\u{9b}' {
        csi_end(s, i + 1)
    } else if c == '\u{9d}' {
        c1_osc_end(s, i + 1)
    } else {
        i + 1
    }
}

/// Whether a character survives escape stripping where it stands alone:
/// everything but control characters, and line breaks and tabs.
pub open spec fn kept_by_strip(c: char) -> bool {
    !is_control_char(c) || c == '\n' || c == '\t'
}

/// Escape stripping of `s[i..]` after `acc` was produced: each escape
/// sequence and 8-bit control sequence disappears, and so does every other
/// control character but line breaks and tabs.
pub open spec fn strip_from(s: Seq<char>, i: int, acc: Seq<char>) -> Seq<char>
    decreases s.len() - i,
{
    if i < 0 || i >= s.len() {
        acc
    } else {
        let n = strip_next(s, i);
        let next = if i < n && n <= s.len() { n } else { i + 1 };
        let acc2 = if kept_by_strip(s[i]) { acc.push(s[i]) } else { acc };
        strip_from(s, next, acc2)
    }
}

/// `s` without terminal escape sequences and control characters.
pub open spec fn stripped(s: Seq<char>) -> Seq<char> {
    strip_from(s, 0, Seq::empty())
}

fn csi_end_at(s: &Vec<char>, j: usize) -> (k: usize)
    requires
        j <= s@.len(),
    ensures
        k == csi_end(s@, j as int),
        j <= k <= s@.len(),
{
    let mut k = j;
    while k < s.len() && !('@' <= s[k] && s[k] <= '~')
        invariant
            j <= k <= s@.len(),
            csi_end(s@, j as int) == csi_end(s@, k as int),
        decreases s@.len() - k,
    {
        k = k + 1;
    }
    if k < s.len() {
        k + 1
    } else {
        k
    }
}

fn st_end_at(s: &Vec<char>, j: usize, bel_ends: bool) -> (k: usize)
    requires
        j <= s@.len(),
    ensures
        k == st_end(s@, j as int, bel_ends),
        j <= k <= s@.len(),
{
    let mut k = j;
    while k < s.len() && !(bel_ends && s[k] == '\x07') && s[k] != '\x1b'
        invariant
            j <= k <= s@.len(),
            st_end(s@, j as int, bel_ends) == st_end(s@, k as int, bel_ends),
        decreases s@.len() - k,
    {
        k = k + 1;
    }
    if k >= s.len() {
        k
    } else if bel_ends && s[k] == '\x07' {
        k + 1
    } else if k + 1 < s.len() && s[k + 1] == '\\' {
        k + 2
    } else {
        k + 1
    }
}

fn c1_osc_end_at(s: &Vec<char>, j: usize) -> (k: usize)
    requires
        j <= s@.len(),
    ensures
        k == c1_osc_end(s@, j as int),
        j <= k <= s@.len(),
{
    let mut k = j;
    while k < s.len() && s[k] != '\x07' && s[k] != '\u{9c}'
        invariant
            j <= k <= s@.len(),
            c1_osc_end(s@, j as int) == c1_osc_end(s@, k as int),
        decreases s@.len() - k,
    {
        k = k + 1;
    }
    if k < s.len() {
        k + 1
    } else {
        k
    }
}

fn strip_next_at(s: &Vec<char>, i: usize) -> (n: usize)
    requires
        i < s@.len(),
    ensures
        n == strip_next(s@, i as int),
        i < n <= s@.len(),
{
    let len = s.len();
    let c = s[i];
    if c == '\x1b' {
        let n = i + 1;
        if n >= len {
            return n;
        }
        let d = s[n];
        if d == '[' {
            csi_end_at(s, n + 1)
        } else if d == ']' {
            st_end_at(s, n + 1, true)
        } else if d == 'P' {
            st_end_at(s, n + 1, false)
        } else if d == '(' || d == ')' || d == '*' || d == '+' || d == '#' || d == '%' || d == ' ' {
            if n + 1 < len {
                n + 2
            } else {
                len
            }
        } else if '0' <= d && d <= '~' {
            n + 1
        } else {
            n
        }
    } else if c == '\u{9b}' {
        csi_end_at(s, i + 1)
    } else if c == '\u{9d}' {
        c1_osc_end_at(s, i + 1)
    } else {
        i + 1
    }
}

fn strip_chars(s: &Vec<char>) -> (r: Vec<char>)
    ensures
        r@ == stripped(s@),
{
    let mut result: Vec<char> = Vec::new();
    let mut i: usize = 0;
    while i < s.len()
        invariant
            0 <= i <= s@.len(),
            stripped(s@) == strip_from(s@, i as int, result@),
        decreases s@.len() - i,
    {
        let c = s[i];
        let n = strip_next_at(s, i);
        if !is_control(c) || c == '\n' || c == '\t' {
            result.push(c);
        }
        i = n;
    }
    result
}

/// Removes terminal escape sequences (control sequences, operating system
/// commands, device control strings, character set selections and single
/// character functions, in 7-bit and 8-bit forms) and control characters
/// other than line breaks and tabs.
pub fn strip_ansi_codes(s: &str) -> (r: String)
    ensures
        r@ == stripped(s@),
{
    let cs = chars_of(s);
    let out = strip_chars(&cs);
    string_from_chars(&out)
}


pub open spec fn is_ascii_digit(c: char) -> bool {
    '0' <= c && c <= '9'
}

/// Where the title of an operating system command whose introducer was
/// already removed ends, scanning from `k`: past a BEL; at a line break, a
/// `]`, the second of two spaces in a row, or a spinner character; or at the
/// end of the text.
pub open spec fn title_end(s: Seq<char>, k: int, saw_space: bool) -> int
    decreases s.len() - k,
{
    if k < 0 || k >= s.len() {
        s.len() as int
    } else {
        let ch = s[k];
        if ch == '\x07' {
            k + 1
        } else if ch == '\n' || ch == ']' {
            k
        } else if ch == ' ' && saw_space {
            k
        } else if is_spinner_char(ch) {
            k
        } else {
            title_end(s, k + 1, ch == ' ')
        }
    }
}

/// For a `]` at `i` followed by one or two digits: the position after them.
pub open spec fn osc_digits_end(s: Seq<char>, i: int) -> int {
    if i + 2 < s.len() && is_ascii_digit(s[i + 2]) {
        i + 3
    } else {
        i + 2
    }
}

/// Whether a `]` at `i` starts a leftover `]N;title` whose ESC was lost.
pub open spec fn orphan_osc_at(s: Seq<char>, i: int) -> bool {
    &&& s[i] == ']'
    &&& i + 1 < s.len()
    &&& is_ascii_digit(s[i + 1])
    &&& osc_digits_end(s, i) < s.len()
    &&& s[osc_digits_end(s, i)] == ';'
}

/// Where the cleaning scan goes after the character at `i`.
pub open spec fn clean_next(s: Seq<char>, i: int) -> int {
    if s[i] == ']' && i + 1 < s.len() && is_ascii_digit(s[i + 1]) {
        if orphan_osc_at(s, i) {
            title_end(s, osc_digits_end(s, i) + 1, false)
        } else {
            osc_digits_end(s, i)
        }
    } else {
        i + 1
    }
}

/// What the cleaning scan appends to `acc` for the character `c`: nothing
/// for a spinner, a space for a decorative character unless `acc` already
/// ends in a space or line break, nothing for other invisible characters,
/// and `c` itself otherwise.
pub open spec fn clean_emit(acc: Seq<char>, c: char) -> Seq<char> {
    if is_spinner_char(c) {
        acc
    } else if is_decorative_char(c) {
        if acc.len() == 0 || (acc.last() != ' ' && acc.last() != '\n') {
            acc.push(' ')
        } else {
            acc
        }
    } else if c != ' ' && c != '\n' && c != '\t' && category_of(c) != UnicodeCategory::Other {
        acc
    } else {
        acc.push(c)
    }
}

/// The cleaning scan of `s[i..]` after `acc` was produced.
pub open spec fn clean_from(s: Seq<char>, i: int, acc: Seq<char>) -> Seq<char>
    decreases s.len() - i,
{
    if i < 0 || i >= s.len() {
        acc
    } else {
        let n = clean_next(s, i);
        let next = if i < n && n <= s.len() { n } else { i + 1 };
        let acc2 = if orphan_osc_at(s, i) { acc } else { clean_emit(acc, s[i]) };
        clean_from(s, next, acc2)
    }
}

/// `s` made fit for display: escape sequences and control characters
/// stripped, leftover window titles, spinners and invisible characters
/// removed, decorations turned into spaces, and whitespace normalised.
pub open spec fn cleaned(s: Seq<char>) -> Seq<char> {
    normalized(clean_from(stripped(s), 0, Seq::empty()))
}

fn title_end_at(s: &Vec<char>, j: usize) -> (k: usize)
    requires
        j <= s@.len(),
    ensures
        k == title_end(s@, j as int, false),
        j <= k <= s@.len(),
{
    let len = s.len();
    let mut saw_space = false;
    let mut k = j;
    while k < len
        invariant
            len == s@.len(),
            j <= k <= len,
            title_end(s@, j as int, false) == title_end(s@, k as int, saw_space),
        decreases len - k,
    {
        let ch = s[k];
        if ch == '\x07' {
            return k + 1;
        }
        if ch == '\n' || ch == ']' {
            return k;
        }
        if ch == ' ' {
            if saw_space {
                return k;
            }
            saw_space = true;
        } else {
            saw_space = false;
        }
        if is_spinner(ch) {
            return k;
        }
        k = k + 1;
    }
    k
}

fn clean_chars(s: &Vec<char>) -> (r: Vec<char>)
    ensures
        r@ == clean_from(s@, 0, Seq::empty()),
{
    let len = s.len();
    let mut cleaned: Vec<char> = Vec::new();
    let mut i: usize = 0;
    while i < len
        invariant
            len == s@.len(),
            0 <= i <= len,
            clean_from(s@, 0, Seq::empty()) == clean_from(s@, i as int, cleaned@),
        decreases len - i,
    {
        let c = s[i];
        let mut next = i + 1;
        let mut skip = false;
        if c == ']' && i + 1 < len && '0' <= s[i + 1] && s[i + 1] <= '9' {
            let mut j = i + 2;
            if j < len && '0' <= s[j] && s[j] <= '9' {
                j = j + 1;
            }
            if j < len && s[j] == ';' {
                next = title_end_at(s, j + 1);
                skip = true;
            } else {
                next = j;
            }
        }
        if !skip {
            if is_spinner(c) {
            } else if is_decorative(c) {
                let n = cleaned.len();
                if n == 0 || (cleaned[n - 1] != ' ' && cleaned[n - 1] != '\n') {
                    cleaned.push(' ');
                }
            } else if c != ' ' && c != '\n' && c != '\t' && unicode_general_category(c)
                != UnicodeCategory::Other {
            } else {
                cleaned.push(c);
            }
        }
        i = next;
    }
    cleaned
}

/// Makes terminal output fit for display on a remote viewer.
pub fn clean_output(s: &str) -> (r: String)
    ensures
        r@ == cleaned(s@),
{
    let cs = chars_of(s);
    let plain = strip_chars(&cs);
    let kept = clean_chars(&plain);
    let out = normalize_chars(&kept);
    string_from_chars(&out)
}

} // verus!
