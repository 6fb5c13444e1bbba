//! Whether a log filter can be used as it is.
//!
//! A filter is a list of directives with commas between them, and
//! `tracing_subscriber` parses it. Its parser trims each directive and walks
//! the trimmed text, but cuts the untrimmed one, at the offsets that it found
//! in the trimmed one. After white space in front of a directive those
//! offsets are too small, and a cut may fall into the middle of a character
//! that takes more than one byte: the parser then panics. So the parser is
//! followed here up to its cuts, and it is handed a filter only where every
//! cut falls where a character starts.

use tracing_subscriber::EnvFilter;
use vstd::prelude::*;

verus! {

/// Whether `c` is white space, as `str::trim` takes it: the code points
/// with the Unicode property `White_Space`.
pub open spec fn is_white_space(c: char) -> bool {
    let code = c as u32;
    ||| 0x09 <= code <= 0x0D
    ||| code == 0x20
    ||| code == 0x85
    ||| code == 0xA0
    ||| code == 0x1680
    ||| 0x2000 <= code <= 0x200A
    ||| code == 0x2028
    ||| code == 0x2029
    ||| code == 0x202F
    ||| code == 0x205F
    ||| code == 0x3000
}

/// How many bytes `c` takes in UTF-8.
pub open spec fn utf8_len(c: char) -> nat {
    let code = c as u32;
    if code < 0x80 {
        1
    } else if code < 0x800 {
        2
    } else if code < 0x10000 {
        3
    } else {
        4
    }
}

/// How many bytes the characters `text[lo..hi]` take.
pub open spec fn bytes_between(text: Seq<char>, lo: int, hi: int) -> nat
    decreases hi - lo,
{
    if hi <= lo {
        0
    } else {
        bytes_between(text, lo, hi - 1) + utf8_len(text[hi - 1])
    }
}

/// Whether a character of `text[lo..hi]` starts at the byte `offset` of
/// that piece, or the piece ends there.
pub open spec fn starts_character(text: Seq<char>, lo: int, hi: int, offset: nat) -> bool {
    exists|m: int| lo <= m <= hi && #[trigger] bytes_between(text, lo, m) == offset
}

/// Where the parser stands in a directive.
pub enum ModeView {
    /// In the white space in front of the directive.
    Leading,
    /// Nothing more is cut in this directive: it has no white space in
    /// front, or the parser has given it up.
    Plain,
    /// In the target, or the level that stands alone.
    Name,
    /// In the name of a span, which started at this offset.
    Span(nat),
    /// In a field, which started at this offset.
    Field(nat),
    /// Behind the fields.
    Fields,
    /// Behind the span.
    Target,
}

/// How far a filter has been followed.
pub struct ScanView {
    /// Whether the filter is turned away: a cut would fall into a
    /// character, or a directive with white space in front has reached its
    /// level, which never parses there.
    pub refused: bool,
    /// Where the directive at hand starts in the text.
    pub start: int,
    /// How many bytes of white space stand in front of the directive.
    pub lead: nat,
    /// How many bytes of the directive have been read.
    pub at: nat,
    pub mode: ModeView,
}

/// A scan at the start of a directive that starts at `start`.
pub open spec fn at_directive(start: int) -> ScanView {
    ScanView { refused: false, start, lead: 0, at: 0, mode: ModeView::Leading }
}

/// The scan after the character `text[n]`.
///
/// The offsets are those of the trimmed directive, as the parser has them:
/// the bytes read, less the white space in front. The parser cuts at `[`
/// behind the target, at `]` and `{` behind the name of a span, and at `}`
/// behind a field; each cut is checked against the untrimmed directive. At
/// `=` it goes on to the level, which it cuts from the untrimmed directive
/// too: behind white space the level then holds the `=` itself and never
/// parses.
pub open spec fn step(text: Seq<char>, n: int, scan: ScanView) -> ScanView {
    let c = text[n];
    let offset = (scan.at - scan.lead) as nat;
    let read = ScanView { at: scan.at + utf8_len(c), ..scan };
    let refused = ScanView { refused: true, ..scan };
    if scan.refused {
        scan
    } else if c == ',' {
        at_directive(n + 1)
    } else {
        match scan.mode {
            ModeView::Leading => if is_white_space(c) {
                ScanView { lead: scan.lead + utf8_len(c), ..read }
            } else if scan.lead == 0 {
                ScanView { mode: ModeView::Plain, ..read }
            } else if c == '[' {
                ScanView { mode: ModeView::Span(1), ..read }
            } else {
                ScanView { mode: ModeView::Name, ..read }
            },
            ModeView::Plain => read,
            ModeView::Name => if c == '=' {
                refused
            } else if c == '[' {
                if starts_character(text, scan.start, n, offset) {
                    ScanView { mode: ModeView::Span(offset + 1), ..read }
                } else {
                    refused
                }
            } else {
                read
            },
            ModeView::Span(from) => if c == ']' || c == '{' {
                if starts_character(text, scan.start, n, from) && starts_character(
                    text,
                    scan.start,
                    n,
                    offset,
                ) {
                    if c == ']' {
                        ScanView { mode: ModeView::Target, ..read }
                    } else {
                        ScanView { mode: ModeView::Field(offset + 1), ..read }
                    }
                } else {
                    refused
                }
            } else {
                read
            },
            ModeView::Field(from) => if c == '}' {
                if starts_character(text, scan.start, n, from) && starts_character(
                    text,
                    scan.start,
                    n,
                    offset,
                ) {
                    ScanView { mode: ModeView::Fields, ..read }
                } else {
                    refused
                }
            } else {
                read
            },
            ModeView::Fields => if c == ']' {
                ScanView { mode: ModeView::Target, ..read }
            } else {
                ScanView { mode: ModeView::Plain, ..read }
            },
            ModeView::Target => if c == '=' {
                refused
            } else {
                ScanView { mode: ModeView::Plain, ..read }
            },
        }
    }
}

/// The scan after the first `n` characters of `text`.
pub open spec fn scan(text: Seq<char>, n: int) -> ScanView
    decreases n,
{
    if n <= 0 {
        at_directive(0)
    } else {
        step(text, n - 1, scan(text, n - 1))
    }
}

/// Whether the parser of log filters can be handed `text`: it makes no cut
/// inside a character. A text that is turned away is one on which the
/// parser panics or fails.
pub open spec fn cuts_at_characters(text: Seq<char>) -> bool {
    !scan(text, text.len() as int).refused
}

/// Characters take a byte at least.
proof fn bytes_grow(text: Seq<char>, lo: int, a: int, b: int)
    requires
        lo <= a <= b,
    ensures
        bytes_between(text, lo, a) + (b - a) <= bytes_between(text, lo, b),
        bytes_between(text, lo, b) <= 4 * (b - lo),
    decreases b - lo,
{
    if lo < b {
        if a < b {
            bytes_grow(text, lo, a, b - 1);
        } else {
            bytes_grow(text, lo, b - 1, b - 1);
        }
    }
}

/// Whether `c` is white space, as `str::trim` takes it.
fn white_space(c: char) -> (yes: bool)
    ensures
        yes == is_white_space(c),
{
    let code = c as u32;
    (0x09 <= code && code <= 0x0D) || code == 0x20 || code == 0x85 || code == 0xA0 || code
        == 0x1680 || (0x2000 <= code && code <= 0x200A) || code == 0x2028 || code == 0x2029
        || code == 0x202F || code == 0x205F || code == 0x3000
}

/// How many bytes `c` takes in UTF-8.
fn char_len(c: char) -> (len: u128)
    ensures
        len == utf8_len(c),
        1 <= len <= 4,
{
    let code = c as u32;
    if code < 0x80 {
        1
    } else if code < 0x800 {
        2
    } else if code < 0x10000 {
        3
    } else {
        4
    }
}

/// Whether a character of `text[lo..hi]` starts at the byte `offset` of
/// that piece, or the piece ends there.
fn is_start_of_character(text: &str, lo: usize, hi: usize, offset: u128) -> (yes: bool)
    requires
        lo <= hi <= text@.len(),
    ensures
        yes == starts_character(text@, lo as int, hi as int, offset as nat),
{
    let mut m: usize = lo;
    let mut bytes: u128 = 0;
    while m < hi && bytes < offset
        invariant
            lo <= m <= hi <= text@.len(),
            bytes == bytes_between(text@, lo as int, m as int),
            bytes <= 4 * (m - lo),
            forall|j: int| lo <= j < m ==> #[trigger] bytes_between(text@, lo as int, j) < offset,
        decreases hi - m,
    {
        let c = text.get_char(m);
        bytes = bytes + char_len(c);
        m += 1;
    }
    proof {
        if bytes != offset {
            assert forall|j: int| lo <= j <= hi implies #[trigger] bytes_between(
                text@,
                lo as int,
                j,
            ) != offset by {
                if j >= m {
                    bytes_grow(text@, lo as int, m as int, j);
                }
            }
        }
    }
    bytes == offset
}

/// Where the parser stands in a directive.
enum Mode {
    Leading,
    Plain,
    Name,
    Span(u128),
    Field(u128),
    Fields,
    Target,
}

/// How far a filter has been followed.
struct Scan {
    refused: bool,
    start: usize,
    lead: u128,
    at: u128,
    mode: Mode,
}

impl View for Mode {
    type V = ModeView;

    closed spec fn view(&self) -> ModeView {
        match *self {
            Mode::Leading => ModeView::Leading,
            Mode::Plain => ModeView::Plain,
            Mode::Name => ModeView::Name,
            Mode::Span(from) => ModeView::Span(from as nat),
            Mode::Field(from) => ModeView::Field(from as nat),
            Mode::Fields => ModeView::Fields,
            Mode::Target => ModeView::Target,
        }
    }
}

impl View for Scan {
    type V = ScanView;

    closed spec fn view(&self) -> ScanView {
        ScanView {
            refused: self.refused,
            start: self.start as int,
            lead: self.lead as nat,
            at: self.at as nat,
            mode: self.mode@,
        }
    }
}

/// What holds of a scan after `n` characters, and keeps its numbers small.
spec fn in_bounds(scan: ScanView, n: int) -> bool {
    &&& 0 <= scan.start <= n + 1
    &&& scan.lead <= scan.at
    &&& scan.at <= 4 * (n + 1 - scan.start)
    &&& match scan.mode {
        ModeView::Span(from) => from <= scan.at + 1,
        ModeView::Field(from) => from <= scan.at + 1,
        _ => true,
    }
}

/// The scan after the character at `n`.
fn advance(text: &str, n: usize, scan: Scan) -> (next: Scan)
    requires
        n < text@.len() <= usize::MAX,
        in_bounds(scan@, n as int - 1),
        scan.start <= n || scan.refused,
    ensures
        next@ == step(text@, n as int, scan@),
        in_bounds(next@, n as int),
        next.start <= n + 1,
{
    if scan.refused {
        return scan;
    }
    let c = text.get_char(n);
    if c == ',' {
        return Scan { refused: false, start: n + 1, lead: 0, at: 0, mode: Mode::Leading };
    }
    let Scan { refused: _, start, lead, at: before, mode } = scan;
    let offset: u128 = before - lead;
    let at: u128 = before + char_len(c);
    match mode {
        Mode::Leading => {
            if white_space(c) {
                Scan { refused: false, start, lead: lead + char_len(c), at, mode: Mode::Leading }
            } else if lead == 0 {
                Scan { refused: false, start, lead, at, mode: Mode::Plain }
            } else if c == '[' {
                Scan { refused: false, start, lead, at, mode: Mode::Span(1) }
            } else {
                Scan { refused: false, start, lead, at, mode: Mode::Name }
            }
        },
        Mode::Plain => Scan { refused: false, start, lead, at, mode: Mode::Plain },
        Mode::Name => {
            if c == '=' {
                Scan { refused: true, start, lead, at: before, mode: Mode::Name }
            } else if c == '[' {
                if is_start_of_character(text, start, n, offset) {
                    Scan { refused: false, start, lead, at, mode: Mode::Span(offset + 1) }
                } else {
                    Scan { refused: true, start, lead, at: before, mode: Mode::Name }
                }
            } else {
                Scan { refused: false, start, lead, at, mode: Mode::Name }
            }
        },
        Mode::Span(from) => {
            if c == ']' || c == '{' {
                if is_start_of_character(text, start, n, from) && is_start_of_character(
                    text,
                    start,
                    n,
                    offset,
                ) {
                    if c == ']' {
                        Scan { refused: false, start, lead, at, mode: Mode::Target }
                    } else {
                        Scan { refused: false, start, lead, at, mode: Mode::Field(offset + 1) }
                    }
                } else {
                    Scan { refused: true, start, lead, at: before, mode: Mode::Span(from) }
                }
            } else {
                Scan { refused: false, start, lead, at, mode: Mode::Span(from) }
            }
        },
        Mode::Field(from) => {
            if c == '}' {
                if is_start_of_character(text, start, n, from) && is_start_of_character(
                    text,
                    start,
                    n,
                    offset,
                ) {
                    Scan { refused: false, start, lead, at, mode: Mode::Fields }
                } else {
                    Scan { refused: true, start, lead, at: before, mode: Mode::Field(from) }
                }
            } else {
                Scan { refused: false, start, lead, at, mode: Mode::Field(from) }
            }
        },
        Mode::Fields => {
            if c == ']' {
                Scan { refused: false, start, lead, at, mode: Mode::Target }
            } else {
                Scan { refused: false, start, lead, at, mode: Mode::Plain }
            }
        },
        Mode::Target => {
            if c == '=' {
                Scan { refused: true, start, lead, at: before, mode: Mode::Target }
            } else {
                Scan { refused: false, start, lead, at, mode: Mode::Plain }
            }
        },
    }
}

/// Whether the parser of log filters can be handed `text`.
pub fn can_be_parsed(text: &str) -> (safe: bool)
    ensures
        safe == cuts_at_characters(text@),
{
    let len = text.unicode_len();
    let mut n: usize = 0;
    let mut state = Scan { refused: false, start: 0, lead: 0, at: 0, mode: Mode::Leading };
    while n < len
        invariant
            n <= len,
            len == text@.len(),
            state@ == scan(text@, n as int),
            in_bounds(state@, n as int - 1),
            state.start <= n,
        decreases len - n,
    {
        state = advance(text, n, state);
        n += 1;
    }
    !state.refused
}

/// Whether `tracing_subscriber::EnvFilter::try_new` accepts `directives`.
pub uninterp spec fn env_filter_parses(directives: Seq<char>) -> bool;

/// `tracing_subscriber::EnvFilter::try_new`: whether the directives parse as
/// a filter. The parser cuts its input at byte offsets and panics where a
/// cut falls into a character; [`cuts_at_characters`] leaves out the texts
/// on which one does.
#[verifier::external_body]
pub(crate) fn parses_as_env_filter(directives: &str) -> (ok: bool)
    requires
        cuts_at_characters(directives@),
    ensures
        ok == env_filter_parses(directives@),
{
    EnvFilter::try_new(directives).is_ok()
}

/// Whether a log filter can be used as it is: the parser can be handed it,
/// and accepts it.
pub open spec fn log_filter_usable(directives: Seq<char>) -> bool {
    cuts_at_characters(directives) && env_filter_parses(directives)
}

} // verus!
