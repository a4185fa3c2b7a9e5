use vstd::prelude::*;

verus! {

/// Severity of a log record, from the most to the least severe.
#[derive(Clone, Copy, Debug, PartialEq, Eq, Structural)]
pub enum Level {
    Error,
    Warn,
    Info,
    Debug,
    Trace,
}

/// Terminal color given to each level label.
#[derive(Clone, Copy, Debug, PartialEq, Eq, Structural)]
pub enum Color {
    Red,
    Yellow,
    Green,
    Blue,
    Magenta,
}

/// The five-character label of a level.
pub open spec fn label_of(level: Level) -> Seq<char> {
    match level {
        Level::Trace => seq!['T', 'R', 'A', 'C', 'E'],
        Level::Debug => seq!['D', 'E', 'B', 'U', 'G'],
        Level::Info => seq!['I', 'N', 'F', 'O', ' '],
        Level::Warn => seq!['W', 'A', 'R', 'N', ' '],
        Level::Error => seq!['E', 'R', 'R', 'O', 'R'],
    }
}

pub open spec fn color_of(level: Level) -> Color {
    match level {
        Level::Trace => Color::Magenta,
        Level::Debug => Color::Blue,
        Level::Info => Color::Green,
        Level::Warn => Color::Yellow,
        Level::Error => Color::Red,
    }
}

/// `n` spaces.
pub open spec fn spaces(n: nat) -> Seq<char> {
    Seq::new(n, |i: int| ' ')
}

/// `s` followed by spaces up to `width` characters; unchanged when already as wide.
pub open spec fn pad_right(s: Seq<char>, width: nat) -> Seq<char> {
    if s.len() >= width {
        s
    } else {
        s + spaces((width - s.len()) as nat)
    }
}

/// The rendered line: `" {label} {padded tag} > {message}"`.
pub open spec fn line_of(level: Level, tag: Seq<char>, width: nat, message: Seq<char>) -> Seq<char> {
    seq![' '] + label_of(level) + seq![' '] + pad_right(tag, width) + seq![' ', '>', ' '] + message
}

pub open spec fn max_nat(a: nat, b: nat) -> nat {
    if a >= b { a } else { b }
}

/// Widest tag seen so far, shared by every line that a formatter renders.
pub struct FormatState {
    pub max_tag_width: usize,
}

impl FormatState {
    pub fn new() -> (r: FormatState)
        ensures
            r.max_tag_width == 0,
    {
        FormatState { max_tag_width: 0 }
    }
}

/// The fixed-width label of a level.
pub fn level_label(level: Level) -> (r: &'static str)
    ensures
        r@ == label_of(level),
{
    proof {
        reveal_strlit("TRACE");
        reveal_strlit("DEBUG");
        reveal_strlit("INFO ");
        reveal_strlit("WARN ");
        reveal_strlit("ERROR");
    }
    match level {
        Level::Trace => {
            let s: &'static str = "TRACE";
            assert(s@ =~= label_of(level));
            s
        },
        Level::Debug => {
            let s: &'static str = "DEBUG";
            assert(s@ =~= label_of(level));
            s
        },
        Level::Info => {
            let s: &'static str = "INFO ";
            assert(s@ =~= label_of(level));
            s
        },
        Level::Warn => {
            let s: &'static str = "WARN ";
            assert(s@ =~= label_of(level));
            s
        },
        Level::Error => {
            let s: &'static str = "ERROR";
            assert(s@ =~= label_of(level));
            s
        },
    }
}

/// The color that marks a level on the terminal.
pub fn colored_level(level: Level) -> (r: Color)
    ensures
        r == color_of(level),
{
    match level {
        Level::Trace => Color::Magenta,
        Level::Debug => Color::Blue,
        Level::Info => Color::Green,
        Level::Warn => Color::Yellow,
        Level::Error => Color::Red,
    }
}

/// Widens the shared state to the tag's length if needed, and returns the width
/// that lines are now padded to.
pub fn max_target_width(state: &mut FormatState, target: &str) -> (r: usize)
    ensures
        final(state).max_tag_width as nat == max_nat(old(state).max_tag_width as nat, target@.len()),
        r == final(state).max_tag_width,
{
    let len = target.unicode_len();
    if state.max_tag_width < len {
        state.max_tag_width = len;
        len
    } else {
        state.max_tag_width
    }
}

/// `value` right-padded with spaces to `width` characters.
pub fn padded(value: &str, width: usize) -> (r: String)
    ensures
        r@ == pad_right(value@, width as nat),
{
    let mut out = String::from_str(value);
    let mut n: usize = value.unicode_len();
    proof {
        reveal_strlit(" ");
    }
    while n < width
        invariant
            n >= value@.len(),
            n <= width || n == value@.len(),
            out@ == value@ + spaces((n - value@.len()) as nat),
        decreases width - n,
    {
        proof {
            reveal_strlit(" ");
        }
        let ghost before = out@;
        out.append(" ");
        proof {
            assert(" "@ =~= seq![' ']);
            assert(out@ == before + seq![' ']);
            assert(out@ =~= value@ + spaces((n + 1 - value@.len()) as nat));
        }
        n = n + 1;
    }
    proof {
        if value@.len() >= width {
            assert(out@ =~= value@);
        }
    }
    out
}

/// Renders one record as the line shown on the terminal and shipped remotely.
pub fn render_line(level: Level, tag: &str, width: usize, message: &str) -> (r: String)
    ensures
        r@ == line_of(level, tag@, width as nat, message@),
{
    proof {
        reveal_strlit(" ");
        reveal_strlit(" > ");
    }
    let mut out = String::from_str(" ");
    out.append(level_label(level));
    out.append(" ");
    let tag_part = padded(tag, width);
    out.append(tag_part.as_str());
    out.append(" > ");
    out.append(message);
    proof {
        assert(" > "@ =~= seq![' ', '>', ' ']);
        assert(" "@ =~= seq![' ']);
    }
    out
}

/// Formats one record: widens the shared state by its tag, then renders it at
/// the width that results.
pub fn format_record(state: &mut FormatState, level: Level, tag: &str, message: &str) -> (r: String)
    ensures
        final(state).max_tag_width as nat == max_nat(old(state).max_tag_width as nat, tag@.len()),
        r@ == line_of(level, tag@, final(state).max_tag_width as nat, message@),
{
    let width = max_target_width(state, tag);
    render_line(level, tag, width, message)
}

/// The width after formatting records with these tags, one after another,
/// starting from `start`.
pub open spec fn width_after(start: nat, tags: Seq<Seq<char>>) -> nat
    decreases tags.len(),
{
    if tags.len() == 0 {
        start
    } else {
        max_nat(width_after(start, tags.drop_last()), tags.last().len())
    }
}

/// Formatting tags from a fresh state ends at the length of the longest tag: it is at least every tag's length and is the length of one of
/// them (or 0 when there are none).
pub proof fn lemma_width_is_longest_tag(tags: Seq<Seq<char>>)
    ensures
        forall|i: int| 0 <= i < tags.len() ==> tags[i].len() <= width_after(0, tags),
        tags.len() == 0 ==> width_after(0, tags) == 0,
        tags.len() > 0 ==> exists|i: int| 0 <= i < tags.len() && tags[i].len() == width_after(0, tags),
    decreases tags.len(),
{
    if tags.len() > 0 {
        let init = tags.drop_last();
        lemma_width_is_longest_tag(init);
        assert forall|i: int| 0 <= i < tags.len() implies tags[i].len() <= width_after(0, tags) by {
            if i < init.len() {
                assert(init[i] == tags[i]);
            }
        }
        if init.len() > 0 && width_after(0, init) >= tags.last().len() {
            let j = choose|j: int| 0 <= j < init.len() && init[j].len() == width_after(0, init);
            assert(tags[j] == init[j]);
        } else {
            assert(tags[tags.len() - 1] == tags.last());
        }
    }
}

/// The width never shrinks: after more records it is at least what it was
/// after fewer.
pub proof fn lemma_width_monotonic(start: nat, tags: Seq<Seq<char>>, n: int)
    requires
        0 <= n <= tags.len(),
    ensures
        width_after(start, tags.take(n)) <= width_after(start, tags),
        start <= width_after(start, tags),
    decreases tags.len(),
{
    if tags.len() > 0 {
        let init = tags.drop_last();
        if n == tags.len() {
            assert(tags.take(n) =~= tags);
            lemma_width_monotonic(start, init, 0);
        } else {
            assert(tags.take(n) =~= init.take(n));
            lemma_width_monotonic(start, init, n);
        }
    } else {
        assert(tags.take(n) =~= tags);
    }
}

/// The width after formatting a sequence of tags depends only on which tags
/// were seen, not on their order.
pub proof fn lemma_width_order_independent(tags: Seq<Seq<char>>, other: Seq<Seq<char>>)
    requires
        tags.to_multiset() == other.to_multiset(),
    ensures
        width_after(0, tags) == width_after(0, other),
{
    lemma_width_is_longest_tag(tags);
    lemma_width_is_longest_tag(other);
    tags.to_multiset_ensures();
    other.to_multiset_ensures();
    if tags.len() > 0 {
        let i = choose|i: int| 0 <= i < tags.len() && tags[i].len() == width_after(0, tags);
        assert(tags.to_multiset().count(tags[i]) > 0);
        assert(other.contains(tags[i]));
        let k = choose|k: int| 0 <= k < other.len() && other[k].len() == width_after(0, other);
        assert(other.to_multiset().count(other[k]) > 0);
        assert(tags.contains(other[k]));
    } else {
        assert(tags.to_multiset().len() == 0);
        assert(other.len() == 0);
    }
}

} // verus!
