//! The presentation of a conflict: the three sides, as the index has them, bound to the
//! operation that made them.

use vstd::prelude::*;
use vstd::string::*;

use crate::text;
use crate::workspace::git;
use crate::workspace::git::{
    ActiveOperationIdentity, ActiveOperationIdentityView, BlobContent, BlobContentView,
    ConflictFile, ConflictFileView, ConflictStage, ConflictStageView, RebaseOperationView,
    RebaseOperationViewView, StashRestoreState,
};

verus! {

// ---------------------------------------------------------------------------
// Lines

/// The number of lines from one checkpoint to the next.
pub const CHECKPOINT_LINES: usize = 64;

/// How wide a character is shown.
pub open spec fn char_width(c: char) -> nat {
    if c == '\t' {
        4
    } else if (c as u32) < 128 {
        1
    } else {
        2
    }
}

pub open spec fn width_of(line: Seq<char>) -> nat
    decreases line.len(),
{
    if line.len() == 0 {
        0
    } else {
        width_of(line.drop_last()) + char_width(line.last())
    }
}

/// The last of the widest lines.
pub open spec fn widest_of(lines: Seq<Seq<char>>) -> int
    decreases lines.len(),
{
    if lines.len() <= 1 {
        0
    } else {
        let w = widest_of(lines.drop_last());
        if width_of(lines.last()) >= width_of(lines[w]) {
            lines.len() - 1
        } else {
            w
        }
    }
}

/// No line is wider than the widest, and none behind it is as wide.
pub proof fn law_widest_is_the_last_maximum(lines: Seq<Seq<char>>)
    requires
        lines.len() > 0,
    ensures
        0 <= widest_of(lines) < lines.len(),
        forall|j: int|
            0 <= j < lines.len() ==> width_of(#[trigger] lines[j]) <= width_of(
                lines[widest_of(lines)],
            ),
        forall|j: int|
            widest_of(lines) < j < lines.len() ==> width_of(#[trigger] lines[j]) < width_of(
                lines[widest_of(lines)],
            ),
    decreases lines.len(),
{
    if lines.len() > 1 {
        let before = lines.drop_last();
        law_widest_is_the_last_maximum(before);
        assert forall|j: int| 0 <= j < lines.len() implies width_of(#[trigger] lines[j])
            <= width_of(lines[widest_of(lines)]) by {
            if j < lines.len() - 1 {
                assert(before[j] == lines[j]);
            }
        }
        assert forall|j: int| widest_of(lines) < j < lines.len() implies width_of(
            #[trigger] lines[j],
        ) < width_of(lines[widest_of(lines)]) by {
            if j < lines.len() - 1 {
                assert(before[j] == lines[j]);
            }
        }
    }
}

/// Whether the line with this number starts at this position.
pub open spec fn starts_line(s: Seq<char>, at: int, line: int) -> bool {
    &&& 0 <= at <= s.len()
    &&& at > 0 ==> s[at - 1] == '\n'
    &&& text::lines_of(s.take(at)).len() == line + 1
}

/// From the start of a line on, the lines are those of the rest of the text.
proof fn lemma_lines_from(s: Seq<char>, at: int, line: int)
    requires
        starts_line(s, at, line),
    ensures
        text::lines_of(s).len() == line + text::lines_of(s.skip(at)).len(),
        forall|j: int|
            0 <= j < text::lines_of(s.skip(at)).len() ==> text::lines_of(s)[line + j]
                == #[trigger] text::lines_of(s.skip(at))[j],
    decreases s.len(),
{
    if s.len() == at {
        assert(s.take(at) =~= s);
        assert(s.skip(at) =~= Seq::empty());
        if at > 0 {
            assert(s.last() == '\n');
        }
    } else {
        let t = s.drop_last();
        assert(t.take(at) =~= s.take(at));
        assert(t.skip(at) =~= s.skip(at).drop_last());
        if at > 0 {
            assert(t[at - 1] == s[at - 1]);
        }
        lemma_lines_from(t, at, line);
        text::lemma_has_a_line(t.skip(at));
        text::lemma_has_a_line(t);
        assert(s.skip(at).last() == s.last());
        assert forall|j: int| 0 <= j < text::lines_of(s.skip(at)).len() implies text::lines_of(
            s,
        )[line + j] == #[trigger] text::lines_of(s.skip(at))[j] by {
            if j < text::lines_of(t.skip(at)).len() {
                assert(text::lines_of(t)[line + j] == text::lines_of(t.skip(at))[j]);
            }
        }
    }
}

/// Where a line starts: behind the lines before it and their line feeds.
pub open spec fn place_of_line(lines: Seq<Seq<char>>, line: int) -> int
    decreases line,
{
    if line <= 0 {
        0
    } else {
        place_of_line(lines, line - 1) + lines[line - 1].len() + 1
    }
}

/// The byte at which the line with this number starts.
pub open spec fn byte_of_line(s: Seq<char>, line: int) -> nat {
    text::byte_len(s.take(place_of_line(text::lines_of(s), line)))
}

/// The number of checkpoints of a text.
pub open spec fn checkpoints_in(s: Seq<char>) -> int {
    (text::lines_of(s).len() - 1) / 64 + 1
}

proof fn lemma_place_before(a: Seq<Seq<char>>, b: Seq<Seq<char>>, line: int)
    requires
        forall|j: int| 0 <= j < line ==> a[j] == b[j],
    ensures
        place_of_line(a, line) == place_of_line(b, line),
    decreases line,
{
    if line > 0 {
        lemma_place_before(a, b, line - 1);
        assert(a[line - 1] == b[line - 1]);
    }
}

/// The last line ends with the text.
proof fn lemma_last_line_ends(s: Seq<char>)
    ensures
        text::lines_of(s).len() > 0,
        place_of_line(text::lines_of(s), text::lines_of(s).len() - 1) + text::lines_of(
            s,
        ).last().len() == s.len(),
    decreases s.len(),
{
    if s.len() > 0 {
        let t = s.drop_last();
        lemma_last_line_ends(t);
        let before = text::lines_of(t);
        let after = text::lines_of(s);
        if s.last() == '\n' {
            lemma_place_before(before, after, before.len() - 1);
            assert(after[before.len() - 1] == before.last());
        } else {
            lemma_place_before(before, after, before.len() - 1);
        }
    }
}

/// The lines that end within the beginning of a text are lines of the text.
proof fn lemma_finished_lines(s: Seq<char>, at: int)
    requires
        0 <= at <= s.len(),
    ensures
        0 < text::lines_of(s.take(at)).len() <= text::lines_of(s).len(),
        forall|j: int|
            0 <= j < text::lines_of(s.take(at)).len() - 1 ==> text::lines_of(s.take(at))[j]
                == #[trigger] text::lines_of(s)[j],
    decreases s.len() - at,
{
    text::lemma_has_a_line(s.take(at));
    if at == s.len() {
        assert(s.take(at) =~= s);
    } else {
        lemma_finished_lines(s, at + 1);
        assert(s.take(at + 1).drop_last() =~= s.take(at));
        assert forall|j: int| 0 <= j < text::lines_of(s.take(at)).len() - 1 implies text::lines_of(
            s.take(at),
        )[j] == #[trigger] text::lines_of(s)[j] by {
            assert(text::lines_of(s.take(at + 1))[j] == text::lines_of(s.take(at))[j]);
        }
    }
}

/// There is one place at which a line starts.
proof fn lemma_place_of_line(s: Seq<char>, at: int, line: int)
    requires
        starts_line(s, at, line),
        0 <= line,
    ensures
        at == place_of_line(text::lines_of(s), line),
{
    let t = s.take(at);
    lemma_last_line_ends(t);
    lemma_finished_lines(s, at);
    if at > 0 {
        assert(t.last() == '\n');
    }
    lemma_place_before(text::lines_of(t), text::lines_of(s), line);
}

/// A later line starts at a later byte.
pub proof fn law_checkpoints_go_on(s: Seq<char>, j: int, k: int)
    requires
        0 <= j < k < checkpoints_in(s),
    ensures
        byte_of_line(s, 64 * j) < byte_of_line(s, 64 * k),
        byte_of_line(s, 64 * k) <= text::byte_len(s),
        byte_of_line(s, 0) == 0,
{
    let lines = text::lines_of(s);
    lemma_places_go_on(lines, 64 * j, 64 * k);
    lemma_places_go_on(lines, 64 * k, lines.len() - 1);
    lemma_places_go_on(lines, 0, 64 * j);
    lemma_last_line_ends(s);
    text::lemma_byte_len_grows(s, place_of_line(lines, 64 * j), place_of_line(lines, 64 * k));
    text::lemma_byte_len_grows(s, place_of_line(lines, 64 * k), s.len() as int);
    assert(s.take(s.len() as int) =~= s);
    assert(s.take(0) =~= Seq::empty());
}

proof fn lemma_places_go_on(lines: Seq<Seq<char>>, a: int, b: int)
    requires
        0 <= a <= b,
    ensures
        place_of_line(lines, a) + (b - a) <= place_of_line(lines, b),
        0 <= place_of_line(lines, a),
    decreases b,
{
    if a < b {
        lemma_places_go_on(lines, a, b - 1);
    } else if a > 0 {
        lemma_places_go_on(lines, a - 1, a - 1);
    }
}

/// A text in lines. Every so many lines the position is noted, in bytes and in characters, so
/// that a line is found without going through all that stand before it.
#[derive(Debug, PartialEq, Eq)]
pub struct SourceLines {
    pub(crate) text: Vec<char>,
    pub(crate) checkpoints: Vec<usize>,
    pub(crate) starts: Vec<usize>,
    pub(crate) newlines: usize,
    pub(crate) widest: usize,
}

impl View for SourceLines {
    type V = Seq<char>;

    closed spec fn view(&self) -> Seq<char> {
        self.text@
    }
}

impl SourceLines {
    #[verifier::type_invariant]
    spec fn wf(self) -> bool {
        let lines = text::lines_of(self.text@);
        &&& self.newlines + 1 == lines.len()
        &&& self.starts@.len() == self.newlines / 64 + 1
        &&& forall|k: int|
            0 <= k < self.starts@.len() ==> starts_line(
                self.text@,
                (#[trigger] self.starts@[k]) as int,
                64 * k,
            )
        &&& self.checkpoints@.len() == self.starts@.len()
        &&& forall|k: int|
            0 <= k < self.checkpoints@.len() ==> (#[trigger] self.checkpoints@[k]) as nat
                == byte_of_line(self.text@, 64 * k)
        &&& self.widest == widest_of(lines)
    }

    /// The bytes that are noted.
    pub closed spec fn noted(&self) -> Seq<usize> {
        self.checkpoints@
    }

    /// Notes the byte at which every line starts whose number is a multiple of the distance of
    /// the checkpoints.
    pub fn new(source: &str) -> (r: Self)
        ensures
            r@ == source@,
            r.noted().len() == checkpoints_in(source@),
            forall|k: int|
                0 <= k < r.noted().len() ==> (#[trigger] r.noted()[k]) as nat == byte_of_line(
                    source@,
                    64 * k,
                ),
    {
        let chars = text::chars_of(source);
        let ghost s = chars@;
        let mut checkpoints: Vec<usize> = Vec::new();
        checkpoints.push(0);
        let mut starts: Vec<usize> = Vec::new();
        starts.push(0);
        let all: usize = text::byte_length(source);
        let mut bytes: usize = 0;
        let mut newlines: usize = 0;
        let mut widest: usize = 0;
        let mut best: u128 = 0;
        let mut width: u128 = 0;
        let mut i: usize = 0;
        proof {
            assert(s.take(0) =~= Seq::empty());
        }
        while i < chars.len()
            invariant
                s == chars@,
                i <= s.len(),
                all == text::byte_len(s),
                bytes == text::byte_len(s.take(i as int)),
                newlines <= i,
                newlines + 1 == text::lines_of(s.take(i as int)).len(),
                starts@.len() == newlines / 64 + 1,
                forall|k: int|
                    0 <= k < starts@.len() ==> starts_line(
                        s,
                        (#[trigger] starts@[k]) as int,
                        64 * k,
                    ),
                checkpoints@.len() == starts@.len(),
                forall|k: int|
                    0 <= k < checkpoints@.len() ==> (#[trigger] checkpoints@[k]) as nat
                        == text::byte_len(s.take(starts@[k] as int)),
                width == width_of(text::lines_of(s.take(i as int)).last()),
                width <= 4 * i,
                best <= 4 * i,
                widest <= newlines,
                newlines == 0 ==> widest == 0 && best == 0,
                newlines > 0 ==> {
                    let done = text::lines_of(s.take(i as int)).drop_last();
                    widest == widest_of(done) && widest < done.len() && best == width_of(
                        done[widest as int],
                    )
                },
            decreases chars.len() - i,
        {
            let c = chars[i];
            let ghost before = text::lines_of(s.take(i as int));
            proof {
                assert(s.take(i + 1).drop_last() =~= s.take(i as int));
                assert(s.take(i + 1).last() == c);
                assert(s.take(i + 1) =~= s.take(i as int).push(c));
                assert(s.take(s.len() as int) =~= s);
                text::lemma_byte_len_push(s.take(i as int), c);
                text::lemma_byte_len_grows(s, i + 1, s.len() as int);
            }
            bytes = bytes + text::char_byte_length(c);
            let ghost after = text::lines_of(s.take(i + 1));
            if c == '\n' {
                if newlines % CHECKPOINT_LINES == CHECKPOINT_LINES - 1 {
                    checkpoints.push(bytes);
                    starts.push(i + 1);
                    proof {
                        assert(starts_line(s, i + 1, newlines + 1));
                    }
                }
                proof {
                    assert(after.drop_last() =~= before);
                    assert(after.last() =~= Seq::empty());
                    if newlines > 0 {
                        assert(before.drop_last()[widest as int] == before[widest as int]);
                    }
                }
                if newlines == 0 || width >= best {
                    widest = newlines;
                    best = width;
                }
                width = 0;
                newlines += 1;
            } else {
                proof {
                    assert(after.drop_last() =~= before.drop_last());
                    assert(after.last() =~= before.last().push(c));
                    assert(before.last().push(c).drop_last() =~= before.last());
                }
                let step: u128 = if c == '\t' {
                    4
                } else if (c as u32) < 128 {
                    1
                } else {
                    2
                };
                width = width + step;
            }
            i += 1;
        }
        proof {
            assert(s.take(i as int) =~= s);
            if newlines > 0 {
                assert(text::lines_of(s).drop_last()[widest as int] == text::lines_of(
                    s,
                )[widest as int]);
            }
        }
        if newlines > 0 && width >= best {
            widest = newlines;
        }
        proof {
            assert forall|k: int| 0 <= k < checkpoints@.len() implies (
            #[trigger] checkpoints@[k]) as nat == byte_of_line(s, 64 * k) by {
                lemma_place_of_line(s, starts@[k] as int, 64 * k);
            }
        }
        SourceLines { text: chars, checkpoints, starts, newlines, widest }
    }

    /// The number of lines, as far as it can be counted.
    pub fn count(&self) -> (r: usize)
        ensures
            r == counted_lines(self@),
    {
        proof {
            use_type_invariant(self);
        }
        self.newlines.saturating_add(1)
    }

    /// The number of positions that are noted.
    pub fn checkpoint_count(&self) -> (r: usize)
        ensures
            r == (text::lines_of(self@).len() - 1) / 64 + 1,
    {
        proof {
            use_type_invariant(self);
        }
        self.checkpoints.len()
    }

    /// The bytes that are noted.
    pub fn checkpoints(&self) -> (r: &Vec<usize>)
        ensures
            r@ == self.noted(),
            r@.len() == checkpoints_in(self@),
            forall|k: int|
                0 <= k < r@.len() ==> (#[trigger] r@[k]) as nat == byte_of_line(self@, 64 * k),
    {
        proof {
            use_type_invariant(self);
        }
        &self.checkpoints
    }

    /// The number of the widest line.
    pub fn widest(&self) -> (r: usize)
        ensures
            r == widest_of(text::lines_of(self@)),
    {
        proof {
            use_type_invariant(self);
        }
        self.widest
    }

    /// The line with this number; nothing behind the last.
    pub fn line(&self, index: usize) -> (r: String)
        ensures
            r@ == line_at(self@, index as int),
    {
        proof {
            use_type_invariant(self);
        }
        let ghost s = self.text@;
        let ghost lines = text::lines_of(s);
        if index > self.newlines {
            return String::new();
        }
        let length: usize = self.text.len();
        let block: usize = index / CHECKPOINT_LINES;
        let mut at: usize = self.starts[block];
        let mut line: usize = block * CHECKPOINT_LINES;
        proof {
            assert(starts_line(s, self.starts@[block as int] as int, 64 * block));
        }
        while line < index
            invariant
                s == self.text@,
                length == s.len(),
                lines == text::lines_of(s),
                index < lines.len(),
                line <= index,
                at <= s.len(),
                text::lines_of(s.take(at as int)).len() == line + 1,
                line == index ==> starts_line(s, at as int, line as int),
            decreases s.len() - at,
        {
            proof {
                if at == s.len() {
                    assert(s.take(at as int) =~= s);
                }
                assert(s.take(at + 1).drop_last() =~= s.take(at as int));
                assert(s.take(at + 1).last() == s[at as int]);
                text::lemma_has_a_line(s.take(at as int));
            }
            if self.text[at] == '\n' {
                line += 1;
            }
            at += 1;
        }
        let mut end: usize = at;
        while end < self.text.len() && self.text[end] != '\n'
            invariant
                s == self.text@,
                at <= end <= s.len(),
                forall|k: int| at <= k < end ==> s[k] != '\n',
            decreases s.len() - end,
        {
            end += 1;
        }
        proof {
            lemma_lines_from(s, at as int, index as int);
            let rest = s.skip(at as int);
            text::lemma_has_a_line(rest);
            assert forall|k: int| 0 <= k < end - at implies rest[k] != '\n' by {
                assert(rest[k] == s[at + k]);
            }
            text::lemma_first_line(rest, end - at);
            assert(rest.take(end - at) =~= s.subrange(at as int, end as int));
            assert(lines[index + 0] == text::lines_of(rest)[0]);
        }
        text::text_of(&self.text, at, end)
    }

    /// The lines of a range as they are shown: one without characters as a blank.
    pub fn rows(&self, from: usize, to: usize) -> (r: Vec<String>)
        ensures
            text::texts(r@) == shown_rows(self@, from as int, to as int),
    {
        let mut out: Vec<String> = Vec::new();
        let mut i: usize = from;
        while i < to
            invariant
                from <= i,
                i <= to || i == from,
                out@.len() == i - from,
                forall|k: int|
                    0 <= k < i - from ==> (#[trigger] out@[k])@ == shown_line(self@, from + k),
            decreases to - i,
        {
            let line = self.line(i);
            if line.as_str().is_empty() {
                out.push(" ".to_owned());
            } else {
                out.push(line);
            }
            i += 1;
        }
        proof {
            assert(text::texts(out@) =~= shown_rows(self@, from as int, to as int));
        }
        out
    }
}

pub open spec fn counted_lines(s: Seq<char>) -> nat {
    if text::lines_of(s).len() <= usize::MAX {
        text::lines_of(s).len()
    } else {
        usize::MAX as nat
    }
}

pub open spec fn line_at(s: Seq<char>, index: int) -> Seq<char> {
    if 0 <= index < text::lines_of(s).len() {
        text::lines_of(s)[index]
    } else {
        Seq::empty()
    }
}

pub open spec fn shown_line(s: Seq<char>, index: int) -> Seq<char> {
    if line_at(s, index).len() == 0 {
        " "@
    } else {
        line_at(s, index)
    }
}

pub open spec fn shown_rows(s: Seq<char>, from: int, to: int) -> Seq<Seq<char>> {
    Seq::new(
        if from <= to {
            (to - from) as nat
        } else {
            0
        },
        |k: int| shown_line(s, from + k),
    )
}

// ---------------------------------------------------------------------------
// What is said of a side

pub open spec fn content_kind_of(content: BlobContentView) -> Seq<char> {
    match content {
        BlobContentView::Utf8(text) => "UTF-8 · "@ + text::decimal(text::byte_len(text))
            + " bytes"@,
        BlobContentView::Binary => "binary"@,
        BlobContentView::Media => "media"@,
        BlobContentView::Symlink(target) => "symlink · "@ + text::decimal(target.len())
            + " target bytes"@,
        BlobContentView::NonUtf8 => "non-UTF-8"@,
        BlobContentView::TooLarge { bytes, limit } => "too large · "@ + text::decimal(bytes as nat)
            + " bytes (limit "@ + text::decimal(limit as nat) + ")"@,
        BlobContentView::Deleted => "deleted / missing stage"@,
    }
}

fn content_kind(content: &BlobContent) -> (r: String)
    ensures
        r@ == content_kind_of(content@),
{
    match content {
        BlobContent::Utf8(s) => {
            let mut out: String = "UTF-8 · ".to_owned();
            out.append(&text::decimal_of_usize(text::byte_length(s)));
            out.append(" bytes");
            out
        },
        BlobContent::Binary => "binary".to_owned(),
        BlobContent::Media => "media".to_owned(),
        BlobContent::Symlink(target) => {
            let mut out: String = "symlink · ".to_owned();
            out.append(&text::decimal_of_usize(target.len()));
            out.append(" target bytes");
            out
        },
        BlobContent::NonUtf8 => "non-UTF-8".to_owned(),
        BlobContent::TooLarge { bytes, limit } => {
            let mut out: String = "too large · ".to_owned();
            out.append(&text::decimal_text(*bytes));
            out.append(" bytes (limit ");
            out.append(&text::decimal_text(*limit));
            out.append(")");
            out
        },
        BlobContent::Deleted => "deleted / missing stage".to_owned(),
    }
}

pub open spec fn or_else(s: Option<Seq<char>>, otherwise: Seq<char>) -> Seq<char> {
    match s {
        Some(x) => x,
        None => otherwise,
    }
}

fn option_or(s: &Option<String>, otherwise: &str) -> (r: String)
    ensures
        r@ == or_else(text::option_text(*s), otherwise@),
{
    match s {
        Some(x) => x.clone(),
        None => otherwise.to_owned(),
    }
}

/// The number of characters of a short object identifier.
pub const SHORT_CONFLICT_OID: usize = 10;

pub open spec fn source_summary_of(stage: ConflictStageView) -> Seq<char> {
    (match stage.oid {
        Some(oid) => text::prefix_of(oid, SHORT_CONFLICT_OID as nat),
        None => "missing"@,
    }) + " · "@ + or_else(stage.mode, "no mode"@) + " · "@ + content_kind_of(stage.content)
}

pub fn source_summary(stage: &ConflictStage) -> (r: String)
    ensures
        r@ == source_summary_of(stage@),
{
    let mut out: String = match &stage.oid {
        Some(oid) => text::prefix(oid, SHORT_CONFLICT_OID),
        None => "missing".to_owned(),
    };
    out.append(" · ");
    out.append(&option_or(&stage.mode, "no mode"));
    out.append(" · ");
    out.append(&content_kind(&stage.content));
    out
}

pub open spec fn source_details_of(stage: ConflictStageView) -> Seq<char> {
    "object "@ + or_else(stage.oid, "missing stage"@) + "\nmode "@ + or_else(
        stage.mode,
        "missing stage"@,
    ) + "\ncontent "@ + content_kind_of(stage.content)
}

pub fn source_details(stage: &ConflictStage) -> (r: String)
    ensures
        r@ == source_details_of(stage@),
{
    let mut out: String = "object ".to_owned();
    out.append(&option_or(&stage.oid, "missing stage"));
    out.append("\nmode ");
    out.append(&option_or(&stage.mode, "missing stage"));
    out.append("\ncontent ");
    out.append(&content_kind(&stage.content));
    out
}

pub open spec fn source_text_of(stage: ConflictStageView) -> Seq<char> {
    match stage.content {
        BlobContentView::Utf8(text) => text,
        BlobContentView::Deleted => "<missing stage — this side deleted the path>"@,
        BlobContentView::Binary => "<binary Git object — read-only metadata only>"@,
        BlobContentView::Media => "<media Git object — no decoded preview>"@,
        BlobContentView::Symlink(target) => "<symbolic-link target bytes: "@ + text::lossy_of(
            target,
        ) + ">"@,
        BlobContentView::NonUtf8 => "<non-UTF-8 Git object — read-only metadata only>"@,
        BlobContentView::TooLarge { bytes, limit } => "<Git object is "@ + text::decimal(
            bytes as nat,
        ) + " bytes; internal text limit is "@ + text::decimal(limit as nat) + " bytes>"@,
    }
}

pub fn source_text(stage: &ConflictStage) -> (r: String)
    ensures
        r@ == source_text_of(stage@),
{
    match &stage.content {
        BlobContent::Utf8(s) => s.clone(),
        BlobContent::Deleted => "<missing stage — this side deleted the path>".to_owned(),
        BlobContent::Binary => "<binary Git object — read-only metadata only>".to_owned(),
        BlobContent::Media => "<media Git object — no decoded preview>".to_owned(),
        BlobContent::Symlink(target) => {
            let mut out: String = "<symbolic-link target bytes: ".to_owned();
            out.append(&text::lossy_text(target));
            out.append(">");
            out
        },
        BlobContent::NonUtf8 => "<non-UTF-8 Git object — read-only metadata only>".to_owned(),
        BlobContent::TooLarge { bytes, limit } => {
            let mut out: String = "<Git object is ".to_owned();
            out.append(&text::decimal_text(*bytes));
            out.append(" bytes; internal text limit is ");
            out.append(&text::decimal_text(*limit));
            out.append(" bytes>");
            out
        },
    }
}

// ---------------------------------------------------------------------------
// Sides

#[derive(Clone, Copy, Debug, PartialEq, Eq, Structural)]
pub enum ConflictSource {
    Base,
    Ours,
    Theirs,
}

pub open spec fn source_index_of(source: ConflictSource) -> int {
    match source {
        ConflictSource::Base => 0,
        ConflictSource::Ours => 1,
        ConflictSource::Theirs => 2,
    }
}

pub open spec fn source_with_index(index: int) -> ConflictSource {
    if index == 0 {
        ConflictSource::Base
    } else if index == 1 {
        ConflictSource::Ours
    } else {
        ConflictSource::Theirs
    }
}

/// The side that is `delta` further on, around.
pub open spec fn moved_by(source: ConflictSource, delta: int) -> ConflictSource {
    source_with_index((source_index_of(source) + delta) % 3)
}

impl ConflictSource {
    pub fn move_by(self, delta: isize) -> (r: Self)
        ensures
            r == moved_by(self, delta as int),
    {
        let index: i128 = match self {
            ConflictSource::Base => 0,
            ConflictSource::Ours => 1,
            ConflictSource::Theirs => 2,
        };
        let shifted: i128 = index + delta as i128 + 0x1_8000_0000_0000_0000i128;
        let next: u128 = (shifted as u128) % 3;
        proof {
            assert(0x1_8000_0000_0000_0000int == 3 * 0x8000_0000_0000_0000int);
            assert(shifted as int % 3 == (index + delta) % 3);
        }
        if next == 0 {
            ConflictSource::Base
        } else if next == 1 {
            ConflictSource::Ours
        } else {
            ConflictSource::Theirs
        }
    }
}

/// Moving on and back again comes back to the same side, and three steps go around.
pub proof fn law_moving_wraps_around(source: ConflictSource, delta: int)
    ensures
        moved_by(moved_by(source, delta), -delta) == source,
        moved_by(source, 3) == source,
        moved_by(ConflictSource::Base, -1) == ConflictSource::Theirs,
        moved_by(ConflictSource::Theirs, 1) == ConflictSource::Base,
{
    let i = source_index_of(source);
    assert((i + delta) % 3 == source_index_of(moved_by(source, delta)));
    assert(((i + delta) % 3 - delta) % 3 == i);
}

/// The operation that a conflict belongs to.
#[derive(Debug, PartialEq, Eq)]
pub enum ConflictOperationIdentity {
    Rebase { operation_id: String, active: ActiveOperationIdentity },
    StashRestore { operation_id: String },
}

#[verifier::ext_equal]
pub enum ConflictOperationIdentityView {
    Rebase { operation_id: Seq<char>, active: ActiveOperationIdentityView },
    StashRestore { operation_id: Seq<char> },
}

impl View for ConflictOperationIdentity {
    type V = ConflictOperationIdentityView;

    open spec fn view(&self) -> ConflictOperationIdentityView {
        match self {
            ConflictOperationIdentity::Rebase { operation_id, active } => ConflictOperationIdentityView::Rebase { operation_id: operation_id@, active: active@ },
            ConflictOperationIdentity::StashRestore { operation_id } => ConflictOperationIdentityView::StashRestore { operation_id: operation_id@ },
        }
    }
}

impl Clone for ConflictOperationIdentity {
    fn clone(&self) -> (r: Self)
        ensures
            r == *self,
    {
        match self {
            ConflictOperationIdentity::Rebase { operation_id, active } => ConflictOperationIdentity::Rebase { operation_id: operation_id.clone(), active: active.clone() },
            ConflictOperationIdentity::StashRestore { operation_id } => ConflictOperationIdentity::StashRestore { operation_id: operation_id.clone() },
        }
    }
}

impl ConflictOperationIdentity {
    /// Whether two values are the same, with the same fields.
    pub fn same(&self, other: &Self) -> (r: bool)
        ensures
            r == (self@ == other@),
    {
        match (self, other) {
            (ConflictOperationIdentity::Rebase { operation_id: operation_id_a, active: active_a }, ConflictOperationIdentity::Rebase { operation_id: operation_id_b, active: active_b }) => text::same_text(operation_id_a, operation_id_b) && active_a.same(active_b),
            (ConflictOperationIdentity::StashRestore { operation_id: operation_id_a }, ConflictOperationIdentity::StashRestore { operation_id: operation_id_b }) => text::same_text(operation_id_a, operation_id_b),
            _ => false,
        }
    }
}

pub open spec fn optional_conflict_operation_identity(x: Option<ConflictOperationIdentity>) -> Option<ConflictOperationIdentityView> {
    match x {
        Some(v) => Some(v@),
        None => None,
    }
}

pub open spec fn identity_of(operation: RebaseOperationViewView) -> Option<
    ConflictOperationIdentityView,
> {
    if operation.stash_restore is Conflicted {
        Some(ConflictOperationIdentityView::StashRestore { operation_id: operation.operation_id })
    } else {
        match operation.active {
            Some(active) => Some(
                ConflictOperationIdentityView::Rebase {
                    operation_id: operation.operation_id,
                    active,
                },
            ),
            None => None,
        }
    }
}

pub open spec fn operation_id_of(identity: ConflictOperationIdentityView) -> Seq<char> {
    match identity {
        ConflictOperationIdentityView::Rebase { operation_id, .. } => operation_id,
        ConflictOperationIdentityView::StashRestore { operation_id } => operation_id,
    }
}

impl ConflictOperationIdentity {
    pub fn from_operation(operation: &RebaseOperationView) -> (r: Option<Self>)
        ensures
            optional_conflict_operation_identity(r) == identity_of(operation@),
    {
        let restoring: bool = match &operation.stash_restore {
            StashRestoreState::Conflicted => true,
            _ => false,
        };
        if restoring {
            Some(
                ConflictOperationIdentity::StashRestore {
                    operation_id: operation.operation_id.clone(),
                },
            )
        } else {
            match &operation.active {
                Some(active) => Some(
                    ConflictOperationIdentity::Rebase {
                        operation_id: operation.operation_id.clone(),
                        active: active.clone(),
                    },
                ),
                None => None,
            }
        }
    }
}

#[derive(Clone, Copy, Debug, PartialEq, Eq, Structural)]
pub enum ConflictContextState {
    Current,
    StagesChanged,
    ConflictResolved,
    OperationChanged,
    OperationUnavailable,
}

pub open spec fn explanation_of(state: ConflictContextState) -> Option<Seq<char>> {
    match state {
        ConflictContextState::Current => None,
        ConflictContextState::StagesChanged => Some(
            "Git's source stages or the result on disk changed. This frozen context cannot be staged. Refresh the source context after reviewing the change."@,
        ),
        ConflictContextState::ConflictResolved => Some(
            "Git no longer reports this path as unmerged. This frozen context cannot advance or stage anything."@,
        ),
        ConflictContextState::OperationChanged => Some(
            "The rebase or stash-restore identity changed. This presentation will not attach to the new operation even if the path is the same."@,
        ),
        ConflictContextState::OperationUnavailable => Some(
            "The observed operation ended or became unavailable. This source context is now read-only evidence."@,
        ),
    }
}

pub open spec fn optional_str(s: Option<&'static str>) -> Option<Seq<char>> {
    match s {
        Some(x) => Some(x@),
        None => None,
    }
}

impl ConflictContextState {
    pub fn explanation(&self) -> (r: Option<&'static str>)
        ensures
            optional_str(r) == explanation_of(*self),
    {
        match self {
            ConflictContextState::Current => None,
            ConflictContextState::StagesChanged => Some(
                "Git's source stages or the result on disk changed. This frozen context cannot be staged. Refresh the source context after reviewing the change.",
            ),
            ConflictContextState::ConflictResolved => Some(
                "Git no longer reports this path as unmerged. This frozen context cannot advance or stage anything.",
            ),
            ConflictContextState::OperationChanged => Some(
                "The rebase or stash-restore identity changed. This presentation will not attach to the new operation even if the path is the same.",
            ),
            ConflictContextState::OperationUnavailable => Some(
                "The observed operation ended or became unavailable. This source context is now read-only evidence.",
            ),
        }
    }
}

// ---------------------------------------------------------------------------
// Presentations

/// The sides of one conflict, as they were when it was opened or last refreshed.
#[derive(Debug, PartialEq, Eq)]
pub struct ConflictPresentation {
    pub(crate) operation: ConflictOperationIdentity,
    pub(crate) conflict: ConflictFile,
    pub(crate) base: SourceLines,
    pub(crate) ours: SourceLines,
    pub(crate) theirs: SourceLines,
    pub(crate) selected: ConflictSource,
    pub(crate) show_details: bool,
    pub(crate) state: ConflictContextState,
}

#[verifier::ext_equal]
pub struct ConflictPresentationView {
    pub operation: ConflictOperationIdentityView,
    pub conflict: ConflictFileView,
    pub selected: ConflictSource,
    pub show_details: bool,
    pub state: ConflictContextState,
}

impl View for ConflictPresentation {
    type V = ConflictPresentationView;

    closed spec fn view(&self) -> ConflictPresentationView {
        ConflictPresentationView {
            operation: self.operation@,
            conflict: self.conflict@,
            selected: self.selected,
            show_details: self.show_details,
            state: self.state,
        }
    }
}

pub open spec fn optional_conflict_presentation(p: Option<ConflictPresentation>) -> Option<
    ConflictPresentationView,
> {
    match p {
        Some(x) => Some(x@),
        None => None,
    }
}

pub open spec fn presented(
    operation: RebaseOperationViewView,
    conflict: ConflictFileView,
) -> Option<ConflictPresentationView> {
    match identity_of(operation) {
        None => None,
        Some(identity) => Some(
            ConflictPresentationView {
                operation: identity,
                conflict,
                selected: ConflictSource::Ours,
                show_details: false,
                state: ConflictContextState::Current,
            },
        ),
    }
}

/// Whether a presentation may take on a conflict: the same path in the very same operation.
pub open spec fn may_refresh(
    p: ConflictPresentationView,
    operation: RebaseOperationViewView,
    conflict: ConflictFileView,
) -> bool {
    identity_of(operation) == Some(p.operation) && conflict.path.raw == p.conflict.path.raw
}

pub open spec fn refreshed(
    p: ConflictPresentationView,
    operation: RebaseOperationViewView,
    conflict: ConflictFileView,
) -> ConflictPresentationView {
    if may_refresh(p, operation, conflict) {
        ConflictPresentationView { conflict, state: ConflictContextState::Current, ..p }
    } else {
        p
    }
}

/// The first conflict at a path.
pub open spec fn conflict_at(conflicts: Seq<ConflictFileView>, raw: Seq<u8>) -> Option<int>
    decreases conflicts.len(),
{
    if conflicts.len() == 0 {
        None
    } else if conflicts[0].path.raw == raw {
        Some(0)
    } else {
        match conflict_at(conflicts.drop_first(), raw) {
            Some(i) => Some(i + 1),
            None => None,
        }
    }
}

pub proof fn lemma_conflict_at(conflicts: Seq<ConflictFileView>, raw: Seq<u8>, i: int)
    requires
        0 <= i <= conflicts.len(),
        forall|k: int| 0 <= k < i ==> (#[trigger] conflicts[k]).path.raw != raw,
        i < conflicts.len() ==> conflicts[i].path.raw == raw,
    ensures
        conflict_at(conflicts, raw) == if i < conflicts.len() {
            Some(i)
        } else {
            None
        },
    decreases conflicts.len(),
{
    if i > 0 {
        assert(conflicts[0].path.raw != raw);
        lemma_conflict_at(conflicts.drop_first(), raw, i - 1);
    }
}

pub fn find_conflict(conflicts: &Vec<ConflictFile>, raw: &Vec<u8>) -> (r: Option<usize>)
    ensures
        match r {
            Some(i) => i < conflicts@.len() && conflict_at(
                git::conflict_file_views(conflicts@),
                raw@,
            ) == Some(i as int),
            None => conflict_at(git::conflict_file_views(conflicts@), raw@) is None,
        },
{
    let ghost all = git::conflict_file_views(conflicts@);
    let mut i: usize = 0;
    while i < conflicts.len()
        invariant
            all == git::conflict_file_views(conflicts@),
            i <= conflicts@.len(),
            forall|k: int| 0 <= k < i ==> (#[trigger] all[k]).path.raw != raw@,
        decreases conflicts.len() - i,
    {
        if text::same_bytes(&conflicts[i].path.raw, raw) {
            proof {
                lemma_conflict_at(all, raw@, i as int);
            }
            return Some(i);
        }
        i += 1;
    }
    proof {
        lemma_conflict_at(all, raw@, i as int);
    }
    None
}

/// How a presentation stands to what was observed last.
pub open spec fn observed_state(
    p: ConflictPresentationView,
    operation: Option<RebaseOperationViewView>,
    conflicts: Seq<ConflictFileView>,
) -> ConflictContextState {
    match operation {
        None => ConflictContextState::OperationUnavailable,
        Some(o) => match identity_of(o) {
            None => ConflictContextState::OperationUnavailable,
            Some(identity) => if identity != p.operation {
                ConflictContextState::OperationChanged
            } else {
                match conflict_at(conflicts, p.conflict.path.raw) {
                    None => ConflictContextState::ConflictResolved,
                    Some(i) => if conflicts[i] == p.conflict {
                        ConflictContextState::Current
                    } else {
                        ConflictContextState::StagesChanged
                    },
                }
            },
        },
    }
}

pub open spec fn stage_of(p: ConflictPresentationView, source: ConflictSource) -> ConflictStageView {
    match source {
        ConflictSource::Base => p.conflict.base,
        ConflictSource::Ours => p.conflict.ours,
        ConflictSource::Theirs => p.conflict.theirs,
    }
}

pub open spec fn source_label_of(p: ConflictPresentationView, source: ConflictSource) -> Seq<char> {
    match source {
        ConflictSource::Base => "Base"@,
        ConflictSource::Ours => if p.operation is StashRestore {
            "Current worktree (ours)"@
        } else {
            "Already rebased (ours)"@
        },
        ConflictSource::Theirs => if p.operation is StashRestore {
            "Restored stash (theirs)"@
        } else {
            "Replayed commit (theirs)"@
        },
    }
}

impl ConflictPresentation {
    #[verifier::type_invariant]
    spec fn wf(self) -> bool {
        &&& self.base@ == source_text_of(self.conflict@.base)
        &&& self.ours@ == source_text_of(self.conflict@.ours)
        &&& self.theirs@ == source_text_of(self.conflict@.theirs)
    }

    /// Opens a conflict of an operation that can be identified.
    pub fn new(operation: &RebaseOperationView, conflict: ConflictFile) -> (r: Option<Self>)
        ensures
            optional_conflict_presentation(r) == presented(operation@, conflict@),
    {
        match ConflictOperationIdentity::from_operation(operation) {
            None => None,
            Some(identity) => {
                let base = SourceLines::new(&source_text(&conflict.base));
                let ours = SourceLines::new(&source_text(&conflict.ours));
                let theirs = SourceLines::new(&source_text(&conflict.theirs));
                Some(
                    ConflictPresentation {
                        operation: identity,
                        conflict,
                        base,
                        ours,
                        theirs,
                        selected: ConflictSource::Ours,
                        show_details: false,
                        state: ConflictContextState::Current,
                    },
                )
            },
        }
    }

    pub fn conflict(&self) -> (r: &ConflictFile)
        ensures
            r@ == self@.conflict,
    {
        &self.conflict
    }

    pub fn operation_id(&self) -> (r: &str)
        ensures
            r@ == operation_id_of(self@.operation),
    {
        match &self.operation {
            ConflictOperationIdentity::Rebase { operation_id, .. } => operation_id,
            ConflictOperationIdentity::StashRestore { operation_id } => operation_id,
        }
    }

    pub fn is_stash_restore(&self) -> (r: bool)
        ensures
            r == self@.operation is StashRestore,
    {
        match &self.operation {
            ConflictOperationIdentity::Rebase { .. } => false,
            ConflictOperationIdentity::StashRestore { .. } => true,
        }
    }

    pub fn selected(&self) -> (r: ConflictSource)
        ensures
            r == self@.selected,
    {
        self.selected
    }

    pub fn select(&mut self, source: ConflictSource)
        ensures
            final(self)@ == (ConflictPresentationView { selected: source, ..old(self)@ }),
    {
        proof {
            use_type_invariant(&*self);
        }
        self.selected = source;
    }

    pub fn move_selection(&mut self, delta: isize)
        ensures
            final(self)@ == (ConflictPresentationView {
                selected: moved_by(old(self)@.selected, delta as int),
                ..old(self)@
            }),
    {
        proof {
            use_type_invariant(&*self);
        }
        let next = self.selected.move_by(delta);
        self.selected = next;
    }

    pub fn show_details(&self) -> (r: bool)
        ensures
            r == self@.show_details,
    {
        self.show_details
    }

    pub fn toggle_details(&mut self)
        ensures
            final(self)@ == (ConflictPresentationView {
                show_details: !old(self)@.show_details,
                ..old(self)@
            }),
    {
        proof {
            use_type_invariant(&*self);
        }
        self.show_details = !self.show_details;
    }

    pub fn state(&self) -> (r: ConflictContextState)
        ensures
            r == self@.state,
    {
        self.state
    }

    pub fn can_stage(&self) -> (r: bool)
        ensures
            r == (self@.state is Current),
    {
        match self.state {
            ConflictContextState::Current => true,
            _ => false,
        }
    }

    pub fn can_refresh_from(&self, operation: &RebaseOperationView, conflict: &ConflictFile) -> (r:
        bool)
        ensures
            r == may_refresh(self@, operation@, conflict@),
    {
        match ConflictOperationIdentity::from_operation(operation) {
            None => false,
            Some(binding) => binding.same(&self.operation) && text::same_bytes(
                &conflict.path.raw,
                &self.conflict.path.raw,
            ),
        }
    }

    /// Takes on the conflict as it is now, where it is the same path in the same operation.
    pub fn refresh_from(&mut self, operation: &RebaseOperationView, conflict: ConflictFile) -> (r:
        bool)
        ensures
            r == may_refresh(old(self)@, operation@, conflict@),
            final(self)@ == refreshed(old(self)@, operation@, conflict@),
    {
        if !self.can_refresh_from(operation, &conflict) {
            return false;
        }
        let identity = self.operation.clone();
        let base = SourceLines::new(&source_text(&conflict.base));
        let ours = SourceLines::new(&source_text(&conflict.ours));
        let theirs = SourceLines::new(&source_text(&conflict.theirs));
        let selected = self.selected;
        let show_details = self.show_details;
        *self =
        ConflictPresentation {
            operation: identity,
            conflict,
            base,
            ours,
            theirs,
            selected,
            show_details,
            state: ConflictContextState::Current,
        };
        true
    }

    /// Holds the presentation against what was observed.
    pub fn observe(
        &mut self,
        operation: &Option<RebaseOperationView>,
        conflicts: &Vec<ConflictFile>,
    )
        ensures
            final(self)@ == (ConflictPresentationView {
                state: observed_state(
                    old(self)@,
                    git::optional_rebase_operation_view(*operation),
                    git::conflict_file_views(conflicts@),
                ),
                ..old(self)@
            }),
    {
        let state = self.state_against(operation, conflicts);
        proof {
            use_type_invariant(&*self);
        }
        self.state = state;
    }

    fn state_against(
        &self,
        operation: &Option<RebaseOperationView>,
        conflicts: &Vec<ConflictFile>,
    ) -> (r: ConflictContextState)
        ensures
            r == observed_state(
                self@,
                git::optional_rebase_operation_view(*operation),
                git::conflict_file_views(conflicts@),
            ),
    {
        match operation {
            None => ConflictContextState::OperationUnavailable,
            Some(o) => match ConflictOperationIdentity::from_operation(o) {
                None => ConflictContextState::OperationUnavailable,
                Some(binding) => {
                    if !binding.same(&self.operation) {
                        return ConflictContextState::OperationChanged;
                    }
                    match find_conflict(conflicts, &self.conflict.path.raw) {
                        None => ConflictContextState::ConflictResolved,
                        Some(i) => if conflicts[i].same(&self.conflict) {
                            ConflictContextState::Current
                        } else {
                            ConflictContextState::StagesChanged
                        },
                    }
                },
            },
        }
    }

    pub fn source(&self, source: ConflictSource) -> (r: (&'static str, &ConflictStage))
        ensures
            r.0@ == source_label_of(self@, source),
            r.1@ == stage_of(self@, source),
    {
        let restoring = self.is_stash_restore();
        match source {
            ConflictSource::Base => ("Base", &self.conflict.base),
            ConflictSource::Ours => if restoring {
                ("Current worktree (ours)", &self.conflict.ours)
            } else {
                ("Already rebased (ours)", &self.conflict.ours)
            },
            ConflictSource::Theirs => if restoring {
                ("Restored stash (theirs)", &self.conflict.theirs)
            } else {
                ("Replayed commit (theirs)", &self.conflict.theirs)
            },
        }
    }

    /// The lines of one side.
    pub fn lines(&self, source: ConflictSource) -> (r: &SourceLines)
        ensures
            r@ == source_text_of(stage_of(self@, source)),
    {
        proof {
            use_type_invariant(self);
        }
        match source {
            ConflictSource::Base => &self.base,
            ConflictSource::Ours => &self.ours,
            ConflictSource::Theirs => &self.theirs,
        }
    }
}

// ---------------------------------------------------------------------------
// Laws

/// Only a presentation of the stages as they are now can be staged: after an observation it
/// can, exactly if the same operation still has the same conflict at its path.
pub proof fn law_only_current_stages_can_be_staged(
    p: ConflictPresentationView,
    operation: Option<RebaseOperationViewView>,
    conflicts: Seq<ConflictFileView>,
)
    ensures
        observed_state(p, operation, conflicts) is Current <==> (operation is Some && identity_of(
            operation->0,
        ) == Some(p.operation) && (conflict_at(conflicts, p.conflict.path.raw) matches Some(i)
            && conflicts[i] == p.conflict)),
{
}

/// A presentation never attaches to another operation, even at the same path.
pub proof fn law_another_operation_is_never_attached(
    p: ConflictPresentationView,
    operation: RebaseOperationViewView,
    conflict: ConflictFileView,
    conflicts: Seq<ConflictFileView>,
)
    requires
        identity_of(operation) != Some(p.operation),
    ensures
        refreshed(p, operation, conflict) == p,
        !(observed_state(p, Some(operation), conflicts) is Current),
{
}

/// Stages that changed cannot be staged until they are refreshed; the sides stay what they
/// were until then, and the refresh makes them current.
pub proof fn law_changed_stages_need_a_refresh(
    p: ConflictPresentationView,
    operation: RebaseOperationViewView,
    conflicts: Seq<ConflictFileView>,
    i: int,
)
    requires
        identity_of(operation) == Some(p.operation),
        conflict_at(conflicts, p.conflict.path.raw) == Some(i),
        0 <= i < conflicts.len(),
        conflicts[i].path.raw == p.conflict.path.raw,
        conflicts[i] != p.conflict,
    ensures
        observed_state(p, Some(operation), conflicts) is StagesChanged,
        refreshed(p, operation, conflicts[i]).state is Current,
        refreshed(p, operation, conflicts[i]).conflict == conflicts[i],
        observed_state(refreshed(p, operation, conflicts[i]), Some(operation), conflicts)
            is Current,
{
}

} // verus!
