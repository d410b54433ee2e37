//! What the texts of this library are compared, cut and written by.

use vstd::prelude::*;

use crate::text;

verus! {

/// Whether two characters are one letter, of ASCII, in either case.
pub open spec fn same_letter(a: char, b: char) -> bool {
    ||| a == b
    ||| ('A' <= a && a <= 'Z' && b as u32 == a as u32 + 32)
    ||| ('A' <= b && b <= 'Z' && a as u32 == b as u32 + 32)
}

proof fn lemma_same_letter(a: char, b: char)
    ensures
        text::lower_char(a) == text::lower_char(b) <==> same_letter(a, b),
{
    if 'A' <= a && a <= 'Z' {
        assert(text::lower_char(a) as u32 == a as u32 + 32);
    }
    if 'A' <= b && b <= 'Z' {
        assert(text::lower_char(b) as u32 == b as u32 + 32);
    }
}

/// Two texts are the same ignoring case exactly if they are so character by character; only the
/// letters of ASCII have a case.
pub proof fn law_case_is_of_ascii_letters(a: Seq<char>, b: Seq<char>)
    ensures
        text::same_ignoring_case(a, b) <==> a.len() == b.len() && forall|i: int|
            0 <= i < a.len() ==> same_letter(#[trigger] a[i], b[i]),
        text::lower(a).len() == a.len(),
{
    if a.len() == b.len() {
        assert forall|i: int| 0 <= i < a.len() implies (text::lower(a)[i] == text::lower(b)[i]
            <==> same_letter(#[trigger] a[i], b[i])) by {
            lemma_same_letter(a[i], b[i]);
        }
        if forall|i: int| 0 <= i < a.len() ==> same_letter(#[trigger] a[i], b[i]) {
            assert(text::lower(a) =~= text::lower(b));
        }
    }
    if text::lower(a) == text::lower(b) {
        assert(text::lower(a).len() == a.len());
        assert(text::lower(b).len() == b.len());
        assert forall|i: int| 0 <= i < a.len() implies same_letter(#[trigger] a[i], b[i]) by {
            assert(text::lower(a)[i] == text::lower(b)[i]);
            lemma_same_letter(a[i], b[i]);
        }
    }
}

proof fn lemma_trim_front_cuts(s: Seq<char>) -> (i: int)
    ensures
        0 <= i <= s.len(),
        text::trim_front(s) == s.skip(i),
        forall|k: int| 0 <= k < i ==> text::is_space(#[trigger] s[k]),
        i < s.len() ==> !text::is_space(s[i]),
    decreases s.len(),
{
    if s.len() > 0 && text::is_space(s[0]) {
        let rest = s.drop_first();
        let i = lemma_trim_front_cuts(rest);
        assert(rest.skip(i) =~= s.skip(i + 1));
        assert forall|k: int| 0 <= k < i + 1 implies text::is_space(#[trigger] s[k]) by {
            if k > 0 {
                assert(rest[k - 1] == s[k]);
            }
        }
        if i < rest.len() {
            assert(rest[i] == s[i + 1]);
        }
        i + 1
    } else {
        assert(s.skip(0) =~= s);
        0
    }
}

proof fn lemma_trim_back_cuts(s: Seq<char>) -> (j: int)
    ensures
        0 <= j <= s.len(),
        text::trim_back(s) == s.take(j),
        forall|k: int| j <= k < s.len() ==> text::is_space(#[trigger] s[k]),
        j > 0 ==> !text::is_space(s[j - 1]),
    decreases s.len(),
{
    if s.len() > 0 && text::is_space(s.last()) {
        let front = s.drop_last();
        let j = lemma_trim_back_cuts(front);
        assert(front.take(j) =~= s.take(j));
        assert forall|k: int| j <= k < s.len() implies text::is_space(#[trigger] s[k]) by {
            if k < front.len() {
                assert(front[k] == s[k]);
            }
        }
        j
    } else {
        assert(s.take(s.len() as int) =~= s);
        s.len() as int
    }
}

/// Trimming cuts white space at both ends of a text and nothing else, and leaves none at either.
pub proof fn law_trimming_cuts_white_space(s: Seq<char>)
    ensures
        exists|i: int, j: int|
            {
                &&& 0 <= i <= j <= s.len()
                &&& text::trimmed(s) == #[trigger] s.subrange(i, j)
                &&& forall|k: int| 0 <= k < i ==> text::is_space(#[trigger] s[k])
                &&& forall|k: int| j <= k < s.len() ==> text::is_space(#[trigger] s[k])
                &&& i < j ==> !text::is_space(s[i]) && !text::is_space(s[j - 1])
            },
{
    let i = lemma_trim_front_cuts(s);
    let rest = s.skip(i);
    let n = lemma_trim_back_cuts(rest);
    let j = i + n;
    assert(rest.take(n) =~= s.subrange(i, j));
    assert forall|k: int| j <= k < s.len() implies text::is_space(#[trigger] s[k]) by {
        assert(rest[k - i] == s[k]);
    }
    if i < j {
        assert(rest[n - 1] == s[j - 1]);
    }
}

/// No line of a text holds a line feed.
pub proof fn law_lines_hold_no_line_feed(s: Seq<char>, i: int)
    requires
        0 <= i < text::lines_of(s).len(),
    ensures
        !text::lines_of(s)[i].contains('\n'),
    decreases s.len(),
{
    if s.len() > 0 {
        let before = text::lines_of(s.drop_last());
        let all = text::lines_of(s);
        text::lemma_has_a_line(s.drop_last());
        if i < before.len() {
            law_lines_hold_no_line_feed(s.drop_last(), i);
            if all[i].contains('\n') {
                let k = all[i].index_of('\n');
                if s.last() != '\n' && i == before.len() - 1 {
                    if k < before[i].len() {
                        assert(before[i][k] == '\n');
                    }
                } else {
                    assert(before[i][k] == '\n');
                }
                assert(false);
            }
        }
    }
}

/// The first line of a text is what stands before its first line feed.
pub proof fn law_the_first_line_comes_before_the_first_line_feed(
    line: Seq<char>,
    rest: Seq<char>,
    otherwise: Seq<char>,
)
    requires
        !line.contains('\n'),
        line.len() > 0,
        line.last() != '\r',
    ensures
        text::first_line_of(line, otherwise) == line,
        text::first_line_of(line + seq!['\n'] + rest, otherwise) == line,
        text::first_line_of(Seq::empty(), otherwise) == otherwise,
{
    lemma_one_line(line);
    let one = line + seq!['\n'];
    assert(one.drop_last() =~= line);
    assert(one.last() == '\n');
    assert(text::lines_of(one)[0] == line);
    lemma_first_line_stays(one, rest);
}

proof fn lemma_one_line(line: Seq<char>)
    requires
        !line.contains('\n'),
    ensures
        text::lines_of(line) == seq![line],
    decreases line.len(),
{
    if line.len() > 0 {
        let front = line.drop_last();
        assert(!front.contains('\n')) by {
            if front.contains('\n') {
                let k = front.index_of('\n');
                assert(line[k] == '\n');
            }
        }
        lemma_one_line(front);
        assert(line[line.len() - 1] == line.last());
        assert(front.push(line.last()) =~= line);
        assert(text::lines_of(line) =~= seq![line]);
    } else {
        assert(line =~= Seq::<char>::empty());
    }
}

proof fn lemma_first_line_stays(s: Seq<char>, rest: Seq<char>)
    requires
        text::lines_of(s).len() > 1,
    ensures
        text::lines_of(s + rest).len() > 1,
        text::lines_of(s + rest)[0] == text::lines_of(s)[0],
    decreases rest.len(),
{
    if rest.len() == 0 {
        assert(s + rest =~= s);
    } else {
        lemma_first_line_stays(s, rest.drop_last());
        assert((s + rest).drop_last() =~= s + rest.drop_last());
        assert((s + rest).last() == rest.last());
    }
}

/// The number that digits stand for.
pub open spec fn number_of(digits: Seq<char>) -> int
    decreases digits.len(),
{
    if digits.len() == 0 {
        0
    } else {
        10 * number_of(digits.drop_last()) + (digits.last() as u32 - 48)
    }
}

/// The decimal form of a number is made of digits, stands for that number, and begins with a zero
/// only if it is one.
pub proof fn law_decimals_stand_for_their_number(n: nat)
    ensures
        number_of(text::decimal(n)) == n,
        text::decimal(n).len() > 0,
        forall|i: int|
            0 <= i < text::decimal(n).len() ==> '0' <= #[trigger] text::decimal(n)[i]
                && text::decimal(n)[i] <= '9',
        n > 0 ==> text::decimal(n)[0] != '0',
    decreases n,
{
    let all = text::decimal(n);
    if n < 10 {
        assert(all =~= seq![text::digit_char(n)]);
        assert(text::digit_char(n) as u32 == 48 + n);
        assert(all.drop_last() =~= Seq::<char>::empty());
        assert(number_of(all.drop_last()) == 0);
    } else {
        let head = text::decimal(n / 10);
        law_decimals_stand_for_their_number(n / 10);
        assert(text::digit_char(n % 10) as u32 == 48 + n % 10);
        assert(all == head.push(text::digit_char(n % 10)));
        assert(all.drop_last() =~= head);
        assert forall|i: int| 0 <= i < all.len() implies '0' <= #[trigger] all[i] && all[i]
            <= '9' by {
            if i < head.len() {
                assert(all[i] == head[i]);
            }
        }
        assert(all[0] == head[0]);
    }
}

/// Different numbers have different decimal forms.
pub proof fn law_decimals_tell_numbers_apart(a: nat, b: nat)
    requires
        text::decimal(a) == text::decimal(b),
    ensures
        a == b,
{
    law_decimals_stand_for_their_number(a);
    law_decimals_stand_for_their_number(b);
}

/// Texts that are joined stand one after the other, with the separator between each two and
/// nowhere else.
pub proof fn law_joined_texts_are_separated(
    parts: Seq<Seq<char>>,
    separator: Seq<char>,
    next: Seq<char>,
)
    ensures
        text::joined(Seq::empty(), separator).len() == 0,
        text::joined(seq![next], separator) == next,
        parts.len() > 0 ==> text::joined(parts.push(next), separator) == text::joined(
            parts,
            separator,
        ) + separator + next,
{
    if parts.len() > 0 {
        assert(parts.push(next).drop_last() =~= parts);
    }
}

/// A text stands in another exactly if that is what stands before it, it, and what stands behind.
pub proof fn law_parts_stand_in_a_text(s: Seq<char>, part: Seq<char>)
    ensures
        text::contains_text(s, part) <==> exists|before: Seq<char>, after: Seq<char>|
            s == #[trigger] (before + part + after),
        text::starts_with_text(s, part) <==> exists|after: Seq<char>| s == #[trigger] (part + after),
{
    if text::contains_text(s, part) {
        let i = choose|i: int| text::found_at(s, part, i);
        assert(s =~= s.take(i) + part + s.skip(i + part.len())) by {
            assert(s.subrange(i, i + part.len()) == part);
            assert forall|k: int| 0 <= k < part.len() implies s[i + k] == #[trigger] part[k] by {
                assert(s.subrange(i, i + part.len())[k] == part[k]);
            }
        }
    }
    if exists|before: Seq<char>, after: Seq<char>| s == #[trigger] (before + part + after) {
        let (before, after) = choose|before: Seq<char>, after: Seq<char>|
            s == #[trigger] (before + part + after);
        assert(s.subrange(before.len() as int, (before.len() + part.len()) as int) =~= part);
        assert(text::found_at(s, part, before.len() as int));
    }
    if text::starts_with_text(s, part) {
        assert(s =~= part + s.skip(part.len() as int)) by {
            assert forall|k: int| 0 <= k < part.len() implies s[k] == #[trigger] part[k] by {
                assert(s.take(part.len() as int)[k] == part[k]);
            }
        }
    }
    if exists|after: Seq<char>| s == #[trigger] (part + after) {
        let after = choose|after: Seq<char>| s == #[trigger] (part + after);
        assert(s.take(part.len() as int) =~= part);
    }
}

/// The UTF-8 form of a text takes the bytes of its characters, one to four each.
pub proof fn law_bytes_add_up(s: Seq<char>, c: char)
    ensures
        text::byte_len(s.push(c)) == text::byte_len(s) + text::char_bytes(c),
        (c as u32) < 0x80 ==> text::char_bytes(c) == 1,
        0x80 <= (c as u32) < 0x800 ==> text::char_bytes(c) == 2,
        0x800 <= (c as u32) < 0x1_0000 ==> text::char_bytes(c) == 3,
        0x1_0000 <= (c as u32) ==> text::char_bytes(c) == 4,
{
    text::lemma_byte_len_push(s, c);
}

} // verus!
