//! Facts about sequences of characters that the rest of the crate states its
//! contracts with, and the two small text operations it needs.

use vstd::prelude::*;

verus! {

/// `needle` stands somewhere in `hay`, whole and unbroken.
pub open spec fn occurs_in(needle: Seq<char>, hay: Seq<char>) -> bool {
    exists|i: int|
        0 <= i && i + needle.len() <= hay.len() && #[trigger] hay.subrange(
            i,
            i + needle.len(),
        ) == needle
}

/// The lines one after another, with a line feed between each two and none
/// at either end.
pub open spec fn join_lines(lines: Seq<Seq<char>>) -> Seq<char>
    decreases lines.len(),
{
    if lines.len() == 0 {
        Seq::empty()
    } else if lines.len() == 1 {
        lines[0]
    } else {
        join_lines(lines.drop_last()) + seq!['\n'] + lines.last()
    }
}

/// The first `limit` characters of `s`, or all of `s` where it has no more.
pub open spec fn leading(s: Seq<char>, limit: nat) -> Seq<char> {
    if s.len() <= limit {
        s
    } else {
        s.take(limit as int)
    }
}

/// A text built as `before + needle + after` holds `needle`.
pub proof fn lemma_occurs_between(before: Seq<char>, needle: Seq<char>, after: Seq<char>)
    ensures
        occurs_in(needle, before + needle + after),
{
    let hay = before + needle + after;
    let i = before.len() as int;
    assert(hay.subrange(i, i + needle.len()) =~= needle);
}

/// What a text holds, it still holds with more text around it.
pub proof fn lemma_occurs_widen(
    needle: Seq<char>,
    hay: Seq<char>,
    before: Seq<char>,
    after: Seq<char>,
)
    requires
        occurs_in(needle, hay),
    ensures
        occurs_in(needle, before + hay + after),
{
    let i = choose|i: int|
        0 <= i && i + needle.len() <= hay.len() && #[trigger] hay.subrange(i, i + needle.len())
            == needle;
    let wide = before + hay + after;
    let j = before.len() + i;
    assert(wide.subrange(j, j + needle.len()) =~= hay.subrange(i, i + needle.len()));
}

/// Joining keeps every line whole.
pub proof fn lemma_join_holds_each_line(lines: Seq<Seq<char>>, k: int)
    requires
        0 <= k < lines.len(),
    ensures
        occurs_in(lines[k], join_lines(lines)),
    decreases lines.len(),
{
    let empty = Seq::<char>::empty();
    if lines.len() == 1 {
        lemma_occurs_between(empty, lines[0], empty);
        assert(empty + lines[0] + empty =~= lines[0]);
    } else if k == lines.len() - 1 {
        lemma_occurs_between(join_lines(lines.drop_last()) + seq!['\n'], lines.last(), empty);
        assert(join_lines(lines.drop_last()) + seq!['\n'] + lines.last() + empty =~= join_lines(
            lines,
        ));
    } else {
        lemma_join_holds_each_line(lines.drop_last(), k);
        lemma_occurs_widen(
            lines[k],
            join_lines(lines.drop_last()),
            empty,
            seq!['\n'] + lines.last(),
        );
        assert(empty + join_lines(lines.drop_last()) + (seq!['\n'] + lines.last()) =~= join_lines(
            lines,
        ));
    }
}

/// Two lines joined are the first, a line feed, and the second.
pub proof fn lemma_join_two(first: Seq<char>, second: Seq<char>)
    ensures
        join_lines(seq![first, second]) == first + seq!['\n'] + second,
{
    let both = seq![first, second];
    assert(both.drop_last() =~= seq![first]);
    assert(join_lines(both.drop_last()) == first);
}

/// Joins the lines with a line feed between each two.
pub fn join_with_newlines(lines: &Vec<String>) -> (joined: String)
    ensures
        joined@ == join_lines(lines.deep_view()),
{
    let mut joined = String::new();
    let mut done: usize = 0;
    while done < lines.len()
        invariant
            done <= lines.len(),
            joined@ == join_lines(lines.deep_view().take(done as int)),
        decreases lines.len() - done,
    {
        let ghost before = lines.deep_view().take(done as int);
        let ghost after = lines.deep_view().take(done + 1);
        proof {
            reveal_strlit("\n");
            assert(after.drop_last() =~= before);
        }
        if done > 0 {
            joined.append("\n");
        }
        joined.append(lines[done].as_str());
        done += 1;
    }
    assert(lines.deep_view().take(done as int) =~= lines.deep_view());
    joined
}

/// Copies the first `limit` characters of `s`, or all of it where it has no
/// more.
pub fn leading_chars(s: &str, limit: usize) -> (head: String)
    ensures
        head@ == leading(s@, limit as nat),
{
    if s.unicode_len() <= limit {
        String::from_str(s)
    } else {
        String::from_str(s.substring_char(0, limit))
    }
}

} // verus!
