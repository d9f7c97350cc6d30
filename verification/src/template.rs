//! What a kernel template may hold: plain text, simple tags and a limited
//! number of block helpers, but no partial, no decorator, no sub-expression
//! and no path up or to the root of the data.

use vstd::prelude::*;
use vstd::std_specs::iter::IteratorSpec;
use vstd::string::group_string_axioms;

verus! {

/// A character that may stand between the opening braces of a tag and the
/// character that tells what the tag is: a blank, the whitespace omitter or
/// the block sign.
pub open spec fn is_filler(c: char) -> bool {
    c == ' ' || c == '\t' || c == '\n' || c == '\r' || c == '~' || c == '#'
}

/// The character that makes a tag a partial (`>`) or a decorator (`*`).
pub open spec fn is_partial_mark(c: char) -> bool {
    c == '>' || c == '*'
}

/// Two opening braces stand at `start`, and everything after them up to
/// `end` is filler.
pub open spec fn opener_reaches(template: Seq<char>, start: int, end: int) -> bool {
    &&& 0 <= start
    &&& start + 2 <= end <= template.len()
    &&& template[start] == '{'
    &&& template[start + 1] == '{'
    &&& forall|k: int| start + 2 <= k < end ==> is_filler(#[trigger] template[k])
}

/// Some tag that opened before `end` has shown nothing but filler so far.
pub open spec fn opener_pending(template: Seq<char>, end: int) -> bool {
    exists|start: int| opener_reaches(template, start, end)
}

/// The tag that opens at `start` is a partial or a decorator, marked at `mark`.
pub open spec fn partial_at(template: Seq<char>, start: int, mark: int) -> bool {
    &&& opener_reaches(template, start, mark)
    &&& mark < template.len()
    &&& is_partial_mark(template[mark])
}

/// A partial or a decorator is marked before `end`.
pub open spec fn partial_before(template: Seq<char>, end: int) -> bool {
    exists|start: int, mark: int| mark < end && #[trigger] partial_at(template, start, mark)
}

/// Whether the template holds a partial or a decorator, plain or as a
/// block: two opening braces followed, after any run of blanks, `~` and
/// `#`, by `>` or `*`. A call of a partial, a partial block, a decorator
/// and an inline definition all begin so.
pub open spec fn has_partial(template: Seq<char>) -> bool {
    partial_before(template, template.len() as int)
}

/// How one more character changes what the scan has seen.
pub proof fn lemma_scan_step(template: Seq<char>, n: int)
    requires
        0 <= n < template.len(),
    ensures
        opener_pending(template, n + 1) <==> (opener_pending(template, n) && is_filler(
            template[n],
        )) || (n >= 1 && template[n - 1] == '{' && template[n] == '{'),
        partial_before(template, n + 1) <==> partial_before(template, n) || (opener_pending(
            template,
            n,
        ) && is_partial_mark(template[n])),
{
    if opener_pending(template, n) && is_filler(template[n]) {
        let start = choose|start: int| opener_reaches(template, start, n);
        assert(opener_reaches(template, start, n + 1));
    }
    if n >= 1 && template[n - 1] == '{' && template[n] == '{' {
        assert(opener_reaches(template, n - 1, n + 1));
    }
    let m = n + 1;
    if opener_pending(template, m) {
        let start = choose|start: int| opener_reaches(template, start, m);
        if start + 2 <= n {
            assert(opener_reaches(template, start, n));
            assert(is_filler(template[n]));
        }
    }
    if opener_pending(template, n) && is_partial_mark(template[n]) {
        let start = choose|start: int| opener_reaches(template, start, n);
        assert(partial_at(template, start, n));
    }
    if partial_before(template, n) {
        let (start, mark) = choose|start: int, mark: int|
            mark < n && #[trigger] partial_at(template, start, mark);
        assert(mark < n + 1 && partial_at(template, start, mark));
    }
    if partial_before(template, n + 1) {
        let (start, mark) = choose|start: int, mark: int|
            mark < n + 1 && #[trigger] partial_at(template, start, mark);
        if mark < n {
            assert(partial_before(template, n));
        } else {
            assert(opener_reaches(template, start, n));
        }
    }
}

/// Nothing is marked beyond the end of the template.
pub proof fn lemma_partial_before_end(template: Seq<char>, m: int)
    requires
        partial_before(template, m),
    ensures
        has_partial(template),
{
    let (start, mark) = choose|start: int, mark: int|
        mark < m && #[trigger] partial_at(template, start, mark);
    assert(mark < template.len() && partial_at(template, start, mark));
}

/// Tells whether the template holds a partial or a decorator.
pub fn uses_partials(template: &str) -> (found: bool)
    ensures
        found == has_partial(template@),
{
    broadcast use group_string_axioms;

    let mut chars = template.chars();
    let mut after_brace = false;
    let mut pending = false;
    let ghost mut n: int = 0;
    assert(template@.skip(0) =~= template@);
    assert(!opener_pending(template@, 0));
    assert(!partial_before(template@, 0)) by {
        if partial_before(template@, 0) {
            let (start, mark) = choose|start: int, mark: int|
                mark < 0 && #[trigger] partial_at(template@, start, mark);
        }
    }
    loop
        invariant
            0 <= n <= template@.len(),
            chars.remaining() == template@.skip(n),
            after_brace == (n >= 1 && template@[n - 1] == '{'),
            pending == opener_pending(template@, n),
            !partial_before(template@, n),
        decreases template@.len() - n,
    {
        match chars.next() {
            None => {
                return false;
            },
            Some(c) => {
                proof {
                    lemma_scan_step(template@, n);
                }
                if pending && (c == '>' || c == '*') {
                    proof {
                        lemma_partial_before_end(template@, n + 1);
                    }
                    return true;
                }
                let filler = c == ' ' || c == '\t' || c == '\n' || c == '\r' || c == '~' || c
                    == '#';
                pending = (pending && filler) || (after_brace && c == '{');
                after_brace = c == '{';
                proof {
                    assert(template@.skip(n).drop_first() =~= template@.skip(n + 1));
                    n = n + 1;
                }
            },
        }
    }
}

/// The largest number of block helpers that a template may open.
pub const MAX_BLOCKS: usize = 64;

/// A character that a simple tag does not hold. It begins a
/// sub-expression (`(`), a bracketed path or list (`[`), a quoted string,
/// or a block parameter (`|`).
pub open spec fn is_compound_mark(c: char) -> bool {
    c == '(' || c == '[' || c == '"' || c == '\'' || c == '|'
}

/// Two characters that a simple tag does not hold one after the other: the
/// step up in a path (`..`), and the beginning of the path to the root of
/// the data (`@r`).
pub open spec fn is_compound_pair(before: char, c: char) -> bool {
    (before == '.' && c == '.') || (before == '@' && c == 'r')
}

/// Whether a compound mark, or the second character of a compound pair,
/// stands at `at`.
pub open spec fn marks_compound(template: Seq<char>, at: int) -> bool {
    is_compound_mark(template[at]) || (at >= 1 && is_compound_pair(
        template[at - 1],
        template[at],
    ))
}

/// Two opening braces stand at `start`, and no two closing braces stand
/// between them and `end`.
pub open spec fn tag_reaches(template: Seq<char>, start: int, end: int) -> bool {
    &&& 0 <= start
    &&& start + 2 <= end <= template.len()
    &&& template[start] == '{'
    &&& template[start + 1] == '{'
    &&& forall|k: int|
        start + 2 <= k && k + 2 <= end ==> !(#[trigger] template[k] == '}' && template[k + 1]
            == '}')
}

/// Some tag that opened before `end` has not been closed yet.
pub open spec fn tag_open(template: Seq<char>, end: int) -> bool {
    exists|start: int| tag_reaches(template, start, end)
}

/// The tag that opens at `start` holds a compound mark at `mark`.
pub open spec fn compound_at(template: Seq<char>, start: int, mark: int) -> bool {
    &&& tag_reaches(template, start, mark)
    &&& mark < template.len()
    &&& marks_compound(template, mark)
}

/// A tag holds a compound mark before `end`.
pub open spec fn compound_before(template: Seq<char>, end: int) -> bool {
    exists|start: int, mark: int| mark < end && #[trigger] compound_at(template, start, mark)
}

/// Whether some tag of the template is not simple: between two opening
/// braces and the next two closing braces stands a compound mark or pair.
pub open spec fn has_compound_tag(template: Seq<char>) -> bool {
    compound_before(template, template.len() as int)
}

/// The number of block signs among the first `end` characters that stand in
/// the opening of a tag: no template opens more blocks than that.
pub open spec fn block_count(template: Seq<char>, end: int) -> int
    decreases end,
{
    if end <= 0 {
        0
    } else {
        block_count(template, end - 1) + if opener_pending(template, end - 1) && template[end
            - 1] == '#' {
            1int
        } else {
            0int
        }
    }
}

/// Whether the engine can be handed the template: it holds no partial and no
/// decorator, its tags are simple, and it opens at most `MAX_BLOCKS` blocks.
pub open spec fn is_plain(template: Seq<char>) -> bool {
    &&& !has_partial(template)
    &&& !has_compound_tag(template)
    &&& block_count(template, template.len() as int) <= MAX_BLOCKS
}

/// How one more character changes what the scan for compound tags has seen.
pub proof fn lemma_tag_step(template: Seq<char>, n: int)
    requires
        0 <= n < template.len(),
    ensures
        tag_open(template, n + 1) <==> (tag_open(template, n) && !(n >= 1 && template[n - 1]
            == '}' && template[n] == '}')) || (n >= 1 && template[n - 1] == '{' && template[n]
            == '{'),
        compound_before(template, n + 1) <==> compound_before(template, n) || (tag_open(
            template,
            n,
        ) && marks_compound(template, n)),
{
    let m = n + 1;
    if tag_open(template, n) && !(n >= 1 && template[n - 1] == '}' && template[n] == '}') {
        let start = choose|start: int| tag_reaches(template, start, n);
        assert(tag_reaches(template, start, m));
    }
    if n >= 1 && template[n - 1] == '{' && template[n] == '{' {
        assert(tag_reaches(template, n - 1, m));
    }
    if tag_open(template, m) {
        let start = choose|start: int| tag_reaches(template, start, m);
        if start + 2 <= n {
            assert(tag_reaches(template, start, n));
            if template[n - 1] == '}' && template[n] == '}' {
                assert(start + 2 <= n - 1);
                assert(!(template[n - 1] == '}' && template[n - 1 + 1] == '}'));
            }
        }
    }
    if tag_open(template, n) && marks_compound(template, n) {
        let start = choose|start: int| tag_reaches(template, start, n);
        assert(compound_at(template, start, n));
    }
    if compound_before(template, n) {
        let (start, mark) = choose|start: int, mark: int|
            mark < n && #[trigger] compound_at(template, start, mark);
        assert(mark < m && compound_at(template, start, mark));
    }
    if compound_before(template, m) {
        let (start, mark) = choose|start: int, mark: int|
            mark < m && #[trigger] compound_at(template, start, mark);
        if mark < n {
            assert(compound_before(template, n));
        } else {
            assert(tag_reaches(template, start, n));
        }
    }
}

/// No compound mark stands beyond the end of the template.
pub proof fn lemma_compound_before_end(template: Seq<char>, m: int)
    requires
        compound_before(template, m),
    ensures
        has_compound_tag(template),
{
    let (start, mark) = choose|start: int, mark: int|
        mark < m && #[trigger] compound_at(template, start, mark);
    assert(mark < template.len() && compound_at(template, start, mark));
}

/// The count of blocks does not fall as the scan goes on.
pub proof fn lemma_block_count_grows(template: Seq<char>, n: int, m: int)
    requires
        0 <= n <= m,
    ensures
        0 <= block_count(template, n) <= block_count(template, m),
    decreases m,
{
    if n < m {
        lemma_block_count_grows(template, n, m - 1);
    } else if n > 0 {
        lemma_block_count_grows(template, n - 1, n - 1);
    }
}

/// Tells whether some tag of the template is not simple, or the template
/// opens more than `MAX_BLOCKS` blocks.
pub fn nests_too_deep(template: &str) -> (found: bool)
    ensures
        found == (has_compound_tag(template@) || block_count(
            template@,
            template@.len() as int,
        ) > MAX_BLOCKS),
{
    broadcast use group_string_axioms;

    let mut chars = template.chars();
    let mut after_open = false;
    let mut after_close = false;
    let mut after_dot = false;
    let mut after_at = false;
    let mut in_tag = false;
    let mut pending = false;
    let mut blocks: usize = 0;
    let ghost mut n: int = 0;
    assert(template@.skip(0) =~= template@);
    assert(!opener_pending(template@, 0));
    assert(!tag_open(template@, 0));
    assert(!compound_before(template@, 0)) by {
        if compound_before(template@, 0) {
            let (start, mark) = choose|start: int, mark: int|
                mark < 0 && #[trigger] compound_at(template@, start, mark);
        }
    }
    loop
        invariant
            0 <= n <= template@.len(),
            chars.remaining() == template@.skip(n),
            after_open == (n >= 1 && template@[n - 1] == '{'),
            after_close == (n >= 1 && template@[n - 1] == '}'),
            after_dot == (n >= 1 && template@[n - 1] == '.'),
            after_at == (n >= 1 && template@[n - 1] == '@'),
            in_tag == tag_open(template@, n),
            pending == opener_pending(template@, n),
            blocks == block_count(template@, n),
            blocks <= MAX_BLOCKS,
            !compound_before(template@, n),
        decreases template@.len() - n,
    {
        match chars.next() {
            None => {
                return false;
            },
            Some(c) => {
                proof {
                    lemma_tag_step(template@, n);
                    lemma_scan_step(template@, n);
                    lemma_block_count_grows(template@, n + 1, template@.len() as int);
                }
                let mark = c == '(' || c == '[' || c == '"' || c == '\'' || c == '|';
                let pair = (after_dot && c == '.') || (after_at && c == 'r');
                if in_tag && (mark || pair) {
                    proof {
                        lemma_compound_before_end(template@, n + 1);
                    }
                    return true;
                }
                if pending && c == '#' {
                    if blocks == MAX_BLOCKS {
                        return true;
                    }
                    blocks += 1;
                }
                let filler = c == ' ' || c == '\t' || c == '\n' || c == '\r' || c == '~' || c
                    == '#';
                pending = (pending && filler) || (after_open && c == '{');
                in_tag = (in_tag && !(after_close && c == '}')) || (after_open && c == '{');
                after_open = c == '{';
                after_close = c == '}';
                after_dot = c == '.';
                after_at = c == '@';
                proof {
                    assert(template@.skip(n).drop_first() =~= template@.skip(n + 1));
                    n = n + 1;
                }
            },
        }
    }
}

/// Tells whether the engine can be handed the template.
pub fn is_plain_template(template: &str) -> (plain: bool)
    ensures
        plain == is_plain(template@),
{
    !uses_partials(template) && !nests_too_deep(template)
}

} // verus!
