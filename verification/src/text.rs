//! Text as a sequence of characters.

use vstd::prelude::*;

verus! {

/// The characters of a string, in their order.
pub(crate) fn chars_of(s: &str) -> (chars: Vec<char>)
    ensures
        chars@ == s@,
{
    let mut chars: Vec<char> = Vec::new();
    for c in iter: s.chars()
        invariant
            iter.seq() == s@,
            chars@ == s@.take(iter.index() as int),
    {
        chars.push(c);
        assert(chars@ =~= s@.take(iter.index() + 1));
    }
    assert(chars@ =~= s@);
    chars
}

/// `text` with every occurrence of `pattern` replaced by `value`. Occurrences
/// are looked for from the left and do not overlap; what was put in is not
/// looked at again.
pub open spec fn replaced(text: Seq<char>, pattern: Seq<char>, value: Seq<char>) -> Seq<char>
    decreases text.len(),
{
    if pattern.len() == 0 || text.len() < pattern.len() {
        text
    } else if text.take(pattern.len() as int) == pattern {
        value + replaced(text.skip(pattern.len() as int), pattern, value)
    } else {
        seq![text[0]] + replaced(text.skip(1), pattern, value)
    }
}

/// Whether `pattern` stands in `text` at position `at`.
pub open spec fn stands_at(text: Seq<char>, pattern: Seq<char>, at: int) -> bool {
    0 <= at && at + pattern.len() <= text.len() && text.subrange(at, at + pattern.len()) == pattern
}

/// A text in which the pattern stands nowhere is left as it is.
pub proof fn law_replaced_absent(text: Seq<char>, pattern: Seq<char>, value: Seq<char>)
    requires
        forall|at: int| !stands_at(text, pattern, at),
    ensures
        replaced(text, pattern, value) == text,
    decreases text.len(),
{
    if pattern.len() > 0 && text.len() >= pattern.len() {
        assert(text.take(pattern.len() as int) =~= text.subrange(0, pattern.len() as int));
        assert(!stands_at(text, pattern, 0));
        let rest = text.skip(1);
        assert forall|at: int| !stands_at(rest, pattern, at) by {
            assert(!stands_at(text, pattern, at + 1));
            if 0 <= at && at + pattern.len() <= rest.len() {
                assert(rest.subrange(at, at + pattern.len()) =~= text.subrange(
                    at + 1,
                    at + 1 + pattern.len(),
                ));
            }
        }
        law_replaced_absent(rest, pattern, value);
        assert(seq![text[0]] + rest =~= text);
    }
}

/// Up to the first place where the pattern stands, a text is left as it is;
/// there the value takes the pattern's place, and what follows is treated in
/// the same way.
pub proof fn law_replaced_first(
    text: Seq<char>,
    pattern: Seq<char>,
    value: Seq<char>,
    first: int,
)
    requires
        pattern.len() > 0,
        stands_at(text, pattern, first),
        forall|at: int| 0 <= at < first ==> !stands_at(text, pattern, at),
    ensures
        replaced(text, pattern, value) == text.take(first) + value + replaced(
            text.skip(first + pattern.len()),
            pattern,
            value,
        ),
    decreases first,
{
    assert(text.take(pattern.len() as int) =~= text.subrange(0, pattern.len() as int));
    if first == 0 {
        assert(text.take(0) + value =~= value);
    } else {
        assert(!stands_at(text, pattern, 0));
        let rest = text.skip(1);
        assert(rest.subrange(first - 1, first - 1 + pattern.len()) =~= text.subrange(
            first,
            first + pattern.len(),
        ));
        assert forall|at: int| 0 <= at < first - 1 implies !stands_at(rest, pattern, at) by {
            assert(!stands_at(text, pattern, at + 1));
            if at + pattern.len() <= rest.len() {
                assert(rest.subrange(at, at + pattern.len()) =~= text.subrange(
                    at + 1,
                    at + 1 + pattern.len(),
                ));
            }
        }
        law_replaced_first(rest, pattern, value, first - 1);
        assert(rest.skip(first - 1 + pattern.len()) =~= text.skip(first + pattern.len()));
        assert(replaced(text, pattern, value) =~= text.take(first) + value + replaced(
            text.skip(first + pattern.len()),
            pattern,
            value,
        ));
    }
}

/// Where a character that the pattern does not hold stands at the border of
/// two texts, the pattern is replaced in each of them on its own.
pub proof fn law_replaced_split(
    a: Seq<char>,
    b: Seq<char>,
    pattern: Seq<char>,
    value: Seq<char>,
    border: char,
)
    requires
        !pattern.contains(border),
        (a.len() > 0 && a.last() == border) || (b.len() > 0 && b[0] == border),
    ensures
        replaced(a + b, pattern, value) == replaced(a, pattern, value) + replaced(
            b,
            pattern,
            value,
        ),
    decreases a.len(),
{
    let text = a + b;
    let width = pattern.len() as int;
    if a.len() == 0 {
        assert(text =~= b);
        assert(replaced(a, pattern, value) =~= Seq::empty());
    } else if width > 0 && text.len() >= width {
        if text.take(width) == pattern {
            if a.len() < width {
                assert(pattern[a.len() - 1] == text[a.len() - 1]);
                assert(pattern[a.len() as int] == text[a.len() as int]);
            }
            assert(a.take(width) =~= pattern);
            assert(text.skip(width) =~= a.skip(width) + b);
            if a.len() == width {
                assert(a.last() == pattern.last());
            }
            law_replaced_split(a.skip(width), b, pattern, value, border);
            assert(value + (replaced(a.skip(width), pattern, value) + replaced(b, pattern, value))
                =~= (value + replaced(a.skip(width), pattern, value)) + replaced(
                b,
                pattern,
                value,
            ));
        } else {
            let rest = a.skip(1);
            assert(text.skip(1) =~= rest + b);
            if rest.len() > 0 || b.len() > 0 && b[0] == border {
                law_replaced_split(rest, b, pattern, value, border);
            } else {
                assert(rest + b =~= b);
                assert(replaced(rest, pattern, value) =~= Seq::empty());
            }
            if a.len() >= width {
                assert(a.take(width) =~= text.take(width));
            } else {
                assert(a =~= seq![a[0]] + rest);
            }
            assert(seq![a[0]] + (replaced(rest, pattern, value) + replaced(b, pattern, value))
                =~= (seq![a[0]] + replaced(rest, pattern, value)) + replaced(b, pattern, value));
        }
    }
}

/// Whether `pattern` stands in `text` at position `at`.
fn matches_at(text: &Vec<char>, pattern: &Vec<char>, at: usize) -> (found: bool)
    requires
        at <= text@.len(),
    ensures
        found == stands_at(text@, pattern@, at as int),
{
    if pattern.len() > text.len() - at {
        return false;
    }
    let mut i: usize = 0;
    while i < pattern.len()
        invariant
            i <= pattern@.len(),
            at + pattern.len() <= text.len(),
            forall|k: int| 0 <= k < i ==> text@[at + k] == #[trigger] pattern@[k],
        decreases pattern@.len() - i,
    {
        if text[at + i] != pattern[i] {
            assert(text@.subrange(at as int, at + pattern@.len())[i as int] != pattern@[i as int]);
            return false;
        }
        i += 1;
    }
    assert(text@.subrange(at as int, at + pattern@.len()) =~= pattern@);
    true
}

/// Replaces every occurrence of `pattern` in `text` by `value`.
pub(crate) fn replace_all(text: &str, pattern: &str, value: &str) -> (result: String)
    requires
        pattern@.len() > 0,
    ensures
        result@ == replaced(text@, pattern@, value@),
{
    let chars = chars_of(text);
    let wanted = chars_of(pattern);
    let mut result = String::new();
    let mut copied: usize = 0;
    let mut at: usize = 0;
    assert(result@ + text@.subrange(0, 0) + replaced(text@.skip(0), pattern@, value@) =~= replaced(
        text@,
        pattern@,
        value@,
    )) by {
        assert(text@.skip(0) =~= text@);
    }
    while at < chars.len()
        invariant
            copied <= at <= chars@.len(),
            chars@ == text@,
            wanted@ == pattern@,
            pattern@.len() > 0,
            result@ + text@.subrange(copied as int, at as int) + replaced(
                text@.skip(at as int),
                pattern@,
                value@,
            ) == replaced(text@, pattern@, value@),
        decreases chars@.len() - at,
    {
        let ghost rest = text@.skip(at as int);
        if matches_at(&chars, &wanted, at) {
            proof {
                assert(rest.take(pattern@.len() as int) =~= pattern@);
                assert(rest.skip(pattern@.len() as int) =~= text@.skip(at + pattern@.len()));
            }
            result.append(text.substring_char(copied, at));
            result.append(value);
            at += wanted.len();
            copied = at;
            assert(result@ + text@.subrange(copied as int, at as int) =~= result@);
        } else {
            proof {
                if rest.len() >= pattern@.len() {
                    assert(rest.take(pattern@.len() as int) =~= text@.subrange(
                        at as int,
                        at + pattern@.len(),
                    ));
                    assert(rest.skip(1) =~= text@.skip(at + 1));
                } else {
                    assert(rest =~= seq![text@[at as int]] + text@.skip(at + 1));
                }
                assert(text@.subrange(copied as int, at + 1) =~= text@.subrange(
                    copied as int,
                    at as int,
                ) + seq![text@[at as int]]);
            }
            at += 1;
        }
        assert(result@ + text@.subrange(copied as int, at as int) + replaced(
            text@.skip(at as int),
            pattern@,
            value@,
        ) =~= replaced(text@, pattern@, value@));
    }
    result.append(text.substring_char(copied, at));
    assert(replaced(text@.skip(at as int), pattern@, value@) =~= Seq::empty());
    result
}

/// The parts, with `separator` between each two.
pub open spec fn joined(parts: Seq<Seq<char>>, separator: Seq<char>) -> Seq<char>
    decreases parts.len(),
{
    if parts.len() == 0 {
        Seq::empty()
    } else if parts.len() == 1 {
        parts[0]
    } else {
        joined(parts.drop_last(), separator) + separator + parts.last()
    }
}

/// Joins the parts, with `separator` between each two.
pub(crate) fn join_all(parts: &Vec<String>, separator: &str) -> (result: String)
    ensures
        result@ == joined(parts.deep_view(), separator@),
{
    let mut result = String::new();
    let ghost texts = parts.deep_view();
    let mut i: usize = 0;
    assert(texts.take(0) =~= Seq::empty());
    while i < parts.len()
        invariant
            i <= parts@.len(),
            texts == parts.deep_view(),
            result@ == joined(texts.take(i as int), separator@),
        decreases parts@.len() - i,
    {
        if i > 0 {
            result.append(separator);
        }
        result.append(parts[i].as_str());
        assert(texts.take(i + 1).drop_last() =~= texts.take(i as int));
        assert(texts.take(i + 1).last() == parts@[i as int]@);
        i += 1;
        assert(result@ =~= joined(texts.take(i as int), separator@));
    }
    assert(texts.take(i as int) =~= texts);
    result
}

/// Nothing is joined to nothing, and one part to itself; two lists are joined
/// by joining each of them, with the separator between.
pub proof fn law_joined(
    part: Seq<char>,
    a: Seq<Seq<char>>,
    b: Seq<Seq<char>>,
    separator: Seq<char>,
)
    requires
        a.len() > 0,
        b.len() > 0,
    ensures
        joined(Seq::empty(), separator) == Seq::<char>::empty(),
        joined(seq![part], separator) == part,
        joined(a + b, separator) == joined(a, separator) + separator + joined(b, separator),
    decreases b.len(),
{
    assert((a + b).drop_last() =~= a + b.drop_last());
    if b.len() == 1 {
        assert(a + b.drop_last() =~= a);
    } else {
        law_joined(part, a, b.drop_last(), separator);
        assert(joined(a + b, separator) =~= joined(a, separator) + separator + joined(
            b,
            separator,
        ));
    }
}

/// A text that cannot be split around the pattern is left as it is.
pub proof fn law_nothing_to_replace(text: Seq<char>, pattern: Seq<char>, value: Seq<char>)
    requires
        forall|a: Seq<char>, b: Seq<char>| text != #[trigger] (a + pattern + b),
    ensures
        replaced(text, pattern, value) == text,
{
    assert forall|at: int| !stands_at(text, pattern, at) by {
        if stands_at(text, pattern, at) {
            lemma_split_at(text, pattern, at);
        }
    }
    law_replaced_absent(text, pattern, value);
}

/// The first pattern in a text gives way to the value. What stands before it is
/// kept, and what stands behind it is treated as a text of its own.
pub proof fn law_first_is_replaced(
    before: Seq<char>,
    behind: Seq<char>,
    pattern: Seq<char>,
    value: Seq<char>,
)
    requires
        pattern.len() > 0,
        forall|a: Seq<char>, b: Seq<char>|
            before + pattern + behind == #[trigger] (a + pattern + b) ==> before.len() <= a.len(),
    ensures
        replaced(before + pattern + behind, pattern, value) == before + value + replaced(
            behind,
            pattern,
            value,
        ),
{
    let text = before + pattern + behind;
    let first = before.len() as int;
    assert(text.subrange(first, first + pattern.len()) =~= pattern);
    assert forall|at: int| 0 <= at < first implies !stands_at(text, pattern, at) by {
        if stands_at(text, pattern, at) {
            lemma_split_at(text, pattern, at);
        }
    }
    law_replaced_first(text, pattern, value, first);
    assert(text.take(first) =~= before);
    assert(text.skip(first + pattern.len()) =~= behind);
}

/// Replacing a pattern by itself changes nothing.
pub proof fn law_replaced_by_itself(text: Seq<char>, pattern: Seq<char>)
    ensures
        replaced(text, pattern, pattern) == text,
    decreases text.len(),
{
    let width = pattern.len() as int;
    if width > 0 && text.len() >= width {
        if text.take(width) == pattern {
            law_replaced_by_itself(text.skip(width), pattern);
            assert(pattern + text.skip(width) =~= text);
        } else {
            law_replaced_by_itself(text.skip(1), pattern);
            assert(seq![text[0]] + text.skip(1) =~= text);
        }
    }
}

/// A text can be split where the pattern stands.
proof fn lemma_split_at(text: Seq<char>, pattern: Seq<char>, at: int)
    requires
        stands_at(text, pattern, at),
    ensures
        text == text.take(at) + pattern + text.skip(at + pattern.len()),
{
    let split = text.take(at) + pattern + text.skip(at + pattern.len());
    assert forall|i: int| 0 <= i < text.len() implies text[i] == split[i] by {
        if at <= i < at + pattern.len() {
            assert(text.subrange(at, at + pattern.len())[i - at] == text[i]);
        }
    }
    assert(text =~= split);
}

} // verus!
