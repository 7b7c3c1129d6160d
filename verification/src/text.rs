//! Text as sequences of characters: the few operations the extractors need,
//! each with the mathematical function it computes.

use vstd::prelude::*;
use vstd::string::*;

verus! {

/// `String::push` appends one character to the end of the string.
pub assume_specification[ String::push ](s: &mut String, ch: char)
    ensures
        final(s)@ == old(s)@.push(ch),
;

/// The parts in order, with the separator between each two neighbours.
pub open spec fn joined(parts: Seq<Seq<char>>, sep: Seq<char>) -> Seq<char>
    decreases parts.len(),
{
    if parts.len() == 0 {
        Seq::empty()
    } else if parts.len() == 1 {
        parts[0]
    } else {
        joined(parts.drop_last(), sep) + sep + parts.last()
    }
}

/// The text with every occurrence of a pattern replaced, scanning from the
/// left and resuming behind each replaced occurrence. An empty pattern occurs
/// nowhere.
pub open spec fn replaced(text: Seq<char>, pattern: Seq<char>, with: Seq<char>) -> Seq<char>
    decreases text.len(),
{
    if text.len() == 0 {
        Seq::empty()
    } else if pattern.len() > 0 && pattern.is_prefix_of(text) {
        with + replaced(text.skip(pattern.len() as int), pattern, with)
    } else {
        seq![text[0]] + replaced(text.skip(1), pattern, with)
    }
}

/// The decimal digit for a value below ten.
pub open spec fn digit(d: int) -> char {
    if d == 0 {
        '0'
    } else if d == 1 {
        '1'
    } else if d == 2 {
        '2'
    } else if d == 3 {
        '3'
    } else if d == 4 {
        '4'
    } else if d == 5 {
        '5'
    } else if d == 6 {
        '6'
    } else if d == 7 {
        '7'
    } else if d == 8 {
        '8'
    } else {
        '9'
    }
}

/// The decimal numeral of a natural number, without leading zeros.
pub open spec fn decimal(n: nat) -> Seq<char>
    decreases n,
{
    if n < 10 {
        seq![digit(n as int)]
    } else {
        decimal(n / 10).push(digit((n % 10) as int))
    }
}

/// The decimal numeral of an integer, with a minus sign where it is negative.
pub open spec fn signed_decimal(i: int) -> Seq<char> {
    if i < 0 {
        seq!['-'] + decimal((-i) as nat)
    } else {
        decimal(i as nat)
    }
}

/// A run of spaces of the given length.
pub open spec fn blanks(n: nat) -> Seq<char> {
    Seq::new(n, |i: int| ' ')
}

/// The text with a character put in front of the character at a position,
/// or at the end where the text has no such position.
pub open spec fn inserted(text: Seq<char>, at: nat, ch: char) -> Seq<char> {
    if at < text.len() {
        text.insert(at as int, ch)
    } else {
        text.push(ch)
    }
}

/// The text without the character at a position, or unchanged where it has no
/// such position.
pub open spec fn removed(text: Seq<char>, at: nat) -> Seq<char> {
    if at < text.len() {
        text.remove(at as int)
    } else {
        text
    }
}

/// Whether a pattern stands somewhere in a text.
pub open spec fn occurs_in(pattern: Seq<char>, text: Seq<char>) -> bool {
    exists|at: int| 0 <= at <= text.len() && pattern.is_prefix_of(#[trigger] text.skip(at))
}

/// Whether two texts have no character in common.
pub open spec fn disjoint_chars(a: Seq<char>, b: Seq<char>) -> bool {
    forall|i: int, j: int| 0 <= i < a.len() && 0 <= j < b.len() ==> a[i] != b[j]
}

/// A text that shares no character with the replacement and begins the
/// result of a replacing already begins the text that was given.
pub proof fn lemma_prefix_before_replacing(
    prefix: Seq<char>,
    text: Seq<char>,
    pattern: Seq<char>,
    with: Seq<char>,
)
    requires
        with.len() > 0,
        disjoint_chars(prefix, with),
        prefix.is_prefix_of(replaced(text, pattern, with)),
    ensures
        prefix.is_prefix_of(text),
    decreases text.len(),
{
    let result = replaced(text, pattern, with);
    if prefix.len() == 0 {
    } else if text.len() == 0 {
    } else if pattern.len() > 0 && pattern.is_prefix_of(text) {
        assert(result[0] == with[0]);
        assert(prefix[0] == result.subrange(0, prefix.len() as int)[0]);
    } else {
        let rest = replaced(text.skip(1), pattern, with);
        assert(result =~= seq![text[0]] + rest);
        assert(prefix[0] == result.subrange(0, prefix.len() as int)[0]);
        assert(prefix.skip(1) =~= rest.subrange(0, prefix.len() - 1)) by {
            assert forall|k: int| 0 <= k < prefix.len() - 1 implies prefix.skip(1)[k]
                == rest.subrange(0, prefix.len() - 1)[k] by {
                assert(prefix[k + 1] == result.subrange(0, prefix.len() as int)[k + 1]);
            }
        }
        lemma_prefix_before_replacing(prefix.skip(1), text.skip(1), pattern, with);
        assert(prefix =~= text.subrange(0, prefix.len() as int)) by {
            assert forall|k: int| 0 <= k < prefix.len() implies prefix[k] == text.subrange(
                0,
                prefix.len() as int,
            )[k] by {
                if k > 0 {
                    assert(prefix.skip(1)[k - 1] == text.skip(1).subrange(
                        0,
                        prefix.len() - 1,
                    )[k - 1]);
                }
            }
        }
    }
}

/// Replacing brings in no occurrence of a text that shares no character with
/// the replacement: one that stands in the result stood in the text given.
pub proof fn lemma_replacing_adds_none(
    sought: Seq<char>,
    text: Seq<char>,
    pattern: Seq<char>,
    with: Seq<char>,
)
    requires
        sought.len() > 0,
        with.len() > 0,
        disjoint_chars(sought, with),
        occurs_in(sought, replaced(text, pattern, with)),
    ensures
        occurs_in(sought, text),
    decreases text.len(),
{
    let result = replaced(text, pattern, with);
    let at = choose|at: int| 0 <= at <= result.len() && sought.is_prefix_of(#[trigger] result.skip(at));
    assert(sought[0] == result.skip(at).subrange(0, sought.len() as int)[0]);
    if text.len() == 0 {
    } else if pattern.len() > 0 && pattern.is_prefix_of(text) {
        let tail = text.skip(pattern.len() as int);
        let rest = replaced(tail, pattern, with);
        assert(result =~= with + rest);
        if at < with.len() {
            assert(result[at] == with[at]);
        } else {
            assert(result.skip(at) =~= rest.skip(at - with.len()));
            lemma_replacing_adds_none(sought, tail, pattern, with);
            let inner = choose|inner: int|
                0 <= inner <= tail.len() && sought.is_prefix_of(#[trigger] tail.skip(inner));
            assert(tail.skip(inner) =~= text.skip(inner + pattern.len()));
        }
    } else {
        let tail = text.skip(1);
        let rest = replaced(tail, pattern, with);
        assert(result =~= seq![text[0]] + rest);
        if at == 0 {
            assert(result.skip(0) =~= result);
            lemma_prefix_before_replacing(sought, text, pattern, with);
            assert(text.skip(0) =~= text);
        } else {
            assert(result.skip(at) =~= rest.skip(at - 1));
            lemma_replacing_adds_none(sought, tail, pattern, with);
            let inner = choose|inner: int|
                0 <= inner <= tail.len() && sought.is_prefix_of(#[trigger] tail.skip(inner));
            assert(tail.skip(inner) =~= text.skip(inner + 1));
        }
    }
}

/// Replacing leaves no occurrence of the pattern, where the pattern shares no
/// character with the replacement.
pub proof fn lemma_replacing_removes_all(text: Seq<char>, pattern: Seq<char>, with: Seq<char>)
    requires
        pattern.len() > 0,
        with.len() > 0,
        disjoint_chars(pattern, with),
    ensures
        !occurs_in(pattern, replaced(text, pattern, with)),
    decreases text.len(),
{
    let result = replaced(text, pattern, with);
    if occurs_in(pattern, result) {
        let at = choose|at: int|
            0 <= at <= result.len() && pattern.is_prefix_of(#[trigger] result.skip(at));
        assert(pattern[0] == result.skip(at).subrange(0, pattern.len() as int)[0]);
        if text.len() == 0 {
        } else if pattern.is_prefix_of(text) {
            let tail = text.skip(pattern.len() as int);
            let rest = replaced(tail, pattern, with);
            assert(result =~= with + rest);
            if at < with.len() {
                assert(result[at] == with[at]);
            } else {
                assert(result.skip(at) =~= rest.skip(at - with.len()));
                lemma_replacing_removes_all(tail, pattern, with);
                assert(false);
            }
        } else {
            let tail = text.skip(1);
            let rest = replaced(tail, pattern, with);
            assert(result =~= seq![text[0]] + rest);
            if at == 0 {
                assert(result.skip(0) =~= result);
                lemma_prefix_before_replacing(pattern, text, pattern, with);
            } else {
                assert(result.skip(at) =~= rest.skip(at - 1));
                lemma_replacing_removes_all(tail, pattern, with);
                assert(false);
            }
        }
    }
}

/// A text in which the pattern does not occur is left as it is.
pub proof fn lemma_replacing_without_pattern(text: Seq<char>, pattern: Seq<char>, with: Seq<char>)
    requires
        !occurs_in(pattern, text),
    ensures
        replaced(text, pattern, with) == text,
    decreases text.len(),
{
    if text.len() > 0 {
        assert(text.skip(0) =~= text);
        let tail = text.skip(1);
        assert forall|at: int| 0 <= at <= tail.len() implies !pattern.is_prefix_of(
            #[trigger] tail.skip(at),
        ) by {
            assert(tail.skip(at) =~= text.skip(at + 1));
        }
        lemma_replacing_without_pattern(tail, pattern, with);
        assert(seq![text[0]] + tail =~= text);
    } else {
        assert(text =~= Seq::<char>::empty());
    }
}

/// The characters of a string slice, as a vector.
pub fn chars_of(s: &str) -> (v: Vec<char>)
    ensures
        v@ == s@,
{
    let mut v: Vec<char> = Vec::new();
    for c in it: s.chars()
        invariant
            v@ == it.seq().take(it.index()),
    {
        v.push(c);
        assert(it.seq().take(it.index() + 1) =~= it.seq().take(it.index()).push(c));
    }
    v
}

/// Joins the parts with a separator between each two neighbours.
pub fn join(parts: &Vec<String>, sep: &str) -> (r: String)
    ensures
        r@ == joined(parts.deep_view(), sep@),
{
    let mut out = String::new();
    let mut i: usize = 0;
    while i < parts.len()
        invariant
            i <= parts.len(),
            out@ == joined(parts.deep_view().take(i as int), sep@),
        decreases parts.len() - i,
    {
        if i > 0 {
            out.append(sep);
        }
        out.append(parts[i].as_str());
        proof {
            let before = parts.deep_view().take(i as int);
            let after = parts.deep_view().take(i + 1);
            assert(after.drop_last() =~= before);
            assert(after.last() == parts[i as int]@);
            assert(out@ =~= joined(after, sep@));
        }
        i += 1;
    }
    assert(parts.deep_view().take(i as int) =~= parts.deep_view());
    out
}

/// Whether the pattern stands in the text at the given position.
fn occurs_at(text: &Vec<char>, at: usize, pattern: &Vec<char>) -> (r: bool)
    requires
        at <= text.len(),
    ensures
        r == pattern@.is_prefix_of(text@.skip(at as int)),
{
    if pattern.len() > text.len() - at {
        return false;
    }
    let mut k: usize = 0;
    while k < pattern.len()
        invariant
            at <= text.len(),
            pattern.len() <= text.len() - at,
            k <= pattern.len(),
            forall|j: int| 0 <= j < k ==> pattern@[j] == text@[at + j],
        decreases pattern.len() - k,
    {
        if pattern[k] != text[at + k] {
            assert(text@.skip(at as int)[k as int] == text@[at + k]);
            return false;
        }
        k += 1;
    }
    assert(pattern@ =~= text@.skip(at as int).subrange(0, pattern@.len() as int));
    true
}

/// Replaces every occurrence of a pattern, scanning from the left. With an
/// empty pattern the text comes back unchanged.
pub fn replace(text: &str, pattern: &str, with: &str) -> (r: String)
    ensures
        r@ == replaced(text@, pattern@, with@),
{
    let chars = chars_of(text);
    let pat = chars_of(pattern);
    let mut out = String::new();
    let mut i: usize = 0;
    assert(text@.skip(0) =~= text@);
    assert(out@ + replaced(text@, pattern@, with@) =~= replaced(text@, pattern@, with@));
    while i < chars.len()
        invariant
            i <= chars.len(),
            chars@ == text@,
            pat@ == pattern@,
            out@ + replaced(text@.skip(i as int), pattern@, with@) == replaced(
                text@,
                pattern@,
                with@,
            ),
        decreases chars.len() - i,
    {
        let ghost rest = text@.skip(i as int);
        let ghost before = out@;
        if pat.len() > 0 && occurs_at(&chars, i, &pat) {
            out.append(with);
            proof {
                assert(rest.skip(pat.len() as int) =~= text@.skip(i + pat.len()));
                assert(out@ + replaced(text@.skip(i + pat.len()), pattern@, with@) =~= before
                    + replaced(rest, pattern@, with@));
            }
            i += pat.len();
        } else {
            out.push(chars[i]);
            proof {
                assert(rest.skip(1) =~= text@.skip(i + 1));
                assert(out@ + replaced(text@.skip(i + 1), pattern@, with@) =~= before + replaced(
                    rest,
                    pattern@,
                    with@,
                ));
            }
            i += 1;
        }
    }
    assert(text@.skip(i as int) =~= Seq::<char>::empty());
    assert(out@ + Seq::<char>::empty() =~= out@);
    out
}

/// The character of one decimal digit.
fn digit_char(d: usize) -> (c: char)
    requires
        d < 10,
    ensures
        c == digit(d as int),
{
    if d == 0 {
        '0'
    } else if d == 1 {
        '1'
    } else if d == 2 {
        '2'
    } else if d == 3 {
        '3'
    } else if d == 4 {
        '4'
    } else if d == 5 {
        '5'
    } else if d == 6 {
        '6'
    } else if d == 7 {
        '7'
    } else if d == 8 {
        '8'
    } else {
        '9'
    }
}

/// Appends the decimal numeral of a number.
fn push_decimal(out: &mut String, n: usize)
    ensures
        final(out)@ == old(out)@ + decimal(n as nat),
    decreases n,
{
    if n >= 10 {
        push_decimal(out, n / 10);
    }
    out.push(digit_char(n % 10));
    assert(out@ =~= old(out)@ + decimal(n as nat));
}

/// The decimal numeral of a number.
pub fn decimal_string(n: usize) -> (r: String)
    ensures
        r@ == decimal(n as nat),
{
    let mut out = String::new();
    push_decimal(&mut out, n);
    assert(out@ =~= decimal(n as nat));
    out
}

/// The decimal numeral of an integer.
pub fn signed_decimal_string(i: i32) -> (r: String)
    ensures
        r@ == signed_decimal(i as int),
{
    let mut out = String::new();
    let wide: i64 = i as i64;
    if wide < 0 {
        out.push('-');
        let magnitude: i64 = -wide;
        push_decimal(&mut out, magnitude as usize);
    } else {
        push_decimal(&mut out, wide as usize);
    }
    assert(out@ =~= signed_decimal(i as int));
    out
}

/// A string of `n` spaces.
pub fn spaces(n: usize) -> (r: String)
    ensures
        r@ == blanks(n as nat),
{
    let mut out = String::new();
    let mut i: usize = 0;
    while i < n
        invariant
            i <= n,
            out@ == blanks(i as nat),
        decreases n - i,
    {
        out.push(' ');
        i += 1;
        assert(out@ =~= blanks(i as nat));
    }
    out
}

/// The characters of a vector from a position on, appended to a string.
fn push_from(out: &mut String, chars: &Vec<char>, from: usize)
    requires
        from <= chars.len(),
    ensures
        final(out)@ == old(out)@ + chars@.skip(from as int),
{
    let mut i: usize = from;
    assert(out@ =~= old(out)@ + chars@.subrange(from as int, i as int));
    while i < chars.len()
        invariant
            from <= i <= chars.len(),
            out@ == old(out)@ + chars@.subrange(from as int, i as int),
        decreases chars.len() - i,
    {
        out.push(chars[i]);
        i += 1;
        assert(out@ =~= old(out)@ + chars@.subrange(from as int, i as int));
    }
}

/// The characters of a vector up to a position, as a string.
fn string_up_to(chars: &Vec<char>, to: usize) -> (r: String)
    requires
        to <= chars.len(),
    ensures
        r@ == chars@.take(to as int),
{
    let mut out = String::new();
    let mut i: usize = 0;
    assert(out@ =~= chars@.take(0));
    while i < to
        invariant
            i <= to <= chars.len(),
            out@ == chars@.take(i as int),
        decreases to - i,
    {
        out.push(chars[i]);
        i += 1;
        assert(out@ =~= chars@.take(i as int));
    }
    out
}

/// Puts a character in front of the character at a position, or at the end
/// where the text has no such position.
pub fn insert_char(text: &str, at: usize, ch: char) -> (r: String)
    ensures
        r@ == inserted(text@, at as nat, ch),
{
    let chars = chars_of(text);
    let split: usize = if at < chars.len() {
        at
    } else {
        chars.len()
    };
    let mut out = string_up_to(&chars, split);
    out.push(ch);
    push_from(&mut out, &chars, split);
    assert(out@ =~= inserted(text@, at as nat, ch));
    out
}

/// Takes out the character at a position; leaves the text unchanged where it
/// has no such position.
pub fn remove_char(text: &str, at: usize) -> (r: String)
    ensures
        r@ == removed(text@, at as nat),
{
    let chars = chars_of(text);
    if at < chars.len() {
        let mut out = string_up_to(&chars, at);
        push_from(&mut out, &chars, at + 1);
        assert(out@ =~= removed(text@, at as nat));
        out
    } else {
        let mut out = String::new();
        push_from(&mut out, &chars, 0);
        assert(out@ =~= text@);
        out
    }
}

} // verus!
