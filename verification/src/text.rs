//! Text operations shared by the formatting stages: line-break markup and
//! decimal numbering.

use vstd::prelude::*;
use vstd::std_specs::iter::IteratorSpec;
use vstd::string::*;

verus! {

/// `String::push` appends the one character `c` to the end of `s` and changes
/// nothing else.
pub assume_specification[ String::push ](s: &mut String, c: char)
    ensures
        final(s)@ == old(s)@.push(c),
;

/// The character at position `at` of the literal line-break tag `<br>`.
pub open spec fn tag_char(at: int) -> char {
    if at == 0 {
        '<'
    } else if at == 1 {
        'b'
    } else if at == 2 {
        'r'
    } else {
        '>'
    }
}

/// The first `count` characters of the literal line-break tag.
pub open spec fn tag_prefix(count: int) -> Seq<char> {
    Seq::new(count as nat, |at: int| tag_char(at))
}

/// Whether `s` begins with a literal line-break tag.
pub open spec fn starts_with_break(s: Seq<char>) -> bool {
    s.len() >= 4 && s[0] == '<' && s[1] == 'b' && s[2] == 'r' && s[3] == '>'
}

/// `s` with every literal line-break tag replaced by one newline, scanning
/// from the left; a tag, once replaced, is not looked at again.
pub open spec fn spec_break_lines(s: Seq<char>) -> Seq<char>
    decreases s.len(),
{
    if s.len() == 0 {
        s
    } else if starts_with_break(s) {
        seq!['\n'] + spec_break_lines(s.skip(4))
    } else {
        seq![s[0]] + spec_break_lines(s.skip(1))
    }
}

/// Where `s` begins with the `count` characters of the tag that start at
/// `from`, and does not go on to complete a tag, those characters pass
/// through unchanged: no tag begins at any of them.
proof fn lemma_partial_tag_passes(s: Seq<char>, from: int, count: int)
    requires
        0 <= from,
        0 <= count <= s.len(),
        from + count <= 4,
        forall|j: int| 0 <= j < count ==> s[j] == tag_char(from + j),
        from == 0 ==> count < 4 && (s.len() == count || s[count] != tag_char(count)),
    ensures
        spec_break_lines(s) == s.take(count) + spec_break_lines(s.skip(count)),
    decreases count,
{
    if count == 0 {
        assert(s.skip(0) == s);
        assert(s.take(0) + spec_break_lines(s) == spec_break_lines(s));
    } else {
        assert(s[0] == tag_char(from));
        assert(!starts_with_break(s)) by {
            if from == 0 && s.len() >= 4 {
                assert(s[count] != tag_char(count));
                assert(forall|j: int| 0 <= j < count ==> s[j] == tag_char(j));
            }
        }
        let rest = s.skip(1);
        assert forall|j: int| 0 <= j < count - 1 implies rest[j] == tag_char(from + 1 + j) by {
            assert(rest[j] == s[j + 1]);
        }
        lemma_partial_tag_passes(rest, from + 1, count - 1);
        assert(rest.skip(count - 1) == s.skip(count));
        assert(s.take(count) == seq![s[0]] + rest.take(count - 1));
    }
}

/// Replaces every literal line-break tag in `text` by one newline.
pub fn break_lines(text: &str) -> (broken: String)
    ensures
        broken@ == spec_break_lines(text@),
{
    let mut broken = String::new();
    // How many characters of a tag have been read and not yet written.
    let mut pending: usize = 0;
    let ghost whole = text@;
    proof {
        assert(whole.skip(0) == whole);
        assert(broken@ + spec_break_lines(whole) == spec_break_lines(whole));
    }
    for c in it: text.chars()
        invariant
            whole == text@,
            it.seq() == whole,
            pending < 4,
            pending <= it.index(),
            forall|j: int| 0 <= j < pending ==> whole[it.index() - pending + j] == tag_char(j),
            broken@ + spec_break_lines(whole.skip(it.index() - pending)) == spec_break_lines(whole),
    {
        let ghost at = it.index() as int;
        let ghost held = whole.skip(at - pending);
        assert(c == whole[at]);
        let completes = (pending == 0 && c == '<') || (pending == 1 && c == 'b') || (pending == 2
            && c == 'r') || (pending == 3 && c == '>');
        proof {
            assert(held[pending as int] == c);
            assert forall|j: int| 0 <= j < pending implies held[j] == tag_char(j) by {
                assert(held[j] == whole[at - pending + j]);
            }
        }
        if completes {
            if pending == 3 {
                proof {
                    assert(held.len() >= 4);
                    assert(held[0] == tag_char(0) && held[1] == tag_char(1) && held[2] == tag_char(2));
                    assert(starts_with_break(held));
                    assert(held.skip(4) == whole.skip(at + 1));
                    assert(broken@.push('\n') + spec_break_lines(whole.skip(at + 1)) == broken@ + (
                    seq!['\n'] + spec_break_lines(whole.skip(at + 1))));
                }
                broken.push('\n');
                pending = 0;
            } else {
                pending = pending + 1;
            }
        } else {
            proof {
                lemma_partial_tag_passes(held, 0, pending as int);
                assert(held.skip(pending as int) == whole.skip(at));
                assert(held.take(pending as int) == tag_prefix(pending as int));
            }
            write_tag_prefix(&mut broken, pending);
            assert(broken@ + spec_break_lines(whole.skip(at)) == spec_break_lines(whole));
            if c == '<' {
                pending = 1;
            } else {
                proof {
                    let here = whole.skip(at);
                    assert(!starts_with_break(here));
                    assert(here.skip(1) == whole.skip(at + 1));
                    assert(broken@.push(c) + spec_break_lines(whole.skip(at + 1)) == broken@ + (
                    seq![c] + spec_break_lines(whole.skip(at + 1))));
                }
                broken.push(c);
                pending = 0;
            }
        }
    }
    proof {
        let held = whole.skip(whole.len() - pending);
        assert forall|j: int| 0 <= j < pending implies held[j] == tag_char(j) by {
            assert(held[j] == whole[whole.len() - pending + j]);
        }
        lemma_partial_tag_passes(held, 0, pending as int);
        assert(held.take(pending as int) == tag_prefix(pending as int));
        assert(held.skip(pending as int).len() == 0);
        assert(tag_prefix(pending as int) + spec_break_lines(held.skip(pending as int))
            == tag_prefix(pending as int));
    }
    write_tag_prefix(&mut broken, pending);
    broken
}

/// Appends the first `count` characters of the tag to `out`.
fn write_tag_prefix(out: &mut String, count: usize)
    requires
        count < 4,
    ensures
        final(out)@ == old(out)@ + tag_prefix(count as int),
{
    if count >= 1 {
        out.push('<');
    }
    if count >= 2 {
        out.push('b');
    }
    if count >= 3 {
        out.push('r');
    }
    assert(out@ == old(out)@ + tag_prefix(count as int));
}

/// The character that writes the decimal digit `digit`.
pub open spec fn digit_char(digit: int) -> char {
    if digit == 0 {
        '0'
    } else if digit == 1 {
        '1'
    } else if digit == 2 {
        '2'
    } else if digit == 3 {
        '3'
    } else if digit == 4 {
        '4'
    } else if digit == 5 {
        '5'
    } else if digit == 6 {
        '6'
    } else if digit == 7 {
        '7'
    } else if digit == 8 {
        '8'
    } else {
        '9'
    }
}

/// The decimal numeral of `n`, most significant digit first, without
/// leading zeros.
pub open spec fn spec_decimal(n: nat) -> Seq<char>
    decreases n,
{
    if n < 10 {
        seq![digit_char(n as int)]
    } else {
        spec_decimal(n / 10).push(digit_char((n % 10) as int))
    }
}

/// The decimal numeral of `n`, with zeros in front until it has at least
/// `width` characters. A numeral that is already longer is left as it is.
pub open spec fn spec_zero_padded(n: nat, width: nat) -> Seq<char> {
    let numeral = spec_decimal(n);
    if numeral.len() >= width {
        numeral
    } else {
        Seq::new((width - numeral.len()) as nat, |at: int| '0') + numeral
    }
}

/// Every numeral has at least one digit, and a `usize` has at most twenty.
pub proof fn lemma_decimal_len(n: nat)
    ensures
        1 <= spec_decimal(n).len(),
        n <= usize::MAX ==> spec_decimal(n).len() <= 20,
{
    reveal_with_fuel(spec_decimal, 21);
}

fn digit(value: usize) -> (c: char)
    requires
        value < 10,
    ensures
        c == digit_char(value as int),
{
    if value == 0 {
        '0'
    } else if value == 1 {
        '1'
    } else if value == 2 {
        '2'
    } else if value == 3 {
        '3'
    } else if value == 4 {
        '4'
    } else if value == 5 {
        '5'
    } else if value == 6 {
        '6'
    } else if value == 7 {
        '7'
    } else if value == 8 {
        '8'
    } else {
        '9'
    }
}

/// Writes `n` in decimal after what `out` holds, and returns the number of
/// digits written.
fn write_decimal(out: &mut String, n: usize) -> (digits: usize)
    ensures
        final(out)@ == old(out)@ + spec_decimal(n as nat),
        digits == spec_decimal(n as nat).len(),
    decreases n,
{
    proof {
        lemma_decimal_len(n as nat);
    }
    if n < 10 {
        out.push(digit(n));
        assert(out@ == old(out)@ + spec_decimal(n as nat));
        1
    } else {
        let before = write_decimal(out, n / 10);
        out.push(digit(n % 10));
        assert(out@ == old(out)@ + spec_decimal(n as nat));
        before + 1
    }
}

/// Formats `n` in decimal, zero-padded on the left to `width` characters.
pub fn zero_padded(n: usize, width: usize) -> (text: String)
    ensures
        text@ == spec_zero_padded(n as nat, width as nat),
{
    let mut numeral = String::new();
    let digits = write_decimal(&mut numeral, n);
    assert(numeral@ == spec_decimal(n as nat));
    if digits >= width {
        numeral
    } else {
        let mut text = String::new();
        let mut written: usize = 0;
        while written < width - digits
            invariant
                digits < width,
                written <= width - digits,
                text@ == Seq::new(written as nat, |at: int| '0'),
            decreases width - digits - written,
        {
            text.push('0');
            written = written + 1;
            assert(text@ == Seq::new(written as nat, |at: int| '0'));
        }
        text.append(numeral.as_str());
        text
    }
}

} // verus!
