//! Text fragments that statements are assembled from: decimal numbers and
//! quoted identifiers.

use vstd::prelude::*;

verus! {

/// The character that stands for a decimal digit.
pub open spec fn digit_char(d: int) -> char {
    if d == 0 {
        '0'
    } else if d == 1 {
        '1'
    } else if d == 2 {
        '2'
    } else if d == 3 {
        '3'
    } else if d == 4 {
        '4'
    } else if d == 5 {
        '5'
    } else if d == 6 {
        '6'
    } else if d == 7 {
        '7'
    } else if d == 8 {
        '8'
    } else {
        '9'
    }
}

/// Decimal digits of a natural number, most significant first, without leading zeros.
pub open spec fn nat_decimal(n: nat) -> Seq<char>
    decreases n,
{
    if n < 10 {
        seq![digit_char(n as int)]
    } else {
        nat_decimal(n / 10).push(digit_char((n % 10) as int))
    }
}

/// Decimal text of an integer: a minus sign for negative numbers, then the digits.
pub open spec fn int_decimal(n: int) -> Seq<char> {
    if n < 0 {
        seq!['-'] + nat_decimal((-n) as nat)
    } else {
        nat_decimal(n as nat)
    }
}

fn digit_str(d: u64) -> (s: &'static str)
    requires
        d < 10,
    ensures
        s@ == seq![digit_char(d as int)],
{
    proof {
        reveal_strlit("0");
        reveal_strlit("1");
        reveal_strlit("2");
        reveal_strlit("3");
        reveal_strlit("4");
        reveal_strlit("5");
        reveal_strlit("6");
        reveal_strlit("7");
        reveal_strlit("8");
        reveal_strlit("9");
    }
    let s: &'static str = if d == 0 {
        "0"
    } else if d == 1 {
        "1"
    } else if d == 2 {
        "2"
    } else if d == 3 {
        "3"
    } else if d == 4 {
        "4"
    } else if d == 5 {
        "5"
    } else if d == 6 {
        "6"
    } else if d == 7 {
        "7"
    } else if d == 8 {
        "8"
    } else {
        "9"
    };
    assert(s@ =~= seq![digit_char(d as int)]);
    s
}

/// Appends the decimal digits of `n` to `buffer`.
pub fn push_nat(buffer: &mut String, n: u64)
    ensures
        final(buffer)@ == old(buffer)@ + nat_decimal(n as nat),
    decreases n,
{
    if n >= 10 {
        push_nat(buffer, n / 10);
    }
    buffer.append(digit_str(n % 10));
}

/// Appends the decimal text of `n` to `buffer`.
pub fn push_int(buffer: &mut String, n: i64)
    ensures
        final(buffer)@ == old(buffer)@ + int_decimal(n as int),
{
    if n < 0 {
        proof {
            reveal_strlit("-");
        }
        buffer.append("-");
        let magnitude: u64 = if n == i64::MIN {
            9223372036854775808u64
        } else {
            (-n) as u64
        };
        push_nat(buffer, magnitude);
    } else {
        push_nat(buffer, n as u64);
    }
}

/// Index of the first `.` in `s`, or the length of `s` when it holds none.
pub open spec fn first_dot(s: Seq<char>) -> int
    decreases s.len(),
{
    if s.len() == 0 || s[0] == '.' {
        0
    } else {
        1 + first_dot(s.drop_first())
    }
}

/// One identifier segment between backticks.
pub open spec fn quoted(segment: Seq<char>) -> Seq<char> {
    seq!['`'] + segment + seq!['`']
}

/// An identifier split at every `.`, each segment quoted on its own, the
/// segments joined by `.` again.
pub open spec fn quoted_name(name: Seq<char>) -> Seq<char>
    decreases name.len(),
{
    let cut = first_dot(name);
    if cut < 0 || cut >= name.len() {
        quoted(name)
    } else {
        quoted(name.take(cut)) + seq!['.'] + quoted_name(name.skip(cut + 1))
    }
}

/// `first_dot` finds the position `k` when no `.` stands before it and either
/// a `.` stands at it or the text ends there.
pub proof fn lemma_first_dot(s: Seq<char>, k: int)
    requires
        0 <= k <= s.len(),
        forall|j: int| 0 <= j < k ==> s[j] != '.',
        k == s.len() || s[k] == '.',
    ensures
        first_dot(s) == k,
    decreases k,
{
    if k > 0 {
        let rest = s.drop_first();
        assert forall|j: int| 0 <= j < k - 1 implies rest[j] != '.' by {
            assert(rest[j] == s[j + 1]);
        }
        lemma_first_dot(rest, k - 1);
    }
}

/// A name without a `.` is one segment: it is quoted as a whole.
pub proof fn lemma_quoted_name_of_one_segment(name: Seq<char>)
    requires
        forall|j: int| 0 <= j < name.len() ==> name[j] != '.',
    ensures
        quoted_name(name) == quoted(name),
{
    lemma_first_dot(name, name.len() as int);
}

/// A name is quoted segment by segment: the segment before the first `.`
/// is quoted on its own, and what follows the `.` is quoted as a name of
/// its own.
pub proof fn lemma_quoted_name_splits_at_dot(head: Seq<char>, tail: Seq<char>)
    requires
        forall|j: int| 0 <= j < head.len() ==> head[j] != '.',
    ensures
        quoted_name(head + seq!['.'] + tail) == quoted(head) + seq!['.'] + quoted_name(tail),
{
    let name = head + seq!['.'] + tail;
    assert forall|j: int| 0 <= j < head.len() implies name[j] != '.' by {
        assert(name[j] == head[j]);
    }
    assert(name[head.len() as int] == '.');
    lemma_first_dot(name, head.len() as int);
    assert(name.take(head.len() as int) =~= head);
    assert(name.skip(head.len() as int + 1) =~= tail);
}

/// Appends `name` to `buffer` as a quoted identifier.
pub fn push_quoted_name(buffer: &mut String, name: &str)
    ensures
        final(buffer)@ == old(buffer)@ + quoted_name(name@),
{
    let ghost whole = name@;
    let ghost mut done: Seq<char> = Seq::empty();
    let total: usize = name.unicode_len();
    let mut start: usize = 0;
    let mut at: usize = 0;
    assert(whole.skip(0) =~= whole);
    for c in it: name.chars()
        invariant
            whole == name@,
            it.seq() == whole,
            at == it.index(),
            total == whole.len(),
            start <= at <= total,
            forall|j: int| start <= j < at ==> whole[j] != '.',
            buffer@ == old(buffer)@ + done,
            quoted_name(whole) == done + quoted_name(whole.skip(start as int)),
    {
        if c == '.' {
            let segment = name.substring_char(start, at);
            buffer.append("`");
            buffer.append(segment);
            buffer.append("`.");
            proof {
                reveal_strlit("`");
                reveal_strlit("`.");
                let tail = whole.skip(start as int);
                assert forall|j: int| 0 <= j < at - start implies tail[j] != '.' by {
                    assert(tail[j] == whole[start + j]);
                }
                lemma_first_dot(tail, at - start);
                assert(tail.take(at - start) =~= whole.subrange(start as int, at as int));
                assert(tail.skip(at - start + 1) =~= whole.skip(at + 1));
                let piece = quoted(whole.subrange(start as int, at as int)) + seq!['.'];
                assert("`"@ + segment@ + "`."@ =~= piece);
                assert(quoted_name(tail) == piece + quoted_name(whole.skip(at + 1)));
                assert(buffer@ =~= old(buffer)@ + (done + piece));
                assert(done + (piece + quoted_name(whole.skip(at + 1))) =~= (done + piece)
                    + quoted_name(whole.skip(at + 1)));
                done = done + piece;
            }
            start = at + 1;
        }
        at = at + 1;
    }
    let segment = name.substring_char(start, total);
    buffer.append("`");
    buffer.append(segment);
    buffer.append("`");
    proof {
        reveal_strlit("`");
        let tail = whole.skip(start as int);
        assert forall|j: int| 0 <= j < total - start implies tail[j] != '.' by {
            assert(tail[j] == whole[start + j]);
        }
        lemma_first_dot(tail, total - start);
        assert(tail =~= whole.subrange(start as int, total as int));
        assert("`"@ + segment@ + "`"@ =~= quoted(tail));
        assert(buffer@ =~= old(buffer)@ + (done + quoted(tail)));
    }
}

/// The parts in order, with `separator` between neighbours.
pub open spec fn joined(parts: Seq<Seq<char>>, separator: Seq<char>) -> Seq<char>
    decreases parts.len(),
{
    if parts.len() == 0 {
        Seq::empty()
    } else if parts.len() == 1 {
        parts[0]
    } else {
        joined(parts.drop_last(), separator) + separator + parts.last()
    }
}

/// The parts in order, each with `prefix` before it.
pub open spec fn prefixed(parts: Seq<Seq<char>>, prefix: Seq<char>) -> Seq<char>
    decreases parts.len(),
{
    if parts.len() == 0 {
        Seq::empty()
    } else {
        prefixed(parts.drop_last(), prefix) + prefix + parts.last()
    }
}

/// Joining one part more: the separator comes first unless the part is the first.
pub proof fn lemma_joined_push(parts: Seq<Seq<char>>, part: Seq<char>, separator: Seq<char>)
    ensures
        joined(parts.push(part), separator) == if parts.len() == 0 {
            part
        } else {
            joined(parts, separator) + separator + part
        },
{
    assert(parts.push(part).drop_last() =~= parts);
}

/// Prefixing one part more appends the prefix and the part.
pub proof fn lemma_prefixed_push(parts: Seq<Seq<char>>, part: Seq<char>, prefix: Seq<char>)
    ensures
        prefixed(parts.push(part), prefix) == prefixed(parts, prefix) + prefix + part,
{
    assert(parts.push(part).drop_last() =~= parts);
}

/// `text` between backticks, as table names and plain aliases are written.
pub fn push_quoted(buffer: &mut String, text: &str)
    ensures
        final(buffer)@ == old(buffer)@ + quoted(text@),
{
    proof {
        reveal_strlit("`");
    }
    buffer.append("`");
    buffer.append(text);
    buffer.append("`");
}

} // verus!
