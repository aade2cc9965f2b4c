use vstd::prelude::*;

verus! {

/// The text a sequence of buffer lines is saved as: the lines joined with a
/// single newline between each pair and no terminator after the last line.
pub open spec fn spec_join(lines: Seq<Seq<char>>) -> Seq<char>
    decreases lines.len(),
{
    if lines.len() == 0 {
        Seq::empty()
    } else if lines.len() == 1 {
        lines[0]
    } else {
        lines[0] + seq!['\n'] + spec_join(lines.drop_first())
    }
}

/// Position of the first newline of a text, or its length when it has none.
pub open spec fn line_break(s: Seq<char>) -> nat
    decreases s.len(),
{
    if s.len() == 0 {
        0
    } else if s[0] == '\n' {
        0
    } else {
        line_break(s.drop_first()) + 1
    }
}

/// A line as it is read back: a carriage return that sat right before the
/// newline is not part of the line.
pub open spec fn strip_cr(line: Seq<char>) -> Seq<char> {
    if line.len() > 0 && line.last() == '\r' {
        line.drop_last()
    } else {
        line
    }
}

/// The lines a text is read back as: split at each newline, a carriage
/// return directly before a newline dropped, and no final empty line for a
/// text that ends with a newline.
pub open spec fn spec_split(s: Seq<char>) -> Seq<Seq<char>>
    decreases s.len(),
{
    if s.len() == 0 {
        Seq::empty()
    } else {
        let n = line_break(s) as int;
        if n >= s.len() {
            seq![s]
        } else {
            seq![strip_cr(s.subrange(0, n))] + spec_split(s.subrange(n + 1, s.len() as int))
        }
    }
}

/// The buffer a sequence of lines fills: a single empty line when there are
/// no lines at all, the lines themselves otherwise.
pub open spec fn buffer_of(lines: Seq<Seq<char>>) -> Seq<Seq<char>> {
    if lines.len() == 0 {
        seq![Seq::<char>::empty()]
    } else {
        lines
    }
}

/// The buffers whose text reads back as the very same buffer: no line holds
/// a newline, no line before the last ends in a carriage return, and an
/// empty last line only stands alone.
pub open spec fn round_trip_safe(lines: Seq<Seq<char>>) -> bool {
    &&& lines.len() > 0
    &&& forall|i: int| 0 <= i < lines.len() ==> !(#[trigger] lines[i]).contains('\n')
    &&& forall|i: int|
        0 <= i < lines.len() - 1 ==> !((#[trigger] lines[i]).len() > 0 && lines[i].last() == '\r')
    &&& (lines.last().len() > 0 || lines.len() == 1)
}

proof fn lemma_line_break_bounds(s: Seq<char>)
    ensures
        line_break(s) <= s.len(),
        forall|i: int| 0 <= i < line_break(s) ==> s[i] != '\n',
        line_break(s) < s.len() ==> s[line_break(s) as int] == '\n',
    decreases s.len(),
{
    if s.len() == 0 {
    } else if s[0] == '\n' {
    } else {
        lemma_line_break_bounds(s.drop_first());
        assert forall|i: int| 0 <= i < line_break(s) implies s[i] != '\n' by {
            if i > 0 {
                assert(s.drop_first()[i - 1] == s[i]);
            }
        }
        if line_break(s) < s.len() {
            assert(s.drop_first()[line_break(s.drop_first()) as int] == s[line_break(s) as int]);
        }
    }
}

/// The first newline of a text sits exactly where the first newline sits.
proof fn lemma_line_break_at(s: Seq<char>, k: int)
    requires
        0 <= k < s.len(),
        forall|j: int| 0 <= j < k ==> s[j] != '\n',
        s[k] == '\n',
    ensures
        line_break(s) == k,
    decreases k,
{
    if k == 0 {
    } else {
        assert(s[0] != '\n');
        let t = s.drop_first();
        assert forall|j: int| 0 <= j < k - 1 implies t[j] != '\n' by {
            assert(t[j] == s[j + 1]);
        }
        assert(t[k - 1] == s[k]);
        lemma_line_break_at(t, k - 1);
    }
}

/// A text without any newline breaks only at its end.
proof fn lemma_line_break_none(s: Seq<char>)
    requires
        forall|j: int| 0 <= j < s.len() ==> s[j] != '\n',
    ensures
        line_break(s) == s.len(),
{
    lemma_line_break_bounds(s);
    if line_break(s) < s.len() {
        assert(s[line_break(s) as int] == '\n');
    }
}

/// A text without any newline reads back as its single line, when it is not
/// empty.
proof fn lemma_split_single(s: Seq<char>)
    requires
        s.len() > 0,
        forall|j: int| 0 <= j < s.len() ==> s[j] != '\n',
    ensures
        spec_split(s) == seq![s],
{
    lemma_line_break_none(s);
}

proof fn lemma_split_join_exact(lines: Seq<Seq<char>>)
    requires
        round_trip_safe(lines),
        lines.last().len() > 0,
    ensures
        spec_split(spec_join(lines)) == lines,
    decreases lines.len(),
{
    let l = lines[0];
    if lines.len() == 1 {
        assert(!l.contains('\n'));
        assert forall|j: int| 0 <= j < l.len() implies l[j] != '\n' by {
            if l[j] == '\n' {
                assert(l.contains('\n'));
            }
        }
        lemma_split_single(l);
        assert(spec_split(spec_join(lines)) =~~= lines);
    } else {
        let rest = lines.drop_first();
        let tail = spec_join(rest);
        let s = spec_join(lines);
        assert(s == l + seq!['\n'] + tail);
        assert(!l.contains('\n'));
        assert forall|j: int| 0 <= j < l.len() implies l[j] != '\n' by {
            if l[j] == '\n' {
                assert(l.contains('\n'));
            }
        }
        assert(s[l.len() as int] == '\n');
        assert forall|j: int| 0 <= j < l.len() implies s[j] != '\n' by {
            assert(s[j] == l[j]);
        }
        lemma_line_break_at(s, l.len() as int);
        let n = line_break(s) as int;
        assert(n == l.len());
        assert(n < s.len());
        assert(s.subrange(0, n) =~= l);
        assert(strip_cr(l) == l);
        assert(s.subrange(n + 1, s.len() as int) =~= tail);
        assert(round_trip_safe(rest)) by {
            assert forall|i: int| 0 <= i < rest.len() implies !(#[trigger] rest[i]).contains(
                '\n',
            ) by {
                assert(rest[i] == lines[i + 1]);
            }
            assert forall|i: int|
                0 <= i < rest.len() - 1 implies !((#[trigger] rest[i]).len() > 0 && rest[i].last()
                == '\r') by {
                assert(rest[i] == lines[i + 1]);
            }
            assert(rest.last() == lines.last());
        }
        lemma_split_join_exact(rest);
        assert(spec_split(s) == seq![l] + rest);
        assert(seq![l] + rest =~= lines);
    }
}

/// Round trip of a buffer through its saved text: joining the lines of a
/// well-formed buffer into one text and reading that text back fills the
/// buffer with exactly the lines it had.
pub proof fn lemma_round_trip(lines: Seq<Seq<char>>)
    requires
        round_trip_safe(lines),
    ensures
        buffer_of(spec_split(spec_join(lines))) == lines,
{
    if lines.last().len() == 0 {
        assert(lines =~~= seq![Seq::<char>::empty()]);
        assert(spec_join(lines) == lines[0]);
        assert(buffer_of(spec_split(spec_join(lines))) =~~= lines);
    } else {
        lemma_split_join_exact(lines);
    }
}

proof fn lemma_join_push(pref: Seq<Seq<char>>, l: Seq<char>)
    ensures
        spec_join(pref.push(l)) == if pref.len() == 0 {
            l
        } else {
            spec_join(pref) + seq!['\n'] + l
        },
    decreases pref.len(),
{
    let p = pref.push(l);
    if pref.len() == 0 {
        assert(p.len() == 1);
        assert(spec_join(p) == p[0]);
        assert(p[0] == l);
    } else if pref.len() == 1 {
        assert(p.len() == 2);
        assert(p.drop_first() =~= seq![l]);
        assert(spec_join(p) == p[0] + seq!['\n'] + spec_join(p.drop_first()));
        assert(spec_join(p.drop_first()) == l);
        assert(p[0] == pref[0]);
        assert(spec_join(pref) == pref[0]);
    } else {
        assert(p.drop_first() =~= pref.drop_first().push(l));
        lemma_join_push(pref.drop_first(), l);
        assert(spec_join(p) == p[0] + seq!['\n'] + spec_join(p.drop_first()));
        assert(p[0] == pref[0]);
        assert(spec_join(pref) == pref[0] + seq!['\n'] + spec_join(pref.drop_first()));
        assert(spec_join(pref) + seq!['\n'] + l =~= pref[0] + seq!['\n'] + (spec_join(
            pref.drop_first(),
        ) + seq!['\n'] + l));
    }
}

/// Join buffer lines into the text they are saved as: a newline between
/// each pair of lines and nothing after the last.
pub fn join_lines(lines: &Vec<String>) -> (r: String)
    ensures
        r@ == spec_join(lines.deep_view()),
{
    let ghost all = lines.deep_view();
    let mut r = String::new();
    let mut i: usize = 0;
    proof {
        assert(all.subrange(0, 0) =~= Seq::<Seq<char>>::empty());
    }
    while i < lines.len()
        invariant
            i <= lines.len(),
            all == lines.deep_view(),
            all.len() == lines.len(),
            r@ == spec_join(all.subrange(0, i as int)),
        decreases lines.len() - i,
    {
        proof {
            reveal_strlit("\n");
            assert(("\n")@ =~= seq!['\n']);
        }
        if i > 0 {
            r.append("\n");
        }
        r.append(lines[i].as_str());
        proof {
            assert(all[i as int] == lines[i as int]@);
            assert(all.subrange(0, i + 1) =~= all.subrange(0, i as int).push(all[i as int]));
            lemma_join_push(all.subrange(0, i as int), all[i as int]);
        }
        i += 1;
    }
    proof {
        assert(all.subrange(0, lines.len() as int) =~= all);
    }
    r
}

/// Split a text into the buffer lines it is read back as: at each newline,
/// dropping a carriage return that sits right before one, with no final
/// empty line for a text that ends with a newline.
pub fn split_lines(content: &str) -> (r: Vec<String>)
    ensures
        r.deep_view() == spec_split(content@),
{
    let s = content;
    let n: usize = s.unicode_len();
    let mut r: Vec<String> = Vec::new();
    let mut start: usize = 0;
    let mut i: usize = 0;
    proof {
        assert(r.deep_view() =~= Seq::<Seq<char>>::empty());
        assert(s@.subrange(0, n as int) =~= s@);
        assert(r.deep_view() + spec_split(s@) =~~= spec_split(s@));
    }
    while i < n
        invariant
            start <= i <= n,
            n == s@.len(),
            forall|j: int| start <= j < i ==> s@[j] != '\n',
            spec_split(s@) =~~= r.deep_view() + spec_split(s@.subrange(start as int, n as int)),
        decreases n - i,
    {
        let c = s.get_char(i);
        if c == '\n' {
            let end: usize = if i > start && s.get_char(i - 1) == '\r' {
                i - 1
            } else {
                i
            };
            let line = s.substring_char(start, end);
            let ghost old_r = r.deep_view();
            r.push(line.to_owned());
            proof {
                let tail = s@.subrange(start as int, n as int);
                assert forall|j: int| 0 <= j < i - start implies tail[j] != '\n' by {
                    assert(tail[j] == s@[start + j]);
                }
                assert(tail[i - start] == s@[i as int]);
                lemma_line_break_at(tail, i - start);
                let piece = tail.subrange(0, i - start);
                assert(piece =~= s@.subrange(start as int, i as int));
                assert(strip_cr(piece) =~= line@);
                assert(tail.subrange(i - start + 1, tail.len() as int) =~= s@.subrange(
                    i + 1,
                    n as int,
                ));
                assert(spec_split(tail) == seq![strip_cr(piece)] + spec_split(
                    s@.subrange(i + 1, n as int),
                ));
                assert(r.deep_view() =~~= old_r.push(line@));
                assert(old_r + spec_split(tail) =~~= r.deep_view() + spec_split(
                    s@.subrange(i + 1, n as int),
                ));
            }
            start = i + 1;
        }
        i += 1;
    }
    if start < n {
        let line = s.substring_char(start, n);
        let ghost old_r = r.deep_view();
        r.push(line.to_owned());
        proof {
            let tail = s@.subrange(start as int, n as int);
            assert forall|j: int| 0 <= j < tail.len() implies tail[j] != '\n' by {
                assert(tail[j] == s@[start + j]);
            }
            lemma_split_single(tail);
            assert(r.deep_view() =~~= old_r.push(line@));
            assert(line@ == tail);
            assert(old_r + spec_split(tail) =~~= r.deep_view());
        }
    } else {
        proof {
            assert(s@.subrange(start as int, n as int) =~= Seq::<char>::empty());
            assert(r.deep_view() + spec_split(Seq::<char>::empty()) =~~= r.deep_view());
        }
    }
    r
}

} // verus!
