//! Line splitting and whitespace trimming of device list files and names.

use vstd::prelude::*;
use vstd::string::*;

verus! {

/// ASCII whitespace as `u8::is_ascii_whitespace` defines it: space, tab,
/// line feed, form feed and carriage return.
pub open spec fn is_ascii_whitespace(c: char) -> bool {
    c == ' ' || c == '\t' || c == '\n' || c == '\x0C' || c == '\r'
}

/// `s` without its trailing ASCII whitespace.
pub open spec fn trim_end(s: Seq<char>) -> Seq<char>
    decreases s.len(),
{
    if s.len() > 0 && is_ascii_whitespace(s.last()) {
        trim_end(s.drop_last())
    } else {
        s
    }
}

/// Trimming leaves no trailing whitespace, keeps a prefix of the string,
/// and trimming again changes nothing.
pub proof fn law_trim_end(s: Seq<char>)
    ensures
        trim_end(s).len() == 0 || !is_ascii_whitespace(trim_end(s).last()),
        trim_end(s).len() <= s.len(),
        trim_end(s) == s.subrange(0, trim_end(s).len() as int),
        trim_end(trim_end(s)) == trim_end(s),
        forall|k: int| trim_end(s).len() <= k < s.len() ==> is_ascii_whitespace(#[trigger] s[k]),
    decreases s.len(),
{
    if s.len() > 0 && is_ascii_whitespace(s.last()) {
        law_trim_end(s.drop_last());
        assert(s.drop_last().subrange(0, trim_end(s).len() as int) =~= s.subrange(
            0,
            trim_end(s).len() as int,
        ));
        assert forall|k: int| trim_end(s).len() <= k < s.len() implies is_ascii_whitespace(
            #[trigger] s[k],
        ) by {
            if k < s.len() - 1 {
                assert(s.drop_last()[k] == s[k]);
            }
        }
    } else {
        assert(s.subrange(0, s.len() as int) =~= s);
    }
}

proof fn lemma_trim_end_prefix(s: Seq<char>, j: int)
    requires
        0 <= j <= s.len(),
        forall|k: int| j <= k < s.len() ==> is_ascii_whitespace(#[trigger] s[k]),
    ensures
        trim_end(s) == trim_end(s.subrange(0, j)),
    decreases s.len() - j,
{
    if j < s.len() {
        lemma_trim_end_prefix(s.drop_last(), j);
        assert(s.drop_last().subrange(0, j) =~= s.subrange(0, j));
    } else {
        assert(s.subrange(0, j) =~= s);
    }
}

/// The string without trailing ASCII whitespace.
pub fn trim_ascii_end(s: &str) -> (r: String)
    ensures
        r@ == trim_end(s@),
{
    let n = s.unicode_len();
    let mut j = n;
    while j > 0 && is_ascii_whitespace_char(s.get_char(j - 1))
        invariant
            j <= n,
            n == s@.len(),
            forall|k: int| j <= k < n ==> is_ascii_whitespace(#[trigger] s@[k]),
        decreases j,
    {
        j = j - 1;
    }
    proof {
        lemma_trim_end_prefix(s@, j as int);
        assert(s@.subrange(0, j as int).len() == 0 || !is_ascii_whitespace(
            s@.subrange(0, j as int).last(),
        ));
    }
    String::from_str(s.substring_char(0, j))
}

/// Whether a character is ASCII whitespace.
pub fn is_ascii_whitespace_char(c: char) -> (r: bool)
    ensures
        r == is_ascii_whitespace(c),
{
    c == ' ' || c == '\t' || c == '\n' || c == '\x0C' || c == '\r'
}

/// The names that the lines of `rest` give, when the current line so far
/// holds `cur`: each line, as `BufRead::lines` splits them at line feeds,
/// without trailing ASCII whitespace. A last line without a line feed
/// counts when it is not empty.
pub open spec fn names_from(rest: Seq<char>, cur: Seq<char>) -> Seq<Seq<char>>
    decreases rest.len(),
{
    if rest.len() == 0 {
        if cur.len() == 0 {
            Seq::empty()
        } else {
            seq![trim_end(cur)]
        }
    } else if rest[0] == '\n' {
        seq![trim_end(cur)] + names_from(rest.drop_first(), Seq::empty())
    } else {
        names_from(rest.drop_first(), cur.push(rest[0]))
    }
}

/// The names that the lines of a device list give, in order: each line
/// without trailing ASCII whitespace.
pub open spec fn listed_names(contents: Seq<char>) -> Seq<Seq<char>> {
    names_from(contents, Seq::empty())
}

/// No name that a device list gives ends in ASCII whitespace.
pub proof fn law_listed_names_are_trimmed(contents: Seq<char>)
    ensures
        forall|i: int|
            0 <= i < listed_names(contents).len() ==> #[trigger] listed_names(contents)[i].len() == 0
                || !is_ascii_whitespace(listed_names(contents)[i].last()),
{
    lemma_names_from_trimmed(contents, Seq::empty());
}

proof fn lemma_names_from_trimmed(rest: Seq<char>, cur: Seq<char>)
    ensures
        forall|i: int|
            0 <= i < names_from(rest, cur).len() ==> #[trigger] names_from(rest, cur)[i].len() == 0
                || !is_ascii_whitespace(names_from(rest, cur)[i].last()),
    decreases rest.len(),
{
    law_trim_end(cur);
    if rest.len() == 0 {
        if cur.len() > 0 {
            assert(names_from(rest, cur) =~= seq![trim_end(cur)]);
        }
    } else if rest[0] == '\n' {
        lemma_names_from_trimmed(rest.drop_first(), Seq::empty());
        let tail = names_from(rest.drop_first(), Seq::empty());
        assert forall|i: int| 0 <= i < names_from(rest, cur).len() implies #[trigger] names_from(
            rest,
            cur,
        )[i].len() == 0 || !is_ascii_whitespace(names_from(rest, cur)[i].last()) by {
            assert(names_from(rest, cur) == seq![trim_end(cur)] + tail);
            if i > 0 {
                assert(names_from(rest, cur)[i] == tail[i - 1]);
            } else {
                assert(names_from(rest, cur)[i] == trim_end(cur));
            }
        }
    } else {
        lemma_names_from_trimmed(rest.drop_first(), cur.push(rest[0]));
        let next = names_from(rest.drop_first(), cur.push(rest[0]));
        assert(names_from(rest, cur) == next);
        assert forall|i: int| 0 <= i < names_from(rest, cur).len() implies #[trigger] names_from(
            rest,
            cur,
        )[i].len() == 0 || !is_ascii_whitespace(names_from(rest, cur)[i].last()) by {
            assert(names_from(rest, cur)[i] == next[i]);
        }
    }
}

proof fn lemma_names_from_line(line: Seq<char>, rest: Seq<char>, cur: Seq<char>)
    requires
        !line.contains('\n'),
    ensures
        names_from(line + rest, cur) == names_from(rest, cur + line),
    decreases line.len(),
{
    if line.len() == 0 {
        assert(line + rest =~= rest);
        assert(cur + line =~= cur);
    } else {
        assert(line[0] != '\n') by {
            if line[0] == '\n' {
                assert(line.contains('\n'));
            }
        }
        let tail = line.drop_first();
        assert(!tail.contains('\n')) by {
            if tail.contains('\n') {
                let i = choose|i: int| 0 <= i < tail.len() && tail[i] == '\n';
                assert(line[i + 1] == '\n');
            }
        }
        lemma_names_from_line(tail, rest, cur.push(line[0]));
        assert((line + rest).drop_first() =~= tail + rest);
        assert((line + rest)[0] == line[0]);
        assert(cur.push(line[0]) + tail =~= cur + line);
    }
}

/// An empty device list names nothing. A line that holds no line feed,
/// followed by a line feed, gives its name, without trailing whitespace,
/// ahead of the names of what follows; a last line without a line feed
/// gives its name when it is not empty.
pub proof fn law_listed_names(line: Seq<char>, rest: Seq<char>)
    requires
        !line.contains('\n'),
    ensures
        listed_names(Seq::empty()) == Seq::<Seq<char>>::empty(),
        listed_names(line.push('\n') + rest) == seq![trim_end(line)] + listed_names(rest),
        line.len() > 0 ==> listed_names(line) == seq![trim_end(line)],
{
    lemma_names_from_line(line, seq!['\n'] + rest, Seq::empty());
    assert(line.push('\n') + rest =~= line + (seq!['\n'] + rest));
    assert(Seq::<char>::empty() + line =~= line);
    assert((seq!['\n'] + rest).drop_first() =~= rest);
    lemma_names_from_line(line, Seq::empty(), Seq::empty());
    assert(line + Seq::<char>::empty() =~= line);
}

/// The names of the lines of a device list, in order, each without
/// trailing ASCII whitespace.
pub fn device_list_names(contents: &str) -> (r: Vec<String>)
    ensures
        r@.map_values(|n: String| n@) == listed_names(contents@),
{
    let n = contents.unicode_len();
    let ghost s = contents@;
    let mut out: Vec<String> = Vec::new();
    let mut start: usize = 0;
    let mut i: usize = 0;
    assert(s.skip(0) =~= s);
    assert(s.subrange(0, 0) =~= Seq::<char>::empty());
    assert(out@.map_values(|n: String| n@) =~= Seq::<Seq<char>>::empty());
    assert(Seq::<Seq<char>>::empty() + listed_names(s) =~= listed_names(s));
    while i < n
        invariant
            n == s.len(),
            s == contents@,
            start <= i <= n,
            out@.map_values(|n: String| n@) + names_from(s.skip(i as int), s.subrange(start as int, i as int))
                == listed_names(s),
        decreases n - i,
    {
        let c = contents.get_char(i);
        let ghost rest = s.skip(i as int);
        let ghost cur = s.subrange(start as int, i as int);
        assert(rest.drop_first() =~= s.skip(i + 1));
        assert(rest[0] == c);
        let ghost before = out@.map_values(|n: String| n@);
        if c == '\n' {
            let line = trim_ascii_end(contents.substring_char(start, i));
            out.push(line);
            assert(out@.map_values(|n: String| n@) =~= before.push(trim_end(cur)));
            assert(s.subrange(i + 1, i + 1) =~= Seq::<char>::empty());
            assert(before.push(trim_end(cur)) + names_from(s.skip(i + 1), Seq::empty()) =~= before
                + (seq![trim_end(cur)] + names_from(s.skip(i + 1), Seq::empty())));
            start = i + 1;
        } else {
            assert(cur.push(c) =~= s.subrange(start as int, i + 1));
        }
        i = i + 1;
    }
    let ghost cur = s.subrange(start as int, n as int);
    assert(s.skip(n as int) =~= Seq::<char>::empty());
    if start < n {
        let line = trim_ascii_end(contents.substring_char(start, n));
        let ghost before = out@.map_values(|n: String| n@);
        out.push(line);
        assert(out@.map_values(|n: String| n@) =~= before + seq![trim_end(cur)]);
    } else {
        assert(out@.map_values(|n: String| n@) =~= out@.map_values(|n: String| n@) + names_from(
            s.skip(n as int),
            cur,
        ));
    }
    out
}

} // verus!
