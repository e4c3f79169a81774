use vstd::prelude::*;

verus! {

/// The characters of each line of `lines`.
pub open spec fn lines_text(lines: Seq<String>) -> Seq<Seq<char>> {
    lines.map_values(|l: String| l@)
}

/// `t` cut at every `'\n'`: one piece more than there are newlines, none of
/// them holding a newline.
pub open spec fn pieces(t: Seq<char>) -> Seq<Seq<char>>
    decreases t.len(),
{
    if t.len() == 0 {
        seq![Seq::empty()]
    } else if t.last() == '\n' {
        pieces(t.drop_last()).push(Seq::empty())
    } else {
        let p = pieces(t.drop_last());
        p.update(p.len() - 1, p.last().push(t.last()))
    }
}

/// A line that was ended by `"\r\n"` loses its `'\r'`.
pub open spec fn strip_cr(line: Seq<char>) -> Seq<char> {
    if line.len() > 0 && line.last() == '\r' {
        line.drop_last()
    } else {
        line
    }
}

/// The lines of `t`: each ends at `'\n'` or `"\r\n"`, which is not part of
/// it, and a line ending at the very end of `t` starts no further line.
pub open spec fn lines_of(t: Seq<char>) -> Seq<Seq<char>> {
    let p = pieces(t);
    let ended = p.drop_last().map_values(|l: Seq<char>| strip_cr(l));
    if p.last().len() == 0 {
        ended
    } else {
        ended.push(p.last())
    }
}

/// The lines of a loaded file: those of `t`, or one empty line when `t` has
/// none.
pub open spec fn load_lines(t: Seq<char>) -> Seq<Seq<char>> {
    if lines_of(t).len() == 0 {
        seq![Seq::empty()]
    } else {
        lines_of(t)
    }
}

/// `lines` written one after another with a single `'\n'` between two
/// neighbours and none after the last.
pub open spec fn joined(lines: Seq<Seq<char>>) -> Seq<char>
    decreases lines.len(),
{
    if lines.len() == 0 {
        Seq::empty()
    } else if lines.len() == 1 {
        lines[0]
    } else {
        joined(lines.drop_last()) + seq!['\n'] + lines.last()
    }
}

/// `t` without one final `'\n'`, if it ends with one.
pub open spec fn without_final_newline(t: Seq<char>) -> Seq<char> {
    if t.len() > 0 && t.last() == '\n' {
        t.drop_last()
    } else {
        t
    }
}

/// Relies on `String::push`: appends `c` at the end of `s`.
#[verifier::external_body]
pub(crate) fn push_char(s: &mut String, c: char)
    ensures
        final(s)@ == old(s)@.push(c),
{
    s.push(c)
}

/// Number of characters in `s`.
pub(crate) fn char_count(s: &String) -> (n: usize)
    ensures
        n == s@.len(),
{
    s.as_str().unicode_len()
}

proof fn lemma_pieces_not_empty(t: Seq<char>)
    ensures
        pieces(t).len() >= 1,
    decreases t.len(),
{
    if t.len() > 0 {
        lemma_pieces_not_empty(t.drop_last());
    }
}

proof fn lemma_joined_extend_last(p: Seq<Seq<char>>, c: char)
    requires
        p.len() >= 1,
    ensures
        joined(p.update(p.len() - 1, p.last().push(c))) == joined(p).push(c),
{
    let q = p.update(p.len() - 1, p.last().push(c));
    if p.len() >= 2 {
        assert(q.drop_last() =~= p.drop_last());
    }
    assert(joined(q) =~= joined(p).push(c));
}

proof fn lemma_joined_pieces(t: Seq<char>)
    ensures
        joined(pieces(t)) == t,
    decreases t.len(),
{
    if t.len() > 0 {
        let s = t.drop_last();
        lemma_joined_pieces(s);
        lemma_pieces_not_empty(s);
        if t.last() == '\n' {
            assert(pieces(t).drop_last() =~= pieces(s));
            assert(joined(pieces(t)) =~= t);
        } else {
            lemma_joined_extend_last(pieces(s), t.last());
            assert(t =~= s.push(t.last()));
        }
    }
}

proof fn lemma_pieces_keep_out(t: Seq<char>, c: char)
    requires
        !t.contains(c),
    ensures
        forall|i: int| 0 <= i < pieces(t).len() ==> !(#[trigger] pieces(t)[i]).contains(c),
    decreases t.len(),
{
    if t.len() > 0 {
        let s = t.drop_last();
        assert forall|j: int| 0 <= j < s.len() implies s[j] != c by {
            assert(s[j] == t[j]);
        }
        lemma_pieces_keep_out(s, c);
        lemma_pieces_not_empty(s);
        let p = pieces(s);
        if t.last() != '\n' {
            assert(t.last() == t[t.len() - 1]);
            assert forall|i: int| 0 <= i < pieces(t).len() implies !(#[trigger] pieces(t)[i]).contains(c) by {
                if i == p.len() - 1 {
                    let l = p.last().push(t.last());
                    assert forall|j: int| 0 <= j < l.len() implies l[j] != c by {
                        if j < p.last().len() {
                            assert(l[j] == p[i][j]);
                        }
                    }
                }
            }
        }
    }
}

/// Loading text and saving the lines again gives the text back, short of
/// one final newline: for text without carriage returns the line structure
/// is all there is, and the only thing lost is whether the text ended a
/// line.
pub proof fn lemma_save_after_load(t: Seq<char>)
    requires
        !t.contains('\r'),
    ensures
        joined(load_lines(t)) == without_final_newline(t),
{
    let p = pieces(t);
    lemma_pieces_not_empty(t);
    lemma_joined_pieces(t);
    lemma_pieces_keep_out(t, '\r');
    assert forall|i: int| 0 <= i < p.len() implies strip_cr(#[trigger] p[i]) == p[i] by {
        if p[i].len() > 0 {
            assert(p[i].contains(p[i].last()));
        }
    }
    let ended = p.drop_last().map_values(|l: Seq<char>| strip_cr(l));
    assert(ended =~= p.drop_last());
    if p.last().len() == 0 {
        if t.len() == 0 {
            assert(load_lines(t) =~= seq![Seq::<char>::empty()]);
        } else if t.last() == '\n' {
            let s = t.drop_last();
            lemma_joined_pieces(s);
            lemma_pieces_not_empty(s);
            assert(p.drop_last() =~= pieces(s));
        } else {
            lemma_pieces_not_empty(t.drop_last());
            assert(p.last().len() > 0);
        }
    } else {
        assert(ended.push(p.last()) =~= p);
        if t.len() > 0 && t.last() == '\n' {
            assert(p.last().len() == 0);
        }
    }
}

/// Splits `text` into its lines, as a file is read into a buffer.
pub fn split_lines(text: &str) -> (lines: Vec<String>)
    ensures
        lines_text(lines@) == load_lines(text@),
{
    let mut done: Vec<String> = Vec::new();
    let mut cur = String::new();
    let mut cr_last = false;
    let ghost mut seen: Seq<char> = Seq::empty();
    for c in it: text.chars()
        invariant
            it.seq() == text@,
            seen == text@.take(it.index() as int),
            pieces(text@.take(it.index() as int)).drop_last().map_values(|l: Seq<char>| strip_cr(l))
                == done@.map_values(|l: String| l@),
            pieces(text@.take(it.index() as int)).last() == cur@,
            cr_last == (cur@.len() > 0 && cur@.last() == '\r'),
    {
        let ghost before = text@.take(it.index() as int);
        let ghost after = text@.take(it.index() + 1);
        let ghost old_done = done@.map_values(|l: String| l@);
        let ghost old_cur = cur@;
        proof {
            assert(after.drop_last() =~= before);
            assert(after.last() == c);
            lemma_pieces_not_empty(before);
        }
        if c == '\n' {
            if cr_last {
                let n = char_count(&cur);
                let line = String::from_str(cur.as_str().substring_char(0, n - 1));
                assert(line@ =~= strip_cr(old_cur));
                done.push(line);
            } else {
                done.push(cur);
            }
            cur = String::new();
            cr_last = false;
            proof {
                assert(done@.map_values(|l: String| l@) =~= old_done.push(strip_cr(old_cur)));
                assert(pieces(after).drop_last() =~= pieces(before));
                assert(pieces(after).drop_last().map_values(|l: Seq<char>| strip_cr(l))
                    =~= done@.map_values(|l: String| l@));
            }
        } else {
            push_char(&mut cur, c);
            cr_last = c == '\r';
            proof {
                assert(done@.map_values(|l: String| l@) =~= old_done);
                assert(pieces(after).drop_last() =~= pieces(before).drop_last());
            }
        }
        proof {
            seen = after;
        }
    }
    proof {
        assert(seen =~= text@);
        lemma_pieces_not_empty(text@);
    }
    if !cur.as_str().is_empty() {
        done.push(cur);
    }
    if done.len() == 0 {
        done.push(String::new());
    }
    proof {
        let ended = pieces(text@).drop_last().map_values(|l: Seq<char>| strip_cr(l));
        assert(lines_of(text@) =~= if pieces(text@).last().len() == 0 { ended } else { ended.push(pieces(text@).last()) });
        assert(done@.map_values(|l: String| l@) =~= load_lines(text@));
    }
    done
}

/// Writes `lines` out with a single `'\n'` between neighbours, as a buffer
/// is saved.
pub fn join_lines(lines: &Vec<String>) -> (text: String)
    ensures
        text@ == joined(lines_text(lines@)),
{
    let ghost all = lines@.map_values(|l: String| l@);
    let mut out = String::new();
    let mut i: usize = 0;
    while i < lines.len()
        invariant
            i <= lines@.len(),
            all == lines@.map_values(|l: String| l@),
            out@ == joined(all.take(i as int)),
        decreases lines@.len() - i,
    {
        if i > 0 {
            push_char(&mut out, '\n');
        }
        out.append(lines[i].as_str());
        proof {
            let next = all.take(i + 1);
            assert(next.drop_last() =~= all.take(i as int));
            assert(out@ =~= joined(next));
        }
        i = i + 1;
    }
    assert(all.take(i as int) =~= all);
    out
}

} // verus!
