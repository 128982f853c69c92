//! Paths written as `::`-separated segments.
use vstd::prelude::*;

verus! {

/// Splits `rest` at each `::`, scanning from the left; `cur` is the segment read so far.
pub open spec fn split_segments_from(rest: Seq<char>, cur: Seq<char>) -> Seq<Seq<char>>
    decreases rest.len(),
{
    if rest.len() == 0 {
        seq![cur]
    } else if rest.len() >= 2 && rest[0] == ':' && rest[1] == ':' {
        seq![cur] + split_segments_from(rest.skip(2), Seq::empty())
    } else {
        split_segments_from(rest.skip(1), cur.push(rest[0]))
    }
}

/// The segments of `s` separated by `::`; a string with no `::` is a single segment.
pub open spec fn split_segments(s: Seq<char>) -> Seq<Seq<char>> {
    split_segments_from(s, Seq::empty())
}

/// The segments written one after the other with `::` between them.
pub open spec fn join_segments(segs: Seq<Seq<char>>) -> Seq<char>
    decreases segs.len(),
{
    if segs.len() == 0 {
        Seq::empty()
    } else if segs.len() == 1 {
        segs[0]
    } else {
        join_segments(segs.drop_last()) + "::"@ + segs.last()
    }
}

/// A path: the segments of a fully qualified name.
pub struct Path {
    pub segments: Vec<String>,
}

impl View for Path {
    type V = Seq<Seq<char>>;

    open spec fn view(&self) -> Seq<Seq<char>> {
        self.segments@.map_values(|s: String| s@)
    }
}

/// Source text of the path.
pub open spec fn path_text(p: Seq<Seq<char>>) -> Seq<char> {
    join_segments(p)
}

proof fn lemma_join_prepend(x: Seq<char>, rest: Seq<Seq<char>>)
    requires
        rest.len() > 0,
    ensures
        join_segments(seq![x] + rest) == x + "::"@ + join_segments(rest),
    decreases rest.len(),
{
    let all = seq![x] + rest;
    if rest.len() == 1 {
        assert(all.drop_last() =~= seq![x]);
        assert(all.last() == rest[0]);
        assert(join_segments(seq![x]) == x);
        assert(join_segments(rest) == rest[0]);
    } else {
        lemma_join_prepend(x, rest.drop_last());
        assert(all.drop_last() =~= seq![x] + rest.drop_last());
        assert(all.last() == rest.last());
        assert(join_segments(rest) == join_segments(rest.drop_last()) + "::"@ + rest.last());
        assert(join_segments(all) == join_segments(all.drop_last()) + "::"@ + all.last());
        assert(x + "::"@ + join_segments(rest.drop_last()) + "::"@ + rest.last() =~= x + "::"@ + (
        join_segments(rest.drop_last()) + "::"@ + rest.last()));
    }
}

proof fn lemma_split_from_join(rest: Seq<char>, cur: Seq<char>)
    ensures
        split_segments_from(rest, cur).len() > 0,
        join_segments(split_segments_from(rest, cur)) == cur + rest,
    decreases rest.len(),
{
    reveal_strlit("::");
    if rest.len() == 0 {
        assert(cur + rest =~= cur);
    } else if rest.len() >= 2 && rest[0] == ':' && rest[1] == ':' {
        let tail = split_segments_from(rest.skip(2), Seq::empty());
        lemma_split_from_join(rest.skip(2), Seq::empty());
        lemma_join_prepend(cur, tail);
        assert(Seq::<char>::empty() + rest.skip(2) =~= rest.skip(2));
        assert(cur + "::"@ + rest.skip(2) =~= cur + rest);
    } else {
        lemma_split_from_join(rest.skip(1), cur.push(rest[0]));
        assert(cur.push(rest[0]) + rest.skip(1) =~= cur + rest);
    }
}

/// Joining the segments of a name with `::` gives back the name.
pub proof fn lemma_join_split(s: Seq<char>)
    ensures
        join_segments(split_segments(s)) == s,
{
    lemma_split_from_join(s, Seq::empty());
    assert(Seq::<char>::empty() + s =~= s);
}

/// Splits a fully qualified name at each `::` into the segments of a path.
pub fn fqn_to_path(fqn: &str) -> (path: Path)
    ensures
        path@ == split_segments(fqn@),
{
    let n = fqn.unicode_len();
    let mut segments: Vec<String> = Vec::new();
    let mut start: usize = 0;
    let mut i: usize = 0;
    proof {
        assert(fqn@.skip(0) =~= fqn@);
        assert(fqn@.subrange(0, 0) =~= Seq::<char>::empty());
        assert(segments@.map_values(|s: String| s@) =~= Seq::<Seq<char>>::empty());
        assert(Seq::<Seq<char>>::empty() + split_segments(fqn@) =~= split_segments(fqn@));
    }
    while i < n
        invariant
            n == fqn@.len(),
            start <= i <= n,
            split_segments(fqn@) == segments@.map_values(|s: String| s@)
                + split_segments_from(fqn@.skip(i as int), fqn@.subrange(start as int, i as int)),
        decreases n - i,
    {
        let ghost rest = fqn@.skip(i as int);
        let ghost cur = fqn@.subrange(start as int, i as int);
        let c = fqn.get_char(i);
        if c == ':' && i + 1 < n && fqn.get_char(i + 1) == ':' {
            let seg = String::from_str(fqn.substring_char(start, i));
            let ghost old_segs = segments@.map_values(|s: String| s@);
            segments.push(seg);
            proof {
                assert(rest[0] == ':' && rest[1] == ':');
                assert(rest.skip(2) =~= fqn@.skip(i + 2));
                assert(fqn@.subrange(i + 2, i + 2) =~= Seq::<char>::empty());
                assert(segments@.map_values(|s: String| s@) =~= old_segs + seq![cur]);
            }
            i = i + 2;
            start = i;
        } else {
            proof {
                assert(rest.skip(1) =~= fqn@.skip(i + 1));
                assert(cur.push(rest[0]) =~= fqn@.subrange(start as int, i + 1));
            }
            i = i + 1;
        }
    }
    let last = String::from_str(fqn.substring_char(start, n));
    let ghost old_segs = segments@.map_values(|s: String| s@);
    segments.push(last);
    proof {
        assert(fqn@.skip(n as int) =~= Seq::<char>::empty());
        assert(segments@.map_values(|s: String| s@) =~= old_segs + seq![
            fqn@.subrange(start as int, n as int),
        ]);
    }
    Path { segments }
}

impl Path {
    /// Appends the path's source text to `tokens`.
    pub fn to_tokens(&self, tokens: &mut String)
        ensures
            final(tokens)@ == old(tokens)@ + path_text(self@),
    {
        let n = self.segments.len();
        let mut i: usize = 0;
        while i < n
            invariant
                n == self@.len(),
                i <= n,
                tokens@ == old(tokens)@ + join_segments(self@.take(i as int)),
            decreases n - i,
        {
            if i > 0 {
                tokens.append("::");
            }
            tokens.append(self.segments[i].as_str());
            proof {
                assert(self@.take(i + 1).drop_last() =~= self@.take(i as int));
                assert(self@[i as int] == self.segments@[i as int]@);
                if i == 0 {
                    assert(self@.take(1)[0] == self@[0]);
                }
            }
            i = i + 1;
        }
        proof {
            assert(self@.take(n as int) =~= self@);
        }
    }
}

} // verus!
