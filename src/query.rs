//! The query component of a request target, read as a mapping from key to value.
use vstd::prelude::*;

verus! {

/// `k` is the position of the first `c` in `s`.
pub open spec fn first_at(s: Seq<char>, c: char, k: int) -> bool {
    &&& 0 <= k < s.len()
    &&& s[k] == c
    &&& forall|j: int| 0 <= j < k ==> s[j] != c
}

/// The text before and after the first `c` in `s`, where `s` holds a `c`.
pub open spec fn split_first(s: Seq<char>, c: char) -> Option<(Seq<char>, Seq<char>)> {
    if exists|k: int| first_at(s, c, k) {
        let k = choose|k: int| first_at(s, c, k);
        Some((s.take(k), s.skip(k + 1)))
    } else {
        None
    }
}

/// The pieces of `s` between the occurrences of `c`, in order; an empty text is
/// one empty piece.
pub open spec fn split_all(s: Seq<char>, c: char) -> Seq<Seq<char>>
    decreases s.len(),
{
    if s.len() == 0 {
        seq![Seq::empty()]
    } else {
        let init = split_all(s.drop_last(), c);
        if s.last() == c {
            init.push(Seq::empty())
        } else {
            init.drop_last().push(init.last().push(s.last()))
        }
    }
}

/// The query of a request target: the text after its first `?`, up to the
/// next `?` or the end; empty where the target holds no `?`.
pub open spec fn query_part(url: Seq<char>) -> Seq<char> {
    match split_first(url, '?') {
        None => Seq::empty(),
        Some((_, rest)) => match split_first(rest, '?') {
            None => rest,
            Some((q, _)) => q,
        },
    }
}

/// One `key=value` piece of a query, split at its first `=`; a piece without
/// `=`, or with an empty key or an empty value, gives nothing.
pub open spec fn pair_of(piece: Seq<char>) -> Option<(Seq<char>, Seq<char>)> {
    match split_first(piece, '=') {
        Some((k, v)) => if k.len() > 0 && v.len() > 0 {
            Some((k, v))
        } else {
            None
        },
        None => None,
    }
}

/// The pairs that the pieces give, in order.
pub open spec fn pairs_of(pieces: Seq<Seq<char>>) -> Seq<(Seq<char>, Seq<char>)>
    decreases pieces.len(),
{
    if pieces.len() == 0 {
        Seq::empty()
    } else {
        let init = pairs_of(pieces.drop_last());
        match pair_of(pieces.last()) {
            Some(p) => init.push(p),
            None => init,
        }
    }
}

/// The pairs of a query: its `&`-separated pieces, each split at its first `=`.
pub open spec fn query_pairs(q: Seq<char>) -> Seq<(Seq<char>, Seq<char>)> {
    pairs_of(split_all(q, '&'))
}

/// The mapping that a list of pairs builds: where a key repeats, the last
/// pair with that key wins.
pub open spec fn pairs_map(ps: Seq<(Seq<char>, Seq<char>)>) -> Map<Seq<char>, Seq<char>>
    decreases ps.len(),
{
    if ps.len() == 0 {
        Map::empty()
    } else {
        pairs_map(ps.drop_last()).insert(ps.last().0, ps.last().1)
    }
}

/// The views of a list of owned pairs.
pub open spec fn pair_views(v: Seq<(String, String)>) -> Seq<(Seq<char>, Seq<char>)> {
    v.map_values(|p: (String, String)| (p.0@, p.1@))
}

/// The parameters of a query.
pub struct QueryParams {
    pairs: Vec<(String, String)>,
}

impl View for QueryParams {
    type V = Map<Seq<char>, Seq<char>>;

    open spec fn view(&self) -> Map<Seq<char>, Seq<char>> {
        pairs_map(self.pairs())
    }
}

impl QueryParams {
    /// Every pair that was kept, in the order of the query.
    pub closed spec fn pairs(&self) -> Seq<(Seq<char>, Seq<char>)> {
        pair_views(self.pairs@)
    }

    /// The value of `key`: the value of the last pair with that key.
    pub fn get(&self, key: &str) -> (r: Option<String>)
        ensures
            match r {
                Some(v) => self@.contains_key(key@) && v@ == self@[key@],
                None => !self@.contains_key(key@),
            },
    {
        let wanted = key.to_owned();
        let mut i: usize = self.pairs.len();
        while i > 0
            invariant
                i <= self.pairs@.len(),
                wanted@ == key@,
                forall|j: int| i <= j < self.pairs@.len() ==> self.pairs()[j].0 != key@,
            decreases i,
        {
            i -= 1;
            if self.pairs[i].0 == wanted {
                proof {
                    lemma_map_last_wins(self.pairs(), key@, i as int);
                }
                return Some(self.pairs[i].1.clone());
            }
        }
        proof {
            lemma_map_absent(self.pairs(), key@);
        }
        None
    }
}

/// Splits `s` at its first `c`: the text before it and the text after it.
pub fn split_once(s: &str, c: char) -> (r: Option<(&str, &str)>)
    ensures
        match (r, split_first(s@, c)) {
            (Some((a, b)), Some((x, y))) => a@ == x && b@ == y,
            (None, None) => true,
            _ => false,
        },
{
    let n = s.unicode_len();
    let mut i: usize = 0;
    while i < n
        invariant
            n == s@.len(),
            i <= n,
            forall|j: int| 0 <= j < i ==> s@[j] != c,
        decreases n - i,
    {
        if s.get_char(i) == c {
            proof {
                assert(first_at(s@, c, i as int));
                assert forall|k: int| first_at(s@, c, k) implies k == i by {
                    if k < i {
                        assert(s@[k] != c);
                    } else if k > i {
                        assert(s@[i as int] != c);
                    }
                }
            }
            return Some((s.substring_char(0, i), s.substring_char(i + 1, n)));
        }
        i += 1;
    }
    None
}

/// The query of a request target.
pub fn query_string(url: &str) -> (r: &str)
    ensures
        r@ == query_part(url@),
{
    match split_once(url, '?') {
        None => {
            proof {
                reveal_strlit("");
            }
            ""
        },
        Some((_, rest)) => match split_once(rest, '?') {
            None => rest,
            Some((q, _)) => q,
        },
    }
}

/// Appends to `pairs` the pair that `piece` gives, if any.
fn push_pair(pairs: &mut Vec<(String, String)>, piece: &str)
    ensures
        pair_views(final(pairs)@) == match pair_of(piece@) {
            Some(p) => pair_views(old(pairs)@).push(p),
            None => pair_views(old(pairs)@),
        },
{
    if let Some((k, v)) = split_once(piece, '=') {
        if k.unicode_len() > 0 && v.unicode_len() > 0 {
            pairs.push((k.to_owned(), v.to_owned()));
            assert(pair_views(pairs@) =~= pair_views(old(pairs)@).push((k@, v@)));
        }
    }
}

/// Parses a query: splits it at each `&`, splits each piece at its first `=`,
/// and keeps the pieces with a non-empty key and a non-empty value.
pub fn parse_query(query: &str) -> (r: QueryParams)
    ensures
        r.pairs() == query_pairs(query@),
        r@ == pairs_map(query_pairs(query@)),
{
    let n = query.unicode_len();
    let mut pairs: Vec<(String, String)> = Vec::new();
    let mut start: usize = 0;
    let mut i: usize = 0;
    let ghost mut done: Seq<Seq<char>> = Seq::empty();
    assert(pair_views(pairs@) =~= Seq::empty());
    assert(query@.take(0) =~= Seq::<char>::empty());
    assert(done.push(query@.subrange(0, 0)) =~= seq![Seq::<char>::empty()]);
    while i < n
        invariant
            n == query@.len(),
            start <= i <= n,
            split_all(query@.take(i as int), '&') == done.push(query@.subrange(start as int, i as int)),
            pair_views(pairs@) == pairs_of(done),
        decreases n - i,
    {
        let ch = query.get_char(i);
        let ghost cur = query@.subrange(start as int, i as int);
        assert(query@.take(i + 1).drop_last() =~= query@.take(i as int));
        if ch == '&' {
            let piece = query.substring_char(start, i);
            push_pair(&mut pairs, piece);
            proof {
                assert(done.push(piece@).drop_last() =~= done);
                done = done.push(piece@);
                assert(query@.subrange(i + 1, i + 1) =~= Seq::<char>::empty());
            }
            start = i + 1;
        } else {
            proof {
                assert(done.push(cur).drop_last() =~= done);
                assert(cur.push(ch) =~= query@.subrange(start as int, i + 1));
            }
        }
        i += 1;
    }
    let piece = query.substring_char(start, n);
    push_pair(&mut pairs, piece);
    proof {
        assert(query@.take(n as int) =~= query@);
        assert(done.push(piece@).drop_last() =~= done);
    }
    QueryParams { pairs }
}

/// A key that no pair holds is absent from the mapping.
proof fn lemma_map_absent(ps: Seq<(Seq<char>, Seq<char>)>, key: Seq<char>)
    requires
        forall|j: int| 0 <= j < ps.len() ==> ps[j].0 != key,
    ensures
        !pairs_map(ps).contains_key(key),
    decreases ps.len(),
{
    if ps.len() > 0 {
        lemma_map_absent(ps.drop_last(), key);
    }
}

/// The mapping gives a key the value of the last pair that holds it.
proof fn lemma_map_last_wins(ps: Seq<(Seq<char>, Seq<char>)>, key: Seq<char>, i: int)
    requires
        0 <= i < ps.len(),
        ps[i].0 == key,
        forall|j: int| i < j < ps.len() ==> ps[j].0 != key,
    ensures
        pairs_map(ps).contains_key(key),
        pairs_map(ps)[key] == ps[i].1,
    decreases ps.len(),
{
    if i < ps.len() - 1 {
        lemma_map_last_wins(ps.drop_last(), key, i);
    }
}

} // verus!
