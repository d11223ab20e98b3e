//! Small verified string utilities shared by the command grammar and the
//! session loop: whitespace trimming, string equality, and joining a run of
//! tokens with single spaces.

use vstd::prelude::*;

verus! {

/// The characters treated as blank space when a line is trimmed: the
/// Unicode `White_Space` set, as `char::is_whitespace` has it.
pub open spec fn is_space_char(c: char) -> bool {
    let u = c as u32;
    (0x09 <= u && u <= 0x0d) || u == 0x20 || u == 0x85 || u == 0xa0 || u == 0x1680 || (0x2000 <= u
        && u <= 0x200a) || u == 0x2028 || u == 0x2029 || u == 0x202f || u == 0x205f || u == 0x3000
}

fn is_space(c: char) -> (r: bool)
    ensures
        r == is_space_char(c),
{
    let u = c as u32;
    (0x09 <= u && u <= 0x0d) || u == 0x20 || u == 0x85 || u == 0xa0 || u == 0x1680 || (0x2000 <= u
        && u <= 0x200a) || u == 0x2028 || u == 0x2029 || u == 0x202f || u == 0x205f || u == 0x3000
}

/// The sequence with the leading run of blank characters removed.
pub open spec fn trim_start_spec(s: Seq<char>) -> Seq<char>
    decreases s.len(),
{
    if s.len() > 0 && is_space_char(s[0]) {
        trim_start_spec(s.skip(1))
    } else {
        s
    }
}

/// The sequence with the trailing run of blank characters removed.
pub open spec fn trim_end_spec(s: Seq<char>) -> Seq<char>
    decreases s.len(),
{
    if s.len() > 0 && is_space_char(s[s.len() - 1]) {
        trim_end_spec(s.take(s.len() - 1))
    } else {
        s
    }
}

/// The sequence with blank characters removed from both ends.
pub open spec fn trim_spec(s: Seq<char>) -> Seq<char> {
    trim_end_spec(trim_start_spec(s))
}

proof fn lemma_trim_start_drops_spaces(s: Seq<char>, k: int)
    requires
        0 <= k <= s.len(),
        forall|m: int| 0 <= m < k ==> is_space_char(s[m]),
    ensures
        trim_start_spec(s) == trim_start_spec(s.skip(k)),
    decreases k,
{
    if k > 0 {
        assert(is_space_char(s[0]));
        lemma_trim_start_drops_spaces(s.skip(1), k - 1);
        assert(s.skip(1).skip(k - 1) =~= s.skip(k));
    } else {
        assert(s.skip(0) =~= s);
    }
}

proof fn lemma_trim_end_drops_spaces(s: Seq<char>, k: int)
    requires
        0 <= k <= s.len(),
        forall|m: int| k <= m < s.len() ==> is_space_char(s[m]),
    ensures
        trim_end_spec(s) == trim_end_spec(s.take(k)),
    decreases s.len() - k,
{
    if k < s.len() {
        assert(is_space_char(s[s.len() - 1]));
        lemma_trim_end_drops_spaces(s.take(s.len() - 1), k);
        assert(s.take(s.len() - 1).take(k) =~= s.take(k));
    } else {
        assert(s.take(s.len() as int) =~= s);
    }
}

/// A line of blank characters only trims to the empty sequence.
pub proof fn lemma_trim_blank(s: Seq<char>)
    requires
        forall|m: int| 0 <= m < s.len() ==> is_space_char(s[m]),
    ensures
        trim_spec(s).len() == 0,
{
    lemma_trim_start_drops_spaces(s, s.len() as int);
    assert(s.skip(s.len() as int) =~= Seq::<char>::empty());
}

/// Removes blank characters from both ends of a string.
pub fn trim_str(s: &str) -> (r: &str)
    ensures
        r@ == trim_spec(s@),
{
    let n: usize = s.unicode_len();
    let mut i: usize = 0;
    while i < n && is_space(s.get_char(i))
        invariant
            0 <= i <= n,
            n == s@.len(),
            forall|m: int| 0 <= m < i ==> is_space_char(s@[m]),
        decreases n - i,
    {
        i = i + 1;
    }
    proof {
        lemma_trim_start_drops_spaces(s@, i as int);
    }
    if i == n {
        proof {
            assert(s@.skip(n as int) =~= Seq::<char>::empty());
        }
        let r = s.substring_char(n, n);
        proof {
            assert(r@ =~= Seq::<char>::empty());
        }
        r
    } else {
        let mut j: usize = n;
        while j > i && is_space(s.get_char(j - 1))
            invariant
                i < j <= n,
                n == s@.len(),
                i < n,
                !is_space_char(s@[i as int]),
                forall|m: int| j <= m < n ==> is_space_char(s@[m]),
            decreases j,
        {
            j = j - 1;
        }
        proof {
            let core = s@.skip(i as int);
            lemma_trim_end_drops_spaces(core, j - i);
            assert(trim_start_spec(s@) == core);
            assert(core.take(j - i) =~= s@.subrange(i as int, j as int));
            let kept = s@.subrange(i as int, j as int);
            assert(kept.len() > 0);
            assert(!is_space_char(kept[kept.len() - 1]));
            assert(trim_end_spec(kept) == kept);
        }
        s.substring_char(i, j)
    }
}

/// Whether two string slices hold the same characters.
pub fn str_eq(a: &str, b: &str) -> (r: bool)
    ensures
        r == (a@ == b@),
{
    let sa = String::from_str(a);
    let sb = String::from_str(b);
    sa == sb
}

/// The given token sequences joined into one sequence with a single space
/// between neighbours.
pub open spec fn join_spec(parts: Seq<Seq<char>>) -> Seq<char>
    decreases parts.len(),
{
    if parts.len() == 0 {
        Seq::empty()
    } else if parts.len() == 1 {
        parts[0]
    } else {
        parts[0] + seq![' '] + join_spec(parts.skip(1))
    }
}

proof fn lemma_join_push(parts: Seq<Seq<char>>, x: Seq<char>)
    requires
        parts.len() >= 1,
    ensures
        join_spec(parts.push(x)) == join_spec(parts) + seq![' '] + x,
    decreases parts.len(),
{
    if parts.len() == 1 {
        assert(parts.push(x)[0] == parts[0]);
        assert(parts.push(x).skip(1) =~= seq![x]);
        assert(join_spec(seq![x]) == x);
        assert(join_spec(parts.push(x)) == parts[0] + seq![' '] + x);
        assert(join_spec(parts.push(x)) =~= join_spec(parts) + seq![' '] + x);
    } else {
        lemma_join_push(parts.skip(1), x);
        assert(parts.push(x).skip(1) =~= parts.skip(1).push(x));
        assert(parts.push(x)[0] == parts[0]);
        assert(join_spec(parts.push(x)) == parts[0] + seq![' '] + (join_spec(parts.skip(1))
            + seq![' '] + x));
        assert(join_spec(parts) == parts[0] + seq![' '] + join_spec(parts.skip(1)));
        assert(join_spec(parts.push(x)) =~= join_spec(parts) + seq![' '] + x);
    }
}

/// Joins the tokens from position `start` onward with single spaces.
pub fn join_tokens(tokens: &Vec<String>, start: usize) -> (r: String)
    requires
        start < tokens@.len(),
    ensures
        r@ == join_spec(tokens.deep_view().skip(start as int)),
{
    let n: usize = tokens.len();
    let mut r: String = tokens[start].clone();
    let mut i: usize = start + 1;
    proof {
        assert(tokens.deep_view().subrange(start as int, start + 1) =~= seq![
            tokens.deep_view()[start as int],
        ]);
        assert(tokens.deep_view()[start as int] == tokens@[start as int]@);
    }
    while i < n
        invariant
            start < i <= n,
            n == tokens@.len(),
            r@ == join_spec(tokens.deep_view().subrange(start as int, i as int)),
        decreases n - i,
    {
        proof {
            reveal_strlit(" ");
            assert(" "@ =~= seq![' ']);
            assert(tokens.deep_view()[i as int] == tokens@[i as int]@);
            lemma_join_push(
                tokens.deep_view().subrange(start as int, i as int),
                tokens.deep_view()[i as int],
            );
            assert(tokens.deep_view().subrange(start as int, i as int).push(
                tokens.deep_view()[i as int],
            ) =~= tokens.deep_view().subrange(start as int, i + 1));
        }
        r.append(" ");
        r.append(tokens[i].as_str());
        i = i + 1;
    }
    proof {
        assert(tokens.deep_view().subrange(start as int, tokens@.len() as int)
            =~= tokens.deep_view().skip(start as int));
    }
    r
}

} // verus!
