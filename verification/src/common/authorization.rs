use vstd::prelude::*;
use vstd::string::*;

verus! {

/// The pieces of `s` between its space characters, as `str::split(" ")`
/// yields them: `n` spaces give `n + 1` pieces, some of them possibly empty.
pub open spec fn split_on_space(s: Seq<char>) -> Seq<Seq<char>>
    decreases s.len(),
{
    if s.len() == 0 {
        seq![Seq::<char>::empty()]
    } else {
        let rest = split_on_space(s.drop_first());
        if s[0] == ' ' {
            seq![Seq::<char>::empty()] + rest
        } else {
            rest.update(0, seq![s[0]] + rest[0])
        }
    }
}

/// The authorization scheme that the service accepts.
pub open spec fn bearer_scheme() -> Seq<char> {
    seq!['B', 'e', 'a', 'r', 'e', 'r']
}

/// The token of an `Authorization` header value: the header splits on
/// spaces into exactly two pieces and the first is `Bearer`.
pub open spec fn bearer_token_of(header: Seq<char>) -> Option<Seq<char>> {
    let parts = split_on_space(header);
    if parts.len() == 2 && parts[0] == bearer_scheme() {
        Some(parts[1])
    } else {
        None
    }
}

/// Whether `s` holds no space character.
pub open spec fn has_no_space(s: Seq<char>) -> bool {
    forall|i: int| 0 <= i < s.len() ==> s[i] != ' '
}

proof fn lemma_split_len_positive(s: Seq<char>)
    ensures
        split_on_space(s).len() >= 1,
    decreases s.len(),
{
    if s.len() > 0 {
        lemma_split_len_positive(s.drop_first());
    }
}

/// A string without spaces is a single piece.
proof fn lemma_split_no_space(s: Seq<char>)
    requires
        has_no_space(s),
    ensures
        split_on_space(s) == seq![s],
    decreases s.len(),
{
    if s.len() > 0 {
        lemma_split_no_space(s.drop_first());
        assert(seq![s[0]] + s.drop_first() =~= s);
    } else {
        assert(s =~= Seq::<char>::empty());
    }
}

/// A string that holds a space splits into at least two pieces.
proof fn lemma_split_with_space(s: Seq<char>, k: int)
    requires
        0 <= k < s.len(),
        s[k] == ' ',
    ensures
        split_on_space(s).len() >= 2,
    decreases s.len(),
{
    if k == 0 {
        lemma_split_len_positive(s.drop_first());
    } else {
        lemma_split_with_space(s.drop_first(), k - 1);
    }
}

/// When `p` is the first space of `s`, the first piece is what stands
/// before it and the others are the pieces of what follows it.
proof fn lemma_split_at_first_space(s: Seq<char>, p: int)
    requires
        0 <= p < s.len(),
        s[p] == ' ',
        has_no_space(s.take(p)),
    ensures
        split_on_space(s) == seq![s.take(p)] + split_on_space(s.skip(p + 1)),
    decreases p,
{
    if p == 0 {
        assert(s.drop_first() =~= s.skip(1));
        assert(s.take(0) =~= Seq::<char>::empty());
    } else {
        let t = s.drop_first();
        assert(s.take(p)[0] == s[0]);
        assert(s[0] != ' ');
        assert(t.take(p - 1) =~= s.take(p).drop_first());
        assert(has_no_space(t.take(p - 1)));
        lemma_split_at_first_space(t, p - 1);
        assert(t.skip(p) =~= s.skip(p + 1));
        assert(seq![s[0]] + t.take(p - 1) =~= s.take(p));
        let rest = split_on_space(t);
        assert(rest[0] == t.take(p - 1));
        assert(split_on_space(s) =~= seq![s.take(p)] + split_on_space(s.skip(p + 1)));
    }
}

/// A header that holds exactly one space splits at it.
proof fn lemma_split_single_space(s: Seq<char>, p: int)
    requires
        0 <= p < s.len(),
        s[p] == ' ',
        has_no_space(s.take(p)),
        has_no_space(s.skip(p + 1)),
    ensures
        split_on_space(s) == seq![s.take(p), s.skip(p + 1)],
{
    lemma_split_at_first_space(s, p);
    lemma_split_no_space(s.skip(p + 1));
    assert(seq![s.take(p)] + seq![s.skip(p + 1)] =~= seq![s.take(p), s.skip(p + 1)]);
}

/// Law: the header `Bearer <token>` yields `<token>` whenever the token
/// holds no space.
pub proof fn lemma_bearer_header_yields_token(token: Seq<char>)
    requires
        has_no_space(token),
    ensures
        bearer_token_of(bearer_scheme() + seq![' '] + token) == Some(token),
{
    let h = bearer_scheme() + seq![' '] + token;
    assert(h.take(6) =~= bearer_scheme());
    assert(h.skip(7) =~= token);
    assert(h[6] == ' ');
    lemma_split_single_space(h, 6);
}

/// Law: a header yields a token only when it is `Bearer`, one space and
/// the token, and the token then holds no space.
pub proof fn lemma_bearer_token_shape(header: Seq<char>)
    requires
        bearer_token_of(header) is Some,
    ensures
        has_no_space(bearer_token_of(header)->0),
        header == bearer_scheme() + seq![' '] + bearer_token_of(header)->0,
{
    if has_no_space(header) {
        lemma_split_no_space(header);
        assert(false);
    } else {
        let k = choose|k: int| 0 <= k < header.len() && header[k] == ' ';
        let p = first_space(header, k);
        lemma_split_at_first_space(header, p);
        let rest = header.skip(p + 1);
        if !has_no_space(rest) {
            let q = choose|q: int| 0 <= q < rest.len() && rest[q] == ' ';
            lemma_split_with_space(rest, q);
            assert(false);
        }
        lemma_split_no_space(rest);
        assert(header.take(p) == bearer_scheme());
        assert(header =~= header.take(p) + seq![' '] + rest);
    }
}

/// The index of the first space of `s`, given one at `k`.
proof fn first_space(s: Seq<char>, k: int) -> (p: int)
    requires
        0 <= k < s.len(),
        s[k] == ' ',
    ensures
        0 <= p <= k,
        s[p] == ' ',
        has_no_space(s.take(p)),
    decreases k,
{
    if has_no_space(s.take(k)) {
        k
    } else {
        let j = choose|j: int| 0 <= j < s.take(k).len() && s.take(k)[j] == ' ';
        first_space(s, j)
    }
}

/// The token of the `Authorization` header value `header`, if the header
/// is `Bearer` followed by one space and a token without spaces.
pub fn bearer_token(header: &str) -> (res: Option<&str>)
    ensures
        res matches Some(t) ==> bearer_token_of(header@) == Some(t@),
        res is None ==> bearer_token_of(header@) is None,
{
    let n = header.unicode_len();
    let mut p: usize = 0;
    while p < n && header.get_char(p) != ' '
        invariant
            n == header@.len(),
            p <= n,
            has_no_space(header@.take(p as int)),
        decreases n - p,
    {
        assert(header@.take(p + 1) =~= header@.take(p as int).push(header@[p as int]));
        p = p + 1;
    }
    if p == n {
        proof {
            assert(header@.take(n as int) =~= header@);
            lemma_split_no_space(header@);
        }
        return None;
    }
    let mut q: usize = p + 1;
    while q < n && header.get_char(q) != ' '
        invariant
            n == header@.len(),
            p < q <= n,
            has_no_space(header@.subrange(p + 1, q as int)),
        decreases n - q,
    {
        assert(header@.subrange(p + 1, q + 1) =~= header@.subrange(p + 1, q as int).push(header@[q as int]));
        q = q + 1;
    }
    proof {
        lemma_split_at_first_space(header@, p as int);
    }
    if q < n {
        proof {
            let rest = header@.skip(p + 1);
            assert(rest[q - p - 1] == ' ');
            lemma_split_with_space(rest, q - p - 1);
        }
        return None;
    }
    proof {
        assert(header@.subrange(p + 1, n as int) =~= header@.skip(p + 1));
        lemma_split_no_space(header@.skip(p + 1));
    }
    let is_bearer = p == 6 && header.get_char(0) == 'B' && header.get_char(1) == 'e'
        && header.get_char(2) == 'a' && header.get_char(3) == 'r' && header.get_char(4) == 'e'
        && header.get_char(5) == 'r';
    if is_bearer {
        assert(header@.take(6) =~= bearer_scheme());
        let token = header.substring_char(p + 1, n);
        assert(token@ =~= header@.skip(p + 1));
        Some(token)
    } else {
        proof {
            if header@.take(p as int) == bearer_scheme() {
                assert(header@.take(p as int).len() == 6);
                assert(header@[0] == header@.take(p as int)[0]);
                assert(header@[1] == header@.take(p as int)[1]);
                assert(header@[2] == header@.take(p as int)[2]);
                assert(header@[3] == header@.take(p as int)[3]);
                assert(header@[4] == header@.take(p as int)[4]);
                assert(header@[5] == header@.take(p as int)[5]);
            }
        }
        None
    }
}

} // verus!
