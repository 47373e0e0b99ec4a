use vstd::prelude::*;

verus! {

/// Whitespace, as the command grammar splits words on it.
pub open spec fn is_ws(c: char) -> bool {
    c == ' ' || c == '\t' || c == '\n' || c == '\r'
}

/// ASCII lower-casing of a single character; every other character is
/// unchanged.
pub open spec fn lower_char(c: char) -> char {
    if c == 'A' {
        'a'
    } else if c == 'B' {
        'b'
    } else if c == 'C' {
        'c'
    } else if c == 'D' {
        'd'
    } else if c == 'E' {
        'e'
    } else if c == 'F' {
        'f'
    } else if c == 'G' {
        'g'
    } else if c == 'H' {
        'h'
    } else if c == 'I' {
        'i'
    } else if c == 'J' {
        'j'
    } else if c == 'K' {
        'k'
    } else if c == 'L' {
        'l'
    } else if c == 'M' {
        'm'
    } else if c == 'N' {
        'n'
    } else if c == 'O' {
        'o'
    } else if c == 'P' {
        'p'
    } else if c == 'Q' {
        'q'
    } else if c == 'R' {
        'r'
    } else if c == 'S' {
        's'
    } else if c == 'T' {
        't'
    } else if c == 'U' {
        'u'
    } else if c == 'V' {
        'v'
    } else if c == 'W' {
        'w'
    } else if c == 'X' {
        'x'
    } else if c == 'Y' {
        'y'
    } else if c == 'Z' {
        'z'
    } else {
        c
    }
}

/// ASCII lower-casing of a character sequence.
pub open spec fn lower_seq(s: Seq<char>) -> Seq<char> {
    Seq::new(s.len(), |i: int| lower_char(s[i]))
}

/// Index of the first whitespace character, or the length if there is none.
pub open spec fn first_ws(s: Seq<char>) -> int
    decreases s.len(),
{
    if s.len() == 0 {
        0
    } else if is_ws(s[0]) {
        0
    } else {
        1 + first_ws(s.drop_first())
    }
}

/// Index of the first `'@'`, or the length if there is none.
pub open spec fn first_at(s: Seq<char>) -> int
    decreases s.len(),
{
    if s.len() == 0 {
        0
    } else if s[0] == '@' {
        0
    } else {
        1 + first_at(s.drop_first())
    }
}

pub proof fn lemma_first_ws_props(s: Seq<char>)
    ensures
        0 <= first_ws(s) <= s.len(),
        forall|j: int| 0 <= j < first_ws(s) ==> !is_ws(s[j]),
        first_ws(s) < s.len() ==> is_ws(s[first_ws(s)]),
    decreases s.len(),
{
    if s.len() == 0 {
    } else if is_ws(s[0]) {
    } else {
        let d = s.drop_first();
        lemma_first_ws_props(d);
        assert forall|j: int| 0 <= j < first_ws(s) implies !is_ws(s[j]) by {
            if j > 0 {
                assert(s[j] == d[j - 1]);
            }
        }
        if first_ws(s) < s.len() {
            assert(s[first_ws(s)] == d[first_ws(d)]);
        }
    }
}

pub proof fn lemma_first_ws_unique(s: Seq<char>, i: int)
    requires
        0 <= i <= s.len(),
        forall|j: int| 0 <= j < i ==> !is_ws(s[j]),
        i < s.len() ==> is_ws(s[i]),
    ensures
        i == first_ws(s),
    decreases s.len(),
{
    if s.len() == 0 {
    } else if is_ws(s[0]) {
        assert(i == 0);
    } else {
        let d = s.drop_first();
        assert(i >= 1);
        assert forall|j: int| 0 <= j < i - 1 implies !is_ws(d[j]) by {
            assert(d[j] == s[j + 1]);
        }
        if i - 1 < d.len() {
            assert(d[i - 1] == s[i]);
        }
        lemma_first_ws_unique(d, i - 1);
    }
}

pub proof fn lemma_first_at_props(s: Seq<char>)
    ensures
        0 <= first_at(s) <= s.len(),
        forall|j: int| 0 <= j < first_at(s) ==> s[j] != '@',
        first_at(s) < s.len() ==> s[first_at(s)] == '@',
    decreases s.len(),
{
    if s.len() == 0 {
    } else if s[0] == '@' {
    } else {
        let d = s.drop_first();
        lemma_first_at_props(d);
        assert forall|j: int| 0 <= j < first_at(s) implies s[j] != '@' by {
            if j > 0 {
                assert(s[j] == d[j - 1]);
            }
        }
        if first_at(s) < s.len() {
            assert(s[first_at(s)] == d[first_at(d)]);
        }
    }
}

pub proof fn lemma_first_at_unique(s: Seq<char>, i: int)
    requires
        0 <= i <= s.len(),
        forall|j: int| 0 <= j < i ==> s[j] != '@',
        i < s.len() ==> s[i] == '@',
    ensures
        i == first_at(s),
    decreases s.len(),
{
    if s.len() == 0 {
    } else if s[0] == '@' {
        assert(i == 0);
    } else {
        let d = s.drop_first();
        assert(i >= 1);
        assert forall|j: int| 0 <= j < i - 1 implies d[j] != '@' by {
            assert(d[j] == s[j + 1]);
        }
        if i - 1 < d.len() {
            assert(d[i - 1] == s[i]);
        }
        lemma_first_at_unique(d, i - 1);
    }
}

pub fn is_ws_char(c: char) -> (r: bool)
    ensures
        r == is_ws(c),
{
    c == ' ' || c == '\t' || c == '\n' || c == '\r'
}

pub fn lower_char_exec(c: char) -> (r: char)
    ensures
        r == lower_char(c),
{
    match c {
        'A' => 'a',
        'B' => 'b',
        'C' => 'c',
        'D' => 'd',
        'E' => 'e',
        'F' => 'f',
        'G' => 'g',
        'H' => 'h',
        'I' => 'i',
        'J' => 'j',
        'K' => 'k',
        'L' => 'l',
        'M' => 'm',
        'N' => 'n',
        'O' => 'o',
        'P' => 'p',
        'Q' => 'q',
        'R' => 'r',
        'S' => 's',
        'T' => 't',
        'U' => 'u',
        'V' => 'v',
        'W' => 'w',
        'X' => 'x',
        'Y' => 'y',
        'Z' => 'z',
        _ => c,
    }
}

/// Index of the first whitespace character of `s`, or its length.
pub fn find_first_ws(s: &str) -> (i: usize)
    ensures
        i as int == first_ws(s@),
{
    let n = s.unicode_len();
    let mut i: usize = 0;
    while i < n
        invariant
            n == s@.len(),
            0 <= i <= n,
            forall|j: int| 0 <= j < i ==> !is_ws(s@[j]),
        decreases n - i,
    {
        if is_ws_char(s.get_char(i)) {
            proof {
                lemma_first_ws_unique(s@, i as int);
            }
            return i;
        }
        i = i + 1;
    }
    proof {
        lemma_first_ws_unique(s@, n as int);
    }
    n
}

/// Whether every character of `s` from `from` on is whitespace.
pub fn all_ws_from(s: &str, from: usize) -> (r: bool)
    requires
        from <= s@.len(),
    ensures
        r == (forall|j: int| from <= j < s@.len() ==> is_ws(s@[j])),
{
    let n = s.unicode_len();
    let mut i: usize = from;
    while i < n
        invariant
            n == s@.len(),
            from <= i <= n,
            forall|j: int| from <= j < i ==> is_ws(s@[j]),
        decreases n - i,
    {
        if !is_ws_char(s.get_char(i)) {
            return false;
        }
        i = i + 1;
    }
    true
}

/// Index of the first `'@'` of `s` between `from` and `to`, relative to
/// `from`; `to - from` if there is none.
pub fn find_first_at_between(s: &str, from: usize, to: usize) -> (i: usize)
    requires
        from <= to <= s@.len(),
    ensures
        i as int == first_at(s@.subrange(from as int, to as int)),
        i <= to - from,
{
    let ghost sub = s@.subrange(from as int, to as int);
    let mut k: usize = 0;
    while from + k < to
        invariant
            from <= to <= s@.len(),
            sub == s@.subrange(from as int, to as int),
            0 <= k <= to - from,
            forall|j: int| 0 <= j < k ==> sub[j] != '@',
        decreases to - from - k,
    {
        if s.get_char(from + k) == '@' {
            proof {
                assert(sub[k as int] == s@[from + k]);
                lemma_first_at_unique(sub, k as int);
            }
            return k;
        }
        proof {
            assert(sub[k as int] == s@[from + k]);
        }
        k = k + 1;
    }
    proof {
        lemma_first_at_unique(sub, (to - from) as int);
    }
    to - from
}

/// Whether the characters of `s` between `from` and `to` equal the
/// characters of `word`, ignoring ASCII case on both sides.
pub fn range_eq_ignore_case(s: &str, from: usize, to: usize, word: &str) -> (r: bool)
    requires
        from <= to <= s@.len(),
    ensures
        r == (lower_seq(s@.subrange(from as int, to as int)) == lower_seq(word@)),
{
    let ghost sub = s@.subrange(from as int, to as int);
    let n = word.unicode_len();
    if to - from != n {
        proof {
            assert(lower_seq(sub).len() != lower_seq(word@).len());
        }
        return false;
    }
    let mut i: usize = 0;
    while i < n
        invariant
            from <= to <= s@.len(),
            n == word@.len(),
            to - from == n,
            sub == s@.subrange(from as int, to as int),
            0 <= i <= n,
            forall|j: int| 0 <= j < i ==> lower_char(sub[j]) == lower_char(word@[j]),
        decreases n - i,
    {
        let a = lower_char_exec(s.get_char(from + i));
        let b = lower_char_exec(word.get_char(i));
        proof {
            assert(sub[i as int] == s@[from + i]);
        }
        if a != b {
            proof {
                assert(lower_seq(sub)[i as int] != lower_seq(word@)[i as int]);
            }
            return false;
        }
        i = i + 1;
    }
    proof {
        assert(lower_seq(sub) =~= lower_seq(word@));
    }
    true
}

} // verus!
