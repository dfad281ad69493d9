//! The text of the players' commands: white space, words, and the name of a square.
use vstd::prelude::*;

verus! {

/// The characters that are white space (the Unicode property `White_Space`).
pub open spec fn is_ws(c: char) -> bool {
    let n = c as u32;
    ||| 0x09 <= n <= 0x0d
    ||| n == 0x20
    ||| n == 0x85
    ||| n == 0xa0
    ||| n == 0x1680
    ||| 0x2000 <= n <= 0x200a
    ||| n == 0x2028
    ||| n == 0x2029
    ||| n == 0x202f
    ||| n == 0x205f
    ||| n == 0x3000
}

/// `s` without its leading white space.
pub open spec fn trim_start(s: Seq<char>) -> Seq<char>
    decreases s.len(),
{
    if s.len() > 0 && is_ws(s[0]) {
        trim_start(s.drop_first())
    } else {
        s
    }
}

/// `s` without its trailing white space.
pub open spec fn trim_end(s: Seq<char>) -> Seq<char>
    decreases s.len(),
{
    if s.len() > 0 && is_ws(s.last()) {
        trim_end(s.drop_last())
    } else {
        s
    }
}

/// `s` without its leading and trailing white space.
pub open spec fn trim(s: Seq<char>) -> Seq<char> {
    trim_end(trim_start(s))
}

/// The index of the first blank (`' '`) in `s`, or the length of `s` when it has none.
pub open spec fn space_index(s: Seq<char>) -> int
    decreases s.len(),
{
    if s.len() == 0 {
        0
    } else if s[0] == ' ' {
        0
    } else {
        1 + space_index(s.drop_first())
    }
}

/// The words of `s` between its blanks, each blank separating two words (so that two
/// blanks in a row give an empty word); there is always at least one.
pub open spec fn split_spaces(s: Seq<char>) -> Seq<Seq<char>>
    decreases s.len(),
{
    let k = space_index(s);
    if 0 <= k < s.len() {
        seq![s.take(k)] + split_spaces(s.skip(k + 1))
    } else {
        seq![s]
    }
}

/// The name of a square, such as `a8`: its first character a letter from `a` to `h`
/// giving the column, its second a digit from `1` to `8` giving the rank; the result is
/// the column, the rank counted from 0, and the character after the two, if any.
/// Leading and trailing white space is ignored.
pub open spec fn square_name_spec(input: Seq<char>) -> Result<(u8, u8, Option<char>), Seq<char>> {
    let t = trim(input);
    if t.len() < 2 {
        Err("Invalid input."@)
    } else if !('a' <= t[0] <= 'h') {
        Err("Must be a char between a - h."@)
    } else if !('1' <= t[1] <= '8') {
        Err("Invalid number. Must be between 1-8"@)
    } else {
        Ok(
            (
                (t[0] as u32 - 97) as u8,
                (t[1] as u32 - 49) as u8,
                if t.len() > 2 {
                    Some(t[2])
                } else {
                    None
                },
            ),
        )
    }
}

/// Whether `c` is white space.
pub fn is_whitespace(c: char) -> (r: bool)
    ensures
        r == is_ws(c),
{
    let n = c as u32;
    (0x09 <= n && n <= 0x0d) || n == 0x20 || n == 0x85 || n == 0xa0 || n == 0x1680 || (0x2000 <= n
        && n <= 0x200a) || n == 0x2028 || n == 0x2029 || n == 0x202f || n == 0x205f || n == 0x3000
}

/// Dropping leading white space one character at a time.
proof fn lemma_trim_start_step(s: Seq<char>, i: int)
    requires
        0 <= i < s.len(),
        is_ws(s[i]),
    ensures
        trim_start(s.skip(i)) == trim_start(s.skip(i + 1)),
{
    assert(s.skip(i).drop_first() =~= s.skip(i + 1));
}

/// Dropping trailing white space one character at a time.
proof fn lemma_trim_end_step(s: Seq<char>, j: int)
    requires
        0 < j <= s.len(),
        is_ws(s[j - 1]),
    ensures
        trim_end(s.take(j)) == trim_end(s.take(j - 1)),
{
    assert(s.take(j).drop_last() =~= s.take(j - 1));
}

/// The bounds of `s` without its leading and trailing white space: `s[a..b]` is
/// `trim(s)`.
pub fn trim_bounds(s: &str) -> (r: (usize, usize))
    ensures
        r.0 <= r.1 <= s@.len(),
        s@.subrange(r.0 as int, r.1 as int) == trim(s@),
{
    let n = s.unicode_len();
    let mut a: usize = 0;
    assert(s@.skip(0) =~= s@);
    while a < n && is_whitespace(s.get_char(a))
        invariant
            n == s@.len(),
            a <= n,
            trim_start(s@) == trim_start(s@.skip(a as int)),
        decreases n - a,
    {
        proof {
            lemma_trim_start_step(s@, a as int);
        }
        a = a + 1;
    }
    let ghost rest = s@.skip(a as int);
    assert(trim_start(s@) == rest) by {
        assert(s@.skip(a as int) =~= rest);
    }
    let mut b: usize = n;
    assert(rest.take(n - a) =~= rest);
    while b > a && is_whitespace(s.get_char(b - 1))
        invariant
            n == s@.len(),
            a <= b <= n,
            rest == s@.skip(a as int),
            trim_end(rest) == trim_end(rest.take(b - a)),
        decreases b - a,
    {
        proof {
            assert(rest[b - a - 1] == s@[b - 1]);
            lemma_trim_end_step(rest, b - a);
        }
        b = b - 1;
    }
    proof {
        assert(rest.take(b - a) =~= s@.subrange(a as int, b as int));
        if b > a {
            assert(rest.take(b - a).last() == s@[b - 1]);
        }
    }
    (a, b)
}

/// The index of the first blank of `s` at or after `start`, or the length of `s`.
fn space_from(s: &str, start: usize) -> (r: usize)
    requires
        start <= s@.len(),
    ensures
        start <= r <= s@.len(),
        r - start == space_index(s@.skip(start as int)),
{
    let n = s.unicode_len();
    let mut i: usize = start;
    while i < n && s.get_char(i) != ' '
        invariant
            n == s@.len(),
            start <= i <= n,
            forall|j: int| start <= j < i ==> s@[j] != ' ',
        decreases n - i,
    {
        i = i + 1;
    }
    proof {
        lemma_space_index(s@.skip(start as int), i - start);
    }
    i
}

/// `k` is the index of the first blank of `s` when none comes before it and `s[k]` is a
/// blank or `k` is the end of `s`.
proof fn lemma_space_index(s: Seq<char>, k: int)
    requires
        0 <= k <= s.len(),
        forall|j: int| 0 <= j < k ==> s[j] != ' ',
        k == s.len() || s[k] == ' ',
    ensures
        space_index(s) == k,
    decreases k,
{
    if k > 0 {
        lemma_space_index(s.drop_first(), k - 1);
    }
}

/// The words of `s` between its blanks (see `split_spaces`).
pub fn split_words(s: &str) -> (r: Vec<&str>)
    ensures
        r@.map_values(|w: &str| w@) == split_spaces(s@),
{
    let n = s.unicode_len();
    let mut words: Vec<&str> = Vec::new();
    let mut start: usize = 0;
    assert(s@.skip(0) =~= s@);
    assert(words@.map_values(|w: &str| w@) + split_spaces(s@) =~= split_spaces(s@));
    loop
        invariant
            n == s@.len(),
            start <= n,
            words@.map_values(|w: &str| w@) + split_spaces(s@.skip(start as int)) == split_spaces(s@),
        decreases n - start,
    {
        let end = space_from(s, start);
        let word = s.substring_char(start, end);
        let ghost rest = s@.skip(start as int);
        let ghost k = end - start;
        proof {
            assert(word@ =~= rest.take(k));
        }
        let ghost before = words@.map_values(|w: &str| w@);
        words.push(word);
        assert(words@.map_values(|w: &str| w@) =~= before.push(word@));
        if end == n {
            proof {
                assert(split_spaces(rest) == seq![rest]);
                assert(rest.take(k) =~= rest);
                assert(before.push(word@) =~= before + seq![rest]);
            }
            return words;
        }
        proof {
            assert(rest.skip(k + 1) =~= s@.skip(end + 1));
            assert(split_spaces(rest) == seq![rest.take(k)] + split_spaces(rest.skip(k + 1)));
            assert(before.push(word@) + split_spaces(s@.skip(end + 1)) =~= before + split_spaces(rest));
        }
        start = end + 1;
    }
}

/// Reads the name of a square (see `square_name_spec`).
pub fn read_square_name(input: &str) -> (r: Result<(u8, u8, Option<char>), String>)
    ensures
        match r {
            Ok(v) => square_name_spec(input@) == Ok::<(u8, u8, Option<char>), Seq<char>>(v),
            Err(e) => square_name_spec(input@) == Err::<(u8, u8, Option<char>), Seq<char>>(e@),
        },
{
    let (a, b) = trim_bounds(input);
    let trimmed = input.substring_char(a, b);
    let ghost t = trim(input@);
    assert(trimmed@ == t);
    if b - a < 2 {
        return Err(String::from_str("Invalid input."));
    }
    let first = trimmed.get_char(0);
    let second = trimmed.get_char(1);
    if !('a' <= first && first <= 'h') {
        return Err(String::from_str("Must be a char between a - h."));
    }
    let difference = (first as u32 - 97) as u8;
    if !('1' <= second && second <= '8') {
        return Err(String::from_str("Invalid number. Must be between 1-8"));
    }
    let num = (second as u32 - 48) as u8;
    let next_char = if b - a > 2 {
        Some(trimmed.get_char(2))
    } else {
        None
    };
    Ok((difference, num - 1, next_char))
}

/// Whether two texts are the same.
pub fn same_text(a: &str, b: &str) -> (r: bool)
    ensures
        r == (a@ == b@),
{
    let n = a.unicode_len();
    if n != b.unicode_len() {
        return false;
    }
    let mut i: usize = 0;
    while i < n
        invariant
            n == a@.len(),
            n == b@.len(),
            i <= n,
            forall|j: int| 0 <= j < i ==> a@[j] == b@[j],
        decreases n - i,
    {
        if a.get_char(i) != b.get_char(i) {
            return false;
        }
        i = i + 1;
    }
    assert(a@ =~= b@);
    true
}

/// The name of a square, a letter from `a` to `h` and a digit from `1` to `8`, reads as
/// its column and its rank counted from 0, with nothing after them.
pub proof fn lemma_square_name(column: int, rank: int)
    requires
        0 <= column < 8,
        0 <= rank < 8,
    ensures
        square_name_spec(seq![(97 + column) as char, (49 + rank) as char]) == Ok::<
            (u8, u8, Option<char>),
            Seq<char>,
        >((column as u8, rank as u8, None)),
{
    let s = seq![(97 + column) as char, (49 + rank) as char];
    assert(!is_ws(s[0]));
    assert(trim_start(s) == s);
    assert(!is_ws(s.last()));
    assert(trim_end(s) == s);
}

/// The words joined back together, one blank between each two.
pub open spec fn joined(words: Seq<Seq<char>>) -> Seq<char>
    decreases words.len(),
{
    if words.len() <= 1 {
        if words.len() == 1 {
            words[0]
        } else {
            Seq::empty()
        }
    } else {
        words[0] + seq![' '] + joined(words.drop_first())
    }
}

/// The first blank is at `space_index`, and none comes before it.
proof fn lemma_space_index_bounds(s: Seq<char>)
    ensures
        0 <= space_index(s) <= s.len(),
        space_index(s) < s.len() ==> s[space_index(s)] == ' ',
        forall|j: int| 0 <= j < space_index(s) ==> s[j] != ' ',
    decreases s.len(),
{
    if s.len() > 0 && s[0] != ' ' {
        lemma_space_index_bounds(s.drop_first());
        assert forall|j: int| 0 <= j < space_index(s) implies s[j] != ' ' by {
            if j > 0 {
                assert(s[j] == s.drop_first()[j - 1]);
            }
        }
    }
}

/// Splitting a text at its blanks gives at least one word, no word holds a blank, and
/// joining the words with one blank between each two gives the text back.
pub proof fn lemma_split_join(s: Seq<char>)
    ensures
        split_spaces(s).len() >= 1,
        forall|i: int, j: int|
            0 <= i < split_spaces(s).len() && 0 <= j < split_spaces(s)[i].len() ==> #[trigger] split_spaces(
                s,
            )[i][j] != ' ',
        joined(split_spaces(s)) == s,
    decreases s.len(),
{
    lemma_space_index_bounds(s);
    let k = space_index(s);
    if 0 <= k < s.len() {
        let rest = s.skip(k + 1);
        lemma_split_join(rest);
        let w = split_spaces(s);
        assert(w == seq![s.take(k)] + split_spaces(rest));
        assert(w.drop_first() =~= split_spaces(rest));
        assert forall|i: int, j: int|
            0 <= i < w.len() && 0 <= j < w[i].len() implies #[trigger] w[i][j] != ' ' by {
            if i > 0 {
                assert(w[i] == split_spaces(rest)[i - 1]);
            }
        }
        assert(s.take(k) + seq![' '] + rest =~= s);
    }
}

/// Trimming takes off white space only, and what it leaves neither starts nor ends with
/// white space: it is a stretch of the text before which and after which every character
/// is white space.
pub proof fn lemma_trim(s: Seq<char>)
    ensures
        exists|a: int, b: int|
            0 <= a <= b <= s.len() && trim(s) == s.subrange(a, b) && (forall|i: int|
                0 <= i < a ==> is_ws(#[trigger] s[i])) && (forall|i: int|
                b <= i < s.len() ==> is_ws(#[trigger] s[i])),
        trim(s).len() > 0 ==> !is_ws(trim(s)[0]) && !is_ws(trim(s).last()),
{
    let (a, t1) = lemma_trim_start(s);
    let b = lemma_trim_end(t1);
    assert(trim(s) == s.subrange(a, a + b)) by {
        assert(t1.subrange(0, b) =~= s.subrange(a, a + b));
    }
    assert forall|i: int| a + b <= i < s.len() implies is_ws(#[trigger] s[i]) by {
        assert(s[i] == t1[i - a]);
    }
}

/// The leading white space that `trim_start` takes off.
proof fn lemma_trim_start(s: Seq<char>) -> (r: (int, Seq<char>))
    ensures
        0 <= r.0 <= s.len(),
        r.1 == s.skip(r.0),
        trim_start(s) == r.1,
        forall|i: int| 0 <= i < r.0 ==> is_ws(#[trigger] s[i]),
        r.1.len() > 0 ==> !is_ws(r.1[0]),
    decreases s.len(),
{
    if s.len() > 0 && is_ws(s[0]) {
        let (a, t) = lemma_trim_start(s.drop_first());
        assert(s.drop_first().skip(a) =~= s.skip(a + 1));
        assert forall|i: int| 0 <= i < a + 1 implies is_ws(#[trigger] s[i]) by {
            if i > 0 {
                assert(s[i] == s.drop_first()[i - 1]);
            }
        }
        (a + 1, t)
    } else {
        assert(s.skip(0) =~= s);
        (0, s)
    }
}

/// The trailing white space that `trim_end` takes off.
proof fn lemma_trim_end(s: Seq<char>) -> (b: int)
    ensures
        0 <= b <= s.len(),
        trim_end(s) == s.take(b),
        forall|i: int| b <= i < s.len() ==> is_ws(#[trigger] s[i]),
        b > 0 ==> !is_ws(s[b - 1]),
        b > 0 && s.len() > 0 && !is_ws(s[0]) ==> !is_ws(trim_end(s)[0]),
    decreases s.len(),
{
    if s.len() > 0 && is_ws(s.last()) {
        let b = lemma_trim_end(s.drop_last());
        assert(s.drop_last().take(b) =~= s.take(b));
        assert forall|i: int| b <= i < s.len() implies is_ws(#[trigger] s[i]) by {
            if i < s.len() - 1 {
                assert(s[i] == s.drop_last()[i]);
            }
        }
        b
    } else {
        assert(s.take(s.len() as int) =~= s);
        s.len() as int
    }
}

/// A square name read from a text is its trimmed first two characters: a letter from `a`
/// to `h` for the column and a digit from `1` to `8` for the rank, then the character
/// after them, if any.
pub proof fn lemma_square_name_read(input: Seq<char>)
    ensures
        square_name_spec(input) matches Ok(v) ==> {
            let t = trim(input);
            &&& t.len() >= 2
            &&& v.0 < 8 && v.1 < 8
            &&& t[0] == (97 + v.0) as char
            &&& t[1] == (49 + v.1) as char
            &&& v.2 == (if t.len() > 2 { Some(t[2]) } else { None })
        },
        square_name_spec(input) is Err <==> (trim(input).len() < 2 || !('a' <= trim(input)[0] <= 'h')
            || !('1' <= trim(input)[1] <= '8')),
{
}

} // verus!
