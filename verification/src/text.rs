//! Character-level vocabulary shared by the whole parser: whitespace, trimming,
//! whitespace-separated tokens, substring search and line joining, each as a
//! definition over `Seq<char>` together with the executable function that
//! computes it.

use vstd::prelude::*;
use vstd::string::*;

verus! {

/// Whether `c` has the Unicode `White_Space` property.
pub open spec fn is_space(c: char) -> bool {
    let u = c as u32;
    ||| 0x09 <= u <= 0x0D
    ||| u == 0x20
    ||| u == 0x85
    ||| u == 0xA0
    ||| u == 0x1680
    ||| 0x2000 <= u <= 0x200A
    ||| u == 0x2028
    ||| u == 0x2029
    ||| u == 0x202F
    ||| u == 0x205F
    ||| u == 0x3000
}

/// A line is blank when it holds nothing but whitespace.
pub open spec fn is_blank(s: Seq<char>) -> bool {
    forall|i: int| 0 <= i < s.len() ==> is_space(#[trigger] s[i])
}

/// `s` without its leading whitespace.
pub open spec fn trim_start(s: Seq<char>) -> Seq<char>
    decreases s.len(),
{
    if s.len() > 0 && is_space(s[0]) {
        trim_start(s.drop_first())
    } else {
        s
    }
}

/// `s` without its trailing whitespace.
pub open spec fn trim_end(s: Seq<char>) -> Seq<char>
    decreases s.len(),
{
    if s.len() > 0 && is_space(s.last()) {
        trim_end(s.drop_last())
    } else {
        s
    }
}

/// `s` without its leading and trailing whitespace.
pub open spec fn trim(s: Seq<char>) -> Seq<char> {
    trim_end(trim_start(s))
}

/// The length of the run of non-whitespace characters that `s` starts with.
pub open spec fn word_len(s: Seq<char>) -> nat
    decreases s.len(),
{
    if s.len() == 0 || is_space(s[0]) {
        0
    } else {
        1 + word_len(s.drop_first())
    }
}

/// The maximal runs of non-whitespace characters of `s`, left to right.
pub open spec fn tokens(s: Seq<char>) -> Seq<Seq<char>>
    decreases s.len(),
    via tokens_decreases
{
    if s.len() == 0 {
        Seq::empty()
    } else if is_space(s[0]) {
        tokens(s.drop_first())
    } else {
        seq![s.take(word_len(s) as int)] + tokens(s.skip(word_len(s) as int))
    }
}

#[via_fn]
proof fn tokens_decreases(s: Seq<char>) {
    lemma_word_len_bounds(s);
}

/// The text that follows the first token of a line: the trimmed line without
/// its first token and without the one whitespace character that ends it.
pub open spec fn remainder(s: Seq<char>) -> Seq<char> {
    let t = trim(s);
    let rest = t.skip(word_len(t) as int);
    if rest.len() > 0 {
        rest.drop_first()
    } else {
        rest
    }
}

/// Whether `needle` occurs in `hay` as a contiguous run.
pub open spec fn contains(hay: Seq<char>, needle: Seq<char>) -> bool {
    exists|i: int| occurs_at(hay, needle, i)
}

/// Whether `needle` occurs in `hay` starting at index `i`.
pub open spec fn occurs_at(hay: Seq<char>, needle: Seq<char>, i: int) -> bool {
    &&& 0 <= i
    &&& i + needle.len() <= hay.len()
    &&& hay.subrange(i, i + needle.len()) == needle
}

/// The lines of `lines` with one line feed between neighbours.
pub open spec fn join_lines(lines: Seq<Seq<char>>) -> Seq<char>
    decreases lines.len(),
{
    if lines.len() == 0 {
        Seq::empty()
    } else if lines.len() == 1 {
        lines[0]
    } else {
        join_lines(lines.drop_last()) + seq!['\n'] + lines.last()
    }
}

/// The part of `path` behind its last `/`, or all of it where it has none.
pub open spec fn base_name(path: Seq<char>) -> Seq<char>
    decreases path.len(),
{
    if path.len() == 0 || path.last() == '/' {
        Seq::empty()
    } else {
        base_name(path.drop_last()).push(path.last())
    }
}

/// The file name of `path`: its final component, as `Path::file_name` gives it
/// for a path with `/` between its components. Separators at the end and
/// components `.` do not count; there is none where nothing is left or where
/// the final component is `..`.
pub open spec fn final_component(path: Seq<char>) -> Option<Seq<char>>
    decreases path.len(),
{
    if path.len() == 0 {
        None
    } else if path.last() == '/' || base_name(path) == seq!['.'] {
        final_component(path.drop_last())
    } else if base_name(path) == seq!['.', '.'] {
        None
    } else {
        Some(base_name(path))
    }
}

/// The view of a string that may be absent.
pub open spec fn text_view(text: Option<String>) -> Option<Seq<char>> {
    match text {
        Some(s) => Some(s@),
        None => None,
    }
}

/// The views of a sequence of strings.
pub open spec fn views(v: Seq<String>) -> Seq<Seq<char>> {
    Seq::new(v.len(), |i: int| v[i]@)
}

/// The word that a text starts with holds no whitespace and ends at a
/// whitespace character or at the end of the text.
pub proof fn lemma_word_len_bounds(s: Seq<char>)
    ensures
        word_len(s) <= s.len(),
        s.len() > 0 && !is_space(s[0]) ==> word_len(s) >= 1,
        forall|i: int| 0 <= i < word_len(s) ==> !is_space(#[trigger] s[i]),
        word_len(s) < s.len() ==> is_space(s[word_len(s) as int]),
    decreases s.len(),
{
    if s.len() == 0 || is_space(s[0]) {
    } else {
        let t = s.drop_first();
        lemma_word_len_bounds(t);
        assert forall|i: int| 0 <= i < word_len(s) implies !is_space(#[trigger] s[i]) by {
            if i > 0 {
                assert(s[i] == t[i - 1]);
            }
        }
        if word_len(s) < s.len() {
            assert(s[word_len(s) as int] == t[word_len(t) as int]);
        }
    }
}

/// A run of non-whitespace characters that ends at a whitespace character or at
/// the end of the text is the word that the text starts with.
pub proof fn lemma_word_len_is(s: Seq<char>, n: nat)
    requires
        n <= s.len(),
        forall|i: int| 0 <= i < n ==> !is_space(#[trigger] s[i]),
        n < s.len() ==> is_space(s[n as int]),
    ensures
        word_len(s) == n,
    decreases n,
{
    if n == 0 {
    } else {
        let t = s.drop_first();
        assert forall|i: int| 0 <= i < n - 1 implies !is_space(#[trigger] t[i]) by {
            assert(t[i] == s[i + 1]);
        }
        lemma_word_len_is(t, (n - 1) as nat);
    }
}

/// Whether `c` has the Unicode `White_Space` property.
pub fn is_whitespace(c: char) -> (b: bool)
    ensures
        b == is_space(c),
{
    let u: u32 = c as u32;
    (0x09 <= u && u <= 0x0D) || u == 0x20 || u == 0x85 || u == 0xA0 || u == 0x1680 || (0x2000 <= u
        && u <= 0x200A) || u == 0x2028 || u == 0x2029 || u == 0x202F || u == 0x205F || u == 0x3000
}

/// The characters of `s`, in order.
pub fn chars_of(s: &str) -> (v: Vec<char>)
    ensures
        v@ == s@,
{
    let mut v: Vec<char> = Vec::new();
    for c in it: s.chars()
        invariant
            v@ == it.seq().take(it.index()),
            it.seq() == s@,
    {
        v.push(c);
    }
    v
}

/// The characters `from..to` of `s` as a string of their own.
pub fn substring(s: &str, from: usize, to: usize) -> (r: String)
    requires
        from <= to <= s@.len(),
    ensures
        r@ == s@.subrange(from as int, to as int),
{
    String::from_str(s.substring_char(from, to))
}

/// Whitespace in front of a text does not count: trimming drops exactly the
/// leading run of whitespace characters.
pub proof fn lemma_trim_start_is(s: Seq<char>, a: nat)
    requires
        a <= s.len(),
        forall|i: int| 0 <= i < a ==> is_space(#[trigger] s[i]),
        a < s.len() ==> !is_space(s[a as int]),
    ensures
        trim_start(s) == s.skip(a as int),
    decreases a,
{
    if a == 0 {
        assert(s.skip(0) == s);
    } else {
        let t = s.drop_first();
        assert forall|i: int| 0 <= i < a - 1 implies is_space(#[trigger] t[i]) by {
            assert(t[i] == s[i + 1]);
        }
        lemma_trim_start_is(t, (a - 1) as nat);
        assert(t.skip(a - 1) == s.skip(a as int));
    }
}

/// Trimming at the end drops exactly the trailing run of whitespace characters.
pub proof fn lemma_trim_end_is(s: Seq<char>, b: nat)
    requires
        b <= s.len(),
        forall|i: int| b <= i < s.len() ==> is_space(#[trigger] s[i]),
        b > 0 ==> !is_space(s[b - 1]),
    ensures
        trim_end(s) == s.take(b as int),
    decreases s.len() - b,
{
    if b == s.len() {
        assert(s.take(b as int) == s);
    } else {
        let t = s.drop_last();
        lemma_trim_end_is(t, b);
        assert(t.take(b as int) == s.take(b as int));
    }
}

/// A text without tokens is blank, and a blank text has no tokens.
pub proof fn lemma_blank_iff_no_tokens(s: Seq<char>)
    ensures
        is_blank(s) <==> tokens(s).len() == 0,
    decreases s.len(),
{
    if s.len() == 0 {
    } else if is_space(s[0]) {
        let t = s.drop_first();
        lemma_blank_iff_no_tokens(t);
        if is_blank(t) {
            assert forall|i: int| 0 <= i < s.len() implies is_space(#[trigger] s[i]) by {
                if i > 0 {
                    assert(s[i] == t[i - 1]);
                }
            }
        }
        if is_blank(s) {
            assert forall|i: int| 0 <= i < t.len() implies is_space(#[trigger] t[i]) by {
                assert(t[i] == s[i + 1]);
            }
        }
    } else {
        assert(!is_blank(s));
    }
}

/// The index of the first character at or after `from` that is no whitespace,
/// or the length of `v` where there is none.
pub fn skip_whitespace(v: &Vec<char>, from: usize) -> (a: usize)
    requires
        from <= v.len(),
    ensures
        from <= a <= v.len(),
        forall|i: int| from <= i < a ==> is_space(#[trigger] v@[i]),
        a < v.len() ==> !is_space(v@[a as int]),
{
    let mut a: usize = from;
    while a < v.len() && is_whitespace(v[a])
        invariant
            from <= a <= v.len(),
            forall|i: int| from <= i < a ==> is_space(#[trigger] v@[i]),
        decreases v.len() - a,
    {
        a += 1;
    }
    a
}

/// The index of the first whitespace character at or after `from`, or `to`
/// where there is none before it.
pub fn skip_word(v: &Vec<char>, from: usize, to: usize) -> (b: usize)
    requires
        from <= to <= v.len(),
    ensures
        from <= b <= to,
        forall|i: int| from <= i < b ==> !is_space(#[trigger] v@[i]),
        b < to ==> is_space(v@[b as int]),
{
    let mut b: usize = from;
    while b < to && !is_whitespace(v[b])
        invariant
            from <= b <= to <= v.len(),
            forall|i: int| from <= i < b ==> !is_space(#[trigger] v@[i]),
        decreases to - b,
    {
        b += 1;
    }
    b
}

/// The bounds of `v` without its leading and trailing whitespace.
pub fn trim_bounds(v: &Vec<char>) -> (r: (usize, usize))
    ensures
        r.0 <= r.1 <= v.len(),
        v@.subrange(r.0 as int, r.1 as int) == trim(v@),
        r.0 < r.1 ==> !is_space(v@[r.0 as int]) && !is_space(v@[r.1 - 1]),
{
    let a = skip_whitespace(v, 0);
    let mut b: usize = v.len();
    while b > a && is_whitespace(v[b - 1])
        invariant
            a <= b <= v.len(),
            forall|i: int| b <= i < v.len() ==> is_space(#[trigger] v@[i]),
        decreases b,
    {
        b -= 1;
    }
    proof {
        let s = v@;
        lemma_trim_start_is(s, a as nat);
        let t = s.skip(a as int);
        assert forall|i: int| b - a <= i < t.len() implies is_space(#[trigger] t[i]) by {
            assert(t[i] == s[i + a]);
        }
        if b > a {
            assert(t[b - a - 1] == s[b - 1]);
        }
        lemma_trim_end_is(t, (b - a) as nat);
        assert(t.take(b - a) == s.subrange(a as int, b as int));
    }
    (a, b)
}

/// Whether `line` holds nothing but whitespace.
pub fn is_blank_line(line: &str) -> (b: bool)
    ensures
        b == is_blank(line@),
{
    let v = chars_of(line);
    let a = skip_whitespace(&v, 0);
    a == v.len()
}

/// `line` without its leading and trailing whitespace.
pub fn trimmed(line: &str) -> (r: String)
    ensures
        r@ == trim(line@),
{
    let v = chars_of(line);
    let (a, b) = trim_bounds(&v);
    substring(line, a, b)
}

/// The whitespace-separated tokens of `line`, left to right.
pub fn split_whitespace(line: &str) -> (r: Vec<String>)
    ensures
        views(r@) == tokens(line@),
{
    let v = chars_of(line);
    let mut r: Vec<String> = Vec::new();
    let mut i: usize = 0;
    proof {
        assert(line@.skip(0) == line@);
        assert(views(r@) + tokens(line@) == tokens(line@));
    }
    while i < v.len()
        invariant
            i <= v.len(),
            v@ == line@,
            tokens(line@) == views(r@) + tokens(line@.skip(i as int)),
        decreases v.len() - i,
    {
        let ghost s = line@;
        let ghost t = s.skip(i as int);
        if is_whitespace(v[i]) {
            proof {
                assert(t.drop_first() == s.skip(i + 1));
            }
            i += 1;
        } else {
            let j = skip_word(&v, i, v.len());
            let word = substring(line, i, j);
            proof {
                assert forall|k: int| 0 <= k < j - i implies !is_space(#[trigger] t[k]) by {
                    assert(t[k] == s[k + i]);
                }
                lemma_word_len_is(t, (j - i) as nat);
                assert(t.take(j - i) == s.subrange(i as int, j as int));
                assert(t.skip(j - i) == s.skip(j as int));
                assert(views(r@.push(word)) == views(r@) + seq![word@]);
            }
            r.push(word);
            i = j;
        }
    }
    proof {
        assert(line@.skip(i as int).len() == 0);
        assert(views(r@) + Seq::<Seq<char>>::empty() == views(r@));
    }
    r
}

/// The text that follows the first token of `line`.
pub fn header_tail(line: &str) -> (r: String)
    ensures
        r@ == remainder(line@),
{
    let v = chars_of(line);
    let (a, b) = trim_bounds(&v);
    let j = skip_word(&v, a, b);
    proof {
        let s = line@;
        let t = s.subrange(a as int, b as int);
        assert forall|k: int| 0 <= k < j - a implies !is_space(#[trigger] t[k]) by {
            assert(t[k] == s[k + a]);
        }
        if j < b {
            assert(t[j - a] == s[j as int]);
        }
        lemma_word_len_is(t, (j - a) as nat);
        assert(t.skip(j - a) == s.subrange(j as int, b as int));
        if j < b {
            assert(s.subrange(j as int, b as int).drop_first() == s.subrange(j + 1, b as int));
        }
    }
    if j < b {
        substring(line, j + 1, b)
    } else {
        substring(line, j, b)
    }
}

/// Whether `needle` occurs somewhere in `hay`.
pub fn str_contains(hay: &str, needle: &str) -> (b: bool)
    ensures
        b == contains(hay@, needle@),
{
    let h = chars_of(hay);
    let n = chars_of(needle);
    if n.len() > h.len() {
        assert(forall|i: int| !occurs_at(hay@, needle@, i));
        return false;
    }
    let last: usize = h.len() - n.len();
    let mut i: usize = 0;
    while i <= last
        invariant
            h@ == hay@,
            n@ == needle@,
            last == h.len() - n.len(),
            i <= last + 1,
            forall|k: int| 0 <= k < i ==> !occurs_at(hay@, needle@, k),
        decreases last + 1 - i,
    {
        let mut j: usize = 0;
        while j < n.len() && h[i + j] == n[j]
            invariant
                i <= last,
                last == h.len() - n.len(),
                j <= n.len(),
                forall|k: int| 0 <= k < j ==> h@[i + k] == n@[k],
            decreases n.len() - j,
        {
            j += 1;
        }
        if j == n.len() {
            proof {
                assert(h@.subrange(i as int, i + n.len()) =~= n@);
                assert(occurs_at(hay@, needle@, i as int));
            }
            return true;
        }
        proof {
            assert(h@.subrange(i as int, i + n.len())[j as int] == h@[i + j]);
        }
        i += 1;
    }
    proof {
        assert forall|k: int| !occurs_at(hay@, needle@, k) by {}
    }
    false
}

/// Whether two texts hold the same characters.
pub fn str_eq(a: &str, b: &str) -> (r: bool)
    ensures
        r == (a@ == b@),
{
    let x = chars_of(a);
    let y = chars_of(b);
    if x.len() != y.len() {
        return false;
    }
    let mut i: usize = 0;
    while i < x.len()
        invariant
            x@ == a@,
            y@ == b@,
            x.len() == y.len(),
            i <= x.len(),
            forall|k: int| 0 <= k < i ==> x@[k] == y@[k],
        decreases x.len() - i,
    {
        if x[i] != y[i] {
            return false;
        }
        i += 1;
    }
    assert(x@ =~= y@);
    true
}

/// The strings of `lines` with one line feed between neighbours.
pub fn join(lines: &Vec<String>) -> (r: String)
    ensures
        r@ == join_lines(views(lines@)),
{
    let mut r = String::new();
    let mut i: usize = 0;
    while i < lines.len()
        invariant
            i <= lines.len(),
            r@ == join_lines(views(lines@).take(i as int)),
        decreases lines.len() - i,
    {
        proof {
            reveal_strlit("\n");
            let all = views(lines@);
            let next = all.take(i + 1);
            assert(next.drop_last() == all.take(i as int));
            assert(next.last() == lines@[i as int]@);
            assert("\n"@ =~= seq!['\n']);
            if i == 0 {
                assert(Seq::<char>::empty() + lines@[0]@ == lines@[0]@);
            }
        }
        if i > 0 {
            r.append("\n");
        }
        r.append(lines[i].as_str());
        i += 1;
    }
    proof {
        assert(views(lines@).take(lines.len() as int) == views(lines@));
    }
    r
}

/// The base name of a path starts behind its last `/`.
pub proof fn lemma_base_name_is(path: Seq<char>, k: nat)
    requires
        k <= path.len(),
        forall|i: int| k <= i < path.len() ==> #[trigger] path[i] != '/',
        k > 0 ==> path[k - 1] == '/',
    ensures
        base_name(path) == path.skip(k as int),
    decreases path.len() - k,
{
    if k == path.len() {
        assert(path.skip(k as int) =~= Seq::<char>::empty());
    } else {
        let front = path.drop_last();
        assert(path.last() != '/');
        assert forall|i: int| k <= i < front.len() implies #[trigger] front[i] != '/' by {
            assert(front[i] == path[i]);
        }
        lemma_base_name_is(front, k);
        assert(front.skip(k as int).push(path.last()) =~= path.skip(k as int));
    }
}

/// The file name of `path`: its final component, if it has one.
pub fn file_name(path: &str) -> (r: Option<String>)
    ensures
        text_view(r) == final_component(path@),
{
    let v = chars_of(path);
    let mut end: usize = v.len();
    proof {
        assert(path@.take(end as int) == path@);
    }
    while end > 0
        invariant
            end <= v.len(),
            v@ == path@,
            final_component(path@) == final_component(path@.take(end as int)),
        decreases end,
    {
        let ghost front = path@.take(end as int);
        let mut start: usize = end;
        while start > 0 && v[start - 1] != '/'
            invariant
                start <= end <= v.len(),
                forall|i: int| start <= i < end ==> #[trigger] v@[i] != '/',
            decreases start,
        {
            start -= 1;
        }
        proof {
            assert forall|i: int| start <= i < front.len() implies #[trigger] front[i] != '/' by {
                assert(front[i] == v@[i]);
            }
            if start > 0 {
                assert(front[start - 1] == v@[start - 1]);
            }
            lemma_base_name_is(front, start as nat);
            assert(front.skip(start as int) == path@.subrange(start as int, end as int));
            assert(front.drop_last() == path@.take(end - 1));
            assert(front.last() == v@[end - 1]);
            let name = path@.subrange(start as int, end as int);
            if name == seq!['.'] {
                assert(name.len() == 1);
                assert(name[0] == '.');
            }
            if end - start == 1 && v@[start as int] == '.' {
                assert(name =~= seq!['.']);
            }
            if name == seq!['.', '.'] {
                assert(name.len() == 2);
                assert(name[0] == '.' && name[1] == '.');
            }
            if end - start == 2 && v@[start as int] == '.' && v@[start + 1] == '.' {
                assert(name =~= seq!['.', '.']);
            }
        }
        if start == end || (end - start == 1 && v[start] == '.') {
            end -= 1;
        } else if end - start == 2 && v[start] == '.' && v[start + 1] == '.' {
            return None;
        } else {
            return Some(substring(path, start, end));
        }
    }
    proof {
        assert(path@.take(0).len() == 0);
    }
    None
}

} // verus!
