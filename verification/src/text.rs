//! Text model shared by the whole crate: strings are viewed as sequences of
//! `char`, and the two operations the bot relies on everywhere, splitting on a
//! separator and joining with one, are given here as spec functions together
//! with executable versions that are proved to compute them.
use vstd::prelude::*;

verus! {

/// Pieces of `s` between the non-overlapping, leftmost occurrences of `sep`,
/// as `str::split` with a string pattern produces them. The result always
/// holds at least one piece.
pub open spec fn split(s: Seq<char>, sep: Seq<char>) -> Seq<Seq<char>>
    decreases s.len(),
{
    if s.len() == 0 {
        seq![Seq::<char>::empty()]
    } else if sep.len() > 0 && sep.is_prefix_of(s) {
        seq![Seq::<char>::empty()] + split(s.skip(sep.len() as int), sep)
    } else {
        prepend(seq![s[0]], split(s.drop_first(), sep))
    }
}

/// How many times `sep` occurs in `s`, counted from the left without
/// overlaps, as `str::matches` finds them.
pub open spec fn occurrences(s: Seq<char>, sep: Seq<char>) -> nat
    decreases s.len(),
{
    if s.len() == 0 {
        0
    } else if sep.len() > 0 && sep.is_prefix_of(s) {
        1 + occurrences(s.skip(sep.len() as int), sep)
    } else {
        occurrences(s.drop_first(), sep)
    }
}

/// Splitting at a separator gives one piece more than the separator occurs.
pub proof fn lemma_split_len(s: Seq<char>, sep: Seq<char>)
    ensures
        split(s, sep).len() == occurrences(s, sep) + 1,
    decreases s.len(),
{
    if s.len() == 0 {
    } else if sep.len() > 0 && sep.is_prefix_of(s) {
        lemma_split_len(s.skip(sep.len() as int), sep);
    } else {
        lemma_split_len(s.drop_first(), sep);
    }
}

/// Prefixes the first piece of `parts` with `x`.
pub open spec fn prepend(x: Seq<char>, parts: Seq<Seq<char>>) -> Seq<Seq<char>> {
    parts.update(0, x + parts[0])
}

/// Concatenation of `parts` with `sep` between consecutive pieces, as
/// `[String]::join` computes it.
pub open spec fn join(parts: Seq<Seq<char>>, sep: Seq<char>) -> Seq<char>
    decreases parts.len(),
{
    if parts.len() == 0 {
        Seq::<char>::empty()
    } else if parts.len() == 1 {
        parts[0]
    } else {
        parts[0] + sep + join(parts.drop_first(), sep)
    }
}

/// Splitting always gives at least one piece.
pub proof fn lemma_split_nonempty(s: Seq<char>, sep: Seq<char>)
    ensures
        split(s, sep).len() >= 1,
    decreases s.len(),
{
    if s.len() == 0 {
    } else if sep.len() > 0 && sep.is_prefix_of(s) {
        lemma_split_nonempty(s.skip(sep.len() as int), sep);
    } else {
        lemma_split_nonempty(s.drop_first(), sep);
    }
}

proof fn lemma_join_prepend(x: Seq<char>, parts: Seq<Seq<char>>, sep: Seq<char>)
    requires
        parts.len() >= 1,
    ensures
        join(prepend(x, parts), sep) == x + join(parts, sep),
{
    let p = prepend(x, parts);
    if parts.len() == 1 {
    } else {
        assert(p.drop_first() =~= parts.drop_first());
        assert(x + parts[0] + sep + join(parts.drop_first(), sep) =~= x + (parts[0] + sep + join(
            parts.drop_first(),
            sep,
        )));
    }
}

/// Joining the pieces of a split gives back the original text.
pub proof fn lemma_join_split(s: Seq<char>, sep: Seq<char>)
    ensures
        join(split(s, sep), sep) == s,
    decreases s.len(),
{
    if s.len() == 0 {
    } else if sep.len() > 0 && sep.is_prefix_of(s) {
        let rest = s.skip(sep.len() as int);
        lemma_join_split(rest, sep);
        lemma_split_nonempty(rest, sep);
        let p = seq![Seq::<char>::empty()] + split(rest, sep);
        assert(p.drop_first() =~= split(rest, sep));
        assert(s =~= Seq::<char>::empty() + sep + rest);
    } else {
        lemma_join_split(s.drop_first(), sep);
        lemma_split_nonempty(s.drop_first(), sep);
        lemma_join_prepend(seq![s[0]], split(s.drop_first(), sep), sep);
        assert(s =~= seq![s[0]] + s.drop_first());
    }
}

/// Joining two non-empty lists of pieces puts the separator between their joins.
pub proof fn lemma_join_concat(a: Seq<Seq<char>>, b: Seq<Seq<char>>, sep: Seq<char>)
    requires
        a.len() >= 1,
        b.len() >= 1,
    ensures
        join(a + b, sep) == join(a, sep) + sep + join(b, sep),
    decreases a.len(),
{
    if a.len() == 1 {
        assert((a + b).drop_first() =~= b);
    } else {
        lemma_join_concat(a.drop_first(), b, sep);
        assert((a + b).drop_first() =~= a.drop_first() + b);
        assert(a[0] + sep + (join(a.drop_first(), sep) + sep + join(b, sep)) =~= (a[0] + sep + join(
            a.drop_first(),
            sep,
        )) + sep + join(b, sep));
    }
}

/// Joining a list whose last piece was extended by `x` extends the join by `x`.
pub proof fn lemma_join_extend_last(parts: Seq<Seq<char>>, x: Seq<char>, sep: Seq<char>)
    requires
        parts.len() >= 1,
    ensures
        join(parts.update(parts.len() - 1, parts.last() + x), sep) == join(parts, sep) + x,
    decreases parts.len(),
{
    let q = parts.update(parts.len() - 1, parts.last() + x);
    if parts.len() == 1 {
    } else {
        lemma_join_extend_last(parts.drop_first(), x, sep);
        assert(q.drop_first() =~= parts.drop_first().update(
            parts.drop_first().len() - 1,
            parts.drop_first().last() + x,
        ));
        assert(parts[0] + sep + (join(parts.drop_first(), sep) + x) =~= (parts[0] + sep + join(
            parts.drop_first(),
            sep,
        )) + x);
    }
}

/// Appends `c` to `s` (`String::push`).
#[verifier::external_body]
pub(crate) fn push_char(s: &mut String, c: char)
    ensures
        final(s)@ == old(s)@.push(c),
{
    s.push(c)
}

/// The characters of `s`, in order.
pub fn chars_of(s: &str) -> (res: Vec<char>)
    ensures
        res@ == s@,
{
    let n = s.unicode_len();
    let mut res: Vec<char> = Vec::new();
    let mut i: usize = 0;
    while i < n
        invariant
            n == s@.len(),
            i <= n,
            res@ == s@.take(i as int),
        decreases n - i,
    {
        let c = s.get_char(i);
        res.push(c);
        i = i + 1;
        assert(res@ =~= s@.take(i as int));
    }
    assert(res@ =~= s@);
    res
}

/// Whether `sep` occurs in `chars` at position `i`.
pub fn occurs_at(chars: &Vec<char>, i: usize, sep: &Vec<char>) -> (res: bool)
    requires
        i <= chars@.len(),
    ensures
        res == sep@.is_prefix_of(chars@.skip(i as int)),
{
    if sep.len() > chars.len() - i {
        return false;
    }
    let mut j: usize = 0;
    while j < sep.len()
        invariant
            i + sep@.len() <= chars@.len(),
            i + sep.len() <= chars.len(),
            j <= sep@.len(),
            forall|k: int| 0 <= k < j ==> sep@[k] == chars@[i + k],
        decreases sep.len() - j,
    {
        if sep[j] != chars[i + j] {
            assert(chars@.skip(i as int).subrange(0, sep@.len() as int)[j as int] != sep@[j as int]);
            return false;
        }
        j = j + 1;
    }
    assert(sep@ =~= chars@.skip(i as int).subrange(0, sep@.len() as int));
    true
}

/// The string made of the characters `chars[from..to]`.
pub fn string_of(chars: &Vec<char>, from: usize, to: usize) -> (res: String)
    requires
        from <= to <= chars@.len(),
    ensures
        res@ == chars@.subrange(from as int, to as int),
{
    let mut res = String::new();
    let mut i = from;
    while i < to
        invariant
            from <= i <= to,
            to <= chars@.len(),
            res@ == chars@.subrange(from as int, i as int),
        decreases to - i,
    {
        push_char(&mut res, chars[i]);
        i = i + 1;
        assert(res@ =~= chars@.subrange(from as int, i as int));
    }
    res
}

/// `str::split` with a non-empty string pattern, collected into owned strings.
pub fn split_str(s: &str, sep: &str) -> (res: Vec<String>)
    requires
        sep@.len() > 0,
    ensures
        res.deep_view() == split(s@, sep@),
{
    let chars = chars_of(s);
    let sepc = chars_of(sep);
    let n = chars.len();
    let k = sepc.len();
    let mut done: Vec<String> = Vec::new();
    let mut current = String::new();
    let mut i: usize = 0;
    proof {
        lemma_split_nonempty(s@, sep@);
        assert(s@.skip(0) =~= s@);
        assert(prepend(Seq::<char>::empty(), split(s@, sep@)) =~= split(s@, sep@));
    }
    while i < n
        invariant
            n == chars@.len(),
            chars@ == s@,
            sepc@ == sep@,
            k == sep@.len(),
            k > 0,
            i <= n,
            split(s@, sep@) == done.deep_view() + prepend(current@, split(s@.skip(i as int), sep@)),
        decreases n - i,
    {
        let ghost rest = s@.skip(i as int);
        proof {
            lemma_split_nonempty(rest, sep@);
        }
        if occurs_at(&chars, i, &sepc) {
            let ghost after = s@.skip(i + k);
            proof {
                assert(rest.skip(k as int) =~= after);
                lemma_split_nonempty(after, sep@);
                let p = seq![Seq::<char>::empty()] + split(after, sep@);
                assert(prepend(current@, p) =~= seq![current@] + split(after, sep@));
                assert(prepend(Seq::<char>::empty(), split(after, sep@)) =~= split(after, sep@));
            }
            let ghost old_done = done.deep_view();
            let piece = current;
            done.push(piece);
            current = String::new();
            i = i + k;
            proof {
                assert(done.deep_view() =~= old_done.push(piece@));
                assert(old_done + (seq![piece@] + split(after, sep@)) =~= old_done.push(piece@)
                    + split(after, sep@));
            }
        } else {
            let c = chars[i];
            let ghost after = s@.skip(i + 1);
            proof {
                assert(rest.drop_first() =~= after);
                assert(rest[0] == c);
                lemma_split_nonempty(after, sep@);
                let inner = split(after, sep@);
                assert(current@ + (seq![c] + inner[0]) =~= current@.push(c) + inner[0]);
                assert(prepend(current@, prepend(seq![c], inner)) =~= prepend(
                    current@.push(c),
                    inner,
                ));
            }
            push_char(&mut current, c);
            i = i + 1;
        }
    }
    proof {
        assert(s@.skip(i as int) =~= Seq::<char>::empty());
        assert(prepend(current@, seq![Seq::<char>::empty()]) =~= seq![current@]);
    }
    let ghost old_done = done.deep_view();
    done.push(current);
    proof {
        assert(done.deep_view() =~= old_done + seq![current@]);
    }
    done
}

/// `[String]::join` with the separator `sep`.
pub fn join_strs(parts: &Vec<String>, sep: &str) -> (res: String)
    ensures
        res@ == join(parts.deep_view(), sep@),
{
    let n = parts.len();
    if n == 0 {
        return String::new();
    }
    let mut res = parts[n - 1].clone();
    let mut i = n - 1;
    while i > 0
        invariant
            n == parts@.len(),
            i < n,
            res@ == join(parts.deep_view().skip(i as int), sep@),
        decreases i,
    {
        i = i - 1;
        let mut next = parts[i].clone();
        next.append(sep);
        next.append(res.as_str());
        proof {
            let t = parts.deep_view().skip(i as int);
            assert(t.drop_first() =~= parts.deep_view().skip(i + 1));
            assert(t[0] == parts@[i as int]@);
        }
        res = next;
    }
    assert(parts.deep_view().skip(0) =~= parts.deep_view());
    res
}

} // verus!

verus! {

/// Unicode `White_Space` characters, as `char::is_whitespace` recognises them.
pub open spec fn is_white(c: char) -> bool {
    let u = c as u32;
    ||| 0x9 <= u <= 0xD
    ||| u == 0x20
    ||| u == 0x85
    ||| u == 0xA0
    ||| u == 0x1680
    ||| 0x2000 <= u <= 0x200A
    ||| u == 0x2028
    ||| u == 0x2029
    ||| u == 0x202F
    ||| u == 0x205F
    ||| u == 0x3000
}

/// `char::is_whitespace`.
pub fn is_whitespace(c: char) -> (res: bool)
    ensures
        res == is_white(c),
{
    let u = c as u32;
    (0x9 <= u && u <= 0xD) || u == 0x20 || u == 0x85 || u == 0xA0 || u == 0x1680 || (0x2000 <= u
        && u <= 0x200A) || u == 0x2028 || u == 0x2029 || u == 0x202F || u == 0x205F || u == 0x3000
}

/// `s` without its leading whitespace.
pub open spec fn trim_start(s: Seq<char>) -> Seq<char>
    decreases s.len(),
{
    if s.len() > 0 && is_white(s[0]) {
        trim_start(s.drop_first())
    } else {
        s
    }
}

/// `s` without its trailing whitespace.
pub open spec fn trim_end(s: Seq<char>) -> Seq<char>
    decreases s.len(),
{
    if s.len() > 0 && is_white(s.last()) {
        trim_end(s.drop_last())
    } else {
        s
    }
}

/// `str::trim`: `s` without leading and trailing whitespace.
pub open spec fn trim(s: Seq<char>) -> Seq<char> {
    trim_end(trim_start(s))
}

proof fn lemma_trim_start_skip(s: Seq<char>, i: int)
    requires
        0 <= i <= s.len(),
        forall|k: int| 0 <= k < i ==> is_white(#[trigger] s[k]),
    ensures
        trim_start(s) == trim_start(s.skip(i)),
    decreases i,
{
    if i > 0 {
        assert(s.drop_first().skip(i - 1) =~= s.skip(i));
        lemma_trim_start_skip(s.drop_first(), i - 1);
    } else {
        assert(s.skip(0) =~= s);
    }
}

proof fn lemma_trim_end_take(s: Seq<char>, j: int)
    requires
        0 <= j <= s.len(),
        forall|k: int| j <= k < s.len() ==> is_white(#[trigger] s[k]),
    ensures
        trim_end(s) == trim_end(s.take(j)),
    decreases s.len() - j,
{
    if j < s.len() {
        assert(s.drop_last().take(j) =~= s.take(j));
        lemma_trim_end_take(s.drop_last(), j);
    } else {
        assert(s.take(j) =~= s);
    }
}

/// `str::trim`, on characters.
pub fn trim_chars(chars: &Vec<char>) -> (res: String)
    ensures
        res@ == trim(chars@),
{
    let n = chars.len();
    let mut i: usize = 0;
    while i < n && is_whitespace(chars[i])
        invariant
            n == chars@.len(),
            i <= n,
            forall|k: int| 0 <= k < i ==> is_white(#[trigger] chars@[k]),
        decreases n - i,
    {
        i = i + 1;
    }
    let ghost rest = chars@.skip(i as int);
    proof {
        lemma_trim_start_skip(chars@, i as int);
        assert(trim_start(rest) == rest);
    }
    let mut j: usize = n;
    while j > i && is_whitespace(chars[j - 1])
        invariant
            n == chars@.len(),
            i <= j <= n,
            rest == chars@.skip(i as int),
            forall|k: int| j <= k < n ==> is_white(#[trigger] chars@[k]),
        decreases j,
    {
        j = j - 1;
    }
    proof {
        assert forall|k: int| j - i <= k < rest.len() implies is_white(#[trigger] rest[k]) by {
            assert(rest[k] == chars@[k + i]);
        }
        lemma_trim_end_take(rest, j - i);
        let t = rest.take(j - i);
        assert(t =~= chars@.subrange(i as int, j as int));
        if t.len() > 0 {
            assert(t.last() == chars@[j - 1]);
        }
    }
    string_of(chars, i, j)
}

/// `str::trim`.
pub fn trim_str(s: &str) -> (res: String)
    ensures
        res@ == trim(s@),
{
    let chars = chars_of(s);
    trim_chars(&chars)
}

/// `s` without one trailing carriage return.
pub open spec fn strip_cr(s: Seq<char>) -> Seq<char> {
    if s.len() > 0 && s.last() == '\r' {
        s.drop_last()
    } else {
        s
    }
}

/// `str::lines`: pieces between newlines, where a trailing empty piece is not
/// a line, and a carriage return before a newline is not part of its line.
pub open spec fn lines(s: Seq<char>) -> Seq<Seq<char>> {
    let p = split(s, seq!['\n']);
    let ended = p.drop_last().map_values(|l: Seq<char>| strip_cr(l));
    if p.last().len() == 0 {
        ended
    } else {
        ended.push(p.last())
    }
}

/// `str::lines`, collected into owned strings.
pub fn lines_of(s: &str) -> (res: Vec<String>)
    ensures
        res.deep_view() == lines(s@),
{
    proof {
        reveal_strlit("\n");
        assert("\n"@ =~= seq!['\n']);
    }
    let pieces = split_str(s, "\n");
    proof {
        lemma_split_nonempty(s@, seq!['\n']);
    }
    let ghost p = pieces.deep_view();
    let n = pieces.len();
    let mut res: Vec<String> = Vec::new();
    let mut i: usize = 0;
    while i + 1 < n
        invariant
            n == p.len(),
            n >= 1,
            p == pieces.deep_view(),
            i < n,
            res.deep_view() == p.take(i as int).map_values(|l: Seq<char>| strip_cr(l)),
        decreases n - i,
    {
        let chars = chars_of(pieces[i].as_str());
        let line = if chars.len() > 0 && chars[chars.len() - 1] == '\r' {
            string_of(&chars, 0, chars.len() - 1)
        } else {
            string_of(&chars, 0, chars.len())
        };
        proof {
            assert(chars@ == p[i as int]);
            assert(chars@.subrange(0, chars@.len() as int) =~= chars@);
            assert(chars@.subrange(0, chars@.len() - 1) =~= chars@.drop_last());
        }
        let ghost prev = res.deep_view();
        res.push(line);
        proof {
            assert(res.deep_view() =~= prev.push(strip_cr(p[i as int])));
            assert(p.take(i + 1).map_values(|l: Seq<char>| strip_cr(l)) =~= p.take(
                i as int,
            ).map_values(|l: Seq<char>| strip_cr(l)).push(strip_cr(p[i as int])));
        }
        i = i + 1;
    }
    assert(p.take(i as int) =~= p.drop_last());
    if pieces[n - 1].as_str().unicode_len() > 0 {
        let ghost prev = res.deep_view();
        res.push(pieces[n - 1].clone());
        assert(res.deep_view() =~= prev.push(p.last()));
    }
    res
}

/// `str::split_whitespace`: the maximal runs of non-whitespace characters.
pub open spec fn words(s: Seq<char>) -> Seq<Seq<char>>
    decreases s.len(),
{
    if s.len() == 0 {
        Seq::<Seq<char>>::empty()
    } else {
        let w = words(s.drop_last());
        let c = s.last();
        if is_white(c) {
            w
        } else if s.len() >= 2 && !is_white(s[s.len() - 2]) {
            w.update(w.len() - 1, w.last().push(c))
        } else {
            w.push(seq![c])
        }
    }
}

proof fn lemma_words_nonempty(s: Seq<char>)
    requires
        s.len() > 0,
        !is_white(s.last()),
    ensures
        words(s).len() > 0,
    decreases s.len(),
{
    if s.len() >= 2 && !is_white(s[s.len() - 2]) {
        assert(s.drop_last().last() == s[s.len() - 2]);
        lemma_words_nonempty(s.drop_last());
    }
}

/// `str::split_whitespace`, collected into owned strings.
pub fn words_of(s: &str) -> (res: Vec<String>)
    ensures
        res.deep_view() == words(s@),
{
    let chars = chars_of(s);
    let n = chars.len();
    let mut res: Vec<String> = Vec::new();
    let mut i: usize = 0;
    assert(chars@.take(0) =~= Seq::<char>::empty());
    while i < n
        invariant
            n == chars@.len(),
            chars@ == s@,
            i <= n,
            res.deep_view() == words(chars@.take(i as int)),
        decreases n - i,
    {
        let c = chars[i];
        let ghost t = chars@.take(i + 1);
        proof {
            assert(t.drop_last() =~= chars@.take(i as int));
            assert(t.last() == c);
            if i >= 1 {
                assert(t[t.len() - 2] == chars@[i - 1]);
            }
        }
        if is_whitespace(c) {
        } else if i >= 1 && !is_whitespace(chars[i - 1]) {
            proof {
                let pre = chars@.take(i as int);
                assert(pre.last() == chars@[i - 1]);
                lemma_words_nonempty(pre);
            }
            let ghost prev = res.deep_view();
            let mut last = res.pop().unwrap();
            push_char(&mut last, c);
            res.push(last);
            assert(res.deep_view() =~= prev.update(prev.len() - 1, prev.last().push(c)));
        } else {
            let ghost prev = res.deep_view();
            let mut word = String::new();
            push_char(&mut word, c);
            res.push(word);
            assert(res.deep_view() =~= prev.push(seq![c]));
        }
        i = i + 1;
    }
    assert(chars@.take(n as int) =~= chars@);
    res
}

/// Index of the first occurrence of `c` in `s`, if any.
pub open spec fn find_char(s: Seq<char>, c: char) -> Option<int>
    decreases s.len(),
{
    if s.len() == 0 {
        None
    } else if s[0] == c {
        Some(0)
    } else {
        match find_char(s.drop_first(), c) {
            Some(i) => Some(i + 1),
            None => None,
        }
    }
}

/// Past a prefix that does not hold `c`, the search goes on in the rest.
pub proof fn lemma_find_char_at(s: Seq<char>, c: char, i: int)
    requires
        0 <= i <= s.len(),
        forall|k: int| 0 <= k < i ==> #[trigger] s[k] != c,
    ensures
        find_char(s, c) == match find_char(s.skip(i), c) {
            Some(j) => Some(j + i),
            None => None::<int>,
        },
    decreases i,
{
    if i == 0 {
        assert(s.skip(0) =~= s);
        match find_char(s, c) {
            Some(j) => {},
            None => {},
        }
    } else {
        assert(s.drop_first().skip(i - 1) =~= s.skip(i));
        lemma_find_char_at(s.drop_first(), c, i - 1);
    }
}

/// Position of the first `c` in `chars`.
pub fn find_char_in(chars: &Vec<char>, c: char) -> (res: Option<usize>)
    ensures
        match res {
            Some(i) => find_char(chars@, c) == Some(i as int) && i < chars@.len() && chars@[i as int]
                == c,
            None => find_char(chars@, c) is None,
        },
{
    let n = chars.len();
    let mut i: usize = 0;
    while i < n
        invariant
            n == chars@.len(),
            i <= n,
            forall|k: int| 0 <= k < i ==> #[trigger] chars@[k] != c,
        decreases n - i,
    {
        if chars[i] == c {
            proof {
                lemma_find_char_at(chars@, c, i as int);
                assert(chars@.skip(i as int)[0] == c);
            }
            return Some(i);
        }
        i = i + 1;
    }
    proof {
        lemma_find_char_at(chars@, c, n as int);
    }
    None
}

} // verus!

verus! {

/// Each item wrapped between `before` and `after`.
pub open spec fn wrapped(items: Seq<Seq<char>>, before: Seq<char>, after: Seq<char>) -> Seq<Seq<char>> {
    items.map_values(|x: Seq<char>| before + x + after)
}

/// A list section of a summary: nothing for no items, else `head`, the wrapped
/// items separated by commas, and `tail`.
pub open spec fn listed(
    items: Seq<Seq<char>>,
    head: Seq<char>,
    before: Seq<char>,
    after: Seq<char>,
    tail: Seq<char>,
) -> Seq<char> {
    if items.len() == 0 {
        Seq::<char>::empty()
    } else {
        head + join(wrapped(items, before, after), ", "@) + tail
    }
}

/// Appends the list section of `items` to `out`.
pub fn push_listed(out: &mut String, items: &Vec<String>, head: &str, before: &str, after: &str, tail: &str)
    ensures
        final(out)@ == old(out)@ + listed(items.deep_view(), head@, before@, after@, tail@),
{
    if items.len() == 0 {
        assert(out@ =~= old(out)@ + Seq::<char>::empty());
        return;
    }
    let ghost target = wrapped(items.deep_view(), before@, after@);
    let mut parts: Vec<String> = Vec::new();
    let mut i: usize = 0;
    while i < items.len()
        invariant
            i <= items@.len(),
            target == wrapped(items.deep_view(), before@, after@),
            parts.deep_view() == target.take(i as int),
        decreases items.len() - i,
    {
        let mut w = String::from_str(before);
        w.append(items[i].as_str());
        w.append(after);
        let ghost prev = parts.deep_view();
        let ghost wv = w@;
        assert(items.deep_view()[i as int] == items@[i as int]@);
        assert(target[i as int] == wv);
        parts.push(w);
        assert(parts.deep_view() =~= prev.push(wv));
        assert(target.take(i + 1) =~= target.take(i as int).push(wv));
        i = i + 1;
    }
    assert(target.take(items@.len() as int) =~= target);
    let joined = join_strs(&parts, ", ");
    out.append(head);
    out.append(joined.as_str());
    out.append(tail);
    assert(out@ =~= old(out)@ + (head@ + join(target, ", "@) + tail@));
}

/// Whether two texts are equal when ASCII letters are compared without case.
pub open spec fn ascii_lower(c: char) -> char {
    if 0x41 <= (c as u32) <= 0x5A {
        ((c as u32) + 32) as char
    } else {
        c
    }
}

/// Whether two strings are equal once ASCII letters are folded to lower case.
pub open spec fn eq_ignore_ascii_case(a: Seq<char>, b: Seq<char>) -> bool {
    a.len() == b.len() && forall|i: int| 0 <= i < a.len() ==> ascii_lower(#[trigger] a[i]) == ascii_lower(b[i])
}

fn lower(c: char) -> (res: char)
    ensures
        res == ascii_lower(c),
{
    let u = c as u32;
    if 0x41 <= u && u <= 0x5A {
        match u {
            0x41 => 'a',
            0x42 => 'b',
            0x43 => 'c',
            0x44 => 'd',
            0x45 => 'e',
            0x46 => 'f',
            0x47 => 'g',
            0x48 => 'h',
            0x49 => 'i',
            0x4A => 'j',
            0x4B => 'k',
            0x4C => 'l',
            0x4D => 'm',
            0x4E => 'n',
            0x4F => 'o',
            0x50 => 'p',
            0x51 => 'q',
            0x52 => 'r',
            0x53 => 's',
            0x54 => 't',
            0x55 => 'u',
            0x56 => 'v',
            0x57 => 'w',
            0x58 => 'x',
            0x59 => 'y',
            _ => 'z',
        }
    } else {
        c
    }
}

/// `str::eq_ignore_ascii_case`.
pub fn same_ignoring_ascii_case(a: &str, b: &str) -> (res: bool)
    ensures
        res == eq_ignore_ascii_case(a@, b@),
{
    let x = chars_of(a);
    let y = chars_of(b);
    if x.len() != y.len() {
        return false;
    }
    let mut i: usize = 0;
    while i < x.len()
        invariant
            x@ == a@,
            y@ == b@,
            x@.len() == y@.len(),
            i <= x@.len(),
            forall|k: int| 0 <= k < i ==> ascii_lower(#[trigger] x@[k]) == ascii_lower(y@[k]),
        decreases x.len() - i,
    {
        if lower(x[i]) != lower(y[i]) {
            return false;
        }
        i = i + 1;
    }
    true
}

/// Number of occurrences of `c` in `s`.
pub open spec fn count_char(s: Seq<char>, c: char) -> nat
    decreases s.len(),
{
    if s.len() == 0 {
        0
    } else {
        count_char(s.drop_last(), c) + if s.last() == c {
            1nat
        } else {
            0nat
        }
    }
}

/// Occurrences in a concatenation add up.
pub proof fn lemma_count_char_concat(a: Seq<char>, b: Seq<char>, c: char)
    ensures
        count_char(a + b, c) == count_char(a, c) + count_char(b, c),
    decreases b.len(),
{
    if b.len() == 0 {
        assert(a + b =~= a);
    } else {
        assert((a + b).drop_last() =~= a + b.drop_last());
        lemma_count_char_concat(a, b.drop_last(), c);
    }
}

/// A character that does not occur is counted zero times.
pub proof fn lemma_count_char_absent(s: Seq<char>, c: char)
    requires
        !s.contains(c),
    ensures
        count_char(s, c) == 0,
    decreases s.len(),
{
    if s.len() > 0 {
        assert(s.drop_last().len() < s.len());
        assert forall|k: int| 0 <= k < s.drop_last().len() implies #[trigger] s.drop_last()[k] != c by {
            assert(s.drop_last()[k] == s[k]);
        }
        assert(s.last() == s[s.len() - 1]);
        lemma_count_char_absent(s.drop_last(), c);
    }
}

/// `s` with its first character left out.
pub fn without_first(s: &str) -> (res: String)
    requires
        s@.len() > 0,
    ensures
        res@ == s@.drop_first(),
{
    let c = chars_of(s);
    let r = string_of(&c, 1, c.len());
    assert(c@.subrange(1, c@.len() as int) =~= c@.drop_first());
    r
}

} // verus!

verus! {

/// `text` when `cond` holds, nothing otherwise.
pub open spec fn shown_if(cond: bool, text: Seq<char>) -> Seq<char> {
    if cond {
        text
    } else {
        Seq::<char>::empty()
    }
}

/// Appends `text` to `out` when `cond` holds.
pub fn push_if(out: &mut String, cond: bool, text: &str)
    ensures
        final(out)@ == old(out)@ + shown_if(cond, text@),
{
    if cond {
        out.append(text);
    } else {
        assert(out@ =~= old(out)@ + Seq::<char>::empty());
    }
}

} // verus!

verus! {

/// `head`, `x` and `tail` when there is an `x`, nothing otherwise.
pub open spec fn optional(x: Option<Seq<char>>, head: Seq<char>, tail: Seq<char>) -> Seq<char> {
    match x {
        Some(v) => head + v + tail,
        None => Seq::<char>::empty(),
    }
}

/// Appends `head`, `x` and `tail` to `out` when there is an `x`.
pub fn push_optional(out: &mut String, x: &Option<String>, head: &str, tail: &str)
    ensures
        final(out)@ == old(out)@ + optional(x.deep_view(), head@, tail@),
{
    match x {
        Some(v) => {
            out.append(head);
            out.append(v.as_str());
            out.append(tail);
            assert(out@ =~= old(out)@ + (head@ + v@ + tail@));
        },
        None => {
            assert(out@ =~= old(out)@ + Seq::<char>::empty());
        },
    }
}

} // verus!

verus! {

/// The empty string literal holds no character.
pub proof fn lemma_empty_str()
    ensures
        ""@ == Seq::<char>::empty(),
{
    reveal_strlit("");
    assert(""@ =~= Seq::<char>::empty());
}

} // verus!
