//! Text, as sequences of characters: joining, searching, splitting and trimming.
use vstd::prelude::*;
use vstd::string::*;

verus! {

broadcast use vstd::string::group_string_axioms;

/// The views of a list of strings.
pub open spec fn texts(list: Seq<String>) -> Seq<Seq<char>> {
    list.map_values(|s: String| s@)
}

/// The view of an optional string.
pub open spec fn opt_text(s: Option<String>) -> Option<Seq<char>> {
    match s {
        Some(s) => Some(s@),
        None => None,
    }
}

/// The view of an optional text.
pub open spec fn opt_str(s: Option<&str>) -> Option<Seq<char>> {
    match s {
        Some(s) => Some(s@),
        None => None,
    }
}

/// The views of a list of pairs of strings.
pub open spec fn text_pairs(list: Seq<(String, String)>) -> Seq<(Seq<char>, Seq<char>)> {
    list.map_values(|p: (String, String)| (p.0@, p.1@))
}

/// `text`, or `default` where there is none.
pub open spec fn text_or(text: Option<Seq<char>>, default: Seq<char>) -> Seq<char> {
    match text {
        Some(t) => t,
        None => default,
    }
}

/// The characters of `s`, in order.
pub fn chars_of(s: &str) -> (r: Vec<char>)
    ensures
        r@ == s@,
{
    let mut r: Vec<char> = Vec::new();
    for c in it: s.chars()
        invariant
            it.seq() == s@,
            r@ == s@.take(it.index()),
    {
        proof {
            assert(s@.take(it.index() + 1) =~= s@.take(it.index()).push(s@[it.index()]));
        }
        r.push(c);
    }
    assert(s@.take(s@.len() as int) =~= s@);
    r
}

/// Whether two texts are the same.
pub fn same_text(a: &str, b: &str) -> (r: bool)
    ensures
        r == (a@ == b@),
{
    a.to_owned() == b.to_owned()
}

/// The two texts, one after the other.
pub fn join2(a: &str, b: &str) -> (r: String)
    ensures
        r@ == a@ + b@,
{
    a.to_owned().concat(b)
}

/// The three texts, one after the other.
pub fn join3(a: &str, b: &str, c: &str) -> (r: String)
    ensures
        r@ == a@ + b@ + c@,
{
    a.to_owned().concat(b).concat(c)
}

/// The four texts, one after the other.
pub fn join4(a: &str, b: &str, c: &str, d: &str) -> (r: String)
    ensures
        r@ == a@ + b@ + c@ + d@,
{
    a.to_owned().concat(b).concat(c).concat(d)
}

/// A copy of a list of strings.
pub fn clone_texts(list: &Vec<String>) -> (r: Vec<String>)
    ensures
        texts(r@) == texts(list@),
        r.len() == list.len(),
        forall|k: int| 0 <= k < list.len() ==> (#[trigger] r[k])@ == list[k]@,
{
    let mut r: Vec<String> = Vec::new();
    for i in 0..list.len()
        invariant
            r.len() == i,
            forall|k: int| 0 <= k < i ==> r[k]@ == list[k]@,
    {
        r.push(list[i].clone());
    }
    assert(texts(r@) =~= texts(list@));
    r
}

/// A copy of an optional string.
pub fn clone_opt_text(text: &Option<String>) -> (r: Option<String>)
    ensures
        opt_text(r) == opt_text(*text),
        r is Some <==> *text is Some,
        r matches Some(copy) ==> copy@ == (text->0)@,
{
    match text {
        Some(t) => Some(t.clone()),
        None => None,
    }
}

/// `needle` stands in `hay` at position `at`.
pub open spec fn occurs_at(hay: Seq<char>, needle: Seq<char>, at: int) -> bool {
    0 <= at && at + needle.len() <= hay.len() && hay.subrange(at, at + needle.len()) == needle
}

/// `needle` stands somewhere in `hay`.
pub open spec fn contains_text(hay: Seq<char>, needle: Seq<char>) -> bool {
    exists|at: int| occurs_at(hay, needle, at)
}

fn occurs_here(hay: &Vec<char>, needle: &Vec<char>, at: usize) -> (r: bool)
    requires
        at + needle.len() <= hay.len(),
    ensures
        r == occurs_at(hay@, needle@, at as int),
{
    for k in 0..needle.len()
        invariant
            at + needle.len() <= hay.len(),
            forall|j: int| 0 <= j < k ==> hay[at + j] == needle[j],
    {
        if hay[at + k] != needle[k] {
            assert(hay@.subrange(at as int, at + needle.len())[k as int] != needle@[k as int]);
            return false;
        }
    }
    assert(hay@.subrange(at as int, at + needle.len()) =~= needle@);
    true
}

/// Whether `needle` stands somewhere in `hay`; the empty text stands in every text.
pub fn has_text(hay: &str, needle: &str) -> (r: bool)
    ensures
        r == contains_text(hay@, needle@),
        r <==> exists|a: Seq<char>, b: Seq<char>| #[trigger] (a + needle@ + b) == hay@,
{
    proof {
        law_contained_text_has_something_around_it(hay@, needle@);
    }
    let h = chars_of(hay);
    let n = chars_of(needle);
    if n.len() > h.len() {
        return false;
    }
    let last: usize = h.len() - n.len();
    let mut at: usize = 0;
    while at <= last
        invariant
            h@ == hay@,
            n@ == needle@,
            n.len() <= h.len(),
            last == h.len() - n.len(),
            at <= last + 1,
            forall|k: int| 0 <= k < at ==> !occurs_at(h@, n@, k),
        decreases last + 1 - at,
    {
        proof {
            law_contained_text_has_something_around_it(hay@, needle@);
        }
        if occurs_here(&h, &n, at) {
            return true;
        }
        if at == last {
            return false;
        }
        at += 1;
    }
    false
}

/// Whether `s` begins with `prefix`.
pub fn begins_with(s: &str, prefix: &str) -> (r: bool)
    ensures
        r == prefix@.is_prefix_of(s@),
{
    let h = chars_of(s);
    let n = chars_of(prefix);
    if n.len() > h.len() {
        return false;
    }
    occurs_here(&h, &n, 0)
}

/// The characters with the Unicode property White_Space.
pub open spec fn white_space(c: char) -> bool {
    let u = c as u32;
    ||| 0x09 <= u <= 0x0d
    ||| u == 0x20
    ||| u == 0x85
    ||| u == 0xa0
    ||| u == 0x1680
    ||| 0x2000 <= u <= 0x200a
    ||| u == 0x2028
    ||| u == 0x2029
    ||| u == 0x202f
    ||| u == 0x205f
    ||| u == 0x3000
}

/// Whether `c` is white space.
pub fn is_white_space(c: char) -> (r: bool)
    ensures
        r == white_space(c),
{
    let u: u32 = c as u32;
    (0x09 <= u && u <= 0x0d) || u == 0x20 || u == 0x85 || u == 0xa0 || u == 0x1680 || (0x2000 <= u
        && u <= 0x200a) || u == 0x2028 || u == 0x2029 || u == 0x202f || u == 0x205f || u == 0x3000
}

/// `s` without the white space that it begins with.
pub open spec fn trim_start(s: Seq<char>) -> Seq<char>
    decreases s.len(),
{
    if s.len() > 0 && white_space(s[0]) {
        trim_start(s.drop_first())
    } else {
        s
    }
}

/// `s` without the white space that it ends with.
pub open spec fn trim_end(s: Seq<char>) -> Seq<char>
    decreases s.len(),
{
    if s.len() > 0 && white_space(s.last()) {
        trim_end(s.drop_last())
    } else {
        s
    }
}

/// `s` without the white space at either end.
pub open spec fn trimmed(s: Seq<char>) -> Seq<char> {
    trim_end(trim_start(s))
}

/// `s` without the white space at either end.
#[verifier::spinoff_prover]
#[verifier::rlimit(40)]
pub fn trim(s: &str) -> (r: String)
    ensures
        r@ == trimmed(s@),
{
    let cs = chars_of(s);
    let mut from: usize = 0;
    assert(s@.skip(0) =~= s@);
    while from < cs.len() && is_white_space(cs[from])
        invariant
            cs@ == s@,
            from <= cs.len(),
            trim_start(s@) == trim_start(s@.skip(from as int)),
        decreases cs.len() - from,
    {
        assert(s@.skip(from as int).drop_first() =~= s@.skip(from + 1));
        from += 1;
    }
    let ghost left = s@.skip(from as int);
    let mut to: usize = cs.len();
    assert(left.take(to - from) =~= left);
    while to > from && is_white_space(cs[to - 1])
        invariant
            cs@ == s@,
            left == s@.skip(from as int),
            from <= to <= cs.len(),
            trim_end(left) == trim_end(left.take(to - from)),
        decreases to,
    {
        assert(left.take(to - from).drop_last() =~= left.take(to - 1 - from));
        to -= 1;
    }
    assert(s@.subrange(from as int, to as int) =~= left.take(to - from));
    s.substring_char(from, to).to_owned()
}

/// The parts of `s` between the occurrences of `sep`; one more than there are
/// occurrences.
pub open spec fn split_on(s: Seq<char>, sep: char) -> Seq<Seq<char>>
    decreases s.len(),
{
    if s.len() == 0 {
        seq![s]
    } else {
        let rest = split_on(s.drop_last(), sep);
        if s.last() == sep {
            rest.push(Seq::<char>::empty())
        } else {
            rest.drop_last().push(rest.last().push(s.last()))
        }
    }
}

/// The parts of `s` between the occurrences of `sep`, each trimmed.
pub open spec fn split_trimmed(s: Seq<char>, sep: char) -> Seq<Seq<char>> {
    split_on(s, sep).map_values(|part: Seq<char>| trimmed(part))
}

/// The parts, glued together again with `sep` between them.
pub open spec fn joined_with(parts: Seq<Seq<char>>, sep: char) -> Seq<char>
    decreases parts.len(),
{
    if parts.len() == 0 {
        Seq::<char>::empty()
    } else if parts.len() == 1 {
        parts[0]
    } else {
        joined_with(parts.drop_last(), sep).push(sep) + parts.last()
    }
}

proof fn lemma_split_on_nonempty(s: Seq<char>, sep: char)
    ensures
        split_on(s, sep).len() >= 1,
    decreases s.len(),
{
    if s.len() > 0 {
        lemma_split_on_nonempty(s.drop_last(), sep);
    }
}

/// Splitting loses nothing but the separators: gluing the parts together again
/// gives the text that was split, and no part holds a separator.
pub proof fn law_split_is_undone_by_joining(s: Seq<char>, sep: char)
    ensures
        split_on(s, sep).len() >= 1,
        joined_with(split_on(s, sep), sep) == s,
        forall|k: int, j: int|
            0 <= k < split_on(s, sep).len() && 0 <= j < split_on(s, sep)[k].len()
                ==> #[trigger] split_on(s, sep)[k][j] != sep,
    decreases s.len(),
{
    if s.len() > 0 {
        let rest = split_on(s.drop_last(), sep);
        law_split_is_undone_by_joining(s.drop_last(), sep);
        assert(s =~= s.drop_last().push(s.last()));
        let parts = split_on(s, sep);
        if s.last() == sep {
            assert(parts.drop_last() =~= rest);
            assert(joined_with(parts, sep) =~= s);
        } else {
            assert(parts.drop_last() =~= rest.drop_last());
            assert(joined_with(parts, sep) =~= joined_with(rest, sep).push(s.last()));
        }
    }
}

/// Trimming leaves a part of the text that white space neither begins nor ends.
pub proof fn law_trimmed_has_no_outer_space(s: Seq<char>)
    ensures
        trimmed(s).len() > 0 ==> !white_space(trimmed(s)[0]) && !white_space(trimmed(s).last()),
        contains_text(s, trimmed(s)),
        trimmed(trimmed(s)) == trimmed(s),
{
    let t = trim_start(s);
    lemma_trim_start(s);
    lemma_trim_end(t);
    let n = trimmed(s).len();
    let at = s.len() - t.len();
    assert(s.subrange(at, at + n) =~= trimmed(s));
    assert(occurs_at(s, trimmed(s), at));
}

proof fn lemma_trim_start(s: Seq<char>)
    ensures
        trim_start(s).len() <= s.len(),
        trim_start(s) == s.skip(s.len() - trim_start(s).len()),
        trim_start(s).len() > 0 ==> !white_space(trim_start(s)[0]),
    decreases s.len(),
{
    if s.len() > 0 && white_space(s[0]) {
        lemma_trim_start(s.drop_first());
        assert(s.drop_first().skip(s.drop_first().len() - trim_start(s).len()) =~= s.skip(
            s.len() - trim_start(s).len(),
        ));
    } else {
        assert(s.skip(0) =~= s);
    }
}

proof fn lemma_trim_end(s: Seq<char>)
    ensures
        trim_end(s).len() <= s.len(),
        trim_end(s) == s.take(trim_end(s).len() as int),
        trim_end(s).len() > 0 ==> !white_space(trim_end(s).last()),
    decreases s.len(),
{
    if s.len() > 0 && white_space(s.last()) {
        lemma_trim_end(s.drop_last());
        assert(s.drop_last().take(trim_end(s).len() as int) =~= s.take(trim_end(s).len() as int));
    } else {
        assert(s.take(s.len() as int) =~= s);
    }
}

/// The parts of `s` between the occurrences of `sep`, each trimmed.
pub fn split_and_trim(s: &str, sep: char) -> (r: Vec<String>)
    ensures
        texts(r@) == split_trimmed(s@, sep),
{
    let cs = chars_of(s);
    let mut r: Vec<String> = Vec::new();
    let mut from: usize = 0;
    let mut i: usize = 0;
    assert(s@.take(0) =~= Seq::<char>::empty());
    assert(s@.subrange(0, 0) =~= Seq::<char>::empty());
    while i < cs.len()
        invariant
            cs@ == s@,
            from <= i <= cs.len(),
            split_on(s@.take(i as int), sep).len() == r.len() + 1,
            split_on(s@.take(i as int), sep).last() == s@.subrange(from as int, i as int),
            forall|k: int|
                0 <= k < r.len() ==> #[trigger] r[k]@ == trimmed(
                    split_on(s@.take(i as int), sep)[k],
                ),
        decreases cs.len() - i,
    {
        let ghost before = split_on(s@.take(i as int), sep);
        proof {
            assert(s@.take(i + 1).drop_last() =~= s@.take(i as int));
        }
        if cs[i] == sep {
            let part = trim(s.substring_char(from, i));
            r.push(part);
            from = i + 1;
            assert(s@.subrange(i + 1, i + 1) =~= Seq::<char>::empty());
        } else {
            assert(s@.subrange(from as int, i + 1) =~= s@.subrange(from as int, i as int).push(
                s@[i as int],
            ));
        }
        i += 1;
    }
    assert(s@.take(cs.len() as int) =~= s@);
    let part = trim(s.substring_char(from, cs.len()));
    r.push(part);
    assert(texts(r@) =~= split_trimmed(s@, sep));
    r
}

/// The view of a list or of an option holds the texts that stand there, each in its
/// place.
pub proof fn law_views_hold_the_texts(
    list: Seq<String>,
    pairs: Seq<(String, String)>,
    owned: Option<String>,
    borrowed: Option<&str>,
    default: Seq<char>,
)
    ensures
        texts(list).len() == list.len(),
        forall|k: int| 0 <= k < list.len() ==> #[trigger] texts(list)[k] == list[k]@,
        text_pairs(pairs).len() == pairs.len(),
        forall|k: int|
            0 <= k < pairs.len() ==> (#[trigger] text_pairs(pairs)[k]).0 == pairs[k].0@
                && text_pairs(pairs)[k].1 == pairs[k].1@,
        opt_text(owned) is Some <==> owned is Some,
        owned is Some ==> opt_text(owned)->0 == (owned->0)@,
        opt_str(borrowed) is Some <==> borrowed is Some,
        borrowed is Some ==> opt_str(borrowed)->0 == (borrowed->0)@,
        text_or(None, default) == default,
        owned is Some ==> text_or(Some((owned->0)@), default) == (owned->0)@,
{
}

/// A text stands in another exactly where the other is made of something, the text, and
/// something more.
pub proof fn law_contained_text_has_something_around_it(hay: Seq<char>, needle: Seq<char>)
    ensures
        contains_text(hay, needle) <==> exists|a: Seq<char>, b: Seq<char>| #[trigger]
            (a + needle + b) == hay,
{
    if contains_text(hay, needle) {
        let at = choose|at: int| occurs_at(hay, needle, at);
        let a = hay.take(at);
        let b = hay.skip(at + needle.len());
        assert(a + needle + b =~= hay);
    }
    if exists|a: Seq<char>, b: Seq<char>| #[trigger] (a + needle + b) == hay {
        let (a, b) = choose|a: Seq<char>, b: Seq<char>| #[trigger] (a + needle + b) == hay;
        let at = a.len() as int;
        assert(hay.subrange(at, at + needle.len()) =~= needle);
        assert(occurs_at(hay, needle, at));
    }
}

proof fn lemma_trim_start_takes_space(s: Seq<char>)
    ensures
        forall|k: int| 0 <= k < s.len() - trim_start(s).len() ==> white_space(#[trigger] s[k]),
    decreases s.len(),
{
    if s.len() > 0 && white_space(s[0]) {
        let rest = s.drop_first();
        lemma_trim_start_takes_space(rest);
        lemma_trim_start(s);
        assert forall|k: int| 0 <= k < s.len() - trim_start(s).len() implies white_space(
            #[trigger] s[k],
        ) by {
            if k > 0 {
                assert(rest[k - 1] == s[k]);
            }
        }
    }
}

proof fn lemma_trim_end_takes_space(s: Seq<char>)
    ensures
        forall|k: int| trim_end(s).len() <= k < s.len() ==> white_space(#[trigger] s[k]),
    decreases s.len(),
{
    if s.len() > 0 && white_space(s.last()) {
        let rest = s.drop_last();
        lemma_trim_end_takes_space(rest);
        assert forall|k: int| trim_end(s).len() <= k < s.len() implies white_space(
            #[trigger] s[k],
        ) by {
            if k < s.len() - 1 {
                assert(rest[k] == s[k]);
            }
        }
    }
}

/// A text is what trimming leaves of it, between white space: so trimming takes white
/// space only, and only at the ends.
pub proof fn law_trimming_takes_outer_space_only(s: Seq<char>)
    ensures
        exists|i: int|
            0 <= i <= s.len() - trimmed(s).len() && #[trigger] s.skip(i).take(
                trimmed(s).len() as int,
            ) == trimmed(s) && (forall|k: int|
                0 <= k < s.len() && !(i <= k < i + trimmed(s).len()) ==> white_space(
                    #[trigger] s[k],
                )),
        trimmed(s).len() > 0 ==> !white_space(trimmed(s)[0]) && !white_space(trimmed(s).last()),
{
    let t = trim_start(s);
    let r = trimmed(s);
    lemma_trim_start(s);
    lemma_trim_end(t);
    lemma_trim_start_takes_space(s);
    lemma_trim_end_takes_space(t);
    let i = s.len() - t.len();
    assert(s.skip(i).take(r.len() as int) =~= r);
    assert forall|k: int| 0 <= k < s.len() && !(i <= k < i + r.len()) implies white_space(
        #[trigger] s[k],
    ) by {
        if k >= i {
            assert(t[k - i] == s[k]);
        }
    }
}

proof fn lemma_split_without(s: Seq<char>, sep: char)
    requires
        forall|k: int| 0 <= k < s.len() ==> #[trigger] s[k] != sep,
    ensures
        split_on(s, sep) == seq![s],
    decreases s.len(),
{
    if s.len() > 0 {
        lemma_split_without(s.drop_last(), sep);
        assert(s.drop_last().push(s.last()) =~= s);
        assert(split_on(s, sep) =~= seq![s]);
    }
}

proof fn lemma_split_at(a: Seq<char>, b: Seq<char>, sep: char)
    ensures
        split_on(a.push(sep) + b, sep) == split_on(a, sep) + split_on(b, sep),
    decreases b.len(),
{
    let all = a.push(sep) + b;
    lemma_split_on_nonempty(b, sep);
    if b.len() == 0 {
        assert(all.drop_last() =~= a);
        assert(b =~= Seq::<char>::empty());
        assert(split_on(all, sep) =~= split_on(a, sep) + split_on(b, sep));
    } else {
        let rest = b.drop_last();
        lemma_split_at(a, rest, sep);
        lemma_split_on_nonempty(rest, sep);
        assert(all.drop_last() =~= a.push(sep) + rest);
        assert(all.last() == b.last());
        assert(split_on(all, sep) =~= split_on(a, sep) + split_on(b, sep));
    }
}

/// A text with a separator in it is split into the parts of what stands before it and
/// the parts of what stands after it; a text without one is its own only part. The
/// same holds where each part is trimmed.
pub proof fn law_splitting_is_done_at_each_separator(a: Seq<char>, b: Seq<char>, sep: char)
    ensures
        split_on(a + seq![sep] + b, sep) == split_on(a, sep) + split_on(b, sep),
        split_trimmed(a + seq![sep] + b, sep) == split_trimmed(a, sep) + split_trimmed(b, sep),
        (forall|k: int| 0 <= k < a.len() ==> #[trigger] a[k] != sep) ==> split_on(a, sep)
            == seq![a] && split_trimmed(a, sep) == seq![trimmed(a)],
{
    assert(a + seq![sep] =~= a.push(sep));
    lemma_split_at(a, b, sep);
    assert(split_trimmed(a + seq![sep] + b, sep) =~= split_trimmed(a, sep) + split_trimmed(b, sep));
    if forall|k: int| 0 <= k < a.len() ==> #[trigger] a[k] != sep {
        lemma_split_without(a, sep);
        assert(split_trimmed(a, sep) =~= seq![trimmed(a)]);
    }
}

} // verus!
