use vstd::prelude::*;

verus! {

/// Unicode `White_Space` property, the set that `char::is_whitespace` and
/// `str::trim` use.
pub open spec fn is_white_space(c: char) -> bool {
    let v = c as u32;
    ||| 0x9 <= v <= 0xd
    ||| v == 0x20
    ||| v == 0x85
    ||| v == 0xa0
    ||| v == 0x1680
    ||| 0x2000 <= v <= 0x200a
    ||| v == 0x2028
    ||| v == 0x2029
    ||| v == 0x202f
    ||| v == 0x205f
    ||| v == 0x3000
}

/// `s` without its leading white space.
pub open spec fn trim_start(s: Seq<char>) -> Seq<char>
    decreases s.len(),
{
    if s.len() > 0 && is_white_space(s[0]) {
        trim_start(s.drop_first())
    } else {
        s
    }
}

/// `s` without its trailing white space.
pub open spec fn trim_end(s: Seq<char>) -> Seq<char>
    decreases s.len(),
{
    if s.len() > 0 && is_white_space(s.last()) {
        trim_end(s.drop_last())
    } else {
        s
    }
}

/// `s` without leading and trailing white space, as `str::trim` gives it.
pub open spec fn trim(s: Seq<char>) -> Seq<char> {
    trim_end(trim_start(s))
}

/// `s` without the trailing run of the character `c`.
pub open spec fn trim_end_char(s: Seq<char>, c: char) -> Seq<char>
    decreases s.len(),
{
    if s.len() > 0 && s.last() == c {
        trim_end_char(s.drop_last(), c)
    } else {
        s
    }
}

/// Separators of a configured list: white space or a comma.
pub open spec fn is_list_separator(c: char) -> bool {
    is_white_space(c) || c == ','
}

/// The fields of `s` between separators, empty ones included, as `str::split` gives them.
pub open spec fn split_fields(s: Seq<char>) -> Seq<Seq<char>>
    decreases s.len(),
{
    if s.len() == 0 {
        seq![Seq::<char>::empty()]
    } else {
        let fields = split_fields(s.drop_last());
        if is_list_separator(s.last()) {
            fields.push(Seq::<char>::empty())
        } else {
            fields.update(fields.len() - 1, fields.last().push(s.last()))
        }
    }
}

pub open spec fn is_nonempty(field: Seq<char>) -> bool {
    field.len() > 0
}

pub open spec fn nonempty_field() -> spec_fn(Seq<char>) -> bool {
    |field: Seq<char>| is_nonempty(field)
}

/// The non-empty items of a white-space or comma separated list.
pub open spec fn list_items(s: Seq<char>) -> Seq<Seq<char>> {
    split_fields(s).filter(nonempty_field())
}

pub open spec fn strings_view(v: Seq<String>) -> Seq<Seq<char>> {
    v.map_values(|s: String| s@)
}

pub open spec fn option_view(o: Option<String>) -> Option<Seq<char>> {
    match o {
        Some(s) => Some(s@),
        None => None,
    }
}

pub proof fn lemma_split_fields_nonempty(s: Seq<char>)
    ensures
        split_fields(s).len() > 0,
    decreases s.len(),
{
    if s.len() > 0 {
        lemma_split_fields_nonempty(s.drop_last());
    }
}

/// `String::push`: appends `c` to `s`.
#[verifier::external_body]
pub(crate) fn push_char(s: &mut String, c: char)
    ensures
        final(s)@ == old(s)@.push(c),
{
    s.push(c);
}

/// The characters of a string slice, in order.
pub fn chars_of(s: &str) -> (result: Vec<char>)
    ensures
        result@ == s@,
{
    let mut result: Vec<char> = Vec::new();
    for c in it: s.chars()
        invariant
            result@ == it.seq().take(it.index() as int),
            it.seq() == s@,
    {
        result.push(c);
    }
    result
}

/// A string made of the characters `v[start..end]`.
pub fn string_from_chars(v: &Vec<char>, start: usize, end: usize) -> (result: String)
    requires
        start <= end <= v.len(),
    ensures
        result@ == v@.subrange(start as int, end as int),
{
    let mut result = String::new();
    let mut i = start;
    while i < end
        invariant
            start <= i <= end <= v.len(),
            result@ == v@.subrange(start as int, i as int),
        decreases end - i,
    {
        push_char(&mut result, v[i]);
        assert(v@.subrange(start as int, i + 1) == v@.subrange(start as int, i as int).push(v@[i as int]));
        i = i + 1;
    }
    result
}

/// Whether two character sequences are equal.
pub fn chars_eq(a: &Vec<char>, b: &Vec<char>) -> (result: bool)
    ensures
        result == (a@ == b@),
{
    if a.len() != b.len() {
        return false;
    }
    let mut i: usize = 0;
    while i < a.len()
        invariant
            a.len() == b.len(),
            i <= a.len(),
            forall|j: int| 0 <= j < i ==> a@[j] == b@[j],
        decreases a.len() - i,
    {
        if a[i] != b[i] {
            return false;
        }
        i = i + 1;
    }
    assert(a@ =~= b@);
    true
}

/// Whether two string slices hold the same characters.
pub fn str_eq(a: &str, b: &str) -> (result: bool)
    ensures
        result == (a@ == b@),
{
    let va = chars_of(a);
    let vb = chars_of(b);
    chars_eq(&va, &vb)
}

/// Whether `s` begins with `prefix`.
pub fn starts_with(s: &str, prefix: &str) -> (result: bool)
    ensures
        result == prefix@.is_prefix_of(s@),
{
    let vs = chars_of(s);
    let vp = chars_of(prefix);
    if vp.len() > vs.len() {
        return false;
    }
    let mut i: usize = 0;
    while i < vp.len()
        invariant
            vp.len() <= vs.len(),
            vs@ == s@,
            vp@ == prefix@,
            i <= vp.len(),
            forall|j: int| 0 <= j < i ==> vp@[j] == vs@[j],
        decreases vp.len() - i,
    {
        if vp[i] != vs[i] {
            return false;
        }
        i = i + 1;
    }
    true
}

/// Whether `c` is Unicode white space.
pub fn is_whitespace(c: char) -> (result: bool)
    ensures
        result == is_white_space(c),
{
    let v = c as u32;
    (0x9 <= v && v <= 0xd) || v == 0x20 || v == 0x85 || v == 0xa0 || v == 0x1680 || (0x2000 <= v
        && v <= 0x200a) || v == 0x2028 || v == 0x2029 || v == 0x202f || v == 0x205f || v == 0x3000
}

/// `s` without leading and trailing white space.
pub fn trim_str(s: &str) -> (result: String)
    ensures
        result@ == trim(s@),
{
    let v = chars_of(s);
    let n = v.len();
    let mut i: usize = 0;
    assert(v@.subrange(0, n as int) =~= v@);
    while i < n && is_whitespace(v[i])
        invariant
            n == v.len(),
            i <= n,
            trim_start(v@) == trim_start(v@.subrange(i as int, n as int)),
        decreases n - i,
    {
        assert(v@.subrange(i as int, n as int).drop_first() =~= v@.subrange(i + 1, n as int));
        i = i + 1;
    }
    assert(trim_start(v@) == v@.subrange(i as int, n as int));
    let mut j: usize = n;
    while j > i && is_whitespace(v[j - 1])
        invariant
            n == v.len(),
            i <= j <= n,
            trim_end(v@.subrange(i as int, n as int)) == trim_end(v@.subrange(i as int, j as int)),
        decreases j - i,
    {
        assert(v@.subrange(i as int, j as int).drop_last() =~= v@.subrange(i as int, j - 1));
        j = j - 1;
    }
    string_from_chars(&v, i, j)
}

/// `s` without its trailing run of `c`, as `str::trim_end_matches` gives it for one character.
pub fn trim_end_matches_char(s: &str, c: char) -> (result: String)
    ensures
        result@ == trim_end_char(s@, c),
{
    let v = chars_of(s);
    let mut j: usize = v.len();
    assert(v@.subrange(0, j as int) =~= v@);
    while j > 0 && v[j - 1] == c
        invariant
            j <= v.len(),
            trim_end_char(v@, c) == trim_end_char(v@.subrange(0, j as int), c),
        decreases j,
    {
        assert(v@.subrange(0, j as int).drop_last() =~= v@.subrange(0, j - 1));
        j = j - 1;
    }
    assert(v@.subrange(0, v@.len() as int) =~= v@);
    string_from_chars(&v, 0, j)
}

/// Whether `c` separates the items of a configured list.
pub fn is_separator(c: char) -> (result: bool)
    ensures
        result == is_list_separator(c),
{
    is_whitespace(c) || c == ','
}

proof fn lemma_filter_push_empty(s: Seq<Seq<char>>)
    ensures
        s.push(Seq::<char>::empty()).filter(nonempty_field()) == s.filter(nonempty_field()),
{
    reveal_with_fuel(Seq::filter, 1);
    assert(s.push(Seq::<char>::empty()).drop_last() =~= s);
}

proof fn lemma_filter_push_nonempty(s: Seq<Seq<char>>, x: Seq<char>)
    requires
        x.len() > 0,
    ensures
        s.push(x).filter(nonempty_field()) == s.filter(nonempty_field()).push(x),
{
    reveal_with_fuel(Seq::filter, 1);
    assert(s.push(x).drop_last() =~= s);
}

/// The non-empty items of a list separated by white space or commas.
pub fn split_list(s: &str) -> (result: Vec<String>)
    ensures
        strings_view(result@) == list_items(s@),
{
    let v = chars_of(s);
    let mut items: Vec<String> = Vec::new();
    let mut current: Vec<char> = Vec::new();
    let mut i: usize = 0;
    proof {
        assert(v@.subrange(0, 0) =~= Seq::<char>::empty());
    }
    while i < v.len()
        invariant
            i <= v.len(),
            v@ == s@,
            split_fields(v@.subrange(0, i as int)).len() > 0,
            current@ == split_fields(v@.subrange(0, i as int)).last(),
            strings_view(items@) == split_fields(v@.subrange(0, i as int)).drop_last().filter(nonempty_field()),
        decreases v.len() - i,
    {
        let ghost prefix = v@.subrange(0, i as int);
        let ghost next = v@.subrange(0, i + 1);
        assert(next.drop_last() =~= prefix);
        assert(next.last() == v@[i as int]);
        let ghost fields = split_fields(prefix);
        let c = v[i];
        if is_separator(c) {
            assert(split_fields(next) == fields.push(Seq::<char>::empty()));
            assert(split_fields(next).drop_last() =~= fields);
            assert(fields =~= fields.drop_last().push(fields.last()));
            if current.len() > 0 {
                let item = string_from_chars(&current, 0, current.len());
                assert(current@.subrange(0, current@.len() as int) =~= current@);
                let ghost before = items@;
                items.push(item);
                proof {
                    lemma_filter_push_nonempty(fields.drop_last(), fields.last());
                    assert(strings_view(items@) =~= strings_view(before).push(item@));
                }
            } else {
                proof {
                    assert(current@ =~= Seq::<char>::empty());
                    lemma_filter_push_empty(fields.drop_last());
                }
            }
            current = Vec::new();
        } else {
            current.push(c);
            assert(split_fields(next) == fields.update(fields.len() - 1, fields.last().push(c)));
            assert(split_fields(next).drop_last() =~= fields.drop_last());
        }
        i = i + 1;
    }
    assert(v@.subrange(0, v@.len() as int) =~= v@);
    let ghost fields = split_fields(v@);
    assert(fields =~= fields.drop_last().push(fields.last()));
    if current.len() > 0 {
        let item = string_from_chars(&current, 0, current.len());
        assert(current@.subrange(0, current@.len() as int) =~= current@);
        let ghost before = items@;
        items.push(item);
        proof {
            lemma_filter_push_nonempty(fields.drop_last(), fields.last());
            assert(strings_view(items@) =~= strings_view(before).push(item@));
        }
    } else {
        proof {
            assert(current@ =~= Seq::<char>::empty());
            lemma_filter_push_empty(fields.drop_last());
        }
    }
    items
}

} // verus!
