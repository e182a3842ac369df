use vstd::prelude::*;
use vstd::string::*;

verus! {

/// Index of the last '.' in `s`, or -1 when there is none.
pub open spec fn last_dot(s: Seq<char>) -> int
    decreases s.len(),
{
    if s.len() == 0 {
        -1
    } else if s.last() == '.' {
        s.len() - 1
    } else {
        last_dot(s.drop_last())
    }
}

/// The stem of a file name, as `Path::file_stem` gives it: the name up to its
/// last '.', unless the name is `..`, has no '.', or has its only '.' in front.
pub open spec fn stem_of(name: Seq<char>) -> Seq<char> {
    if name == seq!['.', '.'] || last_dot(name) <= 0 {
        name
    } else {
        name.subrange(0, last_dot(name))
    }
}

/// The names among `names` whose stem is `key`, in their order.
pub open spec fn selected(names: Seq<Seq<char>>, key: Seq<char>) -> Seq<Seq<char>> {
    names.filter(|n: Seq<char>| stem_of(n) == key)
}

/// The text of each string.
pub open spec fn views(v: Seq<String>) -> Seq<Seq<char>> {
    v.map_values(|s: String| s@)
}

proof fn lemma_last_dot_bounds(s: Seq<char>)
    ensures
        -1 <= last_dot(s) < s.len(),
        last_dot(s) >= 0 ==> s[last_dot(s)] == '.',
    decreases s.len(),
{
    if s.len() > 0 && s.last() != '.' {
        lemma_last_dot_bounds(s.drop_last());
    }
}

/// The stem of a file name (see `stem_of`).
pub fn file_stem(name: &str) -> (r: &str)
    ensures
        r@ == stem_of(name@),
{
    let n = name.unicode_len();
    let mut i: usize = n;
    let mut dot: Option<usize> = None;
    assert(name@.subrange(0, n as int) =~= name@);
    while i > 0 && dot.is_none()
        invariant
            i <= n == name@.len(),
            dot.is_none() ==> last_dot(name@) == last_dot(name@.subrange(0, i as int)),
            dot.is_some() ==> last_dot(name@) == dot.unwrap() as int,
        decreases i + if dot.is_none() { 1int } else { 0int },
    {
        let c = name.get_char(i - 1);
        if c == '.' {
            assert(name@.subrange(0, i as int).last() == '.');
            dot = Some(i - 1);
        } else {
            assert(name@.subrange(0, i as int).drop_last() =~= name@.subrange(0, i - 1));
            i = i - 1;
        }
    }
    proof {
        lemma_last_dot_bounds(name@);
        if dot.is_none() {
            assert(name@.subrange(0, i as int) =~= Seq::<char>::empty());
        }
    }
    let is_parent = n == 2 && name.get_char(0) == '.' && name.get_char(1) == '.';
    proof {
        if name@ == seq!['.', '.'] {
            assert(name@[0] == '.' && name@[1] == '.');
        }
        if is_parent {
            assert(name@ =~= seq!['.', '.']);
        }
    }
    match dot {
        Some(d) => {
            if is_parent || d == 0 {
                name
            } else {
                name.substring_char(0, d)
            }
        },
        None => name,
    }
}

/// The entries of a directory listing whose stem equals `key`, in listing order.
pub fn select_scripts(names: &Vec<String>, key: &str) -> (r: Vec<String>)
    ensures
        views(r@) == selected(views(names@), key@),
{
    let mut out: Vec<String> = Vec::new();
    let mut i: usize = 0;
    while i < names.len()
        invariant
            i <= names@.len(),
            views(out@) == selected(views(names@.subrange(0, i as int)), key@),
        decreases names@.len() - i,
    {
        let name = &names[i];
        proof {
            reveal(Seq::filter);
        }
        let stem = file_stem(name.as_str());
        assert(views(names@.subrange(0, i + 1)).drop_last() =~= views(names@.subrange(0, i as int)));
        assert(views(names@.subrange(0, i + 1)).last() == names@[i as int]@);
        if str_eq(stem, key) {
            out.push(name.clone());
            assert(views(out@) =~= selected(views(names@.subrange(0, i as int)), key@).push(names@[i as int]@));
        }
        i = i + 1;
    }
    assert(names@.subrange(0, names@.len() as int) =~= names@);
    out
}

/// Character-wise equality of two strings.
pub fn str_eq(a: &str, b: &str) -> (r: bool)
    ensures
        r == (a@ == b@),
{
    let n = a.unicode_len();
    if n != b.unicode_len() {
        return false;
    }
    let mut i: usize = 0;
    while i < n
        invariant
            i <= n == a@.len() == b@.len(),
            a@.subrange(0, i as int) == b@.subrange(0, i as int),
        decreases n - i,
    {
        if a.get_char(i) != b.get_char(i) {
            return false;
        }
        assert(a@.subrange(0, i + 1) =~= a@.subrange(0, i as int).push(a@[i as int]));
        assert(b@.subrange(0, i + 1) =~= b@.subrange(0, i as int).push(b@[i as int]));
        i = i + 1;
    }
    assert(a@ =~= a@.subrange(0, n as int));
    assert(b@ =~= b@.subrange(0, n as int));
    true
}

} // verus!
