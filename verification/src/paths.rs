//! The path model: paths are `/`-separated strings. Parent-of and the
//! root-fallback policy, plus the component helpers that directory
//! entries are built from.
use vstd::prelude::*;

verus! {

/// The path with trailing separators removed; a single character is
/// kept so that the root path `/` stays itself.
pub open spec fn strip_trailing_seps(s: Seq<char>) -> Seq<char>
    decreases s.len(),
{
    if s.len() > 1 && s.last() == '/' {
        strip_trailing_seps(s.drop_last())
    } else {
        s
    }
}

/// The index of the last occurrence of `c`, or -1 when `c` does not
/// occur.
pub open spec fn last_index_of(s: Seq<char>, c: char) -> int
    decreases s.len(),
{
    if s.len() == 0 {
        -1
    } else if s.last() == c {
        s.len() - 1
    } else {
        last_index_of(s.drop_last(), c)
    }
}

/// The parent of a path: the text before the final component. A root
/// (`/`), an empty path, and a bare name have no parent.
pub open spec fn parent_of_path(s: Seq<char>) -> Option<Seq<char>> {
    let t = strip_trailing_seps(s);
    let i = last_index_of(t, '/');
    if i < 0 {
        None
    } else if i == 0 {
        if t.len() == 1 {
            None
        } else {
            Some(seq!['/'])
        }
    } else {
        Some(t.subrange(0, i))
    }
}

/// The final component of a path: the text after the last separator,
/// trailing separators ignored. The root path has an empty final
/// component.
pub open spec fn file_name_of_path(s: Seq<char>) -> Seq<char> {
    let t = strip_trailing_seps(s);
    let i = last_index_of(t, '/');
    if t.len() == 1 && t[0] == '/' {
        Seq::empty()
    } else if i < 0 {
        t
    } else {
        t.subrange(i + 1, t.len() as int)
    }
}

/// The extension of a file name: the text after the last dot, unless
/// the dot is the leading character (a hidden file) or there is none;
/// then it is empty.
pub open spec fn extension_of_name(name: Seq<char>) -> Seq<char> {
    let i = last_index_of(name, '.');
    if i <= 0 {
        Seq::empty()
    } else {
        name.subrange(i + 1, name.len() as int)
    }
}

proof fn lemma_strip_take(s: Seq<char>, t: int)
    requires
        1 <= t <= s.len(),
        t < s.len() ==> strip_trailing_seps(s) == strip_trailing_seps(s.take(t)),
        t > 1 && s[t - 1] == '/',
    ensures
        strip_trailing_seps(s) == strip_trailing_seps(s.take(t - 1)),
{
    assert(s.take(t).drop_last() =~= s.take(t - 1));
    if t == s.len() {
        assert(s.take(t) =~= s);
    }
}

proof fn lemma_last_index_step(s: Seq<char>, i: int, c: char)
    requires
        1 <= i <= s.len(),
        s[i - 1] != c,
    ensures
        last_index_of(s.take(i), c) == last_index_of(s.take(i - 1), c),
{
    assert(s.take(i).drop_last() =~= s.take(i - 1));
    assert(s.take(i).last() == s[i - 1]);
}

/// The position after trailing separators are stripped: the length of
/// `strip_trailing_seps`.
fn stripped_len(path: &str) -> (t: usize)
    ensures
        t <= path@.len(),
        path@.take(t as int) == strip_trailing_seps(path@),
{
    let n: usize = path.unicode_len();
    let mut t: usize = n;
    proof {
        assert(path@.take(n as int) =~= path@);
    }
    while t > 1 && path.get_char(t - 1) == '/'
        invariant
            1 <= t <= n || t == n,
            n == path@.len(),
            strip_trailing_seps(path@) == strip_trailing_seps(path@.take(t as int)),
        decreases t,
    {
        proof {
            lemma_strip_take(path@, t as int);
        }
        t = t - 1;
    }
    proof {
        if t == 0 {
            assert(path@.take(0) =~= Seq::<char>::empty());
        } else {
            assert(strip_trailing_seps(path@.take(t as int)) == path@.take(t as int));
        }
    }
    t
}

/// The index of the last occurrence of `c` among the first `upto`
/// characters, if any.
fn rfind_char(path: &str, upto: usize, c: char) -> (r: Option<usize>)
    requires
        upto <= path@.len(),
    ensures
        match r {
            Some(i) => i < upto && last_index_of(path@.take(upto as int), c) == i as int,
            None => last_index_of(path@.take(upto as int), c) == -1,
        },
{
    let mut i: usize = upto;
    while i > 0
        invariant
            i <= upto <= path@.len(),
            last_index_of(path@.take(upto as int), c) == last_index_of(path@.take(i as int), c),
        decreases i,
    {
        if path.get_char(i - 1) == c {
            proof {
                assert(path@.take(i as int).last() == c);
            }
            return Some(i - 1);
        }
        proof {
            lemma_last_index_step(path@, i as int, c);
        }
        i = i - 1;
    }
    proof {
        assert(path@.take(0) =~= Seq::<char>::empty());
    }
    None
}

/// The parent of `path`, if it has one. The root path, an empty path
/// and a bare name have none.
pub fn parent_of(path: &str) -> (r: Option<String>)
    ensures
        match r {
            Some(p) => parent_of_path(path@) == Some(p@),
            None => parent_of_path(path@) is None,
        },
{
    let t: usize = stripped_len(path);
    match rfind_char(path, t, '/') {
        None => None,
        Some(i) => {
            if i == 0 {
                if t == 1 {
                    None
                } else {
                    let root = String::from_str("/");
                    proof {
                        reveal_strlit("/");
                        assert(root@ =~= seq!['/']);
                    }
                    Some(root)
                }
            } else {
                let p = path.substring_char(0, i);
                proof {
                    assert(p@ =~= path@.take(t as int).subrange(0, i as int));
                }
                Some(String::from_str(p))
            }
        },
    }
}

/// The parent of `path`, or the platform's fallback root where there
/// is none.
pub fn parent_or_fallback(path: &str, fallback_root: &str) -> (r: String)
    ensures
        r@ == match parent_of_path(path@) {
            Some(p) => p,
            None => fallback_root@,
        },
{
    match parent_of(path) {
        Some(p) => p,
        None => fallback_root.to_owned(),
    }
}

/// The final component of `path`: what a directory listing shows as
/// the entry's name.
pub fn file_name_of(path: &str) -> (r: String)
    ensures
        r@ == file_name_of_path(path@),
{
    let t: usize = stripped_len(path);
    match rfind_char(path, t, '/') {
        None => {
            let name = path.substring_char(0, t);
            proof {
                assert(name@ =~= path@.take(t as int));
            }
            String::from_str(name)
        },
        Some(i) => {
            if t == 1 {
                proof {
                    let s1 = path@.take(1);
                    assert(s1.drop_last() =~= Seq::<char>::empty());
                    assert(last_index_of(Seq::<char>::empty(), '/') == -1);
                    assert(s1.last() == '/');
                    assert(s1[0] == '/');
                }
                String::new()
            } else {
                let name = path.substring_char(i + 1, t);
                proof {
                    assert(name@ =~= path@.take(t as int).subrange(
                        i + 1,
                        path@.take(t as int).len() as int,
                    ));
                }
                String::from_str(name)
            }
        },
    }
}

/// The extension of a file name, empty where there is none or the
/// name is a hidden file's.
pub fn extension_of(name: &str) -> (r: String)
    ensures
        r@ == extension_of_name(name@),
{
    let n: usize = name.unicode_len();
    proof {
        assert(name@.take(n as int) =~= name@);
    }
    match rfind_char(name, n, '.') {
        None => String::new(),
        Some(i) => {
            if i == 0 {
                String::new()
            } else {
                let ext = name.substring_char(i + 1, n);
                proof {
                    assert(ext@ =~= name@.subrange(i + 1, name@.len() as int));
                }
                String::from_str(ext)
            }
        },
    }
}

} // verus!
