//! Verified helpers for the small amount of text manipulation the engine
//! needs: splitting on a separator, joining with a separator, character
//! substitution, and plain string comparison.
//!
//! Paths handed around by this crate are plain strings joined with `/`.

use vstd::prelude::*;

verus! {

/// Splits `s` on `sep`; `cur` accumulates the segment under construction.
pub open spec fn split_acc(s: Seq<char>, sep: char, cur: Seq<char>) -> Seq<Seq<char>>
    decreases s.len(),
{
    if s.len() == 0 {
        seq![cur]
    } else if s[0] == sep {
        seq![cur] + split_acc(s.skip(1), sep, Seq::empty())
    } else {
        split_acc(s.skip(1), sep, cur.push(s[0]))
    }
}

/// The segments of `s` between occurrences of `sep`.
/// There is always at least one segment; `sep` occurs in none of them.
pub open spec fn split_text(s: Seq<char>, sep: char) -> Seq<Seq<char>> {
    split_acc(s, sep, Seq::empty())
}

/// The parts joined with `sep` between consecutive parts.
pub open spec fn join_text(parts: Seq<Seq<char>>, sep: Seq<char>) -> Seq<char>
    decreases parts.len(),
{
    if parts.len() == 0 {
        Seq::empty()
    } else if parts.len() == 1 {
        parts[0]
    } else {
        parts[0] + sep + join_text(parts.skip(1), sep)
    }
}

/// Every `.` replaced by `/`; used to turn a package name into a path.
pub open spec fn dots_to_slashes_text(s: Seq<char>) -> Seq<char> {
    s.map_values(|c: char| if c == '.' { '/' } else { c })
}

/// Character-wise string equality.
pub fn str_eq(a: &str, b: &str) -> (r: bool)
    ensures
        r == (a@ == b@),
{
    let an = a.unicode_len();
    let bn = b.unicode_len();
    if an != bn {
        return false;
    }
    let mut i: usize = 0;
    while i < an
        invariant
            an == a@.len(),
            an == b@.len(),
            i <= an,
            forall|k: int| 0 <= k < i ==> a@[k] == b@[k],
        decreases an - i,
    {
        if a.get_char(i) != b.get_char(i) {
            return false;
        }
        i += 1;
    }
    proof {
        assert(a@ =~= b@);
    }
    true
}

/// The segments of `s` between occurrences of `sep`, as owned strings.
pub fn split_char(s: &str, sep: char) -> (r: Vec<String>)
    ensures
        r.deep_view() == split_text(s@, sep),
{
    let n = s.unicode_len();
    let mut r: Vec<String> = Vec::new();
    let mut start: usize = 0;
    let mut i: usize = 0;
    proof {
        assert(s@.skip(0) =~= s@);
        assert(s@.subrange(0, 0) =~= Seq::<char>::empty());
        assert(r.deep_view() =~= Seq::<Seq<char>>::empty());
        assert(r.deep_view() + split_acc(s@, sep, Seq::empty()) =~= split_acc(
            s@,
            sep,
            Seq::empty(),
        ));
    }
    while i < n
        invariant
            n == s@.len(),
            start <= i <= n,
            split_text(s@, sep) == r.deep_view() + split_acc(
                s@.skip(i as int),
                sep,
                s@.subrange(start as int, i as int),
            ),
        decreases n - i,
    {
        proof {
            assert(s@.skip(i as int)[0] == s@[i as int]);
            assert(s@.skip(i as int).skip(1) =~= s@.skip(i as int + 1));
        }
        let c = s.get_char(i);
        if c == sep {
            let seg = s.substring_char(start, i).to_owned();
            let ghost old_r = r.deep_view();
            r.push(seg);
            proof {
                assert(r.deep_view() =~= old_r.push(s@.subrange(start as int, i as int)));
                assert(s@.subrange(i as int + 1, i as int + 1) =~= Seq::<char>::empty());
            }
            start = i + 1;
        } else {
            proof {
                assert(s@.subrange(start as int, i as int).push(s@[i as int]) =~= s@.subrange(
                    start as int,
                    i as int + 1,
                ));
            }
        }
        i += 1;
    }
    let seg = s.substring_char(start, n).to_owned();
    let ghost old_r = r.deep_view();
    r.push(seg);
    proof {
        assert(s@.skip(n as int).len() == 0);
        assert(r.deep_view() =~= old_r.push(s@.subrange(start as int, n as int)));
    }
    r
}

/// The parts joined with `sep` between consecutive parts.
pub fn join_strings(parts: &Vec<String>, sep: &str) -> (r: String)
    ensures
        r@ == join_text(parts.deep_view(), sep@),
{
    let ghost dv = parts.deep_view();
    proof {
        assert(dv.len() == parts@.len());
    }
    if parts.len() == 0 {
        return String::new();
    }
    let mut r = parts[0].clone();
    let mut i: usize = 1;
    while i < parts.len()
        invariant
            dv == parts.deep_view(),
            dv.len() == parts@.len(),
            1 <= i <= parts@.len(),
            i < parts@.len() ==> join_text(dv, sep@) == r@ + sep@ + join_text(
                dv.skip(i as int),
                sep@,
            ),
            i == parts@.len() ==> join_text(dv, sep@) == r@,
        decreases parts@.len() - i,
    {
        proof {
            assert(dv.skip(i as int)[0] == dv[i as int]);
            assert(dv.skip(i as int).skip(1) =~= dv.skip(i as int + 1));
        }
        r.append(sep);
        r.append(parts[i].as_str());
        i += 1;
    }
    r
}

/// A copy of `s` with every `.` replaced by `/`.
pub fn dots_to_slashes(s: &str) -> (r: String)
    ensures
        r@ == dots_to_slashes_text(s@),
{
    let n = s.unicode_len();
    let mut r = String::new();
    let mut i: usize = 0;
    while i < n
        invariant
            n == s@.len(),
            i <= n,
            r@ == dots_to_slashes_text(s@.subrange(0, i as int)),
        decreases n - i,
    {
        let c = s.get_char(i);
        if c == '.' {
            proof {
                reveal_strlit("/");
            }
            r.append("/");
        } else {
            let piece = s.substring_char(i, i + 1);
            proof {
                assert(piece@ =~= seq![s@[i as int]]);
            }
            r.append(piece);
        }
        proof {
            assert(dots_to_slashes_text(s@.subrange(0, i as int + 1)) =~= dots_to_slashes_text(
                s@.subrange(0, i as int),
            ).push(if s@[i as int] == '.' { '/' } else { s@[i as int] }));
        }
        i += 1;
    }
    proof {
        assert(s@.subrange(0, n as int) =~= s@);
    }
    r
}

/// The view of an optional string.
pub open spec fn opt_text(o: Option<String>) -> Option<Seq<char>> {
    match o {
        Some(s) => Some(s@),
        None => None,
    }
}

/// The placeholder that native classifiers carry for the word width.
pub open spec fn arch_token() -> Seq<char> {
    "${arch}"@
}

/// `s` with every occurrence of the word-width placeholder replaced by
/// `bits`, leftmost first and without overlap.
pub open spec fn replace_arch_text(s: Seq<char>, bits: Seq<char>) -> Seq<char>
    decreases s.len(),
{
    if s.len() >= 7 && s.subrange(0, 7) == arch_token() {
        bits + replace_arch_text(s.skip(7), bits)
    } else if s.len() > 0 {
        seq![s[0]] + replace_arch_text(s.skip(1), bits)
    } else {
        Seq::empty()
    }
}

/// A copy of `s` with every occurrence of the word-width placeholder
/// replaced by `bits`.
pub fn replace_arch(s: &str, bits: &str) -> (r: String)
    ensures
        r@ == replace_arch_text(s@, bits@),
{
    proof {
        reveal_strlit("${arch}");
    }
    let n = s.unicode_len();
    let mut r = String::new();
    let mut i: usize = 0;
    proof {
        assert(s@.skip(0) =~= s@);
    }
    while i < n
        invariant
            n == s@.len(),
            i <= n,
            arch_token().len() == 7,
            replace_arch_text(s@, bits@) == r@ + replace_arch_text(s@.skip(i as int), bits@),
        decreases n - i,
    {
        proof {
            assert(s@.skip(i as int)[0] == s@[i as int]);
            assert(s@.skip(i as int).skip(1) =~= s@.skip(i as int + 1));
        }
        if n - i >= 7 {
            let window = s.substring_char(i, i + 7);
            proof {
                assert(window@ =~= s@.skip(i as int).subrange(0, 7));
            }
            if str_eq(window, "${arch}") {
                proof {
                    assert(s@.skip(i as int).skip(7) =~= s@.skip(i as int + 7));
                }
                r.append(bits);
                i += 7;
                continue ;
            }
        }
        let piece = s.substring_char(i, i + 1);
        proof {
            assert(piece@ =~= seq![s@[i as int]]);
        }
        r.append(piece);
        i += 1;
    }
    proof {
        assert(s@.skip(n as int).len() == 0);
    }
    r
}

/// `base` and `seg` joined by a single `/`, mirroring a path push.
pub fn path_join(base: &str, seg: &str) -> (r: String)
    ensures
        r@ == base@ + "/"@ + seg@,
{
    let mut r = base.to_owned();
    r.append("/");
    r.append(seg);
    r
}

} // verus!
