//! Locating an external binary: the decision logic.
//!
//! A binary is looked for under an explicit override, then under every
//! entry of the search-path variable, then under fixed install locations.
//! This module builds that ordered candidate list and picks the first
//! existing candidate; only the existence checks themselves are outside
//! work.

use vstd::prelude::*;
use crate::frac::chars_of;
use crate::frac::no_char;
use crate::naming::joined_spec;
use crate::naming::join_path;
use crate::naming::string_from_chars;

verus! {

/// The segments joined with a separator, in order.
pub open spec fn joined_with(ss: Seq<Seq<char>>, sep: char) -> Seq<char>
    decreases ss.len(),
{
    if ss.len() == 0 {
        Seq::empty()
    } else if ss.len() == 1 {
        ss[0]
    } else {
        joined_with(ss.drop_last(), sep) + seq![sep] + ss.last()
    }
}

proof fn lemma_joined_push(dd: Seq<Seq<char>>, x: Seq<char>, sep: char)
    ensures
        joined_with(dd.push(x), sep) == if dd.len() == 0 {
            x
        } else {
            joined_with(dd, sep) + seq![sep] + x
        },
{
    let ss = dd.push(x);
    if dd.len() == 0 {
        assert(ss.len() == 1);
        assert(ss[0] == x);
    } else {
        assert(ss.drop_last() =~= dd);
        assert(ss.last() == x);
    }
}

/// Split a search-path string on colons. The result is the unique
/// colon-free segment list that joins back to the input.
pub fn split_colons(s: &str) -> (r: Vec<String>)
    ensures
        r.deep_view().len() >= 1,
        joined_with(r.deep_view(), ':') == s@,
        forall|k: int| 0 <= k < r.deep_view().len() ==> no_char(#[trigger] r.deep_view()[k], ':'),
{
    let v = chars_of(s);
    let n = v.len();
    let mut done: Vec<String> = Vec::new();
    let mut cur: Vec<char> = Vec::new();
    let mut i: usize = 0;
    while i < n
        invariant
            i <= n == v@.len(),
            v@ == s@,
            joined_with(done.deep_view().push(cur@), ':') == s@.take(i as int),
            forall|k: int|
                0 <= k < done.deep_view().len() ==> no_char(#[trigger] done.deep_view()[k], ':'),
            no_char(cur@, ':'),
        decreases n - i,
    {
        let ghost old_done = done.deep_view();
        let ghost old_cur = cur@;
        let c = v[i];
        proof {
            assert(s@.take(i + 1) =~= s@.take(i as int) + seq![s@[i as int]]);
        }
        if c == ':' {
            let seg = string_from_chars(&cur);
            done.push(seg);
            cur = Vec::new();
            proof {
                assert(done.deep_view() =~= old_done.push(old_cur));
                lemma_joined_push(old_done, old_cur, ':');
                lemma_joined_push(old_done.push(old_cur), Seq::empty(), ':');
                assert(joined_with(done.deep_view().push(cur@), ':') =~= s@.take(i + 1));
            }
        } else {
            cur.push(c);
            proof {
                lemma_joined_push(old_done, old_cur, ':');
                lemma_joined_push(old_done, old_cur.push(c), ':');
                if old_done.len() == 0 {
                    assert(old_cur.push(c) =~= old_cur + seq![c]);
                    assert(joined_with(done.deep_view().push(cur@), ':') =~= s@.take(i + 1));
                } else {
                    assert(joined_with(done.deep_view().push(cur@), ':') =~= s@.take(i + 1));
                }
            }
        }
        i += 1;
    }
    let seg = string_from_chars(&cur);
    let ghost old_done = done.deep_view();
    done.push(seg);
    proof {
        assert(done.deep_view() =~= old_done.push(cur@));
        assert(s@.take(n as int) =~= s@);
    }
    done
}

/// The candidate file paths: each directory joined with the binary name.
pub fn candidate_paths(name: &str, dirs: &Vec<String>) -> (r: Vec<String>)
    ensures
        r.deep_view().len() == dirs.deep_view().len(),
        forall|k: int|
            0 <= k < r.deep_view().len() ==> #[trigger] r.deep_view()[k] == joined_spec(
                dirs.deep_view()[k],
                name@,
            ),
{
    let n = dirs.len();
    let mut r: Vec<String> = Vec::new();
    let mut i: usize = 0;
    while i < n
        invariant
            i <= n == dirs.deep_view().len(),
            r.deep_view().len() == i,
            forall|k: int|
                0 <= k < i ==> #[trigger] r.deep_view()[k] == joined_spec(
                    dirs.deep_view()[k],
                    name@,
                ),
        decreases n - i,
    {
        let ghost old_r = r.deep_view();
        let p = join_path(dirs[i].as_str(), name);
        r.push(p);
        proof {
            assert(r.deep_view() =~= old_r.push(r.deep_view().last()));
        }
        i += 1;
    }
    r
}

/// The index of the first existing candidate, when one exists at all.
pub fn pick_first(found: &Vec<bool>) -> (r: Option<usize>)
    ensures
        match r {
            Some(i) => i < found@.len() && found@[i as int] && forall|j: int|
                0 <= j < i ==> !found@[j],
            None => forall|j: int| 0 <= j < found@.len() ==> !found@[j],
        },
{
    let n = found.len();
    let mut i: usize = 0;
    while i < n
        invariant
            i <= n == found@.len(),
            forall|j: int| 0 <= j < i ==> !found@[j],
        decreases n - i,
    {
        if found[i] {
            return Some(i);
        }
        i += 1;
    }
    None
}

} // verus!
