//! A list of strings used as a set: membership by text, no text twice.
use vstd::prelude::*;
use crate::text::str_eq;

verus! {

/// The texts held in `v`.
pub open spec fn text_set(v: Seq<String>) -> Set<Seq<char>> {
    Set::new(|t: Seq<char>| exists|i: int| 0 <= i < v.len() && #[trigger] v[i]@ == t)
}

/// The texts of `v`, in order.
pub open spec fn texts_of(v: Seq<String>) -> Seq<Seq<char>> {
    Seq::new(v.len(), |i: int| v[i]@)
}

/// The texts held in a list form a finite set, with no more texts than the
/// list has strings, and exactly as many where no text occurs twice.
pub proof fn text_set_finite(v: Seq<String>)
    ensures
        text_set(v).finite(),
        text_set(v).len() <= v.len(),
        no_duplicate_texts(v) ==> text_set(v).len() == v.len(),
{
    let t = texts_of(v);
    assert(text_set(v) =~= t.to_set()) by {
        assert forall|x: Seq<char>| text_set(v).contains(x) implies t.to_set().contains(x) by {
            let i = choose|i: int| 0 <= i < v.len() && #[trigger] v[i]@ == x;
            assert(t[i] == x);
        }
        assert forall|x: Seq<char>| t.to_set().contains(x) implies text_set(v).contains(x) by {
            let i = choose|i: int| 0 <= i < t.len() && t[i] == x;
            assert(v[i]@ == x);
        }
    }
    vstd::seq_lib::seq_to_set_is_finite(t);
    t.lemma_cardinality_of_set();
    if no_duplicate_texts(v) {
        assert(t.no_duplicates()) by {
            assert forall|i: int, j: int| 0 <= i < t.len() && 0 <= j < t.len() && i != j implies t[i] != t[j] by {
                if i < j {
                    assert(v[i]@ != v[j]@);
                } else {
                    assert(v[j]@ != v[i]@);
                }
            }
        }
        t.unique_seq_to_set();
    }
}

/// No text occurs twice in `v`.
pub open spec fn no_duplicate_texts(v: Seq<String>) -> bool {
    forall|i: int, j: int| 0 <= i < j < v.len() ==> #[trigger] v[i]@ != #[trigger] v[j]@
}

/// Whether some string of `v` holds the text of `s`.
pub fn contains_text(v: &Vec<String>, s: &str) -> (b: bool)
    ensures
        b == text_set(v@).contains(s@),
{
    let mut i: usize = 0;
    while i < v.len()
        invariant
            i <= v.len(),
            forall|j: int| 0 <= j < i ==> v@[j]@ != s@,
        decreases v.len() - i,
    {
        if str_eq(v[i].as_str(), s) {
            assert(v@[i as int]@ == s@);
            return true;
        }
        i = i + 1;
    }
    false
}

/// Adds the text of `s` unless it is already there.
pub fn insert_text(v: &mut Vec<String>, s: &str)
    ensures
        text_set(final(v)@) == text_set(old(v)@).insert(s@),
        no_duplicate_texts(old(v)@) ==> no_duplicate_texts(final(v)@),
{
    if !contains_text(v, s) {
        let ghost before = v@;
        v.push(String::from_str(s));
        assert(text_set(v@) =~= text_set(before).insert(s@)) by {
            assert forall|t: Seq<char>| text_set(v@).contains(t) implies text_set(before).insert(
                s@,
            ).contains(t) by {
                let i = choose|i: int| 0 <= i < v@.len() && v@[i]@ == t;
                if i < before.len() {
                    assert(before[i]@ == t);
                }
            }
            assert forall|t: Seq<char>| text_set(before).insert(s@).contains(t) implies text_set(
                v@,
            ).contains(t) by {
                if t == s@ {
                    assert(v@[before.len() as int]@ == t);
                } else {
                    let i = choose|i: int| 0 <= i < before.len() && before[i]@ == t;
                    assert(v@[i]@ == t);
                }
            }
        }
    } else {
        assert(text_set(v@) =~= text_set(v@).insert(s@));
    }
}

/// Removes every string holding the text of `s`.
pub fn remove_text(v: &mut Vec<String>, s: &str)
    ensures
        text_set(final(v)@) == text_set(old(v)@).remove(s@),
        no_duplicate_texts(old(v)@) ==> no_duplicate_texts(final(v)@),
{
    let ghost before = v@;
    let mut out: Vec<String> = Vec::new();
    let mut i: usize = 0;
    while i < v.len()
        invariant
            i <= v.len(),
            v@ == before,
            forall|k: int| 0 <= k < out@.len() ==> #[trigger] out@[k]@ != s@,
            forall|t: Seq<char>|
                #![trigger text_set(out@).contains(t)]
                text_set(out@).contains(t) <==> (t != s@ && exists|k: int|
                    0 <= k < i && #[trigger] before[k]@ == t),
            no_duplicate_texts(before) ==> no_duplicate_texts(out@),
            no_duplicate_texts(before) ==> forall|k: int, m: int|
                0 <= k < out@.len() && i <= m < before.len() ==> #[trigger] out@[k]@
                    != #[trigger] before[m]@,
        decreases v.len() - i,
    {
        if !str_eq(v[i].as_str(), s) {
            let ghost prev = out@;
            out.push(v[i].clone());
            proof {
                assert forall|t: Seq<char>|
                    text_set(out@).contains(t) <==> (t != s@ && exists|k: int|
                        0 <= k < i + 1 && #[trigger] before[k]@ == t) by {
                    if text_set(out@).contains(t) {
                        let k = choose|k: int| 0 <= k < out@.len() && out@[k]@ == t;
                        if k < prev.len() {
                            assert(prev[k]@ == t);
                            assert(text_set(prev).contains(t));
                        } else {
                            assert(before[i as int]@ == t);
                        }
                    }
                    if t != s@ && exists|k: int| 0 <= k < i + 1 && #[trigger] before[k]@ == t {
                        let k = choose|k: int| 0 <= k < i + 1 && before[k]@ == t;
                        if k < i {
                            assert(text_set(prev).contains(t));
                            let j = choose|j: int| 0 <= j < prev.len() && prev[j]@ == t;
                            assert(out@[j]@ == t);
                        } else {
                            assert(out@[prev.len() as int]@ == t);
                        }
                    }
                }
            }
        } else {
            proof {
                assert forall|t: Seq<char>|
                    text_set(out@).contains(t) <==> (t != s@ && exists|k: int|
                        0 <= k < i + 1 && #[trigger] before[k]@ == t) by {
                    if t != s@ && exists|k: int| 0 <= k < i + 1 && #[trigger] before[k]@ == t {
                        let k = choose|k: int| 0 <= k < i + 1 && before[k]@ == t;
                        assert(k < i);
                    }
                }
            }
        }
        i = i + 1;
    }
    proof {
        assert(text_set(out@) =~= text_set(before).remove(s@)) by {
            assert forall|t: Seq<char>| text_set(before).contains(t) <==> (exists|k: int|
                0 <= k < before.len() && #[trigger] before[k]@ == t) by {}
        }
    }
    *v = out;
}

} // verus!
