//! The names of the MIDI devices, sorted and without repetition.
use vstd::prelude::*;

use vstd::string::StrSliceExecFns;

verus! {

/// Whether `a` comes strictly before `b` in the lexicographic order of their characters (the
/// order of `String`).
pub open spec fn precedes(a: Seq<char>, b: Seq<char>) -> bool
    decreases a.len(),
{
    if a.len() == 0 {
        b.len() > 0
    } else if b.len() == 0 {
        false
    } else if a[0] != b[0] {
        (a[0] as int) < (b[0] as int)
    } else {
        precedes(a.drop_first(), b.drop_first())
    }
}

proof fn lemma_precedes_transitive(a: Seq<char>, b: Seq<char>, c: Seq<char>)
    requires
        precedes(a, b),
        precedes(b, c),
    ensures
        precedes(a, c),
    decreases a.len(),
{
    if a.len() > 0 && b.len() > 0 && c.len() > 0 {
        if a[0] == b[0] && b[0] == c[0] {
            lemma_precedes_transitive(a.drop_first(), b.drop_first(), c.drop_first());
        }
    }
}

proof fn lemma_precedes_total(a: Seq<char>, b: Seq<char>)
    requires
        a != b,
    ensures
        precedes(a, b) || precedes(b, a),
    decreases a.len(),
{
    if a.len() > 0 && b.len() > 0 && a[0] == b[0] {
        if a.drop_first() == b.drop_first() {
            assert(a =~= seq![a[0]] + a.drop_first());
            assert(b =~= seq![b[0]] + b.drop_first());
        }
        lemma_precedes_total(a.drop_first(), b.drop_first());
    } else if a.len() == 0 && b.len() == 0 {
        assert(a =~= b);
    } else if a.len() > 0 && b.len() > 0 {
        assert((a[0] as int) != (b[0] as int));
    }
}

/// Whether `a` comes strictly before `b`, computed.
pub fn precedes_of(a: &String, b: &String) -> (r: bool)
    ensures
        r == precedes(a@, b@),
{
    let x_str = a.as_str();
    let y_str = b.as_str();
    let n = x_str.unicode_len();
    let m = y_str.unicode_len();
    let mut i: usize = 0;
    assert(a@.skip(0) =~= a@);
    assert(b@.skip(0) =~= b@);
    while i < n && i < m
        invariant
            x_str@ == a@,
            y_str@ == b@,
            n == a@.len(),
            m == b@.len(),
            i <= n,
            i <= m,
            precedes(a@, b@) == precedes(a@.skip(i as int), b@.skip(i as int)),
        decreases n - i,
    {
        let x = x_str.get_char(i);
        let y = y_str.get_char(i);
        let ghost sa = a@.skip(i as int);
        let ghost sb = b@.skip(i as int);
        assert(sa.len() == n - i && sb.len() == m - i);
        assert(sa[0] == x && sb[0] == y);
        if x != y {
            let (xv, yv) = (x as u32, y as u32);
            assert(xv as int == x as int && yv as int == y as int);
            return xv < yv;
        }
        assert(sa.drop_first() =~= a@.skip(i + 1));
        assert(sb.drop_first() =~= b@.skip(i + 1));
        i = i + 1;
    }
    assert(a@.skip(i as int).len() == n - i);
    assert(b@.skip(i as int).len() == m - i);
    i < m && i >= n
}

/// Whether the names `names` are in strictly increasing order.
pub open spec fn strictly_sorted(names: Seq<String>) -> bool {
    forall|i: int, j: int| 0 <= i < j < names.len() ==> precedes(#[trigger] names[i]@, #[trigger] names[j]@)
}

/// Whether the name `name` is one of `names`.
pub open spec fn has_name(names: Seq<String>, name: Seq<char>) -> bool {
    exists|i: int| 0 <= i < names.len() && (#[trigger] names[i])@ == name
}

/// Adds `name` to the sorted names `names`, where it belongs, unless it is already there.
fn insert_name(names: &mut Vec<String>, name: String)
    requires
        strictly_sorted(old(names)@),
    ensures
        strictly_sorted(final(names)@),
        forall|s: Seq<char>| has_name(final(names)@, s) <==> (has_name(old(names)@, s) || s == name@),
{
    let mut k: usize = 0;
    while k < names.len() && precedes_of(&names[k], &name)
        invariant
            k <= names@.len(),
            forall|j: int| 0 <= j < k ==> precedes(#[trigger] names@[j]@, name@),
        decreases names@.len() - k,
    {
        k = k + 1;
    }
    if k < names.len() && names[k] == name {
        return;
    }
    let ghost before = names@;
    proof {
        if k < before.len() {
            lemma_precedes_total(before[k as int]@, name@);
        }
    }
    names.insert(k, name);
    proof {
        let after = names@;
        assert forall|i: int, j: int| 0 <= i < j < after.len() implies precedes(#[trigger] after[i]@, #[trigger] after[j]@) by {
            if j < k {
                assert(after[i] == before[i] && after[j] == before[j]);
            } else if j == k {
                assert(after[i] == before[i]);
            } else if i == k {
                assert(after[j] == before[j - 1]);
                if j - 1 > k {
                    lemma_precedes_transitive(name@, before[k as int]@, before[j - 1]@);
                }
            } else if i < k {
                assert(after[i] == before[i] && after[j] == before[j - 1]);
            } else {
                assert(after[i] == before[i - 1] && after[j] == before[j - 1]);
            }
        }
        assert forall|s: Seq<char>| has_name(after, s) <==> (has_name(before, s) || s == name@) by {
            if has_name(after, s) {
                let i = choose|i: int| 0 <= i < after.len() && (#[trigger] after[i])@ == s;
                if i < k {
                    assert(before[i]@ == s);
                } else if i > k {
                    assert(before[i - 1]@ == s);
                }
            }
            if has_name(before, s) {
                let i = choose|i: int| 0 <= i < before.len() && (#[trigger] before[i])@ == s;
                if i < k {
                    assert(after[i]@ == s);
                } else {
                    assert(after[i + 1]@ == s);
                }
            }
            if s == name@ {
                assert(after[k as int]@ == s);
            }
        }
    }
}

/// The names of the input and of the output devices together, sorted, each once.
pub fn device_names(input_names: Vec<String>, output_names: Vec<String>) -> (r: Vec<String>)
    ensures
        strictly_sorted(r@),
        forall|s: Seq<char>| has_name(r@, s) <==> (has_name(input_names@, s) || has_name(output_names@, s)),
{
    let ghost inputs = input_names@;
    let ghost outputs_view = output_names@;
    let mut names: Vec<String> = Vec::new();
    let mut all = input_names;
    let mut outputs = output_names;
    all.append(&mut outputs);
    let ghost all_view = all@;
    let mut k: usize = 0;
    while k < all.len()
        invariant
            k <= all@.len(),
            all@ == all_view,
            strictly_sorted(names@),
            forall|s: Seq<char>| has_name(names@, s) <==> has_name(all_view.take(k as int), s),
        decreases all@.len() - k,
    {
        insert_name(&mut names, all[k].clone());
        proof {
            assert forall|s: Seq<char>| has_name(names@, s) <==> has_name(all_view.take(k + 1), s) by {
                if has_name(all_view.take(k as int), s) {
                    let i = choose|i: int| 0 <= i < k && (#[trigger] all_view.take(k as int)[i])@ == s;
                    assert(all_view.take(k + 1)[i] == all_view.take(k as int)[i]);
                }
                if has_name(all_view.take(k + 1), s) {
                    let i = choose|i: int| 0 <= i < k + 1 && (#[trigger] all_view.take(k + 1)[i])@ == s;
                    if i < k {
                        assert(all_view.take(k as int)[i] == all_view.take(k + 1)[i]);
                    }
                }
                assert(all_view.take(k + 1)[k as int] == all_view[k as int]);
            }
        }
        k = k + 1;
    }
    proof {
        assert(all_view.take(all_view.len() as int) =~= all_view);
        assert(all_view =~= inputs + outputs_view);
        assert forall|s: Seq<char>| has_name(all_view, s) <==> (has_name(inputs, s) || has_name(outputs_view, s)) by {
            if has_name(all_view, s) {
                let i = choose|i: int| 0 <= i < all_view.len() && (#[trigger] all_view[i])@ == s;
                if i < inputs.len() {
                    assert(inputs[i] == all_view[i]);
                } else {
                    assert(outputs_view[i - inputs.len()] == all_view[i]);
                }
            }
            if has_name(inputs, s) {
                let i = choose|i: int| 0 <= i < inputs.len() && (#[trigger] inputs[i])@ == s;
                assert(all_view[i] == inputs[i]);
            }
            if has_name(outputs_view, s) {
                let i = choose|i: int| 0 <= i < outputs_view.len() && (#[trigger] outputs_view[i])@ == s;
                assert(all_view[i + inputs.len()] == outputs_view[i]);
            }
        }
    }
    names
}

} // verus!
