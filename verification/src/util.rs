use vstd::prelude::*;
use vstd::string::StringExecFns;
use crate::value::{display_of, quoted_item, vviews, AbsValue, Value};
use crate::statement::strviews;

verus! {

broadcast use vstd::std_specs::vec::group_vec_axioms;

/// The text of a bracketed, comma-separated list of names.
pub open spec fn names_disp(l: Seq<Seq<char>>) -> Seq<char>
    decreases l.len(),
{
    if l.len() == 0 {
        seq!['[', ']']
    } else if l.len() == 1 {
        seq!['['] + l[0] + seq![']']
    } else {
        seq!['['] + l[0] + seq![',', ' '] + names_disp(l.drop_first()).drop_first()
    }
}

/// The text of the items of a displayed list, commas between them, strings
/// quoted.
pub open spec fn items_disp(l: Seq<AbsValue>) -> Seq<char>
    decreases l, 3int,
{

    if l.len() == 0 {
        Seq::empty()
    } else if l.len() == 1 {
        quoted_item(l[0])
    } else {
        quoted_item(l[0]) + seq![',', ' '] + items_disp(l.drop_first())
    }
}

/// The display form of a list value: its items in brackets.
pub open spec fn list_disp(l: Seq<AbsValue>) -> Seq<char>
    decreases l, 4int,
{
    seq!['['] + items_disp(l) + seq![']']
}

/// Formats a list of names in brackets with commas, as a function value's
/// parameter list is shown.
pub fn slice_format(x: &Vec<String>) -> (s: String)
    ensures
        s@ == names_disp(strviews(x@)),
{
    let ghost names = strviews(x@);
    let mut s = String::new();
    s.append("[");
    let n = x.len();
    proof {
        reveal_strlit("[");
        reveal_strlit("]");
        reveal_strlit(", ");
        assert(s@ =~= seq!['[']);
    }
    for idx in 0..n
        invariant
            n == x@.len(),
            names == strviews(x@),
            n > 0 ==> seq!['['] + names_prefix_disp(names, idx as int) =~= s@,
            n == 0 ==> s@ =~= seq!['['],
    {
        s.append(x[idx].as_str());
        if idx != n - 1 {
            s.append(", ");
        }
        proof {
            reveal_strlit(", ");
            lemma_names_prefix_step(names, idx as int);
        }
    }
    s.append("]");
    proof {
        reveal_strlit("]");
        if n == 0 {
            assert(s@ =~= names_disp(names));
        } else {
            lemma_names_prefix_full(names);
            assert(s@ =~= names_disp(names));
        }
    }
    s
}

/// The items of `l` up to `i`, with the separator that follows each item
/// that is not the last.
spec fn names_prefix_disp(l: Seq<Seq<char>>, i: int) -> Seq<char>
    decreases i,
{
    if i <= 0 {
        Seq::empty()
    } else {
        names_prefix_disp(l, i - 1) + l[i - 1] + if i != l.len() {
            seq![',', ' ']
        } else {
            Seq::empty()
        }
    }
}

proof fn lemma_names_prefix_step(l: Seq<Seq<char>>, i: int)
    requires
        0 <= i < l.len(),
    ensures
        names_prefix_disp(l, i + 1) == names_prefix_disp(l, i) + l[i] + if i + 1 != l.len() {
            seq![',', ' ']
        } else {
            Seq::<char>::empty()
        },
{
}

proof fn lemma_names_prefix_full(l: Seq<Seq<char>>)
    requires
        l.len() > 0,
    ensures
        seq!['['] + names_prefix_disp(l, l.len() as int) + seq![']'] =~= names_disp(l),
    decreases l.len(),
{
    if l.len() == 1 {
        reveal_with_fuel(names_prefix_disp, 2);
        assert(names_prefix_disp(l, 1) =~= Seq::empty() + l[0]);
        assert(seq!['['] + names_prefix_disp(l, 1) + seq![']'] =~= seq!['['] + l[0] + seq![']']);
    } else {
        let t = l.drop_first();
        lemma_names_prefix_full(t);
        lemma_names_prefix_shift(l, t.len() as int);
        assert(names_prefix_disp(l, l.len() as int) =~= l[0] + seq![',', ' ']
            + names_prefix_disp(t, t.len() as int));
        assert(names_disp(l) =~= seq!['['] + l[0] + seq![',', ' '] + names_disp(t).drop_first());
        assert(names_disp(t).drop_first() =~= names_prefix_disp(t, t.len() as int) + seq![']']);
        assert(seq!['['] + names_prefix_disp(l, l.len() as int) + seq![']'] =~= names_disp(l));
    }
}

proof fn lemma_names_prefix_shift(l: Seq<Seq<char>>, i: int)
    requires
        l.len() > 1,
        0 <= i <= l.len() - 1,
    ensures
        names_prefix_disp(l, i + 1) =~= l[0] + (if l.len() == 1 {
            Seq::<char>::empty()
        } else {
            seq![',', ' ']
        }) + names_prefix_disp(l.drop_first(), i),
    decreases i,
{
    let t = l.drop_first();
    if i == 0 {
        reveal_with_fuel(names_prefix_disp, 2);
        assert(names_prefix_disp(l, 1) =~= Seq::empty() + l[0] + seq![',', ' ']);
    } else {
        lemma_names_prefix_shift(l, i - 1);
        assert(t[i - 1] == l[i]);
        assert((i + 1 != l.len()) == (i != t.len()));
    }
}

/// Formats a list value's items in brackets with commas, quoting the string
/// items.
pub fn slice_value_format(x: &Vec<Value>) -> (s: String)
    ensures
        s@ == list_disp(vviews(x@)),
    decreases x, 2int,
{
    let ghost items = vviews(x@);
    let mut s = String::new();
    s.append("[");
    let n = x.len();
    proof {
        reveal_strlit("[");
        assert(s@ =~= seq!['[']);
    }
    for idx in 0..n
        invariant
            n == x@.len(),
            items == vviews(x@),
            s@ =~= seq!['['] + items_prefix_disp(items, idx as int),
    {
        let piece = quoted_item_string(&x[idx]);
        s.append(piece.as_str());
        if idx != n - 1 {
            s.append(", ");
        }
        proof {
            reveal_strlit(", ");
            lemma_items_prefix_step(items, idx as int);
        }
    }
    s.append("]");
    proof {
        reveal_strlit("]");
        lemma_items_prefix_full(items);
        assert(s@ =~= list_disp(items));
    }
    s
}

/// The quoted items of `l` up to `i`, with the separator that follows each
/// item that is not the last.
spec fn items_prefix_disp(l: Seq<AbsValue>, i: int) -> Seq<char>
    decreases i,
{
    if i <= 0 {
        Seq::empty()
    } else {
        items_prefix_disp(l, i - 1) + quoted_item(l[i - 1]) + if i != l.len() {
            seq![',', ' ']
        } else {
            Seq::empty()
        }
    }
}

proof fn lemma_items_prefix_step(l: Seq<AbsValue>, i: int)
    requires
        0 <= i < l.len(),
    ensures
        items_prefix_disp(l, i + 1) == items_prefix_disp(l, i) + quoted_item(l[i]) + if i + 1
            != l.len() {
            seq![',', ' ']
        } else {
            Seq::<char>::empty()
        },
{
}

proof fn lemma_items_prefix_full(l: Seq<AbsValue>)
    ensures
        items_prefix_disp(l, l.len() as int) =~= items_disp(l),
    decreases l.len(),
{
    if l.len() > 1 {
        let t = l.drop_first();
        lemma_items_prefix_full(t);
        lemma_items_prefix_shift(l, t.len() as int);
        assert(items_disp(l) =~= quoted_item(l[0]) + seq![',', ' '] + items_disp(t));
    } else if l.len() == 1 {
        reveal_with_fuel(items_prefix_disp, 2);
        assert(items_prefix_disp(l, 1) =~= quoted_item(l[0]));
    }
}

proof fn lemma_items_prefix_shift(l: Seq<AbsValue>, i: int)
    requires
        l.len() > 1,
        0 <= i <= l.len() - 1,
    ensures
        items_prefix_disp(l, i + 1) =~= quoted_item(l[0]) + seq![',', ' '] + items_prefix_disp(
            l.drop_first(),
            i,
        ),
    decreases i,
{
    let t = l.drop_first();
    if i == 0 {
        reveal_with_fuel(items_prefix_disp, 2);
        assert(items_prefix_disp(l, 1) =~= Seq::empty() + quoted_item(l[0]) + seq![',', ' ']);
    } else {
        lemma_items_prefix_shift(l, i - 1);
        assert(t[i - 1] == l[i]);
        assert((i + 1 != l.len()) == (i != t.len()));
    }
}

/// One item of a displayed list: strings in quotes, everything else in its
/// plain display form.
fn quoted_item_string(v: &Value) -> (s: String)
    ensures
        s@ == quoted_item(v@),
    decreases v, 1int,
{
    match v {
        Value::Str(inner) => {
            let mut s = String::new();
            s.append("\"");
            s.append(inner.as_str());
            s.append("\"");
            proof {
                reveal_strlit("\"");
                assert(s@ =~= quoted_item(v@));
            }
            s
        }
        _ => v.to_display_string(),
    }
}

} // verus!
