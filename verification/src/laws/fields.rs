//! What holds of the members of a JSON document.

use vstd::prelude::*;
use crate::json::{
    as_fixed, as_number, as_signed, as_text, as_truth, as_unsigned, list_trees, member,
    member_trees, number_fixed, number_signed, number_unsigned, Json, Tree,
};

verus! {

/// Whether `s` is the text of `t` under `key`, or `absent` where there is no text.
pub open spec fn is_text_under(t: Tree, key: Seq<char>, absent: Seq<char>, s: Seq<char>) -> bool {
    match member(t, key) {
        Some(Tree::Text(x)) => s == x,
        _ => s == absent,
    }
}

/// Whether `b` is the truth value of `t` under `key`, or false where there is none.
pub open spec fn is_truth_under(t: Tree, key: Seq<char>, b: bool) -> bool {
    match member(t, key) {
        Some(Tree::Bool(x)) => b == x,
        _ => !b,
    }
}

/// Whether `n` is the count of `t` under `key`, or 0 where there is none.
pub open spec fn is_count_under(t: Tree, key: Seq<char>, n: u64) -> bool {
    match member(t, key) {
        Some(Tree::Number(x)) => match number_unsigned(x) {
            Some(u) => n == u,
            None => n == 0,
        },
        _ => n == 0,
    }
}

/// Whether `n` is the number of `t` under `key`, where there is one.
pub open spec fn is_number_under(t: Tree, key: Seq<char>, n: Option<serde_json::Number>) -> bool {
    match member(t, key) {
        Some(Tree::Number(x)) => n == Some(x),
        _ => n is None,
    }
}

/// A member of an object is found under its key and under no other; nothing but an
/// object has members.
pub proof fn law_members_are_found_by_key(
    m: Map<Seq<char>, Tree>,
    key: Seq<char>,
    other: Seq<char>,
    x: Tree,
)
    ensures
        member(Tree::Object(m.insert(key, x)), key) == Some(x),
        other != key ==> member(Tree::Object(m.insert(key, x)), other) == member(
            Tree::Object(m),
            other,
        ),
        member(Tree::Object(m.remove(key)), key) is None,
        x !is Object ==> member(x, key) is None,
{
}

/// A value is read as what it is, and as nothing else.
pub proof fn law_values_are_read_by_their_kind(x: Tree, decimals: usize)
    ensures
        as_text(Some(x)) is Some <==> x is Text,
        as_truth(Some(x)) is Some <==> x is Bool,
        as_number(Some(x)) is Some <==> x is Number,
        x is Text ==> as_text(Some(x)) == Some(x->Text_0),
        x is Bool ==> as_truth(Some(x)) == Some(x->Bool_0),
        x is Number ==> as_number(Some(x)) == Some(x->Number_0) && as_unsigned(Some(x))
            == number_unsigned(x->Number_0) && as_signed(Some(x)) == number_signed(x->Number_0)
            && as_fixed(Some(x), decimals) == number_fixed(x->Number_0, decimals),
        x !is Number ==> as_unsigned(Some(x)) is None && as_signed(Some(x)) is None && as_fixed(
            Some(x),
            decimals,
        ) is None,
        as_text(None) is None && as_truth(None) is None && as_number(None) is None,
        as_unsigned(None) is None && as_signed(None) is None && as_fixed(None, decimals) is None,
{
}

/// The tree of a list has the trees of its items, in their order.
pub proof fn law_lists_keep_their_order(v: Seq<Json>)
    ensures
        list_trees(v).len() == v.len(),
        forall|i: int| 0 <= i < v.len() ==> #[trigger] list_trees(v)[i] == v[i].tree(),
    decreases v.len(),
{
    reveal_with_fuel(list_trees, 2);
    if v.len() > 0 {
        law_lists_keep_their_order(v.drop_last());
    }
}

/// The tree of an object has the tree of each member under its key, and nothing else.
pub proof fn law_objects_keep_their_members(m: Seq<(String, Json)>)
    requires
        forall|i: int, j: int| 0 <= i < j < m.len() ==> m[i].0@ != m[j].0@,
    ensures
        forall|i: int|
            0 <= i < m.len() ==> member_trees(m).dom().contains(#[trigger] m[i].0@)
                && member_trees(m)[m[i].0@] == m[i].1.tree(),
        forall|k: Seq<char>| #[trigger]
            member_trees(m).dom().contains(k) ==> exists|i: int|
                0 <= i < m.len() && #[trigger] m[i].0@ == k,
    decreases m.len(),
{
    reveal_with_fuel(member_trees, 2);
    if m.len() > 0 {
        let r = m.drop_last();
        law_objects_keep_their_members(r);
        assert forall|i: int| 0 <= i < m.len() implies member_trees(m).dom().contains(
            #[trigger] m[i].0@,
        ) && member_trees(m)[m[i].0@] == m[i].1.tree() by {
            if i < r.len() {
                assert(r[i].0@ == m[i].0@);
                assert(m[i].0@ != m[m.len() - 1].0@);
            }
        }
        assert forall|k: Seq<char>| #[trigger] member_trees(m).dom().contains(k) implies exists|
            i: int,
        |
            0 <= i < m.len() && #[trigger] m[i].0@ == k by {
            if k == m.last().0@ {
                assert(m[m.len() - 1].0@ == k);
            } else {
                assert(member_trees(r).dom().contains(k));
                let i = choose|i: int| 0 <= i < r.len() && #[trigger] r[i].0@ == k;
                assert(m[i].0@ == k);
            }
        }
    }
}

/// The tree of a value is of its own kind and has what the value has.
pub proof fn law_trees_are_of_their_kind(b: bool, n: serde_json::Number, s: String)
    ensures
        Json::Null.tree() == Tree::Null,
        Json::Bool(b).tree() == Tree::Bool(b),
        Json::Number(n).tree() == Tree::Number(n),
        Json::Text(s).tree() == Tree::Text(s@),
{
}

} // verus!
