//! JSON documents as plain values.

use vstd::prelude::*;

verus! {

/// Declares `serde_json::Value`, a parsed JSON document.
#[verifier::external_type_specification]
#[verifier::external_body]
pub struct ExValue(serde_json::Value);

/// Declares `serde_json::Number`, a JSON number.
#[verifier::external_type_specification]
#[verifier::external_body]
pub struct ExNumber(serde_json::Number);

/// A JSON document.
pub enum Json {
    Null,
    Bool(bool),
    Number(serde_json::Number),
    Text(String),
    List(Vec<Json>),
    /// The members in order; of two members with one key the later one counts.
    Object(Vec<(String, Json)>),
}

/// What a JSON document holds.
#[verifier::ext_equal]
pub ghost enum Tree {
    Null,
    Bool(bool),
    Number(serde_json::Number),
    Text(Seq<char>),
    List(Seq<Tree>),
    Object(Map<Seq<char>, Tree>),
}

/// One level of a `serde_json::Value`.
pub enum Node {
    Null,
    Bool(bool),
    Number(serde_json::Number),
    Text(String),
    List(Vec<serde_json::Value>),
    Object(Vec<(String, serde_json::Value)>),
}

/// What a `serde_json::Value` holds.
pub uninterp spec fn value_tree(v: serde_json::Value) -> Tree;

/// What the members of an object hold: of two with one key the later one counts.
pub open spec fn value_members(m: Seq<(String, serde_json::Value)>) -> Map<Seq<char>, Tree>
    decreases m.len(),
{
    if m.len() == 0 {
        Map::empty()
    } else {
        value_members(m.drop_last()).insert(m.last().0@, value_tree(m.last().1))
    }
}

/// What one level of a document holds.
pub open spec fn node_tree(n: Node) -> Tree {
    match n {
        Node::Null => Tree::Null,
        Node::Bool(b) => Tree::Bool(b),
        Node::Number(x) => Tree::Number(x),
        Node::Text(s) => Tree::Text(s@),
        Node::List(vs) => Tree::List(vs@.map_values(|v: serde_json::Value| value_tree(v))),
        Node::Object(ms) => Tree::Object(value_members(ms@)),
    }
}

/// Whether no two members have one key.
pub open spec fn distinct_keys(m: Seq<(String, serde_json::Value)>) -> bool {
    forall|i: int, j: int| 0 <= i < j < m.len() ==> m[i].0@ != m[j].0@
}

/// Takes the outermost level off a document.
///
/// Trusted: a `serde_json::Value` is one of six variants, and each of them moves
/// its contents into the same variant of [`Node`]. No key of an object comes twice.
#[verifier::external_body]
fn open_value(v: serde_json::Value) -> (r: Node)
    ensures
        node_tree(r) == value_tree(v),
        r is Object ==> distinct_keys(r->Object_0@),
{
    match v {
        serde_json::Value::Null => Node::Null,
        serde_json::Value::Bool(b) => Node::Bool(b),
        serde_json::Value::Number(n) => Node::Number(n),
        serde_json::Value::String(s) => Node::Text(s),
        serde_json::Value::Array(vs) => Node::List(vs),
        serde_json::Value::Object(m) => Node::Object(m.into_iter().collect()),
    }
}

/// Makes a document of one level.
///
/// Trusted: each variant of [`Node`] moves its contents into the same variant of
/// `serde_json::Value`. Members with keys of their own are all kept when they are
/// collected into a `serde_json::Map`.
#[verifier::external_body]
fn close_value(n: Node) -> (r: serde_json::Value)
    requires
        n is Object ==> distinct_keys(n->Object_0@),
    ensures
        value_tree(r) == node_tree(n),
{
    match n {
        Node::Null => serde_json::Value::Null,
        Node::Bool(b) => serde_json::Value::Bool(b),
        Node::Number(n) => serde_json::Value::Number(n),
        Node::Text(s) => serde_json::Value::String(s),
        Node::List(vs) => serde_json::Value::Array(vs),
        Node::Object(ms) => serde_json::Value::Object(ms.into_iter().collect()),
    }
}

/// What `serde_json::from_str` makes of a text: the document that it spells, or
/// the words of the error.
pub uninterp spec fn json_read(text: Seq<char>) -> Result<Tree, Seq<char>>;

/// Reads a document.
///
/// Trusted: `serde_json::from_str::<Value>` reads the same text to the same
/// document, or refuses it with the same words.
#[verifier::external_body]
fn read_value(text: &str) -> (r: Result<serde_json::Value, String>)
    ensures
        match r {
            Ok(v) => json_read(text@) == Ok::<Tree, Seq<char>>(value_tree(v)),
            Err(e) => json_read(text@) == Err::<Tree, Seq<char>>(e@),
        },
{
    serde_json::from_str::<serde_json::Value>(text).map_err(|e| e.to_string())
}

/// What `serde_json::to_string` makes of a document: its compact text.
pub uninterp spec fn json_written(t: Tree) -> Seq<char>;

/// Writes a document.
///
/// Trusted: `serde_json::to_string` writes two documents that hold the same as
/// the same text, the members of an object in the order of their keys. It fails
/// only where a type refuses to be written or a key is no string, and of a
/// `serde_json::Value` neither is ever so.
#[verifier::external_body]
fn write_value(v: &serde_json::Value) -> (r: Option<String>)
    ensures
        r is Some,
        r->Some_0@ == json_written(value_tree(*v)),
{
    serde_json::to_string(v).ok()
}

/// The value of a number that is an unsigned 64-bit integer.
pub uninterp spec fn number_unsigned(n: serde_json::Number) -> Option<u64>;

/// Trusted: `Number::as_u64` depends on the number alone.
pub assume_specification[ serde_json::Number::as_u64 ](n: &serde_json::Number) -> (r: Option<u64>)
    ensures
        r == number_unsigned(*n),
;

/// The value of a number that is a signed 64-bit integer.
pub uninterp spec fn number_signed(n: serde_json::Number) -> Option<i64>;

/// Trusted: `Number::as_i64` depends on the number alone.
pub assume_specification[ serde_json::Number::as_i64 ](n: &serde_json::Number) -> (r: Option<i64>)
    ensures
        r == number_signed(*n),
;

/// Copies a number.
///
/// Trusted: `Number`'s `clone` is derived and keeps the number.
#[verifier::external_body]
pub(crate) fn copy_number(n: &serde_json::Number) -> (r: serde_json::Number)
    ensures
        r == *n,
{
    n.clone()
}

/// A number written with the given count of decimals, where it has a
/// floating-point value.
pub uninterp spec fn number_fixed(n: serde_json::Number, decimals: usize) -> Option<Seq<char>>;

/// Writes a number with a fixed count of decimals.
///
/// Trusted: `Number::as_f64` depends on the number alone, and what it gives is
/// written with the given count of decimals the same way each time.
#[verifier::external_body]
fn fixed(n: &serde_json::Number, decimals: usize) -> (r: Option<String>)
    requires
        decimals <= 16,
    ensures
        match r {
            Some(s) => number_fixed(*n, decimals) == Some(s@),
            None => number_fixed(*n, decimals) is None,
        },
{
    n.as_f64().map(|x| format!("{x:.decimals$}"))
}

impl Json {
    /// What the document holds.
    pub open spec fn tree(self) -> Tree
        decreases self,
    {
        match self {
            Json::Null => Tree::Null,
            Json::Bool(b) => Tree::Bool(b),
            Json::Number(x) => Tree::Number(x),
            Json::Text(s) => Tree::Text(s@),
            Json::List(v) => Tree::List(list_trees(v@)),
            Json::Object(m) => Tree::Object(member_trees(m@)),
        }
    }
}

/// What each of the documents holds.
pub open spec fn list_trees(v: Seq<Json>) -> Seq<Tree>
    decreases v,
{
    if v.len() == 0 {
        Seq::empty()
    } else {
        list_trees(v.drop_last()).push(v.last().tree())
    }
}

/// What an object with the members `m` holds.
pub open spec fn member_trees(m: Seq<(String, Json)>) -> Map<Seq<char>, Tree>
    decreases m,
{
    if m.len() == 0 {
        Map::empty()
    } else {
        member_trees(m.drop_last()).insert(m.last().0@, m.last().1.tree())
    }
}

/// Each element of a list holds what it holds by itself.
pub proof fn lemma_list_trees(v: Seq<Json>)
    ensures
        list_trees(v).len() == v.len(),
        forall|i: int|
            #![trigger list_trees(v)[i]]
            #![trigger v[i]]
            0 <= i < v.len() ==> list_trees(v)[i] == v[i].tree(),
    decreases v.len(),
{
    if v.len() > 0 {
        lemma_list_trees(v.drop_last());
        assert forall|i: int|
            #![trigger list_trees(v)[i]]
            #![trigger v[i]]
            0 <= i < v.len() implies list_trees(v)[i] == v[i].tree() by {
            if i < v.len() - 1 {
                assert(v.drop_last()[i] == v[i]);
            }
        }
    }
}

proof fn lemma_member_below(m: Seq<(String, serde_json::Value)>, i: int)
    requires
        distinct_keys(m),
        0 <= i < m.len(),
    ensures
        value_members(m).dom().contains(m[i].0@),
        value_members(m)[m[i].0@] == value_tree(m[i].1),
        decreases_to!(value_members(m) => value_tree(m[i].1)),
    decreases m.len(),
{
    if i < m.len() - 1 {
        let t = m.drop_last();
        assert(t[i] == m[i]);
        assert forall|a: int, b: int| 0 <= a < b < t.len() implies t[a].0@ != t[b].0@ by {
            assert(t[a] == m[a] && t[b] == m[b]);
        }
        lemma_member_below(t, i);
        assert(m[i].0@ != m[m.len() - 1].0@);
    }
    lemma_value_members_finite(m);
    vstd::map::axiom_map_index_decreases_finite(value_members(m), m[i].0@);
}

proof fn lemma_value_members_finite(m: Seq<(String, serde_json::Value)>)
    ensures
        value_members(m).dom().finite(),
    decreases m.len(),
{
    if m.len() > 0 {
        lemma_value_members_finite(m.drop_last());
    }
}

/// Makes a document of a `serde_json::Value`.
fn import(v: serde_json::Value) -> (r: Json)
    ensures
        r.tree() == value_tree(v),
    decreases value_tree(v),
{
    let ghost t = value_tree(v);
    match open_value(v) {
        Node::Null => Json::Null,
        Node::Bool(b) => Json::Bool(b),
        Node::Number(n) => Json::Number(n),
        Node::Text(s) => Json::Text(s),
        Node::List(vs) => {
            let ghost all = vs@;
            let mut out: Vec<Json> = Vec::new();
            let ghost items = t->List_0;
            for item in it: vs
                invariant
                    it.seq() == all,
                    t == value_tree(v),
                    t is List,
                    items == t->List_0,
                    items == all.map_values(|v: serde_json::Value| value_tree(v)),
                    out@.len() == it.index(),
                    forall|i: int| 0 <= i < it.index() ==> (#[trigger] out@[i]).tree() == items[i],
            {
                assert(items[it.index()] == value_tree(item));
                assert(decreases_to!(t => t->List_0));
                assert(decreases_to!(items => items[it.index()]));
                out.push(import(item));
            }
            proof {
                assert(out@.len() == all.len());
                lemma_list_trees(out@);
                assert(list_trees(out@) =~= items);
            }
            Json::List(out)
        },
        Node::Object(ms) => {
            let ghost all = ms@;
            let mut out: Vec<(String, Json)> = Vec::new();
            let ghost members = t->Object_0;
            for item in it: ms
                invariant
                    it.seq() == all,
                    t == value_tree(v),
                    t is Object,
                    members == t->Object_0,
                    members == value_members(all),
                    distinct_keys(all),
                    out@.len() == it.index(),
                    member_trees(out@) == value_members(all.take(it.index())),
            {
                let (key, value) = item;
                proof {
                    lemma_member_below(all, it.index());
                    assert(decreases_to!(t => t->Object_0));
                }
                let ghost before = out@;
                out.push((key, import(value)));
                proof {
                    assert(out@.drop_last() =~= before);
                    assert(all.take(it.index() + 1).drop_last() =~= all.take(it.index()));
                }
            }
            assert(all.take(all.len() as int) =~= all);
            Json::Object(out)
        },
    }
}

proof fn lemma_key_is_held(m: Seq<(String, serde_json::Value)>, i: int)
    requires
        0 <= i < m.len(),
    ensures
        value_members(m).dom().contains(m[i].0@),
    decreases m.len(),
{
    if i < m.len() - 1 {
        assert(m.drop_last()[i] == m[i]);
        lemma_key_is_held(m.drop_last(), i);
    }
}

proof fn lemma_new_key_is_distinct(
    m: Seq<(String, serde_json::Value)>,
    new: (String, serde_json::Value),
)
    requires
        distinct_keys(m),
        !value_members(m).dom().contains(new.0@),
    ensures
        distinct_keys(m.push(new)),
{
    assert forall|i: int, j: int| 0 <= i < j < m.push(new).len() implies m.push(new)[i].0@
        != m.push(new)[j].0@ by {
        lemma_key_is_held(m, i);
    }
}

/// Whether one of the members has the given key.
fn has_key(m: &Vec<(String, serde_json::Value)>, key: &str) -> (r: bool)
    ensures
        r == value_members(m@).dom().contains(key@),
{
    let n: usize = m.len();
    let mut found: bool = false;
    let mut i: usize = 0;
    assert(m@.take(0) =~= Seq::empty());
    while i < n
        invariant
            n == m@.len(),
            i <= n,
            found == value_members(m@.take(i as int)).dom().contains(key@),
        decreases n - i,
    {
        assert(m@.take(i + 1).drop_last() =~= m@.take(i as int));
        if crate::text::same(m[i].0.as_str(), key) {
            found = true;
        }
        i = i + 1;
    }
    assert(m@.take(n as int) =~= m@);
    found
}

/// Makes a `serde_json::Value` of a document. Of two members with one key only the
/// later one is handed on.
fn export(j: &Json) -> (r: serde_json::Value)
    ensures
        value_tree(r) == j.tree(),
    decreases j,
{
    match j {
        Json::Null => close_value(Node::Null),
        Json::Bool(b) => close_value(Node::Bool(*b)),
        Json::Number(n) => close_value(Node::Number(copy_number(n))),
        Json::Text(s) => close_value(Node::Text(s.clone())),
        Json::List(items) => {
            let n: usize = items.len();
            let mut out: Vec<serde_json::Value> = Vec::new();
            let mut i: usize = 0;
            while i < n
                invariant
                    n == items@.len(),
                    i <= n,
                    *j == Json::List(*items),
                    out@.len() == i,
                    forall|k: int|
                        0 <= k < i ==> value_tree(#[trigger] out@[k]) == items@[k].tree(),
                decreases n - i,
            {
                assert(decreases_to!(j => j->List_0));
                assert(decreases_to!(items => items@));
                assert(decreases_to!(items@ => items@[i as int]));
                out.push(export(&items[i]));
                i = i + 1;
            }
            proof {
                lemma_list_trees(items@);
                assert(out@.map_values(|v: serde_json::Value| value_tree(v)) =~= list_trees(
                    items@,
                ));
            }
            close_value(Node::List(out))
        },
        Json::Object(members) => {
            let mut n: usize = members.len();
            let mut out: Vec<(String, serde_json::Value)> = Vec::new();
            let ghost whole = member_trees(members@);
            proof {
                assert(members@.take(n as int) =~= members@);
                assert(whole =~= whole.union_prefer_right(value_members(out@)));
            }
            while n > 0
                invariant
                    n <= members@.len(),
                    *j == Json::Object(*members),
                    distinct_keys(out@),
                    whole == member_trees(members@),
                    whole == member_trees(members@.take(n as int)).union_prefer_right(
                        value_members(out@),
                    ),
                decreases n,
            {
                n = n - 1;
                proof {
                    assert(decreases_to!(j => j->Object_0));
                    assert(decreases_to!(members => members@));
                    assert(decreases_to!(members@ => members@[n as int]));
                    assert(decreases_to!(members@[n as int] => members@[n as int].1));
                    assert(members@.take(n + 1).drop_last() =~= members@.take(n as int));
                    assert(members@.take(n + 1).last() == members@[n as int]);
                }
                let ghost before = out@;
                let ghost rest = member_trees(members@.take(n as int));
                if has_key(&out, members[n].0.as_str()) {
                    assert(whole =~= rest.union_prefer_right(value_members(out@)));
                } else {
                    out.push((members[n].0.clone(), export(&members[n].1)));
                    proof {
                        assert(out@.drop_last() =~= before);
                        lemma_new_key_is_distinct(before, out@.last());
                        assert(out@ =~= before.push(out@.last()));
                        assert(whole =~= rest.union_prefer_right(value_members(out@)));
                    }
                }
            }
            proof {
                assert(members@.take(0) =~= Seq::empty());
                assert(whole =~= value_members(out@));
            }
            close_value(Node::Object(out))
        },
    }
}

/// Reads a JSON document ([`json_read`]).
pub fn parse_json(text: &str) -> (r: Result<Json, String>)
    ensures
        match r {
            Ok(j) => json_read(text@) == Ok::<Tree, Seq<char>>(j.tree()),
            Err(e) => json_read(text@) == Err::<Tree, Seq<char>>(e@),
        },
{
    match read_value(text) {
        Ok(v) => Ok(import(v)),
        Err(e) => Err(e),
    }
}

/// What `t` holds under `key`, where it is an object with such a member.
pub open spec fn member(t: Tree, key: Seq<char>) -> Option<Tree> {
    match t {
        Tree::Object(m) => if m.dom().contains(key) {
            Some(m[key])
        } else {
            None
        },
        _ => None,
    }
}

/// The text that `t` is, where it is one.
pub open spec fn as_text(t: Option<Tree>) -> Option<Seq<char>> {
    match t {
        Some(Tree::Text(s)) => Some(s),
        _ => None,
    }
}

/// The unsigned integer that `t` is, where it is one.
pub open spec fn as_unsigned(t: Option<Tree>) -> Option<u64> {
    match t {
        Some(Tree::Number(n)) => number_unsigned(n),
        _ => None,
    }
}

/// The signed integer that `t` is, where it is one.
pub open spec fn as_signed(t: Option<Tree>) -> Option<i64> {
    match t {
        Some(Tree::Number(n)) => number_signed(n),
        _ => None,
    }
}

/// The truth value that `t` is, where it is one.
pub open spec fn as_truth(t: Option<Tree>) -> Option<bool> {
    match t {
        Some(Tree::Bool(b)) => Some(b),
        _ => None,
    }
}

/// The number that `t` is, where it is one.
pub open spec fn as_number(t: Option<Tree>) -> Option<serde_json::Number> {
    match t {
        Some(Tree::Number(n)) => Some(n),
        _ => None,
    }
}

/// The number that `t` is, with a fixed count of decimals.
pub open spec fn as_fixed(t: Option<Tree>, decimals: usize) -> Option<Seq<char>> {
    match t {
        Some(Tree::Number(n)) => number_fixed(n, decimals),
        _ => None,
    }
}

/// `o`, or `d` where there is none.
pub open spec fn or<T>(o: Option<T>, d: T) -> T {
    match o {
        Some(x) => x,
        None => d,
    }
}

impl Json {
    /// The member under `key` ([`member`]).
    pub fn get(&self, key: &str) -> (r: Option<&Json>)
        ensures
            match r {
                Some(j) => member(self.tree(), key@) == Some(j.tree()),
                None => member(self.tree(), key@) is None,
            },
    {
        match self {
            Json::Object(members) => {
                let mut n: usize = members.len();
                assert(members@.take(n as int) =~= members@);
                while n > 0
                    invariant
                        n <= members@.len(),
                        *self == Json::Object(*members),
                        member(self.tree(), key@) == member(
                            Tree::Object(member_trees(members@.take(n as int))),
                            key@,
                        ),
                    decreases n,
                {
                    proof {
                        let now = members@.take(n as int);
                        assert(now.drop_last() =~= members@.take(n - 1));
                        assert(now.last() == members@[n - 1]);
                    }
                    if crate::text::same(members[n - 1].0.as_str(), key) {
                        return Some(&members[n - 1].1);
                    }
                    n = n - 1;
                }
                assert(members@.take(0) =~= Seq::empty());
                None
            },
            _ => None,
        }
    }

    /// The text under `key`, `default` where there is none.
    pub fn text_or(&self, key: &str, default: &str) -> (r: String)
        ensures
            r@ == or(as_text(member(self.tree(), key@)), default@),
    {
        match self.get(key) {
            Some(Json::Text(s)) => s.clone(),
            _ => default.to_owned(),
        }
    }

    /// The text under `key`.
    pub fn text(&self, key: &str) -> (r: Option<String>)
        ensures
            match r {
                Some(s) => as_text(member(self.tree(), key@)) == Some(s@),
                None => as_text(member(self.tree(), key@)) is None,
            },
    {
        match self.get(key) {
            Some(Json::Text(s)) => Some(s.clone()),
            _ => None,
        }
    }

    /// The unsigned integer under `key`, 0 where there is none.
    pub fn unsigned(&self, key: &str) -> (r: u64)
        ensures
            r == or(as_unsigned(member(self.tree(), key@)), 0),
    {
        match self.get(key) {
            Some(Json::Number(n)) => match n.as_u64() {
                Some(u) => u,
                None => 0,
            },
            _ => 0,
        }
    }

    /// The signed integer under `key`, 0 where there is none.
    pub fn signed(&self, key: &str) -> (r: i64)
        ensures
            r == or(as_signed(member(self.tree(), key@)), 0),
    {
        match self.get(key) {
            Some(Json::Number(n)) => match n.as_i64() {
                Some(u) => u,
                None => 0,
            },
            _ => 0,
        }
    }

    /// The truth value under `key`, false where there is none.
    pub fn truth(&self, key: &str) -> (r: bool)
        ensures
            r == or(as_truth(member(self.tree(), key@)), false),
    {
        match self.get(key) {
            Some(Json::Bool(b)) => *b,
            _ => false,
        }
    }

    /// The number under `key`.
    pub fn number(&self, key: &str) -> (r: Option<serde_json::Number>)
        ensures
            r == as_number(member(self.tree(), key@)),
    {
        match self.get(key) {
            Some(Json::Number(n)) => Some(copy_number(n)),
            _ => None,
        }
    }

    /// The number under `key` with a fixed count of decimals ([`as_fixed`]).
    pub fn fixed(&self, key: &str, decimals: usize) -> (r: Option<String>)
        requires
            decimals <= 16,
        ensures
            match r {
                Some(s) => as_fixed(member(self.tree(), key@), decimals) == Some(s@),
                None => as_fixed(member(self.tree(), key@), decimals) is None,
            },
    {
        match self.get(key) {
            Some(Json::Number(n)) => fixed(n, decimals),
            _ => None,
        }
    }

    /// The compact text of the document ([`json_written`]).
    pub fn compact_text(&self) -> (r: String)
        ensures
            r@ == json_written(self.tree()),
    {
        match write_value(&export(self)) {
            Some(s) => s,
            None => String::new(),
        }
    }
}

} // verus!
