//! JSON values as trees, and the reading of a JSON text into one.
//!
//! `serde_json` reads the text. It is asked for one level at a time: what
//! kind of value a text holds and, for an array or an object, the texts of
//! the values inside. The descent through the levels is this library's.
use vstd::prelude::*;
use vstd::string::*;

verus! {

/// A JSON value.
#[derive(Debug, PartialEq, Eq)]
pub enum Json {
    Null,
    Bool(bool),
    /// A number, as its numeral.
    Number(String),
    Str(String),
    Array(Vec<Json>),
    /// An object: its members, each a name and a value.
    Object(Vec<(String, Json)>),
}

/// A JSON value as a mathematical tree.
pub ghost enum JsonView {
    Null,
    Bool(bool),
    Number(Seq<char>),
    Str(Seq<char>),
    Array(Seq<JsonView>),
    Object(Seq<(Seq<char>, JsonView)>),
}

impl View for Json {
    type V = JsonView;

    open spec fn view(&self) -> JsonView
        decreases self,
    {
        match self {
            Json::Null => JsonView::Null,
            Json::Bool(b) => JsonView::Bool(*b),
            Json::Number(n) => JsonView::Number(n@),
            Json::Str(s) => JsonView::Str(s@),
            Json::Array(items) => JsonView::Array(
                Seq::new(
                    items@.len(),
                    |i: int|
                        if 0 <= i < items@.len() {
                            items@[i].view()
                        } else {
                            JsonView::Null
                        },
                ),
            ),
            Json::Object(members) => JsonView::Object(
                Seq::new(
                    members@.len(),
                    |i: int|
                        (
                            members@[i].0@,
                            if 0 <= i < members@.len() {
                                members@[i].1.view()
                            } else {
                                JsonView::Null
                            },
                        ),
                ),
            ),
        }
    }
}

/// The trees of a run of values.
pub open spec fn item_views(items: Seq<Json>) -> Seq<JsonView> {
    Seq::new(items.len(), |i: int| items[i]@)
}

/// The names and trees of a run of members.
pub open spec fn member_views(members: Seq<(String, Json)>) -> Seq<(Seq<char>, JsonView)> {
    Seq::new(members.len(), |i: int| (members[i].0@, members[i].1@))
}

/// The tree of an array holds the trees of its items.
pub proof fn lemma_array_view(items: Vec<Json>)
    ensures
        Json::Array(items)@ == JsonView::Array(item_views(items@)),
{
    assert(Json::Array(items)@->Array_0 =~= item_views(items@));
}

/// The tree of an object holds the names and trees of its members.
pub proof fn lemma_object_view(members: Vec<(String, Json)>)
    ensures
        Json::Object(members)@ == JsonView::Object(member_views(members@)),
{
    assert(Json::Object(members)@->Object_0 =~= member_views(members@));
}

/// The value of the last member called `name`.
pub open spec fn member(members: Seq<(Seq<char>, JsonView)>, name: Seq<char>) -> Option<JsonView>
    decreases members.len(),
{
    if members.len() == 0 {
        None
    } else if members.last().0 == name {
        Some(members.last().1)
    } else {
        member(members.drop_last(), name)
    }
}

/// A member's value is a smaller tree than the members it was found among.
pub proof fn lemma_member_smaller(members: Seq<(Seq<char>, JsonView)>, name: Seq<char>)
    ensures
        member(members, name) matches Some(v) ==> decreases_to!(members => v),
    decreases members.len(),
{
    if members.len() == 0 {
    } else if members.last().0 == name {
        assert(decreases_to!(members => members[members.len() - 1]));
        assert(decreases_to!(members[members.len() - 1] => members[members.len() - 1].1));
    } else {
        lemma_member_smaller(members.drop_last(), name);
        assert(decreases_to!(members => members.drop_last()));
    }
}

/// Looking a name up among members with one more at their end: the new
/// member where it has the name, and what was there before where not.
pub broadcast proof fn lemma_member_push(
    members: Seq<(Seq<char>, JsonView)>,
    last: (Seq<char>, JsonView),
    name: Seq<char>,
)
    ensures
        #[trigger] member(members.push(last), name) == if last.0 == name {
            Some(last.1)
        } else {
            member(members, name)
        },
{
    assert(members.push(last).drop_last() =~= members);
}

impl JsonView {
    /// The value of the member called `name`, where this is an object that
    /// has one.
    pub open spec fn get(self, name: Seq<char>) -> Option<JsonView> {
        match self {
            JsonView::Object(members) => member(members, name),
            _ => None,
        }
    }
}

/// The view of a borrowed value that may be absent.
pub open spec fn opt_tree(j: Option<&Json>) -> Option<JsonView> {
    match j {
        Some(t) => Some(t@),
        None => None,
    }
}

impl Json {
    /// The value of the member called `name`, where this is an object that
    /// has one.
    pub fn get(&self, name: &str) -> (r: Option<&Json>)
        ensures
            opt_tree(r) == self@.get(name@),
    {
        match self {
            Json::Object(members) => {
                proof {
                    lemma_object_view(*members);
                }
                let ghost all = member_views(members@);
                let mut i: usize = members.len();
                proof {
                    assert(all.take(i as int) =~= all);
                }
                while i > 0
                    invariant
                        0 <= i <= members.len(),
                        all == member_views(members@),
                        self@.get(name@) == member(all, name@),
                        member(all, name@) == member(all.take(i as int), name@),
                    decreases i,
                {
                    let ghost rest = all.take(i as int);
                    i = i - 1;
                    proof {
                        assert(rest.last() == (members[i as int].0@, members[i as int].1@));
                        assert(rest.drop_last() =~= all.take(i as int));
                    }
                    if crate::text::str_eq(members[i].0.as_str(), name) {
                        return Some(&members[i].1);
                    }
                }
                None
            },
            _ => None,
        }
    }
}

/// One level of a JSON text: the kind of value it holds and, for an array or
/// an object, the texts of the values inside.
#[derive(Debug)]
pub enum Level {
    Null,
    Bool(bool),
    Number(String),
    Str(String),
    Array(Vec<String>),
    Object(Vec<(String, String)>),
}

/// A `Level` as mathematical values.
pub ghost enum LevelView {
    Null,
    Bool(bool),
    Number(Seq<char>),
    Str(Seq<char>),
    Array(Seq<Seq<char>>),
    Object(Seq<(Seq<char>, Seq<char>)>),
}

/// The views of a run of texts.
pub open spec fn text_views(texts: Seq<String>) -> Seq<Seq<char>> {
    Seq::new(texts.len(), |i: int| texts[i]@)
}

/// The views of a run of pairs of texts.
pub open spec fn pair_views(pairs: Seq<(String, String)>) -> Seq<(Seq<char>, Seq<char>)> {
    Seq::new(pairs.len(), |i: int| (pairs[i].0@, pairs[i].1@))
}

impl View for Level {
    type V = LevelView;

    open spec fn view(&self) -> LevelView {
        match self {
            Level::Null => LevelView::Null,
            Level::Bool(b) => LevelView::Bool(*b),
            Level::Number(n) => LevelView::Number(n@),
            Level::Str(s) => LevelView::Str(s@),
            Level::Array(items) => LevelView::Array(text_views(items@)),
            Level::Object(members) => LevelView::Object(pair_views(members@)),
        }
    }
}

/// The view of a level that may be absent.
pub open spec fn opt_level(l: Option<Level>) -> Option<LevelView> {
    match l {
        Some(v) => Some(v@),
        None => None,
    }
}

/// What `serde_json::from_str` reads from `text` as a `serde_json::Value`,
/// one level deep: the kind of the value with what it holds, a number as
/// `serde_json` prints it, and each value inside an array or an object as
/// the JSON text that `serde_json` prints for it. `None` where `from_str`
/// reports an error.
pub uninterp spec fn json_level(text: Seq<char>) -> Option<LevelView>;

/// `serde_json::from_str` at the type `serde_json::Value`, and `to_string`
/// on the number and on each value inside: the outcome is `json_level` of
/// the text. The members of an object come in the order of
/// `serde_json::Map`, which sorts them by name.
#[verifier::external_body]
pub(crate) fn split_level(text: &str) -> (r: Option<Level>)
    ensures
        opt_level(r) == json_level(text@),
{
    Some(match serde_json::from_str::<serde_json::Value>(text).ok()? {
        serde_json::Value::Null => Level::Null,
        serde_json::Value::Bool(b) => Level::Bool(b),
        serde_json::Value::Number(n) => Level::Number(n.to_string()),
        serde_json::Value::String(s) => Level::Str(s),
        serde_json::Value::Array(a) => Level::Array(a.iter().map(|v| v.to_string()).collect()),
        serde_json::Value::Object(o) => Level::Object(
            o.into_iter().map(|(k, v)| (k, v.to_string())).collect(),
        ),
    })
}

/// How many levels of arrays and objects a text may nest: `serde_json`
/// itself reads no text that nests deeper.
pub const MAX_DEPTH: usize = 128;

/// The tree that a JSON text denotes, where it nests arrays and objects no
/// deeper than `depth` levels. `None` where a level of it is no JSON text,
/// or where it nests deeper.
pub open spec fn tree_of(text: Seq<char>, depth: nat) -> Option<JsonView>
    decreases depth, 0nat,
{
    match json_level(text) {
        None => None,
        Some(LevelView::Null) => Some(JsonView::Null),
        Some(LevelView::Bool(b)) => Some(JsonView::Bool(b)),
        Some(LevelView::Number(n)) => Some(JsonView::Number(n)),
        Some(LevelView::Str(s)) => Some(JsonView::Str(s)),
        Some(LevelView::Array(items)) => if depth == 0 {
            None
        } else {
            match trees_of(items, (depth - 1) as nat) {
                Some(trees) => Some(JsonView::Array(trees)),
                None => None,
            }
        },
        Some(LevelView::Object(members)) => if depth == 0 {
            None
        } else {
            match member_trees_of(members, (depth - 1) as nat) {
                Some(trees) => Some(JsonView::Object(trees)),
                None => None,
            }
        },
    }
}

/// The trees of a run of JSON texts, where each of them has one.
pub open spec fn trees_of(texts: Seq<Seq<char>>, depth: nat) -> Option<Seq<JsonView>>
    decreases depth, texts.len() + 1,
{
    if texts.len() == 0 {
        Some(Seq::empty())
    } else {
        match (trees_of(texts.drop_last(), depth), tree_of(texts.last(), depth)) {
            (Some(before), Some(tree)) => Some(before.push(tree)),
            _ => None,
        }
    }
}

/// The trees of a run of members given as texts, where each of them has one.
pub open spec fn member_trees_of(members: Seq<(Seq<char>, Seq<char>)>, depth: nat) -> Option<
    Seq<(Seq<char>, JsonView)>,
>
    decreases depth, members.len() + 1,
{
    if members.len() == 0 {
        Some(Seq::empty())
    } else {
        match (member_trees_of(members.drop_last(), depth), tree_of(members.last().1, depth)) {
            (Some(before), Some(tree)) => Some(before.push((members.last().0, tree))),
            _ => None,
        }
    }
}

/// The view of a value that may be absent.
pub open spec fn opt_json(j: Option<Json>) -> Option<JsonView> {
    match j {
        Some(t) => Some(t@),
        None => None,
    }
}

impl Json {
    /// Reads a JSON text that nests arrays and objects no deeper than
    /// `depth` levels.
    pub fn parse_within(text: &str, depth: usize) -> (r: Option<Json>)
        ensures
            opt_json(r) == tree_of(text@, depth as nat),
        decreases depth,
    {
        match split_level(text) {
            None => None,
            Some(Level::Null) => Some(Json::Null),
            Some(Level::Bool(b)) => Some(Json::Bool(b)),
            Some(Level::Number(n)) => Some(Json::Number(n)),
            Some(Level::Str(s)) => Some(Json::Str(s)),
            Some(Level::Array(texts)) => {
                if depth == 0 {
                    return None;
                }
                let ghost all = text_views(texts@);
                let mut items: Vec<Json> = Vec::new();
                let mut i: usize = 0;
                while i < texts.len()
                    invariant
                        0 <= i <= texts.len(),
                        depth > 0,
                        all == text_views(texts@),
                        json_level(text@) == Some(LevelView::Array(all)),
                        trees_of(all.take(i as int), (depth - 1) as nat) == Some(
                            item_views(items@),
                        ),
                    decreases texts.len() - i,
                {
                    let ghost seen = all.take(i as int);
                    let ghost next = all.take(i as int + 1);
                    proof {
                        assert(next.drop_last() =~= seen);
                        assert(next.last() == texts[i as int]@);
                        if i + 1 < texts.len() {
                            assert(all.take(i as int + 2).drop_last() =~= next);
                        }
                    }
                    match Json::parse_within(texts[i].as_str(), depth - 1) {
                        Some(tree) => {
                            let ghost before = item_views(items@);
                            items.push(tree);
                            proof {
                                assert(item_views(items@) =~= before.push(tree@));
                            }
                        },
                        None => {
                            proof {
                                assert(trees_of(next, (depth - 1) as nat) is None);
                                lemma_trees_of_prefix(all, i as int + 1, (depth - 1) as nat);
                            }
                            return None;
                        },
                    }
                    i = i + 1;
                }
                proof {
                    assert(all.take(i as int) =~= all);
                }
                proof {
                    lemma_array_view(items);
                }
                Some(Json::Array(items))
            },
            Some(Level::Object(pairs)) => {
                if depth == 0 {
                    return None;
                }
                let ghost all = pair_views(pairs@);
                let mut members: Vec<(String, Json)> = Vec::new();
                let mut i: usize = 0;
                while i < pairs.len()
                    invariant
                        0 <= i <= pairs.len(),
                        depth > 0,
                        all == pair_views(pairs@),
                        json_level(text@) == Some(LevelView::Object(all)),
                        member_trees_of(all.take(i as int), (depth - 1) as nat) == Some(
                            member_views(members@),
                        ),
                    decreases pairs.len() - i,
                {
                    let ghost seen = all.take(i as int);
                    let ghost next = all.take(i as int + 1);
                    proof {
                        assert(next.drop_last() =~= seen);
                        assert(next.last() == (pairs[i as int].0@, pairs[i as int].1@));
                    }
                    match Json::parse_within(pairs[i].1.as_str(), depth - 1) {
                        Some(tree) => {
                            let ghost before = member_views(members@);
                            let name = pairs[i].0.clone();
                            members.push((name, tree));
                            proof {
                                assert(member_views(members@) =~= before.push(
                                    (pairs[i as int].0@, tree@),
                                ));
                            }
                        },
                        None => {
                            proof {
                                assert(member_trees_of(next, (depth - 1) as nat) is None);
                                lemma_member_trees_of_prefix(
                                    all,
                                    i as int + 1,
                                    (depth - 1) as nat,
                                );
                            }
                            return None;
                        },
                    }
                    i = i + 1;
                }
                proof {
                    assert(all.take(i as int) =~= all);
                }
                proof {
                    lemma_object_view(members);
                }
                Some(Json::Object(members))
            },
        }
    }

    /// Reads a JSON text.
    pub fn parse(text: &str) -> (r: Option<Json>)
        ensures
            opt_json(r) == tree_of(text@, MAX_DEPTH as nat),
    {
        Json::parse_within(text, MAX_DEPTH)
    }
}

/// Where the beginning of a run of texts has no trees, the run has none.
pub proof fn lemma_trees_of_prefix(texts: Seq<Seq<char>>, k: int, depth: nat)
    requires
        0 <= k <= texts.len(),
        trees_of(texts.take(k), depth) is None,
    ensures
        trees_of(texts, depth) is None,
    decreases texts.len() - k,
{
    if k == texts.len() {
        assert(texts.take(k) =~= texts);
    } else {
        assert(texts.take(k + 1).drop_last() =~= texts.take(k));
        lemma_trees_of_prefix(texts, k + 1, depth);
    }
}

/// Where the beginning of a run of members has no trees, the run has none.
pub proof fn lemma_member_trees_of_prefix(
    members: Seq<(Seq<char>, Seq<char>)>,
    k: int,
    depth: nat,
)
    requires
        0 <= k <= members.len(),
        member_trees_of(members.take(k), depth) is None,
    ensures
        member_trees_of(members, depth) is None,
    decreases members.len() - k,
{
    if k == members.len() {
        assert(members.take(k) =~= members);
    } else {
        assert(members.take(k + 1).drop_last() =~= members.take(k));
        lemma_member_trees_of_prefix(members, k + 1, depth);
    }
}

/// What `serde_json::to_string` makes of a text: the text as a JSON
/// string, between quotes and with its escapes.
pub uninterp spec fn json_quoted(text: Seq<char>) -> Seq<char>;

/// `serde_json::to_string` on a `str`; the outcome is `json_quoted` of the
/// text. A `str` always serializes: the empty string that stands in for an
/// error is never returned.
#[verifier::external_body]
pub(crate) fn quote(text: &str) -> (r: String)
    ensures
        r@ == json_quoted(text@),
{
    serde_json::to_string(text).unwrap_or_default()
}

/// The JSON text of a tree, without any space: `null`, `true` and `false`, a
/// number by its numeral, a string as `serde_json` quotes it, an array
/// between `[` and `]` and an object between `{` and `}`, with `,` between
/// what they hold and `:` after the name of a member.
pub open spec fn text_of(j: JsonView) -> Seq<char>
    decreases j,
{
    match j {
        JsonView::Null => "null"@,
        JsonView::Bool(b) => if b {
            "true"@
        } else {
            "false"@
        },
        JsonView::Number(n) => n,
        JsonView::Str(s) => json_quoted(s),
        JsonView::Array(items) => seq!['['] + items_text(items) + seq![']'],
        JsonView::Object(members) => seq!['{'] + members_text(members) + seq!['}'],
    }
}

/// The JSON texts of the items of an array, with `,` between them.
pub open spec fn items_text(items: Seq<JsonView>) -> Seq<char>
    decreases items,
{
    if items.len() == 0 {
        Seq::empty()
    } else if items.len() == 1 {
        text_of(items[0])
    } else {
        items_text(items.drop_last()) + seq![','] + text_of(items.last())
    }
}

/// The JSON texts of the members of an object, with `,` between them.
pub open spec fn members_text(members: Seq<(Seq<char>, JsonView)>) -> Seq<char>
    decreases members,
{
    if members.len() == 0 {
        Seq::empty()
    } else if members.len() == 1 {
        json_quoted(members[0].0) + seq![':'] + text_of(members[0].1)
    } else {
        members_text(members.drop_last()) + seq![','] + json_quoted(members.last().0) + seq![
            ':',
        ] + text_of(members.last().1)
    }
}

impl Json {
    /// Writes the value as JSON text.
    pub fn to_text(&self) -> (r: String)
        ensures
            r@ == text_of(self@),
        decreases self@,
    {
        proof {
            reveal_strlit("[");
            reveal_strlit("]");
            reveal_strlit("{");
            reveal_strlit("}");
            reveal_strlit(",");
            reveal_strlit(":");
        }
        match self {
            Json::Null => String::from_str("null"),
            Json::Bool(b) => if *b {
                String::from_str("true")
            } else {
                String::from_str("false")
            },
            Json::Number(n) => n.clone(),
            Json::Str(s) => quote(s.as_str()),
            Json::Array(items) => {
                proof {
                    lemma_array_view(*items);
                }
                let ghost all = item_views(items@);
                let mut inner = String::new();
                let mut i: usize = 0;
                proof {
                    assert(all.take(0) =~= Seq::<JsonView>::empty());
                }
                while i < items.len()
                    invariant
                        0 <= i <= items.len(),
                        all == item_views(items@),
                        self@ == JsonView::Array(all),
                        inner@ == items_text(all.take(i as int)),
                        ","@ == seq![','],
                    decreases items.len() - i,
                {
                    let ghost next = all.take(i as int + 1);
                    proof {
                        assert(next.drop_last() =~= all.take(i as int));
                        assert(next.last() == items[i as int]@);
                        assert(next[0] == all[0]);
                        assert(decreases_to!(self@ => self@->Array_0));
                        assert(decreases_to!(all => all[i as int]));
                        assert(all[i as int] == items[i as int]@);
                    }
                    if i > 0 {
                        inner.append(",");
                    }
                    let item = items[i].to_text();
                    inner.append(item.as_str());
                    proof {
                        assert(inner@ =~= items_text(next));
                    }
                    i = i + 1;
                }
                proof {
                    assert(all.take(i as int) =~= all);
                }
                let mut r = String::from_str("[");
                r.append(inner.as_str());
                r.append("]");
                proof {
                    assert(r@ =~= text_of(self@));
                }
                r
            },
            Json::Object(members) => {
                proof {
                    lemma_object_view(*members);
                }
                let ghost all = member_views(members@);
                let mut inner = String::new();
                let mut i: usize = 0;
                proof {
                    assert(all.take(0) =~= Seq::<(Seq<char>, JsonView)>::empty());
                }
                while i < members.len()
                    invariant
                        0 <= i <= members.len(),
                        all == member_views(members@),
                        self@ == JsonView::Object(all),
                        inner@ == members_text(all.take(i as int)),
                        ","@ == seq![','],
                        ":"@ == seq![':'],
                    decreases members.len() - i,
                {
                    let ghost next = all.take(i as int + 1);
                    proof {
                        assert(next.drop_last() =~= all.take(i as int));
                        assert(next.last() == (members[i as int].0@, members[i as int].1@));
                        assert(next[0] == all[0]);
                        assert(decreases_to!(self@ => self@->Object_0));
                        assert(decreases_to!(all => all[i as int]));
                        assert(decreases_to!(all[i as int] => all[i as int].1));
                        assert(all[i as int].1 == members[i as int].1@);
                    }
                    if i > 0 {
                        inner.append(",");
                    }
                    let name = quote(members[i].0.as_str());
                    inner.append(name.as_str());
                    inner.append(":");
                    let value = members[i].1.to_text();
                    inner.append(value.as_str());
                    proof {
                        assert(inner@ =~= members_text(next));
                    }
                    i = i + 1;
                }
                proof {
                    assert(all.take(i as int) =~= all);
                }
                let mut r = String::from_str("{");
                r.append(inner.as_str());
                r.append("}");
                proof {
                    assert(r@ =~= text_of(self@));
                }
                r
            },
        }
    }
}

} // verus!
