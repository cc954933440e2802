//! Hierarchical configuration: a JSON document read by JSON pointers.

use vstd::prelude::*;
use vstd::string::*;
use crate::json::{json_pointer, Json, JsonView};
use crate::text::first_value;

verus! {

/// A configuration document.
pub struct Config {
    pub data: Json,
}

/// `s` with every `.` replaced by `/`.
pub open spec fn dots_to_slashes(s: Seq<char>) -> Seq<char> {
    Seq::new(
        s.len(),
        |i: int|
            if s[i] == '.' {
                '/'
            } else {
                s[i]
            },
    )
}

/// The JSON pointer that a path stands for: a path that starts with `/` is
/// a pointer already; a dotted path gets a leading `/` and `/` for each `.`.
pub open spec fn normalized_pointer(path: Seq<char>) -> Seq<char> {
    if path.len() > 0 && path[0] == '/' {
        path
    } else {
        seq!['/'] + dots_to_slashes(path)
    }
}

/// The unsigned integer that a configuration value holds, where it fits `usize`.
pub open spec fn as_usize_spec(v: JsonView) -> Option<usize> {
    match v.as_u64() {
        Some(n) => if n <= usize::MAX {
            Some(n as usize)
        } else {
            None
        },
        None => None,
    }
}

/// The unsigned integer that `v` holds, where it is one and fits `usize`.
pub fn json_as_usize(v: &Json) -> (r: Option<usize>)
    ensures
        r == as_usize_spec(v@),
{
    match v.as_u64() {
        Some(n) => if n <= usize::MAX as u64 {
            Some(n as usize)
        } else {
            None
        },
        None => None,
    }
}

impl Config {
    /// The value that the document holds under `path`.
    pub open spec fn lookup(&self, path: Seq<char>) -> Option<JsonView> {
        json_pointer(self.data@, normalized_pointer(path))
    }

    /// An empty configuration: an object without members.
    pub fn new() -> (c: Config)
        ensures
            c.data@ == JsonView::Object(Seq::empty()),
    {
        let c = Config { data: Json::Object(Vec::new()) };
        assert(c.data@->Object_0 =~= Seq::empty());
        c
    }

    /// The JSON pointer that a path stands for.
    #[verifier::loop_isolation(false)]
    pub fn normalize_pointer(path: &str) -> (pointer: String)
        ensures
            pointer@ == normalized_pointer(path@),
    {
        broadcast use vstd::string::group_string_axioms;

        let mut pointer = String::new();
        let mut first: bool = true;
        let mut rooted: bool = false;
        for c in it: path.chars()
            invariant
                it.seq() == path@,
                first == (it.index() == 0),
                !first ==> rooted == (path@[0] == '/'),
                first ==> pointer@.len() == 0,
                !first && rooted ==> pointer@ == path@.take(it.index()),
                !first && !rooted ==> pointer@ == seq!['/'] + dots_to_slashes(
                    path@.take(it.index()),
                ),
        {
            if first {
                rooted = c == '/';
                first = false;
                if !rooted {
                    pointer.push('/');
                }
            }
            if !rooted && c == '.' {
                pointer.push('/');
            } else {
                pointer.push(c);
            }
            proof {
                let k = it.index();
                assert(path@.take(k + 1) == path@.take(k).push(c));
                if !rooted {
                    assert(dots_to_slashes(path@.take(k + 1)) =~= dots_to_slashes(
                        path@.take(k),
                    ).push(if c == '.' { '/' } else { c }));
                    assert((seq!['/'] + dots_to_slashes(path@.take(k))).push(
                        if c == '.' { '/' } else { c },
                    ) =~= seq!['/'] + dots_to_slashes(path@.take(k + 1)));
                }
            }
        }
        proof {
            assert(path@.take(path@.len() as int) == path@);
        }
        if first {
            pointer.push('/');
            proof {
                assert(dots_to_slashes(path@) =~= Seq::<char>::empty());
                assert(pointer@ =~= seq!['/'] + dots_to_slashes(path@));
            }
        }
        pointer
    }

    /// The value under `path`, if the document holds one.
    pub fn get(&self, path: &str) -> (r: Option<Json>)
        ensures
            match r {
                Some(v) => self.lookup(path@) == Some(v@),
                None => self.lookup(path@) is None,
            },
    {
        let pointer = Config::normalize_pointer(path);
        self.data.pointer(pointer.as_str())
    }

    /// The text under `path`, if the document holds a text there.
    pub fn get_string(&self, path: &str) -> (r: Option<String>)
        ensures
            match r {
                Some(s) => self.lookup(path@) matches Some(v) && v.as_str() == Some(s@),
                None => !(self.lookup(path@) matches Some(v) && v.as_str() is Some),
            },
    {
        match self.get(path) {
            Some(v) => match v.as_str() {
                Some(s) => Some(s.to_owned()),
                None => None,
            },
            None => None,
        }
    }

    /// The truth value under `path`, if the document holds one there.
    pub fn get_bool(&self, path: &str) -> (r: Option<bool>)
        ensures
            match r {
                Some(b) => self.lookup(path@) matches Some(v) && v.as_bool() == Some(b),
                None => !(self.lookup(path@) matches Some(v) && v.as_bool() is Some),
            },
    {
        match self.get(path) {
            Some(v) => v.as_bool(),
            None => None,
        }
    }

    /// The unsigned integer under `path`, if the document holds one there
    /// that fits `usize`.
    pub fn get_usize(&self, path: &str) -> (r: Option<usize>)
        ensures
            match r {
                Some(n) => self.lookup(path@) matches Some(v) && as_usize_spec(v) == Some(n),
                None => !(self.lookup(path@) matches Some(v) && as_usize_spec(v) is Some),
            },
    {
        match self.get(path) {
            Some(v) => json_as_usize(&v),
            None => None,
        }
    }

    /// The text under `path`, or `default` where the document holds no text there.
    pub fn get_or_default(&self, path: &str, default: &str) -> (r: String)
        ensures
            r@ == match self.lookup(path@) {
                Some(JsonView::Str(s)) => s,
                _ => default@,
            },
    {
        match self.get_string(path) {
            Some(s) => s,
            None => default.to_owned(),
        }
    }
}

/// The value of an optional JSON value.
pub open spec fn opt_view(v: Option<Json>) -> Option<JsonView> {
    match v {
        Some(j) => Some(j@),
        None => None,
    }
}

/// The cache size that a configuration value stands for: the unsigned
/// integer it holds, or 100.
pub open spec fn cache_size_spec(v: Option<JsonView>) -> usize {
    match v {
        Some(j) => match as_usize_spec(j) {
            Some(n) => n,
            None => 100,
        },
        None => 100,
    }
}

/// The cache size that a configured value holds, 100 where it holds none.
pub fn cache_size_from_json(v: &Option<Json>) -> (size: usize)
    ensures
        size == cache_size_spec(opt_view(*v)),
{
    match v {
        Some(j) => match json_as_usize(j) {
            Some(n) => n,
            None => 100,
        },
        None => 100,
    }
}

/// `s` without the slashes it begins with.
pub open spec fn trim_slashes(s: Seq<char>) -> Seq<char>
    decreases s.len(),
{
    if s.len() > 0 && s[0] == '/' {
        trim_slashes(s.drop_first())
    } else {
        s
    }
}

/// The pieces of `s` between its slashes; a text without slashes is one piece.
pub open spec fn split_slashes(s: Seq<char>) -> Seq<Seq<char>>
    decreases s.len(),
{
    if s.len() == 0 {
        seq![Seq::empty()]
    } else {
        let before = split_slashes(s.drop_last());
        if s.last() == '/' {
            before.push(Seq::empty())
        } else {
            before.update(before.len() - 1, before.last().push(s.last()))
        }
    }
}

/// The names that a pointer leads through.
pub open spec fn pointer_parts(pointer: Seq<char>) -> Seq<Seq<char>> {
    split_slashes(trim_slashes(pointer))
}

/// The members with `value` under `key`: in place of the first member of
/// that name, or at the end where there is none.
pub open spec fn put_member(
    members: Seq<(Seq<char>, JsonView)>,
    key: Seq<char>,
    value: JsonView,
) -> Seq<(Seq<char>, JsonView)>
    decreases members.len(),
{
    if members.len() == 0 {
        seq![(key, value)]
    } else if members[0].0 == key {
        seq![(key, value)] + members.drop_first()
    } else {
        seq![members[0]] + put_member(members.drop_first(), key, value)
    }
}

/// The members of an object; none for any other value.
pub open spec fn members_of(j: JsonView) -> Seq<(Seq<char>, JsonView)> {
    match j {
        JsonView::Object(members) => members,
        _ => Seq::empty(),
    }
}

/// The value `j` with `value` set at the end of the path `parts`: every
/// step of the path that is no object becomes one, and the last name gets
/// the value.
pub open spec fn set_in(j: JsonView, parts: Seq<Seq<char>>, value: JsonView) -> JsonView
    decreases parts.len(),
{
    let members = members_of(j);
    if parts.len() <= 1 {
        JsonView::Object(put_member(members, parts[0], value))
    } else {
        let child = match first_value(members, parts[0]) {
            Some(c) => c,
            None => JsonView::Object(Seq::empty()),
        };
        JsonView::Object(put_member(members, parts[0], set_in(child, parts.drop_first(), value)))
    }
}

/// The texts of a list of names.
pub open spec fn names_view(names: Seq<String>) -> Seq<Seq<char>> {
    Seq::new(names.len(), |i: int| names[i]@)
}

proof fn lemma_put_member_at(
    members: Seq<(Seq<char>, JsonView)>,
    key: Seq<char>,
    value: JsonView,
    i: int,
)
    requires
        0 <= i <= members.len(),
        forall|j: int| 0 <= j < i ==> (#[trigger] members[j]).0 != key,
        i < members.len() ==> members[i].0 == key,
    ensures
        put_member(members, key, value) == if i < members.len() {
            members.update(i, (key, value))
        } else {
            members.push((key, value))
        },
    decreases members.len(),
{
    if members.len() == 0 {
        assert(members.push((key, value)) =~= seq![(key, value)]);
    } else if i == 0 {
        assert(members.update(0, (key, value)) =~= seq![(key, value)] + members.drop_first());
    } else {
        let rest = members.drop_first();
        assert forall|j: int| 0 <= j < i - 1 implies (#[trigger] rest[j]).0 != key by {
            assert(rest[j] == members[j + 1]);
        }
        lemma_put_member_at(rest, key, value, i - 1);
        if i < members.len() {
            assert(seq![members[0]] + rest.update(i - 1, (key, value)) =~= members.update(
                i,
                (key, value),
            ));
        } else {
            assert(seq![members[0]] + rest.push((key, value)) =~= members.push((key, value)));
        }
    }
}

/// Splits a pointer into the names it leads through.
#[verifier::loop_isolation(false)]
pub fn split_pointer(pointer: &str) -> (parts: Vec<String>)
    ensures
        names_view(parts@) == pointer_parts(pointer@),
        parts@.len() >= 1,
{
    broadcast use vstd::string::group_string_axioms;

    let mut parts: Vec<String> = Vec::new();
    let mut current = String::new();
    let mut leading: bool = true;
    let ghost mut start: int = 0;
    proof {
        assert(pointer@.skip(0) =~= pointer@);
    }
    for c in it: pointer.chars()
        invariant
            it.seq() == pointer@,
            0 <= start <= it.index(),
            leading ==> start == it.index() && parts@.len() == 0 && current@.len() == 0,
            leading ==> trim_slashes(pointer@) == trim_slashes(pointer@.skip(start)),
            !leading ==> trim_slashes(pointer@) == pointer@.skip(start),
            !leading ==> names_view(parts@).push(current@) == split_slashes(
                pointer@.subrange(start, it.index()),
            ),
    {
        let ghost k = it.index();
        if leading && c == '/' {
            proof {
                assert(pointer@.skip(start)[0] == c);
                assert(pointer@.skip(start).drop_first() == pointer@.skip(start + 1));
                start = start + 1;
            }
        } else {
            proof {
                if leading {
                    assert(pointer@.skip(start)[0] == c);
                    assert(pointer@.subrange(start, k) =~= Seq::<char>::empty());
                    assert(current@ =~= Seq::<char>::empty());
                    assert(names_view(parts@).push(current@) =~= seq![Seq::<char>::empty()]);
                }
                let upto = pointer@.subrange(start, k + 1);
                assert(upto.drop_last() == pointer@.subrange(start, k));
                assert(upto.last() == c);
            }
            leading = false;
            let ghost before = names_view(parts@).push(current@);
            proof {
                let upto = pointer@.subrange(start, k + 1);
                assert(before == split_slashes(pointer@.subrange(start, k)));
                assert(before.last() == current@);
                assert(upto.len() > 0);
                assert(split_slashes(upto) == if c == '/' {
                    before.push(Seq::empty())
                } else {
                    before.update(before.len() - 1, before.last().push(c))
                });
            }
            if c == '/' {
                parts.push(current);
                current = String::new();
                proof {
                    assert(names_view(parts@).push(current@) =~= before.push(Seq::empty()));
                }
            } else {
                let ghost prior = current@;
                current.push(c);
                proof {
                    assert(names_view(parts@).push(current@) =~= before.update(
                        before.len() - 1,
                        prior.push(c),
                    ));
                }
            }
        }
    }
    proof {
        if leading {
            assert(pointer@.skip(start) =~= Seq::<char>::empty());
            assert(current@ =~= Seq::<char>::empty());
            assert(names_view(parts@).push(current@) =~= seq![Seq::<char>::empty()]);
        } else {
            assert(pointer@.subrange(start, pointer@.len() as int) == pointer@.skip(start));
        }
    }
    let ghost done = names_view(parts@).push(current@);
    parts.push(current);
    assert(names_view(parts@) =~= done);
    parts
}

/// The value `j` with `value` set at the end of the path that `parts`
/// holds from `from` on.
#[verifier::loop_isolation(false)]
pub fn set_at(j: Json, parts: &Vec<String>, from: usize, value: Json) -> (r: Json)
    requires
        from < parts@.len(),
    ensures
        r@ == set_in(j@, names_view(parts@).skip(from as int), value@),
    decreases parts@.len() - from,
{
    let ghost old_members = members_of(j@);
    let ghost path = names_view(parts@).skip(from as int);
    let key: &String = &parts[from];
    let last: bool = from == parts.len() - 1;
    let mut members: Vec<(String, Json)> = match j {
        Json::Object(m) => m,
        _ => Vec::new(),
    };
    proof {
        assert(path[0] == key@);
        assert(path.drop_first() =~= names_view(parts@).skip(from + 1));
        assert(crate::json::members_view(members@) =~= old_members);
    }
    let mut i: usize = 0;
    while i < members.len() && !crate::text::str_eq(members[i].0.as_str(), key.as_str())
        invariant
            i <= members@.len(),
            forall|k: int| 0 <= k < i ==> (#[trigger] old_members[k]).0 != key@,
        decreases members@.len() - i,
    {
        i += 1;
    }
    if i < members.len() {
        let (name, child) = members.remove(i);
        let fresh = if last {
            value
        } else {
            proof {
                crate::text::lemma_first_value_at(old_members, key@, i as int);
            }
            set_at(child, parts, from + 1, value)
        };
        members.insert(i, (name, fresh));
        proof {
            lemma_put_member_at(old_members, key@, fresh@, i as int);
            assert(crate::json::members_view(members@) =~= old_members.update(
                i as int,
                (key@, fresh@),
            ));
        }
    } else {
        let fresh = if last {
            value
        } else {
            proof {
                crate::text::lemma_first_value_none(old_members, key@);
            }
            let empty = Json::Object(Vec::new());
            assert(empty@->Object_0 =~= Seq::empty());
            set_at(empty, parts, from + 1, value)
        };
        members.push((key.clone(), fresh));
        proof {
            lemma_put_member_at(old_members, key@, fresh@, i as int);
            assert(crate::json::members_view(members@) =~= old_members.push((key@, fresh@)));
        }
    }
    Json::object(members)
}

impl Config {
    /// Sets the text `value` under `path`, making objects along the way.
    /// A path without a name is rejected, and so is a value that is no
    /// JSON text once it stands between quotes.
    pub fn set(&mut self, path: &str, value: &str) -> (r: Result<(), crate::errors::AiCoreError>)
        ensures
            match r {
                Ok(_) => crate::json::json_parse("\""@ + value@ + "\""@) matches Some(v)
                    && pointer_parts(normalized_pointer(path@)) != seq![Seq::<char>::empty()]
                    && final(self).data@ == set_in(
                    old(self).data@,
                    pointer_parts(normalized_pointer(path@)),
                    v,
                ),
                Err(e) => final(self).data@ == old(self).data@ && (if crate::json::json_parse(
                    "\""@ + value@ + "\""@,
                ) is None {
                    e is Json
                } else {
                    e is InvalidArgument && pointer_parts(normalized_pointer(path@)) == seq![
                        Seq::<char>::empty(),
                    ]
                }),
            },
    {
        let pointer = Config::normalize_pointer(path);
        let mut quoted: String = "\"".to_owned();
        quoted.append(value);
        quoted.append("\"");
        let v = match Json::parse(quoted.as_str()) {
            Ok(v) => v,
            Err(e) => {
                return Err(crate::errors::AiCoreError::Json(e.to_string()));
            },
        };
        let parts = split_pointer(pointer.as_str());
        if parts.len() == 1 && parts[0].as_str().unicode_len() == 0 {
            proof {
                assert(parts@[0]@ =~= Seq::<char>::empty());
                assert(names_view(parts@) =~= seq![Seq::<char>::empty()]);
            }
            return Err(crate::errors::AiCoreError::invalid_arg("Invalid pointer path"));
        }
        proof {
            assert(names_view(parts@).skip(0) =~= names_view(parts@));
            if names_view(parts@) == seq![Seq::<char>::empty()] {
                assert(names_view(parts@)[0] == Seq::<char>::empty());
            }
        }
        let mut data = Json::Null;
        std::mem::swap(&mut self.data, &mut data);
        self.data = set_at(data, &parts, 0, v);
        Ok(())
    }
}

} // verus!
