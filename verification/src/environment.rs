//! Configuration values by name, and texts that refer to them.

use vstd::prelude::*;
use vstd::string::*;
use crate::text::{
    as_map, chars_of, distinct_names, entry_views, join, join_strings, lemma_as_map,
    lemma_map_size, replace_all, replaced, same_text, views,
};

verus! {

/// Why the configuration could not be loaded or used.
#[derive(Debug, Clone, PartialEq, Eq)]
pub struct EnvironmentError {
    pub message: String,
}

impl EnvironmentError {
    /// The error as shown to a reader.
    pub open spec fn spec_describe(self) -> Seq<char> {
        "Environment error: "@ + self.message@
    }

    pub fn new(message: &str) -> (e: EnvironmentError)
        ensures
            e.message@ == message@,
    {
        EnvironmentError { message: String::from_str(message) }
    }

    /// The error as shown to a reader.
    pub fn describe(&self) -> (s: String)
        ensures
            s@ == self.spec_describe(),
    {
        let mut s = String::from_str("Environment error: ");
        s.append(self.message.as_str());
        s
    }
}

/// Whether `c` may stand in the name of a variable: a letter or digit of
/// ASCII, an underscore, a hyphen or a full stop.
pub open spec fn is_name_char(c: char) -> bool {
    let n = c as u32;
    ||| 0x41 <= n <= 0x5A
    ||| 0x61 <= n <= 0x7A
    ||| 0x30 <= n <= 0x39
    ||| n == 0x5F
    ||| n == 0x2D
    ||| n == 0x2E
}

/// How many name characters `s` begins with.
pub open spec fn name_run(s: Seq<char>) -> nat
    decreases s.len(),
{
    if s.len() > 0 && is_name_char(s[0]) {
        1 + name_run(s.drop_first())
    } else {
        0
    }
}

/// The name of the reference that `s` begins with: a dollar sign, an
/// opening brace, a name that is not empty and as long as it can be, and a
/// closing brace.
pub open spec fn reference_at(s: Seq<char>) -> Option<Seq<char>> {
    if s.len() >= 2 && s[0] == '$' && s[1] == '{' {
        let n = name_run(s.skip(2)) as int;
        if n > 0 && 2 + n < s.len() && s[2 + n] == '}' {
            Some(s.subrange(2, 2 + n))
        } else {
            None
        }
    } else {
        None
    }
}

/// The names of the references in `s`, from left to right; a reference
/// begins where the one before has ended.
pub open spec fn references(s: Seq<char>) -> Seq<Seq<char>>
    decreases s.len(),
{
    if s.len() == 0 {
        Seq::empty()
    } else {
        match reference_at(s) {
            Some(name) => seq![name] + references(s.skip(name.len() as int + 3)),
            None => references(s.skip(1)),
        }
    }
}

/// A reference to the variable `name` as it stands in a text.
pub open spec fn reference_to(name: Seq<char>) -> Seq<char> {
    "${"@ + name + "}"@
}

/// `text` with the references to `names` filled in, one name after the
/// other: every reference to a name that has a value is replaced by it.
pub open spec fn filled(
    text: Seq<char>,
    names: Seq<Seq<char>>,
    variables: Map<Seq<char>, Seq<char>>,
) -> Seq<char>
    decreases names.len(),
{
    if names.len() == 0 {
        text
    } else {
        let before = filled(text, names.drop_last(), variables);
        let name = names.last();
        if variables.contains_key(name) {
            replaced(before, reference_to(name), variables[name])
        } else {
            before
        }
    }
}

/// The names among `names` that have no value, in their order.
pub open spec fn missing(names: Seq<Seq<char>>, variables: Map<Seq<char>, Seq<char>>) -> Seq<
    Seq<char>,
>
    decreases names.len(),
{
    if names.len() == 0 {
        Seq::empty()
    } else {
        let before = missing(names.drop_last(), variables);
        if variables.contains_key(names.last()) {
            before
        } else {
            before.push(names.last())
        }
    }
}

/// What filling the references of `text` comes to: the filled text, or the
/// list of the names without a value.
pub open spec fn spec_replace_variables(text: Seq<char>, variables: Map<Seq<char>, Seq<char>>) -> Result<
    Seq<char>,
    Seq<char>,
> {
    let names = references(text);
    if missing(names, variables).len() > 0 {
        Err("Missing environment variables: "@ + join(missing(names, variables), ", "@))
    } else {
        Ok(filled(text, names, variables))
    }
}

/// Whether `c` may stand in the name of a variable.
pub fn char_is_name(c: char) -> (r: bool)
    ensures
        r == is_name_char(c),
{
    let n = c as u32;
    (0x41 <= n && n <= 0x5A) || (0x61 <= n && n <= 0x7A) || (0x30 <= n && n <= 0x39) || n == 0x5F
        || n == 0x2D || n == 0x2E
}

proof fn lemma_name_run(s: Seq<char>, n: int)
    requires
        0 <= n <= s.len(),
        forall|k: int| 0 <= k < n ==> is_name_char(#[trigger] s[k]),
        n < s.len() ==> !is_name_char(s[n]),
    ensures
        name_run(s) == n,
    decreases n,
{
    if n > 0 {
        let rest = s.drop_first();
        assert forall|k: int| 0 <= k < n - 1 implies is_name_char(#[trigger] rest[k]) by {
            assert(rest[k] == s[k + 1]);
        }
        lemma_name_run(rest, n - 1);
    }
}

/// The names of the references in `text`, from left to right.
pub fn find_references(text: &str) -> (names: Vec<String>)
    ensures
        views(names@) == references(text@),
{
    let chars = chars_of(text);
    let len = chars.len();
    let mut names: Vec<String> = Vec::new();
    let mut i: usize = 0;
    assert(text@.skip(0) =~= text@);
    assert(views(names@) =~= Seq::<Seq<char>>::empty());
    while i < len
        invariant
            i <= len,
            len == text@.len(),
            chars@ == text@,
            references(text@) == views(names@) + references(text@.skip(i as int)),
        decreases len - i,
    {
        let ghost rest = text@.skip(i as int);
        let mut run: usize = 0;
        let opens = len - i >= 2 && chars[i] == '$' && chars[i + 1] == '{';
        if opens {
            while i + 2 + run < len && char_is_name(chars[i + 2 + run])
                invariant
                    i + 2 <= len,
                    i + 2 + run <= len,
                    len == text@.len(),
                    chars@ == text@,
                    forall|k: int| 0 <= k < run ==> is_name_char(#[trigger] text@[i + 2 + k]),
                decreases len - run,
            {
                run = run + 1;
            }
            proof {
                let tail = rest.skip(2);
                assert forall|k: int| 0 <= k < run implies is_name_char(#[trigger] tail[k]) by {
                    assert(tail[k] == text@[i + 2 + k]);
                }
                if run < tail.len() {
                    assert(tail[run as int] == text@[i + 2 + run]);
                }
                lemma_name_run(tail, run as int);
            }
        }
        let closes = opens && run > 0 && i + 2 + run < len && chars[i + 2 + run] == '}';
        proof {
            assert(rest[0] == text@[i as int]);
            if rest.len() >= 2 {
                assert(rest[1] == text@[i + 1]);
            }
            if opens && 2 + run < rest.len() {
                assert(rest[2 + run] == text@[i + 2 + run]);
            }
        }
        if closes {
            let name = text.substring_char(i + 2, i + 2 + run);
            let ghost before = views(names@);
            proof {
                assert(rest.subrange(2, 2 + run) =~= text@.subrange(i + 2, i + 2 + run));
                assert(reference_at(rest) == Some(name@));
                assert(rest.skip(name@.len() as int + 3) =~= text@.skip(i + run + 3));
            }
            names.push(String::from_str(name));
            proof {
                assert(views(names@) =~= before + seq![name@]);
                assert(references(text@) =~= views(names@) + references(
                    text@.skip(i + run + 3),
                ));
            }
            i = i + run + 3;
        } else {
            proof {
                assert(reference_at(rest) is None);
                assert(rest.skip(1) =~= text@.skip(i + 1));
            }
            i = i + 1;
        }
    }
    proof {
        assert(references(text@.skip(len as int)) =~= Seq::<Seq<char>>::empty());
        assert(views(names@) + Seq::<Seq<char>>::empty() =~= views(names@));
    }
    names
}

/// The configuration of a bot: values by name.
#[derive(Debug)]
pub struct Environment {
    variables: Vec<(String, String)>,
}

impl View for Environment {
    type V = Map<Seq<char>, Seq<char>>;

    closed spec fn view(&self) -> Map<Seq<char>, Seq<char>> {
        as_map(entry_views(self.variables@))
    }
}

impl Environment {
    #[verifier::type_invariant]
    closed spec fn inv(self) -> bool {
        distinct_names(entry_views(self.variables@))
    }

    /// A configuration without values.
    pub fn new() -> (env: Environment)
        ensures
            env@ == Map::<Seq<char>, Seq<char>>::empty(),
    {
        let env = Environment { variables: Vec::new() };
        assert(entry_views(env.variables@) =~= Seq::empty());
        env
    }

    fn position(&self, key: &str) -> (r: Option<usize>)
        ensures
            match r {
                Some(i) => i < self.variables@.len() && self.variables@[i as int].0@ == key@,
                None => forall|k: int|
                    0 <= k < self.variables@.len() ==> (#[trigger] self.variables@[k]).0@ != key@,
            },
    {
        let mut i: usize = 0;
        while i < self.variables.len()
            invariant
                i <= self.variables.len(),
                forall|k: int| 0 <= k < i ==> (#[trigger] self.variables@[k]).0@ != key@,
            decreases self.variables.len() - i,
        {
            if same_text(self.variables[i].0.as_str(), key) {
                return Some(i);
            }
            i = i + 1;
        }
        None
    }

    /// The value of `key`.
    pub fn get(&self, key: &str) -> (r: Option<String>)
        ensures
            match r {
                Some(value) => self@.contains_key(key@) && value@ == self@[key@],
                None => !self@.contains_key(key@),
            },
    {
        proof {
            use_type_invariant(self);
            lemma_as_map(entry_views(self.variables@));
        }
        match self.position(key) {
            Some(i) => {
                assert(entry_views(self.variables@)[i as int].0 == key@);
                Some(self.variables[i].1.clone())
            },
            None => {
                assert(!self@.contains_key(key@)) by {
                    if self@.contains_key(key@) {
                        let k = choose|k: int|
                            0 <= k < self.variables@.len() && (#[trigger] entry_views(
                                self.variables@,
                            )[k]).0 == key@;
                        assert(self.variables@[k].0@ == key@);
                    }
                }
                None
            },
        }
    }

    /// The value of `key`, or `default` where it has none.
    pub fn get_or(&self, key: &str, default: &str) -> (r: String)
        ensures
            r@ == if self@.contains_key(key@) {
                self@[key@]
            } else {
                default@
            },
    {
        match self.get(key) {
            Some(value) => value,
            None => String::from_str(default),
        }
    }

    /// Gives `key` the value `value`.
    pub fn set(&mut self, key: &str, value: &str)
        ensures
            final(self)@ == old(self)@.insert(key@, value@),
    {
        proof {
            use_type_invariant(&*self);
        }
        let ghost before = entry_views(self.variables@);
        let found = self.position(key);
        let mut entries: Vec<(String, String)> = Vec::new();
        let mut i: usize = 0;
        while i < self.variables.len()
            invariant
                i <= self.variables.len(),
                before == entry_views(self.variables@),
                entries@.len() == i,
                forall|k: int|
                    0 <= k < i ==> (#[trigger] entries@[k]).0@ == before[k].0 && entries@[k].1@
                        == if found == Some(k as usize) {
                        value@
                    } else {
                        before[k].1
                    },
            decreases self.variables.len() - i,
        {
            let name = self.variables[i].0.clone();
            if found == Some(i) {
                entries.push((name, String::from_str(value)));
            } else {
                entries.push((name, self.variables[i].1.clone()));
            }
            i = i + 1;
        }
        if found.is_none() {
            entries.push((String::from_str(key), String::from_str(value)));
        }
        proof {
            let after = entry_views(entries@);
            assert(distinct_names(before));
            assert(distinct_names(after)) by {
                assert forall|a: int, b: int| 0 <= a < b < after.len() implies (
                #[trigger] after[a]).0 != (#[trigger] after[b]).0 by {
                    if b < before.len() {
                        assert(before[a].0 != before[b].0);
                    } else {
                        assert(self.variables@[a].0@ != key@);
                    }
                }
            }
            lemma_as_map(before);
            lemma_as_map(after);
            let want = as_map(before).insert(key@, value@);
            assert forall|name: Seq<char>| as_map(after).contains_key(name) <==> want.contains_key(
                name,
            ) by {
                if as_map(after).contains_key(name) {
                    let k = choose|k: int| 0 <= k < after.len() && (#[trigger] after[k]).0 == name;
                    if k < before.len() {
                        assert(before[k].0 == name);
                    }
                }
                if want.contains_key(name) && name != key@ {
                    let k = choose|k: int|
                        0 <= k < before.len() && (#[trigger] before[k]).0 == name;
                    assert(after[k].0 == name);
                }
                if name == key@ {
                    match found {
                        Some(at) => {
                            assert(after[at as int].0 == key@);
                        },
                        None => {
                            assert(after[after.len() - 1].0 == key@);
                        },
                    }
                }
            }
            assert forall|name: Seq<char>| as_map(after).contains_key(name) implies as_map(
                after,
            )[name] == want[name] by {
                let k = choose|k: int| 0 <= k < after.len() && (#[trigger] after[k]).0 == name;
                if k < before.len() {
                    assert(before[k].0 == name);
                    if found == Some(k as usize) {
                        assert(self.variables@[k].0@ == key@);
                    } else {
                        assert(name != key@) by {
                            if name == key@ {
                                match found {
                                    Some(at) => {
                                        assert(before[at as int].0 == key@);
                                    },
                                    None => {
                                        assert(self.variables@[k].0@ != key@);
                                    },
                                }
                            }
                        }
                    }
                }
            }
            assert(as_map(after) =~= want);
        }
        *self = Environment { variables: entries };
    }

    /// Takes the value of `key` away.
    pub fn delete(&mut self, key: &str)
        ensures
            final(self)@ == old(self)@.remove(key@),
    {
        proof {
            use_type_invariant(&*self);
        }
        let ghost before = entry_views(self.variables@);
        let mut entries: Vec<(String, String)> = Vec::new();
        let ghost mut origin: Seq<int> = Seq::empty();
        let mut i: usize = 0;
        while i < self.variables.len()
            invariant
                i <= self.variables.len(),
                before == entry_views(self.variables@),
                origin.len() == entries@.len(),
                forall|k: int|
                    0 <= k < entries@.len() ==> 0 <= (#[trigger] origin[k]) < i && entry_views(
                        entries@,
                    )[k] == before[origin[k]] && before[origin[k]].0 != key@,
                forall|a: int, b: int|
                    0 <= a < b < origin.len() ==> (#[trigger] origin[a]) < (#[trigger] origin[b]),
                forall|j: int|
                    0 <= j < i && (#[trigger] before[j]).0 != key@ ==> exists|k: int|
                        0 <= k < origin.len() && (#[trigger] origin[k]) == j,
            decreases self.variables.len() - i,
        {
            if !same_text(self.variables[i].0.as_str(), key) {
                let ghost kept = origin;
                entries.push((self.variables[i].0.clone(), self.variables[i].1.clone()));
                proof {
                    origin = origin.push(i as int);
                    assert forall|j: int|
                        0 <= j < i + 1 && (#[trigger] before[j]).0 != key@ implies exists|k: int|
                        0 <= k < origin.len() && (#[trigger] origin[k]) == j by {
                        if j < i {
                            let k = choose|k: int| 0 <= k < kept.len() && (#[trigger] kept[k]) == j;
                            assert(origin[k] == j);
                        } else {
                            assert(origin[origin.len() - 1] == j);
                        }
                    }
                }
            }
            i = i + 1;
        }
        proof {
            let after = entry_views(entries@);
            assert(distinct_names(before));
            assert(distinct_names(after)) by {
                assert forall|a: int, b: int| 0 <= a < b < after.len() implies (
                #[trigger] after[a]).0 != (#[trigger] after[b]).0 by {
                    assert(origin[a] < origin[b]);
                    assert(before[origin[a]].0 != before[origin[b]].0);
                }
            }
            lemma_as_map(before);
            lemma_as_map(after);
            let want = as_map(before).remove(key@);
            assert forall|name: Seq<char>| as_map(after).contains_key(name) <==> want.contains_key(
                name,
            ) by {
                if as_map(after).contains_key(name) {
                    let k = choose|k: int| 0 <= k < after.len() && (#[trigger] after[k]).0 == name;
                    assert(before[origin[k]].0 == name);
                }
                if want.contains_key(name) {
                    let j = choose|j: int|
                        0 <= j < before.len() && (#[trigger] before[j]).0 == name;
                    let k = choose|k: int| 0 <= k < origin.len() && (#[trigger] origin[k]) == j;
                    assert(after[k].0 == name);
                }
            }
            assert forall|name: Seq<char>| as_map(after).contains_key(name) implies as_map(
                after,
            )[name] == want[name] by {
                let k = choose|k: int| 0 <= k < after.len() && (#[trigger] after[k]).0 == name;
                assert(before[origin[k]].0 == name);
            }
            assert(as_map(after) =~= want);
        }
        *self = Environment { variables: entries };
    }

    /// Takes every value away.
    pub fn clear(&mut self)
        ensures
            final(self)@ == Map::<Seq<char>, Seq<char>>::empty(),
    {
        let entries: Vec<(String, String)> = Vec::new();
        assert(entry_views(entries@) =~= Seq::empty());
        *self = Environment { variables: entries };
    }

    /// Every name with its value, each name once.
    pub fn get_all(&self) -> (all: Vec<(String, String)>)
        ensures
            distinct_names(entry_views(all@)),
            as_map(entry_views(all@)) == self@,
            all@.len() == self@.dom().len(),
    {
        proof {
            use_type_invariant(self);
        }
        let mut all: Vec<(String, String)> = Vec::new();
        let mut i: usize = 0;
        while i < self.variables.len()
            invariant
                i <= self.variables.len(),
                all@.len() == i,
                forall|k: int|
                    0 <= k < i ==> (#[trigger] all@[k]).0@ == self.variables@[k].0@ && all@[k].1@
                        == self.variables@[k].1@,
            decreases self.variables.len() - i,
        {
            all.push((self.variables[i].0.clone(), self.variables[i].1.clone()));
            i = i + 1;
        }
        proof {
            assert(entry_views(all@) =~= entry_views(self.variables@));
            lemma_map_size(entry_views(all@));
        }
        all
    }

    /// Fills the references of `text`: every `${NAME}` is replaced by the
    /// value of `NAME`.  Where a name has no value the text is refused and
    /// the error lists the names that have none.
    pub fn replace_variables(&self, text: &str) -> (r: Result<String, EnvironmentError>)
        ensures
            match spec_replace_variables(text@, self@) {
                Ok(result) => r matches Ok(filled) && filled@ == result,
                Err(message) => r matches Err(e) && e.message@ == message,
            },
    {
        let names = find_references(text);
        let ghost all = views(names@);
        let mut result = String::from_str(text);
        let mut absent: Vec<String> = Vec::new();
        let mut i: usize = 0;
        assert(all.take(0) =~= Seq::<Seq<char>>::empty());
        assert(views(absent@) =~= Seq::<Seq<char>>::empty());
        while i < names.len()
            invariant
                i <= names.len(),
                all == views(names@),
                result@ == filled(text@, all.take(i as int), self@),
                views(absent@) == missing(all.take(i as int), self@),
            decreases names.len() - i,
        {
            proof {
                let next = all.take(i + 1);
                assert(next.drop_last() =~= all.take(i as int));
                assert(next.last() == names@[i as int]@);
            }
            let name = names[i].as_str();
            match self.get(name) {
                Some(value) => {
                    let mut reference = String::from_str("${");
                    reference.append(name);
                    reference.append("}");
                    proof {
                        reveal_strlit("${");
                    }
                    result = replace_all(result.as_str(), reference.as_str(), value.as_str());
                },
                None => {
                    let ghost before = views(absent@);
                    absent.push(String::from_str(name));
                    assert(views(absent@) =~= before.push(name@));
                },
            }
            i = i + 1;
        }
        assert(all.take(names.len() as int) =~= all);
        if absent.len() > 0 {
            let mut message = String::from_str("Missing environment variables: ");
            let listed = join_strings(absent.as_slice(), ", ");
            message.append(listed.as_str());
            Err(EnvironmentError { message })
        } else {
            Ok(result)
        }
    }
}

} // verus!
