//! What `package.json` files say about a dependency.

use vstd::prelude::*;

use crate::text::same_text;

verus! {

/// A JSON value, as far as it is looked into.
pub enum JsonValue {
    Bool(bool),
    Object(Vec<(String, JsonValue)>),
    /// Null, a number, a string or an array.
    Other,
}

/// The value of the first entry with this key.
pub open spec fn entry(entries: Seq<(String, JsonValue)>, key: Seq<char>) -> Option<JsonValue>
    decreases entries.len(),
{
    if entries.len() == 0 {
        None
    } else if entries[0].0@ == key {
        Some(entries[0].1)
    } else {
        entry(entries.drop_first(), key)
    }
}

fn find_entry<'a>(entries: &'a Vec<(String, JsonValue)>, key: &str) -> (found: Option<
    &'a JsonValue,
>)
    ensures
        found is Some <==> entry(entries@, key@) is Some,
        found matches Some(value) ==> entry(entries@, key@) == Some(*value),
{
    let len: usize = entries.len();
    let mut i: usize = 0;
    assert(entries@.skip(0) =~= entries@);
    while i < len
        invariant
            len == entries@.len(),
            i <= len,
            entry(entries@, key@) == entry(entries@.skip(i as int), key@),
        decreases len - i,
    {
        assert(entries@.skip(i as int).drop_first() =~= entries@.skip(i + 1));
        if same_text(entries[i].0.as_str(), key) {
            return Some(&entries[i].1);
        }
        i = i + 1;
    }
    None
}

impl JsonValue {
    /// The member of an object with this key. Other values have no members.
    pub open spec fn member(self, key: Seq<char>) -> Option<JsonValue> {
        match self {
            JsonValue::Object(entries) => entry(entries@, key),
            _ => None,
        }
    }

    /// The member of an object with this key. Other values have no members.
    pub fn get(&self, key: &str) -> (found: Option<&JsonValue>)
        ensures
            found is Some <==> self.member(key@) is Some,
            found matches Some(value) ==> self.member(key@) == Some(*value),
    {
        match self {
            JsonValue::Object(entries) => find_entry(entries, key),
            _ => None,
        }
    }

    /// The truth value, if this is one.
    pub fn as_bool(&self) -> (flag: Option<bool>)
        ensures
            flag == (match *self {
                JsonValue::Bool(flag) => Some(flag),
                _ => None,
            }),
    {
        match self {
            JsonValue::Bool(flag) => Some(*flag),
            _ => None,
        }
    }
}

/// The parts of a `package.json` file that say something about dependencies. Of
/// a table of dependencies the names are kept.
pub struct PackageJson {
    pub dependencies: Option<Vec<String>>,
    pub peer_dependencies: Option<Vec<String>>,
    pub peer_dependencies_meta: Option<JsonValue>,
    pub optional_dependencies: Option<Vec<String>>,
}

/// Whether a table of dependencies is there and names this one.
pub open spec fn names(table: Option<Vec<String>>, name: Seq<char>) -> bool {
    match table {
        Some(table) => exists|i: int| 0 <= i < table@.len() && (#[trigger] table@[i])@ == name,
        None => false,
    }
}

fn lists(table: &Vec<String>, name: &str) -> (listed: bool)
    ensures
        listed == exists|i: int| 0 <= i < table@.len() && (#[trigger] table@[i])@ == name@,
{
    for i in 0..table.len()
        invariant
            forall|j: int| 0 <= j < i ==> (#[trigger] table@[j])@ != name@,
    {
        if same_text(table[i].as_str(), name) {
            assert(table@[i as int]@ == name@);
            return true;
        }
    }
    false
}

fn is_named(table: &Option<Vec<String>>, name: &str) -> (named: bool)
    ensures
        named == names(*table, name@),
{
    match table {
        Some(table) => lists(table, name),
        None => false,
    }
}

impl PackageJson {
    /// Whether the peer dependency of this name is marked as optional.
    pub open spec fn peer_is_optional(self, name: Seq<char>) -> bool {
        match self.peer_dependencies_meta {
            Some(meta) => match meta.member(name) {
                Some(about) => about.member("optional"@) == Some(JsonValue::Bool(true)),
                None => false,
            },
            None => false,
        }
    }

    /// What this file says of a dependency: whether it is optional, or nothing.
    /// An optional dependency, or a peer dependency that is marked as optional,
    /// may be absent, also where it is listed again as an ordinary one.
    pub open spec fn says_optional(self, name: Seq<char>) -> Option<bool> {
        if names(self.optional_dependencies, name) || self.peer_is_optional(name) {
            Some(true)
        } else if names(self.dependencies, name) || names(self.peer_dependencies, name) {
            Some(false)
        } else {
            None
        }
    }

    fn is_optional_peer(&self, name: &str) -> (optional: bool)
        ensures
            optional == self.peer_is_optional(name@),
    {
        if let Some(meta) = &self.peer_dependencies_meta {
            if let Some(about) = meta.get(name) {
                if let Some(value) = about.get("optional") {
                    if let Some(optional) = value.as_bool() {
                        return optional;
                    }
                }
            }
        }
        false
    }

    /// What this file says of a dependency: whether it is optional, or nothing.
    pub fn optional_dependency(&self, name: &str) -> (verdict: Option<bool>)
        ensures
            verdict == self.says_optional(name@),
    {
        if is_named(&self.optional_dependencies, name) {
            return Some(true);
        }
        if self.is_optional_peer(name) {
            return Some(true);
        }
        if is_named(&self.dependencies, name) {
            return Some(false);
        }
        if is_named(&self.peer_dependencies, name) {
            return Some(false);
        }
        None
    }
}

/// What one file says of a dependency. A file that could not be read says
/// nothing.
pub open spec fn file_says(file: Option<PackageJson>, name: Seq<char>) -> Option<bool> {
    match file {
        Some(file) => file.says_optional(name),
        None => None,
    }
}

/// Whether the first file that says anything of the dependency says that it is
/// optional.
pub open spec fn optional_in(files: Seq<Option<PackageJson>>, name: Seq<char>) -> bool
    decreases files.len(),
{
    if files.len() == 0 {
        false
    } else {
        match file_says(files[0], name) {
            Some(optional) => optional,
            None => optional_in(files.drop_first(), name),
        }
    }
}

/// Whether a dependency is optional for a module. `files` are the `package.json`
/// files around the module, from the nearest outwards, with nothing in place of
/// one that could not be read.
pub fn is_optional_npm_dep(name: &str, files: &Vec<Option<PackageJson>>) -> (optional: bool)
    ensures
        optional == optional_in(files@, name@),
{
    let len: usize = files.len();
    let mut i: usize = 0;
    assert(files@.skip(0) =~= files@);
    while i < len
        invariant
            len == files@.len(),
            i <= len,
            optional_in(files@, name@) == optional_in(files@.skip(i as int), name@),
        decreases len - i,
    {
        assert(files@.skip(i as int).drop_first() =~= files@.skip(i + 1));
        if let Some(file) = &files[i] {
            if let Some(optional) = file.optional_dependency(name) {
                return optional;
            }
        }
        i = i + 1;
    }
    false
}

/// The nearest file that says anything decides, whatever the files further out
/// say.
pub proof fn law_nearest_file_decides(files: Seq<Option<PackageJson>>, name: Seq<char>, i: int)
    requires
        0 <= i < files.len(),
        file_says(files[i], name) is Some,
        forall|j: int| 0 <= j < i ==> file_says(#[trigger] files[j], name) is None,
    ensures
        Some(optional_in(files, name)) == file_says(files[i], name),
    decreases i,
{
    if i > 0 {
        assert(file_says(files[0], name) is None);
        let rest = files.drop_first();
        assert forall|j: int| 0 <= j < i - 1 implies file_says(#[trigger] rest[j], name) is None by {
            assert(rest[j] == files[j + 1]);
        }
        law_nearest_file_decides(rest, name, i - 1);
    }
}

/// Where no file says anything of a dependency it is not optional.
pub proof fn law_unknown_dependency_is_not_optional(
    files: Seq<Option<PackageJson>>,
    name: Seq<char>,
)
    requires
        forall|j: int| 0 <= j < files.len() ==> file_says(#[trigger] files[j], name) is None,
    ensures
        !optional_in(files, name),
    decreases files.len(),
{
    if files.len() > 0 {
        assert(file_says(files[0], name) is None);
        let rest = files.drop_first();
        assert forall|j: int| 0 <= j < rest.len() implies file_says(#[trigger] rest[j], name) is None by {
            assert(rest[j] == files[j + 1]);
        }
        law_unknown_dependency_is_not_optional(rest, name);
    }
}

/// Files that could not be read are passed over: leaving one out changes
/// nothing.
pub proof fn law_unreadable_files_are_skipped(
    files: Seq<Option<PackageJson>>,
    name: Seq<char>,
    i: int,
)
    requires
        0 <= i < files.len(),
        files[i] is None,
    ensures
        optional_in(files.remove(i), name) == optional_in(files, name),
    decreases i,
{
    if i == 0 {
        assert(files.remove(0) =~= files.drop_first());
    } else {
        assert(files.remove(i)[0] == files[0]);
        assert(files.remove(i).drop_first() =~= files.drop_first().remove(i - 1));
        law_unreadable_files_are_skipped(files.drop_first(), name, i - 1);
    }
}

/// A member of an object is the value of the first entry with that key. There is
/// none where no entry has it, or where the value is no object.
pub proof fn law_member_is_the_first_entry(value: &JsonValue, key: &str, found: Option<&JsonValue>)
    requires
        call_ensures(JsonValue::get, (value, key), found),
    ensures
        !(*value is Object) ==> found is None,
        *value matches JsonValue::Object(entries) ==> {
            &&& found is None ==> forall|i: int|
                0 <= i < entries@.len() ==> (#[trigger] entries@[i]).0@ != key@
            &&& found matches Some(member) ==> exists|i: int|
                {
                    &&& 0 <= i < entries@.len()
                    &&& (#[trigger] entries@[i]).0@ == key@
                    &&& entries@[i].1 == *member
                    &&& forall|j: int| 0 <= j < i ==> (#[trigger] entries@[j]).0@ != key@
                }
        },
{
    if let JsonValue::Object(entries) = *value {
        lemma_entry(entries@, key@);
    }
}

proof fn lemma_entry(entries: Seq<(String, JsonValue)>, key: Seq<char>)
    ensures
        entry(entries, key) is None ==> forall|i: int|
            0 <= i < entries.len() ==> (#[trigger] entries[i]).0@ != key,
        entry(entries, key) matches Some(member) ==> exists|i: int|
            {
                &&& 0 <= i < entries.len()
                &&& (#[trigger] entries[i]).0@ == key
                &&& entries[i].1 == member
                &&& forall|j: int| 0 <= j < i ==> (#[trigger] entries[j]).0@ != key
            },
    decreases entries.len(),
{
    if entries.len() > 0 {
        if entries[0].0@ == key {
            assert(entries[0].1 == entry(entries, key)->0);
        } else {
            let rest = entries.drop_first();
            lemma_entry(rest, key);
            if entry(entries, key) is None {
                assert forall|i: int| 0 <= i < entries.len() implies (#[trigger] entries[i]).0@
                    != key by {
                    if i > 0 {
                        assert(rest[i - 1] == entries[i]);
                    }
                }
            } else {
                let member = entry(entries, key)->0;
                let i = choose|i: int|
                    {
                        &&& 0 <= i < rest.len()
                        &&& (#[trigger] rest[i]).0@ == key
                        &&& rest[i].1 == member
                        &&& forall|j: int| 0 <= j < i ==> (#[trigger] rest[j]).0@ != key
                    };
                assert(entries[i + 1] == rest[i]);
                assert forall|j: int| 0 <= j < i + 1 implies (#[trigger] entries[j]).0@ != key by {
                    if j > 0 {
                        assert(rest[j - 1] == entries[j]);
                    }
                }
            }
        }
    }
}

/// Whether a list of names is there and holds this one.
pub open spec fn lists_name(list: Option<Vec<String>>, name: Seq<char>) -> bool {
    list is Some && exists|i: int| 0 <= i < list->0@.len() && (#[trigger] list->0@[i])@ == name
}

/// A file that lists a dependency as an optional one says that it is optional,
/// whatever else the file holds.
pub proof fn law_optional_dependencies_are_optional(
    file: PackageJson,
    name: &str,
    verdict: Option<bool>,
)
    requires
        call_ensures(PackageJson::optional_dependency, (&file, name), verdict),
        lists_name(file.optional_dependencies, name@),
    ensures
        verdict == Some(true),
{
}

/// A file that marks a peer dependency as optional, with the value `true` and no
/// other, says that it is optional, whatever else the file holds.
pub proof fn law_marked_peers_are_optional(
    file: PackageJson,
    name: &str,
    verdict: Option<bool>,
    meta: JsonValue,
    about: JsonValue,
)
    requires
        call_ensures(PackageJson::optional_dependency, (&file, name), verdict),
        file.peer_dependencies_meta == Some(meta),
        meta.member(name@) == Some(about),
        about.member("optional"@) == Some(JsonValue::Bool(true)),
    ensures
        verdict == Some(true),
{
}

/// A file says that a dependency is optional only where it lists it so, or marks
/// it so as a peer dependency. It says that it is not only where it lists it as an
/// ordinary or a peer dependency, and is silent only where it does neither.
pub proof fn law_what_a_file_says(file: PackageJson, name: &str, verdict: Option<bool>)
    requires
        call_ensures(PackageJson::optional_dependency, (&file, name), verdict),
    ensures
        verdict == Some(true) ==> lists_name(file.optional_dependencies, name@) || (
        file.peer_dependencies_meta is Some && file.peer_dependencies_meta->0.member(name@) is Some
            && file.peer_dependencies_meta->0.member(name@)->0.member("optional"@) == Some(
            JsonValue::Bool(true),
        )),
        verdict == Some(false) ==> lists_name(file.dependencies, name@) || lists_name(
            file.peer_dependencies,
            name@,
        ),
        verdict is None ==> !lists_name(file.optional_dependencies, name@) && !lists_name(
            file.dependencies,
            name@,
        ) && !lists_name(file.peer_dependencies, name@),
{
}

/// A dependency is optional exactly when some file says so and no file nearer to
/// the module says anything of it. Files that could not be read say nothing.
pub proof fn law_nearest_word_is_final(
    name: &str,
    files: &Vec<Option<PackageJson>>,
    optional: bool,
)
    requires
        call_ensures(is_optional_npm_dep, (name, files), optional),
    ensures
        optional <==> exists|i: int|
            {
                &&& 0 <= i < files@.len()
                &&& (#[trigger] files@[i]) matches Some(file) && file.says_optional(name@) == Some(
                    true,
                )
                &&& forall|j: int|
                    0 <= j < i ==> ((#[trigger] files@[j]) matches Some(nearer)
                        ==> nearer.says_optional(name@) is None)
            },
{
    lemma_nearest(files@, name@);
}

proof fn lemma_nearest(files: Seq<Option<PackageJson>>, name: Seq<char>)
    ensures
        optional_in(files, name) <==> exists|i: int|
            {
                &&& 0 <= i < files.len()
                &&& (#[trigger] files[i]) matches Some(file) && file.says_optional(name) == Some(
                    true,
                )
                &&& forall|j: int|
                    0 <= j < i ==> ((#[trigger] files[j]) matches Some(nearer)
                        ==> nearer.says_optional(name) is None)
            },
{
    if exists|i: int| 0 <= i < files.len() && file_says(#[trigger] files[i], name) is Some {
        let k = choose|k: int|
            0 <= k < files.len() && file_says(#[trigger] files[k], name) is Some;
        lemma_first_word(files, name, k);
        let i = choose|i: int|
            0 <= i < files.len() && file_says(#[trigger] files[i], name) is Some && forall|j: int|
                0 <= j < i ==> file_says(#[trigger] files[j], name) is None;
        law_nearest_file_decides(files, name, i);
        assert forall|j: int| 0 <= j < i implies ((#[trigger] files[j]) matches Some(nearer)
            ==> nearer.says_optional(name) is None) by {
            assert(file_says(files[j], name) is None);
        }
        if exists|m: int|
            {
                &&& 0 <= m < files.len()
                &&& (#[trigger] files[m]) matches Some(file) && file.says_optional(name) == Some(
                    true,
                )
                &&& forall|j: int|
                    0 <= j < m ==> ((#[trigger] files[j]) matches Some(nearer)
                        ==> nearer.says_optional(name) is None)
            } {
            let m = choose|m: int|
                {
                    &&& 0 <= m < files.len()
                    &&& (#[trigger] files[m]) matches Some(file) && file.says_optional(name)
                        == Some(true)
                    &&& forall|j: int|
                        0 <= j < m ==> ((#[trigger] files[j]) matches Some(nearer)
                            ==> nearer.says_optional(name) is None)
                };
            assert(file_says(files[m], name) == Some(true));
            assert(files[i] is Some);
            if m < i {
                assert(file_says(files[m], name) is None);
            } else if i < m {
                assert(files[i]->0.says_optional(name) is None);
            }
        }
        if optional_in(files, name) {
            assert(files[i] matches Some(file) && file.says_optional(name) == Some(true));
        }
    } else {
        assert forall|j: int| 0 <= j < files.len() implies file_says(#[trigger] files[j], name)
            is None by {}
        law_unknown_dependency_is_not_optional(files, name);
        assert forall|i: int| 0 <= i < files.len() implies !((#[trigger] files[i]) matches Some(
            file,
        ) && file.says_optional(name) == Some(true)) by {
            assert(file_says(files[i], name) is None);
        }
    }
}

proof fn lemma_first_word(files: Seq<Option<PackageJson>>, name: Seq<char>, k: int)
    requires
        0 <= k < files.len(),
        file_says(files[k], name) is Some,
    ensures
        exists|i: int|
            0 <= i < files.len() && file_says(#[trigger] files[i], name) is Some && forall|j: int|
                0 <= j < i ==> file_says(#[trigger] files[j], name) is None,
    decreases k,
{
    if exists|j: int| 0 <= j < k && file_says(#[trigger] files[j], name) is Some {
        let j = choose|j: int| 0 <= j < k && file_says(#[trigger] files[j], name) is Some;
        lemma_first_word(files, name, j);
    } else {
        assert(file_says(files[k], name) is Some);
    }
}

} // verus!
