//! Projects: the `rbproject.toml` (or `gem.toml`, or KDL) file that names a
//! project and defines its scripts.
use vstd::prelude::*;
use crate::kdl_doc::{
    document_get, document_nodes, first_named, kdl_node, kdl_nodes, kdl_parse, node_children,
    node_first_string, node_name, parse_document, KdlTree,
};
use crate::path::{file_name, join, parent, path_file_name, path_join, path_parent};
use crate::search::{find_upwards, nth_ancestor};
use crate::text::{chars_of, concat, ends_with, owned, str_eq};

verus! {

broadcast use vstd::seq_lib::group_to_multiset_ensures;

/// A script: a command, optionally with a description.
#[derive(Debug, Clone, PartialEq, Eq)]
pub enum ScriptDefinition {
    /// `name = "command"`.
    Simple(String),
    /// `name = { command = "...", description = "..." }`.
    Detailed { command: String, description: Option<String> },
}

/// A script as plain values: its command, its description, and whether it
/// is written in the detailed form.
pub type ScriptView = (Seq<char>, Option<Seq<char>>, bool);

/// The text of an optional string.
pub open spec fn opt_text(o: Option<String>) -> Option<Seq<char>> {
    match o {
        Some(s) => Some(s@),
        None => None,
    }
}

/// The text of an optional string slice.
pub open spec fn opt_str_text(o: Option<&str>) -> Option<Seq<char>> {
    match o {
        Some(s) => Some(s@),
        None => None,
    }
}

impl View for ScriptDefinition {
    type V = ScriptView;

    open spec fn view(&self) -> ScriptView {
        match self {
            ScriptDefinition::Simple(c) => (c@, None, false),
            ScriptDefinition::Detailed { command, description } => (command@, opt_text(*description), true),
        }
    }
}

impl ScriptDefinition {
    /// The command.
    pub fn command(&self) -> (r: &str)
        ensures
            r@ == self@.0,
    {
        match self {
            ScriptDefinition::Simple(c) => c.as_str(),
            ScriptDefinition::Detailed { command, .. } => command.as_str(),
        }
    }

    /// The description, which only the detailed form has.
    pub fn description(&self) -> (r: Option<&str>)
        ensures
            opt_str_text(r) == self@.1,
    {
        match self {
            ScriptDefinition::Simple(_) => None,
            ScriptDefinition::Detailed { description, .. } => match description {
                Some(d) => Some(d.as_str()),
                None => None,
            },
        }
    }

    /// A copy of this script.
    pub fn duplicate(&self) -> (r: ScriptDefinition)
        ensures
            r@ == self@,
    {
        match self {
            ScriptDefinition::Simple(c) => ScriptDefinition::Simple(c.clone()),
            ScriptDefinition::Detailed { command, description } => ScriptDefinition::Detailed {
                command: command.clone(),
                description: match description {
                    Some(d) => Some(d.clone()),
                    None => None,
                },
            },
        }
    }
}

/// The `[project]` section: an optional name and description.
#[derive(Debug, Clone, PartialEq, Eq, Default)]
pub struct ProjectMetadata {
    pub name: Option<String>,
    pub description: Option<String>,
}

/// A table of scripts by name.
pub type Scripts = Vec<(String, ScriptDefinition)>;

/// The names of a script table, in table order.
pub open spec fn script_keys(s: Seq<(String, ScriptDefinition)>) -> Seq<Seq<char>> {
    s.map_values(|e: (String, ScriptDefinition)| e.0@)
}

/// No name occurs twice in the table.
pub open spec fn unique_names(s: Seq<(String, ScriptDefinition)>) -> bool {
    forall|i: int, j: int| 0 <= i < j < s.len() ==> #[trigger] s[i].0@ != #[trigger] s[j].0@
}

/// A script table as a map from names to scripts.
pub open spec fn scripts_map(s: Seq<(String, ScriptDefinition)>) -> Map<Seq<char>, ScriptView>
    decreases s.len(),
{
    if s.len() == 0 {
        Map::empty()
    } else {
        scripts_map(s.drop_last()).insert(s.last().0@, s.last().1@)
    }
}

/// The names of a script table are the keys of its map.
pub proof fn lemma_scripts_map_dom(s: Seq<(String, ScriptDefinition)>)
    ensures
        forall|k: Seq<char>| #[trigger] scripts_map(s).contains_key(k) <==> script_keys(s).contains(k),
    decreases s.len(),
{
    if s.len() > 0 {
        lemma_scripts_map_dom(s.drop_last());
        let keys = script_keys(s);
        let kd = script_keys(s.drop_last());
        assert(kd =~= keys.drop_last());
        assert(keys[keys.len() - 1] == s.last().0@);
        assert forall|k: Seq<char>| #[trigger] scripts_map(s).contains_key(k) <==> keys.contains(k) by {
            assert(scripts_map(s.drop_last()).contains_key(k) == kd.contains(k));
            assert(scripts_map(s) == scripts_map(s.drop_last()).insert(s.last().0@, s.last().1@));
            if kd.contains(k) {
                let i = choose|i: int| 0 <= i < kd.len() && kd[i] == k;
                assert(keys[i] == k);
            }
            if keys.contains(k) {
                let i = choose|i: int| 0 <= i < keys.len() && keys[i] == k;
                if i < keys.len() - 1 {
                    assert(kd[i] == k);
                }
            }
        }
    }
}

/// In a table without repeated names, the entry at `i` is what the map
/// gives for its name.
proof fn lemma_scripts_map_at(s: Seq<(String, ScriptDefinition)>, i: int)
    requires
        unique_names(s),
        0 <= i < s.len(),
    ensures
        scripts_map(s).contains_key(s[i].0@),
        scripts_map(s)[s[i].0@] == s[i].1@,
    decreases s.len(),
{
    if i < s.len() - 1 {
        lemma_scripts_map_at(s.drop_last(), i);
        assert(s[i].0@ != s.last().0@);
    }
}

/// Index of the script named `name`, or the table's length.
fn script_index(scripts: &Scripts, name: &str) -> (k: usize)
    ensures
        k <= scripts@.len(),
        k < scripts@.len() ==> scripts@[k as int].0@ == name@,
        k == scripts@.len() ==> !script_keys(scripts@).contains(name@),
{
    let mut k: usize = 0;
    while k < scripts.len()
        invariant
            k <= scripts@.len(),
            forall|j: int| 0 <= j < k ==> scripts@[j].0@ != name@,
        decreases scripts.len() - k,
    {
        if str_eq(scripts[k].0.as_str(), name) {
            return k;
        }
        k = k + 1;
    }
    proof {
        if script_keys(scripts@).contains(name@) {
            let j = choose|j: int| 0 <= j < script_keys(scripts@).len() && script_keys(scripts@)[j] == name@;
            assert(scripts@[j].0@ == name@);
        }
    }
    k
}

/// Sets the script of a name, replacing any script of that name.
pub fn insert_script(scripts: &mut Scripts, name: String, def: ScriptDefinition)
    requires
        unique_names(old(scripts)@),
    ensures
        unique_names(final(scripts)@),
        scripts_map(final(scripts)@) == scripts_map(old(scripts)@).insert(name@, def@),
{
    let k = script_index(scripts, name.as_str());
    let ghost nv = name@;
    let ghost dv = def@;
    proof {
        lemma_scripts_map_dom(scripts@);
    }
    if k < scripts.len() {
        let ghost before = scripts@;
        scripts.set(k, (name, def));
        proof {
            let after = scripts@;
            assert forall|i: int, j: int| 0 <= i < j < after.len() implies #[trigger] after[i].0@
                != #[trigger] after[j].0@ by {
                if i != k && j != k {
                    assert(after[i] == before[i] && after[j] == before[j]);
                } else if i == k {
                    assert(after[j] == before[j]);
                    assert(before[k as int].0@ == nv);
                } else {
                    assert(after[i] == before[i]);
                    assert(before[k as int].0@ == nv);
                }
            }
            assert(script_keys(after) =~= script_keys(before));
            lemma_scripts_map_dom(after);
            lemma_scripts_map_dom(before);
            assert(script_keys(before)[k as int] == nv);
            assert forall|x: Seq<char>| #[trigger] scripts_map(after).contains_key(x) implies scripts_map(
                after,
            )[x] == scripts_map(before).insert(nv, dv)[x] by {
                lemma_scripts_map_dom(after);
                let i = choose|i: int| 0 <= i < after.len() && script_keys(after)[i] == x;
                lemma_scripts_map_at(after, i);
                if i != k {
                    lemma_scripts_map_at(before, i);
                }
            }
            assert(scripts_map(after) =~= scripts_map(before).insert(nv, dv));
        }
    } else {
        scripts.push((name, def));
        proof {
            let after = scripts@;
            assert(after.drop_last() =~= old(scripts)@);
            assert forall|i: int, j: int| 0 <= i < j < after.len() implies #[trigger] after[i].0@
                != #[trigger] after[j].0@ by {
                if j == after.len() - 1 {
                    assert(script_keys(old(scripts)@)[i] == after[i].0@);
                }
            }
        }
    }
}

/// A project: the directory of its config file, the file's name, its
/// metadata and its scripts.
#[derive(Debug, Clone)]
pub struct ProjectRuntime {
    pub root: String,
    pub config_filename: String,
    pub metadata: ProjectMetadata,
    pub scripts: Scripts,
}

/// The lexicographic order of texts by character (the order of `str`, whose
/// bytes in UTF-8 order as their characters do).
pub open spec fn text_lt(a: Seq<char>, b: Seq<char>) -> bool
    decreases a.len(),
{
    if a.len() == 0 {
        b.len() > 0
    } else if b.len() == 0 {
        false
    } else if a[0] != b[0] {
        a[0] < b[0]
    } else {
        text_lt(a.drop_first(), b.drop_first())
    }
}

/// The order of texts is transitive and asymmetric.
pub proof fn lemma_text_lt_order(a: Seq<char>, b: Seq<char>, c: Seq<char>)
    ensures
        text_lt(a, b) && text_lt(b, c) ==> text_lt(a, c),
        text_lt(a, b) ==> !text_lt(b, a),
        !text_lt(a, a),
    decreases a.len(),
{
    if a.len() > 0 && b.len() > 0 && c.len() > 0 {
        lemma_text_lt_order(a.drop_first(), b.drop_first(), c.drop_first());
    }
    if a.len() > 0 && b.len() > 0 {
        lemma_text_lt_order(a.drop_first(), b.drop_first(), a.drop_first());
    }
    if a.len() > 0 {
        lemma_text_lt_order(a.drop_first(), a.drop_first(), a.drop_first());
    }
}

/// Is `a` before `b` in the order of texts?
pub fn text_less(a: &str, b: &str) -> (r: bool)
    ensures
        r == text_lt(a@, b@),
{
    let x = chars_of(a);
    let y = chars_of(b);
    let mut i: usize = 0;
    proof {
        assert(a@.subrange(0, a@.len() as int) =~= a@);
        assert(b@.subrange(0, b@.len() as int) =~= b@);
    }
    while i < x.len() && i < y.len() && x[i] == y[i]
        invariant
            i <= x@.len(),
            i <= y@.len(),
            x@ == a@,
            y@ == b@,
            text_lt(a@, b@) == text_lt(a@.subrange(i as int, a@.len() as int), b@.subrange(
                i as int,
                b@.len() as int,
            )),
        decreases x.len() - i,
    {
        proof {
            let sa = a@.subrange(i as int, a@.len() as int);
            let sb = b@.subrange(i as int, b@.len() as int);
            assert(sa.drop_first() =~= a@.subrange(i + 1, a@.len() as int));
            assert(sb.drop_first() =~= b@.subrange(i + 1, b@.len() as int));
        }
        i = i + 1;
    }
    proof {
        let sa = a@.subrange(i as int, a@.len() as int);
        let sb = b@.subrange(i as int, b@.len() as int);
        if i < x@.len() {
            assert(sa[0] == x@[i as int]);
        }
        if i < y@.len() {
            assert(sb[0] == y@[i as int]);
        }
    }
    if i == x.len() {
        i < y.len()
    } else if i == y.len() {
        false
    } else {
        x[i] < y[i]
    }
}

/// `s` is in the order of texts (ties allowed).
pub open spec fn texts_sorted(s: Seq<Seq<char>>) -> bool {
    forall|i: int, j: int| 0 <= i < j < s.len() ==> !text_lt(#[trigger] s[j], #[trigger] s[i])
}

/// The texts of a sequence of string slices.
pub open spec fn slice_texts(v: Seq<&str>) -> Seq<Seq<char>> {
    v.map_values(|s: &str| s@)
}

/// Inserts `x` into the ordered `list`, before the first text after it.
fn insert_in_order<'a>(list: &mut Vec<&'a str>, x: &'a str)
    requires
        texts_sorted(slice_texts(old(list)@)),
    ensures
        texts_sorted(slice_texts(final(list)@)),
        slice_texts(final(list)@).to_multiset() == slice_texts(old(list)@).to_multiset().insert(x@),
{
    let ghost before = slice_texts(list@);
    let mut k: usize = 0;
    while k < list.len() && !text_less(x, list[k])
        invariant
            k <= list@.len(),
            list@ == old(list)@,
            before == slice_texts(list@),
            forall|i: int| 0 <= i < k ==> !text_lt(x@, #[trigger] before[i]),
        decreases list.len() - k,
    {
        k = k + 1;
    }
    list.insert(k, x);
    proof {
        let after = slice_texts(list@);
        assert(after =~= before.insert(k as int, x@));
        vstd::seq_lib::to_multiset_insert(before, k as int, x@);
        assert forall|i: int, j: int| 0 <= i < j < after.len() implies !text_lt(
            #[trigger] after[j],
            #[trigger] after[i],
        ) by {
            if j < k {
                assert(after[i] == before[i] && after[j] == before[j]);
            } else if j == k {
                assert(after[i] == before[i]);
            } else if i < k {
                assert(after[i] == before[i] && after[j] == before[j - 1]);
                if text_lt(before[j - 1], before[i]) {
                    assert(false);
                }
            } else if i == k {
                assert(after[j] == before[j - 1]);
                assert(text_lt(x@, before[k as int]));
                lemma_text_lt_order(before[j - 1], x@, before[k as int]);
                if j - 1 > k {
                    assert(!text_lt(before[j - 1], before[k as int]));
                } else {
                    lemma_text_lt_order(x@, before[k as int], x@);
                }
            } else {
                assert(after[i] == before[i - 1] && after[j] == before[j - 1]);
            }
        }
    }
}

impl ProjectRuntime {
    /// A project rooted at `root` with the given config file name, metadata
    /// and scripts.
    pub fn new(root: &str, config_filename: &str, metadata: ProjectMetadata, scripts: Scripts) -> (r:
        ProjectRuntime)
        requires
            unique_names(scripts@),
        ensures
            r.root@ == root@,
            r.config_filename@ == config_filename@,
            r.metadata == metadata,
            r.scripts@ == scripts@,
    {
        ProjectRuntime {
            root: owned(root),
            config_filename: owned(config_filename),
            metadata,
            scripts,
        }
    }

    /// The path of the project's config file.
    pub fn rbproject_path(&self) -> (r: String)
        ensures
            r@ == path_join(self.root@, self.config_filename@),
    {
        join(self.root.as_str(), self.config_filename.as_str())
    }

    /// Is there a script of this name?
    pub fn has_script(&self, name: &str) -> (r: bool)
        ensures
            r == scripts_map(self.scripts@).contains_key(name@),
    {
        let k = script_index(&self.scripts, name);
        proof {
            lemma_scripts_map_dom(self.scripts@);
            if k < self.scripts@.len() {
                assert(script_keys(self.scripts@)[k as int] == name@);
            }
        }
        k < self.scripts.len()
    }

    /// The script of this name.
    pub fn get_script(&self, name: &str) -> (r: Option<&ScriptDefinition>)
        requires
            unique_names(self.scripts@),
        ensures
            match r {
                Some(d) => scripts_map(self.scripts@).contains_key(name@) && scripts_map(
                    self.scripts@,
                )[name@] == d@,
                None => !scripts_map(self.scripts@).contains_key(name@),
            },
    {
        let k = script_index(&self.scripts, name);
        proof {
            lemma_scripts_map_dom(self.scripts@);
        }
        if k < self.scripts.len() {
            proof {
                lemma_scripts_map_at(self.scripts@, k as int);
            }
            Some(&self.scripts[k].1)
        } else {
            None
        }
    }

    /// The command of the script of this name.
    pub fn get_script_command(&self, name: &str) -> (r: Option<&str>)
        requires
            unique_names(self.scripts@),
        ensures
            match r {
                Some(c) => scripts_map(self.scripts@).contains_key(name@) && scripts_map(
                    self.scripts@,
                )[name@].0 == c@,
                None => !scripts_map(self.scripts@).contains_key(name@),
            },
    {
        match self.get_script(name) {
            Some(d) => Some(d.command()),
            None => None,
        }
    }

    /// The description of the script of this name, when it has one.
    pub fn get_script_description(&self, name: &str) -> (r: Option<&str>)
        requires
            unique_names(self.scripts@),
        ensures
            match r {
                Some(c) => scripts_map(self.scripts@).contains_key(name@) && scripts_map(
                    self.scripts@,
                )[name@].1 == Some(c@),
                None => !scripts_map(self.scripts@).contains_key(name@) || scripts_map(
                    self.scripts@,
                )[name@].1 is None,
            },
    {
        match self.get_script(name) {
            Some(d) => d.description(),
            None => None,
        }
    }

    /// The names of the scripts, in the order of texts.
    pub fn script_names(&self) -> (r: Vec<&str>)
        ensures
            texts_sorted(slice_texts(r@)),
            slice_texts(r@).to_multiset() == script_keys(self.scripts@).to_multiset(),
    {
        let mut names: Vec<&str> = Vec::new();
        let mut i: usize = 0;
        proof {
            assert(slice_texts(names@) =~= Seq::<Seq<char>>::empty());
            assert(script_keys(self.scripts@).subrange(0, 0) =~= Seq::<Seq<char>>::empty());
        }
        while i < self.scripts.len()
            invariant
                i <= self.scripts@.len(),
                texts_sorted(slice_texts(names@)),
                slice_texts(names@).to_multiset() == script_keys(self.scripts@).subrange(
                    0,
                    i as int,
                ).to_multiset(),
            decreases self.scripts.len() - i,
        {
            insert_in_order(&mut names, self.scripts[i].0.as_str());
            proof {
                let keys = script_keys(self.scripts@);
                assert(keys.subrange(0, i + 1) =~= keys.subrange(0, i as int).push(keys[i as int]));
            }
            i = i + 1;
        }
        proof {
            let keys = script_keys(self.scripts@);
            assert(keys.subrange(0, keys.len() as int) =~= keys);
        }
        names
    }
}

/// A parsed project configuration: metadata and scripts.
#[derive(Debug, Clone)]
pub struct ProjectConfig {
    pub project: ProjectMetadata,
    pub scripts: Scripts,
}

/// The string value of the first child named `key` of a node, if the node
/// has children and that child's first entry is a string.
pub open spec fn child_string(node: KdlTree, key: Seq<char>) -> Option<Seq<char>> {
    match node.children {
        Some(cs) => match first_named(cs, key) {
            Some(c) => match c.first_string {
                Some(Some(s)) => Some(s),
                _ => None,
            },
            None => None,
        },
        None => None,
    }
}

/// The metadata of a KDL project document: the `name` and `description`
/// children of its first `project` node.
pub open spec fn kdl_metadata(nodes: Seq<KdlTree>) -> (Option<Seq<char>>, Option<Seq<char>>) {
    match first_named(nodes, "project"@) {
        Some(p) => (child_string(p, "name"@), child_string(p, "description"@)),
        None => (None, None),
    }
}

/// The last string given to a property named `key` among a script's
/// property nodes.
pub open spec fn last_string_of(props: Seq<KdlTree>, key: Seq<char>) -> Option<Seq<char>>
    decreases props.len(),
{
    if props.len() == 0 {
        None
    } else {
        let p = props.last();
        if p.name == key && p.first_string is Some && p.first_string.unwrap() is Some {
            p.first_string.unwrap()
        } else {
            last_string_of(props.drop_last(), key)
        }
    }
}

/// The script a KDL script node defines: `name "command"` in the simple
/// form, or, in the detailed form, a node whose children give a `command`
/// (and maybe a `description`). A node whose first entry is not a string
/// defines none.
pub open spec fn kdl_script(node: KdlTree) -> Option<ScriptView> {
    match node.first_string {
        Some(Some(c)) => Some((c, None, false)),
        Some(None) => None,
        None => match node.children {
            Some(props) => match last_string_of(props, "command"@) {
                Some(c) => Some((c, last_string_of(props, "description"@), true)),
                None => None,
            },
            None => None,
        },
    }
}

/// The scripts the nodes define, later nodes replacing earlier ones of the
/// same name.
pub open spec fn kdl_scripts_of(nodes: Seq<KdlTree>) -> Map<Seq<char>, ScriptView>
    decreases nodes.len(),
{
    if nodes.len() == 0 {
        Map::empty()
    } else {
        let m = kdl_scripts_of(nodes.drop_last());
        match kdl_script(nodes.last()) {
            Some(s) => m.insert(nodes.last().name, s),
            None => m,
        }
    }
}

/// The scripts of a KDL project document: those defined in the children of
/// its first `scripts` node.
pub open spec fn kdl_scripts(nodes: Seq<KdlTree>) -> Map<Seq<char>, ScriptView> {
    match first_named(nodes, "scripts"@) {
        Some(s) => match s.children {
            Some(cs) => kdl_scripts_of(cs),
            None => Map::empty(),
        },
        None => Map::empty(),
    }
}

/// The message of a config file that could not be parsed.
pub open spec fn parse_failure_message(filename: Seq<char>, detail: Seq<char>) -> Seq<char> {
    "Failed to parse "@ + filename + ": "@ + detail
}

/// The string value of the first child named `key` (see [`child_string`]).
fn kdl_child_string(node: &kdl::KdlNode, key: &str) -> (r: Option<String>)
    ensures
        opt_text(r) == child_string(kdl_node(*node), key@),
{
    match node_children(node) {
        Some(cs) => match document_get(cs, key) {
            Some(c) => match node_first_string(c) {
                Some(Some(s)) => Some(s),
                _ => None,
            },
            None => None,
        },
        None => None,
    }
}

/// The script a KDL script node defines (see [`kdl_script`]).
fn kdl_script_of(node: &kdl::KdlNode) -> (r: Option<ScriptDefinition>)
    ensures
        match r {
            Some(d) => kdl_script(kdl_node(*node)) == Some(d@),
            None => kdl_script(kdl_node(*node)) is None,
        },
{
    match node_first_string(node) {
        Some(Some(c)) => Some(ScriptDefinition::Simple(c)),
        Some(None) => None,
        None => match node_children(node) {
            Some(doc) => {
                let props = document_nodes(doc);
                let ghost pv = kdl_nodes(*doc);
                let mut command: Option<String> = None;
                let mut description: Option<String> = None;
                let mut i: usize = 0;
                while i < props.len()
                    invariant
                        i <= props@.len(),
                        props@.len() == pv.len(),
                        forall|j: int| 0 <= j < props@.len() ==> kdl_node(#[trigger] props@[j]) == pv[j],
                        opt_text(command) == last_string_of(pv.subrange(0, i as int), "command"@),
                        opt_text(description) == last_string_of(pv.subrange(0, i as int), "description"@),
                    decreases props.len() - i,
                {
                    proof {
                        let pre = pv.subrange(0, i + 1);
                        assert(pre.drop_last() =~= pv.subrange(0, i as int));
                        assert(pre.last() == kdl_node(props@[i as int]));
                        reveal_strlit("command");
                        reveal_strlit("description");
                        assert("command"@ != "description"@) by {
                            assert("command"@.len() != "description"@.len());
                        }
                    }
                    let name = node_name(&props[i]);
                    if str_eq(name.as_str(), "command") {
                        match node_first_string(&props[i]) {
                            Some(Some(s)) => {
                                command = Some(s);
                            },
                            _ => {},
                        }
                    } else if str_eq(name.as_str(), "description") {
                        match node_first_string(&props[i]) {
                            Some(Some(s)) => {
                                description = Some(s);
                            },
                            _ => {},
                        }
                    }
                    i = i + 1;
                }
                proof {
                    assert(pv.subrange(0, pv.len() as int) =~= pv);
                }
                match command {
                    Some(c) => Some(ScriptDefinition::Detailed { command: c, description }),
                    None => None,
                }
            },
            None => None,
        },
    }
}

/// The project configuration a parsed KDL document describes: `project`
/// with `name` and `description` children, and `scripts` whose children are
/// scripts (see [`kdl_metadata`], [`kdl_scripts`]).
pub fn project_from_document(document: &kdl::KdlDocument) -> (r: ProjectConfig)
    ensures
        (opt_text(r.project.name), opt_text(r.project.description)) == kdl_metadata(kdl_nodes(*document)),
        scripts_map(r.scripts@) == kdl_scripts(kdl_nodes(*document)),
        unique_names(r.scripts@),
{
    let mut metadata = ProjectMetadata { name: None, description: None };
    match document_get(document, "project") {
        Some(p) => {
            metadata.name = kdl_child_string(p, "name");
            metadata.description = kdl_child_string(p, "description");
        },
        None => {},
    }
    let mut scripts: Scripts = Vec::new();
    proof {
        assert(scripts_map(scripts@) =~= Map::<Seq<char>, ScriptView>::empty());
    }
    match document_get(document, "scripts") {
        Some(s) => match node_children(s) {
            Some(children) => {
                let list = document_nodes(children);
                let ghost cv = kdl_nodes(*children);
                let mut i: usize = 0;
                proof {
                    assert(cv.subrange(0, 0) =~= Seq::<KdlTree>::empty());
                }
                while i < list.len()
                    invariant
                        i <= list@.len(),
                        list@.len() == cv.len(),
                        forall|j: int| 0 <= j < list@.len() ==> kdl_node(#[trigger] list@[j]) == cv[j],
                        unique_names(scripts@),
                        scripts_map(scripts@) == kdl_scripts_of(cv.subrange(0, i as int)),
                    decreases list.len() - i,
                {
                    proof {
                        let pre = cv.subrange(0, i + 1);
                        assert(pre.drop_last() =~= cv.subrange(0, i as int));
                        assert(pre.last() == kdl_node(list@[i as int]));
                    }
                    let name = node_name(&list[i]);
                    match kdl_script_of(&list[i]) {
                        Some(def) => {
                            insert_script(&mut scripts, name, def);
                        },
                        None => {},
                    }
                    i = i + 1;
                }
                proof {
                    assert(cv.subrange(0, cv.len() as int) =~= cv);
                }
            },
            None => {},
        },
        None => {},
    }
    ProjectConfig { project: metadata, scripts }
}

/// Reads a project configuration written in KDL (see
/// [`project_from_document`]). A text that `kdl` rejects gives
/// `Failed to parse <filename>: <kdl's message>`.
pub fn parse_kdl(content: &str, filename: &str) -> (r: Result<ProjectConfig, String>)
    ensures
        match r {
            Ok(c) => kdl_parse(content@) matches Some(nodes) && (opt_text(c.project.name), opt_text(
                c.project.description,
            )) == kdl_metadata(nodes) && scripts_map(c.scripts@) == kdl_scripts(nodes)
                && unique_names(c.scripts@),
            Err(m) => kdl_parse(content@) is None && exists|d: Seq<char>|
                m@ == #[trigger] parse_failure_message(filename@, d),
        },
{
    match parse_document(content) {
        Ok(document) => Ok(project_from_document(&document)),
        Err(e) => {
            let a = concat("Failed to parse ", filename);
            let b = concat(a.as_str(), ": ");
            proof {
                reveal_strlit("Failed to parse ");
                reveal_strlit(": ");
            }
            let m = concat(b.as_str(), e.as_str());
            proof {
                assert(m@ == parse_failure_message(filename@, e@));
            }
            Err(m)
        },
    }
}

/// The format of a project config file, by its name: KDL for a `.kdl` file,
/// TOML otherwise.
#[derive(Debug, Clone, Copy, PartialEq, Eq, Structural)]
pub enum ConfigFormat {
    Kdl,
    Toml,
}

/// Which format a config file name asks for.
pub fn config_format(filename: &str) -> (r: ConfigFormat)
    ensures
        r == (if ends_with(filename@, ".kdl"@) {
            ConfigFormat::Kdl
        } else {
            ConfigFormat::Toml
        }),
{
    let v = chars_of(filename);
    let suffix = chars_of(".kdl");
    proof {
        reveal_strlit(".kdl");
    }
    if v.len() < 4 {
        return ConfigFormat::Toml;
    }
    let at = v.len() - 4;
    let m = crate::text::has_prefix_at(v.as_slice(), at, suffix.as_slice());
    proof {
        let rest = v@.subrange(at as int, v@.len() as int);
        assert(rest.subrange(0, 4) =~= rest);
    }
    if m {
        ConfigFormat::Kdl
    } else {
        ConfigFormat::Toml
    }
}

/// Why a project file could not be loaded.
#[derive(Debug, Clone, PartialEq, Eq)]
pub enum ProjectLoadError {
    /// The path has no usable file name.
    InvalidPath(String),
    /// The file could not be parsed.
    InvalidData(String),
    /// The path has no parent directory.
    NoParent(String),
}

impl ProjectRuntime {
    /// Builds the project of a config file from its path and its parsed
    /// contents: the file name is the path's last component, the root its
    /// parent directory. Checked in this order: the file name, the parsed
    /// contents, the parent.
    pub fn from_config(config_path: &str, parsed: Result<ProjectConfig, String>) -> (r: Result<
        ProjectRuntime,
        ProjectLoadError,
    >)
        requires
            parsed matches Ok(c) ==> unique_names(c.scripts@),
        ensures
            path_file_name(config_path@) is None ==> r == Err::<ProjectRuntime, ProjectLoadError>(
                ProjectLoadError::InvalidPath(r->Err_0->InvalidPath_0),
            ) && r->Err_0->InvalidPath_0@ == "Invalid config file path"@,
            path_file_name(config_path@) is Some ==> match parsed {
                Err(m) => r matches Err(ProjectLoadError::InvalidData(d)) && d@ == m@,
                Ok(c) => match path_parent(config_path@) {
                    None => r matches Err(ProjectLoadError::NoParent(d)) && d@
                        == "Could not determine parent directory"@,
                    Some(root) => r matches Ok(p) && p.root@ == root && Some(p.config_filename@)
                        == path_file_name(config_path@) && p.metadata == c.project && p.scripts@
                        == c.scripts@,
                },
            },
    {
        let name = match file_name(config_path) {
            Some(n) => n,
            None => {
                return Err(ProjectLoadError::InvalidPath(owned("Invalid config file path")));
            },
        };
        let config = match parsed {
            Ok(c) => c,
            Err(m) => {
                return Err(ProjectLoadError::InvalidData(m));
            },
        };
        let root = match parent(config_path) {
            Some(p) => p,
            None => {
                return Err(
                    ProjectLoadError::NoParent(owned("Could not determine parent directory")),
                );
            },
        };
        Ok(ProjectRuntime::new(root.as_str(), name.as_str(), config.project, config.scripts))
    }
}

/// Finds the project around a directory.
pub struct RbprojectDetector;

impl RbprojectDetector {
    /// The path of the nearest `rbproject.toml`, from `start_dir` upwards
    /// (as `is_file` reports of `<dir>/rbproject.toml`).
    pub fn discover<F: Fn(&str) -> bool>(start_dir: &str, is_file: F) -> (r: Option<String>)
        requires
            forall|s: &str| #[trigger] is_file.requires((s,)),
        ensures
            r matches Some(f) ==> exists|n: nat, d: Seq<char>|
                {
                    &&& #[trigger] nth_ancestor(start_dir@, n) == Some(d)
                    &&& f@ == #[trigger] path_join(d, "rbproject.toml"@)
                    &&& exists|s: &str| s@ == f@ && is_file.ensures((s,), true)
                    &&& forall|m: nat|
                        m < n ==> (#[trigger] nth_ancestor(start_dir@, m) matches Some(a)
                            && exists|s: &str|
                            s@ == path_join(a, "rbproject.toml"@) && is_file.ensures((s,), false))
                },
            r is None ==> forall|m: nat|
                (#[trigger] nth_ancestor(start_dir@, m) matches Some(a) ==> exists|s: &str|
                    s@ == path_join(a, "rbproject.toml"@) && is_file.ensures((s,), false)),
    {
        proof {
            reveal_strlit("rbproject.toml");
        }
        match find_upwards(start_dir, "rbproject.toml", is_file) {
            Some(d) => Some(join(d.as_str(), "rbproject.toml")),
            None => None,
        }
    }
}

} // verus!
