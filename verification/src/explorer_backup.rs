use vstd::prelude::*;
use vstd::string::StringExecFns;

use crate::paths::{display_name, file_name_or_empty};

verus! {

/// A directory tree read in one go: a folder with one file node per entry.
pub struct Explorer {
    pub name: String,
    pub children: Vec<Explorer>,
    pub is_file: bool,
}

/// The name of a default node.
pub open spec fn unnamed() -> Seq<char> {
    "Unnamed"@
}

/// `node` is a leaf: a file or folder named `name` with no children.
pub open spec fn is_leaf(node: Explorer, name: Seq<char>, is_file: bool) -> bool {
    &&& node.name@ == name
    &&& node.children@.len() == 0
    &&& node.is_file == is_file
}

/// `after` is `before` with one file node appended per path in `parts`,
/// each named after the last component of its path.
pub open spec fn appends_files(before: Explorer, after: Explorer, parts: Seq<Seq<char>>) -> bool {
    &&& after.name@ == before.name@
    &&& after.is_file == before.is_file
    &&& after.children@.len() == before.children@.len() + parts.len()
    &&& forall|i: int| 0 <= i < before.children@.len() ==> #[trigger] after.children@[i] == before.children@[i]
    &&& forall|i: int|
        0 <= i < parts.len() ==> is_leaf(
            #[trigger] after.children@[before.children@.len() + i],
            display_name(parts[i]),
            true,
        )
}

/// Inserting paths keeps the node's name, kind and earlier children, and adds
/// after them one file node per path, in order, named after the path's last
/// component, with nothing under it.
pub proof fn law_insert_adds_named_files(before: Explorer, after: Explorer, parts: Seq<Seq<char>>)
    requires
        appends_files(before, after, parts),
    ensures
        after.name@ == before.name@,
        after.is_file == before.is_file,
        after.children@.len() == before.children@.len() + parts.len(),
        after.children@.subrange(0, before.children@.len() as int) == before.children@,
        forall|i: int|
            0 <= i < parts.len() ==> {
                &&& (#[trigger] after.children@[before.children@.len() + i]).name@ == display_name(
                    parts[i],
                )
                &&& after.children@[before.children@.len() + i].is_file
                &&& after.children@[before.children@.len() + i].children@.len() == 0
            },
{
    assert(after.children@.subrange(0, before.children@.len() as int) =~= before.children@);
    assert forall|i: int| 0 <= i < parts.len() implies {
        &&& (#[trigger] after.children@[before.children@.len() + i]).name@ == display_name(parts[i])
        &&& after.children@[before.children@.len() + i].is_file
        &&& after.children@[before.children@.len() + i].children@.len() == 0
    } by {
        assert(is_leaf(after.children@[before.children@.len() + i], display_name(parts[i]), true));
    }
}

/// Appending the files of `first` and then those of `second` gives the same
/// children as appending the files of both at once.
pub proof fn law_insert_in_batches(
    a: Explorer,
    b: Explorer,
    c: Explorer,
    first: Seq<Seq<char>>,
    second: Seq<Seq<char>>,
)
    requires
        appends_files(a, b, first),
        appends_files(b, c, second),
    ensures
        appends_files(a, c, first + second),
{
    let n = a.children@.len();
    let parts = first + second;
    assert forall|i: int| 0 <= i < parts.len() implies is_leaf(
        #[trigger] c.children@[n + i],
        display_name(parts[i]),
        true,
    ) by {
        if i < first.len() {
            assert(c.children@[n + i] == b.children@[n + i]);
        } else {
            let k = i - first.len();
            assert(c.children@[b.children@.len() + k] == c.children@[n + i]);
        }
    }
}

/// `a` and `b` are the same tree: the same names and kinds, node by node.
pub open spec fn same_tree(a: Explorer, b: Explorer) -> bool
    decreases a,
{
    &&& a.name == b.name
    &&& a.is_file == b.is_file
    &&& a.children@.len() == b.children@.len()
    &&& forall|i: int|
        0 <= i < a.children@.len() ==> same_tree(#[trigger] a.children@[i], b.children@[i])
}

impl Clone for Explorer {
    /// A copy of the whole tree.
    fn clone(&self) -> (res: Self)
        ensures
            same_tree(res, *self),
    {
        self.clone_tree()
    }
}

impl Default for Explorer {
    fn default() -> (res: Self)
        ensures
            is_leaf(res, unnamed(), false),
    {
        Explorer { name: String::from_str("Unnamed"), children: Vec::new(), is_file: false }
    }
}

impl Explorer {
    /// An empty folder node.
    pub fn default_dir(name: String) -> (res: Self)
        ensures
            is_leaf(res, name@, false),
    {
        Explorer { name, children: Vec::new(), is_file: false }
    }

    /// A file node.
    pub fn file(name: String) -> (res: Self)
        ensures
            is_leaf(res, name@, true),
    {
        Explorer { name, children: Vec::new(), is_file: true }
    }

    /// A copy of the whole tree, node by node.
    fn clone_tree(&self) -> (res: Self)
        ensures
            same_tree(res, *self),
        decreases *self,
    {
        let mut children: Vec<Explorer> = Vec::new();
        let mut i: usize = 0;
        while i < self.children.len()
            invariant
                i <= self.children@.len(),
                children@.len() == i,
                forall|k: int| 0 <= k < i ==> same_tree(#[trigger] children@[k], self.children@[k]),
            decreases self.children@.len() - i,
        {
            let c = self.children[i].clone_tree();
            children.push(c);
            i = i + 1;
        }
        Explorer { name: self.name.clone(), children, is_file: self.is_file }
    }

    fn name(path: &str) -> (res: String)
        ensures
            res@ == display_name(path@),
    {
        file_name_or_empty(path)
    }

    /// The tree for the folder `path` whose entries (one level deep, as
    /// listed by the caller) are `components`: a folder named after the
    /// path, holding one file node per entry, in order.
    pub fn from_pathbuf(path: &String, components: &Vec<String>) -> (res: Self)
        ensures
            res.name@ == display_name(path@),
            !res.is_file,
            res.children@.len() == components@.len(),
            forall|i: int|
                0 <= i < components@.len() ==> is_leaf(
                    #[trigger] res.children@[i],
                    display_name(components@[i]@),
                    true,
                ),
    {
        let mut root = Explorer::default_dir(Explorer::name(path.as_str()));
        Explorer::insert_path(&mut root, components);
        assert forall|i: int| 0 <= i < components@.len() implies is_leaf(
            #[trigger] root.children@[i],
            display_name(components@[i]@),
            true,
        ) by {
            assert(root.children@[0 + i] == root.children@[i]);
        }
        root
    }

    /// Appends one file node per path in `parts` to `current`'s children.
    pub fn insert_path(current: &mut Explorer, parts: &Vec<String>)
        ensures
            appends_files(*old(current), *final(current), parts.deep_view()),
    {
        if parts.len() == 0 {
            return;
        }
        let ghost start = current.children@.len();
        let mut i: usize = 0;
        while i < parts.len()
            invariant
                i <= parts@.len(),
                current.name@ == old(current).name@,
                current.is_file == old(current).is_file,
                start == old(current).children@.len(),
                current.children@.len() == start + i,
                forall|k: int| 0 <= k < start ==> #[trigger] current.children@[k] == old(current).children@[k],
                forall|k: int|
                    0 <= k < i ==> is_leaf(
                        #[trigger] current.children@[start + k],
                        display_name(parts@[k]@),
                        true,
                    ),
            decreases parts@.len() - i,
        {
            let node = Explorer::file(Explorer::name(parts[i].as_str()));
            current.children.push(node);
            i = i + 1;
        }
    }
}

} // verus!
