use vstd::prelude::*;
use vstd::string::StringExecFns;

use crate::paths::{display_name, file_name_or_empty, FilePath};

verus! {

#[verifier::external_type_specification]
#[verifier::external_body]
pub struct ExInstant(std::time::Instant);

/// Calls `std::time::Instant::now`. The result depends on the clock, so the
/// contract states nothing of it.
#[verifier::external_body]
fn now() -> (res: std::time::Instant) {
    std::time::Instant::now()
}

/// One node of a lazily loaded directory tree: a file, or a folder whose
/// children are read the first time it is opened.
#[derive(Debug)]
pub struct Explorer {
    pub name: String,
    pub path: FilePath,
    pub children: Vec<Explorer>,
    pub is_file: bool,
    pub opened: bool,
    pub initial_open: bool,
    pub last_accessed_time: std::time::Instant,
    pub access_count: u16,
}

/// `a` and `b` are the same tree: equal node data, node by node.
pub open spec fn same_tree(a: Explorer, b: Explorer) -> bool
    decreases a,
{
    &&& a.name == b.name
    &&& a.path == b.path
    &&& a.is_file == b.is_file
    &&& a.opened == b.opened
    &&& a.initial_open == b.initial_open
    &&& a.last_accessed_time == b.last_accessed_time
    &&& a.access_count == b.access_count
    &&& a.children@.len() == b.children@.len()
    &&& forall|i: int|
        0 <= i < a.children@.len() ==> same_tree(#[trigger] a.children@[i], b.children@[i])
}

impl Clone for Explorer {
    /// A copy of the whole tree.
    fn clone(&self) -> (res: Self)
        ensures
            same_tree(res, *self),
    {
        self.clone_tree()
    }
}

/// What a directory listing reports of one entry.
pub struct Entry {
    pub path: FilePath,
    pub is_dir: bool,
}

/// `node` is a freshly made folder (`is_dir`) or file for `path`, named `name`,
/// with no children loaded.
pub open spec fn is_fresh(node: Explorer, name: Seq<char>, path: FilePath, is_dir: bool, initial_open: bool) -> bool {
    &&& node.name@ == name
    &&& node.path == path
    &&& node.children@.len() == 0
    &&& node.is_file == !is_dir
    &&& node.opened == !is_dir
    &&& node.initial_open == initial_open
    &&& node.access_count == 0
}

/// `node` is the child made for the listing entry `entry`: a folder closed by
/// default, or a file, named after the last component of its path.
pub open spec fn is_child_for(node: Explorer, entry: Entry) -> bool {
    is_fresh(node, display_name(entry.path.text@), entry.path, entry.is_dir, !entry.is_dir)
}

/// The node's own data, apart from its children, the access record and the
/// open state.
pub open spec fn same_identity(a: Explorer, b: Explorer) -> bool {
    &&& a.name@ == b.name@
    &&& a.path == b.path
    &&& a.is_file == b.is_file
    &&& a.initial_open == b.initial_open
}

/// Whether the children of `node` are to be read from disk now.
pub open spec fn needs_loading(node: Explorer, fully_open: bool) -> bool {
    !node.opened && fully_open && node.children@.len() == 0
}

/// The open state after the header of `node` was drawn fully open or fully
/// closed.
pub open spec fn opened_after(opened: bool, fully_open: bool, fully_closed: bool) -> bool {
    if !opened && fully_open {
        true
    } else if opened && fully_closed {
        false
    } else {
        opened
    }
}

/// `after` is `before` once the listing `entries` was handed to it: unchanged
/// where children were loaded already, else holding one child per entry, in
/// order, with the load counted and the node's own data kept.
pub open spec fn load_result(before: Explorer, after: Explorer, entries: Seq<Entry>) -> bool {
    &&& before.children@.len() > 0 ==> after == before
    &&& before.children@.len() == 0 ==> {
        &&& after.children@.len() == entries.len()
        &&& forall|i: int|
            0 <= i < entries.len() ==> is_child_for(#[trigger] after.children@[i], entries[i])
        &&& after.access_count == before.access_count + 1
        &&& after.opened == before.opened
        &&& same_identity(after, before)
    }
}

/// `after` and `load` are what drawing the header of `before` fully open or
/// fully closed gives: a file is left alone; a folder records whether it is
/// open and asks for its listing when it was just opened with nothing loaded.
pub open spec fn header_result(
    before: Explorer,
    after: Explorer,
    fully_open: bool,
    fully_closed: bool,
    load: bool,
) -> bool {
    &&& before.is_file ==> after == before && !load
    &&& !before.is_file ==> {
        &&& after.opened == opened_after(before.opened, fully_open, fully_closed)
        &&& load == needs_loading(before, fully_open)
        &&& after.children == before.children
        &&& after.access_count == before.access_count
        &&& after.last_accessed_time == before.last_accessed_time
        &&& same_identity(after, before)
    }
}

/// Every node of the tree under `node` that is a file has no children and is
/// shown open.
pub open spec fn well_formed(node: Explorer) -> bool
    decreases node,
{
    &&& node.is_file ==> node.children@.len() == 0 && node.opened && node.initial_open
    &&& forall|i: int|
        0 <= i < node.children@.len() ==> well_formed(#[trigger] node.children@[i])
}

/// Drawing a header keeps the tree well formed and the node's own data, and
/// removes no child; a file node is left exactly as it was.
pub proof fn law_header_keeps_tree(
    before: Explorer,
    after: Explorer,
    fully_open: bool,
    fully_closed: bool,
    load: bool,
)
    requires
        well_formed(before),
        header_result(before, after, fully_open, fully_closed, load),
    ensures
        well_formed(after),
        same_identity(after, before),
        after.children@ == before.children@,
        before.is_file ==> after == before,
{
    assert(forall|i: int|
        0 <= i < after.children@.len() ==> #[trigger] after.children@[i] == before.children@[i]);
}

/// Loading a listing into a folder (the only nodes whose listing is asked
/// for) keeps the tree well formed and the node's own data, and removes no
/// child: children are only ever added to a node that had none.
pub proof fn law_load_keeps_tree(before: Explorer, after: Explorer, entries: Seq<Entry>)
    requires
        well_formed(before),
        !before.is_file,
        load_result(before, after, entries),
    ensures
        well_formed(after),
        same_identity(after, before),
        before.children@.len() > 0 ==> after.children@ == before.children@,
{
    if before.children@.len() == 0 {
        assert forall|i: int| 0 <= i < after.children@.len() implies well_formed(
            #[trigger] after.children@[i],
        ) by {
            assert(is_child_for(after.children@[i], entries[i]));
            reveal_with_fuel(well_formed, 2);
        }
    }
}

/// Putting a well-formed node in place of one child of a well-formed node
/// gives a well-formed node: a walk that updates the nodes of a tree one by
/// one, each by the steps above, keeps the whole tree well formed.
pub proof fn law_replace_child_keeps_tree(
    before: Explorer,
    after: Explorer,
    i: int,
    child: Explorer,
)
    requires
        well_formed(before),
        well_formed(child),
        0 <= i < before.children@.len(),
        after.children@ == before.children@.update(i, child),
        same_identity(after, before),
        after.opened == before.opened,
    ensures
        well_formed(after),
{
    assert forall|k: int| 0 <= k < after.children@.len() implies well_formed(
        #[trigger] after.children@[k],
    ) by {
        if k != i {
            assert(after.children@[k] == before.children@[k]);
        }
    }
}

/// A freshly made node carries exactly the name and path it was made with,
/// has nothing loaded and has not been loaded yet; a folder starts closed and
/// a file starts open, and it is shown open at first as asked.
pub proof fn law_fresh_node_keeps_name_and_path(
    node: Explorer,
    name: Seq<char>,
    path: FilePath,
    is_dir: bool,
    initial_open: bool,
)
    requires
        is_fresh(node, name, path, is_dir, initial_open),
    ensures
        node.name@ == name,
        node.path == path,
        node.children@.len() == 0,
        node.is_file == !is_dir,
        node.opened == !is_dir,
        node.initial_open == initial_open,
        node.access_count == 0,
{
}

/// Each child loaded into a node that had none is made from its own listing
/// entry, in order: it keeps the entry's path (folders as well as files), is
/// named after the path's last component, is a folder exactly when the entry
/// is a directory, has nothing loaded, and is shown open at first exactly when
/// it is a file.
pub proof fn law_loaded_children_keep_entries(before: Explorer, after: Explorer, entries: Seq<Entry>)
    requires
        load_result(before, after, entries),
        before.children@.len() == 0,
    ensures
        after.children@.len() == entries.len(),
        forall|i: int|
            0 <= i < entries.len() ==> {
                &&& (#[trigger] after.children@[i]).path == entries[i].path
                &&& after.children@[i].name@ == display_name(entries[i].path.text@)
                &&& after.children@[i].is_file == !entries[i].is_dir
                &&& after.children@[i].children@.len() == 0
                &&& after.children@[i].opened == !entries[i].is_dir
                &&& after.children@[i].initial_open == !entries[i].is_dir
                &&& after.children@[i].access_count == 0
            },
{
    assert forall|i: int| 0 <= i < entries.len() implies {
        &&& (#[trigger] after.children@[i]).path == entries[i].path
        &&& after.children@[i].name@ == display_name(entries[i].path.text@)
        &&& after.children@[i].is_file == !entries[i].is_dir
        &&& after.children@[i].children@.len() == 0
        &&& after.children@[i].opened == !entries[i].is_dir
        &&& after.children@[i].initial_open == !entries[i].is_dir
        &&& after.children@[i].access_count == 0
    } by {
        assert(is_child_for(after.children@[i], entries[i]));
    }
}

/// A header asks for the folder's listing exactly when a closed folder with
/// nothing loaded is drawn fully open: never for a file, never for a header
/// that is not fully open, never for a folder already open or already
/// loaded. The folder is open afterwards when it was just drawn fully open
/// while closed, closed when it was drawn fully closed while open, and as it
/// was otherwise.
pub proof fn law_header_asks_only_when_opened(
    before: Explorer,
    after: Explorer,
    fully_open: bool,
    fully_closed: bool,
    load: bool,
)
    requires
        header_result(before, after, fully_open, fully_closed, load),
    ensures
        load <==> (!before.is_file && !before.opened && fully_open && before.children@.len() == 0),
        !fully_open ==> !load,
        before.is_file ==> after.opened == before.opened,
        !before.is_file && !before.opened && fully_open ==> after.opened,
        !before.is_file && before.opened && fully_closed ==> !after.opened,
        !before.is_file && !(!before.opened && fully_open) && !(before.opened && fully_closed)
            ==> after.opened == before.opened,
        after.children == before.children,
        after.path == before.path,
{
}

/// A folder's directory is read at most once: after a listing with at least
/// one entry was loaded, loading again changes nothing, and drawing the header
/// open never asks for the listing again.
pub proof fn law_children_read_once(
    a: Explorer,
    b: Explorer,
    c: Explorer,
    first: Seq<Entry>,
    second: Seq<Entry>,
    fully_open: bool,
)
    requires
        load_result(a, b, first),
        first.len() > 0,
        load_result(b, c, second),
    ensures
        b.children@.len() > 0,
        c == b,
        !needs_loading(b, fully_open),
{
}

/// Opening a closed folder with nothing loaded asks for its listing, and the
/// header stays open until it is drawn fully closed.
pub proof fn law_first_open_asks_for_listing(
    before: Explorer,
    after: Explorer,
    fully_closed: bool,
    load: bool,
)
    requires
        !before.is_file,
        !before.opened,
        before.children@.len() == 0,
        header_result(before, after, true, fully_closed, load),
    ensures
        load,
        after.opened,
{
}

impl Explorer {
    /// The root folder for `path`, shown open at first.
    pub fn from_pathbuf(path: &FilePath) -> (res: Self)
        ensures
            is_fresh(res, display_name(path.text@), *path, true, true),
    {
        let name = Self::name(path.text.as_str());
        Self::folder(name, path.clone(), Some(true))
    }

    /// A copy of the whole tree, node by node.
    fn clone_tree(&self) -> (res: Self)
        ensures
            same_tree(res, *self),
        decreases *self,
    {
        let mut children: Vec<Explorer> = Vec::new();
        let mut i: usize = 0;
        while i < self.children.len()
            invariant
                i <= self.children@.len(),
                children@.len() == i,
                forall|k: int| 0 <= k < i ==> same_tree(#[trigger] children@[k], self.children@[k]),
            decreases self.children@.len() - i,
        {
            let c = self.children[i].clone_tree();
            children.push(c);
            i = i + 1;
        }
        Explorer {
            name: self.name.clone(),
            path: self.path.clone(),
            children,
            is_file: self.is_file,
            opened: self.opened,
            initial_open: self.initial_open,
            last_accessed_time: self.last_accessed_time,
            access_count: self.access_count,
        }
    }

    fn name(path: &str) -> (res: String)
        ensures
            res@ == display_name(path@),
    {
        file_name_or_empty(path)
    }

    /// A folder node with no children loaded; it is shown open at first only
    /// where `initial_open` says so. Its access time is read from the clock.
    pub fn folder(name: String, path: FilePath, initial_open: Option<bool>) -> (res: Self)
        ensures
            is_fresh(res, name@, path, true, initial_open == Some(true)),
    {
        Self::folder_at(name, path, initial_open, now())
    }

    /// A folder node as `folder` makes it, with `time` as its access time.
    pub fn folder_at(
        name: String,
        path: FilePath,
        initial_open: Option<bool>,
        time: std::time::Instant,
    ) -> (res: Self)
        ensures
            is_fresh(res, name@, path, true, initial_open == Some(true)),
            res.last_accessed_time == time,
    {
        let open = match initial_open {
            Some(b) => b,
            None => false,
        };
        Explorer {
            name,
            path,
            children: Vec::new(),
            is_file: false,
            opened: false,
            initial_open: open,
            last_accessed_time: time,
            access_count: 0,
        }
    }

    /// A file node. Its access time is read from the clock.
    pub fn file(name: String, path: FilePath) -> (res: Self)
        ensures
            is_fresh(res, name@, path, false, true),
    {
        Self::file_at(name, path, now())
    }

    /// A file node as `file` makes it, with `time` as its access time.
    pub fn file_at(name: String, path: FilePath, time: std::time::Instant) -> (res: Self)
        ensures
            is_fresh(res, name@, path, false, true),
            res.last_accessed_time == time,
    {
        Explorer {
            name,
            path,
            children: Vec::new(),
            is_file: true,
            opened: true,
            initial_open: true,
            last_accessed_time: time,
            access_count: 0,
        }
    }

    /// One fresh node per listing entry, in order.
    fn children_for(entries: &Vec<Entry>) -> (res: Vec<Explorer>)
        ensures
            res@.len() == entries@.len(),
            forall|k: int| 0 <= k < entries@.len() ==> is_child_for(#[trigger] res@[k], entries@[k]),
    {
        let mut children: Vec<Explorer> = Vec::new();
        let mut i: usize = 0;
        while i < entries.len()
            invariant
                i <= entries@.len(),
                children@.len() == i,
                forall|k: int| 0 <= k < i ==> is_child_for(#[trigger] children@[k], entries@[k]),
            decreases entries@.len() - i,
        {
            let entry = &entries[i];
            let name = Self::name(entry.path.text.as_str());
            let child = if entry.is_dir {
                Self::folder(name, entry.path.clone(), None)
            } else {
                Self::file(name, entry.path.clone())
            };
            children.push(child);
            i = i + 1;
        }
        children
    }

    /// Takes `children` as the loaded listing, read at `time`, and counts
    /// the load.
    fn install_children(&mut self, children: Vec<Explorer>, time: std::time::Instant)
        requires
            old(self).access_count < u16::MAX,
        ensures
            final(self).children == children,
            final(self).last_accessed_time == time,
            final(self).access_count == old(self).access_count + 1,
            final(self).opened == old(self).opened,
            same_identity(*final(self), *old(self)),
    {
        self.children = children;
        self.last_accessed_time = time;
        self.access_count = self.access_count + 1;
    }

    /// Fills in the children from a listing of the folder, once: where
    /// children are already loaded nothing changes. Each load is counted,
    /// and the clock is read for each new node and for the load itself.
    pub fn load_children(&mut self, entries: Vec<Entry>)
        requires
            old(self).children@.len() > 0 || old(self).access_count < u16::MAX,
        ensures
            load_result(*old(self), *final(self), entries@),
    {
        if self.children.len() > 0 {
            return;
        }
        let children = Self::children_for(&entries);
        let time = now();
        self.install_children(children, time);
    }

    /// Fills in the children as `load_children` does, with `time` as the
    /// time of the load.
    pub fn load_children_at(&mut self, entries: Vec<Entry>, time: std::time::Instant)
        requires
            old(self).children@.len() > 0 || old(self).access_count < u16::MAX,
        ensures
            load_result(*old(self), *final(self), entries@),
            old(self).children@.len() == 0 ==> final(self).last_accessed_time == time,
    {
        if self.children.len() > 0 {
            return;
        }
        let children = Self::children_for(&entries);
        self.install_children(children, time);
    }

    /// Records how the folder's header was drawn this frame and tells whether
    /// its children must now be read from disk (and handed to
    /// `load_children`). A file node is left as it is.
    pub fn on_header_response(&mut self, fully_open: bool, fully_closed: bool) -> (load: bool)
        ensures
            header_result(*old(self), *final(self), fully_open, fully_closed, load),
    {
        if self.is_file {
            return false;
        }
        if !self.opened && fully_open {
            self.opened = true;
            self.children.len() == 0
        } else {
            if self.opened && fully_closed {
                self.opened = false;
            }
            false
        }
    }
}

} // verus!
