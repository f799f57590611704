//! Module-tree reachability: which source files of a crate no `mod` declaration
//! leads to.
//!
//! A file is reachable when a chain of declarations leads to it from
//! `src/lib.rs` or `src/main.rs`. A declaration `mod NAME;` is looked up by name,
//! as `NAME.rs` or `NAME/mod.rs` in the directory of the declaring file. One that
//! leads to no file is reported, not passed over.

use vstd::prelude::*;

use crate::module_tree_check::text_set::Order;

pub mod paths;
pub mod scanner;
pub mod scanner_laws;
pub mod text_set;
pub mod tree_laws;

verus! {

/// A source file as it was found.
pub struct SourceFile {
    /// The path under which it was looked up.
    pub path: String,
    /// The path with all links resolved; the path itself where that failed.
    pub canonical: String,
    /// Whether the path leads to a file.
    pub is_file: bool,
    /// Whether it is one of the `.rs` files under the source directory.
    pub listed: bool,
    /// The text, where it could be read.
    pub text: Option<String>,
}

/// The source directory of a crate, as it was found.
pub struct SourceTree {
    /// Path of the directory.
    pub src_dir: String,
    /// Whether the path leads to a directory.
    pub is_dir: bool,
    pub files: Vec<SourceFile>,
}

/// Outcome of scanning one crate.
#[derive(Debug, PartialEq, Eq)]
pub struct Report {
    /// Paths of `.rs` files that no declaration reaches, in ascending order.
    pub unreachable: Vec<String>,
    /// Names of declarations that lead to no file, in ascending order.
    pub unresolved: Vec<String>,
}

impl Default for Report {
    fn default() -> (r: Report)
        ensures
            r.unreachable@.len() == 0,
            r.unresolved@.len() == 0,
    {
        Report { unreachable: Vec::new(), unresolved: Vec::new() }
    }
}

impl Report {
    /// Whether there is nothing to report.
    pub fn is_clean(&self) -> (b: bool)
        ensures
            b == (self.unreachable@.len() == 0 && self.unresolved@.len() == 0),
    {
        self.unreachable.len() == 0 && self.unresolved.len() == 0
    }
}

/// Entry `i` is a file under `path`.
pub open spec fn file_at(tree: SourceTree, path: Seq<char>, i: int) -> bool {
    0 <= i < tree.files@.len() && tree.files@[i].is_file && tree.files@[i].path@ == path
}

/// Entry `i` is the first file under `path`.
pub open spec fn first_file_at(tree: SourceTree, path: Seq<char>, i: int) -> bool {
    file_at(tree, path, i) && forall|j: int| 0 <= j < i ==> !#[trigger] file_at(tree, path, j)
}

/// The file under `path`, if there is one.
pub open spec fn lookup(tree: SourceTree, path: Seq<char>) -> Option<int> {
    if exists|i: int| first_file_at(tree, path, i) {
        Some(choose|i: int| first_file_at(tree, path, i))
    } else {
        None
    }
}

/// Entries `i` and `j` are the same file on disk.
pub open spec fn same_file(tree: SourceTree, i: int, j: int) -> bool {
    tree.files@[i].canonical@ == tree.files@[j].canonical@
}

/// Entry `j` is the first that is the same file as entry `i`.
pub open spec fn first_same_at(tree: SourceTree, i: int, j: int) -> bool {
    0 <= j <= i && same_file(tree, i, j) && forall|k: int|
        0 <= k < j ==> !#[trigger] same_file(tree, i, k)
}

/// The entry that stands for the file on disk of entry `i`.
pub open spec fn node(tree: SourceTree, i: int) -> int {
    choose|j: int| first_same_at(tree, i, j)
}

/// The file that `mod NAME;` in the file of entry `i` leads to: `NAME.rs`, or
/// else `NAME/mod.rs`, in the directory of that file. A path without a parent
/// has no such directory, and nothing in it leads anywhere.
pub open spec fn resolved(tree: SourceTree, i: int, name: Seq<char>) -> Option<int> {
    match paths::parent(tree.files@[i].canonical@) {
        None => None,
        Some(dir) => {
            let flat = lookup(tree, paths::join(dir, name + ".rs"@));
            let nested = lookup(tree, paths::join(paths::join(dir, name), "mod.rs"@));
            if flat is Some {
                Some(node(tree, flat->0))
            } else if nested is Some {
                Some(node(tree, nested->0))
            } else {
                None
            }
        },
    }
}

/// The names that the file of entry `i` declares; none where it cannot be read.
pub open spec fn names_in(tree: SourceTree, i: int) -> Seq<Seq<char>> {
    match tree.files@[i].text {
        Some(text) => scanner::declared(text@),
        None => Seq::empty(),
    }
}

/// A declaration in the file of entry `i` leads to the file of entry `j`.
pub open spec fn leads(tree: SourceTree, i: int, j: int) -> bool {
    exists|k: int|
        0 <= k < names_in(tree, i).len() && resolved(tree, i, #[trigger] names_in(tree, i)[k])
            == Some(j)
}

/// A declaration of `name` in the file of entry `i` leads nowhere.
pub open spec fn dangles(tree: SourceTree, i: int, name: Seq<char>) -> bool {
    names_in(tree, i).contains(name) && resolved(tree, i, name) is None
}

/// The file of entry `i` is a root of the crate.
pub open spec fn root(tree: SourceTree, i: int) -> bool {
    let lib = lookup(tree, paths::join(tree.src_dir@, "lib.rs"@));
    let main = lookup(tree, paths::join(tree.src_dir@, "main.rs"@));
    lib is Some && node(tree, lib->0) == i || main is Some && node(tree, main->0) == i
}

/// `path` goes from a root along declarations.
pub open spec fn chain(tree: SourceTree, path: Seq<int>) -> bool {
    &&& path.len() > 0
    &&& root(tree, path[0])
    &&& forall|k: int| 0 < k < path.len() ==> leads(tree, path[k - 1], #[trigger] path[k])
}

/// A chain of declarations leads from a root to the file of entry `i`.
pub open spec fn reached(tree: SourceTree, i: int) -> bool {
    exists|path: Seq<int>| #[trigger] chain(tree, path) && path.last() == i
}

proof fn lemma_node_is(tree: SourceTree, i: int, j: int)
    requires
        first_same_at(tree, i, j),
    ensures
        node(tree, i) == j,
{
    let k = node(tree, i);
    assert(first_same_at(tree, i, k));
    if k < j {
        assert(!same_file(tree, i, k));
    } else if j < k {
        assert(!same_file(tree, i, j));
    }
}

proof fn lemma_lookup_is(tree: SourceTree, path: Seq<char>, i: int)
    requires
        first_file_at(tree, path, i),
    ensures
        lookup(tree, path) == Some(i),
{
    let k = choose|k: int| first_file_at(tree, path, k);
    assert(first_file_at(tree, path, k));
    if k < i {
        assert(!file_at(tree, path, k));
    } else if i < k {
        assert(!file_at(tree, path, i));
    }
}

impl SourceTree {
    /// The first file under `path`.
    fn find(&self, path: &String) -> (r: Option<usize>)
        ensures
            match r {
                Some(i) => lookup(*self, path@) == Some(i as int) && i < self.files.len(),
                None => lookup(*self, path@) is None,
            },
    {
        let mut i: usize = 0;
        while i < self.files.len()
            invariant
                i <= self.files.len(),
                forall|j: int| 0 <= j < i ==> !#[trigger] file_at(*self, path@, j),
            decreases self.files.len() - i,
        {
            if self.files[i].is_file && self.files[i].path == *path {
                proof {
                    lemma_lookup_is(*self, path@, i as int);
                }
                return Some(i);
            }
            assert(!file_at(*self, path@, i as int));
            i += 1;
        }
        proof {
            if exists|k: int| first_file_at(*self, path@, k) {
                let k = choose|k: int| first_file_at(*self, path@, k);
                assert(!file_at(*self, path@, k));
            }
        }
        None
    }

    /// The entry that stands for the file on disk of entry `i`.
    fn node_of(&self, i: usize) -> (n: usize)
        requires
            i < self.files.len(),
        ensures
            n == node(*self, i as int),
            n <= i,
    {
        let mut j: usize = 0;
        while j < i
            invariant
                j <= i < self.files.len(),
                forall|k: int| 0 <= k < j ==> !#[trigger] same_file(*self, i as int, k),
            decreases i - j,
        {
            if self.files[i].canonical == self.files[j].canonical {
                proof {
                    assert(same_file(*self, i as int, j as int));
                    lemma_node_is(*self, i as int, j as int);
                }
                return j;
            }
            assert(!same_file(*self, i as int, j as int));
            j += 1;
        }
        proof {
            assert(same_file(*self, i as int, i as int));
            lemma_node_is(*self, i as int, i as int);
        }
        i
    }
}

/// The file that `mod NAME;` in the file of entry `from` leads to, if any.
pub fn resolve_mod(tree: &SourceTree, from: usize, name: &String) -> (target: Option<usize>)
    requires
        from < tree.files.len(),
    ensures
        match target {
            Some(j) => resolved(*tree, from as int, name@) == Some(j as int) && j
                < tree.files.len(),
            None => resolved(*tree, from as int, name@) is None,
        },
{
    let dir: String = match paths::parent_of(&tree.files[from].canonical) {
        Some(dir) => dir,
        None => {
            return None;
        },
    };
    let mut file_name: String = name.clone();
    file_name.append(".rs");
    let flat: String = paths::joined(&dir, file_name.as_str());
    if let Some(i) = tree.find(&flat) {
        return Some(tree.node_of(i));
    }
    let nested: String = paths::joined(&paths::joined(&dir, name.as_str()), "mod.rs");
    if let Some(i) = tree.find(&nested) {
        return Some(tree.node_of(i));
    }
    None
}

/// How many entries are not marked yet.
spec fn unmarked(marks: Seq<bool>) -> nat
    decreases marks.len(),
{
    if marks.len() == 0 {
        0
    } else {
        unmarked(marks.drop_last()) + (if marks.last() {
            0nat
        } else {
            1nat
        })
    }
}

/// Marking an entry leaves fewer unmarked.
proof fn lemma_mark(marks: Seq<bool>, i: int)
    requires
        0 <= i < marks.len(),
        !marks[i],
    ensures
        unmarked(marks.update(i, true)) < unmarked(marks),
    decreases marks.len(),
{
    let after = marks.update(i, true);
    if i == marks.len() - 1 {
        assert(after.drop_last() =~= marks.drop_last());
    } else {
        lemma_mark(marks.drop_last(), i);
        assert(after.drop_last() =~= marks.drop_last().update(i, true));
    }
}

/// What a reached file leads to is reached.
proof fn lemma_reached_step(tree: SourceTree, i: int, j: int)
    requires
        reached(tree, i),
        leads(tree, i, j),
    ensures
        reached(tree, j),
{
    let path = choose|path: Seq<int>| #[trigger] chain(tree, path) && path.last() == i;
    let longer = path.push(j);
    assert forall|k: int| 0 < k < longer.len() implies leads(
        tree,
        longer[k - 1],
        #[trigger] longer[k],
    ) by {
        if k < path.len() {
            assert(longer[k] == path[k] && longer[k - 1] == path[k - 1]);
            assert(leads(tree, path[k - 1], path[k]));
        }
    }
    assert(chain(tree, longer));
    assert(longer.last() == j);
}

/// A root is reached.
proof fn lemma_reached_root(tree: SourceTree, i: int)
    requires
        root(tree, i),
    ensures
        reached(tree, i),
{
    let path = seq![i];
    assert(chain(tree, path));
    assert(path.last() == i);
}

/// Marks that hold all roots, and with each file all that it leads to, hold
/// everything that is reached.
proof fn lemma_closed_marks(tree: SourceTree, marks: Seq<bool>, path: Seq<int>, n: nat)
    requires
        chain(tree, path),
        n < path.len(),
        forall|i: int| #[trigger] root(tree, i) ==> 0 <= i < marks.len() && marks[i],
        forall|i: int, j: int|
            0 <= i < marks.len() && marks[i] && #[trigger] leads(tree, i, j) ==> 0 <= j
                < marks.len() && marks[j],
    ensures
        0 <= path[n as int] < marks.len(),
        marks[path[n as int]],
    decreases n,
{
    if n > 0 {
        lemma_closed_marks(tree, marks, path, (n - 1) as nat);
        assert(leads(tree, path[n - 1], path[n as int]));
    } else {
        assert(root(tree, path[0]));
        assert(marks[path[0]]);
    }
}

/// `i` is marked, or waits to be looked at.
spec fn known(marks: Seq<bool>, queue: Seq<usize>, i: int) -> bool {
    (0 <= i < marks.len() && marks[i]) || exists|k: int|
        0 <= k < queue.len() && #[trigger] queue[k] == i
}

/// Follow the declarations from the roots on. Marks every file that is reached,
/// and collects the names of declarations that lead nowhere.
fn reachable(tree: &SourceTree) -> (r: (Vec<bool>, Vec<String>))
    ensures
        r.0@.len() == tree.files@.len(),
        forall|i: int|
            0 <= i < tree.files@.len() ==> #[trigger] r.0@[i] == reached(*tree, i),
        text_set::ascending(Order::Names, r.1@),
        forall|x: Seq<char>| #[trigger]
            text_set::holds(r.1@, x) <==> exists|i: int|
                0 <= i < tree.files@.len() && reached(*tree, i) && #[trigger] dangles(*tree, i, x),
{
    let n: usize = tree.files.len();
    let mut visited: Vec<bool> = Vec::new();
    while visited.len() < n
        invariant
            visited.len() <= n,
            forall|i: int| 0 <= i < visited.len() ==> !visited@[i],
        decreases n - visited.len(),
    {
        visited.push(false);
    }
    let mut unresolved: Vec<String> = Vec::new();
    let mut queue: Vec<usize> = Vec::new();

    let lib: String = paths::joined(&tree.src_dir, "lib.rs");
    if let Some(i) = tree.find(&lib) {
        queue.push(tree.node_of(i));
    }
    let ghost lib_queue = queue@;
    let main: String = paths::joined(&tree.src_dir, "main.rs");
    if let Some(i) = tree.find(&main) {
        queue.push(tree.node_of(i));
    }
    proof {
        assert forall|i: int| root(*tree, i) implies #[trigger] known(visited@, queue@, i) by {
            let found = lookup(*tree, paths::join(tree.src_dir@, "lib.rs"@));
            if found is Some && node(*tree, found->0) == i {
                assert(lib_queue[0] == i);
                assert(queue@[0] == i);
            } else {
                assert(queue@[queue@.len() - 1] == i);
            }
        }
        assert forall|k: int| 0 <= k < queue@.len() implies #[trigger] queue@[k] < n && reached(
            *tree,
            queue@[k] as int,
        ) by {
            lemma_reached_root(*tree, queue@[k] as int);
        }
    }

    while queue.len() > 0
        invariant
            n == tree.files@.len(),
            visited@.len() == n,
            forall|k: int|
                0 <= k < queue@.len() ==> #[trigger] queue@[k] < n && reached(
                    *tree,
                    queue@[k] as int,
                ),
            forall|i: int| 0 <= i < n && #[trigger] visited@[i] ==> reached(*tree, i),
            forall|i: int| root(*tree, i) ==> #[trigger] known(visited@, queue@, i),
            forall|i: int, j: int|
                0 <= i < n && visited@[i] && #[trigger] leads(*tree, i, j) ==> known(
                    visited@,
                    queue@,
                    j,
                ),
            text_set::ascending(Order::Names, unresolved@),
            forall|x: Seq<char>| #[trigger]
                text_set::holds(unresolved@, x) <==> exists|i: int|
                    0 <= i < n && visited@[i] && #[trigger] dangles(*tree, i, x),
        decreases unmarked(visited@), queue.len(),
    {
        let ghost queue0 = queue@;
        let ghost visited0 = visited@;
        let file: usize = queue.pop().unwrap();
        assert(queue0[queue0.len() - 1] == file);
        if visited[file] {
            proof {
                assert forall|i: int| known(visited0, queue0, i) implies #[trigger] known(
                    visited@,
                    queue@,
                    i,
                ) by {
                    lemma_known_after_pop(visited0, queue0, i);
                }
                assert forall|i: int| root(*tree, i) implies #[trigger] known(
                    visited@,
                    queue@,
                    i,
                ) by {
                    assert(known(visited0, queue0, i));
                }
                assert forall|i: int, j: int|
                    0 <= i < n && visited@[i] && #[trigger] leads(*tree, i, j) implies known(
                    visited@,
                    queue@,
                    j,
                ) by {
                    assert(known(visited0, queue0, j));
                }
            }
            continue ;
        }
        let ghost popped = queue@;
        proof {
            lemma_mark(visited0, file as int);
        }
        visited.set(file, true);
        let names: Vec<String> = match &tree.files[file].text {
            Some(text) => scanner::declared_mods(text.as_str()),
            None => Vec::new(),
        };
        assert(scanner::views(names@) =~= names_in(*tree, file as int));
        let mut k: usize = 0;
        let ghost listed = unresolved@;
        while k < names.len()
            invariant
                n == tree.files@.len(),
                file < n,
                visited@ == visited0.update(file as int, true),
                visited@.len() == n,
                k <= names.len(),
                scanner::views(names@) == names_in(*tree, file as int),
                reached(*tree, file as int),
                popped.len() <= queue@.len(),
                forall|q: int| 0 <= q < popped.len() ==> #[trigger] queue@[q] == popped[q],
                forall|q: int|
                    0 <= q < queue@.len() ==> #[trigger] queue@[q] < n && reached(
                        *tree,
                        queue@[q] as int,
                    ),
                forall|m: int, j: int|
                    0 <= m < k && #[trigger] resolved(
                        *tree,
                        file as int,
                        names_in(*tree, file as int)[m],
                    ) == Some(j) ==> #[trigger] known(visited@, queue@, j),
                text_set::ascending(Order::Names, unresolved@),
                forall|x: Seq<char>| #[trigger]
                    text_set::holds(unresolved@, x) <==> text_set::holds(listed, x) || exists|m: int|
                        0 <= m < k && #[trigger] names_in(*tree, file as int)[m] == x && resolved(
                            *tree,
                            file as int,
                            x,
                        ) is None,
            decreases names.len() - k,
        {
            let ghost name = names_in(*tree, file as int)[k as int];
            assert(names@[k as int]@ == name);
            match resolve_mod(tree, file, &names[k]) {
                Some(target) => {
                    let ghost before = queue@;
                    proof {
                        assert(leads(*tree, file as int, target as int));
                        lemma_reached_step(*tree, file as int, target as int);
                    }
                    queue.push(target);
                    proof {
                        assert(queue@[queue@.len() - 1] == target);
                        assert forall|m: int, j: int|
                            0 <= m < k + 1 && #[trigger] resolved(
                                *tree,
                                file as int,
                                names_in(*tree, file as int)[m],
                            ) == Some(j) implies #[trigger] known(visited@, queue@, j) by {
                            if m < k {
                                assert(known(visited@, before, j));
                                lemma_known_after_push(visited@, before, target, j);
                            }
                        }
                    }
                },
                None => {
                    text_set::insert(Order::Names, &mut unresolved, &names[k]);
                },
            }
            k += 1;
        }
        proof {
            assert forall|i: int| known(visited0, queue0, i) implies #[trigger] known(
                visited@,
                queue@,
                i,
            ) by {
                if 0 <= i < n && visited0[i] {
                    assert(visited@[i]);
                } else {
                    let q = choose|q: int| 0 <= q < queue0.len() && #[trigger] queue0[q] == i;
                    if q == queue0.len() - 1 {
                        assert(visited@[i]);
                    } else {
                        assert(popped[q] == queue0[q]);
                        assert(queue@[q] == popped[q]);
                    }
                }
            }
            assert forall|i: int| root(*tree, i) implies #[trigger] known(visited@, queue@, i) by {
                assert(known(visited0, queue0, i));
            }
            assert forall|i: int, j: int|
                0 <= i < n && visited@[i] && #[trigger] leads(*tree, i, j) implies known(
                visited@,
                queue@,
                j,
            ) by {
                if i == file {
                    let m = choose|m: int|
                        0 <= m < names_in(*tree, i).len() && resolved(
                            *tree,
                            i,
                            #[trigger] names_in(*tree, i)[m],
                        ) == Some(j);
                    assert(resolved(*tree, file as int, names_in(*tree, file as int)[m]) == Some(
                        j,
                    ));
                    assert(known(visited@, queue@, j));
                } else {
                    assert(visited0[i]);
                    assert(known(visited0, queue0, j));
                }
            }
            assert forall|x: Seq<char>| #[trigger]
                text_set::holds(unresolved@, x) <==> exists|i: int|
                    0 <= i < n && visited@[i] && #[trigger] dangles(*tree, i, x) by {
                if text_set::holds(listed, x) {
                    let i = choose|i: int|
                        0 <= i < n && visited0[i] && #[trigger] dangles(*tree, i, x);
                    assert(visited@[i] && dangles(*tree, i, x));
                }
                if exists|m: int|
                    0 <= m < names@.len() && #[trigger] names_in(*tree, file as int)[m] == x
                        && resolved(*tree, file as int, x) is None {
                    assert(names_in(*tree, file as int).contains(x));
                    assert(visited@[file as int] && dangles(*tree, file as int, x));
                }
                if exists|i: int| 0 <= i < n && visited@[i] && #[trigger] dangles(*tree, i, x) {
                    let i = choose|i: int|
                        0 <= i < n && visited@[i] && #[trigger] dangles(*tree, i, x);
                    if i == file {
                        let m = choose|m: int|
                            0 <= m < names_in(*tree, i).len() && names_in(*tree, i)[m] == x;
                        assert(names_in(*tree, file as int)[m] == x);
                    } else {
                        assert(visited0[i] && dangles(*tree, i, x));
                        assert(text_set::holds(listed, x));
                    }
                }
            }
            assert forall|i: int| 0 <= i < n && #[trigger] visited@[i] implies reached(
                *tree,
                i,
            ) by {
                if i != file {
                    assert(visited0[i]);
                }
            }
        }
    }
    proof {
        assert forall|i: int| #[trigger] root(*tree, i) implies 0 <= i < visited@.len()
            && visited@[i] by {
            assert(known(visited@, queue@, i));
        }
        assert forall|i: int, j: int|
            0 <= i < visited@.len() && visited@[i] && #[trigger] leads(*tree, i, j) implies 0 <= j
            < visited@.len() && visited@[j] by {
            assert(known(visited@, queue@, j));
        }
        assert forall|i: int| 0 <= i < n implies #[trigger] visited@[i] == reached(*tree, i) by {
            if reached(*tree, i) {
                let path = choose|path: Seq<int>| #[trigger]
                    chain(*tree, path) && path.last() == i;
                lemma_closed_marks(*tree, visited@, path, (path.len() - 1) as nat);
            }
        }
        assert forall|x: Seq<char>| #[trigger]
            text_set::holds(unresolved@, x) <==> exists|i: int|
                0 <= i < n && reached(*tree, i) && #[trigger] dangles(*tree, i, x) by {
            if exists|i: int| 0 <= i < n && reached(*tree, i) && #[trigger] dangles(*tree, i, x) {
                let i = choose|i: int|
                    0 <= i < n && reached(*tree, i) && #[trigger] dangles(*tree, i, x);
                assert(visited@[i]);
            }
            if text_set::holds(unresolved@, x) {
                let i = choose|i: int| 0 <= i < n && visited@[i] && #[trigger] dangles(*tree, i, x);
                assert(reached(*tree, i) && dangles(*tree, i, x));
            }
        }
    }
    (visited, unresolved)
}

proof fn lemma_known_after_pop(marks: Seq<bool>, queue: Seq<usize>, i: int)
    requires
        known(marks, queue, i),
        queue.len() > 0,
        queue.last() < marks.len(),
        marks[queue.last() as int],
    ensures
        known(marks, queue.drop_last(), i),
{
    if !(0 <= i < marks.len() && marks[i]) {
        let k = choose|k: int| 0 <= k < queue.len() && #[trigger] queue[k] == i;
        assert(queue.drop_last()[k] == i);
    }
}

proof fn lemma_known_after_push(marks: Seq<bool>, queue: Seq<usize>, q: usize, i: int)
    requires
        known(marks, queue, i),
    ensures
        known(marks, queue.push(q), i),
{
    if !(0 <= i < marks.len() && marks[i]) {
        let k = choose|k: int| 0 <= k < queue.len() && #[trigger] queue[k] == i;
        assert(queue.push(q)[k] == i);
    }
}

/// Entry `i` is a listed `.rs` file that no declaration reaches.
pub open spec fn orphan(tree: SourceTree, i: int) -> bool {
    0 <= i < tree.files@.len() && tree.files@[i].listed && !reached(tree, node(tree, i))
}

/// Report every listed file that no chain of declarations reaches, and every
/// declaration in a reached file that leads nowhere. Without a source
/// directory there is nothing to report.
pub fn find_unreachable_in_crate(tree: &SourceTree) -> (report: Report)
    ensures
        text_set::ascending(Order::Paths, report.unreachable@),
        text_set::ascending(Order::Names, report.unresolved@),
        forall|x: Seq<char>| #[trigger]
            text_set::holds(report.unreachable@, x) <==> tree.is_dir && exists|i: int| #[trigger]
                orphan(*tree, i) && tree.files@[i].path@ == x,
        forall|x: Seq<char>| #[trigger]
            text_set::holds(report.unresolved@, x) <==> tree.is_dir && exists|i: int|
                0 <= i < tree.files@.len() && reached(*tree, i) && #[trigger] dangles(*tree, i, x),
{
    let mut report = Report::default();
    if !tree.is_dir {
        return report;
    }
    let (visited, unresolved) = reachable(tree);
    report.unresolved = unresolved;

    let mut unreachable: Vec<String> = Vec::new();
    let mut f: usize = 0;
    while f < tree.files.len()
        invariant
            f <= tree.files.len(),
            visited@.len() == tree.files@.len(),
            forall|i: int|
                0 <= i < tree.files@.len() ==> #[trigger] visited@[i] == reached(*tree, i),
            text_set::ascending(Order::Paths, unreachable@),
            forall|x: Seq<char>| #[trigger]
                text_set::holds(unreachable@, x) <==> exists|i: int|
                    i < f && #[trigger] orphan(*tree, i) && tree.files@[i].path@ == x,
        decreases tree.files.len() - f,
    {
        let ghost before = unreachable@;
        if tree.files[f].listed && !visited[tree.node_of(f)] {
            text_set::insert(Order::Paths, &mut unreachable, &tree.files[f].path);
            assert(orphan(*tree, f as int));
        } else {
            assert(!orphan(*tree, f as int));
        }
        proof {
            assert forall|x: Seq<char>| #[trigger]
                text_set::holds(unreachable@, x) <==> exists|i: int|
                    i < f + 1 && #[trigger] orphan(*tree, i) && tree.files@[i].path@ == x by {
                if text_set::holds(before, x) {
                    let i = choose|i: int|
                        i < f && #[trigger] orphan(*tree, i) && tree.files@[i].path@ == x;
                    assert(i < f + 1 && orphan(*tree, i) && tree.files@[i].path@ == x);
                }
                if exists|i: int|
                    i < f + 1 && #[trigger] orphan(*tree, i) && tree.files@[i].path@ == x {
                    let i = choose|i: int|
                        i < f + 1 && #[trigger] orphan(*tree, i) && tree.files@[i].path@ == x;
                    if i < f {
                        assert(text_set::holds(before, x));
                    }
                }
            }
        }
        f += 1;
    }
    report.unreachable = unreachable;
    report
}

/// The roots of the crate, and every file that a reached file declares, are
/// never flagged.
pub proof fn law_declared_files_are_not_flagged(tree: SourceTree, i: int, j: int)
    requires
        0 <= j < tree.files@.len(),
        root(tree, node(tree, j)) || (reached(tree, i) && leads(tree, i, node(tree, j))),
    ensures
        !orphan(tree, j),
{
    if root(tree, node(tree, j)) {
        lemma_reached_root(tree, node(tree, j));
    } else {
        lemma_reached_step(tree, i, node(tree, j));
    }
}

/// A listed file that is no root and that no reached file declares is flagged.
pub proof fn law_undeclared_files_are_flagged(tree: SourceTree, j: int)
    requires
        0 <= j < tree.files@.len(),
        tree.files@[j].listed,
        !root(tree, node(tree, j)),
        forall|i: int| reached(tree, i) ==> !#[trigger] leads(tree, i, node(tree, j)),
    ensures
        orphan(tree, j),
{
    if reached(tree, node(tree, j)) {
        let path = choose|path: Seq<int>| #[trigger]
            chain(tree, path) && path.last() == node(tree, j);
        if path.len() == 1 {
            assert(root(tree, path[0]));
        } else {
            let n = path.len() - 1;
            let shorter = path.drop_last();
            assert forall|k: int| 0 < k < shorter.len() implies leads(
                tree,
                shorter[k - 1],
                #[trigger] shorter[k],
            ) by {
                assert(leads(tree, path[k - 1], path[k]));
            }
            assert(chain(tree, shorter));
            assert(shorter.last() == path[n - 1]);
            assert(reached(tree, path[n - 1]));
            assert(leads(tree, path[n - 1], path[n]));
        }
    }
}

/// A report is clean exactly if every listed file is reached and every
/// declaration in a reached file leads to one.
pub proof fn law_clean_report(tree: SourceTree, unreachable: Seq<String>, unresolved: Seq<String>)
    requires
        tree.is_dir,
        forall|x: Seq<char>| #[trigger]
            text_set::holds(unreachable, x) <==> exists|i: int| #[trigger]
                orphan(tree, i) && tree.files@[i].path@ == x,
        forall|x: Seq<char>| #[trigger]
            text_set::holds(unresolved, x) <==> exists|i: int|
                0 <= i < tree.files@.len() && reached(tree, i) && #[trigger] dangles(tree, i, x),
    ensures
        unreachable.len() == 0 && unresolved.len() == 0 <==> (forall|i: int|
            !#[trigger] orphan(tree, i)) && (forall|i: int, x: Seq<char>|
            0 <= i < tree.files@.len() && reached(tree, i) ==> !#[trigger] dangles(tree, i, x)),
{
    if unreachable.len() > 0 {
        assert(text_set::holds(unreachable, unreachable[0]@));
    }
    if unresolved.len() > 0 {
        assert(text_set::holds(unresolved, unresolved[0]@));
    }
    assert forall|i: int| #[trigger] orphan(tree, i) implies unreachable.len() > 0 by {
        assert(text_set::holds(unreachable, tree.files@[i].path@));
    }
    assert forall|i: int, x: Seq<char>|
        0 <= i < tree.files@.len() && reached(tree, i) && #[trigger] dangles(
            tree,
            i,
            x,
        ) implies unresolved.len() > 0 by {
        assert(text_set::holds(unresolved, x));
    }
}

} // verus!
