//! What holds of the reachability of files on every source tree.

use vstd::prelude::*;

use crate::module_tree_check as check;
use crate::module_tree_check::paths;
use crate::module_tree_check::scanner;
use crate::module_tree_check::text_set;
use crate::module_tree_check::text_set::Order;
use crate::module_tree_check::SourceTree;

verus! {

/// There is a file under `path`.
pub open spec fn file_under(tree: SourceTree, path: Seq<char>) -> bool {
    exists|j: int|
        0 <= j < tree.files@.len() && (#[trigger] tree.files@[j]).is_file && tree.files@[j].path@
            == path
}

/// All that stands under `path` is the file on disk of entry `j`, which is under
/// it.
pub open spec fn is_under(tree: SourceTree, path: Seq<char>, j: int) -> bool {
    &&& 0 <= j < tree.files@.len()
    &&& tree.files@[j].is_file
    &&& tree.files@[j].path@ == path
    &&& forall|k: int|
        0 <= k < tree.files@.len() && (#[trigger] tree.files@[k]).path@ == path
            ==> tree.files@[k].canonical@ == tree.files@[j].canonical@
}

/// A directory that is written out: not empty, and with neither a slash nor a
/// lone dot at its end.
pub open spec fn written_out(dir: Seq<char>) -> bool {
    dir.len() > 0 && dir.last() != '/' && !paths::ends_in_dot(dir)
}

/// Entry `i` is the file `base` in the directory `dir`.
pub open spec fn stands_in(tree: SourceTree, i: int, dir: Seq<char>, base: Seq<char>) -> bool {
    &&& 0 <= i < tree.files@.len()
    &&& written_out(dir)
    &&& base.len() > 0
    &&& !paths::ends_in_dot(base)
    &&& forall|k: int| 0 <= k < base.len() ==> base[k] != '/'
    &&& tree.files@[i].canonical@ == dir + seq!['/'] + base
}

/// Entries of one file on disk are told by one of them, which is of that file
/// too; entries of different files by different ones.
pub proof fn law_one_entry_per_file(tree: SourceTree, i: int, j: int)
    requires
        0 <= i < tree.files@.len(),
        0 <= j < tree.files@.len(),
    ensures
        0 <= check::node(tree, i) <= i,
        tree.files@[check::node(tree, i)].canonical@ == tree.files@[i].canonical@,
        check::node(tree, i) == check::node(tree, j) <==> tree.files@[i].canonical@
            == tree.files@[j].canonical@,
{
    lemma_node(tree, i, i);
    lemma_node(tree, j, j);
    let a = check::node(tree, i);
    let b = check::node(tree, j);
    if tree.files@[i].canonical@ == tree.files@[j].canonical@ {
        if a < b {
            assert(!check::same_file(tree, j, a));
        } else if b < a {
            assert(!check::same_file(tree, i, b));
        }
    }
}

/// There is a first entry of the same file, at or before `n`.
proof fn lemma_node(tree: SourceTree, i: int, n: int)
    requires
        0 <= n <= i < tree.files@.len(),
        check::same_file(tree, i, n),
    ensures
        check::first_same_at(tree, i, check::node(tree, i)),
    decreases n,
{
    if exists|k: int| 0 <= k < n && #[trigger] check::same_file(tree, i, k) {
        let k = choose|k: int| 0 <= k < n && #[trigger] check::same_file(tree, i, k);
        lemma_node(tree, i, k);
    } else {
        assert(check::first_same_at(tree, i, n));
    }
}

proof fn lemma_first_file(tree: SourceTree, path: Seq<char>, n: int)
    requires
        check::file_at(tree, path, n),
    ensures
        exists|i: int| check::first_file_at(tree, path, i),
    decreases n,
{
    if exists|k: int| 0 <= k < n && #[trigger] check::file_at(tree, path, k) {
        let k = choose|k: int| 0 <= k < n && #[trigger] check::file_at(tree, path, k);
        lemma_first_file(tree, path, k);
    } else {
        assert(check::first_file_at(tree, path, n));
    }
}

/// A path leads somewhere exactly if there is a file under it, and then to one.
pub proof fn law_paths_lead_to_files(tree: SourceTree, path: Seq<char>)
    ensures
        check::lookup(tree, path) is Some <==> file_under(tree, path),
        check::lookup(tree, path) matches Some(i) ==> 0 <= i < tree.files@.len()
            && tree.files@[i].is_file && tree.files@[i].path@ == path,
{
    if file_under(tree, path) {
        let j = choose|j: int|
            0 <= j < tree.files@.len() && (#[trigger] tree.files@[j]).is_file
                && tree.files@[j].path@ == path;
        assert(check::file_at(tree, path, j));
        lemma_first_file(tree, path, j);
    }
    if check::lookup(tree, path) is Some {
        let i = check::lookup(tree, path)->0;
        assert(check::first_file_at(tree, path, i));
        assert(tree.files@[i].is_file);
    }
}

/// Joining: a slash stands between a directory and what is looked up in it, and
/// there is only one; the empty directory adds nothing, and an absolute path
/// stands for itself.
pub proof fn law_joining(dir: Seq<char>, rest: Seq<char>)
    ensures
        rest.len() > 0 && rest[0] == '/' ==> paths::join(dir, rest) == rest,
        !(rest.len() > 0 && rest[0] == '/') && dir.len() == 0 ==> paths::join(dir, rest) == rest,
        !(rest.len() > 0 && rest[0] == '/') && dir.len() > 0 && dir.last() == '/' ==> paths::join(
            dir,
            rest,
        ) == dir + rest,
        !(rest.len() > 0 && rest[0] == '/') && dir.len() > 0 && dir.last() != '/' ==> paths::join(
            dir,
            rest,
        ) == dir + seq!['/'] + rest,
{
    assert(dir.push('/') + rest =~= dir + seq!['/'] + rest);
    if dir.len() == 0 {
        assert(dir + rest =~= rest);
    }
}

proof fn lemma_places(
    tree: SourceTree,
    i: int,
    dir: Seq<char>,
    base: Seq<char>,
    name: Seq<char>,
)
    requires
        stands_in(tree, i, dir, base),
        scanner::ident(name),
    ensures
        paths::parent(tree.files@[i].canonical@) == Some(dir),
        paths::join(dir, name + ".rs"@) == dir + seq!['/'] + name + ".rs"@,
        paths::join(paths::join(dir, name), "mod.rs"@) == dir + seq!['/'] + name + "/mod.rs"@,
{
    reveal_strlit(".rs");
    reveal_strlit("mod.rs");
    reveal_strlit("/mod.rs");
    law_joining(dir, base);
    paths::law_parent_of_joined(dir, base);
    assert(scanner::word_char(name[0]));
    assert(scanner::word_char(name[name.len() - 1]));
    assert((name + ".rs"@)[0] == name[0]);
    law_joining(dir, name + ".rs"@);
    assert(dir + seq!['/'] + (name + ".rs"@) =~= dir + seq!['/'] + name + ".rs"@);
    law_joining(dir, name);
    let inner = dir + seq!['/'] + name;
    assert(inner.last() == name.last());
    law_joining(inner, "mod.rs"@);
    assert("mod.rs"@[0] == 'm');
    assert(seq!['/'] + "mod.rs"@ =~= "/mod.rs"@);
    assert(inner + seq!['/'] + "mod.rs"@ =~= inner + "/mod.rs"@);
}

/// A declaration of `NAME` in a file leads to `NAME.rs` beside it where that is
/// a file; where it is not, to `NAME/mod.rs`; and nowhere exactly if neither is.
pub proof fn law_declarations_are_looked_up(
    tree: SourceTree,
    i: int,
    dir: Seq<char>,
    base: Seq<char>,
    name: Seq<char>,
    j: int,
)
    requires
        stands_in(tree, i, dir, base),
        scanner::ident(name),
    ensures
        ({
            let flat = dir + seq!['/'] + name + ".rs"@;
            let nested = dir + seq!['/'] + name + "/mod.rs"@;
            let target = check::resolved(tree, i, name);
            &&& target is None <==> !file_under(tree, flat) && !file_under(tree, nested)
            &&& is_under(tree, flat, j) ==> target == Some(check::node(tree, j))
            &&& !file_under(tree, flat) && is_under(tree, nested, j) ==> target == Some(
                check::node(tree, j),
            )
        }),
{
    lemma_places(tree, i, dir, base, name);
    let flat = dir + seq!['/'] + name + ".rs"@;
    let nested = dir + seq!['/'] + name + "/mod.rs"@;
    law_paths_lead_to_files(tree, flat);
    law_paths_lead_to_files(tree, nested);
    if is_under(tree, flat, j) {
        assert(tree.files@[j].is_file);
        assert(file_under(tree, flat));
        law_one_entry_per_file(tree, check::lookup(tree, flat)->0, j);
    }
    if is_under(tree, nested, j) {
        assert(tree.files@[j].is_file);
        assert(file_under(tree, nested));
        law_one_entry_per_file(tree, check::lookup(tree, nested)->0, j);
    }
}

/// The same of every file, wherever it stands: its directory is the parent of its
/// path, and a file without one leads nowhere.
pub proof fn law_declarations_anywhere(
    tree: SourceTree,
    i: int,
    dir: Seq<char>,
    name: Seq<char>,
    j: int,
)
    requires
        0 <= i < tree.files@.len(),
    ensures
        ({
            let flat = paths::join(dir, name + ".rs"@);
            let nested = paths::join(paths::join(dir, name), "mod.rs"@);
            let target = check::resolved(tree, i, name);
            let stands = paths::parent(tree.files@[i].canonical@) == Some(dir);
            &&& paths::parent(tree.files@[i].canonical@) is None ==> target is None
            &&& stands ==> (target is None <==> !file_under(tree, flat) && !file_under(
                tree,
                nested,
            ))
            &&& stands && is_under(tree, flat, j) ==> target == Some(check::node(tree, j))
            &&& stands && !file_under(tree, flat) && is_under(tree, nested, j) ==> target == Some(
                check::node(tree, j),
            )
        }),
{
    let flat = paths::join(dir, name + ".rs"@);
    let nested = paths::join(paths::join(dir, name), "mod.rs"@);
    law_paths_lead_to_files(tree, flat);
    law_paths_lead_to_files(tree, nested);
    if is_under(tree, flat, j) {
        assert(tree.files@[j].is_file);
        assert(file_under(tree, flat));
        law_one_entry_per_file(tree, check::lookup(tree, flat)->0, j);
    }
    if is_under(tree, nested, j) {
        assert(tree.files@[j].is_file);
        assert(file_under(tree, nested));
        law_one_entry_per_file(tree, check::lookup(tree, nested)->0, j);
    }
}

/// `lib.rs` and `main.rs` of the source directory are roots, and no other file
/// is.
pub proof fn law_roots(tree: SourceTree, j: int)
    requires
        written_out(tree.src_dir@),
        0 <= j < tree.files@.len(),
    ensures
        ({
            let lib = tree.src_dir@ + "/lib.rs"@;
            let main = tree.src_dir@ + "/main.rs"@;
            &&& is_under(tree, lib, j) || is_under(tree, main, j) ==> check::root(
                tree,
                check::node(tree, j),
            )
            &&& check::root(tree, check::node(tree, j)) ==> exists|k: int|
                0 <= k < tree.files@.len() && (#[trigger] tree.files@[k]).is_file && (
                tree.files@[k].path@ == lib || tree.files@[k].path@ == main)
                    && tree.files@[k].canonical@ == tree.files@[j].canonical@
        }),
{
    reveal_strlit("lib.rs");
    reveal_strlit("main.rs");
    reveal_strlit("/lib.rs");
    reveal_strlit("/main.rs");
    let dir = tree.src_dir@;
    let lib = dir + "/lib.rs"@;
    let main = dir + "/main.rs"@;
    law_joining(dir, "lib.rs"@);
    law_joining(dir, "main.rs"@);
    assert(dir + seq!['/'] + "lib.rs"@ =~= lib);
    assert(dir + seq!['/'] + "main.rs"@ =~= main);
    law_paths_lead_to_files(tree, lib);
    law_paths_lead_to_files(tree, main);
    if is_under(tree, lib, j) {
        assert(tree.files@[j].is_file);
        law_one_entry_per_file(tree, check::lookup(tree, lib)->0, j);
    }
    if is_under(tree, main, j) {
        assert(tree.files@[j].is_file);
        law_one_entry_per_file(tree, check::lookup(tree, main)->0, j);
    }
    if check::root(tree, check::node(tree, j)) {
        if check::lookup(tree, lib) is Some && check::node(tree, check::lookup(tree, lib)->0)
            == check::node(tree, j) {
            let k = check::lookup(tree, lib)->0;
            law_one_entry_per_file(tree, k, j);
            assert(tree.files@[k].is_file);
        } else {
            let k = check::lookup(tree, main)->0;
            law_one_entry_per_file(tree, k, j);
            assert(tree.files@[k].is_file);
        }
    }
}

/// What the report flags and what it does not: only listed files, and of those
/// exactly the ones that are not reached; and of the names that a reached file
/// declares, exactly the ones that lead nowhere.
pub proof fn law_what_is_flagged(tree: SourceTree, i: int, name: Seq<char>)
    ensures
        check::orphan(tree, i) ==> 0 <= i < tree.files@.len() && tree.files@[i].listed,
        0 <= i < tree.files@.len() && tree.files@[i].listed ==> (check::orphan(tree, i)
            <==> !check::reached(tree, check::node(tree, i))),
        check::dangles(tree, i, name) <==> check::names_in(tree, i).contains(name)
            && check::resolved(tree, i, name) is None,
        tree.files@[i].text is None ==> check::names_in(tree, i).len() == 0,
        tree.files@[i].text matches Some(text) ==> check::names_in(tree, i) == scanner::declared(
            text@,
        ),
{
}

/// Neither the root nor a file beside it whose name it declares is flagged, and
/// the declaration is not reported.
pub proof fn law_declared_beside_the_root(
    tree: SourceTree,
    lib: int,
    j: int,
    name: Seq<char>,
)
    requires
        stands_in(tree, lib, tree.src_dir@, "lib.rs"@),
        is_under(tree, tree.src_dir@ + "/lib.rs"@, lib),
        forall|k: int|
            0 <= k < lib ==> (#[trigger] tree.files@[k]).canonical@
                != tree.files@[lib].canonical@,
        tree.files@[lib].text is Some,
        scanner::declared(tree.files@[lib].text->0@).contains(name),
        scanner::ident(name),
        is_under(tree, tree.src_dir@ + seq!['/'] + name + ".rs"@, j),
    ensures
        !check::orphan(tree, lib),
        !check::orphan(tree, j),
        check::reached(tree, check::node(tree, j)),
        !check::dangles(tree, lib, name),
{
    law_one_entry_per_file(tree, lib, lib);
    let n = check::node(tree, lib);
    assert(n == lib) by {
        if n < lib {
            assert(tree.files@[n].canonical@ != tree.files@[lib].canonical@);
        }
    }
    law_roots(tree, lib);
    law_declarations_are_looked_up(tree, lib, tree.src_dir@, "lib.rs"@, name, j);
    assert(tree.files@[j].is_file);
    check::law_declared_files_are_not_flagged(tree, lib, lib);
    let names = check::names_in(tree, lib);
    let k = choose|k: int| 0 <= k < names.len() && names[k] == name;
    assert(check::resolved(tree, lib, names[k]) == Some(check::node(tree, j)));
    assert(check::leads(tree, lib, check::node(tree, j)));
    let path = seq![lib];
    assert(check::chain(tree, path));
    assert(path.last() == lib);
    assert(check::reached(tree, lib));
    check::law_declared_files_are_not_flagged(tree, lib, j);
    let longer = seq![lib, check::node(tree, j)];
    assert forall|m: int| 0 < m < longer.len() implies check::leads(
        tree,
        longer[m - 1],
        #[trigger] longer[m],
    ) by {
        assert(m == 1);
    }
    assert(check::chain(tree, longer));
    assert(longer.last() == check::node(tree, j));
}

/// A list holds a text exactly if it stands at some place, and it is in order
/// exactly if no text comes before one that stands earlier, or again.
pub proof fn law_lists(order: Order, list: Seq<String>, text: Seq<char>, i: int, j: int)
    ensures
        text_set::holds(list, text) <==> exists|k: int|
            0 <= k < list.len() && (#[trigger] list[k])@ == text,
        text_set::ascending(order, list) && 0 <= i < j < list.len() ==> text_set::precedes(
            order,
            list[i]@,
            list[j]@,
        ) && list[i]@ != list[j]@,
        scanner::views(list).len() == list.len(),
        0 <= i < list.len() ==> scanner::views(list)[i] == list[i]@,
{
    if text_set::ascending(order, list) && 0 <= i < j < list.len() {
        assert(text_set::precedes(order, list[i]@, list[j]@));
        lemma_irreflexive(order, list[i]@);
    }
}

proof fn lemma_irreflexive(order: Order, text: Seq<char>)
    ensures
        !text_set::precedes(order, text, text),
    decreases text.len(),
{
    if text.len() > 0 {
        lemma_irreflexive(order, text.skip(1));
    }
}

/// Two texts agree up to place `k`.
pub open spec fn agree(a: Seq<char>, b: Seq<char>, k: int) -> bool {
    0 <= k <= a.len() && k <= b.len() && forall|i: int| 0 <= i < k ==> a[i] == b[i]
}

/// How texts are ordered: at the first place where they differ, the one that ends
/// there comes first, or the one with the lower character, a slash being the
/// lowest of a path.
pub proof fn law_order(order: Order, a: Seq<char>, b: Seq<char>, k: int)
    requires
        agree(a, b, k),
        k < a.len() && k < b.len() ==> a[k] != b[k],
    ensures
        k == a.len() ==> (text_set::precedes(order, a, b) <==> k < b.len()),
        k < a.len() && k == b.len() ==> !text_set::precedes(order, a, b),
        k < a.len() && k < b.len() && order is Names ==> (text_set::precedes(order, a, b)
            <==> a[k] < b[k]),
        k < a.len() && k < b.len() && order is Paths ==> (text_set::precedes(order, a, b)
            <==> b[k] != '/' && (a[k] == '/' || a[k] < b[k])),
    decreases k,
{
    if k > 0 {
        assert(a[0] == b[0]);
        let (c, d) = (a.skip(1), b.skip(1));
        assert forall|i: int| 0 <= i < k - 1 implies c[i] == d[i] by {
            assert(a[i + 1] == b[i + 1]);
        }
        law_order(order, c, d, k - 1);
        if k < a.len() {
            assert(c[k - 1] == a[k]);
        }
        if k < b.len() {
            assert(d[k - 1] == b[k]);
        }
    } else if a.len() > 0 && b.len() > 0 {
        lemma_rank(order, a[0]);
        lemma_rank(order, b[0]);
    }
}

proof fn lemma_rank(order: Order, c: char)
    ensures
        order is Paths && c == '/' ==> text_set::rank(order, c) == -1,
        !(order is Paths && c == '/') ==> text_set::rank(order, c) == c as int && c as int >= 0,
{
}

} // verus!
