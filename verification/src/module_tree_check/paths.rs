//! Paths as texts with slashes: the parent of a path, and joining two.

use vstd::prelude::*;

use crate::module_tree_check::scanner;

verus! {

/// Length of what stands before the components of a path: the slash of an
/// absolute path, or a dot that is a component of its own.
pub open spec fn lead(path: Seq<char>) -> int {
    if path.len() > 0 && (path[0] == '/' || path[0] == '.' && (path.len() == 1 || path[1] == '/')) {
        1
    } else {
        0
    }
}

/// Where the last component of the first `end` characters ends: slashes behind
/// it do not count, nor do dots that are components of their own.
pub open spec fn component_end(path: Seq<char>, end: int) -> int
    decreases end,
{
    if end <= lead(path) || end <= 0 {
        end
    } else if path[end - 1] == '/' || end >= 2 && path[end - 1] == '.' && path[end - 2] == '/' {
        component_end(path, end - 1)
    } else {
        end
    }
}

/// Where the component that ends at `end` starts.
pub open spec fn component_start(path: Seq<char>, end: int) -> int
    decreases end,
{
    if end <= lead(path) || end <= 0 || path[end - 1] == '/' {
        end
    } else {
        component_start(path, end - 1)
    }
}

/// The path without its last component. The root, written with however many
/// slashes, and the empty path have none.
pub open spec fn parent(path: Seq<char>) -> Option<Seq<char>> {
    let end = component_end(path, path.len() as int);
    if end <= 0 {
        None
    } else if end <= lead(path) {
        if path[0] == '/' {
            None
        } else {
            Some(Seq::empty())
        }
    } else {
        Some(path.take(component_end(path, component_start(path, end))))
    }
}

/// `rest` looked up in `dir`: behind a slash, unless there is one or `dir` is
/// empty. A path that is absolute stands for itself.
pub open spec fn join(dir: Seq<char>, rest: Seq<char>) -> Seq<char> {
    if rest.len() > 0 && rest[0] == '/' {
        rest
    } else if dir.len() > 0 && dir.last() != '/' {
        dir.push('/') + rest
    } else {
        dir + rest
    }
}

fn lead_of(path: &Vec<char>) -> (n: usize)
    ensures
        n == lead(path@),
{
    if path.len() > 0 && (path[0] == '/' || path[0] == '.' && (path.len() == 1 || path[1] == '/')) {
        1
    } else {
        0
    }
}

fn component_end_of(path: &Vec<char>, end: usize) -> (e: usize)
    requires
        end <= path.len(),
    ensures
        e == component_end(path@, end as int),
        e <= end,
{
    let first: usize = lead_of(path);
    let mut e: usize = end;
    while e > first && (path[e - 1] == '/' || e >= 2 && path[e - 1] == '.' && path[e - 2] == '/')
        invariant
            first == lead(path@),
            e <= end <= path.len(),
            component_end(path@, e as int) == component_end(path@, end as int),
        decreases e,
    {
        e -= 1;
    }
    e
}

fn component_start_of(path: &Vec<char>, end: usize) -> (s: usize)
    requires
        end <= path.len(),
    ensures
        s == component_start(path@, end as int),
        s <= end,
{
    let first: usize = lead_of(path);
    let mut s: usize = end;
    while s > first && path[s - 1] != '/'
        invariant
            first == lead(path@),
            s <= end <= path.len(),
            component_start(path@, s as int) == component_start(path@, end as int),
        decreases s,
    {
        s -= 1;
    }
    s
}

/// The path without its last component, if it has one.
pub fn parent_of(path: &String) -> (dir: Option<String>)
    ensures
        match dir {
            Some(dir) => parent(path@) == Some(dir@),
            None => parent(path@) is None,
        },
{
    let chars: Vec<char> = scanner::chars_of(path.as_str());
    let end: usize = component_end_of(&chars, chars.len());
    if end == 0 {
        return None;
    }
    let mut keep: usize = 0;
    if end <= lead_of(&chars) {
        if chars[0] == '/' {
            return None;
        }
    } else {
        keep = component_end_of(&chars, component_start_of(&chars, end));
    }
    let dir: String = path.as_str().substring_char(0, keep).to_owned();
    proof {
        assert(path@.subrange(0, keep as int) =~= path@.take(keep as int));
        assert(path@.take(0) =~= Seq::empty());
    }
    Some(dir)
}

/// `rest` looked up in `dir`.
pub fn joined(dir: &String, rest: &str) -> (path: String)
    ensures
        path@ == join(dir@, rest@),
{
    let rest_chars: Vec<char> = scanner::chars_of(rest);
    if rest_chars.len() > 0 && rest_chars[0] == '/' {
        return rest.to_owned();
    }
    let dir_chars: Vec<char> = scanner::chars_of(dir.as_str());
    let mut path: String = dir.clone();
    if dir_chars.len() > 0 && dir_chars[dir_chars.len() - 1] != '/' {
        path.push('/');
    }
    path.append(rest);
    path
}

/// The empty path and the root, with any number of slashes, have no parent, and
/// every relative path but the empty one has one.
pub proof fn law_root_has_no_parent(path: Seq<char>)
    ensures
        parent(path) is None ==> path.len() == 0 || path[0] == '/',
        (forall|i: int| 0 <= i < path.len() ==> path[i] == '/') ==> parent(path) is None,
{
    if forall|i: int| 0 <= i < path.len() ==> path[i] == '/' {
        lemma_slashes_end(path, path.len() as int);
    }
    lemma_component_end(path, path.len() as int);
}

proof fn lemma_slashes_end(path: Seq<char>, end: int)
    requires
        0 <= end <= path.len(),
        forall|i: int| 0 <= i < path.len() ==> path[i] == '/',
    ensures
        component_end(path, end) <= lead(path),
    decreases end,
{
    if end > lead(path) {
        lemma_slashes_end(path, end - 1);
    }
}

proof fn lemma_component_end(path: Seq<char>, end: int)
    requires
        0 <= end <= path.len(),
    ensures
        component_end(path, end) <= end,
        end >= lead(path) ==> component_end(path, end) >= lead(path),
        end > 0 ==> component_end(path, end) > 0,
    decreases end,
{
    if end > lead(path) && (path[end - 1] == '/' || end >= 2 && path[end - 1] == '.' && path[end
        - 2] == '/') {
        lemma_component_end(path, end - 1);
    }
}

/// The last component of `path` is a lone dot.
pub open spec fn ends_in_dot(path: Seq<char>) -> bool {
    path.len() > 0 && path.last() == '.' && (path.len() == 1 || path[path.len() - 2] == '/')
}

/// A file in a directory, written plainly, has that directory as its parent.
pub proof fn law_parent_of_joined(dir: Seq<char>, name: Seq<char>)
    requires
        dir.len() > 0,
        dir.last() != '/',
        !ends_in_dot(dir),
        name.len() > 0,
        forall|i: int| 0 <= i < name.len() ==> name[i] != '/',
        !ends_in_dot(name),
    ensures
        parent(join(dir, name)) == Some(dir),
{
    let path = join(dir, name);
    let d = dir.len() as int;
    assert(path[0] == dir[0]);
    assert(path[d] == '/');
    assert forall|i: int| 0 <= i < name.len() implies path[d + 1 + i] == name[i] by {}
    assert(path.last() == name.last());
    if name.len() > 1 {
        assert(path[path.len() - 2] == name[name.len() - 2]);
    }
    assert(component_end(path, path.len() as int) == path.len());
    if d > 1 {
        assert(path[d - 2] == dir[d - 2]);
        assert(path[1] == dir[1]);
    }
    lemma_name_start(path, d + 1, path.len() as int);
    reveal_with_fuel(component_end, 3);
    assert(path[d - 1] == dir.last());
    assert(lead(path) <= d);
    assert(component_end(path, d + 1) == component_end(path, d));
    assert(component_end(path, d) == d);
    assert(path.take(d) =~= dir);
}

proof fn lemma_name_start(path: Seq<char>, start: int, end: int)
    requires
        1 <= start <= end <= path.len(),
        path[start - 1] == '/',
        lead(path) <= start,
        forall|i: int| start <= i < end ==> path[i] != '/',
    ensures
        component_start(path, end) == start,
    decreases end,
{
    if end > start {
        lemma_name_start(path, start, end - 1);
    }
}

/// What stands between two components: slashes, and dots that are components of
/// their own.
pub open spec fn gap(text: Seq<char>) -> bool {
    &&& text.len() > 0
    &&& text[0] == '/'
    &&& text.last() == '/'
    &&& forall|i: int|
        0 <= i < text.len() ==> #[trigger] text[i] == '/' || i > 0 && text[i] == '.' && text[i - 1]
            == '/'
}

/// However wide the gap between a directory and a name, the directory is the
/// parent.
pub proof fn law_gaps_do_not_count(dir: Seq<char>, between: Seq<char>, name: Seq<char>)
    requires
        dir.len() > 0,
        dir.last() != '/',
        !ends_in_dot(dir),
        gap(between),
        name.len() > 0,
        forall|i: int| 0 <= i < name.len() ==> name[i] != '/',
        !ends_in_dot(name),
    ensures
        parent(dir + between + name) == Some(dir),
{
    let path = dir + between + name;
    let d = dir.len() as int;
    let g = between.len() as int;
    assert(path[0] == dir[0]);
    assert forall|i: int| 0 <= i < g implies path[d + i] == between[i] by {}
    assert forall|i: int| 0 <= i < name.len() implies path[d + g + i] == name[i] by {}
    assert(path[d] == '/');
    assert(path[d + g - 1] == '/');
    assert(path.last() == name.last());
    if name.len() > 1 {
        assert(path[path.len() - 2] == name[name.len() - 2]);
    }
    assert(path[d - 1] == dir.last());
    if d > 1 {
        assert(path[d - 2] == dir[d - 2]);
        assert(path[1] == dir[1]);
    }
    assert(lead(path) <= d);
    assert(component_end(path, path.len() as int) == path.len());
    lemma_name_start(path, d + g, path.len() as int);
    lemma_gap(path, d, g, between);
    assert(component_end(path, d) == d);
    assert(path.take(d) =~= dir);
}

proof fn lemma_gap(path: Seq<char>, d: int, n: int, between: Seq<char>)
    requires
        0 < d,
        0 <= n <= between.len(),
        d + between.len() <= path.len(),
        lead(path) <= d,
        gap(between),
        forall|i: int| 0 <= i < between.len() ==> path[d + i] == #[trigger] between[i],
    ensures
        component_end(path, d + n) == component_end(path, d),
    decreases n,
{
    if n > 0 {
        assert(path[d + (n - 1)] == between[n - 1]);
        if between[n - 1] != '/' {
            assert(path[d + (n - 2)] == between[n - 2]);
        }
        lemma_gap(path, d, n - 1, between);
    }
}

/// A slash at the end of a path, or a dot behind one, does not count.
pub proof fn law_trailing_slash(path: Seq<char>)
    requires
        path.len() > 0,
        lead(path) < path.len(),
    ensures
        parent(path + seq!['/']) == parent(path),
        parent(path + seq!['/', '.']) == parent(path),
{
    let once = path + seq!['/'];
    let dotted = path + seq!['/', '.'];
    let n = path.len() as int;
    assert(lead(once) == lead(path) && lead(dotted) == lead(path)) by {
        assert(once[0] == path[0] && dotted[0] == path[0]);
        if n > 1 {
            assert(once[1] == path[1] && dotted[1] == path[1]);
        }
    }
    assert(once[n] == '/');
    assert(dotted[n] == '/' && dotted[n + 1] == '.');
    reveal_with_fuel(component_end, 3);
    assert(component_end(once, n + 1) == component_end(once, n));
    assert(component_end(dotted, n + 2) == component_end(dotted, n));
    lemma_same_start(path, once, n);
    lemma_same_start(path, dotted, n);
    let end = component_end(path, n);
    lemma_component_end(path, n);
    lemma_same_start(path, once, end);
    lemma_same_start(path, dotted, end);
    lemma_component_start(path, end);
    let start = component_start(path, end);
    lemma_same_start(path, once, start);
    lemma_same_start(path, dotted, start);
    lemma_component_end(path, start);
    let keep = component_end(path, start);
    assert(once.take(keep) =~= path.take(keep));
    assert(dotted.take(keep) =~= path.take(keep));
}

proof fn lemma_component_start(path: Seq<char>, end: int)
    requires
        0 <= end <= path.len(),
    ensures
        0 <= component_start(path, end) <= end,
    decreases end,
{
    if !(end <= lead(path) || end <= 0 || path[end - 1] == '/') {
        lemma_component_start(path, end - 1);
    }
}

/// Where components start and end depends on what stands before.
proof fn lemma_same_start(path: Seq<char>, longer: Seq<char>, end: int)
    requires
        0 <= end <= path.len() <= longer.len(),
        lead(longer) == lead(path),
        forall|i: int| 0 <= i < path.len() ==> longer[i] == path[i],
    ensures
        component_end(longer, end) == component_end(path, end),
        component_start(longer, end) == component_start(path, end),
    decreases end,
{
    if end > 0 {
        lemma_same_start(path, longer, end - 1);
    }
}

/// A name on its own stands in the empty directory, and one behind the root's
/// slash in the root.
pub proof fn law_parent_of_a_name(name: Seq<char>)
    requires
        name.len() > 0,
        !ends_in_dot(name),
        forall|i: int| 0 <= i < name.len() ==> name[i] != '/',
    ensures
        parent(name) == Some(Seq::<char>::empty()),
        parent(seq!['/'] + name) == Some(seq!['/']),
{
    let n = name.len() as int;
    assert(lead(name) == 0);
    assert(component_end(name, n) == n);
    lemma_only_name(name, n);
    assert(name.take(0) =~= Seq::empty());
    assert(component_end(name, 0) == 0);
    let rooted = seq!['/'] + name;
    assert(rooted[0] == '/');
    assert forall|i: int| 0 <= i < n implies rooted[i + 1] == name[i] by {}
    assert(rooted.last() == name.last());
    assert(rooted[n] == name[n - 1]);
    if n > 1 {
        assert(rooted[n - 1] == name[n - 2]);
    }
    assert(component_end(rooted, n + 1) == n + 1);
    lemma_name_start(rooted, 1, n + 1);
    assert(component_end(rooted, 1) == 1);
    assert(rooted.take(1) =~= seq!['/']);
}

proof fn lemma_only_name(name: Seq<char>, end: int)
    requires
        0 <= end <= name.len(),
        lead(name) == 0,
        forall|i: int| 0 <= i < name.len() ==> name[i] != '/',
    ensures
        component_start(name, end) == 0,
    decreases end,
{
    if end > 0 {
        lemma_only_name(name, end - 1);
    }
}

} // verus!
