//! Paths as the change tracker reports them: text whose components are
//! separated by `/`.
//!
//! Only one operation is needed on them, the step from a file to the folder
//! that holds it. It is defined on every text, well-formed path or not, and
//! agrees with `std::path::PathBuf::pop` on Unix.

use vstd::prelude::*;
use vstd::string::StrSliceExecFns;
use crate::text::chars_of;

verus! {

/// The character that separates the components of a path.
pub const SEPARATOR: char = '/';

/// A component of `s` ends just before position `k`.
///
/// A component is a maximal run of characters other than the separator.
/// A run that is a single `.` names nothing and is no component, unless the
/// path starts with it.
pub open spec fn ends_component(s: Seq<char>, k: int) -> bool {
    &&& 0 < k <= s.len()
    &&& s[k - 1] != SEPARATOR
    &&& (k == s.len() || s[k] == SEPARATOR)
    &&& !(s[k - 1] == '.' && k >= 2 && s[k - 2] == SEPARATOR)
}

/// The end of the last component of `s` that ends at or before `n`, or 0
/// where there is none.
pub open spec fn last_component_end(s: Seq<char>, n: int) -> int
    decreases n,
{
    if n <= 0 {
        0
    } else if ends_component(s, n) {
        n
    } else {
        last_component_end(s, n - 1)
    }
}

/// The start of the run of non-separators that ends just before `k`.
pub open spec fn run_start(s: Seq<char>, k: int) -> int
    decreases k,
{
    if k <= 0 {
        0
    } else if s[k - 1] == SEPARATOR {
        k
    } else {
        run_start(s, k - 1)
    }
}

/// The length of the root of `s`: 1 for an absolute path, 0 for a relative one.
pub open spec fn root_len(s: Seq<char>) -> int {
    if s.len() > 0 && s[0] == SEPARATOR {
        1
    } else {
        0
    }
}

/// The length of the parent of `s`.
///
/// A path without components (the empty path, the root) is its own parent.
/// Otherwise the parent ends where the component before the last one ends,
/// and is the bare root where the last component is the only one.
pub open spec fn parent_len(s: Seq<char>) -> int {
    let end = last_component_end(s, s.len() as int);
    if end == 0 {
        s.len() as int
    } else {
        let before = last_component_end(s, run_start(s, end));
        if before > 0 {
            before
        } else {
            root_len(s)
        }
    }
}

/// `s` has a component: it names something.
pub open spec fn has_component(s: Seq<char>) -> bool {
    last_component_end(s, s.len() as int) > 0
}

/// `name` put below `base`.
pub open spec fn joined(base: Seq<char>, name: Seq<char>) -> Seq<char> {
    if name.len() > 0 && name[0] == SEPARATOR {
        name
    } else if base.len() > 0 && base.last() != SEPARATOR {
        base + seq![SEPARATOR] + name
    } else {
        base + name
    }
}

/// `name` is the name of a file or a folder: it is not empty, holds no
/// separator and is not the `.` that names nothing.
pub open spec fn is_name(name: Seq<char>) -> bool {
    &&& name.len() > 0
    &&& forall|i: int| 0 <= i < name.len() ==> name[i] != SEPARATOR
    &&& name != seq!['.']
}

/// `s` ends where a folder's path ends: it is empty, or the bare root, or
/// ends with a component.
pub open spec fn ends_tidily(s: Seq<char>) -> bool {
    s.len() == 0 || s == seq![SEPARATOR] || ends_component(s, s.len() as int)
}

/// The parent of `s`: `s` without its last component and without the
/// separators in front of it.
pub open spec fn parent_of(s: Seq<char>) -> Seq<char> {
    s.take(parent_len(s))
}

/// Tells whether a component of `s` ends just before position `k`.
fn is_component_end(s: &Vec<char>, k: usize) -> (yes: bool)
    requires
        0 < k <= s.len(),
    ensures
        yes == ends_component(s@, k as int),
{
    s[k - 1] != SEPARATOR && (k == s.len() || s[k] == SEPARATOR) && !(s[k - 1] == '.' && k >= 2
        && s[k - 2] == SEPARATOR)
}

/// Finds the end of the last component of `s` that ends at or before `n`.
fn find_component_end(s: &Vec<char>, n: usize) -> (end: usize)
    requires
        n <= s.len(),
    ensures
        end == last_component_end(s@, n as int),
        end <= n,
{
    let mut k: usize = n;
    while k > 0
        invariant
            k <= n <= s.len(),
            last_component_end(s@, n as int) == last_component_end(s@, k as int),
        decreases k,
    {
        if is_component_end(s, k) {
            return k;
        }
        k -= 1;
    }
    0
}

/// Finds the start of the run of non-separators that ends just before `k`.
fn find_run_start(s: &Vec<char>, k: usize) -> (start: usize)
    requires
        k <= s.len(),
    ensures
        start == run_start(s@, k as int),
        start <= k,
{
    let mut i: usize = k;
    while i > 0 && s[i - 1] != SEPARATOR
        invariant
            i <= k <= s.len(),
            run_start(s@, k as int) == run_start(s@, i as int),
        decreases i,
    {
        i -= 1;
    }
    i
}

/// The folder that holds `path`, where `path` names anything: `path` without
/// its last component.
pub fn proper_parent(path: &str) -> (folder: Option<String>)
    ensures
        folder is Some <==> has_component(path@),
        folder matches Some(text) ==> text@ == parent_of(path@),
{
    let chars = chars_of(path);
    let end: usize = find_component_end(&chars, chars.len());
    if end == 0 {
        return None;
    }
    let start: usize = find_run_start(&chars, end);
    let before: usize = find_component_end(&chars, start);
    let cut: usize = if before > 0 {
        before
    } else if chars[0] == SEPARATOR {
        1
    } else {
        0
    };
    Some(path.substring_char(0, cut).to_owned())
}

/// The folder that holds `path`: `path` without its last component, and
/// `path` itself where it has none.
pub fn parent(path: &str) -> (folder: String)
    ensures
        folder@ == parent_of(path@),
{
    match proper_parent(path) {
        Some(folder) => folder,
        None => {
            proof {
                lemma_last_component_end(path@, path@.len() as int);
                assert(path@.take(parent_len(path@)) =~= path@);
            }
            path.to_owned()
        },
    }
}

/// `name` put below `base`. A name that starts at the root stands for
/// itself; else the two are joined, with a separator between them where
/// `base` does not end in one.
pub fn join(base: &str, name: &str) -> (path: String)
    ensures
        path@ == joined(base@, name@),
{
    if name.unicode_len() > 0 && name.get_char(0) == SEPARATOR {
        return name.to_owned();
    }
    let n: usize = base.unicode_len();
    let mut path = base.to_owned();
    if n > 0 && base.get_char(n - 1) != SEPARATOR {
        proof {
            reveal_strlit("/");
            assert("/"@ =~= seq![SEPARATOR]);
        }
        path.append("/");
    }
    path.append(name);
    path
}

/// Where the search for a component ends: within the part that was searched,
/// and at the end of a component if anywhere.
pub proof fn lemma_last_component_end(s: Seq<char>, n: int)
    requires
        0 <= n <= s.len(),
    ensures
        0 <= last_component_end(s, n) <= n,
        last_component_end(s, n) > 0 ==> ends_component(s, last_component_end(s, n)),
        forall|k: int|
            last_component_end(s, n) < k <= n ==> !ends_component(s, k),
    decreases n,
{
    if n > 0 && !ends_component(s, n) {
        lemma_last_component_end(s, n - 1);
    }
}

/// A run starts at or before its end, and before it where the character in
/// front of the end is no separator. It holds no separator, and it starts
/// the path or follows a separator.
pub proof fn lemma_run_start(s: Seq<char>, k: int)
    requires
        0 <= k <= s.len(),
    ensures
        0 <= run_start(s, k) <= k,
        k > 0 && s[k - 1] != SEPARATOR ==> run_start(s, k) < k,
        forall|j: int| run_start(s, k) <= j < k ==> s[j] != SEPARATOR,
        run_start(s, k) == 0 || s[run_start(s, k) - 1] == SEPARATOR,
    decreases k,
{
    if k > 0 && s[k - 1] != SEPARATOR {
        lemma_run_start(s, k - 1);
    }
}

/// The parent of a path is the path cut short: the whole of it where it has
/// no component, less than that where it has one.
pub proof fn lemma_parent_is_prefix(s: Seq<char>)
    ensures
        0 <= parent_len(s) <= s.len(),
        parent_of(s).is_prefix_of(s),
        !has_component(s) ==> parent_of(s) == s,
        has_component(s) ==> parent_of(s).len() < s.len(),
{
    let end = last_component_end(s, s.len() as int);
    lemma_last_component_end(s, s.len() as int);
    if end > 0 {
        let start = run_start(s, end);
        lemma_run_start(s, end);
        lemma_last_component_end(s, start);
    }
    assert(s.take(s.len() as int) =~= s);
}

/// The step to the parent takes exactly one component away, and leaves the
/// path of a folder: empty, or the bare root, or ending with a component.
pub proof fn lemma_parent_loses_one_component(s: Seq<char>)
    requires
        has_component(s),
    ensures
        ends_tidily(parent_of(s)),
        forall|k: int|
            parent_len(s) < k <= s.len() ==> (ends_component(s, k) <==> k == last_component_end(
                s,
                s.len() as int,
            )),
{
    let end = last_component_end(s, s.len() as int);
    lemma_last_component_end(s, s.len() as int);
    let start = run_start(s, end);
    lemma_run_start(s, end);
    let before = last_component_end(s, start);
    lemma_last_component_end(s, start);
    let parent = parent_of(s);
    if before > 0 {
        assert(ends_component(parent, before));
    } else if root_len(s) == 1 {
        assert(parent =~= seq![SEPARATOR]);
    }
}

/// A run of non-separators that starts at `start` is found to start there.
proof fn lemma_run_start_is(s: Seq<char>, start: int, end: int)
    requires
        0 <= start <= end <= s.len(),
        forall|j: int| start <= j < end ==> s[j] != SEPARATOR,
        start == 0 || s[start - 1] == SEPARATOR,
    ensures
        run_start(s, end) == start,
    decreases end - start,
{
    if start < end {
        lemma_run_start_is(s, start, end - 1);
    }
}

/// What is put below a folder has that folder as its parent.
pub proof fn lemma_parent_of_joined(base: Seq<char>, name: Seq<char>)
    requires
        is_name(name),
        ends_tidily(base),
    ensures
        has_component(joined(base, name)),
        parent_of(joined(base, name)) == base,
{
    let s = joined(base, name);
    let n = s.len() as int;
    let start = n - name.len();
    assert(forall|j: int| start <= j < n ==> s[j] == name[j - start]);
    assert(ends_component(s, n)) by {
        if name.len() == 1 {
            assert(name =~= seq![name[0]]);
        }
    }
    lemma_run_start_is(s, start, n);
    reveal_with_fuel(last_component_end, 3);
    if base.len() == 0 {
        assert(s.take(0) =~= base);
    } else if base == seq![SEPARATOR] {
        assert(s.take(1) =~= base);
    } else {
        assert(s.take(base.len() as int) =~= base);
    }
}

} // verus!
