use vstd::prelude::*;

use crate::text::{chars_of, joined, joined3, owned, prefixed, starts_with};

verus! {

/// `base` joined with `part` as a path is joined, with `/` as separator: an
/// absolute `part` (one that begins with `/`) replaces `base`; otherwise a
/// separator is put between them unless `base` is empty or already ends with
/// one.
pub open spec fn path_joined(base: Seq<char>, part: Seq<char>) -> Seq<char> {
    if prefixed(part, "/"@) {
        part
    } else if base.len() == 0 || base.last() == '/' {
        base + part
    } else {
        base + "/"@ + part
    }
}

/// Joins `part` onto the path `base`.
pub fn path_join(base: &str, part: &str) -> (r: String)
    ensures
        r@ == path_joined(base@, part@),
{
    if starts_with(part, "/") {
        return owned(part);
    }
    let chars = chars_of(base);
    let n = chars.len();
    if n == 0 || chars[n - 1] == '/' {
        joined(base, part)
    } else {
        joined3(base, "/", part)
    }
}

/// Where a soul's memory file lives under a runtime root: the root joined
/// with `souls`, the soul, `memory` and `MEMORY.md`.
pub open spec fn memory_path(root: Seq<char>, soul: Seq<char>) -> Seq<char> {
    path_joined(
        path_joined(path_joined(path_joined(root, "souls"@), soul), "memory"@),
        "MEMORY.md"@,
    )
}

/// The memory file of a soul, given a runtime root.
pub fn soul_memory_file(runtime_root: &str, soul_id: &str) -> (r: String)
    ensures
        r@ == memory_path(runtime_root@, soul_id@),
{
    let souls = path_join(runtime_root, "souls");
    let soul = path_join(souls.as_str(), soul_id);
    let memory = path_join(soul.as_str(), "memory");
    path_join(memory.as_str(), "MEMORY.md")
}

/// The memory file of a soul, given a runtime root (the same path as
/// `soul_memory_file`).
pub fn memoir(runtime: &str, soul: &str) -> (r: String)
    ensures
        r@ == memory_path(runtime@, soul@),
{
    soul_memory_file(runtime, soul)
}

/// For a soul id that is one plain path component, the memory file is
/// `<root>/souls/<soul>/memory/MEMORY.md`, with no separator doubled and a
/// relative root kept relative.
pub proof fn memory_files_sit_under_their_root(root: Seq<char>, soul: Seq<char>)
    requires
        soul.len() > 0,
        forall|i: int| 0 <= i < soul.len() ==> soul[i] != '/',
    ensures
        root.len() == 0 ==> memory_path(root, soul) == "souls/"@ + soul + "/memory/MEMORY.md"@,
        root.len() > 0 && root.last() != '/' ==> memory_path(root, soul) == root + "/souls/"@
            + soul + "/memory/MEMORY.md"@,
        root.len() > 0 && root.last() == '/' ==> memory_path(root, soul) == root + "souls/"@
            + soul + "/memory/MEMORY.md"@,
{
    reveal_strlit("/");
    reveal_strlit("souls");
    reveal_strlit("memory");
    reveal_strlit("MEMORY.md");
    reveal_strlit("souls/");
    reveal_strlit("/souls/");
    reveal_strlit("/memory/MEMORY.md");
    let a = path_joined(root, "souls"@);
    assert(!prefixed("souls"@, "/"@)) by {
        assert("souls"@[0] != "/"@[0]);
    }
    assert(!prefixed(soul, "/"@)) by {
        assert(soul[0] != '/');
        assert(soul.subrange(0, 1)[0] == soul[0]);
    }
    assert(!prefixed("memory"@, "/"@)) by {
        assert("memory"@[0] != "/"@[0]);
    }
    assert(!prefixed("MEMORY.md"@, "/"@)) by {
        assert("MEMORY.md"@[0] != "/"@[0]);
    }
    assert(a.len() > 0 && a.last() == 's');
    let b = path_joined(a, soul);
    assert(b == a + "/"@ + soul);
    assert(b.last() == soul.last());
    assert(b.last() != '/');
    let c = path_joined(b, "memory"@);
    assert(c == b + "/"@ + "memory"@);
    assert(c.last() == 'y');
    let d = path_joined(c, "MEMORY.md"@);
    assert(d == c + "/"@ + "MEMORY.md"@);
    if root.len() == 0 {
        assert(a =~= "souls"@);
        assert(d =~= "souls/"@ + soul + "/memory/MEMORY.md"@);
    } else if root.last() != '/' {
        assert(d =~= root + "/souls/"@ + soul + "/memory/MEMORY.md"@);
    } else {
        assert(d =~= root + "souls/"@ + soul + "/memory/MEMORY.md"@);
    }
}

} // verus!
