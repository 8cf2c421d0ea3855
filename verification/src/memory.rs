use vstd::prelude::*;

verus! {

/// The UTF-16 unit of the path separator `\`.
pub const PATH_SEPARATOR: u16 = 0x5c;

/// Start of the last component of `path`: one past its last separator, or 0.
pub open spec fn component_start(path: Seq<u16>) -> int
    decreases path.len(),
{
    if path.len() == 0 {
        0
    } else if path.last() == PATH_SEPARATOR {
        path.len() as int
    } else {
        component_start(path.drop_last())
    }
}

/// The last `\`-separated component of `path` (all of it when it holds no
/// separator).
pub open spec fn last_component(path: Seq<u16>) -> Seq<u16> {
    path.subrange(component_start(path), path.len() as int)
}

/// Whether the last component of the file path `path` starts with `name`.
pub open spec fn spec_module_name_matches(path: Seq<u16>, name: Seq<u16>) -> bool {
    &&& name.len() <= last_component(path).len()
    &&& last_component(path).take(name.len() as int) == name
}

proof fn lemma_component_start_bounds(path: Seq<u16>)
    ensures
        0 <= component_start(path) <= path.len(),
    decreases path.len(),
{
    if path.len() > 0 && path.last() != PATH_SEPARATOR {
        lemma_component_start_bounds(path.drop_last());
    }
}

/// Whether the module file at `path` (UTF-16 units, as the system fills its
/// buffer) is the module `name`: the last `\`-separated component of the path
/// starts with `name`.
pub fn module_name_matches(path: &[u16], name: &[u16]) -> (matches: bool)
    ensures
        matches == spec_module_name_matches(path@, name@),
{
    let len = path.len();
    let mut start: usize = 0;
    let mut i: usize = 0;
    while i < len
        invariant
            len == path@.len(),
            i <= len,
            start == component_start(path@.take(i as int)),
        decreases len - i,
    {
        assert(path@.take(i + 1).drop_last() =~= path@.take(i as int));
        if path[i] == PATH_SEPARATOR {
            start = i + 1;
        }
        i = i + 1;
    }
    assert(path@.take(len as int) =~= path@);
    proof {
        lemma_component_start_bounds(path@);
    }
    let ghost comp = last_component(path@);
    if name.len() > len - start {
        return false;
    }
    let mut k: usize = 0;
    while k < name.len()
        invariant
            start <= len == path@.len(),
            comp == path@.subrange(start as int, len as int),
            comp == last_component(path@),
            name@.len() <= len - start,
            k <= name@.len(),
            forall|j: int| 0 <= j < k ==> comp[j] == name@[j],
        decreases name@.len() - k,
    {
        assert(comp[k as int] == path@[start + k]);
        if path[start + k] != name[k] {
            assert(comp.take(name@.len() as int)[k as int] != name@[k as int]);
            return false;
        }
        k = k + 1;
    }
    assert(comp.take(name@.len() as int) =~= name@);
    true
}

/// Address of the entry of slot `index` in the entity list of the client
/// module loaded at `client`; each entry takes 16 bytes.
pub fn entity_entry_address(client: u32, entity_list: u32, index: u32) -> (addr: u32)
    requires
        client + entity_list + index * 16 <= u32::MAX,
    ensures
        addr == client + entity_list + index * 16,
{
    client + entity_list + index * 0x10
}

proof fn lemma_component_start_after_separator(dir: Seq<u16>, file: Seq<u16>)
    requires
        forall|i: int| 0 <= i < file.len() ==> file[i] != 0x5c,
    ensures
        component_start(dir.push(0x5c) + file) == dir.len() + 1,
        component_start(file) == 0,
    decreases file.len(),
{
    let path = dir.push(0x5c) + file;
    if file.len() == 0 {
        assert(path =~= dir.push(0x5c));
    } else {
        lemma_component_start_after_separator(dir, file.drop_last());
        assert(path.drop_last() =~= dir.push(0x5c) + file.drop_last());
        assert(path.last() == file.last());
    }
}

/// The module file name is what follows the last `\` (0x5c): for a path
/// `dir \ file` whose `file` holds no `\`, and for a path `file` with no `\`
/// at all, the name matches exactly when it is a prefix of `file`, whatever
/// `dir` holds.
pub proof fn lemma_matches_file_name(dir: Seq<u16>, file: Seq<u16>, name: Seq<u16>)
    requires
        forall|i: int| 0 <= i < file.len() ==> file[i] != 0x5c,
    ensures
        last_component(dir.push(0x5c) + file) == file,
        last_component(file) == file,
        spec_module_name_matches(dir.push(0x5c) + file, name) == (name.len() <= file.len()
            && forall|i: int| 0 <= i < name.len() ==> file[i] == name[i]),
        spec_module_name_matches(file, name) == (name.len() <= file.len() && forall|i: int|
            0 <= i < name.len() ==> file[i] == name[i]),
{
    lemma_component_start_after_separator(dir, file);
    let path = dir.push(0x5c) + file;
    assert(last_component(path) =~= file);
    assert(last_component(file) =~= file);
    if name.len() <= file.len() {
        if forall|i: int| 0 <= i < name.len() ==> file[i] == name[i] {
            assert(file.take(name.len() as int) =~= name);
        }
    }
}

} // verus!
