//! Path handling on UTF-8 byte strings.
//!
//! A path is carried as a `Vec<u8>`. The display label of a path is its
//! final component — what the platform calls the file name: trailing `/`
//! separators and trailing `.` components are ignored, and a path whose
//! final component is `..` (or that has no component at all) has the empty
//! label. A path's extension is the part of its label after the label's
//! last `.`, provided that dot is neither the label's first byte nor
//! absent.

use vstd::prelude::*;

verus! {

/// The byte that separates path components.
pub open spec fn separator() -> u8 {
    47u8  // b'/'
}

/// The byte that separates a file name from its extension.
pub open spec fn dot() -> u8 {
    46u8  // b'.'
}

/// The extension that marks a directory entry as a script.
pub open spec fn script_extension() -> Seq<u8> {
    seq![108u8, 117u8, 97u8]  // b"lua"
}

/// The component that names a directory's parent.
pub open spec fn parent_component() -> Seq<u8> {
    seq![dot(), dot()]  // b".."
}

/// The index where the label of `path` starts: the position just after the
/// last separator, or `0` when the path contains none.
pub open spec fn label_start(path: Seq<u8>) -> int
    decreases path.len(),
{
    if path.len() == 0 {
        0
    } else if path.last() == separator() {
        path.len() as int
    } else {
        label_start(path.drop_last())
    }
}

/// The length of `path` once its trailing separators and trailing `.`
/// components are dropped: neither says anything about the path's final
/// component, and the platform's path parsing ignores both.
pub open spec fn stripped_len(path: Seq<u8>) -> int
    decreases path.len(),
{
    if path.len() == 0 {
        0
    } else if path.last() == separator() {
        stripped_len(path.drop_last())
    } else if path.last() == dot() && (path.len() == 1 || path[path.len() - 2] == separator()) {
        stripped_len(path.drop_last())
    } else {
        path.len() as int
    }
}

/// The display label of `path`: its final component, with trailing
/// separators and trailing `.` components ignored; the empty sequence where
/// no component is left or the last one is `..`.
pub open spec fn label_spec(path: Seq<u8>) -> Seq<u8> {
    let stem = path.take(stripped_len(path));
    let name = stem.subrange(label_start(stem), stem.len() as int);
    if name == parent_component() {
        Seq::empty()
    } else {
        name
    }
}

/// The index where the extension of the label `name` starts: the position
/// just after the last dot, or `0` when the name contains none.
pub open spec fn extension_start(name: Seq<u8>) -> int
    decreases name.len(),
{
    if name.len() == 0 {
        0
    } else if name.last() == dot() {
        name.len() as int
    } else {
        extension_start(name.drop_last())
    }
}

/// The extension of the label `name`: what follows the last dot, provided
/// that dot exists and is not the name's first byte (so a name such as
/// `.profile` has no extension).
pub open spec fn extension_spec(name: Seq<u8>) -> Option<Seq<u8>> {
    let start = extension_start(name);
    if start > 1 {
        Some(name.subrange(start, name.len() as int))
    } else {
        None
    }
}

/// Whether `path` names a script: the extension of its label is the script
/// extension.
pub open spec fn is_script_spec(path: Seq<u8>) -> bool {
    extension_spec(label_spec(path)) == Some(script_extension())
}

/// An index is `label_start` once it sits just past a separator (or at the
/// very start) and no separator follows it.
pub proof fn lemma_label_start_unique(path: Seq<u8>, start: int)
    requires
        0 <= start <= path.len(),
        start > 0 ==> path[start - 1] == separator(),
        forall|i: int| start <= i < path.len() ==> path[i] != separator(),
    ensures
        label_start(path) == start,
    decreases path.len(),
{
    if path.len() == 0 {
    } else if path.last() == separator() {
        assert(start > path.len() - 1);
    } else {
        assert(start < path.len());
        assert(forall|i: int|
            start <= i < path.len() - 1 ==> path.drop_last()[i] == path[i]);
        lemma_label_start_unique(path.drop_last(), start);
    }
}

/// An index is `extension_start` once it sits just past a dot (or at the
/// very start) and no dot follows it.
pub proof fn lemma_extension_start_unique(name: Seq<u8>, start: int)
    requires
        0 <= start <= name.len(),
        start > 0 ==> name[start - 1] == dot(),
        forall|i: int| start <= i < name.len() ==> name[i] != dot(),
    ensures
        extension_start(name) == start,
    decreases name.len(),
{
    if name.len() == 0 {
    } else if name.last() == dot() {
        assert(start > name.len() - 1);
    } else {
        assert(start < name.len());
        assert(forall|i: int|
            start <= i < name.len() - 1 ==> name.drop_last()[i] == name[i]);
        lemma_extension_start_unique(name.drop_last(), start);
    }
}

/// The display label of `path`: its final component, used to name a script
/// at the interpreter boundary, or the empty byte string where the path has
/// no file-name component.
pub fn display_label(path: &Vec<u8>) -> (label: Vec<u8>)
    ensures
        label@ == label_spec(path@),
{
    proof {
        assert(path@.take(path@.len() as int) =~= path@);
    }
    let mut end: usize = path.len();
    while end > 0 && (path[end - 1] == 47u8 || (path[end - 1] == 46u8 && (end == 1 || path[end
        - 2] == 47u8)))
        invariant
            end <= path@.len(),
            stripped_len(path@) == stripped_len(path@.take(end as int)),
        decreases end,
    {
        proof {
            assert(path@.take(end as int).drop_last() =~= path@.take(end - 1 as int));
        }
        end = end - 1;
    }
    let ghost stem = path@.take(end as int);
    proof {
        if end > 0 {
            assert(stem.last() == path@[end - 1]);
            if end >= 2 {
                assert(stem[end - 2] == path@[end - 2]);
            }
        }
        assert(stripped_len(path@) == end as int);
    }
    let mut start: usize = end;
    while start > 0 && path[start - 1] != 47u8
        invariant
            start <= end <= path@.len(),
            forall|i: int| start <= i < end ==> path@[i] != separator(),
        decreases start,
    {
        start = start - 1;
    }
    proof {
        assert(forall|i: int| start <= i < end ==> stem[i] != separator());
        lemma_label_start_unique(stem, start as int);
    }
    let ghost name = stem.subrange(start as int, end as int);
    if end - start == 2 && path[start] == 46u8 && path[start + 1] == 46u8 {
        proof {
            assert(name =~= parent_component());
        }
        return Vec::new();
    }
    proof {
        if name == parent_component() {
            assert(name.len() == 2);
            assert(name[0] == dot() && name[1] == dot());
            assert(path@[start as int] == 46u8 && path@[start + 1 as int] == 46u8);
        }
    }
    let mut label: Vec<u8> = Vec::new();
    let mut i: usize = start;
    while i < end
        invariant
            start <= i <= end <= path@.len(),
            label@ == path@.subrange(start as int, i as int),
        decreases end - i,
    {
        label.push(path[i]);
        proof {
            assert(label@ =~= path@.subrange(start as int, i + 1 as int));
        }
        i = i + 1;
    }
    proof {
        assert(label@ =~= name);
    }
    label
}

/// The extension of the label `name`, or `None` where the name has no
/// extension in the sense of `extension_spec`.
pub fn extension_of(name: &Vec<u8>) -> (ext: Option<Vec<u8>>)
    ensures
        match ext {
            Some(e) => extension_spec(name@) == Some(e@),
            None => extension_spec(name@) is None,
        },
{
    let mut start: usize = name.len();
    while start > 0 && name[start - 1] != 46u8
        invariant
            start <= name@.len(),
            forall|i: int| start <= i < name@.len() ==> name@[i] != dot(),
        decreases start,
    {
        start = start - 1;
    }
    proof {
        lemma_extension_start_unique(name@, start as int);
    }
    if start <= 1 {
        return None;
    }
    let mut ext: Vec<u8> = Vec::new();
    let mut i: usize = start;
    while i < name.len()
        invariant
            start <= i <= name@.len(),
            ext@ == name@.subrange(start as int, i as int),
        decreases name@.len() - i,
    {
        ext.push(name[i]);
        proof {
            assert(ext@ =~= name@.subrange(start as int, i + 1 as int));
        }
        i = i + 1;
    }
    Some(ext)
}

/// Whether `path` names a script file: the extension of its display label is
/// the recognized script extension. The filter looks at the name alone; a
/// direct (non-directory) argument is never filtered by it.
pub fn is_script_path(path: &Vec<u8>) -> (b: bool)
    ensures
        b == is_script_spec(path@),
{
    let name = display_label(path);
    match extension_of(&name) {
        Some(e) => {
            let matches = e.len() == 3 && e[0] == 108u8 && e[1] == 117u8 && e[2] == 97u8;
            proof {
                if matches {
                    assert(e@ =~= script_extension());
                } else {
                    assert(e@ != script_extension());
                }
            }
            matches
        },
        None => false,
    }
}

} // verus!
