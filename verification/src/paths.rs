//! What the scaffolding commands ask of `std::path` about a path given as text.
use std::path::{Component, Path};

use vstd::prelude::*;

verus! {

/// The kinds of component that `std::path::Path::components` yields.
#[derive(Clone, Copy, Debug, PartialEq, Eq, Structural)]
pub enum ComponentKind {
    /// A Windows path prefix such as `C:`.
    Prefix,
    /// The root directory `/`.
    RootDir,
    /// The current directory `.`.
    CurDir,
    /// The parent directory `..`.
    ParentDir,
    /// A name.
    Normal,
}

/// The last component of the path `path`, as `std::path::Path::components`
/// yields it: its kind and its text, or `None` where the path has no
/// component.
pub uninterp spec fn last_component_kind_spec(path: Seq<char>) -> Option<(ComponentKind, Seq<char>)>;

/// Takes the last item of `std::path::Path::components` on `path` and hands
/// back its kind (one arm per kind of `std::path::Component`) and its text.
/// The result is named by `last_component_kind_spec` and nothing more is
/// stated; the text of a component of a `&str` path is valid UTF-8, so the
/// lossy conversion changes nothing.
#[verifier::external_body]
pub(crate) fn last_component_kind(path: &str) -> (last: Option<(ComponentKind, String)>)
    ensures
        match last {
            None => last_component_kind_spec(path@) is None,
            Some((kind, text)) => last_component_kind_spec(path@) == Some((kind, text@)),
        },
{
    match Path::new(path).components().last() {
        None => None,
        Some(c) => {
            let kind = match c {
                Component::Prefix(_) => ComponentKind::Prefix,
                Component::RootDir => ComponentKind::RootDir,
                Component::CurDir => ComponentKind::CurDir,
                Component::ParentDir => ComponentKind::ParentDir,
                Component::Normal(_) => ComponentKind::Normal,
            };
            Some((kind, c.as_os_str().to_string_lossy().into_owned()))
        },
    }
}

/// The text view of a last component as `last_component_kind` hands it back.
pub open spec fn component_view(last: Option<(ComponentKind, String)>) -> Option<(ComponentKind, Seq<char>)> {
    match last {
        None => None,
        Some((kind, text)) => Some((kind, text@)),
    }
}

/// The name that a last component gives: its text where it is a name, none
/// where it is a root, a prefix, `.`, `..` or missing.
pub open spec fn component_name(last: Option<(ComponentKind, Seq<char>)>) -> Option<Seq<char>> {
    match last {
        Some((ComponentKind::Normal, text)) => Some(text),
        _ => None,
    }
}

/// A template path names a git repository where its text ends in `.git`.
pub open spec fn names_repository(path: Seq<char>) -> bool {
    &&& path.len() >= 4
    &&& path.subrange(path.len() - 4, path.len() as int) == seq!['.', 'g', 'i', 't']
}

/// Whether the text of `path` ends in `.git`.
pub fn is_repository(path: &str) -> (repository: bool)
    ensures
        repository == names_repository(path@),
{
    let n: usize = path.unicode_len();
    if n < 4 {
        return false;
    }
    let a = path.get_char(n - 4);
    let b = path.get_char(n - 3);
    let c = path.get_char(n - 2);
    let d = path.get_char(n - 1);
    let ghost tail = path@.subrange(n - 4, n as int);
    assert(tail[0] == a && tail[1] == b && tail[2] == c && tail[3] == d);
    if a == '.' && b == 'g' && c == 'i' && d == 't' {
        assert(tail =~= seq!['.', 'g', 'i', 't']);
        true
    } else {
        proof {
            if tail == seq!['.', 'g', 'i', 't'] {
                assert(tail[0] == '.' && tail[1] == 'g' && tail[2] == 'i' && tail[3] == 't');
            }
        }
        false
    }
}

} // verus!
