//! Safety of archive entry names and where each entry is written.

use vstd::prelude::*;
use vstd::string::*;

verus! {

/// Name of the subdirectory that receives an incoming copy of the updater itself.
pub open spec fn quarantine_dir() -> Seq<char> {
    seq!['n', 'e', 'w', '-', 'u', 'p', 'd', 'a', 't', 'e', 'r']
}

/// A path separator, as either platform writes it.
pub open spec fn is_separator(c: char) -> bool {
    c == '/' || c == '\\'
}

pub open spec fn is_ascii_letter(c: char) -> bool {
    ('a' <= c && c <= 'z') || ('A' <= c && c <= 'Z')
}

/// The path starts with a drive prefix such as `C:`, which makes it absolute
/// (or relative to another drive) on Windows.
pub open spec fn starts_with_drive(name: Seq<char>) -> bool {
    name.len() >= 2 && is_ascii_letter(name[0]) && name[1] == ':'
}

/// The path starts at a filesystem root, or on another drive.
pub open spec fn starts_at_root(name: Seq<char>) -> bool {
    (name.len() > 0 && is_separator(name[0])) || starts_with_drive(name)
}

/// A `..` component starts at position `a` of the path.
pub open spec fn parent_segment_at(name: Seq<char>, a: int) -> bool {
    &&& 0 <= a
    &&& a + 2 <= name.len()
    &&& name[a] == '.'
    &&& name[a + 1] == '.'
    &&& (a == 0 || is_separator(name[a - 1]))
    &&& (a + 2 == name.len() || is_separator(name[a + 2]))
}

/// The path has a parent-directory component, a root component or a drive prefix, so that
/// joining it to an extraction root could leave that root.
pub open spec fn suspicious(name: Seq<char>) -> bool {
    starts_at_root(name) || exists|a: int| parent_segment_at(name, a)
}

/// Where an entry of the given name is written, relative to the extraction root.
pub open spec fn destination_of(name: Seq<char>, updater: Seq<char>) -> Seq<char> {
    if name == updater {
        quarantine_dir() + seq!['/'] + name
    } else {
        name
    }
}

fn char_is_separator(c: char) -> (r: bool)
    ensures
        r == is_separator(c),
{
    c == '/' || c == '\\'
}

/// Whether a declared entry path holds a parent-directory or root component, or a drive prefix.
pub fn is_suspicious_path(name: &str) -> (r: bool)
    ensures
        r == suspicious(name@),
{
    let n = name.unicode_len();
    if n > 0 && char_is_separator(name.get_char(0)) {
        return true;
    }
    if n >= 2 && name.get_char(1) == ':' {
        let c = name.get_char(0);
        if ('a' <= c && c <= 'z') || ('A' <= c && c <= 'Z') {
            return true;
        }
    }
    let mut a: usize = 0;
    while n >= 2 && a <= n - 2
        invariant
            n == name@.len(),
            a <= n,
            forall|k: int| 0 <= k < a ==> !parent_segment_at(name@, k),
        decreases n - a,
    {
        if name.get_char(a) == '.' && name.get_char(a + 1) == '.' && (a == 0 || char_is_separator(
            name.get_char(a - 1),
        )) && (a + 2 == n || char_is_separator(name.get_char(a + 2))) {
            assert(parent_segment_at(name@, a as int));
            return true;
        }
        a = a + 1;
    }
    assert forall|k: int| !parent_segment_at(name@, k) by {
        if 0 <= k < a {
        }
    }
    false
}

/// Whether a declared entry path stays inside the extraction root.
pub fn is_safe_path(name: &str) -> (r: bool)
    ensures
        r == !suspicious(name@),
{
    !is_suspicious_path(name)
}

/// Whether two strings hold the same characters.
pub fn same_text(a: &str, b: &str) -> (r: bool)
    ensures
        r == (a@ == b@),
{
    let n = a.unicode_len();
    if n != b.unicode_len() {
        return false;
    }
    let mut i: usize = 0;
    while i < n
        invariant
            n == a@.len(),
            n == b@.len(),
            i <= n,
            forall|k: int| 0 <= k < i ==> a@[k] == b@[k],
        decreases n - i,
    {
        if a.get_char(i) != b.get_char(i) {
            return false;
        }
        i = i + 1;
    }
    assert(a@ =~= b@);
    true
}

/// The path, relative to the extraction root, where an entry is written: the
/// entry's own path, except that a copy of the running updater goes under
/// the quarantine directory, since a running program cannot replace its own image.
pub fn destination_path(name: &str, updater_name: &str) -> (r: String)
    ensures
        r@ == destination_of(name@, updater_name@),
{
    if same_text(name, updater_name) {
        let mut dest = String::from_str("new-updater/");
        dest.append(name);
        proof {
            reveal_strlit("new-updater/");
            assert(quarantine_dir() + seq!['/'] =~= "new-updater/"@);
        }
        dest
    } else {
        String::from_str(name)
    }
}

} // verus!
