//! Suggestions for a path that is being typed.
//!
//! The typed text splits at its last `/` into a directory and a prefix. The
//! entries of that directory are filtered by the prefix, written as paths,
//! and listed directories first, each group in alphabetical order. Names are
//! compared as Rust compares strings: byte by byte.

use vstd::prelude::*;
use vstd::string::*;
use vstd::utf8::encode_utf8;

verus! {

/// An entry of a directory, as read from disk.
#[derive(Debug, Clone, PartialEq, Eq)]
pub struct DirEntry {
    pub name: String,
    pub is_dir: bool,
}

/// A suggestion: the path to show, and whether it is a directory.
#[derive(Debug, Clone, PartialEq, Eq)]
pub struct Listed {
    pub path: String,
    pub is_dir: bool,
}

/// The bytes of a text.
pub open spec fn bytes(text: Seq<char>) -> Seq<u8> {
    encode_utf8(text)
}

/// Whether `a` comes strictly before `b` in lexicographic order.
pub open spec fn lex_lt(a: Seq<u8>, b: Seq<u8>) -> bool
    decreases a.len(),
{
    if b.len() == 0 {
        false
    } else if a.len() == 0 {
        true
    } else if a[0] != b[0] {
        a[0] < b[0]
    } else {
        lex_lt(a.drop_first(), b.drop_first())
    }
}

/// Whether suggestion `a` is listed strictly before `b`: directories come
/// before files, and within each group the paths are in lexicographic order.
pub open spec fn listed_before(a: Listed, b: Listed) -> bool {
    if a.is_dir != b.is_dir {
        a.is_dir
    } else {
        lex_lt(bytes(a.path@), bytes(b.path@))
    }
}

/// Whether no suggestion is listed after one that should follow it.
pub open spec fn sorted(list: Seq<Listed>) -> bool {
    forall|i: int, j: int| 0 <= i < j < list.len() ==> !listed_before(list[j], list[i])
}

/// The suggestions as plain values: each path's text, and whether it is a
/// directory.
pub open spec fn paths(list: Seq<Listed>) -> Seq<(Seq<char>, bool)> {
    Seq::new(list.len(), |i: int| (list[i].path@, list[i].is_dir))
}

/// Whether `text` starts with `prefix`.
pub open spec fn has_prefix(text: Seq<u8>, prefix: Seq<u8>) -> bool {
    prefix.len() <= text.len() && text.subrange(0, prefix.len() as int) == prefix
}

/// Whether the text starts with a dot.
pub open spec fn dotted(text: Seq<u8>) -> bool {
    text.len() > 0 && text[0] == 0x2e
}

/// Whether an entry of this name is suggested for this prefix: the name
/// starts with the prefix, and names that start with a dot are suggested only
/// for a prefix that starts with one.
pub open spec fn shown(name: Seq<char>, prefix: Seq<char>) -> bool {
    has_prefix(bytes(name), bytes(prefix)) && (dotted(bytes(name)) ==> dotted(bytes(prefix)))
}

/// The path shown for an entry: the name alone in the current directory
/// `.`, else directory and name; a directory gets a trailing `/`.
pub open spec fn display(dir: Seq<char>, name: Seq<char>, is_dir: bool) -> Seq<char> {
    let base = if dir == seq!['.'] {
        name
    } else {
        dir + name
    };
    if is_dir {
        base.push('/')
    } else {
        base
    }
}

/// The suggestions for a prefix among the entries of a directory, in the
/// order of the entries.
pub open spec fn kept(entries: Seq<DirEntry>, dir: Seq<char>, prefix: Seq<char>) -> Seq<
    (Seq<char>, bool),
>
    decreases entries.len(),
{
    if entries.len() == 0 {
        Seq::empty()
    } else {
        let before = kept(entries.drop_last(), dir, prefix);
        let entry = entries.last();
        if shown(entry.name@, prefix) {
            before.push((display(dir, entry.name@, entry.is_dir), entry.is_dir))
        } else {
            before
        }
    }
}

/// The index of the last `/` of a text, or -1 where it has none.
pub open spec fn last_slash(text: Seq<char>) -> int
    decreases text.len(),
{
    if text.len() == 0 {
        -1
    } else if text.last() == '/' {
        text.len() - 1
    } else {
        last_slash(text.drop_last())
    }
}

/// The directory that a typed directory part stands for: `~/` at its start
/// is the home directory, or the current directory where no home is known,
/// and an empty part is the current directory.
pub open spec fn resolved(dir: Seq<char>, home: Option<Seq<char>>) -> Seq<char> {
    if dir.len() >= 2 && dir[0] == '~' && dir[1] == '/' {
        match home {
            Some(h) => h + dir.subrange(1, dir.len() as int),
            None => seq!['.'],
        }
    } else if dir.len() == 0 {
        seq!['.']
    } else {
        dir
    }
}

/// Splits typed text at its last `/`: the directory part, with the slash,
/// and the prefix after it. Text without a slash is a prefix in the current
/// directory `.`.
pub fn split_input(input: &str) -> (parts: (String, String))
    ensures
        last_slash(input@) < 0 ==> parts.0@ == seq!['.'] && parts.1@ == input@,
        last_slash(input@) >= 0 ==> parts.0@ == input@.subrange(0, last_slash(input@) + 1)
            && parts.1@ == input@.subrange(last_slash(input@) + 1, input@.len() as int),
        -1 <= last_slash(input@) < input@.len(),
{
    let len = input.unicode_len();
    let mut end: usize = len;
    proof {
        assert(input@.subrange(0, end as int) =~= input@);
    }
    while end > 0
        invariant
            end <= len,
            len == input@.len(),
            last_slash(input@) == last_slash(input@.subrange(0, end as int)),
        decreases end,
    {
        let ghost head = input@.subrange(0, end as int);
        proof {
            assert(head.drop_last() =~= input@.subrange(0, end - 1));
            assert(head.last() == input@[end - 1]);
        }
        if input.get_char(end - 1) == '/' {
            let dir = String::from_str(input.substring_char(0, end));
            let prefix = String::from_str(input.substring_char(end, len));
            return (dir, prefix);
        }
        end = end - 1;
    }
    proof {
        assert(input@.subrange(0, 0).len() == 0);
        reveal_strlit(".");
        assert("."@ =~= seq!['.']);
    }
    (String::from_str("."), String::from_str(input))
}

/// Resolves a typed directory part against the home directory.
pub fn resolve_dir(dir: &str, home: Option<&str>) -> (path: String)
    ensures
        path@ == resolved(
            dir@,
            match home {
                Some(h) => Some(h@),
                None => None,
            },
        ),
{
    proof {
        reveal_strlit(".");
        assert("."@ =~= seq!['.']);
    }
    let len = dir.unicode_len();
    if len >= 2 && dir.get_char(0) == '~' && dir.get_char(1) == '/' {
        match home {
            Some(h) => String::from_str(h).concat(dir.substring_char(1, len)),
            None => String::from_str("."),
        }
    } else if len == 0 {
        String::from_str(".")
    } else {
        String::from_str(dir)
    }
}

/// Compares two byte strings in lexicographic order.
pub fn bytes_before(a: &[u8], b: &[u8]) -> (before: bool)
    ensures
        before == lex_lt(a@, b@),
{
    let mut i: usize = 0;
    proof {
        assert(a@.subrange(0, a@.len() as int) =~= a@);
        assert(b@.subrange(0, b@.len() as int) =~= b@);
    }
    while i < a.len() && i < b.len()
        invariant
            i <= a.len(),
            i <= b.len(),
            lex_lt(a@, b@) == lex_lt(
                a@.subrange(i as int, a@.len() as int),
                b@.subrange(i as int, b@.len() as int),
            ),
        decreases a.len() - i,
    {
        let ghost ra = a@.subrange(i as int, a@.len() as int);
        let ghost rb = b@.subrange(i as int, b@.len() as int);
        proof {
            assert(ra[0] == a@[i as int]);
            assert(rb[0] == b@[i as int]);
            assert(ra.drop_first() =~= a@.subrange(i + 1, a@.len() as int));
            assert(rb.drop_first() =~= b@.subrange(i + 1, b@.len() as int));
        }
        if a[i] != b[i] {
            return a[i] < b[i];
        }
        i = i + 1;
    }
    proof {
        let ra = a@.subrange(i as int, a@.len() as int);
        let rb = b@.subrange(i as int, b@.len() as int);
        assert(ra.len() == a@.len() - i);
        assert(rb.len() == b@.len() - i);
    }
    i < b.len()
}

/// Decides whether suggestion `a` is listed strictly before `b`.
pub fn comes_before(a: &Listed, b: &Listed) -> (before: bool)
    ensures
        before == listed_before(*a, *b),
{
    if a.is_dir != b.is_dir {
        a.is_dir
    } else {
        bytes_before(a.path.as_str().as_bytes(), b.path.as_str().as_bytes())
    }
}

fn starts_with(text: &[u8], prefix: &[u8]) -> (yes: bool)
    ensures
        yes == has_prefix(text@, prefix@),
{
    if prefix.len() > text.len() {
        return false;
    }
    let mut i: usize = 0;
    while i < prefix.len()
        invariant
            i <= prefix.len(),
            prefix.len() <= text.len(),
            forall|j: int| 0 <= j < i ==> text@[j] == prefix@[j],
        decreases prefix.len() - i,
    {
        if text[i] != prefix[i] {
            proof {
                let head = text@.subrange(0, prefix@.len() as int);
                assert(head[i as int] == text@[i as int]);
            }
            return false;
        }
        i = i + 1;
    }
    proof {
        assert(text@.subrange(0, prefix@.len() as int) =~= prefix@);
    }
    true
}

fn starts_with_dot(text: &[u8]) -> (yes: bool)
    ensures
        yes == dotted(text@),
{
    text.len() > 0 && text[0] == 0x2e
}

/// Decides whether an entry of this name is suggested for this prefix.
pub fn is_shown(name: &str, prefix: &str) -> (yes: bool)
    ensures
        yes == shown(name@, prefix@),
{
    let text = name.as_bytes();
    let start = prefix.as_bytes();
    if starts_with_dot(text) && !starts_with_dot(start) {
        false
    } else {
        starts_with(text, start)
    }
}

/// Writes the path shown for an entry.
pub fn display_path(dir: &str, name: &str, is_dir: bool) -> (path: String)
    ensures
        path@ == display(dir@, name@, is_dir),
{
    let in_current = dir.unicode_len() == 1 && dir.get_char(0) == '.';
    proof {
        if in_current {
            assert(dir@ =~= seq!['.']);
        }
    }
    let mut path = if in_current {
        String::from_str(name)
    } else {
        String::from_str(dir).concat(name)
    };
    if is_dir {
        proof {
            reveal_strlit("/");
        }
        let ghost base = path@;
        path.append("/");
        proof {
            assert(path@ =~= base.push('/'));
        }
    }
    path
}

/// The suggestions for `prefix` among the entries of a directory, in the
/// order of the entries. `dir` is the directory part as it was typed.
pub fn filter_entries(dir: &str, prefix: &str, entries: &Vec<DirEntry>) -> (list: Vec<Listed>)
    ensures
        paths(list@) == kept(entries@, dir@, prefix@),
{
    let mut list: Vec<Listed> = Vec::new();
    let mut i: usize = 0;
    proof {
        assert(entries@.subrange(0, 0).len() == 0);
        assert(paths(list@) =~= kept(entries@.subrange(0, 0), dir@, prefix@));
    }
    while i < entries.len()
        invariant
            i <= entries.len(),
            paths(list@) == kept(entries@.subrange(0, i as int), dir@, prefix@),
        decreases entries.len() - i,
    {
        let entry = &entries[i];
        let ghost before = list@;
        proof {
            let head = entries@.subrange(0, i + 1);
            assert(head.drop_last() =~= entries@.subrange(0, i as int));
            assert(head.last() == entries@[i as int]);
        }
        if is_shown(entry.name.as_str(), prefix) {
            let path = display_path(dir, entry.name.as_str(), entry.is_dir);
            list.push(Listed { path, is_dir: entry.is_dir });
            proof {
                assert(paths(list@) =~= paths(before).push((path@, entry.is_dir)));
            }
        }
        i = i + 1;
    }
    proof {
        assert(entries@.subrange(0, entries@.len() as int) =~= entries@);
    }
    list
}

/// Nothing comes before itself.
pub proof fn lemma_lex_irreflexive(a: Seq<u8>)
    ensures
        !lex_lt(a, a),
    decreases a.len(),
{
    if a.len() > 0 {
        lemma_lex_irreflexive(a.drop_first());
    }
}

/// The order is transitive.
pub proof fn lemma_lex_transitive(a: Seq<u8>, b: Seq<u8>, c: Seq<u8>)
    requires
        lex_lt(a, b),
        lex_lt(b, c),
    ensures
        lex_lt(a, c),
    decreases a.len(),
{
    if a.len() > 0 && b.len() > 0 && c.len() > 0 && a[0] == b[0] && b[0] == c[0] {
        lemma_lex_transitive(a.drop_first(), b.drop_first(), c.drop_first());
    }
}

/// The order is total: of two different byte strings one comes before the
/// other.
pub proof fn lemma_lex_total(a: Seq<u8>, b: Seq<u8>)
    ensures
        lex_lt(a, b) || lex_lt(b, a) || a == b,
        !(lex_lt(a, b) && lex_lt(b, a)),
    decreases a.len(),
{
    if a.len() > 0 && b.len() > 0 {
        if a[0] == b[0] {
            lemma_lex_total(a.drop_first(), b.drop_first());
            if a.drop_first() == b.drop_first() {
                assert(a =~= seq![a[0]] + a.drop_first());
                assert(b =~= seq![b[0]] + b.drop_first());
            }
        }
    } else if a.len() == 0 && b.len() == 0 {
        assert(a =~= b);
    }
}

/// The order of suggestions is a strict total order on what it compares:
/// nothing is listed before itself, the order is transitive, and of two
/// suggestions that differ in kind or in the bytes of their paths exactly one
/// is listed before the other.
pub proof fn lemma_listing_order(a: Listed, b: Listed, c: Listed)
    ensures
        !listed_before(a, a),
        listed_before(a, b) && listed_before(b, c) ==> listed_before(a, c),
        !(listed_before(a, b) && listed_before(b, a)),
        !listed_before(a, b) && !listed_before(b, a) ==> a.is_dir == b.is_dir && bytes(a.path@)
            == bytes(b.path@),
{
    lemma_lex_irreflexive(bytes(a.path@));
    lemma_lex_total(bytes(a.path@), bytes(b.path@));
    if listed_before(a, b) && listed_before(b, c) {
        if a.is_dir == b.is_dir && b.is_dir == c.is_dir {
            lemma_lex_transitive(bytes(a.path@), bytes(b.path@), bytes(c.path@));
        }
    }
}

} // verus!
