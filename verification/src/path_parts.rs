//! The parts of a path, as the platform divides it.

use crate::paths::Platform;
use crate::text::{characters, same_text};
use vstd::prelude::*;
use vstd::string::*;

verus! {

/// Whether a character divides the parts of a path.
pub open spec fn is_separator(platform: Platform, c: char) -> bool {
    c == '/' || platform is Windows && c == '\\'
}

/// Whether a character divides the parts of a path that Windows takes as it
/// stands, or of another path.
pub open spec fn divides(platform: Platform, literal: bool, c: char) -> bool {
    if literal {
        c == '\\'
    } else {
        is_separator(platform, c)
    }
}

/// The text of a path from a place up to the next separator.
pub open spec fn part_at(platform: Platform, literal: bool, path: Seq<char>, from: int) -> Seq<char>
    decreases path.len() - from,
{
    if from < 0 || from >= path.len() || divides(platform, literal, path[from]) {
        Seq::empty()
    } else {
        seq![path[from]] + part_at(platform, literal, path, from + 1)
    }
}

/// The texts between the separators of a path.
pub open spec fn path_pieces(platform: Platform, literal: bool, path: Seq<char>) -> Seq<Seq<char>>
    decreases path.len(),
{
    if path.len() == 0 {
        seq![Seq::empty()]
    } else {
        let front = path_pieces(platform, literal, path.drop_last());
        if divides(platform, literal, path.last()) {
            front.push(Seq::empty())
        } else {
            front.drop_last().push(front.last().push(path.last()))
        }
    }
}

/// A letter as a capital.
pub open spec fn capital_letter(letter: char) -> char {
    if 'a' <= letter <= 'z' {
        ((letter as u32) - 32) as char
    } else {
        letter
    }
}

/// Whether a drive, a letter and a colon, stands at a place of a path.
pub open spec fn drive_at(path: Seq<char>, from: int) -> bool {
    &&& from + 2 <= path.len()
    &&& 'a' <= path[from] <= 'z' || 'A' <= path[from] <= 'Z'
    &&& path[from + 1] == ':'
}

/// What a path on Windows begins with.
#[derive(Clone, Copy, Debug, PartialEq, Eq, Structural)]
pub enum PrefixKind {
    /// Nothing of its own.
    Absent,
    /// `C:`
    Drive,
    /// `\\machine\share`
    Share,
    /// `\\.\name`
    Device,
    /// `\\?\name`
    Literal,
    /// `\\?\UNC\machine\share`
    LiteralShare,
    /// `\\?\C:`
    LiteralDrive,
}

/// The prefix of a path.
#[verifier::ext_equal]
pub struct PathPrefixView {
    pub kind: PrefixKind,
    /// The drive as a capital letter, the machine, or the other name.
    pub name: Seq<char>,
    pub share: Seq<char>,
}

/// A path without a prefix.
pub open spec fn no_prefix() -> PathPrefixView {
    PathPrefixView { kind: PrefixKind::Absent, name: Seq::empty(), share: Seq::empty() }
}

/// Whether Windows takes paths with such a prefix as they stand.
pub open spec fn is_literal(kind: PrefixKind) -> bool {
    kind is Literal || kind is LiteralShare || kind is LiteralDrive
}

/// Whether a path on Windows begins with two separators.
pub open spec fn begins_twice(path: Seq<char>) -> bool {
    &&& path.len() >= 2
    &&& is_separator(Platform::Windows, path[0])
    &&& is_separator(Platform::Windows, path[1])
}

/// Whether a path begins with `\\?\`.
pub open spec fn begins_literally(path: Seq<char>) -> bool {
    &&& path.len() >= 4
    &&& path[0] == '\\'
    &&& path[1] == '\\'
    &&& path[2] == '?'
    &&& path[3] == '\\'
}

/// Whether `UNC` and a separator follow the `\\?\` of a path.
pub open spec fn names_literal_share(path: Seq<char>) -> bool {
    &&& path.len() >= 8
    &&& path[4] == 'U'
    &&& path[5] == 'N'
    &&& path[6] == 'C'
    &&& is_separator(Platform::Windows, path[7])
}

/// The prefix of a path that begins with `\\?\`.
pub open spec fn literal_prefix(path: Seq<char>) -> PathPrefixView {
    if names_literal_share(path) {
        let machine = part_at(Platform::Windows, true, path, 8);
        PathPrefixView {
            kind: PrefixKind::LiteralShare,
            name: machine,
            share: part_at(Platform::Windows, true, path, (8 + machine.len() + 1) as int),
        }
    } else if drive_at(path, 4) && (path.len() == 6 || is_separator(Platform::Windows, path[6])) {
        PathPrefixView {
            kind: PrefixKind::LiteralDrive,
            name: seq![capital_letter(path[4])],
            share: Seq::empty(),
        }
    } else {
        PathPrefixView {
            kind: PrefixKind::Literal,
            name: part_at(Platform::Windows, true, path, 4),
            share: Seq::empty(),
        }
    }
}

/// The prefix of a path that begins with two separators, but not with `\\?\`.
pub open spec fn machine_prefix(path: Seq<char>) -> PathPrefixView {
    if path.len() >= 4 && path[2] == '.' && is_separator(Platform::Windows, path[3]) {
        PathPrefixView {
            kind: PrefixKind::Device,
            name: part_at(Platform::Windows, false, path, 4),
            share: Seq::empty(),
        }
    } else {
        let machine = part_at(Platform::Windows, false, path, 2);
        let share = part_at(Platform::Windows, false, path, (2 + machine.len() + 1) as int);
        if machine.len() > 0 && share.len() > 0 {
            PathPrefixView { kind: PrefixKind::Share, name: machine, share }
        } else {
            no_prefix()
        }
    }
}

/// The prefix of a path. Only Windows has any.
pub open spec fn path_prefix(platform: Platform, path: Seq<char>) -> PathPrefixView {
    if !(platform is Windows) {
        no_prefix()
    } else if begins_literally(path) {
        literal_prefix(path)
    } else if begins_twice(path) {
        machine_prefix(path)
    } else if drive_at(path, 0) {
        PathPrefixView {
            kind: PrefixKind::Drive,
            name: seq![capital_letter(path[0])],
            share: Seq::empty(),
        }
    } else {
        no_prefix()
    }
}

/// How many characters a prefix takes.
pub open spec fn prefix_len(prefix: PathPrefixView) -> nat {
    match prefix.kind {
        PrefixKind::Absent => 0,
        PrefixKind::Drive => 2,
        PrefixKind::Share => 2 + prefix.name.len() + 1 + prefix.share.len(),
        PrefixKind::Device => 4 + prefix.name.len(),
        PrefixKind::Literal => 4 + prefix.name.len(),
        PrefixKind::LiteralShare => if prefix.share.len() > 0 {
            8 + prefix.name.len() + 1 + prefix.share.len()
        } else {
            8 + prefix.name.len()
        },
        PrefixKind::LiteralDrive => 6,
    }
}

/// The pieces of a path that name something: those that are not empty and,
/// unless the path is taken as it stands, not `.`. A `.` at the front of a path
/// without a root stays.
pub open spec fn naming_pieces(literal: bool, rooted: bool, pieces: Seq<Seq<char>>) -> Seq<
    Seq<char>,
>
    decreases pieces.len(),
{
    if pieces.len() == 0 {
        Seq::empty()
    } else {
        let front = naming_pieces(literal, rooted, pieces.drop_last());
        let last = pieces.last();
        if last.len() == 0 || last == seq!['.'] && !literal && (rooted || pieces.len() > 1) {
            front
        } else {
            front.push(last)
        }
    }
}

/// The parts of a path.
#[verifier::ext_equal]
pub struct PathPartsView {
    pub prefix: PathPrefixView,
    pub rooted: bool,
    pub names: Seq<Seq<char>>,
}

/// The parts of a path. A separator after the prefix is the root; shares and
/// devices have one in any case.
pub open spec fn path_parts(platform: Platform, path: Seq<char>) -> PathPartsView {
    let prefix = path_prefix(platform, path);
    let literal = is_literal(prefix.kind);
    let len = prefix_len(prefix) as int;
    let separated = len < path.len() && is_separator(platform, path[len]);
    let rooted = separated || prefix.kind is Share || prefix.kind is Device;
    let rest = path.skip(
        if separated {
            len + 1
        } else {
            len
        },
    );
    PathPartsView {
        prefix,
        rooted,
        names: naming_pieces(literal, rooted, path_pieces(platform, literal, rest)),
    }
}

/// Whether two paths have the same parts: a separator that is repeated or
/// stands at the end makes no difference, nor does how the letter of a drive is
/// written, nor, unless the path is taken as it stands, a `.` but at the front.
pub open spec fn same_path(platform: Platform, a: Seq<char>, b: Seq<char>) -> bool {
    path_parts(platform, a) == path_parts(platform, b)
}

/// Names with a backslash behind each.
pub open spec fn with_backslashes(names: Seq<Seq<char>>) -> Seq<char>
    decreases names.len(),
{
    if names.len() == 0 {
        Seq::empty()
    } else {
        with_backslashes(names.drop_last()) + names.last() + "\\"@
    }
}

/// Whether a name can follow a path without a separator between them.
pub open spec fn takes_name(platform: Platform, path: Seq<char>) -> bool {
    ||| path.len() == 0
    ||| is_separator(platform, path.last())
    ||| platform is Windows && path.len() == 2 && drive_at(path, 0)
}

/// The name `name` below the directory `base`. A drive on its own stands for
/// the current directory of that drive. A path that Windows takes as it stands
/// is written anew from its parts.
pub open spec fn joined_path(platform: Platform, base: Seq<char>, name: Seq<char>) -> Seq<char> {
    let parts = path_parts(platform, base);
    if is_literal(parts.prefix.kind) {
        base.take(prefix_len(parts.prefix) as int) + "\\"@ + with_backslashes(parts.names) + name
    } else if takes_name(platform, base) {
        base + name
    } else if platform is Windows {
        base + "\\"@ + name
    } else {
        base + "/"@ + name
    }
}

/// The prefix of a path.
struct PathPrefix {
    kind: PrefixKind,
    name: String,
    share: String,
}

impl View for PathPrefix {
    type V = PathPrefixView;

    closed spec fn view(&self) -> PathPrefixView {
        PathPrefixView { kind: self.kind, name: self.name@, share: self.share@ }
    }
}

/// The parts of a path.
struct PathParts {
    prefix: PathPrefix,
    rooted: bool,
    names: Vec<String>,
}

impl View for PathParts {
    type V = PathPartsView;

    closed spec fn view(&self) -> PathPartsView {
        PathPartsView {
            prefix: self.prefix@,
            rooted: self.rooted,
            names: self.names.deep_view(),
        }
    }
}

fn separates(platform: Platform, c: char) -> (r: bool)
    ensures
        r == is_separator(platform, c),
{
    c == '/' || (platform == Platform::Windows && c == '\\')
}

fn divides_parts(platform: Platform, literal: bool, c: char) -> (r: bool)
    ensures
        r == divides(platform, literal, c),
{
    if literal {
        c == '\\'
    } else {
        separates(platform, c)
    }
}

fn literal_kind(kind: PrefixKind) -> (r: bool)
    ensures
        r == is_literal(kind),
{
    match kind {
        PrefixKind::Literal | PrefixKind::LiteralShare | PrefixKind::LiteralDrive => true,
        _ => false,
    }
}

fn has_drive(path: &Vec<char>, from: usize) -> (r: bool)
    requires
        from <= 4,
    ensures
        r == drive_at(path@, from as int),
{
    path.len() >= from + 2 && (('a' <= path[from] && path[from] <= 'z') || ('A' <= path[from]
        && path[from] <= 'Z')) && path[from + 1] == ':'
}

/// The drive with this letter, as a text.
fn drive_name(letter: char) -> (r: String)
    requires
        'a' <= letter <= 'z' || 'A' <= letter <= 'Z',
    ensures
        r@ == seq![capital_letter(letter)],
{
    let mut name = String::new();
    if 'a' <= letter && letter <= 'z' {
        let code: u8 = letter as u8;
        name.push((code - 32) as char);
    } else {
        name.push(letter);
    }
    name
}

fn part_of(platform: Platform, literal: bool, path: &Vec<char>, from: usize) -> (r: String)
    requires
        from <= path@.len(),
    ensures
        r@ == part_at(platform, literal, path@, from as int),
        from + r@.len() <= path@.len(),
{
    let mut part = String::new();
    let mut i: usize = from;
    proof {
        assert(part@ + part_at(platform, literal, path@, from as int) =~= part_at(
            platform,
            literal,
            path@,
            from as int,
        ));
    }
    while i < path.len() && !divides_parts(platform, literal, path[i])
        invariant
            from <= i <= path@.len(),
            part@.len() == i - from,
            part@ + part_at(platform, literal, path@, i as int) == part_at(
                platform,
                literal,
                path@,
                from as int,
            ),
        decreases path@.len() - i,
    {
        let ghost before = part@;
        part.push(path[i]);
        proof {
            let rest = part_at(platform, literal, path@, i + 1);
            assert(before.push(path@[i as int]) + rest =~= before + (seq![path@[i as int]] + rest));
        }
        i = i + 1;
    }
    proof {
        assert(part@ + Seq::<char>::empty() =~= part@);
    }
    part
}

/// The part of a path behind the one that ends at `end`.
fn next_part(platform: Platform, literal: bool, path: &Vec<char>, end: usize) -> (r: String)
    requires
        end <= path@.len(),
    ensures
        r@ == part_at(platform, literal, path@, end + 1),
        r@.len() > 0 ==> end + 1 + r@.len() <= path@.len(),
{
    if end < path.len() {
        part_of(platform, literal, path, end + 1)
    } else {
        String::new()
    }
}

fn literal_prefix_of(path: &Vec<char>) -> (r: (PathPrefix, usize))
    requires
        begins_literally(path@),
    ensures
        r.0@ == literal_prefix(path@),
        r.1 == prefix_len(r.0@),
        r.1 <= path@.len(),
{
    let platform = Platform::Windows;
    if path.len() >= 8 && path[4] == 'U' && path[5] == 'N' && path[6] == 'C' && separates(
        platform,
        path[7],
    ) {
        let name = part_of(platform, true, path, 8);
        let end: usize = 8 + name.as_str().unicode_len();
        let share = next_part(platform, true, path, end);
        let share_len: usize = share.as_str().unicode_len();
        let len: usize = if share_len > 0 {
            end + 1 + share_len
        } else {
            end
        };
        (PathPrefix { kind: PrefixKind::LiteralShare, name, share }, len)
    } else if has_drive(path, 4) && (path.len() == 6 || separates(platform, path[6])) {
        let name = drive_name(path[4]);
        (PathPrefix { kind: PrefixKind::LiteralDrive, name, share: String::new() }, 6)
    } else {
        let name = part_of(platform, true, path, 4);
        let len: usize = 4 + name.as_str().unicode_len();
        (PathPrefix { kind: PrefixKind::Literal, name, share: String::new() }, len)
    }
}

fn machine_prefix_of(path: &Vec<char>) -> (r: (PathPrefix, usize))
    requires
        begins_twice(path@),
    ensures
        r.0@ == machine_prefix(path@),
        r.1 == prefix_len(r.0@),
        r.1 <= path@.len(),
{
    let platform = Platform::Windows;
    if path.len() >= 4 && path[2] == '.' && separates(platform, path[3]) {
        let name = part_of(platform, false, path, 4);
        let len: usize = 4 + name.as_str().unicode_len();
        return (PathPrefix { kind: PrefixKind::Device, name, share: String::new() }, len);
    }
    let name = part_of(platform, false, path, 2);
    let name_len: usize = name.as_str().unicode_len();
    let share = next_part(platform, false, path, 2 + name_len);
    let share_len: usize = share.as_str().unicode_len();
    if name_len > 0 && share_len > 0 {
        (PathPrefix { kind: PrefixKind::Share, name, share }, 2 + name_len + 1 + share_len)
    } else {
        (empty_prefix(), 0)
    }
}

fn empty_prefix() -> (r: PathPrefix)
    ensures
        r@ == no_prefix(),
{
    PathPrefix { kind: PrefixKind::Absent, name: String::new(), share: String::new() }
}

/// The prefix of a path, and how many characters it takes.
fn prefix_of(platform: Platform, path: &Vec<char>) -> (r: (PathPrefix, usize))
    ensures
        r.0@ == path_prefix(platform, path@),
        r.1 == prefix_len(r.0@),
        r.1 <= path@.len(),
{
    if platform != Platform::Windows {
        return (empty_prefix(), 0);
    }
    if path.len() >= 4 && path[0] == '\\' && path[1] == '\\' && path[2] == '?' && path[3] == '\\' {
        return literal_prefix_of(path);
    }
    if path.len() >= 2 && separates(platform, path[0]) && separates(platform, path[1]) {
        return machine_prefix_of(path);
    }
    if has_drive(path, 0) {
        let name = drive_name(path[0]);
        return (PathPrefix { kind: PrefixKind::Drive, name, share: String::new() }, 2);
    }
    (empty_prefix(), 0)
}

fn pieces_of(
    platform: Platform,
    literal: bool,
    path: &Vec<char>,
    from: usize,
) -> (r: Vec<String>)
    requires
        from <= path@.len(),
    ensures
        r.deep_view() == path_pieces(platform, literal, path@.skip(from as int)),
{
    let ghost rest = path@.skip(from as int);
    let mut pieces: Vec<String> = Vec::new();
    let mut piece = String::new();
    let mut i: usize = from;
    proof {
        assert(rest.take(0) =~= Seq::empty());
        assert(pieces.deep_view().push(piece@) =~= seq![Seq::<char>::empty()]);
    }
    while i < path.len()
        invariant
            from <= i <= path@.len(),
            rest == path@.skip(from as int),
            pieces.deep_view().push(piece@) == path_pieces(platform, literal, rest.take(i - from)),
        decreases path@.len() - i,
    {
        let c: char = path[i];
        let ghost before = pieces.deep_view();
        let ghost text = piece@;
        proof {
            assert(rest.take(i - from + 1).drop_last() =~= rest.take(i - from));
            assert(rest.take(i - from + 1).last() == c);
        }
        if divides_parts(platform, literal, c) {
            pieces.push(piece);
            piece = String::new();
            proof {
                assert(pieces.deep_view() =~= before.push(text));
                assert(piece@ =~= Seq::empty());
            }
        } else {
            piece.push(c);
            proof {
                assert(before.push(text).drop_last() =~= before);
            }
        }
        i = i + 1;
    }
    let ghost before = pieces.deep_view();
    let ghost text = piece@;
    pieces.push(piece);
    proof {
        assert(rest.take(i - from) =~= rest);
        assert(pieces.deep_view() =~= before.push(text));
    }
    pieces
}

fn is_empty(text: &String) -> (r: bool)
    ensures
        r == (text@.len() == 0),
{
    text.as_str().unicode_len() == 0
}

fn names_of(literal: bool, rooted: bool, pieces: &Vec<String>) -> (r: Vec<String>)
    ensures
        r.deep_view() == naming_pieces(literal, rooted, pieces.deep_view()),
{
    let ghost all = pieces.deep_view();
    let mut names: Vec<String> = Vec::new();
    let mut i: usize = 0;
    proof {
        assert(all.take(0) =~= Seq::empty());
        assert(names.deep_view() =~= Seq::empty());
        reveal_strlit(".");
        assert("."@ =~= seq!['.']);
    }
    while i < pieces.len()
        invariant
            i <= pieces@.len(),
            all == pieces.deep_view(),
            "."@ == seq!['.'],
            names.deep_view() == naming_pieces(literal, rooted, all.take(i as int)),
        decreases pieces@.len() - i,
    {
        let ghost before = names.deep_view();
        proof {
            assert(all.take(i + 1).drop_last() =~= all.take(i as int));
            assert(all.take(i + 1).last() == pieces@[i as int]@);
        }
        if !is_empty(&pieces[i]) && (literal || (!rooted && i == 0) || !same_text(
            pieces[i].as_str(),
            ".",
        )) {
            names.push(pieces[i].clone());
            proof {
                assert(names.deep_view() =~= before.push(pieces@[i as int]@));
            }
        }
        i = i + 1;
    }
    proof {
        assert(all.take(all.len() as int) =~= all);
    }
    names
}

fn same_texts(a: &Vec<String>, b: &Vec<String>) -> (r: bool)
    ensures
        r == (a.deep_view() == b.deep_view()),
{
    if a.len() != b.len() {
        proof {
            assert(a.deep_view().len() != b.deep_view().len());
        }
        return false;
    }
    let mut i: usize = 0;
    while i < a.len()
        invariant
            i <= a@.len(),
            a@.len() == b@.len(),
            forall|j: int| 0 <= j < i ==> #[trigger] a.deep_view()[j] == b.deep_view()[j],
        decreases a@.len() - i,
    {
        if a[i] != b[i] {
            proof {
                assert(a.deep_view()[i as int] != b.deep_view()[i as int]);
            }
            return false;
        }
        i = i + 1;
    }
    proof {
        assert(a.deep_view() =~= b.deep_view());
    }
    true
}

/// The parts of a path, and how many characters its prefix takes.
fn parts_of(platform: Platform, path: &Vec<char>) -> (r: (PathParts, usize))
    ensures
        r.0@ == path_parts(platform, path@),
        r.1 == prefix_len(r.0@.prefix),
        r.1 <= path@.len(),
{
    let (prefix, len) = prefix_of(platform, path);
    let literal = literal_kind(prefix.kind);
    let separated = len < path.len() && separates(platform, path[len]);
    let rooted = separated || prefix.kind == PrefixKind::Share || prefix.kind
        == PrefixKind::Device;
    let from: usize = if separated {
        len + 1
    } else {
        len
    };
    let pieces = pieces_of(platform, literal, path, from);
    let names = names_of(literal, rooted, &pieces);
    (PathParts { prefix, rooted, names }, len)
}

/// Whether two paths have the same parts.
pub fn is_same_path(platform: Platform, a: &str, b: &str) -> (r: bool)
    ensures
        r == same_path(platform, a@, b@),
{
    let (parts_a, _) = parts_of(platform, &characters(a));
    let (parts_b, _) = parts_of(platform, &characters(b));
    parts_a.prefix.kind == parts_b.prefix.kind && same_text(
        parts_a.prefix.name.as_str(),
        parts_b.prefix.name.as_str(),
    ) && same_text(parts_a.prefix.share.as_str(), parts_b.prefix.share.as_str()) && parts_a.rooted
        == parts_b.rooted && same_texts(&parts_a.names, &parts_b.names)
}

fn append_names(path: &mut String, names: &Vec<String>)
    ensures
        final(path)@ == old(path)@ + with_backslashes(names.deep_view()),
{
    let ghost before = path@;
    let ghost all = names.deep_view();
    let mut i: usize = 0;
    proof {
        assert(all.take(0) =~= Seq::empty());
        assert(before + Seq::<char>::empty() =~= before);
    }
    while i < names.len()
        invariant
            i <= names@.len(),
            all == names.deep_view(),
            path@ == before + with_backslashes(all.take(i as int)),
        decreases names@.len() - i,
    {
        path.append(names[i].as_str());
        path.append("\\");
        proof {
            let front = with_backslashes(all.take(i as int));
            let name = names@[i as int]@;
            assert(all.take(i + 1).drop_last() =~= all.take(i as int));
            assert(all.take(i + 1).last() == name);
            assert(before + front + name + "\\"@ =~= before + (front + name + "\\"@));
        }
        i = i + 1;
    }
    proof {
        assert(all.take(all.len() as int) =~= all);
    }
}

/// The name `name` below the directory `base`.
pub(crate) fn join_path(platform: Platform, base: &str, name: &str) -> (r: String)
    ensures
        r@ == joined_path(platform, base@, name@),
{
    let chars = characters(base);
    let (parts, prefix_size) = parts_of(platform, &chars);
    if literal_kind(parts.prefix.kind) {
        let mut path = base.substring_char(0, prefix_size).to_owned();
        path.append("\\");
        append_names(&mut path, &parts.names);
        path.append(name);
        return path;
    }
    let len: usize = chars.len();
    let direct = len == 0 || separates(platform, chars[len - 1]) || (platform == Platform::Windows
        && len == 2 && has_drive(&chars, 0));
    let mut path = base.to_owned();
    if !direct {
        if platform == Platform::Windows {
            path.append("\\");
        } else {
            path.append("/");
        }
    }
    path.append(name);
    path
}

} // verus!
