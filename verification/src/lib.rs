//! Decode Unix file mode bits.
//!
//! Every filesystem entry on Unix has a bit field of mode bits that
//! describes both the type of the file and its permissions. These are
//! classically displayed in the left column of `ls` output, for example
//! `drwxr-xr-x`.
//!
//! This library interprets the bits directly and does not depend on the
//! underlying OS: the caller supplies the raw 32-bit mode value, for
//! example the mode field reported by a `stat` call.

use vstd::prelude::*;
use vstd::string::StringExecFns;

verus! {

/// The bits of `mode` that encode the type of file: bits 12 through 15.
pub open spec fn spec_type_bits(mode: u32) -> u32 {
    (mode >> 12) & 0o17
}

/// Return just the bits representing the type of file.
fn type_bits(mode: u32) -> (r: u32)
    ensures
        r == spec_type_bits(mode),
{
    (mode >> 12) & 0o17
}

/// The different types of files known to this library
///
/// Can be constructed `From<u32>`.
#[derive(Debug, PartialEq, Eq, Structural, Clone, Copy)]
#[non_exhaustive]
pub enum Type {
    /// A plain file.
    File,
    /// A directory.
    Dir,
    /// A symbolic link.
    Symlink,
    /// A Unix-domain socket.
    Socket,
    /// A named pipe / FIFO.
    Fifo,
    /// A block device, such as a disk.
    BlockDevice,
    /// A character device, such as a `/dev/null`.
    CharDevice,
    /// A removed file in union filesystems.
    Whiteout,
    /// File type not recognized by this version of this library
    ///
    /// More types might be added in the future, so the semantics of this
    /// variant may change.
    Unknown,
}

/// The classification of a mode value: a fixed, total mapping from the
/// 4-bit type field to a [Type] variant.
pub open spec fn spec_classify(mode: u32) -> Type {
    let t = spec_type_bits(mode);
    if t == 0o001 {
        Type::Fifo
    } else if t == 0o002 {
        Type::CharDevice
    } else if t == 0o004 {
        Type::Dir
    } else if t == 0o006 {
        Type::BlockDevice
    } else if t == 0o010 {
        Type::File
    } else if t == 0o012 {
        Type::Symlink
    } else if t == 0o014 {
        Type::Socket
    } else if t == 0o016 {
        Type::Whiteout
    } else {
        Type::Unknown
    }
}

impl From<u32> for Type {
    /// Parse type from mode
    fn from(mode: u32) -> (t: Type)
        ensures
            t == spec_classify(mode),
    {
        match type_bits(mode) {
            0o001 => Type::Fifo,
            0o002 => Type::CharDevice,
            0o004 => Type::Dir,
            0o006 => Type::BlockDevice,
            0o010 => Type::File,
            0o012 => Type::Symlink,
            0o014 => Type::Socket,
            0o016 => Type::Whiteout,
            _ => Type::Unknown,
        }
    }
}

impl vstd::std_specs::convert::FromSpecImpl<u32> for Type {
    open spec fn obeys_from_spec() -> bool {
        true
    }

    open spec fn from_spec(mode: u32) -> Type {
        spec_classify(mode)
    }
}

/// Enum for specifying the context / "who" accesses in [is_allowed]
#[derive(Debug, PartialEq, Eq, Structural, Clone, Copy)]
pub enum Accessor {
    /// Access by anyone other than the user or group.
    Other,
    /// Access by the group of the file.
    Group,
    /// Access by the owner of the file.
    User,
}

/// Enum for specifying the type of access in [is_allowed]
#[derive(Debug, PartialEq, Eq, Structural, Clone, Copy)]
pub enum Access {
    /// Permission to "execute", broadly.
    ///
    /// For plain files, this does mean permission to execute. For
    /// directories, this grants permission to open files within the
    /// directory whose name is known.
    Execute,
    /// Permission to write the file.
    Write,
    /// Permission to read the file, or to read the names of files in a
    /// directory.
    Read,
}

/// The position of an accessor's 3-bit permission group, counted in
/// groups from the low end of the mode value: the owner's group sits
/// highest, the "other" group lowest.
pub open spec fn spec_accessor_rank(by: Accessor) -> u32 {
    match by {
        Accessor::User => 2,
        Accessor::Group => 1,
        Accessor::Other => 0,
    }
}

/// The position of an access kind's bit within a 3-bit permission
/// group: read is the high bit (4), write the middle (2), execute the
/// low bit (1).
pub open spec fn spec_access_rank(ty: Access) -> u32 {
    match ty {
        Access::Read => 2,
        Access::Write => 1,
        Access::Execute => 0,
    }
}

/// Whether `mode` grants `ty` access to accessor `by`: the single bit
/// selected by the two ranks is set.
pub open spec fn spec_is_allowed(by: Accessor, ty: Access, mode: u32) -> bool {
    (mode >> (3 * spec_accessor_rank(by))) & 0o7 & (1u32 << spec_access_rank(ty)) != 0
}

/// Check whether `mode` represents an allowed (`true`) or denied (`false`) access
pub fn is_allowed(by: Accessor, ty: Access, mode: u32) -> (r: bool)
    ensures
        r == spec_is_allowed(by, ty, mode),
{
    let by_rank: u32 = match by {
        Accessor::User => 2,
        Accessor::Group => 1,
        Accessor::Other => 0,
    };
    let bits = (mode >> (3 * by_rank)) & 0o7;
    let ty_rank: u32 = match ty {
        Access::Read => 2,
        Access::Write => 1,
        Access::Execute => 0,
    };
    bits & (1u32 << ty_rank) != 0
}

/// The set-user-ID bit of a mode value.
pub open spec fn spec_is_setuid(mode: u32) -> bool {
    mode & 0o4000 != 0
}

/// The set-group-ID bit of a mode value.
pub open spec fn spec_is_setgid(mode: u32) -> bool {
    mode & 0o2000 != 0
}

/// The sticky bit of a mode value.
pub open spec fn spec_is_sticky(mode: u32) -> bool {
    mode & 0o1000 != 0
}

/// Returns true if the set-user-ID bit is set
pub fn is_setuid(mode: u32) -> (r: bool)
    ensures
        r == spec_is_setuid(mode),
{
    mode & 0o4000 != 0
}

/// Returns true if the set-group-ID bit is set
pub fn is_setgid(mode: u32) -> (r: bool)
    ensures
        r == spec_is_setgid(mode),
{
    mode & 0o2000 != 0
}

/// Returns true if the sticky bit is set
pub fn is_sticky(mode: u32) -> (r: bool)
    ensures
        r == spec_is_sticky(mode),
{
    mode & 0o1000 != 0
}

/// Returns true if this mode represents a regular file.
pub fn is_file(mode: u32) -> (r: bool)
    ensures
        r == (spec_classify(mode) == Type::File),
{
    Type::from(mode) == Type::File
}

/// Returns true if this mode represents a directory.
pub fn is_dir(mode: u32) -> (r: bool)
    ensures
        r == (spec_classify(mode) == Type::Dir),
{
    Type::from(mode) == Type::Dir
}

/// Returns true if this mode represents a symlink.
pub fn is_symlink(mode: u32) -> (r: bool)
    ensures
        r == (spec_classify(mode) == Type::Symlink),
{
    Type::from(mode) == Type::Symlink
}

/// Returns true if this mode represents a fifo, also known as a named pipe.
pub fn is_fifo(mode: u32) -> (r: bool)
    ensures
        r == (spec_classify(mode) == Type::Fifo),
{
    Type::from(mode) == Type::Fifo
}

/// Returns true if this mode represents a character device.
pub fn is_char_device(mode: u32) -> (r: bool)
    ensures
        r == (spec_classify(mode) == Type::CharDevice),
{
    Type::from(mode) == Type::CharDevice
}

/// Returns true if this mode represents a block device.
pub fn is_block_device(mode: u32) -> (r: bool)
    ensures
        r == (spec_classify(mode) == Type::BlockDevice),
{
    Type::from(mode) == Type::BlockDevice
}

/// Returns true if this mode represents a Unix-domain socket.
pub fn is_socket(mode: u32) -> (r: bool)
    ensures
        r == (spec_classify(mode) == Type::Socket),
{
    Type::from(mode) == Type::Socket
}

/// The character that stands for a file type classification at
/// position 0 of the rendered form.
pub open spec fn spec_type_char(t: Type) -> char {
    match t {
        Type::Fifo => 'p',
        Type::CharDevice => 'c',
        Type::Dir => 'd',
        Type::BlockDevice => 'b',
        Type::File => '-',
        Type::Symlink => 'l',
        Type::Socket => 's',
        Type::Whiteout => 'w',
        Type::Unknown => '?',
    }
}

/// The character that stands for one accessor/access pair in the
/// rendered form.
///
/// In the execute slot a set special bit (setuid for the owner, setgid
/// for the group, sticky for other) overrides the default glyph: lower
/// case when execute is allowed, upper case when it is denied. The
/// other slots show `r`, `w` or `x` when allowed and `-` when denied.
pub open spec fn spec_perm_char(by: Accessor, ty: Access, mode: u32) -> char {
    let allowed = spec_is_allowed(by, ty, mode);
    match ty {
        Access::Execute => {
            if by == Accessor::User && spec_is_setuid(mode) {
                if allowed {
                    's'
                } else {
                    'S'
                }
            } else if by == Accessor::Group && spec_is_setgid(mode) {
                if allowed {
                    's'
                } else {
                    'S'
                }
            } else if by == Accessor::Other && spec_is_sticky(mode) {
                if allowed {
                    't'
                } else {
                    'T'
                }
            } else if allowed {
                'x'
            } else {
                '-'
            }
        },
        Access::Write => if allowed {
            'w'
        } else {
            '-'
        },
        Access::Read => if allowed {
            'r'
        } else {
            '-'
        },
    }
}

/// The canonical 10-character rendering of a mode value: the type
/// glyph, then the three characters of each accessor group in owner,
/// group, other order, each group in read, write, execute order.
pub open spec fn spec_render(mode: u32) -> Seq<char> {
    seq![
        spec_type_char(spec_classify(mode)),
        spec_perm_char(Accessor::User, Access::Read, mode),
        spec_perm_char(Accessor::User, Access::Write, mode),
        spec_perm_char(Accessor::User, Access::Execute, mode),
        spec_perm_char(Accessor::Group, Access::Read, mode),
        spec_perm_char(Accessor::Group, Access::Write, mode),
        spec_perm_char(Accessor::Group, Access::Execute, mode),
        spec_perm_char(Accessor::Other, Access::Read, mode),
        spec_perm_char(Accessor::Other, Access::Write, mode),
        spec_perm_char(Accessor::Other, Access::Execute, mode),
    ]
}

/// The one-character string that renders the type of `mode`.
fn type_str(mode: u32) -> (r: &'static str)
    ensures
        r@ =~= seq![spec_type_char(spec_classify(mode))],
{
    proof {
        reveal_strlit("p");
        reveal_strlit("c");
        reveal_strlit("d");
        reveal_strlit("b");
        reveal_strlit("-");
        reveal_strlit("l");
        reveal_strlit("s");
        reveal_strlit("w");
        reveal_strlit("?");
    }
    match Type::from(mode) {
        Type::Fifo => "p",
        Type::CharDevice => "c",
        Type::Dir => "d",
        Type::BlockDevice => "b",
        Type::File => "-",
        Type::Symlink => "l",
        Type::Socket => "s",
        Type::Whiteout => "w",
        _ => "?",
    }
}

/// The one-character string that renders one accessor/access pair of
/// `mode`.
fn perm_str(by: Accessor, ty: Access, mode: u32) -> (r: &'static str)
    ensures
        r@ =~= seq![spec_perm_char(by, ty, mode)],
{
    proof {
        reveal_strlit("r");
        reveal_strlit("w");
        reveal_strlit("x");
        reveal_strlit("s");
        reveal_strlit("S");
        reveal_strlit("t");
        reveal_strlit("T");
        reveal_strlit("-");
    }
    let allowed = is_allowed(by, ty, mode);
    match ty {
        Access::Execute => {
            if by == Accessor::User && is_setuid(mode) {
                if allowed {
                    "s"
                } else {
                    "S"
                }
            } else if by == Accessor::Group && is_setgid(mode) {
                if allowed {
                    "s"
                } else {
                    "S"
                }
            } else if by == Accessor::Other && is_sticky(mode) {
                if allowed {
                    "t"
                } else {
                    "T"
                }
            } else if allowed {
                "x"
            } else {
                "-"
            }
        },
        Access::Write => if allowed {
            "w"
        } else {
            "-"
        },
        Access::Read => if allowed {
            "r"
        } else {
            "-"
        },
    }
}

/// Convert Unix mode bits to a text string describing type and
/// permissions, as shown in `ls`.
pub fn to_string(mode: u32) -> (r: String)
    ensures
        r@ == spec_render(mode),
        r@.len() == 10,
{
    let mut s = String::new();
    s.append(type_str(mode));
    s.append(perm_str(Accessor::User, Access::Read, mode));
    s.append(perm_str(Accessor::User, Access::Write, mode));
    s.append(perm_str(Accessor::User, Access::Execute, mode));
    s.append(perm_str(Accessor::Group, Access::Read, mode));
    s.append(perm_str(Accessor::Group, Access::Write, mode));
    s.append(perm_str(Accessor::Group, Access::Execute, mode));
    s.append(perm_str(Accessor::Other, Access::Read, mode));
    s.append(perm_str(Accessor::Other, Access::Write, mode));
    s.append(perm_str(Accessor::Other, Access::Execute, mode));
    proof {
        assert(s@ =~= spec_render(mode));
    }
    s
}

/// A spec-level statement that `mode` falls under classification `t`.
pub open spec fn spec_classified_as(mode: u32, t: Type) -> bool {
    spec_classify(mode) == t
}

/// Every mode value falls under exactly one classification, and the
/// rendered form's first character is that classification's glyph.
pub proof fn lemma_exactly_one_classification(mode: u32)
    ensures
        spec_classified_as(mode, spec_classify(mode)),
        forall|t1: Type, t2: Type|
            spec_classified_as(mode, t1) && spec_classified_as(mode, t2) ==> t1 == t2,
        spec_render(mode)[0] == spec_type_char(spec_classify(mode)),
{
}

/// The classification reads bits 12 through 15 of the mode value only:
/// two modes that agree on those bits are classified alike.
pub proof fn lemma_classify_reads_type_bits_only(m1: u32, m2: u32)
    requires
        spec_type_bits(m1) == spec_type_bits(m2),
    ensures
        spec_classify(m1) == spec_classify(m2),
{
}

/// Or-ing any combination of bits outside the type field — permission
/// bits, special bits, or bits above the type field — into a mode
/// value never changes its classification.
pub proof fn lemma_classify_ignores_permission_bits(mode: u32, bits: u32)
    requires
        bits & 0o170000 == 0,
    ensures
        spec_classify(mode | bits) == spec_classify(mode),
{
    assert(((mode | bits) >> 12) & 0o17 == (mode >> 12) & 0o17) by (bit_vector)
        requires
            bits & 0o170000 == 0,
    ;
}

/// The index in the rendered form at which the character for an
/// accessor/access pair stands: position 1 through 9, owner group
/// first, read before write before execute.
pub open spec fn spec_perm_position(by: Accessor, ty: Access) -> int {
    1 + 3 * (2 - spec_accessor_rank(by)) + (2 - spec_access_rank(ty))
}

/// Whether a permission character of the rendered form stands for a
/// granted access: one of the lower-case glyphs `r`, `w`, `x`, `s`,
/// `t`. The remaining glyphs `-`, `S` and `T` all stand for a denied
/// access.
pub open spec fn spec_granted_glyph(c: char) -> bool {
    c == 'r' || c == 'w' || c == 'x' || c == 's' || c == 't'
}

/// The permission character of the rendered form agrees with
/// [is_allowed]: at the position for each accessor/access pair stands
/// a granted glyph if and only if the access is allowed, and a denied
/// one (`-`, or upper-case `S`/`T` under a special bit in the execute
/// slot) if and only if it is denied.
pub proof fn lemma_is_allowed_matches_render(by: Accessor, ty: Access, mode: u32)
    ensures
        spec_render(mode)[spec_perm_position(by, ty)] == spec_perm_char(by, ty, mode),
        spec_is_allowed(by, ty, mode) == spec_granted_glyph(spec_perm_char(by, ty, mode)),
        !spec_is_allowed(by, ty, mode) == (spec_perm_char(by, ty, mode) == '-'
            || spec_perm_char(by, ty, mode) == 'S' || spec_perm_char(by, ty, mode) == 'T'),
{
}

/// Setting or clearing the setuid bit changes at most the owner
/// execute character of the rendered form: the type glyph, the owner
/// read and write characters and all six group/other characters are
/// unchanged.
pub proof fn lemma_setuid_affects_only_owner_execute(m1: u32, m2: u32)
    requires
        m1 | 0o4000 == m2 | 0o4000,
    ensures
        forall|i: int| 0 <= i < 10 && i != 3 ==> spec_render(m1)[i] == spec_render(m2)[i],
{
    assert(((m1 >> (3 * 2)) & 0o7 == (m2 >> (3 * 2)) & 0o7) && ((m1 >> (3 * 1)) & 0o7 == (m2
        >> (3 * 1)) & 0o7) && ((m1 >> (3 * 0)) & 0o7 == (m2 >> (3 * 0)) & 0o7) && (((m1 >> 12)
        & 0o17) == ((m2 >> 12) & 0o17)) && (m1 & 0o2000 == m2 & 0o2000) && (m1 & 0o1000 == m2
        & 0o1000)) by (bit_vector)
        requires
            m1 | 0o4000 == m2 | 0o4000,
    ;
}

} // verus!
