//! Predicate behavior: type predicates, permission queries, special
//! bits, and their agreement with the rendered form.

use unix_mode::{
    is_allowed, is_block_device, is_char_device, is_dir, is_fifo, is_file, is_setgid, is_setuid,
    is_socket, is_sticky, is_symlink, to_string, Access, Accessor, Type,
};

#[test]
fn type_predicates_match_classification() {
    let modes = [
        0o0010000u32, 0o0020000, 0o0040000, 0o0060000, 0o0100000, 0o0120000, 0o0140000,
        0o0160000, 0o0000000, 0o0170000, 0o0040755, 0o0100640, 0o0041777,
    ];
    for mode in modes {
        let t = Type::from(mode);
        assert_eq!(is_file(mode), t == Type::File);
        assert_eq!(is_dir(mode), t == Type::Dir);
        assert_eq!(is_symlink(mode), t == Type::Symlink);
        assert_eq!(is_fifo(mode), t == Type::Fifo);
        assert_eq!(is_char_device(mode), t == Type::CharDevice);
        assert_eq!(is_block_device(mode), t == Type::BlockDevice);
        assert_eq!(is_socket(mode), t == Type::Socket);
    }
}

#[test]
fn classification_table() {
    assert_eq!(Type::from(0o0010000), Type::Fifo);
    assert_eq!(Type::from(0o0020000), Type::CharDevice);
    assert_eq!(Type::from(0o0040000), Type::Dir);
    assert_eq!(Type::from(0o0060000), Type::BlockDevice);
    assert_eq!(Type::from(0o0100000), Type::File);
    assert_eq!(Type::from(0o0120000), Type::Symlink);
    assert_eq!(Type::from(0o0140000), Type::Socket);
    assert_eq!(Type::from(0o0160000), Type::Whiteout);
    assert_eq!(Type::from(0o0000000), Type::Unknown);
    assert_eq!(Type::from(0o0030000), Type::Unknown);
    assert_eq!(Type::from(0o0170000), Type::Unknown);
}

#[test]
fn exactly_one_type_predicate_holds() {
    let modes = [
        0o0010000u32, 0o0020000, 0o0040000, 0o0060000, 0o0100000, 0o0120000, 0o0140000,
        0o0160000, 0o0000000, 0o0170000,
    ];
    for mode in modes {
        let t = Type::from(mode);
        let hits = [
            is_file(mode),
            is_dir(mode),
            is_symlink(mode),
            is_fifo(mode),
            is_char_device(mode),
            is_block_device(mode),
            is_socket(mode),
            t == Type::Whiteout,
            t == Type::Unknown,
        ]
        .iter()
        .filter(|&&b| b)
        .count();
        assert_eq!(hits, 1);
    }
}

#[test]
fn classify_ignores_permission_and_special_bits() {
    let types = [
        0o0010000u32, 0o0020000, 0o0040000, 0o0060000, 0o0100000, 0o0120000, 0o0140000,
        0o0160000, 0o0000000,
    ];
    let extras = [0o0000000u32, 0o0000755, 0o0007777, 0o0004000, 0o0001000, 0xFFFF0000];
    for t in types {
        for e in extras {
            assert_eq!(Type::from(t | e), Type::from(t));
        }
    }
}

#[test]
fn allowed_by_group() {
    let mode = 0o0100640;
    assert!(is_allowed(Accessor::User, Access::Read, mode));
    assert!(is_allowed(Accessor::User, Access::Write, mode));
    assert!(!is_allowed(Accessor::User, Access::Execute, mode));
    assert!(is_allowed(Accessor::Group, Access::Read, mode));
    assert!(!is_allowed(Accessor::Group, Access::Write, mode));
    assert!(!is_allowed(Accessor::Group, Access::Execute, mode));
    assert!(!is_allowed(Accessor::Other, Access::Read, mode));
    assert!(!is_allowed(Accessor::Other, Access::Write, mode));
    assert!(!is_allowed(Accessor::Other, Access::Execute, mode));
}

#[test]
fn special_bit_predicates() {
    assert!(is_setuid(0o0104000));
    assert!(!is_setuid(0o0102000));
    assert!(is_setgid(0o0102000));
    assert!(!is_setgid(0o0104000));
    assert!(is_sticky(0o0101000));
    assert!(!is_sticky(0o0106000));
    // All three can be set at once.
    assert!(is_setuid(0o0107777) && is_setgid(0o0107777) && is_sticky(0o0107777));
}

#[test]
fn allowed_matches_rendered_characters() {
    let modes = [
        0o0040755u32, 0o0100640, 0o0041777, 0o0106111, 0o0106000, 0o0101000, 0o0100340,
        0o0107777, 0o0000000,
    ];
    let pairs = [
        (Accessor::User, Access::Read, 1usize),
        (Accessor::User, Access::Write, 2),
        (Accessor::User, Access::Execute, 3),
        (Accessor::Group, Access::Read, 4),
        (Accessor::Group, Access::Write, 5),
        (Accessor::Group, Access::Execute, 6),
        (Accessor::Other, Access::Read, 7),
        (Accessor::Other, Access::Write, 8),
        (Accessor::Other, Access::Execute, 9),
    ];
    for mode in modes {
        let s: Vec<char> = to_string(mode).chars().collect();
        for (by, ty, pos) in pairs {
            let c = s[pos];
            let granted = c == 'r' || c == 'w' || c == 'x' || c == 's' || c == 't';
            assert_eq!(is_allowed(by, ty, mode), granted);
            let denied = c == '-' || c == 'S' || c == 'T';
            assert_eq!(!is_allowed(by, ty, mode), denied);
        }
    }
}

#[test]
fn setuid_changes_only_owner_execute_char() {
    let modes = [0o0100640u32, 0o0040755, 0o0100111, 0o0000000, 0o0102741];
    for mode in modes {
        let plain: Vec<char> = to_string(mode & !0o4000).chars().collect();
        let set: Vec<char> = to_string(mode | 0o4000).chars().collect();
        for i in 0..10 {
            if i != 3 {
                assert_eq!(plain[i], set[i]);
            }
        }
        // The owner execute glyph changes case/shape, not meaning.
        assert_eq!(set[3], if plain[3] == 'x' { 's' } else { 'S' });
    }
}
