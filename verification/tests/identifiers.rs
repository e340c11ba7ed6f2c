use playground::identifier::WorkspaceId;
use playground::subprocess::{Argument, Invocation};

#[test]
fn names_are_the_hyphenated_lower_case_form() {
    let id = WorkspaceId { bits: 0xa1a2a3a4b1b2c1c2d1d2d3d4d5d6d7d8 };
    assert_eq!(id.artifact_file(), "a1a2a3a4-b1b2-c1c2-d1d2-d3d4d5d6d7d8");
    assert_eq!(id.source_file(), "a1a2a3a4-b1b2-c1c2-d1d2-d3d4d5d6d7d8.rs");
}

#[test]
fn names_of_the_smallest_and_largest_identifier() {
    let zero = WorkspaceId { bits: 0 };
    assert_eq!(zero.artifact_file(), "00000000-0000-0000-0000-000000000000");
    assert_eq!(zero.source_file(), "00000000-0000-0000-0000-000000000000.rs");
    let all = WorkspaceId { bits: u128::MAX };
    assert_eq!(all.artifact_file(), "ffffffff-ffff-ffff-ffff-ffffffffffff");
    assert_eq!(all.source_file(), "ffffffff-ffff-ffff-ffff-ffffffffffff.rs");
}

#[test]
fn digits_are_written_most_significant_first() {
    let id = WorkspaceId { bits: 0x0123456789abcdef_fedcba9876543210 };
    assert_eq!(id.artifact_file(), "01234567-89ab-cdef-fedc-ba9876543210");
    let low = WorkspaceId { bits: 1 };
    assert_eq!(low.artifact_file(), "00000000-0000-0000-0000-000000000001");
    let high = WorkspaceId { bits: 1u128 << 127 };
    assert_eq!(high.artifact_file(), "80000000-0000-0000-0000-000000000000");
}

#[test]
fn names_agree_with_the_identifier_crate() {
    let samples: [u128; 5] = [
        0,
        u128::MAX,
        0x67e5504410b1426f9247bb680e5fe0c8,
        0x0000_0000_0000_4000_8000_0000_0000_0000,
        0xdead_beef_0000_1111_2222_3333_4444_5555,
    ];
    for bits in samples {
        let expected = uuid::Uuid::from_u128(bits).to_string();
        let id = WorkspaceId { bits };
        assert_eq!(id.artifact_file(), expected);
        assert_eq!(id.source_file(), format!("{}.rs", expected));
    }
}

#[test]
fn source_and_program_have_different_names() {
    let id = WorkspaceId { bits: 42 };
    assert_ne!(id.source_file(), id.artifact_file());
}

#[test]
fn different_identifiers_give_different_names() {
    let mut seen = std::collections::HashSet::new();
    for shift in 0..128u32 {
        let id = WorkspaceId { bits: 1u128 << shift };
        assert!(seen.insert(id.artifact_file()));
        assert!(seen.insert(id.source_file()));
    }
    assert_eq!(seen.len(), 256);
}

#[test]
fn names_hold_no_separator() {
    for bits in [0u128, u128::MAX, 0x2f2f2f2f2f2f2f2f2f2f2f2f2f2f2f2f, 0x5c5c5c5c2e2e2e2e5c5c5c5c2e2e2e2e] {
        let id = WorkspaceId { bits };
        for name in [id.artifact_file(), id.source_file()] {
            assert!(!name.is_empty());
            assert!(!name.starts_with('.'));
            assert!(!name.contains('/'));
            assert!(!name.contains('\\'));
            assert!(!name.contains('\0'));
        }
    }
}

#[test]
fn generated_identifiers_have_version_four_and_the_standard_variant() {
    for _ in 0..200 {
        let id = WorkspaceId::generate();
        assert_eq!((id.bits >> 76) & 0xf, 4);
        assert_eq!((id.bits >> 62) & 0x3, 2);
        let name = id.artifact_file();
        assert_eq!(name.len(), 36);
        assert_eq!(name.as_bytes()[14], b'4');
        assert!(matches!(name.as_bytes()[19], b'8' | b'9' | b'a' | b'b'));
        let parsed = uuid::Uuid::parse_str(&name).unwrap();
        assert_eq!(parsed.as_u128(), id.bits);
        assert_eq!(parsed.get_version_num(), 4);
    }
}

#[test]
fn generated_identifiers_do_not_repeat() {
    let mut seen = std::collections::HashSet::new();
    for _ in 0..10_000 {
        assert!(seen.insert(WorkspaceId::generate().bits));
    }
}

#[test]
fn compile_command_names_the_compiler_the_source_and_the_program() {
    let call = Invocation::compile("a.rs".to_string(), "a".to_string());
    assert_eq!(call.program, Argument::Literal { text: "rustc".to_string() });
    assert_eq!(
        call.arguments,
        vec![
            Argument::InWorkspace { name: "a.rs".to_string() },
            Argument::Literal { text: "-o".to_string() },
            Argument::InWorkspace { name: "a".to_string() },
        ]
    );
}

#[test]
fn run_command_is_the_program_alone() {
    let call = Invocation::run("a".to_string());
    assert_eq!(call.program, Argument::InWorkspace { name: "a".to_string() });
    assert!(call.arguments.is_empty());
}
