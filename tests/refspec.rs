use refspec_core::compile::{compile, resolve_mode, ParseError};
use refspec_core::matcher::{apply, Candidate, MatchError};
use refspec_core::options::{checkout_is_complete, CloneError, Options, OutputFormat, RepositoryKind};
use refspec_core::types::{Fetch, Instruction, Mode, Operation, Push, Shape};

fn snapshot(names: &[&[u8]]) -> Vec<Candidate> {
    names
        .iter()
        .map(|n| Candidate { name: n.to_vec(), target: vec![0u8; 20] })
        .collect()
}

#[test]
fn glob_spec_maps_branches_to_remote_tracking_refs() {
    let i = compile(b"refs/heads/*:refs/remotes/origin/*", Operation::Fetch).unwrap();
    assert!(matches!(
        i,
        Instruction::Fetch(Fetch::AndUpdateMultipleWithGlob {
            src: b"refs/heads/*",
            dest: b"refs/remotes/origin/*",
            allow_non_fast_forward: false
        })
    ));
    let m = apply(&i, &snapshot(&[b"refs/heads/main"])).unwrap();
    assert_eq!(m.updates.len(), 1);
    assert_eq!(m.updates[0].src, b"refs/heads/main".to_vec());
    assert_eq!(m.updates[0].dest, Some(b"refs/remotes/origin/main".to_vec()));
    assert!(!m.updates[0].allow_non_fast_forward);
    assert!(m.exclusions.is_empty());
}

#[test]
fn glob_spec_skips_refs_outside_the_pattern() {
    let i = compile(b"+refs/heads/*:refs/remotes/origin/*", Operation::Fetch).unwrap();
    let m = apply(
        &i,
        &snapshot(&[b"refs/tags/v1", b"refs/heads/a/b", b"HEAD", b"refs/heads/x"]),
    )
    .unwrap();
    assert_eq!(m.updates.len(), 2);
    assert_eq!(m.updates[0].dest, Some(b"refs/remotes/origin/a/b".to_vec()));
    assert_eq!(m.updates[1].src, b"refs/heads/x".to_vec());
    assert_eq!(m.updates[1].dest, Some(b"refs/remotes/origin/x".to_vec()));
    assert!(m.updates[1].allow_non_fast_forward);
}

#[test]
fn glob_in_the_middle_keeps_prefix_and_suffix() {
    let i = compile(b"refs/*/head:refs/x/*/y", Operation::Push).unwrap();
    assert_eq!(i.shape(), Shape::GlobToGlob);
    let m = apply(&i, &snapshot(&[b"refs/a/head", b"refs/head", b"refs/b/heads"])).unwrap();
    assert_eq!(m.updates.len(), 1);
    assert_eq!(m.updates[0].dest, Some(b"refs/x/a/y".to_vec()));
}

#[test]
fn prefix_and_suffix_may_not_overlap() {
    let i = compile(b"a*a:b*", Operation::Fetch).unwrap();
    let m = apply(&i, &snapshot(&[b"a", b"aa", b"aba"])).unwrap();
    assert_eq!(m.updates.len(), 2);
    assert_eq!(m.updates[0].dest, Some(b"b".to_vec()));
    assert_eq!(m.updates[1].dest, Some(b"bb".to_vec()));
}

#[test]
fn exclude_single_yields_only_an_exclusion() {
    let i = compile(b"^refs/heads/secret", Operation::Push).unwrap();
    assert!(matches!(i, Instruction::Push(Push::ExcludeSingle { src: b"refs/heads/secret" })));
    let m = apply(&i, &snapshot(&[b"refs/heads/main", b"refs/heads/secret"])).unwrap();
    assert!(m.updates.is_empty());
    assert_eq!(m.exclusions, vec![b"refs/heads/secret".to_vec()]);
}

#[test]
fn exclude_glob_names_every_matching_ref() {
    let i = compile(b"^refs/heads/wip/*", Operation::Fetch).unwrap();
    assert!(matches!(i, Instruction::Fetch(Fetch::ExcludeMultipleWithGlob { .. })));
    let m = apply(
        &i,
        &snapshot(&[b"refs/heads/wip/a", b"refs/heads/main", b"refs/heads/wip/b"]),
    )
    .unwrap();
    assert!(m.updates.is_empty());
    assert_eq!(m.exclusions, vec![b"refs/heads/wip/a".to_vec(), b"refs/heads/wip/b".to_vec()]);
}

#[test]
fn two_globs_in_source_are_refused() {
    assert_eq!(
        compile(b"refs/*/*:refs/remotes/*", Operation::Fetch).err(),
        Some(ParseError::MultipleGlobs)
    );
    assert_eq!(compile(b"refs/heads/*:refs/*/*", Operation::Push).err(), Some(ParseError::MultipleGlobs));
}

#[test]
fn negative_spec_with_destination_is_refused() {
    assert_eq!(
        compile(b"^refs/heads/a:refs/heads/b", Operation::Fetch).err(),
        Some(ParseError::NegativeWithDestination)
    );
}

#[test]
fn single_without_source_ref_yields_nothing() {
    let i = Instruction::Push(Push::Single {
        src: b"refs/heads/a",
        dest: b"refs/heads/b",
        allow_non_fast_forward: false,
    });
    let m = apply(&i, &snapshot(&[b"refs/heads/c", b"refs/heads/b"])).unwrap();
    assert!(m.updates.is_empty());
    assert!(m.exclusions.is_empty());
}

#[test]
fn single_with_source_ref_yields_one_update() {
    let i = compile(b"+refs/heads/a:refs/heads/b", Operation::Push).unwrap();
    assert!(matches!(
        i,
        Instruction::Push(Push::Single { src: b"refs/heads/a", dest: b"refs/heads/b", allow_non_fast_forward: true })
    ));
    let m = apply(&i, &snapshot(&[b"refs/heads/a", b"refs/heads/a"])).unwrap();
    assert_eq!(m.updates.len(), 1);
    assert_eq!(m.updates[0].dest, Some(b"refs/heads/b".to_vec()));
    assert!(m.updates[0].allow_non_fast_forward);
}

#[test]
fn literal_without_destination() {
    let push = compile(b"refs/heads/main", Operation::Push).unwrap();
    assert!(matches!(
        push,
        Instruction::Push(Push::SingleMatching { src_and_dest: b"refs/heads/main", allow_non_fast_forward: false })
    ));
    let m = apply(&push, &snapshot(&[b"refs/heads/main"])).unwrap();
    assert_eq!(m.updates[0].dest, Some(b"refs/heads/main".to_vec()));

    let fetch = compile(b"+refs/heads/main", Operation::Fetch).unwrap();
    assert!(matches!(fetch, Instruction::Fetch(Fetch::Only { src: b"refs/heads/main" })));
    assert_eq!(fetch.destination(), None);
    let m = apply(&fetch, &snapshot(&[b"refs/heads/main"])).unwrap();
    assert_eq!(m.updates.len(), 1);
    assert_eq!(m.updates[0].dest, None);
    assert!(!m.updates[0].allow_non_fast_forward);
}

#[test]
fn duplicate_names_under_a_glob_are_ambiguous() {
    let i = compile(b"refs/heads/*:refs/remotes/origin/*", Operation::Fetch).unwrap();
    let r = apply(&i, &snapshot(&[b"refs/heads/a", b"refs/tags/t", b"refs/heads/a"]));
    assert_eq!(r.err(), Some(MatchError::AmbiguousGlobSubstitution));
    let r = apply(&i, &snapshot(&[b"refs/tags/t", b"refs/tags/t", b"refs/heads/a"]));
    assert!(r.is_ok());
}

#[test]
fn each_parse_error_has_an_input() {
    assert_eq!(compile(b"", Operation::Fetch).err(), Some(ParseError::EmptyPattern));
    assert_eq!(compile(b"+", Operation::Fetch).err(), Some(ParseError::EmptyPattern));
    assert_eq!(compile(b"refs/heads/a:", Operation::Push).err(), Some(ParseError::EmptyPattern));
    assert_eq!(compile(b":refs/heads/a", Operation::Push).err(), Some(ParseError::EmptyPattern));
    assert_eq!(
        compile(b"refs/heads/*:refs/heads/x", Operation::Fetch).err(),
        Some(ParseError::GlobCountMismatch)
    );
    assert_eq!(compile(b"refs/heads/*", Operation::Push).err(), Some(ParseError::GlobCountMismatch));
    assert_eq!(compile(b"+^refs/heads/a", Operation::Fetch).err(), Some(ParseError::ForceNegativeConflict));
    assert_eq!(compile(b"^+refs/heads/a", Operation::Fetch).err(), Some(ParseError::ForceNegativeConflict));
    assert_eq!(compile(b"refs/heads/a b", Operation::Fetch).err(), Some(ParseError::InvalidRefNameBytes));
    assert_eq!(compile(b"a:b:c", Operation::Fetch).err(), Some(ParseError::InvalidRefNameBytes));
    assert_eq!(compile(b"refs/heads/\x01", Operation::Fetch).err(), Some(ParseError::InvalidRefNameBytes));
}

#[test]
fn non_text_bytes_are_kept_verbatim() {
    let i = compile(b"refs/heads/\xff*:refs/r/*\xfe", Operation::Fetch).unwrap();
    let m = apply(&i, &snapshot(&[b"refs/heads/\xff\x80x"])).unwrap();
    assert_eq!(m.updates[0].dest, Some(b"refs/r/\x80x\xfe".to_vec()));
}

#[test]
fn instruction_accessors() {
    let i = compile(b"+refs/heads/*:refs/remotes/o/*", Operation::Push).unwrap();
    assert_eq!(i.operation(), Operation::Push);
    assert_eq!(i.source(), b"refs/heads/*");
    assert_eq!(i.destination(), Some(&b"refs/remotes/o/*"[..]));
    assert!(i.allow_non_fast_forward());
}

#[test]
fn clone_options() {
    let human = Options { format: OutputFormat::Human, bare: false, handshake_info: true };
    assert_eq!(human.repository_kind(), Ok(RepositoryKind::WithWorktree));
    let bare = Options { bare: true, ..human };
    assert_eq!(bare.repository_kind(), Ok(RepositoryKind::Bare));
    let json = Options { format: OutputFormat::Json, ..human };
    assert_eq!(json.repository_kind(), Err(CloneError::UnsupportedFormat));
    assert!(checkout_is_complete(0, 0));
    assert!(!checkout_is_complete(1, 0));
    assert!(!checkout_is_complete(0, 2));
}

#[test]
fn markers_resolve_to_a_mode() {
    assert_eq!(resolve_mode(b"refs/heads/a"), Ok((Mode::Normal, 0)));
    assert_eq!(resolve_mode(b"+refs/heads/a"), Ok((Mode::Force, 1)));
    assert_eq!(resolve_mode(b"^refs/heads/a"), Ok((Mode::Negative, 1)));
    assert_eq!(resolve_mode(b"++a"), Ok((Mode::Force, 1)));
    assert_eq!(resolve_mode(b""), Ok((Mode::Normal, 0)));
    assert_eq!(resolve_mode(b"+^a"), Err(ParseError::ForceNegativeConflict));
}

#[test]
fn negative_specs_never_update() {
    let refs = snapshot(&[b"refs/heads/a", b"refs/heads/b"]);
    for raw in [&b"^refs/heads/a"[..], b"^refs/heads/*", b"^refs/*/b"] {
        for op in [Operation::Push, Operation::Fetch] {
            let m = apply(&compile(raw, op).unwrap(), &refs).unwrap();
            assert!(m.updates.is_empty());
            assert!(!m.exclusions.is_empty());
        }
    }
}
