use crabby::{repo_refs, RepoRef};

#[test]
fn parse_splits_at_first_slash() {
    let r = RepoRef::parse("rust-lang/rust").unwrap();
    assert_eq!(r.owner, "rust-lang");
    assert_eq!(r.repo, "rust");
    let r = RepoRef::parse("a/b/c").unwrap();
    assert_eq!(r.owner, "a");
    assert_eq!(r.repo, "b/c");
}

#[test]
fn parse_rejects_entries_without_slash() {
    assert!(RepoRef::parse("badentry").is_none());
    assert!(RepoRef::parse("").is_none());
}

#[test]
fn parse_rejects_empty_sides() {
    assert!(RepoRef::parse("/repo").is_none());
    assert!(RepoRef::parse("owner/").is_none());
    assert!(RepoRef::parse("/").is_none());
}

#[test]
fn repo_refs_drops_malformed_entries() {
    let entries = vec!["a/b".to_string(), "badentry".to_string(), "c/d".to_string()];
    let refs = repo_refs(&entries);
    assert_eq!(refs.len(), 2);
    assert_eq!((refs[0].owner.as_str(), refs[0].repo.as_str()), ("a", "b"));
    assert_eq!((refs[1].owner.as_str(), refs[1].repo.as_str()), ("c", "d"));
    assert!(repo_refs(&vec!["badentry".to_string()]).is_empty());
}
