use lictool::git::GitConfig;

#[test]
fn loading_identity_gives_plain_strings() {
    let g = GitConfig::load();
    // Nothing is promised about the machine's configuration; the identity
    // must simply be present, with possibly empty fields.
    assert!(g.username.capacity() >= g.username.len());
    assert!(g.email.capacity() >= g.email.len());
}
