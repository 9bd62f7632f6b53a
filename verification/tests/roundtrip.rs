use loopx::intake::parse_loopx_intake;
use loopx::types::{LoopxIntakeTarget, LoopxItemKind};

#[test]
fn canonical_item_urls_parse_back_to_their_target() {
    for input in [
        "https://github.com/OpenAI/Codex/issues/42?tab=1",
        "git@github.com:openai/codex/pull/7",
        "openai/codex.git/issues/1",
    ] {
        let target = parse_loopx_intake(input).unwrap();
        match &target {
            LoopxIntakeTarget::Item { item } => {
                assert_eq!(parse_loopx_intake(&item.canonical_url()), Ok(target.clone()));
            }
            LoopxIntakeTarget::Repository { .. } => panic!("expected an item"),
        }
    }
}

#[test]
fn canonical_repository_urls_parse_back_to_their_target() {
    let target = parse_loopx_intake("https://www.github.com/Rust-Lang/rust/issues/").unwrap();
    match &target {
        LoopxIntakeTarget::Repository { repository } => {
            let url = format!("https://{}", repository.canonical_id());
            assert_eq!(url, "https://github.com/rust-lang/rust");
            assert_eq!(parse_loopx_intake(&url), Ok(target.clone()));
        }
        LoopxIntakeTarget::Item { .. } => panic!("expected a repository"),
    }
    let pull = parse_loopx_intake("https://github.com/a/b/pull/9").unwrap();
    match pull {
        LoopxIntakeTarget::Item { item } => {
            assert_eq!(item.kind, LoopxItemKind::PullRequest);
            assert_eq!(item.canonical_url(), "https://github.com/a/b/pull/9");
        }
        LoopxIntakeTarget::Repository { .. } => panic!("expected an item"),
    }
}
