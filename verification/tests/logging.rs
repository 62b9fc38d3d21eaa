use std::error::Error;
use std::fmt;

use andon::ErrorChain;

#[derive(Debug)]
struct Leaf;

impl fmt::Display for Leaf {
    fn fmt(&self, f: &mut fmt::Formatter<'_>) -> fmt::Result {
        f.write_str("connection refused")
    }
}

impl Error for Leaf {}

#[derive(Debug)]
struct Wrapper(Leaf);

impl fmt::Display for Wrapper {
    fn fmt(&self, f: &mut fmt::Formatter<'_>) -> fmt::Result {
        f.write_str("request failed")
    }
}

impl Error for Wrapper {
    fn source(&self) -> Option<&(dyn Error + 'static)> {
        Some(&self.0)
    }
}

/// The messages of an error and of each of its causes, outermost first.
fn chain_of(e: &(dyn Error + 'static)) -> ErrorChain {
    let mut chain = ErrorChain::new(e.to_string());
    let mut cause = e.source();
    while let Some(c) = cause {
        chain = chain.caused_by(c.to_string());
        cause = c.source();
    }
    chain
}

#[test]
fn single_error_has_no_separator() {
    assert_eq!(chain_of(&Leaf).to_string(), "connection refused");
}

#[test]
fn chain_includes_all_causes() {
    assert_eq!(
        chain_of(&Wrapper(Leaf)).to_string(),
        "request failed: connection refused"
    );
}

#[test]
fn three_level_chain_is_joined_in_order() {
    let chain = ErrorChain::new("a".to_string())
        .caused_by("b".to_string())
        .caused_by("c".to_string());
    assert_eq!(chain.to_string(), "a: b: c");
}
