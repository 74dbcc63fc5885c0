use vibecat::settle::{settle, Settled};

/// Settle outcomes in order the way the connection loops do.
fn settle_in_order(default: &'static str, outcomes: Vec<Result<u32, &'static str>>) -> Result<u32, &'static str> {
    let mut last = default;
    for o in outcomes {
        match settle(o) {
            Settled::Decided(r) => return r,
            Settled::Pending(e) => last = e,
        }
    }
    Err(last)
}

#[test]
fn first_success_wins() {
    assert_eq!(settle_in_order("none", vec![Err("a"), Ok(1), Err("b"), Ok(2)]), Ok(1));
}

#[test]
fn last_failure_is_reported() {
    assert_eq!(settle_in_order("none", vec![Err("a"), Err("b")]), Err("b"));
}

#[test]
fn no_attempt_gives_the_default() {
    assert_eq!(settle_in_order("none", vec![]), Err("none"));
}
