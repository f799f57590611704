use shelterflex_contracts::reentrancy_guard::{enter, exit, Scoped};

#[derive(Copy, Clone, Debug, Eq, PartialEq)]
enum TestError {
    ReentrancyDetected,
}

/// A contract whose only state is the lock.
struct GuardHarness {
    reentrancy: Option<bool>,
}

impl GuardHarness {
    /// Manual enter/exit: the lock must be free again once the call returns.
    fn manual(&mut self) -> Result<(), TestError> {
        enter(&mut self.reentrancy, TestError::ReentrancyDetected)?;
        exit(&mut self.reentrancy);
        Ok(())
    }

    /// Attempt to take the lock twice in one frame: the second must be rejected.
    fn nested(&mut self) -> Result<(), TestError> {
        enter(&mut self.reentrancy, TestError::ReentrancyDetected)?;
        let inner = enter(&mut self.reentrancy, TestError::ReentrancyDetected);
        exit(&mut self.reentrancy);
        inner
    }

    fn scoped(&mut self) -> Result<(), TestError> {
        let _guard = Scoped::new(&mut self.reentrancy, TestError::ReentrancyDetected)?;
        Ok(())
    }

    /// The scope guard must release the lock even when the body returns `Err`.
    fn scoped_err(&mut self) -> Result<(), TestError> {
        let _guard = Scoped::new(&mut self.reentrancy, TestError::ReentrancyDetected)?;
        Err(TestError::ReentrancyDetected)
    }

    fn locked(&self) -> bool {
        self.reentrancy.unwrap_or(false)
    }
}

fn harness() -> GuardHarness {
    GuardHarness { reentrancy: None }
}

#[test]
fn enter_then_exit_releases_the_lock() {
    let mut client = harness();
    client.manual().unwrap();
    assert!(!client.locked());
}

#[test]
fn reentrant_enter_is_rejected() {
    let mut client = harness();
    assert_eq!(client.nested().unwrap_err(), TestError::ReentrancyDetected);
}

#[test]
fn scoped_guard_releases_on_drop() {
    let mut client = harness();
    client.scoped().unwrap();
    assert!(!client.locked());
}

#[test]
fn scoped_guard_releases_on_error_path() {
    let mut client = harness();
    assert_eq!(client.scoped_err().unwrap_err(), TestError::ReentrancyDetected);
    assert!(!client.locked());
}

#[test]
fn lock_is_reusable_across_calls() {
    let mut client = harness();
    client.scoped().unwrap();
    client.scoped().unwrap();
    assert!(!client.locked());
}

#[test]
fn held_lock_refuses_a_scope_and_stays_held() {
    let mut flag = Some(true);
    assert!(Scoped::new(&mut flag, TestError::ReentrancyDetected).is_err());
    assert_eq!(flag, Some(true));
    exit(&mut flag);
    assert_eq!(flag, Some(false));
    assert_eq!(enter(&mut flag, TestError::ReentrancyDetected), Ok(()));
    assert_eq!(flag, Some(true));
}
