use vstd::prelude::*;

use crate::bus::I2cBus;
use crate::bus::Transaction;
use crate::bus::write_read_txn;
use crate::bus::write_txn;

verus! {

/// The error a scripted bus reports: an injected transport failure, or a
/// call that does not match the next scripted transaction.
#[derive(Clone, Copy, PartialEq, Eq, Structural, Debug)]
pub enum MockError {
    /// A failure the script asked to inject on this call.
    Injected,
    /// The call did not match the next scripted transaction, or the script
    /// was already exhausted.
    Unexpected,
}

/// One scripted transaction of a `MockBus`: the call the bus expects next,
/// the byte it answers with (for a write-then-read), and whether it should
/// fail that call with `MockError::Injected` instead of succeeding.
pub enum MockTransaction {
    Write { addr: u8, data: Vec<u8>, fail: bool },
    WriteRead { addr: u8, data: Vec<u8>, response: u8, fail: bool },
}

/// Whether two byte strings hold the same bytes.
fn bytes_equal(a: &[u8], b: &[u8]) -> (r: bool)
    ensures
        r == (a@ == b@),
{
    if a.len() != b.len() {
        return false;
    }
    let mut i: usize = 0;
    while i < a.len()
        invariant
            i <= a@.len(),
            a@.len() == b@.len(),
            forall|j: int| 0 <= j < i ==> a@[j] == b@[j],
        decreases a@.len() - i,
    {
        if a[i] != b[i] {
            return false;
        }
        i += 1;
    }
    proof {
        assert(a@ =~= b@);
    }
    true
}

/// A scripted bus for exercising the driver without hardware. It answers
/// calls from a fixed script, front to back, and fails any call that the
/// script does not expect; it satisfies the same transaction-history
/// contract every real transport must.
pub struct MockBus {
    script: Vec<MockTransaction>,
    next: usize,
    log: Ghost<Seq<Transaction>>,
}

impl MockBus {
    /// Whether every scripted transaction has been consumed.
    pub closed spec fn spec_done(&self) -> bool {
        self.next == self.script@.len()
    }

    /// A bus that expects exactly the calls of `script`, in order, and has
    /// seen no transaction yet.
    pub fn new(script: Vec<MockTransaction>) -> (r: MockBus)
        ensures
            r.history() == Seq::<Transaction>::empty(),
            r.spec_done() == (script@.len() == 0),
    {
        MockBus { script, next: 0, log: Ghost(Seq::empty()) }
    }

    /// Whether every scripted transaction has been consumed.
    pub fn done(&self) -> (r: bool)
        ensures
            r == self.spec_done(),
    {
        self.next == self.script.len()
    }
}

impl I2cBus for MockBus {
    type Error = MockError;

    closed spec fn history(&self) -> Seq<Transaction> {
        self.log@
    }

    fn write(&mut self, addr: u8, data: &[u8]) -> (r: Result<(), MockError>) {
        self.log = Ghost(self.log@.push(write_txn(addr, data@)));
        let mut matched = false;
        let mut fail = false;
        if self.next < self.script.len() {
            match &self.script[self.next] {
                MockTransaction::Write { addr: expected_addr, data: expected_data, fail: f } => {
                    if *expected_addr == addr && bytes_equal(expected_data.as_slice(), data) {
                        matched = true;
                        fail = *f;
                    }
                },
                _ => {},
            }
        }
        if matched {
            self.next = self.next + 1;
            if fail {
                Err(MockError::Injected)
            } else {
                Ok(())
            }
        } else {
            Err(MockError::Unexpected)
        }
    }

    fn write_read(&mut self, addr: u8, data: &[u8]) -> (r: Result<u8, MockError>) {
        let mut matched = false;
        let mut fail = false;
        let mut response: u8 = 0;
        if self.next < self.script.len() {
            match &self.script[self.next] {
                MockTransaction::WriteRead {
                    addr: expected_addr,
                    data: expected_data,
                    response: scripted,
                    fail: f,
                } => {
                    if *expected_addr == addr && bytes_equal(expected_data.as_slice(), data) {
                        matched = true;
                        fail = *f;
                        response = *scripted;
                    }
                },
                _ => {},
            }
        }
        self.log = Ghost(self.log@.push(write_read_txn(addr, data@, response)));
        if matched {
            self.next = self.next + 1;
            if fail {
                Err(MockError::Injected)
            } else {
                Ok(response)
            }
        } else {
            Err(MockError::Unexpected)
        }
    }
}

} // verus!
