//! Which failures are worth another attempt, and how many attempts a retry
//! loop makes.
use vstd::prelude::*;

verus! {

/// A failure that may go away when the operation is attempted again.
pub trait Retryable {
    /// Whether the failure is transient.
    spec fn retry_spec(&self) -> bool;

    /// Whether the operation is worth another attempt after this failure.
    fn should_retry(&self) -> (retry: bool)
        ensures
            retry == self.retry_spec(),
    ;
}

// `ErrorKind` has no fields: it is declared with its variants, so that the
// classification below is proved over them.
#[verifier::external_type_specification]
pub struct ExIoErrorKind(std::io::ErrorKind);

#[verifier::external_type_specification]
#[verifier::external_body]
pub struct ExIoError(std::io::Error);

/// The I/O failures of a connection that a new attempt may get past.
pub open spec fn io_kind_is_transient(kind: std::io::ErrorKind) -> bool {
    match kind {
        std::io::ErrorKind::ConnectionRefused => true,
        std::io::ErrorKind::ConnectionReset => true,
        std::io::ErrorKind::HostUnreachable => true,
        std::io::ErrorKind::NetworkUnreachable => true,
        std::io::ErrorKind::ConnectionAborted => true,
        std::io::ErrorKind::NotConnected => true,
        std::io::ErrorKind::AddrInUse => true,
        std::io::ErrorKind::NetworkDown => true,
        std::io::ErrorKind::BrokenPipe => true,
        std::io::ErrorKind::WouldBlock => true,
        std::io::ErrorKind::TimedOut => true,
        std::io::ErrorKind::Interrupted => true,
        std::io::ErrorKind::UnexpectedEof => true,
        _ => false,
    }
}

impl Retryable for std::io::ErrorKind {
    open spec fn retry_spec(&self) -> bool {
        io_kind_is_transient(*self)
    }

    fn should_retry(&self) -> (retry: bool) {
        match self {
            std::io::ErrorKind::ConnectionRefused => true,
            std::io::ErrorKind::ConnectionReset => true,
            std::io::ErrorKind::HostUnreachable => true,
            std::io::ErrorKind::NetworkUnreachable => true,
            std::io::ErrorKind::ConnectionAborted => true,
            std::io::ErrorKind::NotConnected => true,
            std::io::ErrorKind::AddrInUse => true,
            std::io::ErrorKind::NetworkDown => true,
            std::io::ErrorKind::BrokenPipe => true,
            std::io::ErrorKind::WouldBlock => true,
            std::io::ErrorKind::TimedOut => true,
            std::io::ErrorKind::Interrupted => true,
            std::io::ErrorKind::UnexpectedEof => true,
            _ => false,
        }
    }
}

/// What `std::io::Error::kind` returns for an error.
pub uninterp spec fn io_error_kind(err: std::io::Error) -> std::io::ErrorKind;

/// `std::io::Error::kind`: the kind of the error.
#[verifier::external_body]
fn kind_of_io_error(err: &std::io::Error) -> (kind: std::io::ErrorKind)
    ensures
        kind == io_error_kind(*err),
{
    err.kind()
}

impl Retryable for std::io::Error {
    open spec fn retry_spec(&self) -> bool {
        io_kind_is_transient(io_error_kind(*self))
    }

    fn should_retry(&self) -> (retry: bool) {
        kind_of_io_error(self).should_retry()
    }
}

/// The default number of retries of a retry loop.
pub const DEFAULT_MAX_RETRIES: usize = 5usize;

/// The retries that a retry loop has made and may make.
pub struct RetryBudget {
    retries: usize,
    max_retries: usize,
}

impl RetryBudget {
    pub open spec fn wf(&self) -> bool {
        self.used() <= self.limit()
    }

    /// The retries made so far.
    pub closed spec fn used(&self) -> nat {
        self.retries as nat
    }

    /// The most retries allowed.
    pub closed spec fn limit(&self) -> nat {
        self.max_retries as nat
    }

    /// A budget of `max_retries` retries, none used.
    pub fn new(max_retries: usize) -> (budget: RetryBudget)
        ensures
            budget.wf(),
            budget.used() == 0,
            budget.limit() == max_retries,
    {
        RetryBudget { retries: 0, max_retries }
    }

    /// The retries made so far.
    pub fn retries(&self) -> (n: usize)
        ensures
            n == self.used(),
    {
        self.retries
    }

    /// Decides, after an attempt failed with `err`, whether to try again: only
    /// when the failure is transient and the budget is not spent. A retry is
    /// counted against the budget.
    pub fn on_error<E: Retryable>(&mut self, err: &E) -> (retry: bool)
        requires
            old(self).wf(),
        ensures
            final(self).wf(),
            retry == grants(old(self).used(), old(self).limit(), err.retry_spec()),
            final(self).used() == old(self).used() + (if retry {
                1nat
            } else {
                0nat
            }),
            final(self).limit() == old(self).limit(),
            final(self).used() == used_after(old(self).used(), old(self).limit(), seq![err.retry_spec()]),
            !err.retry_spec() ==> !retry && final(self).used() == old(self).used(),
            retry == (err.retry_spec() && old(self).used() < old(self).limit()),
    {
        proof {
            let t = seq![err.retry_spec()];
            reveal_with_fuel(used_after, 2);
            assert(t.drop_last() =~= Seq::<bool>::empty());
            assert(t.last() == err.retry_spec());
        }
        if !err.should_retry() || self.retries >= self.max_retries {
            return false;
        }
        self.retries = self.retries + 1;
        true
    }
}

/// Whether a budget with `used` of `limit` retries spent grants another
/// attempt after a failure: only a transient failure, and only while retries
/// are left.
pub open spec fn grants(used: nat, limit: nat, transient: bool) -> bool {
    transient && used < limit
}

/// The retries spent after a run of failed attempts, starting from `used`;
/// `transient[i]` says whether the `i`-th failure was transient.
pub open spec fn used_after(used: nat, limit: nat, transient: Seq<bool>) -> nat
    decreases transient.len(),
{
    if transient.len() == 0 {
        used
    } else {
        let before = used_after(used, limit, transient.drop_last());
        if grants(before, limit, transient.last()) {
            before + 1
        } else {
            before
        }
    }
}

/// However a run of failures goes, a retry loop never spends more than its
/// limit of retries, spends one per retry granted, and grants a retry for
/// every transient failure while the limit is not reached.
pub proof fn lemma_retries_bounded(used: nat, limit: nat, transient: Seq<bool>)
    requires
        used <= limit,
    ensures
        used <= used_after(used, limit, transient) <= limit,
        used_after(used, limit, transient) <= used + transient.len(),
        (forall|i: int| 0 <= i < transient.len() ==> #[trigger] transient[i])
            && used + transient.len() <= limit ==> used_after(used, limit, transient) == used
            + transient.len(),
    decreases transient.len(),
{
    if transient.len() > 0 {
        let init = transient.drop_last();
        lemma_retries_bounded(used, limit, init);
        if forall|i: int| 0 <= i < transient.len() ==> #[trigger] transient[i] {
            assert forall|i: int| 0 <= i < init.len() implies #[trigger] init[i] by {
                assert(init[i] == transient[i]);
            }
            assert(transient.last() == transient[transient.len() - 1]);
        }
    }
}

/// A failure that is not transient is never retried, however many retries
/// were spent or are left, and spends none; a transient one is retried
/// exactly while retries are left. So a run of failures that are all
/// permanent spends nothing.
pub proof fn lemma_permanent_never_retried(used: nat, limit: nat, transient: Seq<bool>)
    ensures
        !grants(used, limit, false),
        grants(used, limit, true) == (used < limit),
        used_after(used, limit, transient.push(false)) == used_after(used, limit, transient),
        (forall|i: int| 0 <= i < transient.len() ==> !#[trigger] transient[i]) ==> used_after(
            used,
            limit,
            transient,
        ) == used,
    decreases transient.len(),
{
    let t = transient.push(false);
    assert(t.drop_last() =~= transient);
    if transient.len() > 0 {
        let init = transient.drop_last();
        lemma_permanent_never_retried(used, limit, init);
        if forall|i: int| 0 <= i < transient.len() ==> !#[trigger] transient[i] {
            assert forall|i: int| 0 <= i < init.len() implies !#[trigger] init[i] by {
                assert(init[i] == transient[i]);
            }
            assert(!transient[transient.len() - 1]);
        }
    }
}

} // verus!
