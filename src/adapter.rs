use vstd::prelude::*;

verus! {

/// What the socket did with one outgoing datagram.
#[derive(Clone, Copy, Debug, PartialEq, Eq, Structural)]
pub enum SendAttempt {
    /// The datagram went out.
    Sent,
    /// The socket cannot take it now (not ready, or a would-block error).
    Blocked,
    /// Any other error.
    Failed,
}

/// What a send over a batch reports to the transport engine.
#[derive(Clone, Copy, Debug, PartialEq, Eq, Structural)]
pub enum SendReport {
    /// This many datagrams, from the start of the batch, count as sent.
    Sent(usize),
    /// Nothing was sent and the socket is not writable: the caller waits.
    Suspend,
    /// Nothing was sent and the first datagram failed: its error is the result.
    Error,
}

/// The adapter's decision after one datagram of a batch.
#[derive(Clone, Copy, Debug, PartialEq, Eq, Structural)]
pub enum SendStep {
    /// Go on with the next datagram; this many count as sent so far.
    Continue(usize),
    /// Stop here with this report.
    Done(SendReport),
}

/// The decision after one datagram, with `sent` datagrams counted before it.
/// Once some progress exists, a blocked socket ends the batch without waiting, and
/// another error counts the datagram as sent (the transport's own recovery deals
/// with real loss).
pub open spec fn step_spec(sent: usize, a: SendAttempt) -> SendStep {
    match a {
        SendAttempt::Sent => SendStep::Continue((sent + 1) as usize),
        SendAttempt::Blocked => if sent == 0 {
            SendStep::Done(SendReport::Suspend)
        } else {
            SendStep::Done(SendReport::Sent(sent))
        },
        SendAttempt::Failed => if sent == 0 {
            SendStep::Done(SendReport::Error)
        } else {
            SendStep::Continue((sent + 1) as usize)
        },
    }
}

/// The report over a batch whose datagrams meet `attempts`, in order, with `sent`
/// already counted.
pub open spec fn batch_report_from(attempts: Seq<SendAttempt>, sent: usize) -> SendReport
    decreases attempts.len(),
{
    if attempts.len() == 0 {
        SendReport::Sent(sent)
    } else {
        match step_spec(sent, attempts[0]) {
            SendStep::Continue(n) => batch_report_from(attempts.drop_first(), n),
            SendStep::Done(r) => r,
        }
    }
}

/// The report over a whole batch.
pub open spec fn batch_report(attempts: Seq<SendAttempt>) -> SendReport {
    batch_report_from(attempts, 0)
}

/// Decides what follows one datagram of a batch.
pub fn send_step(sent: usize, attempt: SendAttempt) -> (r: SendStep)
    requires
        sent < usize::MAX,
    ensures
        r == step_spec(sent, attempt),
{
    match attempt {
        SendAttempt::Sent => SendStep::Continue(sent + 1),
        SendAttempt::Blocked => if sent == 0 {
            SendStep::Done(SendReport::Suspend)
        } else {
            SendStep::Done(SendReport::Sent(sent))
        },
        SendAttempt::Failed => if sent == 0 {
            SendStep::Done(SendReport::Error)
        } else {
            SendStep::Continue(sent + 1)
        },
    }
}

proof fn lemma_report_prefix(attempts: Seq<SendAttempt>, i: int, sent: usize)
    requires
        0 <= i < attempts.len(),
        step_spec(sent, attempts[i]) is Continue,
    ensures
        batch_report_from(attempts.subrange(i, attempts.len() as int), sent)
            == batch_report_from(
            attempts.subrange(i + 1, attempts.len() as int),
            step_spec(sent, attempts[i])->Continue_0,
        ),
{
    assert(attempts.subrange(i, attempts.len() as int).drop_first() =~= attempts.subrange(
        i + 1,
        attempts.len() as int,
    ));
}

/// Settles a batch whose datagrams met `attempts`, in order, going through it as
/// the adapter does and stopping where a decision ends it.
pub fn settle_batch(attempts: &[SendAttempt]) -> (r: SendReport)
    ensures
        r == batch_report(attempts@),
{
    let mut sent: usize = 0;
    let mut i: usize = 0;
    assert(attempts@.subrange(0, attempts@.len() as int) =~= attempts@);
    while i < attempts.len()
        invariant
            i <= attempts@.len(),
            sent <= i,
            batch_report(attempts@) == batch_report_from(
                attempts@.subrange(i as int, attempts@.len() as int),
                sent,
            ),
        decreases attempts@.len() - i,
    {
        assert(attempts@.subrange(i as int, attempts@.len() as int)[0] == attempts@[i as int]);
        match send_step(sent, attempts[i]) {
            SendStep::Continue(n) => {
                proof {
                    lemma_report_prefix(attempts@, i as int, sent);
                }
                sent = n;
            },
            SendStep::Done(r) => {
                return r;
            },
        }
        i = i + 1;
    }
    assert(attempts@.subrange(i as int, attempts@.len() as int).len() == 0);
    SendReport::Sent(sent)
}

/// When the first `m` datagrams of a batch go out and the next one finds the socket
/// blocked, the batch reports `m` sent and does not wait.
pub proof fn lemma_partial_progress_never_waits(attempts: Seq<SendAttempt>, m: int)
    requires
        0 < m < attempts.len(),
        attempts.len() <= usize::MAX,
        forall|j: int| 0 <= j < m ==> attempts[j] == SendAttempt::Sent,
        attempts[m] == SendAttempt::Blocked,
    ensures
        batch_report(attempts) == SendReport::Sent(m as usize),
{
    assert(attempts.subrange(0, attempts.len() as int) =~= attempts);
    lemma_sent_run(attempts, 0, m);
}

proof fn lemma_sent_run(attempts: Seq<SendAttempt>, k: int, m: int)
    requires
        0 <= k <= m < attempts.len(),
        0 < m,
        attempts.len() <= usize::MAX,
        forall|j: int| 0 <= j < m ==> attempts[j] == SendAttempt::Sent,
        attempts[m] == SendAttempt::Blocked,
    ensures
        batch_report_from(attempts.subrange(k, attempts.len() as int), k as usize)
            == SendReport::Sent(m as usize),
    decreases m - k,
{
    let rest = attempts.subrange(k, attempts.len() as int);
    assert(rest[0] == attempts[k]);
    if k < m {
        lemma_report_prefix(attempts, k, k as usize);
        lemma_sent_run(attempts, k + 1, m);
    }
}

/// When the first datagram of a batch finds the socket blocked, the caller waits:
/// the report is neither a count nor an error.
pub proof fn lemma_blocked_first_suspends(attempts: Seq<SendAttempt>)
    requires
        attempts.len() > 0,
        attempts[0] == SendAttempt::Blocked,
    ensures
        batch_report(attempts) == SendReport::Suspend,
{
}

/// What the socket did on one receive.
#[derive(Clone, Copy, Debug, PartialEq, Eq, Structural)]
pub enum RecvAttempt {
    /// A datagram of this many bytes arrived.
    Received(usize),
    /// No datagram yet.
    NotReady,
    /// The receive failed.
    Failed,
}

/// The metadata reported for a received datagram. The adapter gives no congestion
/// mark and no destination address.
#[derive(Clone, Copy, Debug, PartialEq, Eq, Structural)]
pub struct DatagramMeta {
    pub len: usize,
    pub stride: usize,
}

/// What a receive reports to the transport engine.
#[derive(Clone, Copy, Debug, PartialEq, Eq, Structural)]
pub enum RecvReport {
    /// This many datagrams arrived; the first slot's metadata is given.
    Received(usize, DatagramMeta),
    /// Nothing yet: the caller waits.
    Suspend,
    /// The socket's error is the result.
    Error,
}

/// Why a receive was refused before the socket was asked.
#[derive(Clone, Copy, Debug, PartialEq, Eq, Structural)]
pub enum RecvError {
    /// No buffer was given to receive into.
    NoBuffer,
}

/// Picks the buffer slot to receive into: the first one, when there is any.
pub fn recv_slot(slots: usize) -> (r: Result<usize, RecvError>)
    ensures
        slots > 0 <==> r is Ok,
        slots > 0 ==> r == Ok::<usize, RecvError>(0),
        slots == 0 ==> r == Err::<usize, RecvError>(RecvError::NoBuffer),
{
    if slots == 0 {
        Err(RecvError::NoBuffer)
    } else {
        Ok(0)
    }
}

/// Reports one receive: a single datagram, whose stride is its length.
pub fn recv_report(attempt: RecvAttempt) -> (r: RecvReport)
    ensures
        match attempt {
            RecvAttempt::Received(len) => r == RecvReport::Received(
                1,
                DatagramMeta { len, stride: len },
            ),
            RecvAttempt::NotReady => r == RecvReport::Suspend,
            RecvAttempt::Failed => r == RecvReport::Error,
        },
        r matches RecvReport::Received(n, meta) ==> n <= 1 && meta.len == meta.stride,
{
    match attempt {
        RecvAttempt::Received(len) => RecvReport::Received(1, DatagramMeta { len, stride: len }),
        RecvAttempt::NotReady => RecvReport::Suspend,
        RecvAttempt::Failed => RecvReport::Error,
    }
}

} // verus!
