use vstd::prelude::*;

use crate::ascii::{lower, lower_prefix, lowercase_prefix};

verus! {

/// Largest number of bytes carried by one bulk packet.
pub const PACKET_SIZE: usize = 64;

/// The greeting announced to the host, once, on the first interrupt:
/// `"Hello, World!\r\n"` in ASCII.
pub open spec fn greeting_text() -> Seq<u8> {
    seq![
        72u8, 101u8, 108u8, 108u8, 111u8, 44u8, 32u8, 87u8, 111u8, 114u8, 108u8, 100u8, 33u8, 13u8, 10u8,
    ]
}

/// The greeting's bytes.
pub fn greeting() -> (r: [u8; 15])
    ensures
        r@ == greeting_text(),
{
    let r: [u8; 15] = [
        72u8, 101u8, 108u8, 108u8, 111u8, 44u8, 32u8, 87u8, 111u8, 114u8, 108u8, 100u8, 33u8, 13u8, 10u8,
    ];
    assert(r@ =~= greeting_text());
    r
}

/// What the handler is waiting for.
#[derive(PartialEq, Eq, Structural, Clone, Copy, Debug)]
pub enum Phase {
    /// No invocation is running.
    Idle,
    /// The greeting write has been asked for.
    Greeting,
    /// The device poll has been asked for.
    Polling,
    /// A packet read has been asked for.
    Reading,
    /// The received bytes are to be appended to the display.
    Mirroring,
    /// The unsent tail of the folded bytes is to be written.
    Draining,
}

/// The next piece of outside work the interrupt routine must perform.
#[derive(PartialEq, Eq, Structural, Clone, Copy, Debug)]
pub enum Action {
    /// Write the greeting to the serial class; the outcome is ignored.
    SendGreeting,
    /// Poll the USB device with the serial class as its only class.
    Poll,
    /// Read up to one packet from the serial class.
    Read,
    /// Append `received()` to the display sink.
    Display,
    /// Write `pending()` to the serial class.
    Write,
    /// Nothing more to do in this invocation.
    Finish,
}

/// The phase that follows handing out `a`.
pub open spec fn awaited(a: Action) -> Phase {
    match a {
        Action::SendGreeting => Phase::Greeting,
        Action::Poll => Phase::Polling,
        Action::Read => Phase::Reading,
        Action::Display => Phase::Mirroring,
        Action::Write => Phase::Draining,
        Action::Finish => Phase::Idle,
    }
}

/// Whether an invocation that starts with the hello flag at `said_hello`
/// writes the greeting.
pub open spec fn greets(said_hello: bool) -> bool {
    !said_hello
}

/// Where the drain stands after a write reported `written`, with `sent`
/// bytes accepted before it: the new number of accepted bytes, or `None`
/// once the loop must stop because the write failed.
pub open spec fn drain_step(sent: nat, written: Result<usize, ()>) -> Option<nat> {
    match written {
        Ok(n) => Some((sent + n) as nat),
        Err(_) => None,
    }
}

/// How one call on the handler moves the hello flag and whether it asks
/// for the greeting: only the start of an invocation, taken from `Idle`,
/// sets the flag, and it asks for the greeting exactly when the flag was
/// clear.
pub open spec fn hello_move(a: EchoView, r: Action, b: EchoView) -> bool {
    &&& b.said_hello == (a.said_hello || a.phase == Phase::Idle)
    &&& (r == Action::SendGreeting) == (a.phase == Phase::Idle && greets(a.said_hello))
}

/// One call of `received` with the buffer `buf` and outcome `read`, from
/// `a` to `b`, handing out `r`: a failed or empty read ends the invocation
/// with nothing else changed; otherwise the packet is kept and is to be
/// mirrored.
pub open spec fn receive_move(a: EchoView, buf: Seq<u8>, read: Result<usize, ()>, r: Action, b: EchoView) -> bool {
    match read {
        Ok(n) if n > 0 => {
            &&& r == Action::Display
            &&& b == (EchoView { phase: Phase::Mirroring, buf: buf, count: n as nat, sent: 0, ..a })
            &&& b.wf()
            &&& b.received() == buf.subrange(0, n as int)
        },
        _ => r == Action::Finish && b == (EchoView { phase: Phase::Idle, ..a }),
    }
}

/// One call of `displayed`, from `a` to `b`, handing out `r`: the received
/// bytes are folded to lower case in place and the write-back starts.
pub open spec fn fold_move(a: EchoView, r: Action, b: EchoView) -> bool {
    &&& r == Action::Write
    &&& b == (EchoView {
        phase: Phase::Draining,
        buf: lower_prefix(a.buf, a.count as int),
        sent: 0,
        ..a
    })
    &&& b.wf()
}

/// One call of `wrote` with outcome `written`, from `a` to `b`, handing out
/// `r`: accepted bytes leave the pending tail, the loop goes on while bytes
/// remain, and it stops at the first failed write.
pub open spec fn write_move(a: EchoView, written: Result<usize, ()>, r: Action, b: EchoView) -> bool {
    &&& b.wf()
    &&& b.phase == awaited(r)
    &&& b.said_hello == a.said_hello
    &&& b.buf == a.buf
    &&& b.count == a.count
    &&& match drain_step(a.sent, written) {
        Some(s) => {
            &&& b.sent == s
            &&& r == (if s < a.count { Action::Write } else { Action::Finish })
        },
        None => r == Action::Finish && b.sent == a.sent,
    }
}

/// The state of the echo handler as plain values.
pub ghost struct EchoView {
    pub said_hello: bool,
    pub phase: Phase,
    pub buf: Seq<u8>,
    pub count: nat,
    pub sent: nat,
}

impl EchoView {
    /// The packet fits the buffer, the accepted bytes are a prefix of it, a
    /// packet being mirrored is not empty, and a drain has bytes left.
    pub open spec fn wf(self) -> bool {
        &&& self.buf.len() == PACKET_SIZE
        &&& self.count <= PACKET_SIZE
        &&& self.sent <= self.count
        &&& (self.phase == Phase::Mirroring ==> self.count > 0)
        &&& (self.phase == Phase::Draining ==> self.sent < self.count)
    }

    /// The bytes of the packet received in this invocation.
    pub open spec fn received(self) -> Seq<u8> {
        self.buf.subrange(0, self.count as int)
    }

    /// The folded bytes not yet accepted by the host.
    pub open spec fn pending(self) -> Seq<u8> {
        self.buf.subrange(self.sent as int, self.count as int)
    }
}

/// The decisions of the USB interrupt routine, owned by the interrupt
/// context: the hello-once flag and the one in-flight packet.
pub struct EchoHandler {
    said_hello: bool,
    phase: Phase,
    buf: [u8; 64],
    count: usize,
    sent: usize,
}

impl View for EchoHandler {
    type V = EchoView;

    closed spec fn view(&self) -> EchoView {
        EchoView {
            said_hello: self.said_hello,
            phase: self.phase,
            buf: self.buf@,
            count: self.count as nat,
            sent: self.sent as nat,
        }
    }
}

impl EchoHandler {
    /// A handler that has not greeted yet and runs no invocation.
    pub fn new() -> (r: EchoHandler)
        ensures
            r@.wf(),
            !r@.said_hello,
            r@.phase == Phase::Idle,
            r@.count == 0,
            r@.sent == 0,
    {
        EchoHandler { said_hello: false, phase: Phase::Idle, buf: [0u8; 64], count: 0, sent: 0 }
    }

    /// Starts an invocation: greets the host if it has never been greeted,
    /// then polls. The flag is set before the greeting is written.
    pub fn begin(&mut self) -> (r: Action)
        requires
            old(self)@.wf(),
            old(self)@.phase == Phase::Idle,
        ensures
            hello_move(old(self)@, r, final(self)@),
            final(self)@.wf(),
            final(self)@.said_hello,
            r == (if greets(old(self)@.said_hello) { Action::SendGreeting } else { Action::Poll }),
            final(self)@.phase == awaited(r),
            final(self)@.count == 0,
            final(self)@.sent == 0,
    {
        let first = !self.said_hello;
        self.said_hello = true;
        self.buf = [0u8; 64];
        self.count = 0;
        self.sent = 0;
        let r = if first {
            Action::SendGreeting
        } else {
            Action::Poll
        };
        self.phase = if first {
            Phase::Greeting
        } else {
            Phase::Polling
        };
        r
    }

    /// The greeting write has been made, whatever its outcome: poll next.
    pub fn greeting_sent(&mut self) -> (r: Action)
        requires
            old(self)@.wf(),
            old(self)@.phase == Phase::Greeting,
        ensures
            hello_move(old(self)@, r, final(self)@),
            final(self)@ == (EchoView { phase: Phase::Polling, ..old(self)@ }),
            r == Action::Poll,
            final(self)@.phase == awaited(r),
    {
        self.phase = Phase::Polling;
        Action::Poll
    }

    /// The device poll reported `active`: read a packet when the class has
    /// pending activity, else finish.
    pub fn polled(&mut self, active: bool) -> (r: Action)
        requires
            old(self)@.wf(),
            old(self)@.phase == Phase::Polling,
        ensures
            hello_move(old(self)@, r, final(self)@),
            r == (if active { Action::Read } else { Action::Finish }),
            final(self)@ == (EchoView { phase: awaited(r), ..old(self)@ }),
    {
        if active {
            self.phase = Phase::Reading;
            Action::Read
        } else {
            self.phase = Phase::Idle;
            Action::Finish
        }
    }

    /// The packet read filled `buf` and reported `read`. A failed or empty
    /// read finishes the invocation; otherwise the received bytes are to be
    /// mirrored on the display.
    pub fn received(&mut self, buf: [u8; 64], read: Result<usize, ()>) -> (r: Action)
        requires
            old(self)@.wf(),
            old(self)@.phase == Phase::Reading,
            read is Ok ==> read->Ok_0 <= PACKET_SIZE,
        ensures
            hello_move(old(self)@, r, final(self)@),
            receive_move(old(self)@, buf@, read, r, final(self)@),
    {
        match read {
            Ok(n) => {
                if n > 0 {
                    self.buf = buf;
                    self.count = n;
                    self.sent = 0;
                    self.phase = Phase::Mirroring;
                    Action::Display
                } else {
                    self.phase = Phase::Idle;
                    Action::Finish
                }
            },
            Err(_) => {
                self.phase = Phase::Idle;
                Action::Finish
            },
        }
    }

    /// The received bytes have been appended to the display: fold them to
    /// lower case and start writing them back.
    pub fn displayed(&mut self) -> (r: Action)
        requires
            old(self)@.wf(),
            old(self)@.phase == Phase::Mirroring,
        ensures
            hello_move(old(self)@, r, final(self)@),
            fold_move(old(self)@, r, final(self)@),
    {
        lowercase_prefix(&mut self.buf, self.count);
        self.sent = 0;
        self.phase = Phase::Draining;
        Action::Write
    }

    /// A write of `pending()` reported `written`. Accepted bytes are
    /// dropped from the pending tail; the loop goes on until the tail is
    /// empty, and stops at the first failed write.
    pub fn wrote(&mut self, written: Result<usize, ()>) -> (r: Action)
        requires
            old(self)@.wf(),
            old(self)@.phase == Phase::Draining,
            written is Ok ==> written->Ok_0 <= old(self)@.count - old(self)@.sent,
        ensures
            write_move(old(self)@, written, r, final(self)@),
            hello_move(old(self)@, r, final(self)@),
    {
        match written {
            Ok(n) => {
                self.sent = self.sent + n;
                if self.sent < self.count {
                    Action::Write
                } else {
                    self.phase = Phase::Idle;
                    Action::Finish
                }
            },
            Err(_) => {
                self.phase = Phase::Idle;
                Action::Finish
            },
        }
    }

    /// Whether the greeting has been written in an earlier invocation.
    pub fn said_hello(&self) -> (r: bool)
        ensures
            r == self@.said_hello,
    {
        self.said_hello
    }

    /// What the handler is waiting for.
    pub fn phase(&self) -> (r: Phase)
        ensures
            r == self@.phase,
    {
        self.phase
    }

    /// The packet buffer.
    pub fn buffer(&self) -> (r: &[u8; 64])
        ensures
            r@ == self@.buf,
    {
        &self.buf
    }

    /// Number of bytes received in this invocation.
    pub fn count(&self) -> (r: usize)
        ensures
            r == self@.count,
    {
        self.count
    }

    /// Number of folded bytes the host has accepted so far.
    pub fn sent(&self) -> (r: usize)
        ensures
            r == self@.sent,
    {
        self.sent
    }
}

/// Bytes accepted by the first `i` writes.
pub open spec fn accepted_before(ks: Seq<usize>, i: int) -> nat
    decreases i,
{
    if i <= 0 || i > ks.len() {
        0
    } else {
        (accepted_before(ks, i - 1) + ks[i - 1]) as nat
    }
}

proof fn flag_stays(views: Seq<EchoView>, acts: Seq<Action>, i: int, k: int)
    requires
        views.len() == acts.len() + 1,
        forall|n: int| 0 <= n < acts.len() ==> hello_move(views[n], #[trigger] acts[n], views[n + 1]),
        0 <= i <= k < views.len(),
        views[i].said_hello,
    ensures
        views[k].said_hello,
    decreases k - i,
{
    if i < k {
        flag_stays(views, acts, i, k - 1);
        assert(hello_move(views[k - 1], acts[k - 1], views[k]));
    }
}

/// Over any run of calls on one handler, the greeting is asked for at most
/// once; a handler that has never greeted asks for it at the start of its
/// first invocation.
pub proof fn greeting_at_most_once(views: Seq<EchoView>, acts: Seq<Action>)
    requires
        views.len() == acts.len() + 1,
        forall|n: int| 0 <= n < acts.len() ==> hello_move(views[n], #[trigger] acts[n], views[n + 1]),
    ensures
        forall|i: int, j: int|
            0 <= i < j < acts.len() && #[trigger] acts[i] == Action::SendGreeting ==> #[trigger] acts[j]
                != Action::SendGreeting,
        acts.len() > 0 && views[0].phase == Phase::Idle && !views[0].said_hello ==> acts[0]
            == Action::SendGreeting,
{
    assert forall|i: int, j: int|
        0 <= i < j < acts.len() && #[trigger] acts[i] == Action::SendGreeting implies #[trigger] acts[j]
            != Action::SendGreeting by {
        assert(hello_move(views[i], acts[i], views[i + 1]));
        flag_stays(views, acts, i + 1, j);
        assert(hello_move(views[j], acts[j], views[j + 1]));
    }
    if acts.len() > 0 {
        assert(hello_move(views[0], acts[0], views[1]));
    }
}

proof fn drained_so_far(views: Seq<EchoView>, acts: Seq<Action>, ks: Seq<usize>, i: int)
    requires
        views.len() == ks.len() + 1,
        acts.len() == ks.len(),
        forall|n: int| 0 <= n < ks.len() ==> write_move(views[n], Ok(#[trigger] ks[n]), acts[n], views[n + 1]),
        0 <= i < views.len(),
    ensures
        views[i].sent == (views[0].sent + accepted_before(ks, i)) as int,
        views[i].buf == views[0].buf,
        views[i].count == views[0].count,
    decreases i,
{
    if i > 0 {
        drained_so_far(views, acts, ks, i - 1);
        assert(write_move(views[i - 1], Ok(ks[i - 1]), acts[i - 1], views[i]));
    }
}

/// Partial writes drain the packet: when a run of writes accepts `ks[0]`,
/// `ks[1]`, ... bytes, the bytes left to send before the `i`-th write are
/// exactly those the earlier writes did not take, and the loop asks for
/// another write exactly while bytes remain.
pub proof fn partial_writes_drain(views: Seq<EchoView>, acts: Seq<Action>, ks: Seq<usize>)
    requires
        views.len() == ks.len() + 1,
        acts.len() == ks.len(),
        forall|n: int| 0 <= n < ks.len() ==> write_move(views[n], Ok(#[trigger] ks[n]), acts[n], views[n + 1]),
    ensures
        forall|i: int|
            0 <= i < views.len() ==> (#[trigger] views[i]).pending() == views[0].buf.subrange(
                (views[0].sent + accepted_before(ks, i)) as int,
                views[0].count as int,
            ),
        forall|i: int|
            0 <= i < acts.len() ==> (#[trigger] acts[i] == Action::Write) == (views[0].sent
                + accepted_before(ks, i + 1) < views[0].count),
        views[ks.len() as int].sent == views[0].sent + accepted_before(ks, ks.len() as int),
{
    assert forall|i: int| 0 <= i < views.len() implies (#[trigger] views[i]).pending()
        == views[0].buf.subrange((views[0].sent + accepted_before(ks, i)) as int, views[0].count as int) by {
        drained_so_far(views, acts, ks, i);
    }
    assert forall|i: int| 0 <= i < acts.len() implies (#[trigger] acts[i] == Action::Write) == (
    views[0].sent + accepted_before(ks, i + 1) < views[0].count) by {
        drained_so_far(views, acts, ks, i + 1);
        assert(write_move(views[i], Ok(ks[i]), acts[i], views[i + 1]));
    }
    drained_so_far(views, acts, ks, ks.len() as int);
}

/// A packet goes to the display as it came in and back to the host folded:
/// after a read of `n > 0` bytes the bytes to mirror are exactly the first
/// `n` bytes read, and after mirroring the bytes to write are those bytes,
/// each folded to ASCII lower case, in the same order.
pub proof fn mirrored_raw_echoed_folded(
    a: EchoView,
    buf: Seq<u8>,
    n: usize,
    r1: Action,
    b: EchoView,
    r2: Action,
    c: EchoView,
)
    requires
        a.wf(),
        buf.len() == PACKET_SIZE,
        0 < n <= PACKET_SIZE,
        receive_move(a, buf, Ok(n), r1, b),
        fold_move(b, r2, c),
    ensures
        r1 == Action::Display,
        b.received() == buf.subrange(0, n as int),
        r2 == Action::Write,
        c.pending().len() == n,
        forall|i: int| 0 <= i < n ==> #[trigger] c.pending()[i] == lower(buf[i]),
{
}

} // verus!
