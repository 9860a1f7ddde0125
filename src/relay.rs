use vstd::prelude::*;

verus! {

/// One of the two byte flows of a relayed session.
#[derive(Debug, Clone, Copy, PartialEq, Eq, Structural)]
pub enum Direction {
    /// Client read half to destination write half.
    Upload,
    /// Destination read half to client write half.
    Download,
}

pub open spec fn opposite(d: Direction) -> Direction {
    match d {
        Direction::Upload => Direction::Download,
        Direction::Download => Direction::Upload,
    }
}

/// What the session's driver does after reporting a read to the relay.
pub enum RelayAction {
    /// Write these bytes to the write half that the flow feeds.
    Write(Direction, Vec<u8>),
    /// Half-close the write half that the flow feeds.
    Shutdown(Direction),
    /// Abandon both flows and close both streams.
    Teardown,
    /// Nothing to do: the flow had already ended, or the session had failed.
    Idle,
}

/// The mathematical content of a `RelayAction`.
pub enum ActionView {
    Write(Direction, Seq<u8>),
    Shutdown(Direction),
    Teardown,
    Idle,
}

impl View for RelayAction {
    type V = ActionView;

    open spec fn view(&self) -> ActionView {
        match self {
            RelayAction::Write(d, b) => ActionView::Write(*d, b@),
            RelayAction::Shutdown(d) => ActionView::Shutdown(*d),
            RelayAction::Teardown => ActionView::Teardown,
            RelayAction::Idle => ActionView::Idle,
        }
    }
}

/// One flow: whether its read side is still open, every byte read from its
/// source, and every byte handed out to be written to its sink.
pub struct Flow {
    pub open: bool,
    pub received: Seq<u8>,
    pub sent: Seq<u8>,
}

/// The mathematical content of a `Relay`.
pub struct RelayView {
    pub upload: Flow,
    pub download: Flow,
    pub failed: bool,
}

pub open spec fn flow(v: RelayView, d: Direction) -> Flow {
    match d {
        Direction::Upload => v.upload,
        Direction::Download => v.download,
    }
}

pub open spec fn with_flow(v: RelayView, d: Direction, f: Flow) -> RelayView {
    match d {
        Direction::Upload => RelayView { upload: f, ..v },
        Direction::Download => RelayView { download: f, ..v },
    }
}

/// The relay phase is over: a flow failed, or both reached end-of-stream.
pub open spec fn finished(v: RelayView) -> bool {
    v.failed || (!v.upload.open && !v.download.open)
}

/// The state after a read on flow `d` returned `chunk`; an empty chunk is
/// end-of-stream.
pub open spec fn after_read(v: RelayView, d: Direction, chunk: Seq<u8>) -> RelayView {
    let f = flow(v, d);
    if v.failed || !f.open {
        v
    } else if chunk.len() == 0 {
        with_flow(v, d, Flow { open: false, ..f })
    } else {
        with_flow(v, d, Flow { open: true, received: f.received + chunk, sent: f.sent + chunk })
    }
}

/// The action owed for a read on flow `d` that returned `chunk`.
pub open spec fn read_action(v: RelayView, d: Direction, chunk: Seq<u8>) -> ActionView {
    if v.failed || !flow(v, d).open {
        ActionView::Idle
    } else if chunk.len() == 0 {
        ActionView::Shutdown(d)
    } else {
        ActionView::Write(d, chunk)
    }
}

/// The relay engine of one session: two independent flows, each copying
/// until its source ends, then half-closing its sink.
pub struct Relay {
    upload_open: bool,
    download_open: bool,
    failed: bool,
    upload_received: Ghost<Seq<u8>>,
    upload_sent: Ghost<Seq<u8>>,
    download_received: Ghost<Seq<u8>>,
    download_sent: Ghost<Seq<u8>>,
}

impl View for Relay {
    type V = RelayView;

    closed spec fn view(&self) -> RelayView {
        RelayView {
            upload: Flow {
                open: self.upload_open,
                received: self.upload_received@,
                sent: self.upload_sent@,
            },
            download: Flow {
                open: self.download_open,
                received: self.download_received@,
                sent: self.download_sent@,
            },
            failed: self.failed,
        }
    }
}

/// Every flow has handed out exactly the bytes it read, in order.
pub open spec fn in_order(v: RelayView) -> bool {
    v.upload.sent == v.upload.received && v.download.sent == v.download.received
}

impl Relay {
    #[verifier::type_invariant]
    spec fn inv(&self) -> bool {
        &&& self.upload_sent@ == self.upload_received@
        &&& self.download_sent@ == self.download_received@
    }

    /// A relay over two freshly connected streams: both flows open, nothing
    /// copied yet.
    pub fn new() -> (r: Relay)
        ensures
            r@.upload.open && r@.download.open && !r@.failed,
            r@.upload.received.len() == 0 && r@.upload.sent.len() == 0,
            r@.download.received.len() == 0 && r@.download.sent.len() == 0,
            in_order(r@),
    {
        Relay {
            upload_open: true,
            download_open: true,
            failed: false,
            upload_received: Ghost(Seq::empty()),
            upload_sent: Ghost(Seq::empty()),
            download_received: Ghost(Seq::empty()),
            download_sent: Ghost(Seq::empty()),
        }
    }

    /// Whether flow `d` has not yet reached end-of-stream.
    pub fn is_open(&self, d: Direction) -> (r: bool)
        ensures
            r == flow(self@, d).open,
    {
        match d {
            Direction::Upload => self.upload_open,
            Direction::Download => self.download_open,
        }
    }

    /// Whether a flow has failed.
    pub fn has_failed(&self) -> (r: bool)
        ensures
            r == self@.failed,
    {
        self.failed
    }

    /// Whether the relay phase is over.
    pub fn is_finished(&self) -> (r: bool)
        ensures
            r == finished(self@),
    {
        self.failed || (!self.upload_open && !self.download_open)
    }

    /// Reports that a read on flow `d` returned `chunk` (empty at
    /// end-of-stream). Data is handed back unchanged to be written;
    /// end-of-stream half-closes that flow's sink and leaves the other flow
    /// as it was.
    pub fn on_read(&mut self, d: Direction, chunk: Vec<u8>) -> (a: RelayAction)
        ensures
            final(self)@ == after_read(old(self)@, d, chunk@),
            a@ == read_action(old(self)@, d, chunk@),
            in_order(final(self)@),
    {
        proof {
            use_type_invariant(&*self);
        }
        if self.failed {
            return RelayAction::Idle;
        }
        match d {
            Direction::Upload => {
                if !self.upload_open {
                    return RelayAction::Idle;
                }
                if chunk.len() == 0 {
                    self.upload_open = false;
                    return RelayAction::Shutdown(d);
                }
                let ghost received = self.upload_received@ + chunk@;
                *self = Relay {
                    upload_received: Ghost(received),
                    upload_sent: Ghost(received),
                    ..*self
                };
            },
            Direction::Download => {
                if !self.download_open {
                    return RelayAction::Idle;
                }
                if chunk.len() == 0 {
                    self.download_open = false;
                    return RelayAction::Shutdown(d);
                }
                let ghost received = self.download_received@ + chunk@;
                *self = Relay {
                    download_received: Ghost(received),
                    download_sent: Ghost(received),
                    ..*self
                };
            },
        }
        RelayAction::Write(d, chunk)
    }

    /// Reports an I/O error on either flow: fatal to the whole session.
    pub fn on_error(&mut self) -> (a: RelayAction)
        ensures
            final(self)@ == (RelayView { failed: true, ..old(self)@ }),
            a@ == ActionView::Teardown,
            in_order(final(self)@),
    {
        proof {
            use_type_invariant(&*self);
        }
        self.failed = true;
        RelayAction::Teardown
    }
}

/// Relaying keeps every flow in order: from a state where each flow has
/// handed out exactly what it read, any read leaves it so, and the bytes
/// handed out for a flow grow by exactly the chunk read while it is open.
pub proof fn lemma_relay_in_order(v: RelayView, d: Direction, chunk: Seq<u8>)
    requires
        in_order(v),
    ensures
        in_order(after_read(v, d, chunk)),
        flow(after_read(v, d, chunk), d).sent == if !v.failed && flow(v, d).open {
            flow(v, d).sent + chunk
        } else {
            flow(v, d).sent
        },
        flow(after_read(v, d, chunk), opposite(d)) == flow(v, opposite(d)),
{
    if !v.failed && flow(v, d).open && chunk.len() == 0 {
        assert(chunk =~= Seq::empty());
        assert(flow(v, d).sent + chunk =~= flow(v, d).sent);
    }
}

/// Once one flow reaches end-of-stream and half-closes its sink, the other
/// flow stays open, the relay is not finished, and data later read on the
/// other flow is still handed out whole for writing, appended after what it
/// had already sent.
pub proof fn lemma_half_close_keeps_other(v: RelayView, d: Direction, chunk: Seq<u8>)
    requires
        !v.failed,
        flow(v, d).open,
        flow(v, opposite(d)).open,
        chunk.len() > 0,
    ensures
        read_action(v, d, Seq::empty()) == ActionView::Shutdown(d),
        ({
            let w = after_read(v, d, Seq::empty());
            &&& !flow(w, d).open
            &&& flow(w, opposite(d)) == flow(v, opposite(d))
            &&& !finished(w)
            &&& read_action(w, opposite(d), chunk) == ActionView::Write(opposite(d), chunk)
            &&& flow(after_read(w, opposite(d), chunk), opposite(d)).sent == flow(
                v,
                opposite(d),
            ).sent + chunk
        }),
{
}

/// The relay is finished only once both flows have reached end-of-stream,
/// unless one failed: the second end-of-stream finishes it.
pub proof fn lemma_finish_needs_both(v: RelayView, d: Direction)
    requires
        !v.failed,
        flow(v, d).open,
    ensures
        finished(after_read(v, d, Seq::empty())) <==> !flow(v, opposite(d)).open,
{
}

} // verus!
