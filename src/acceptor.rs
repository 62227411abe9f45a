use vstd::prelude::*;

verus! {

/// Whether the proxy listens for plain HTTP or for HTTP over TLS.
#[derive(Clone, Copy, Debug, PartialEq, Eq, Structural)]
pub enum ServeMode {
    Plain,
    Secure,
}

/// How an incoming connection came off the listening socket.
pub enum Incoming {
    /// The socket's accept call failed.
    AcceptFailed(String),
    /// The connection was accepted but its TLS handshake failed.
    HandshakeFailed(String),
    /// The connection is ready for the HTTP engine.
    Ready,
}

/// What becomes of an incoming connection.
pub enum Screening {
    /// Hand it to the HTTP engine.
    Serve,
    /// Drop it after printing these lines; the listener goes on.
    Drop { lines: Vec<String> },
}

/// The advice printed after a failed handshake.
pub open spec fn handshake_hint() -> Seq<char> {
    "Make sure to use https and `--insecure` with curl"@
}

/// Whether a connection that came in as `inc` reaches the HTTP engine.
pub open spec fn serves(inc: Incoming) -> bool {
    inc is Ready
}

/// Decides the fate of one incoming connection. Failures are reported and
/// the connection dropped; nothing here stops the listener.
pub fn screen(inc: &Incoming) -> (r: Screening)
    ensures
        r is Serve <==> serves(*inc),
        inc matches Incoming::AcceptFailed(e) ==> (r matches Screening::Drop { lines } && lines@.len()
            == 1 && lines@[0]@ == "Failed to accept client "@ + e@),
        inc matches Incoming::HandshakeFailed(e) ==> (r matches Screening::Drop { lines }
            && lines@.len() == 2 && lines@[0]@ == "Client connection error "@ + e@ && lines@[1]@
            == handshake_hint()),
{
    match inc {
        Incoming::AcceptFailed(e) => {
            let mut line = String::from_str("Failed to accept client ");
            line.append(e.as_str());
            let mut lines: Vec<String> = Vec::new();
            lines.push(line);
            Screening::Drop { lines }
        },
        Incoming::HandshakeFailed(e) => {
            let mut line = String::from_str("Client connection error ");
            line.append(e.as_str());
            let mut lines: Vec<String> = Vec::new();
            lines.push(line);
            lines.push(String::from_str("Make sure to use https and `--insecure` with curl"));
            Screening::Drop { lines }
        },
        Incoming::Ready => Screening::Serve,
    }
}

/// The scheme a mode is announced with.
pub open spec fn scheme_prefix(mode: ServeMode) -> Seq<char> {
    match mode {
        ServeMode::Plain => "http://"@,
        ServeMode::Secure => "https://"@,
    }
}

/// The warning printed when a secure listener starts.
pub open spec fn certificate_warning() -> Seq<char> {
    "Generated certificate is not verified, browsers will give a warning and curl will require `--insecure`"@
}

/// The lines printed when the listener starts on `address`: where it
/// listens, and in secure mode a warning about the unverified certificate.
pub fn startup_lines(mode: ServeMode, address: &str) -> (r: Vec<String>)
    ensures
        r@.len() == if mode == ServeMode::Secure { 2int } else { 1int },
        r@[0]@ == "\u{1f442} Listening on "@ + scheme_prefix(mode) + address@,
        mode == ServeMode::Secure ==> r@[1]@ == certificate_warning(),
{
    let mut first = String::from_str("\u{1f442} Listening on ");
    match mode {
        ServeMode::Plain => first.append("http://"),
        ServeMode::Secure => first.append("https://"),
    }
    first.append(address);
    let mut r: Vec<String> = Vec::new();
    r.push(first);
    if mode == ServeMode::Secure {
        r.push(
            String::from_str(
                "Generated certificate is not verified, browsers will give a warning and curl will require `--insecure`",
            ),
        );
    }
    r
}

/// The positions, in arrival order, of the connections in `incs` that reach
/// the HTTP engine.
pub open spec fn handed_on(incs: Seq<Incoming>) -> Seq<int>
    decreases incs.len(),
{
    if incs.len() == 0 {
        Seq::empty()
    } else {
        let earlier = handed_on(incs.drop_last());
        if serves(incs.last()) {
            earlier.push(incs.len() - 1)
        } else {
            earlier
        }
    }
}

/// Every ready connection reaches the engine and no failed one does, whatever
/// came before or after it.
pub proof fn lemma_ready_connections_are_served(incs: Seq<Incoming>)
    ensures
        forall|k: int|
            0 <= k < incs.len() ==> (handed_on(incs).contains(k) <==> serves(#[trigger] incs[k])),
    decreases incs.len(),
{
    if incs.len() > 0 {
        let earlier = incs.drop_last();
        lemma_ready_connections_are_served(earlier);
        assert forall|k: int| 0 <= k < incs.len() implies (handed_on(incs).contains(k) <==> serves(
            #[trigger] incs[k],
        )) by {
            let h = handed_on(earlier);
            if k < incs.len() - 1 {
                assert(incs[k] == earlier[k]);
                if serves(incs.last()) {
                    assert(handed_on(incs) == h.push(incs.len() - 1));
                    if h.contains(k) {
                        let j = choose|j: int| 0 <= j < h.len() && h[j] == k;
                        assert(h.push(incs.len() - 1)[j] == k);
                    }
                    if handed_on(incs).contains(k) {
                        let hp = h.push(incs.len() - 1);
                        let j = choose|j: int| 0 <= j < hp.len() && #[trigger] hp[j] == k;
                        assert(j < h.len());
                    }
                }
            } else {
                if serves(incs.last()) {
                    assert(handed_on(incs).last() == k);
                } else {
                    lemma_positions_below(earlier);
                }
            }
        }
    }
}

proof fn lemma_positions_below(incs: Seq<Incoming>)
    ensures
        forall|j: int| 0 <= j < handed_on(incs).len() ==> #[trigger] handed_on(incs)[j] < incs.len(),
    decreases incs.len(),
{
    if incs.len() > 0 {
        let earlier = incs.drop_last();
        lemma_positions_below(earlier);
        let h = handed_on(earlier);
        assert forall|j: int| 0 <= j < handed_on(incs).len() implies #[trigger] handed_on(incs)[j]
            < incs.len() by {
            if serves(incs.last()) && j == h.len() {
            } else {
                assert(handed_on(incs)[j] == h[j]);
            }
        }
    }
}

/// A failed handshake on one connection does not keep the next one from
/// being served: if connection `n` fails its handshake and connection
/// `n + 1` is ready, only the latter reaches the engine.
pub proof fn lemma_handshake_failure_is_isolated(incs: Seq<Incoming>, n: int)
    requires
        0 <= n,
        n + 1 < incs.len(),
        incs[n] is HandshakeFailed,
        incs[n + 1] is Ready,
    ensures
        !handed_on(incs).contains(n),
        handed_on(incs).contains(n + 1),
{
    lemma_ready_connections_are_served(incs);
    assert(serves(incs[n + 1]));
    assert(!serves(incs[n]));
}

} // verus!
