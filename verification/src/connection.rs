//! Rules of a single authenticated connection: request-counter allocation,
//! the authentication handshake check, the multi-packet termination protocol
//! run by the background receiver, and the ordering of candidate endpoints.

use crate::error::RconError;
use crate::packet::{Packet, PacketModel, TYPE_AUTH_RESPONSE, TYPE_RESPONSE};
use vstd::prelude::*;
use vstd::string::StringExecFns;

verus! {

/// Knobs that adapt the connection setup to nonconformant servers.
///
/// Times are in milliseconds; the caller turns them into whatever duration
/// type its runtime wants.
#[derive(Clone, Copy, Debug, PartialEq, Eq, Structural)]
pub struct Settings {
    /// Time allowed for one candidate address to accept the TCP connection
    /// before the dial moves on to the next candidate.
    pub connect_timeout_ms: u64,
    /// Optional pause between connecting and sending the first (auth) packet,
    /// for servers that reject an immediate post-connect write.
    pub auth_delay_ms: Option<u64>,
}

impl Default for Settings {
    /// Ten seconds to connect, no auth delay.
    fn default() -> (s: Settings)
        ensures
            s.connect_timeout_ms == 10_000,
            s.auth_delay_ms is None,
    {
        Settings { connect_timeout_ms: 10_000, auth_delay_ms: None }
    }
}

/// The request counter value that follows `counter`.
pub open spec fn spec_next_counter(counter: i32) -> i32 {
    if counter == i32::MAX {
        1
    } else {
        (counter + 1) as i32
    }
}

/// Advances the request counter: strictly positive forever, wrapping from
/// `i32::MAX` back to `1` — never to `0`, which is reserved for the
/// authentication packet, and never negative, since non-positive ids double as
/// "no active request" sentinels.
pub fn next_counter(counter: i32) -> (next: i32)
    ensures
        next == spec_next_counter(counter),
        counter >= 0 ==> next >= 1,
{
    match counter.checked_add(1) {
        Some(new) => new,
        None => 1,
    }
}

/// The next counter value is never the current one, and a positive counter
/// stays positive: the ids of a command and of its terminator always differ,
/// and neither ever collides with the auth id `0` or the sentinels below it.
pub proof fn lemma_next_counter_distinct(counter: i32)
    ensures
        spec_next_counter(counter) != counter,
        counter > 0 ==> spec_next_counter(counter) > 0,
{
}

/// The per-connection request counter: never negative, strictly positive once
/// advanced, owned exclusively by the calling side of `exec`.
pub struct RequestCounter {
    value: i32,
}

impl View for RequestCounter {
    type V = i32;

    closed spec fn view(&self) -> i32 {
        self.value
    }
}

impl RequestCounter {
    /// A fresh connection's counter, one step before the first request id.
    pub fn new() -> (c: RequestCounter)
        ensures
            c@ == 0,
    {
        RequestCounter { value: 0 }
    }

    /// Allocates the next request id: always at least `1`, wrapping from
    /// `i32::MAX` back to `1`.
    pub fn advance(&mut self) -> (id: i32)
        requires
            old(self)@ >= 0,
        ensures
            final(self)@ == spec_next_counter(old(self)@),
            id == final(self)@,
            id >= 1,
    {
        self.value = next_counter(self.value);
        self.value
    }
}

/// Judges the single reply to the AUTH packet: any kind other than
/// `AUTH_RESPONSE` is `UnexpectedPacket`; an `AUTH_RESPONSE` carrying id `-1`
/// is the server rejecting the password; anything else authenticates the
/// connection.
pub fn check_auth_reply(reply: &Packet) -> (r: Result<(), RconError>)
    ensures
        match r {
            Ok(_) => reply@.packet_type == TYPE_AUTH_RESPONSE && reply@.id != -1,
            Err(e) => match e {
                RconError::UnexpectedPacket => reply@.packet_type != TYPE_AUTH_RESPONSE,
                RconError::PasswordIncorrect => reply@.packet_type == TYPE_AUTH_RESPONSE
                    && reply@.id == -1,
                _ => false,
            },
        },
{
    if *reply.get_packet_type() != TYPE_AUTH_RESPONSE {
        return Err(RconError::UnexpectedPacket);
    }
    if *reply.get_id() == -1 {
        return Err(RconError::PasswordIncorrect);
    }
    Ok(())
}

/// What [`ReceiveState`] is mathematically.
pub ghost struct ReceiveModel {
    /// The terminator id, or `-1` while no fragment has arrived and no
    /// terminator has been allocated yet.
    pub end_id: i32,
    /// The reply fragments received so far, concatenated in arrival order.
    pub result: Seq<char>,
}

/// What the receiver must do after inspecting one inbound packet.
#[derive(Debug, PartialEq, Eq, Structural)]
pub enum ReceiveAction {
    /// The packet is stale or belongs to no active request: read on.
    Skip,
    /// The first fragment of the active request arrived and was appended; the
    /// terminator id is now allocated, and the waiting sender must be woken so
    /// it can send the terminator. Read on.
    SignalFirst,
    /// A further fragment of the active request was appended: read on.
    Append,
    /// The terminator echo arrived: every earlier fragment is flushed and the
    /// accumulated result is complete.
    Complete,
    /// A packet with a matching id but a kind other than `RESPONSE`: a
    /// protocol violation, to be surfaced as `UnexpectedPacket`.
    Reject,
}

/// Progress of one command's reply on the receiving side.
///
/// The background receiver makes one of these per command, routes every
/// inbound packet through [`ReceiveState::process_packet`], and hands the
/// accumulated result over when the terminator echo arrives.
pub struct ReceiveState {
    /// The terminator id, or `-1` while no fragment has arrived yet.
    pub end_id: i32,
    /// The reply fragments received so far, concatenated in arrival order.
    pub result: String,
}

impl View for ReceiveState {
    type V = ReceiveModel;

    open spec fn view(&self) -> ReceiveModel {
        ReceiveModel { end_id: self.end_id, result: self.result@ }
    }
}

/// One step of the receiver: the state after inspecting packet `p` while
/// `request_id` is the active request, and the action the receiver owes.
///
/// A non-positive `request_id` means no response is expected, so the packet is
/// stale and skipped. A packet tagged with neither the active id nor the
/// allocated terminator id is skipped too — the tolerant policy towards
/// correlation races against stale in-flight frames. A matching packet of a
/// kind other than `RESPONSE` is rejected. Otherwise the first fragment
/// allocates the terminator id and is appended, the terminator echo completes
/// the reply, and every other fragment is appended.
pub open spec fn spec_step(s: ReceiveModel, request_id: i32, p: PacketModel) -> (ReceiveModel,
    ReceiveAction,
) {
    if request_id <= 0 {
        (s, ReceiveAction::Skip)
    } else if p.id != request_id && (s.end_id == -1 || p.id != s.end_id) {
        (s, ReceiveAction::Skip)
    } else if p.packet_type != TYPE_RESPONSE {
        (s, ReceiveAction::Reject)
    } else if s.end_id == -1 {
        (
            ReceiveModel { end_id: spec_next_counter(request_id), result: s.result + p.body },
            ReceiveAction::SignalFirst,
        )
    } else if p.id == s.end_id {
        (s, ReceiveAction::Complete)
    } else {
        (ReceiveModel { end_id: s.end_id, result: s.result + p.body }, ReceiveAction::Append)
    }
}

impl ReceiveState {
    /// The state at the start of a command: no fragment yet, empty result.
    pub fn new() -> (s: ReceiveState)
        ensures
            s@ == (ReceiveModel { end_id: -1i32, result: Seq::<char>::empty() }),
    {
        ReceiveState { end_id: -1, result: String::new() }
    }

    /// Routes one inbound packet: steps the state exactly as [`spec_step`]
    /// says and returns the action the receiver owes for it.
    pub fn process_packet(&mut self, request_id: i32, packet: &Packet) -> (action: ReceiveAction)
        ensures
            (final(self)@, action) == spec_step(old(self)@, request_id, packet@),
    {
        if request_id <= 0 {
            return ReceiveAction::Skip;
        }
        let pid = *packet.get_id();
        if pid != request_id && (self.end_id == -1 || pid != self.end_id) {
            return ReceiveAction::Skip;
        }
        if *packet.get_packet_type() != TYPE_RESPONSE {
            return ReceiveAction::Reject;
        }
        if self.end_id == -1 {
            self.end_id = next_counter(request_id);
            self.result.append(packet.get_body().as_str());
            ReceiveAction::SignalFirst
        } else if pid == self.end_id {
            ReceiveAction::Complete
        } else {
            self.result.append(packet.get_body().as_str());
            ReceiveAction::Append
        }
    }

    /// Surrenders the accumulated reply.
    pub fn into_result(self) -> (r: String)
        ensures
            r@ == self@.result,
    {
        self.result
    }
}

/// The state after the receiver has processed `frames` in arrival order,
/// starting from `s`, while `request_id` is the active request.
pub open spec fn spec_run(s: ReceiveModel, request_id: i32, frames: Seq<PacketModel>) -> ReceiveModel
    decreases frames.len(),
{
    if frames.len() == 0 {
        s
    } else {
        spec_step(spec_run(s, request_id, frames.drop_last()), request_id, frames.last()).0
    }
}

/// The concatenation of `bodies`, in order.
pub open spec fn spec_concat(bodies: Seq<Seq<char>>) -> Seq<char>
    decreases bodies.len(),
{
    if bodies.len() == 0 {
        Seq::empty()
    } else {
        spec_concat(bodies.drop_last()) + bodies.last()
    }
}

/// A `RESPONSE` fragment of request `request_id` carrying `body`.
pub open spec fn spec_fragment(request_id: i32, body: Seq<char>) -> PacketModel {
    PacketModel { id: request_id, packet_type: TYPE_RESPONSE, body }
}

/// The termination protocol, whole: while request `request_id` is active, a
/// reply split into any number (at least one) of `RESPONSE` fragments, all
/// arriving before the echo of the terminator — the one empty command sent
/// under the next counter value — drives the receiver as follows. The first
/// fragment, and only it, fires the first-fragment signal and allocates the
/// terminator id; every further fragment is appended; the echo completes the
/// reply; and the completed result is exactly the fragments' bodies
/// concatenated in arrival order. The terminator id is strictly greater than
/// the request id whenever the counter did not wrap at `i32::MAX`.
pub proof fn lemma_termination_protocol(
    request_id: i32,
    bodies: Seq<Seq<char>>,
    echo_body: Seq<char>,
)
    requires
        request_id > 0,
        bodies.len() >= 1,
    ensures
        ({
            let start = ReceiveModel { end_id: -1i32, result: Seq::<char>::empty() };
            let frames = Seq::new(bodies.len(), |i: int| spec_fragment(request_id, bodies[i]));
            let done = spec_run(start, request_id, frames);
            let echo = PacketModel {
                id: spec_next_counter(request_id),
                packet_type: TYPE_RESPONSE,
                body: echo_body,
            };
            &&& done.end_id == spec_next_counter(request_id)
            &&& done.result == spec_concat(bodies)
            &&& spec_step(done, request_id, echo) == (done, ReceiveAction::Complete)
            &&& spec_step(start, request_id, frames[0]).1 == ReceiveAction::SignalFirst
            &&& forall|i: int|
                1 <= i < frames.len() ==> (#[trigger] spec_step(
                    spec_run(start, request_id, frames.take(i)),
                    request_id,
                    frames[i],
                )).1 == ReceiveAction::Append
            &&& request_id < i32::MAX ==> spec_next_counter(request_id) > request_id
        }),
    decreases bodies.len(),
{
    lemma_next_counter_distinct(request_id);
    let start = ReceiveModel { end_id: -1i32, result: Seq::<char>::empty() };
    let frames = Seq::new(bodies.len(), |i: int| spec_fragment(request_id, bodies[i]));
    let done = spec_run(start, request_id, frames);
    assert(frames.last() == spec_fragment(request_id, bodies.last()));
    if bodies.len() == 1 {
        assert(frames.drop_last() =~= Seq::<PacketModel>::empty());
        assert(spec_run(start, request_id, frames.drop_last()) == start);
        assert(done == spec_step(start, request_id, frames.last()).0);
        assert(bodies.drop_last().len() == 0);
        assert(spec_concat(bodies.drop_last()) == Seq::<char>::empty());
        assert(done.result =~= spec_concat(bodies));
    } else {
        let sub = bodies.drop_last();
        lemma_termination_protocol(request_id, sub, echo_body);
        let sub_frames = Seq::new(sub.len(), |i: int| spec_fragment(request_id, sub[i]));
        assert(frames.drop_last() =~= sub_frames);
        let mid = spec_run(start, request_id, sub_frames);
        assert(done == spec_step(mid, request_id, frames.last()).0);
        assert(done.result == spec_concat(sub) + bodies.last());
        assert forall|i: int|
            1 <= i < frames.len() implies (#[trigger] spec_step(
            spec_run(start, request_id, frames.take(i)),
            request_id,
            frames[i],
        )).1 == ReceiveAction::Append by {
            if i < frames.len() - 1 {
                assert(frames.take(i) =~= sub_frames.take(i));
                assert(frames[i] == sub_frames[i]);
            } else {
                assert(frames.take(i) =~= sub_frames);
            }
        }
        assert(frames[0] == sub_frames[0]);
    }
}

/// What an `exec` call must return when the handoff channel yields `received`:
/// the receiver's verdict when there is one; when the channel is closed — the
/// receiving task is gone — an IO-class error rather than a hang.
pub fn response_or_closed(received: Option<Result<String, RconError>>) -> (r: Result<
    String,
    RconError,
>)
    ensures
        match received {
            Some(v) => r == v,
            None => r matches Err(e) && e matches RconError::IO(m) && m@
                == "receiving task terminated"@,
        },
{
    match received {
        Some(v) => v,
        None => Err(RconError::IO(String::from_str("receiving task terminated"))),
    }
}

/// The positions, in order, of the entries of `fams` that equal `wanted`.
pub open spec fn spec_positions(fams: Seq<bool>, wanted: bool) -> Seq<usize>
    decreases fams.len(),
{
    if fams.len() == 0 {
        Seq::empty()
    } else {
        let prefix = spec_positions(fams.drop_last(), wanted);
        if fams.last() == wanted {
            prefix.push((fams.len() - 1) as usize)
        } else {
            prefix
        }
    }
}

/// Orders a dial's candidate endpoints: IPv4 candidates first — most servers
/// bind only to IPv4, so those are likelier to succeed — with the resolver's
/// order kept inside each class. Takes, for each candidate, whether it is
/// IPv6, and returns the candidates' positions in the order to try them.
pub fn order_candidates(is_ipv6: &Vec<bool>) -> (order: Vec<usize>)
    ensures
        order@ == spec_positions(is_ipv6@, false) + spec_positions(is_ipv6@, true),
{
    let n = is_ipv6.len();
    let mut order: Vec<usize> = Vec::new();
    let mut i: usize = 0;
    while i < n
        invariant
            i <= n,
            n == is_ipv6@.len(),
            order@ == spec_positions(is_ipv6@.take(i as int), false),
        decreases n - i,
    {
        proof {
            assert(is_ipv6@.take(i + 1).drop_last() =~= is_ipv6@.take(i as int));
        }
        if !is_ipv6[i] {
            order.push(i);
        }
        i += 1;
    }
    proof {
        assert(is_ipv6@.take(n as int) =~= is_ipv6@);
    }
    let mut j: usize = 0;
    while j < n
        invariant
            j <= n,
            n == is_ipv6@.len(),
            order@ == spec_positions(is_ipv6@, false) + spec_positions(
                is_ipv6@.take(j as int),
                true,
            ),
        decreases n - j,
    {
        proof {
            assert(is_ipv6@.take(j + 1).drop_last() =~= is_ipv6@.take(j as int));
        }
        if is_ipv6[j] {
            order.push(j);
        }
        j += 1;
    }
    proof {
        assert(is_ipv6@.take(n as int) =~= is_ipv6@);
    }
    order
}

/// The error `open` reports once every candidate endpoint has been tried in
/// vain: the last connect error when some candidate produced one, otherwise —
/// every candidate timed out, or resolution yielded nothing at all — an
/// IO-class note that no usable address was found.
pub fn connect_failure(last_error: Option<RconError>) -> (r: RconError)
    ensures
        match last_error {
            Some(e) => r == e,
            None => r matches RconError::IO(m) && m@ == "could not resolve rcon host address"@,
        },
{
    match last_error {
        Some(e) => e,
        None => RconError::IO(String::from_str("could not resolve rcon host address")),
    }
}

} // verus!
