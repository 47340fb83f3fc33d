//! The SOCKS handshake used by dynamic forwarding, polymorphic over
//! protocol version 4 and 5.
//!
//! The grammar is specified by total functions over byte sequences
//! (`spec_parse_greeting`, `spec_parse_request`, `spec_advance`); the
//! executable handshake machine is proved to follow them byte for
//! byte.  Only the CONNECT command is allowed; any other command is
//! rejected with a version-appropriate reply before any channel is
//! opened, and the listener that handed the connection in is not
//! involved at all.

use vstd::prelude::*;

use crate::errors::SSHError;
use crate::manager::SSHManager;
use crate::session::SSHSessionId;

verus! {

#[derive(Debug, Clone, Copy, PartialEq, Eq, Structural)]
pub enum SocksVersion {
    V4,
    V5,
}

#[derive(Debug, Clone, Copy, PartialEq, Eq, Structural)]
pub enum SocksCommand {
    Connect,
    Bind,
    UdpAssociate,
}

/// A requested destination host: a literal address or a domain name,
/// exactly as the request carried it.
#[derive(Debug, Clone, PartialEq, Eq)]
pub enum SocksHost {
    Ipv4(u8, u8, u8, u8),
    Domain(Vec<u8>),
    Ipv6(Vec<u8>),
}

/// The destination of a CONNECT request.
#[derive(Debug, Clone, PartialEq, Eq)]
pub struct SocksDestination {
    pub host: SocksHost,
    pub port: u16,
}

/// A destination host at the specification level.
pub enum SpecHost {
    Ipv4(Seq<u8>),
    Domain(Seq<u8>),
    Ipv6(Seq<u8>),
}

/// Whether the executable host value carries exactly the bytes of the
/// specification-level host.
pub open spec fn host_matches(h: SocksHost, s: SpecHost) -> bool {
    match s {
        SpecHost::Ipv4(bytes) => h matches SocksHost::Ipv4(a, b, c, d) && bytes.len() == 4
            && bytes[0] == a && bytes[1] == b && bytes[2] == c && bytes[3] == d,
        SpecHost::Domain(bytes) => h matches SocksHost::Domain(v) && v@ == bytes,
        SpecHost::Ipv6(bytes) => h matches SocksHost::Ipv6(v) && v@ == bytes,
    }
}

/// Outcome of parsing a version-5 method-negotiation greeting.
pub enum SpecGreeting {
    NeedMore,
    Malformed,
    Done { no_auth_offered: bool, consumed: int },
}

/// Outcome of parsing a request (version 4 or 5).
pub enum SpecParse {
    NeedMore,
    Malformed,
    Request { version: SocksVersion, command: SocksCommand, host: SpecHost, port: int, consumed: int },
}

/// The version-5 greeting: version byte, method count, method bytes.
/// `no_auth_offered` says whether method 0 ("no authentication
/// required") — the only method this proxy advertises — is among them.
pub open spec fn spec_parse_greeting(b: Seq<u8>) -> SpecGreeting {
    if b.len() < 1 {
        SpecGreeting::NeedMore
    } else if b[0] != 5 {
        SpecGreeting::Malformed
    } else if b.len() < 2 {
        SpecGreeting::NeedMore
    } else if b.len() < 2 + b[1] {
        SpecGreeting::NeedMore
    } else {
        SpecGreeting::Done {
            no_auth_offered: exists|i: int| 2 <= i < 2 + b[1] && b[i] == 0,
            consumed: 2 + b[1],
        }
    }
}

/// The command byte of a version-5 request.
pub open spec fn spec_command5(x: u8) -> SocksCommand {
    if x == 1 {
        SocksCommand::Connect
    } else if x == 2 {
        SocksCommand::Bind
    } else {
        SocksCommand::UdpAssociate
    }
}

/// The first index at or after `i` holding a NUL byte, or -1.
pub open spec fn find_terminator(b: Seq<u8>, i: int) -> int
    recommends
        0 <= i,
    decreases b.len() - i when 0 <= i <= b.len()
{
    if i >= b.len() {
        -1
    } else if b[i] == 0 {
        i
    } else {
        find_terminator(b, i + 1)
    }
}

/// The request grammar.
///
/// Version 5: version, command (CONNECT / BIND / UDP ASSOCIATE),
/// reserved byte (ignored), address type (IPv4 literal, domain with a
/// length prefix, IPv6 literal), address, big-endian port.
///
/// Version 4: version, command (CONNECT / BIND), big-endian port, IPv4
/// literal, then the NUL-terminated user id.
pub open spec fn spec_parse_request(b: Seq<u8>) -> SpecParse {
    if b.len() < 1 {
        SpecParse::NeedMore
    } else if b[0] == 5 {
        if b.len() < 2 {
            SpecParse::NeedMore
        } else if b[1] != 1 && b[1] != 2 && b[1] != 3 {
            SpecParse::Malformed
        } else if b.len() < 4 {
            SpecParse::NeedMore
        } else if b[3] == 1 {
            if b.len() < 10 {
                SpecParse::NeedMore
            } else {
                SpecParse::Request {
                    version: SocksVersion::V5,
                    command: spec_command5(b[1]),
                    host: SpecHost::Ipv4(b.subrange(4, 8)),
                    port: b[8] * 256 + b[9],
                    consumed: 10,
                }
            }
        } else if b[3] == 3 {
            if b.len() < 5 {
                SpecParse::NeedMore
            } else if b.len() < 7 + b[4] {
                SpecParse::NeedMore
            } else {
                SpecParse::Request {
                    version: SocksVersion::V5,
                    command: spec_command5(b[1]),
                    host: SpecHost::Domain(b.subrange(5, 5 + b[4])),
                    port: b[5 + b[4]] * 256 + b[6 + b[4]],
                    consumed: 7 + b[4],
                }
            }
        } else if b[3] == 4 {
            if b.len() < 22 {
                SpecParse::NeedMore
            } else {
                SpecParse::Request {
                    version: SocksVersion::V5,
                    command: spec_command5(b[1]),
                    host: SpecHost::Ipv6(b.subrange(4, 20)),
                    port: b[20] * 256 + b[21],
                    consumed: 22,
                }
            }
        } else {
            SpecParse::Malformed
        }
    } else if b[0] == 4 {
        if b.len() < 2 {
            SpecParse::NeedMore
        } else if b[1] != 1 && b[1] != 2 {
            SpecParse::Malformed
        } else if b.len() < 9 {
            SpecParse::NeedMore
        } else if find_terminator(b, 8) == -1 {
            SpecParse::NeedMore
        } else {
            SpecParse::Request {
                version: SocksVersion::V4,
                command: if b[1] == 1 {
                    SocksCommand::Connect
                } else {
                    SocksCommand::Bind
                },
                host: SpecHost::Ipv4(b.subrange(4, 8)),
                port: b[2] * 256 + b[3],
                consumed: find_terminator(b, 8) + 1,
            }
        }
    } else {
        SpecParse::Malformed
    }
}

proof fn lemma_find_terminator_bounds(b: Seq<u8>, i: int)
    requires
        0 <= i <= b.len(),
    ensures
        find_terminator(b, i) == -1 || (i <= find_terminator(b, i) < b.len() && b[find_terminator(
            b,
            i,
        )] == 0),
    decreases b.len() - i,
{
    if i < b.len() && b[i] != 0 {
        lemma_find_terminator_bounds(b, i + 1);
    }
}

proof fn lemma_find_terminator_skip(b: Seq<u8>, lo: int, i: int)
    requires
        0 <= lo <= i <= b.len(),
        forall|j: int| lo <= j < i ==> b[j] != 0,
    ensures
        find_terminator(b, lo) == find_terminator(b, i),
    decreases i - lo,
{
    if lo < i {
        assert(b[lo] != 0);
        lemma_find_terminator_skip(b, lo + 1, i);
    }
}

/// Executable outcome of greeting parsing.
pub enum GreetingParse {
    NeedMore,
    Malformed,
    Done { no_auth_offered: bool, consumed: usize },
}

pub open spec fn greeting_matches(r: GreetingParse, s: SpecGreeting) -> bool {
    match s {
        SpecGreeting::NeedMore => r is NeedMore,
        SpecGreeting::Malformed => r is Malformed,
        SpecGreeting::Done { no_auth_offered, consumed } => r matches GreetingParse::Done {
            no_auth_offered: n,
            consumed: c,
        } && n == no_auth_offered && c == consumed,
    }
}

/// Parses the version-5 method-negotiation greeting.
pub fn parse_greeting(buffer: &Vec<u8>) -> (r: GreetingParse)
    ensures
        greeting_matches(r, spec_parse_greeting(buffer@)),
{
    if buffer.len() < 1 {
        return GreetingParse::NeedMore;
    }
    if buffer[0] != 5 {
        return GreetingParse::Malformed;
    }
    if buffer.len() < 2 {
        return GreetingParse::NeedMore;
    }
    let n = buffer[1] as usize;
    if buffer.len() < 2 + n {
        return GreetingParse::NeedMore;
    }
    let mut no_auth = false;
    for i in 0..n
        invariant
            n == buffer@[1],
            buffer@.len() >= 2 + n,
            no_auth <==> exists|j: int| 2 <= j < 2 + i && (#[trigger] buffer@[j]) == 0,
    {
        if buffer[2 + i] == 0 {
            no_auth = true;
            proof {
                assert(2 <= 2 + i < 2 + (i + 1) && buffer@[2 + i] == 0);
            }
        }
    }
    GreetingParse::Done { no_auth_offered: no_auth, consumed: 2 + n }
}

/// Executable outcome of request parsing.
pub enum RequestParse {
    NeedMore,
    Malformed,
    Done { version: SocksVersion, command: SocksCommand, dest: SocksDestination, consumed: usize },
}

pub open spec fn request_matches(r: RequestParse, s: SpecParse) -> bool {
    match s {
        SpecParse::NeedMore => r is NeedMore,
        SpecParse::Malformed => r is Malformed,
        SpecParse::Request { version, command, host, port, consumed } => r
            matches RequestParse::Done { version: rv, command: rc, dest, consumed: rcons } && rv
            == version && rc == command && host_matches(dest.host, host) && dest.port == port
            && rcons == consumed,
    }
}

/// Parses a version-4 or version-5 request.
pub fn parse_request(buffer: &Vec<u8>) -> (r: RequestParse)
    ensures
        request_matches(r, spec_parse_request(buffer@)),
{
    if buffer.len() < 1 {
        return RequestParse::NeedMore;
    }
    if buffer[0] == 5 {
        if buffer.len() < 2 {
            return RequestParse::NeedMore;
        }
        let cmd_byte = buffer[1];
        if cmd_byte != 1 && cmd_byte != 2 && cmd_byte != 3 {
            return RequestParse::Malformed;
        }
        let command = if cmd_byte == 1 {
            SocksCommand::Connect
        } else if cmd_byte == 2 {
            SocksCommand::Bind
        } else {
            SocksCommand::UdpAssociate
        };
        if buffer.len() < 4 {
            return RequestParse::NeedMore;
        }
        if buffer[3] == 1 {
            if buffer.len() < 10 {
                return RequestParse::NeedMore;
            }
            let host = SocksHost::Ipv4(buffer[4], buffer[5], buffer[6], buffer[7]);
            let port = (buffer[8] as u16) * 256 + (buffer[9] as u16);
            RequestParse::Done {
                version: SocksVersion::V5,
                command,
                dest: SocksDestination { host, port },
                consumed: 10,
            }
        } else if buffer[3] == 3 {
            if buffer.len() < 5 {
                return RequestParse::NeedMore;
            }
            let dlen = buffer[4] as usize;
            if buffer.len() < 7 + dlen {
                return RequestParse::NeedMore;
            }
            let name = vstd::slice::slice_to_vec(
                vstd::slice::slice_subrange(buffer.as_slice(), 5, 5 + dlen),
            );
            let port = (buffer[5 + dlen] as u16) * 256 + (buffer[6 + dlen] as u16);
            RequestParse::Done {
                version: SocksVersion::V5,
                command,
                dest: SocksDestination { host: SocksHost::Domain(name), port },
                consumed: 7 + dlen,
            }
        } else if buffer[3] == 4 {
            if buffer.len() < 22 {
                return RequestParse::NeedMore;
            }
            let addr = vstd::slice::slice_to_vec(
                vstd::slice::slice_subrange(buffer.as_slice(), 4, 20),
            );
            let port = (buffer[20] as u16) * 256 + (buffer[21] as u16);
            RequestParse::Done {
                version: SocksVersion::V5,
                command,
                dest: SocksDestination { host: SocksHost::Ipv6(addr), port },
                consumed: 22,
            }
        } else {
            RequestParse::Malformed
        }
    } else if buffer[0] == 4 {
        if buffer.len() < 2 {
            return RequestParse::NeedMore;
        }
        let cmd_byte = buffer[1];
        if cmd_byte != 1 && cmd_byte != 2 {
            return RequestParse::Malformed;
        }
        if buffer.len() < 9 {
            return RequestParse::NeedMore;
        }
        let n = buffer.len();
        let mut idx: usize = 8;
        let mut terminator: Option<usize> = None;
        while idx < n && terminator.is_none()
            invariant
                8 <= idx <= n,
                n == buffer@.len(),
                match terminator {
                    Some(t) => t == idx && 8 <= t < n && buffer@[t as int] == 0 && forall|j: int|
                        8 <= j < t ==> buffer@[j] != 0,
                    None => forall|j: int| 8 <= j < idx ==> buffer@[j] != 0,
                },
            decreases n - idx + (if terminator is None { 1int } else { 0int }),
        {
            if buffer[idx] == 0 {
                terminator = Some(idx);
            } else {
                idx = idx + 1;
            }
        }
        match terminator {
            None => {
                proof {
                    lemma_find_terminator_skip(buffer@, 8, n as int);
                }
                RequestParse::NeedMore
            }
            Some(t) => {
                proof {
                    lemma_find_terminator_skip(buffer@, 8, t as int);
                    assert(find_terminator(buffer@, t as int) == t);
                }
                let host = SocksHost::Ipv4(buffer[4], buffer[5], buffer[6], buffer[7]);
                let port = (buffer[2] as u16) * 256 + (buffer[3] as u16);
                RequestParse::Done {
                    version: SocksVersion::V4,
                    command: if cmd_byte == 1 {
                        SocksCommand::Connect
                    } else {
                        SocksCommand::Bind
                    },
                    dest: SocksDestination { host, port },
                    consumed: t + 1,
                }
            }
        }
    } else {
        RequestParse::Malformed
    }
}

/// The method-selection reply: the chosen method, or 255 when no
/// offered method is acceptable.
pub fn method_selection_reply(accept: bool) -> (r: Vec<u8>)
    ensures
        accept ==> r@ == seq![5u8, 0u8],
        !accept ==> r@ == seq![5u8, 255u8],
{
    let mut v: Vec<u8> = Vec::new();
    v.push(5u8);
    if accept {
        v.push(0u8);
        proof {
            assert(v@ =~= seq![5u8, 0u8]);
        }
    } else {
        v.push(255u8);
        proof {
            assert(v@ =~= seq![5u8, 255u8]);
        }
    }
    v
}

/// The reply that rejects a disallowed command: "command not
/// supported" for version 5, "rejected or failed" for version 4.
pub open spec fn spec_rejection_reply(version: SocksVersion) -> Seq<u8> {
    match version {
        SocksVersion::V5 => seq![5u8, 7u8, 0u8, 1u8, 0u8, 0u8, 0u8, 0u8, 0u8, 0u8],
        SocksVersion::V4 => seq![0u8, 91u8, 0u8, 0u8, 0u8, 0u8, 0u8, 0u8],
    }
}

pub fn rejection_reply(version: SocksVersion) -> (r: Vec<u8>)
    ensures
        r@ == spec_rejection_reply(version),
{
    let mut v: Vec<u8> = Vec::new();
    match version {
        SocksVersion::V5 => {
            v.push(5u8);
            v.push(7u8);
            v.push(0u8);
            v.push(1u8);
            v.push(0u8);
            v.push(0u8);
            v.push(0u8);
            v.push(0u8);
            v.push(0u8);
            v.push(0u8);
            proof {
                assert(v@ =~= spec_rejection_reply(SocksVersion::V5));
            }
        }
        SocksVersion::V4 => {
            v.push(0u8);
            v.push(91u8);
            v.push(0u8);
            v.push(0u8);
            v.push(0u8);
            v.push(0u8);
            v.push(0u8);
            v.push(0u8);
            proof {
                assert(v@ =~= spec_rejection_reply(SocksVersion::V4));
            }
        }
    }
    v
}

/// The reply sent once the tunnel's channel open has succeeded or
/// failed.  The success reply carries a wildcard bound address (all
/// zero): no real local socket backs the tunnel.
pub open spec fn spec_connect_reply(version: SocksVersion, success: bool) -> Seq<u8> {
    match version {
        SocksVersion::V5 => if success {
            seq![5u8, 0u8, 0u8, 1u8, 0u8, 0u8, 0u8, 0u8, 0u8, 0u8]
        } else {
            seq![5u8, 1u8, 0u8, 1u8, 0u8, 0u8, 0u8, 0u8, 0u8, 0u8]
        },
        SocksVersion::V4 => if success {
            seq![0u8, 90u8, 0u8, 0u8, 0u8, 0u8, 0u8, 0u8]
        } else {
            seq![0u8, 91u8, 0u8, 0u8, 0u8, 0u8, 0u8, 0u8]
        },
    }
}

pub fn connect_reply(version: SocksVersion, success: bool) -> (r: Vec<u8>)
    ensures
        r@ == spec_connect_reply(version, success),
{
    let mut v: Vec<u8> = Vec::new();
    match version {
        SocksVersion::V5 => {
            v.push(5u8);
            v.push(if success { 0u8 } else { 1u8 });
            v.push(0u8);
            v.push(1u8);
            v.push(0u8);
            v.push(0u8);
            v.push(0u8);
            v.push(0u8);
            v.push(0u8);
            v.push(0u8);
            proof {
                assert(v@ =~= spec_connect_reply(SocksVersion::V5, success));
            }
        }
        SocksVersion::V4 => {
            v.push(0u8);
            v.push(if success { 90u8 } else { 91u8 });
            v.push(0u8);
            v.push(0u8);
            v.push(0u8);
            v.push(0u8);
            v.push(0u8);
            v.push(0u8);
            proof {
                assert(v@ =~= spec_connect_reply(SocksVersion::V4, success));
            }
        }
    }
    v
}

/// The phase of one connection's handshake.
#[derive(Debug, Clone, Copy, PartialEq, Eq, Structural)]
pub enum HandshakePhase {
    /// Nothing consumed yet: a version-4 request or a version-5
    /// greeting may arrive.
    Start,
    /// The version-5 method selection has been sent; the request is
    /// awaited.
    AwaitRequest,
    /// The handshake is over — the tunnel is open, or the connection
    /// was rejected.
    Closed,
}

/// What the handshake asks its surroundings to do after a chunk of
/// client bytes.
#[derive(Debug, PartialEq, Eq)]
pub enum SocksStep {
    /// Read more client bytes.
    NeedMore,
    /// Write this method-selection reply and keep reading.
    SendMethodSelection(Vec<u8>),
    /// No offered method is acceptable: write this reply and close.
    RejectMethod(Vec<u8>),
    /// An accepted CONNECT: open a direct-tcpip channel toward the
    /// destination, then answer with `connect_reply`.
    OpenTunnel { version: SocksVersion, dest: SocksDestination },
    /// A disallowed command: write this reply and close.  No channel
    /// is opened.
    RejectCommand { reply: Vec<u8> },
    /// The bytes do not form a handshake; close without replying.
    Malformed,
}

/// The specification-level step.
pub enum SpecStep {
    NeedMore,
    SendMethodSelection,
    RejectMethod,
    OpenTunnel { version: SocksVersion, host: SpecHost, port: int },
    RejectCommand { version: SocksVersion },
    Malformed,
}

pub open spec fn step_matches(r: SocksStep, s: SpecStep) -> bool {
    match s {
        SpecStep::NeedMore => r is NeedMore,
        SpecStep::SendMethodSelection => r matches SocksStep::SendMethodSelection(v) && v@
            == seq![5u8, 0u8],
        SpecStep::RejectMethod => r matches SocksStep::RejectMethod(v) && v@ == seq![5u8, 255u8],
        SpecStep::OpenTunnel { version, host, port } => r matches SocksStep::OpenTunnel {
            version: rv,
            dest,
        } && rv == version && host_matches(dest.host, host) && dest.port == port,
        SpecStep::RejectCommand { version } => r matches SocksStep::RejectCommand { reply } && reply@
            == spec_rejection_reply(version),
        SpecStep::Malformed => r is Malformed,
    }
}

/// The step a parsed request leads to: CONNECT opens the tunnel, any
/// other command is rejected before any channel is opened.
pub open spec fn step_of_request(p: SpecParse) -> SpecStep {
    match p {
        SpecParse::NeedMore => SpecStep::NeedMore,
        SpecParse::Malformed => SpecStep::Malformed,
        SpecParse::Request { version, command, host, port, consumed } => if command
            is Connect {
            SpecStep::OpenTunnel { version, host, port }
        } else {
            SpecStep::RejectCommand { version }
        },
    }
}

/// The handshake transition over the accumulated client bytes `c`.
pub open spec fn spec_advance(phase: HandshakePhase, c: Seq<u8>) -> SpecStep {
    match phase {
        HandshakePhase::Start => if c.len() == 0 {
            SpecStep::NeedMore
        } else if c[0] == 4 {
            step_of_request(spec_parse_request(c))
        } else {
            match spec_parse_greeting(c) {
                SpecGreeting::NeedMore => SpecStep::NeedMore,
                SpecGreeting::Malformed => SpecStep::Malformed,
                SpecGreeting::Done { no_auth_offered, consumed } => if no_auth_offered {
                    SpecStep::SendMethodSelection
                } else {
                    SpecStep::RejectMethod
                },
            }
        },
        HandshakePhase::AwaitRequest => if c.len() >= 1 && c[0] != 5 {
            SpecStep::Malformed
        } else {
            step_of_request(spec_parse_request(c))
        },
        HandshakePhase::Closed => SpecStep::Malformed,
    }
}

pub open spec fn spec_next_phase(phase: HandshakePhase, c: Seq<u8>) -> HandshakePhase {
    match spec_advance(phase, c) {
        SpecStep::NeedMore => phase,
        SpecStep::SendMethodSelection => HandshakePhase::AwaitRequest,
        SpecStep::RejectMethod => HandshakePhase::Closed,
        SpecStep::OpenTunnel { .. } => HandshakePhase::Closed,
        SpecStep::RejectCommand { .. } => HandshakePhase::Closed,
        SpecStep::Malformed => HandshakePhase::Closed,
    }
}

pub open spec fn request_consumed(p: SpecParse) -> int {
    match p {
        SpecParse::Request { consumed, .. } => consumed,
        _ => 0,
    }
}

/// How many of the accumulated bytes the step consumes.
pub open spec fn spec_consumed(phase: HandshakePhase, c: Seq<u8>) -> int {
    match phase {
        HandshakePhase::Start => if c.len() > 0 && c[0] != 4 {
            match spec_parse_greeting(c) {
                SpecGreeting::Done { consumed, .. } => consumed,
                _ => 0,
            }
        } else {
            request_consumed(spec_parse_request(c))
        },
        HandshakePhase::AwaitRequest => if c.len() >= 1 && c[0] != 5 {
            0
        } else {
            request_consumed(spec_parse_request(c))
        },
        HandshakePhase::Closed => 0,
    }
}

/// The bytes left over after the step; once the tunnel opens these are
/// early client data and belong to the relay.
pub open spec fn spec_remaining(phase: HandshakePhase, c: Seq<u8>) -> Seq<u8> {
    c.skip(spec_consumed(phase, c))
}

/// A tunnel is only ever opened for a CONNECT: any handshake step
/// that opens one comes from a parsed request whose command is
/// CONNECT.  Every other command is answered with a rejection reply
/// while no channel is opened and the listener is untouched.
pub proof fn lemma_tunnel_only_for_connect(phase: HandshakePhase, c: Seq<u8>)
    ensures
        spec_advance(phase, c) is OpenTunnel ==> (spec_parse_request(c) matches SpecParse::Request {
            command,
            ..
        } && command is Connect),
{
}

fn extend_bytes(dst: &mut Vec<u8>, src: &[u8])
    ensures
        final(dst)@ == old(dst)@ + src@,
{
    let ghost orig = dst@;
    let n = src.len();
    for i in 0..n
        invariant
            n == src@.len(),
            dst@ == orig + src@.subrange(0, i as int),
    {
        let b = *vstd::slice::slice_index_get(src, i);
        dst.push(b);
        proof {
            assert(src@.subrange(0, i + 1) =~= src@.subrange(0, i as int).push(src@[i as int]));
        }
    }
    proof {
        assert(src@.subrange(0, n as int) =~= src@);
    }
}

/// One connection's handshake state machine: the phase and the client
/// bytes not yet consumed.
pub struct SocksHandshake {
    pub phase: HandshakePhase,
    pub buffer: Vec<u8>,
}

impl SocksHandshake {
    pub fn new() -> (r: SocksHandshake)
        ensures
            r.phase == HandshakePhase::Start,
            r.buffer@ == Seq::<u8>::empty(),
    {
        SocksHandshake { phase: HandshakePhase::Start, buffer: Vec::new() }
    }

    fn drop_prefix(&mut self, n: usize)
        requires
            n <= old(self).buffer@.len(),
        ensures
            final(self).buffer@ == old(self).buffer@.skip(n as int),
            final(self).phase == old(self).phase,
    {
        let rest = vstd::slice::slice_to_vec(
            vstd::slice::slice_subrange(self.buffer.as_slice(), n, self.buffer.len()),
        );
        self.buffer = rest;
        proof {
            assert(self.buffer@ =~= old(self).buffer@.skip(n as int));
        }
    }

    /// Parses a request from the accumulated bytes and takes the step
    /// it leads to.
    fn request_step(&mut self) -> (r: SocksStep)
        ensures
            step_matches(r, step_of_request(spec_parse_request(old(self).buffer@))),
            final(self).buffer@ == old(self).buffer@.skip(
                request_consumed(spec_parse_request(old(self).buffer@)),
            ),
            final(self).phase == (match step_of_request(spec_parse_request(old(self).buffer@)) {
                SpecStep::NeedMore => old(self).phase,
                _ => HandshakePhase::Closed,
            }),
    {
        let ghost c = self.buffer@;
        match parse_request(&self.buffer) {
            RequestParse::NeedMore => {
                proof {
                    assert(c.skip(0) =~= c);
                }
                SocksStep::NeedMore
            }
            RequestParse::Malformed => {
                self.phase = HandshakePhase::Closed;
                proof {
                    assert(c.skip(0) =~= c);
                }
                SocksStep::Malformed
            }
            RequestParse::Done { version, command, dest, consumed } => {
                proof {
                    if c[0] == 4 {
                        lemma_find_terminator_bounds(c, 8);
                    }
                }
                self.drop_prefix(consumed);
                self.phase = HandshakePhase::Closed;
                match command {
                    SocksCommand::Connect => SocksStep::OpenTunnel { version, dest },
                    _ => SocksStep::RejectCommand { reply: rejection_reply(version) },
                }
            }
        }
    }

    /// Feeds freshly read client bytes into the handshake and returns
    /// what to do next.  The behaviour is exactly `spec_advance` over
    /// the accumulated bytes.
    pub fn advance(&mut self, input: &[u8]) -> (r: SocksStep)
        ensures
            step_matches(r, spec_advance(old(self).phase, old(self).buffer@ + input@)),
            final(self).phase == spec_next_phase(old(self).phase, old(self).buffer@ + input@),
            final(self).buffer@ == spec_remaining(old(self).phase, old(self).buffer@ + input@),
    {
        extend_bytes(&mut self.buffer, input);
        let ghost c = self.buffer@;
        match self.phase {
            HandshakePhase::Start => {
                if self.buffer.len() == 0 {
                    proof {
                        assert(c.skip(0) =~= c);
                    }
                    return SocksStep::NeedMore;
                }
                if self.buffer[0] == 4 {
                    self.request_step()
                } else {
                    match parse_greeting(&self.buffer) {
                        GreetingParse::NeedMore => {
                            proof {
                                assert(c.skip(0) =~= c);
                            }
                            SocksStep::NeedMore
                        }
                        GreetingParse::Malformed => {
                            self.phase = HandshakePhase::Closed;
                            proof {
                                assert(c.skip(0) =~= c);
                            }
                            SocksStep::Malformed
                        }
                        GreetingParse::Done { no_auth_offered, consumed } => {
                            self.drop_prefix(consumed);
                            if no_auth_offered {
                                self.phase = HandshakePhase::AwaitRequest;
                                SocksStep::SendMethodSelection(method_selection_reply(true))
                            } else {
                                self.phase = HandshakePhase::Closed;
                                SocksStep::RejectMethod(method_selection_reply(false))
                            }
                        }
                    }
                }
            }
            HandshakePhase::AwaitRequest => {
                if self.buffer.len() >= 1 && self.buffer[0] != 5 {
                    self.phase = HandshakePhase::Closed;
                    proof {
                        assert(c.skip(0) =~= c);
                    }
                    SocksStep::Malformed
                } else {
                    self.request_step()
                }
            }
            HandshakePhase::Closed => {
                proof {
                    assert(c.skip(0) =~= c);
                }
                SocksStep::Malformed
            }
        }
    }
}

/// The per-connection handler of the embedded proxy: which session the
/// tunnels go through, and the listener's local address, used as the
/// originator of each direct-tcpip open.
pub struct Handler {
    pub ssh_session_id: SSHSessionId,
    pub local_address: String,
    pub local_port: u16,
}

impl Handler {
    pub fn new(ssh_session_id: SSHSessionId, local_address: String, local_port: u16) -> (r: Handler)
        ensures
            r.ssh_session_id == ssh_session_id,
            r.local_address == local_address,
            r.local_port == local_port,
    {
        Handler { ssh_session_id, local_address, local_port }
    }

    /// Method negotiation: only "no authentication required" (method
    /// 0) is ever selected; if the client does not offer it, no method
    /// is acceptable.
    pub fn negotiate_method(&self, methods: &Vec<u8>) -> (r: Option<u8>)
        ensures
            (exists|i: int| 0 <= i < methods@.len() && (#[trigger] methods@[i]) == 0) ==> r
                == Some(0u8),
            !(exists|i: int| 0 <= i < methods@.len() && (#[trigger] methods@[i]) == 0) ==> r
                is None,
    {
        let n = methods.len();
        for i in 0..n
            invariant
                n == methods@.len(),
                forall|j: int| 0 <= j < i ==> (#[trigger] methods@[j]) != 0,
        {
            if methods[i] == 0 {
                return Some(0u8);
            }
        }
        None
    }

    /// Command allow-list: only CONNECT.
    pub fn allow_command(&self, command: SocksCommand) -> (r: bool)
        ensures
            r == (command is Connect),
    {
        match command {
            SocksCommand::Connect => true,
            _ => false,
        }
    }
}

/// A tunnel the proxy asks the session for: the requested destination,
/// exactly as the CONNECT carried it, tagged with the listener's local
/// address as originator.
#[derive(Debug, Clone, PartialEq, Eq)]
pub struct SocksTunnel {
    pub dest: SocksDestination,
    pub originator_address: String,
    pub originator_port: u16,
}

impl SSHManager {
    /// The direct-tcpip open for one accepted CONNECT.  Fails with
    /// `NotFoundSession` when the handler's session is gone; the
    /// failure is isolated to this connection and the listener stays
    /// up.
    pub fn plan_socks_relay(&self, handler: &Handler, dest: SocksDestination) -> (r: Result<
        SocksTunnel,
        SSHError,
    >)
        requires
            self.wf(),
        ensures
            self.sessions@.contains_key(handler.ssh_session_id@) ==> (r matches Ok(t) && t.dest
                == dest && t.originator_address@ == handler.local_address@ && t.originator_port
                == handler.local_port),
            !self.sessions@.contains_key(handler.ssh_session_id@) ==> r == Err::<
                SocksTunnel,
                SSHError,
            >(SSHError::NotFoundSession),
    {
        if self.sessions.contains(&handler.ssh_session_id) {
            Ok(SocksTunnel {
                dest,
                originator_address: handler.local_address.clone(),
                originator_port: handler.local_port,
            })
        } else {
            Err(SSHError::NotFoundSession)
        }
    }
}

} // verus!
