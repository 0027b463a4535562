//! ICE candidate types and priorities, and the STUN client handle.
//! Candidate gathering and the network side live outside the library.

use vstd::prelude::*;
use vstd::string::StringExecFns;

verus! {

/// ICE candidate types.
#[derive(Debug, Clone, Copy, PartialEq, Eq, Structural)]
pub enum CandidateType {
    /// Host candidate (local IP).
    Host,
    /// Server reflexive candidate (STUN result).
    ServerReflexive,
    /// Peer reflexive candidate (discovered during checks).
    PeerReflexive,
    /// Relay candidate (TURN server).
    Relay,
}

impl CandidateType {
    /// The SDP label of the candidate type.
    pub fn label(&self) -> (r: &'static str)
        ensures
            *self == CandidateType::Host ==> r@ == "host"@,
            *self == CandidateType::ServerReflexive ==> r@ == "srflx"@,
            *self == CandidateType::PeerReflexive ==> r@ == "prflx"@,
            *self == CandidateType::Relay ==> r@ == "relay"@,
    {
        match self {
            CandidateType::Host => "host",
            CandidateType::ServerReflexive => "srflx",
            CandidateType::PeerReflexive => "prflx",
            CandidateType::Relay => "relay",
        }
    }
}

/// The type preference of a candidate type: host candidates are preferred,
/// relayed ones least.
pub open spec fn spec_type_preference(candidate_type: CandidateType) -> int {
    match candidate_type {
        CandidateType::Host => 126,
        CandidateType::PeerReflexive => 110,
        CandidateType::ServerReflexive => 100,
        CandidateType::Relay => 0,
    }
}

/// Candidate priority: type preference in the top octet, full local
/// preference, and the component fit into the low octet.
pub fn calculate_priority(candidate_type: CandidateType, component: u8) -> (r: u32)
    ensures
        r == spec_type_preference(candidate_type) * 0x100_0000 + 65535 * 0x100 + (256 - component),
{
    let type_preference: u32 = match candidate_type {
        CandidateType::Host => 126,
        CandidateType::PeerReflexive => 110,
        CandidateType::ServerReflexive => 100,
        CandidateType::Relay => 0,
    };
    let local_preference: u32 = 65535;
    let component_id = component as u32;
    type_preference * 0x100_0000 + local_preference * 0x100 + (256 - component_id)
}

/// TURN server configuration.
#[derive(Debug, Clone)]
pub struct TurnServerConfig {
    /// Server URL.
    pub url: String,
    /// Username for authentication.
    pub username: String,
    /// Password/credential.
    pub credential: String,
}

/// STUN client handle for NAT discovery; the datagram exchange itself is
/// done outside the library.
pub struct StunClient {
    server_addr: String,
}

impl StunClient {
    pub closed spec fn spec_server_addr(&self) -> Seq<char> {
        self.server_addr@
    }

    /// A client for the given STUN server address.
    pub fn new(server_addr: &str) -> (r: Self)
        ensures
            r.spec_server_addr() == server_addr@,
    {
        Self { server_addr: String::from_str(server_addr) }
    }

    /// The configured server address.
    pub fn server_addr(&self) -> (r: &str)
        ensures
            r@ == self.spec_server_addr(),
    {
        self.server_addr.as_str()
    }
}

} // verus!
