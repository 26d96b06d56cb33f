//! Client options and the engine settings they stand for.
use vstd::prelude::*;

verus! {

/// The version of the MQTT protocol that the client speaks.
#[derive(Debug, Clone, Copy, PartialEq, Eq, Structural)]
pub enum ProtocolVersion {
    V31,
    V311,
    V5,
}

/// The integer that the engine uses for each protocol version.
pub open spec fn protocol_code(v: ProtocolVersion) -> int {
    match v {
        ProtocolVersion::V31 => 3,
        ProtocolVersion::V311 => 4,
        ProtocolVersion::V5 => 5,
    }
}

impl Default for ProtocolVersion {
    fn default() -> (r: ProtocolVersion)
        ensures
            r == ProtocolVersion::V31,
    {
        ProtocolVersion::V31
    }
}

impl ProtocolVersion {
    /// The integer that the engine expects for this version.
    pub fn code(self) -> (r: i32)
        ensures
            r == protocol_code(self),
    {
        match self {
            ProtocolVersion::V31 => 3,
            ProtocolVersion::V311 => 4,
            ProtocolVersion::V5 => 5,
        }
    }
}

/// The option slots of the engine.
#[derive(Debug, Clone, Copy, PartialEq, Eq, Structural)]
pub enum MosqOpt {
    ProtocolVersion,
    SslCtx,
    SslCtxWithDefaults,
    ReceiveMaximum,
    SendMaximum,
    TlsKeyform,
    TlsEngine,
    TlsEngineKpassSha1,
    TlsOcspRequired,
    TlsAlpn,
    TcpNodelay,
    BindAddress,
    TlsUseOsCerts,
}

/// The integer that the engine uses for each option slot.
pub open spec fn opt_code(o: MosqOpt) -> int {
    match o {
        MosqOpt::ProtocolVersion => 1,
        MosqOpt::SslCtx => 2,
        MosqOpt::SslCtxWithDefaults => 3,
        MosqOpt::ReceiveMaximum => 4,
        MosqOpt::SendMaximum => 5,
        MosqOpt::TlsKeyform => 6,
        MosqOpt::TlsEngine => 7,
        MosqOpt::TlsEngineKpassSha1 => 8,
        MosqOpt::TlsOcspRequired => 9,
        MosqOpt::TlsAlpn => 10,
        MosqOpt::TcpNodelay => 11,
        MosqOpt::BindAddress => 12,
        MosqOpt::TlsUseOsCerts => 13,
    }
}

impl MosqOpt {
    /// The integer that the engine expects for this option slot.
    pub fn code(self) -> (r: i32)
        ensures
            r == opt_code(self),
    {
        match self {
            MosqOpt::ProtocolVersion => 1,
            MosqOpt::SslCtx => 2,
            MosqOpt::SslCtxWithDefaults => 3,
            MosqOpt::ReceiveMaximum => 4,
            MosqOpt::SendMaximum => 5,
            MosqOpt::TlsKeyform => 6,
            MosqOpt::TlsEngine => 7,
            MosqOpt::TlsEngineKpassSha1 => 8,
            MosqOpt::TlsOcspRequired => 9,
            MosqOpt::TlsAlpn => 10,
            MosqOpt::TcpNodelay => 11,
            MosqOpt::BindAddress => 12,
            MosqOpt::TlsUseOsCerts => 13,
        }
    }
}

/// A client option, as the user states it.
#[derive(Debug, Clone, PartialEq, Eq)]
pub enum ClientOption<'a> {
    /// The version of the MQTT protocol to be used. Defaults to `ProtocolVersion::V31`.
    ProtocolVersion(ProtocolVersion),
    /// The maximum number of incoming QoS 1 and 2 messages that the client
    /// processes at once (MQTT v5 only). Defaults to 20.
    ReceiveMaximum(u16),
    /// The maximum number of outgoing QoS 1 and 2 messages that the client
    /// keeps in flight at once (MQTT v5 only). Defaults to 20.
    SendMaximum(u16),
    /// Whether OCSP checking on TLS connections is required. Defaults to false.
    OcspRequired(bool),
    /// A TLS engine id to use when creating TLS connections.
    TlsEngine(&'a str),
    /// Where the TLS private key comes from: "pem" (the default) or "engine".
    TlsKeyForm(&'a str),
    /// A hex encoded SHA1 hash of the private key password, for the TLS engine.
    TlsKPassSha1(&'a str),
    /// The ALPN option for brokers that offer several services on one TLS port.
    TlsALPN(&'a str),
}

/// The value that an engine option slot is set to.
#[derive(Debug, Clone, Copy, PartialEq, Eq)]
pub enum OptionValue<'a> {
    Int(i32),
    Text(&'a str),
}

/// The slot and value that an option sets in the engine.
pub open spec fn option_setting<'a>(o: ClientOption<'a>) -> (MosqOpt, OptionValue<'a>) {
    match o {
        ClientOption::ProtocolVersion(v) => (
            MosqOpt::ProtocolVersion,
            OptionValue::Int(protocol_code(v) as i32),
        ),
        ClientOption::ReceiveMaximum(v) => (MosqOpt::ReceiveMaximum, OptionValue::Int(v as i32)),
        ClientOption::SendMaximum(v) => (MosqOpt::SendMaximum, OptionValue::Int(v as i32)),
        ClientOption::OcspRequired(v) => (
            MosqOpt::TlsOcspRequired,
            OptionValue::Int(if v { 1 } else { 0 }),
        ),
        ClientOption::TlsEngine(e) => (MosqOpt::TlsEngine, OptionValue::Text(e)),
        ClientOption::TlsKeyForm(e) => (MosqOpt::TlsKeyform, OptionValue::Text(e)),
        ClientOption::TlsKPassSha1(e) => (MosqOpt::TlsEngineKpassSha1, OptionValue::Text(e)),
        ClientOption::TlsALPN(e) => (MosqOpt::TlsAlpn, OptionValue::Text(e)),
    }
}

impl<'a> ClientOption<'a> {
    /// The engine slot that this option sets, and the value it sets it to.
    pub fn setting(&self) -> (r: (MosqOpt, OptionValue<'a>))
        ensures
            r == option_setting(*self),
    {
        match self {
            ClientOption::ProtocolVersion(v) => (MosqOpt::ProtocolVersion, OptionValue::Int(v.code())),
            ClientOption::ReceiveMaximum(v) => (MosqOpt::ReceiveMaximum, OptionValue::Int(*v as i32)),
            ClientOption::SendMaximum(v) => (MosqOpt::SendMaximum, OptionValue::Int(*v as i32)),
            ClientOption::OcspRequired(v) => (
                MosqOpt::TlsOcspRequired,
                OptionValue::Int(if *v { 1 } else { 0 }),
            ),
            ClientOption::TlsEngine(e) => (MosqOpt::TlsEngine, OptionValue::Text(*e)),
            ClientOption::TlsKeyForm(e) => (MosqOpt::TlsKeyform, OptionValue::Text(*e)),
            ClientOption::TlsKPassSha1(e) => (MosqOpt::TlsEngineKpassSha1, OptionValue::Text(*e)),
            ClientOption::TlsALPN(e) => (MosqOpt::TlsAlpn, OptionValue::Text(*e)),
        }
    }
}

} // verus!
