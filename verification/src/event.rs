//! The typed envelopes: commands that go to the service and notifications
//! that come from it, with their names on the wire and their JSON form.
//!
//! A command travels as `{"command":"<name>","params":<value or null>}`. A
//! notification arrives as a JSON object with the members `event_type`,
//! `data`, `timestamp`, `source`, `message` and `metadata`. Values that this
//! library only passes on (`params`, `data`, `metadata`) are kept as JSON
//! text.

use crate::json::{
    json_compact, json_member, json_quoted, json_string, json_text, member, parse, string,
    string_value, to_text,
};
use serde_json::Value;
use crate::text::{opt_text, str_eq};
use vstd::prelude::*;

verus! {

/// Marks the envelopes.
pub trait Event {

}

/// Reads and writes envelopes of one kind as JSON text.
pub trait Parser<T: Event + View> {
    /// The envelope that `input` holds, or why it holds none.
    spec fn parsed(input: Seq<char>) -> Result<T::V, ParseError>;

    /// The text that an envelope travels as.
    spec fn written(event: T::V) -> Seq<char>;

    /// Reads the envelope that `input` holds.
    fn parse_json(input: &str) -> (res: Result<T, ParseError>)
        ensures
            match res {
                Ok(event) => Self::parsed(input@) == Ok::<T::V, ParseError>(event@),
                Err(e) => Self::parsed(input@) == Err::<T::V, ParseError>(e),
            },
    ;

    /// Writes `event` as text.
    fn serialize(event: &T) -> (text: String)
        ensures
            text@ == Self::written(event@),
    ;
}

/// Marks the kinds that an envelope is tagged with.
pub trait Type {

}

/// A kind with a name on the wire.
pub trait TypeToString: Type {
    /// The name of this kind on the wire: its Rust name in snake case.
    spec fn wire_name(&self) -> Seq<char>;

    /// The name of this kind on the wire.
    fn to_string(&self) -> (name: &'static str)
        ensures
            name@ == self.wire_name(),
    ;
}

/// The kinds of notification that the service sends.
#[derive(Debug, Clone, Copy, PartialEq, Eq, Structural)]
pub enum EventType {
    // Service lifecycle events
    ServiceInitialized,
    ServiceStarting,
    ServiceStarted,
    ServiceStopping,
    ServiceStopped,
    ServiceError,
    // Connection events
    Connected,
    Disconnected,
    ConnectionError,
    ConnectionLost,
    Reconnecting,
    Reconnected,
    // Server discovery events (client)
    DiscoveryStarted,
    ServerListFound,
    ServerDiscovered,
    DiscoveryCompleted,
    DiscoveryTimeout,
    // Authentication events
    OtpNeeded,
    OtpValidated,
    OtpInvalid,
    OtpGenerated,
    SslHandshakeStarted,
    SslHandshakeCompleted,
    SslHandshakeFailed,
    CertificateShared,
    CertificateReceived,
    // Server choice events (client)
    ServerChoiceNeeded,
    ServerChoiceMade,
    // Client management events (server)
    ClientConnected,
    ClientDisconnected,
    ClientAuthenticated,
    ClientAdded,
    ClientRemoved,
    ClientUpdated,
    // Stream events
    StreamEnabled,
    StreamDisabled,
    StreamsUpdated,
    // Configuration events
    ConfigLoaded,
    ConfigSaved,
    ConfigUpdated,
    ConfigError,
    // State change events
    StateChanged,
    ModeChanged,
    // Screen events
    ScreenChanged,
    ScreenTransitionStarted,
    ScreenTransitionCompleted,
    // Transfer events
    FileTransferStarted,
    FileTransferProgress,
    FileTransferCompleted,
    FileTransferFailed,
    ClipboardSynced,
    // Network events
    NetworkLatencyHigh,
    NetworkQualityDegraded,
    NetworkQualityRestored,
    // General events
    StatusUpdate,
    Info,
    Warning,
    Error,
    Test,
    Pong,
    // Command result events
    CommandSuccess,
    CommandError,
    /// Any kind that this library does not know by name.
    Other,
}

impl Type for EventType {

}

impl TypeToString for EventType {
    open spec fn wire_name(&self) -> Seq<char> {
        match self {
            EventType::ServiceInitialized => "service_initialized"@,
            EventType::ServiceStarting => "service_starting"@,
            EventType::ServiceStarted => "service_started"@,
            EventType::ServiceStopping => "service_stopping"@,
            EventType::ServiceStopped => "service_stopped"@,
            EventType::ServiceError => "service_error"@,
            EventType::Connected => "connected"@,
            EventType::Disconnected => "disconnected"@,
            EventType::ConnectionError => "connection_error"@,
            EventType::ConnectionLost => "connection_lost"@,
            EventType::Reconnecting => "reconnecting"@,
            EventType::Reconnected => "reconnected"@,
            EventType::DiscoveryStarted => "discovery_started"@,
            EventType::ServerListFound => "server_list_found"@,
            EventType::ServerDiscovered => "server_discovered"@,
            EventType::DiscoveryCompleted => "discovery_completed"@,
            EventType::DiscoveryTimeout => "discovery_timeout"@,
            EventType::OtpNeeded => "otp_needed"@,
            EventType::OtpValidated => "otp_validated"@,
            EventType::OtpInvalid => "otp_invalid"@,
            EventType::OtpGenerated => "otp_generated"@,
            EventType::SslHandshakeStarted => "ssl_handshake_started"@,
            EventType::SslHandshakeCompleted => "ssl_handshake_completed"@,
            EventType::SslHandshakeFailed => "ssl_handshake_failed"@,
            EventType::CertificateShared => "certificate_shared"@,
            EventType::CertificateReceived => "certificate_received"@,
            EventType::ServerChoiceNeeded => "server_choice_needed"@,
            EventType::ServerChoiceMade => "server_choice_made"@,
            EventType::ClientConnected => "client_connected"@,
            EventType::ClientDisconnected => "client_disconnected"@,
            EventType::ClientAuthenticated => "client_authenticated"@,
            EventType::ClientAdded => "client_added"@,
            EventType::ClientRemoved => "client_removed"@,
            EventType::ClientUpdated => "client_updated"@,
            EventType::StreamEnabled => "stream_enabled"@,
            EventType::StreamDisabled => "stream_disabled"@,
            EventType::StreamsUpdated => "streams_updated"@,
            EventType::ConfigLoaded => "config_loaded"@,
            EventType::ConfigSaved => "config_saved"@,
            EventType::ConfigUpdated => "config_updated"@,
            EventType::ConfigError => "config_error"@,
            EventType::StateChanged => "state_changed"@,
            EventType::ModeChanged => "mode_changed"@,
            EventType::ScreenChanged => "screen_changed"@,
            EventType::ScreenTransitionStarted => "screen_transition_started"@,
            EventType::ScreenTransitionCompleted => "screen_transition_completed"@,
            EventType::FileTransferStarted => "file_transfer_started"@,
            EventType::FileTransferProgress => "file_transfer_progress"@,
            EventType::FileTransferCompleted => "file_transfer_completed"@,
            EventType::FileTransferFailed => "file_transfer_failed"@,
            EventType::ClipboardSynced => "clipboard_synced"@,
            EventType::NetworkLatencyHigh => "network_latency_high"@,
            EventType::NetworkQualityDegraded => "network_quality_degraded"@,
            EventType::NetworkQualityRestored => "network_quality_restored"@,
            EventType::StatusUpdate => "status_update"@,
            EventType::Info => "info"@,
            EventType::Warning => "warning"@,
            EventType::Error => "error"@,
            EventType::Test => "test"@,
            EventType::Pong => "pong"@,
            EventType::CommandSuccess => "command_success"@,
            EventType::CommandError => "command_error"@,
            EventType::Other => "other"@,
        }
    }
    fn to_string(&self) -> (name: &'static str) {
        match self {
            EventType::ServiceInitialized => "service_initialized",
            EventType::ServiceStarting => "service_starting",
            EventType::ServiceStarted => "service_started",
            EventType::ServiceStopping => "service_stopping",
            EventType::ServiceStopped => "service_stopped",
            EventType::ServiceError => "service_error",
            EventType::Connected => "connected",
            EventType::Disconnected => "disconnected",
            EventType::ConnectionError => "connection_error",
            EventType::ConnectionLost => "connection_lost",
            EventType::Reconnecting => "reconnecting",
            EventType::Reconnected => "reconnected",
            EventType::DiscoveryStarted => "discovery_started",
            EventType::ServerListFound => "server_list_found",
            EventType::ServerDiscovered => "server_discovered",
            EventType::DiscoveryCompleted => "discovery_completed",
            EventType::DiscoveryTimeout => "discovery_timeout",
            EventType::OtpNeeded => "otp_needed",
            EventType::OtpValidated => "otp_validated",
            EventType::OtpInvalid => "otp_invalid",
            EventType::OtpGenerated => "otp_generated",
            EventType::SslHandshakeStarted => "ssl_handshake_started",
            EventType::SslHandshakeCompleted => "ssl_handshake_completed",
            EventType::SslHandshakeFailed => "ssl_handshake_failed",
            EventType::CertificateShared => "certificate_shared",
            EventType::CertificateReceived => "certificate_received",
            EventType::ServerChoiceNeeded => "server_choice_needed",
            EventType::ServerChoiceMade => "server_choice_made",
            EventType::ClientConnected => "client_connected",
            EventType::ClientDisconnected => "client_disconnected",
            EventType::ClientAuthenticated => "client_authenticated",
            EventType::ClientAdded => "client_added",
            EventType::ClientRemoved => "client_removed",
            EventType::ClientUpdated => "client_updated",
            EventType::StreamEnabled => "stream_enabled",
            EventType::StreamDisabled => "stream_disabled",
            EventType::StreamsUpdated => "streams_updated",
            EventType::ConfigLoaded => "config_loaded",
            EventType::ConfigSaved => "config_saved",
            EventType::ConfigUpdated => "config_updated",
            EventType::ConfigError => "config_error",
            EventType::StateChanged => "state_changed",
            EventType::ModeChanged => "mode_changed",
            EventType::ScreenChanged => "screen_changed",
            EventType::ScreenTransitionStarted => "screen_transition_started",
            EventType::ScreenTransitionCompleted => "screen_transition_completed",
            EventType::FileTransferStarted => "file_transfer_started",
            EventType::FileTransferProgress => "file_transfer_progress",
            EventType::FileTransferCompleted => "file_transfer_completed",
            EventType::FileTransferFailed => "file_transfer_failed",
            EventType::ClipboardSynced => "clipboard_synced",
            EventType::NetworkLatencyHigh => "network_latency_high",
            EventType::NetworkQualityDegraded => "network_quality_degraded",
            EventType::NetworkQualityRestored => "network_quality_restored",
            EventType::StatusUpdate => "status_update",
            EventType::Info => "info",
            EventType::Warning => "warning",
            EventType::Error => "error",
            EventType::Test => "test",
            EventType::Pong => "pong",
            EventType::CommandSuccess => "command_success",
            EventType::CommandError => "command_error",
            EventType::Other => "other",
        }
    }
}

impl EventType {
    /// The kind that `name` stands for on the wire. A name that stands for
    /// none of the known kinds is `Other`, and so is the name `other` itself.
    pub open spec fn named(name: Seq<char>) -> EventType {
        if name == "service_initialized"@ {
            EventType::ServiceInitialized
        }         else if name == "service_starting"@ {
            EventType::ServiceStarting
        }         else if name == "service_started"@ {
            EventType::ServiceStarted
        }         else if name == "service_stopping"@ {
            EventType::ServiceStopping
        }         else if name == "service_stopped"@ {
            EventType::ServiceStopped
        }         else if name == "service_error"@ {
            EventType::ServiceError
        }         else if name == "connected"@ {
            EventType::Connected
        }         else if name == "disconnected"@ {
            EventType::Disconnected
        }         else if name == "connection_error"@ {
            EventType::ConnectionError
        }         else if name == "connection_lost"@ {
            EventType::ConnectionLost
        }         else if name == "reconnecting"@ {
            EventType::Reconnecting
        }         else if name == "reconnected"@ {
            EventType::Reconnected
        }         else if name == "discovery_started"@ {
            EventType::DiscoveryStarted
        }         else if name == "server_list_found"@ {
            EventType::ServerListFound
        }         else if name == "server_discovered"@ {
            EventType::ServerDiscovered
        }         else if name == "discovery_completed"@ {
            EventType::DiscoveryCompleted
        }         else if name == "discovery_timeout"@ {
            EventType::DiscoveryTimeout
        }         else if name == "otp_needed"@ {
            EventType::OtpNeeded
        }         else if name == "otp_validated"@ {
            EventType::OtpValidated
        }         else if name == "otp_invalid"@ {
            EventType::OtpInvalid
        }         else if name == "otp_generated"@ {
            EventType::OtpGenerated
        }         else if name == "ssl_handshake_started"@ {
            EventType::SslHandshakeStarted
        }         else if name == "ssl_handshake_completed"@ {
            EventType::SslHandshakeCompleted
        }         else if name == "ssl_handshake_failed"@ {
            EventType::SslHandshakeFailed
        }         else if name == "certificate_shared"@ {
            EventType::CertificateShared
        }         else if name == "certificate_received"@ {
            EventType::CertificateReceived
        }         else if name == "server_choice_needed"@ {
            EventType::ServerChoiceNeeded
        }         else if name == "server_choice_made"@ {
            EventType::ServerChoiceMade
        }         else if name == "client_connected"@ {
            EventType::ClientConnected
        }         else if name == "client_disconnected"@ {
            EventType::ClientDisconnected
        }         else if name == "client_authenticated"@ {
            EventType::ClientAuthenticated
        }         else if name == "client_added"@ {
            EventType::ClientAdded
        }         else if name == "client_removed"@ {
            EventType::ClientRemoved
        }         else if name == "client_updated"@ {
            EventType::ClientUpdated
        }         else if name == "stream_enabled"@ {
            EventType::StreamEnabled
        }         else if name == "stream_disabled"@ {
            EventType::StreamDisabled
        }         else if name == "streams_updated"@ {
            EventType::StreamsUpdated
        }         else if name == "config_loaded"@ {
            EventType::ConfigLoaded
        }         else if name == "config_saved"@ {
            EventType::ConfigSaved
        }         else if name == "config_updated"@ {
            EventType::ConfigUpdated
        }         else if name == "config_error"@ {
            EventType::ConfigError
        }         else if name == "state_changed"@ {
            EventType::StateChanged
        }         else if name == "mode_changed"@ {
            EventType::ModeChanged
        }         else if name == "screen_changed"@ {
            EventType::ScreenChanged
        }         else if name == "screen_transition_started"@ {
            EventType::ScreenTransitionStarted
        }         else if name == "screen_transition_completed"@ {
            EventType::ScreenTransitionCompleted
        }         else if name == "file_transfer_started"@ {
            EventType::FileTransferStarted
        }         else if name == "file_transfer_progress"@ {
            EventType::FileTransferProgress
        }         else if name == "file_transfer_completed"@ {
            EventType::FileTransferCompleted
        }         else if name == "file_transfer_failed"@ {
            EventType::FileTransferFailed
        }         else if name == "clipboard_synced"@ {
            EventType::ClipboardSynced
        }         else if name == "network_latency_high"@ {
            EventType::NetworkLatencyHigh
        }         else if name == "network_quality_degraded"@ {
            EventType::NetworkQualityDegraded
        }         else if name == "network_quality_restored"@ {
            EventType::NetworkQualityRestored
        }         else if name == "status_update"@ {
            EventType::StatusUpdate
        }         else if name == "info"@ {
            EventType::Info
        }         else if name == "warning"@ {
            EventType::Warning
        }         else if name == "error"@ {
            EventType::Error
        }         else if name == "test"@ {
            EventType::Test
        }         else if name == "pong"@ {
            EventType::Pong
        }         else if name == "command_success"@ {
            EventType::CommandSuccess
        }         else if name == "command_error"@ {
            EventType::CommandError
        } else {
            EventType::Other
        }
    }

    /// The kind that `name` stands for on the wire; `Other` for a name that
    /// is not known.
    pub fn from_name(name: &str) -> (kind: EventType)
        ensures
            kind == EventType::named(name@),
    {
        if str_eq(name, "service_initialized") {
            EventType::ServiceInitialized
        }         else if str_eq(name, "service_starting") {
            EventType::ServiceStarting
        }         else if str_eq(name, "service_started") {
            EventType::ServiceStarted
        }         else if str_eq(name, "service_stopping") {
            EventType::ServiceStopping
        }         else if str_eq(name, "service_stopped") {
            EventType::ServiceStopped
        }         else if str_eq(name, "service_error") {
            EventType::ServiceError
        }         else if str_eq(name, "connected") {
            EventType::Connected
        }         else if str_eq(name, "disconnected") {
            EventType::Disconnected
        }         else if str_eq(name, "connection_error") {
            EventType::ConnectionError
        }         else if str_eq(name, "connection_lost") {
            EventType::ConnectionLost
        }         else if str_eq(name, "reconnecting") {
            EventType::Reconnecting
        }         else if str_eq(name, "reconnected") {
            EventType::Reconnected
        }         else if str_eq(name, "discovery_started") {
            EventType::DiscoveryStarted
        }         else if str_eq(name, "server_list_found") {
            EventType::ServerListFound
        }         else if str_eq(name, "server_discovered") {
            EventType::ServerDiscovered
        }         else if str_eq(name, "discovery_completed") {
            EventType::DiscoveryCompleted
        }         else if str_eq(name, "discovery_timeout") {
            EventType::DiscoveryTimeout
        }         else if str_eq(name, "otp_needed") {
            EventType::OtpNeeded
        }         else if str_eq(name, "otp_validated") {
            EventType::OtpValidated
        }         else if str_eq(name, "otp_invalid") {
            EventType::OtpInvalid
        }         else if str_eq(name, "otp_generated") {
            EventType::OtpGenerated
        }         else if str_eq(name, "ssl_handshake_started") {
            EventType::SslHandshakeStarted
        }         else if str_eq(name, "ssl_handshake_completed") {
            EventType::SslHandshakeCompleted
        }         else if str_eq(name, "ssl_handshake_failed") {
            EventType::SslHandshakeFailed
        }         else if str_eq(name, "certificate_shared") {
            EventType::CertificateShared
        }         else if str_eq(name, "certificate_received") {
            EventType::CertificateReceived
        }         else if str_eq(name, "server_choice_needed") {
            EventType::ServerChoiceNeeded
        }         else if str_eq(name, "server_choice_made") {
            EventType::ServerChoiceMade
        }         else if str_eq(name, "client_connected") {
            EventType::ClientConnected
        }         else if str_eq(name, "client_disconnected") {
            EventType::ClientDisconnected
        }         else if str_eq(name, "client_authenticated") {
            EventType::ClientAuthenticated
        }         else if str_eq(name, "client_added") {
            EventType::ClientAdded
        }         else if str_eq(name, "client_removed") {
            EventType::ClientRemoved
        }         else if str_eq(name, "client_updated") {
            EventType::ClientUpdated
        }         else if str_eq(name, "stream_enabled") {
            EventType::StreamEnabled
        }         else if str_eq(name, "stream_disabled") {
            EventType::StreamDisabled
        }         else if str_eq(name, "streams_updated") {
            EventType::StreamsUpdated
        }         else if str_eq(name, "config_loaded") {
            EventType::ConfigLoaded
        }         else if str_eq(name, "config_saved") {
            EventType::ConfigSaved
        }         else if str_eq(name, "config_updated") {
            EventType::ConfigUpdated
        }         else if str_eq(name, "config_error") {
            EventType::ConfigError
        }         else if str_eq(name, "state_changed") {
            EventType::StateChanged
        }         else if str_eq(name, "mode_changed") {
            EventType::ModeChanged
        }         else if str_eq(name, "screen_changed") {
            EventType::ScreenChanged
        }         else if str_eq(name, "screen_transition_started") {
            EventType::ScreenTransitionStarted
        }         else if str_eq(name, "screen_transition_completed") {
            EventType::ScreenTransitionCompleted
        }         else if str_eq(name, "file_transfer_started") {
            EventType::FileTransferStarted
        }         else if str_eq(name, "file_transfer_progress") {
            EventType::FileTransferProgress
        }         else if str_eq(name, "file_transfer_completed") {
            EventType::FileTransferCompleted
        }         else if str_eq(name, "file_transfer_failed") {
            EventType::FileTransferFailed
        }         else if str_eq(name, "clipboard_synced") {
            EventType::ClipboardSynced
        }         else if str_eq(name, "network_latency_high") {
            EventType::NetworkLatencyHigh
        }         else if str_eq(name, "network_quality_degraded") {
            EventType::NetworkQualityDegraded
        }         else if str_eq(name, "network_quality_restored") {
            EventType::NetworkQualityRestored
        }         else if str_eq(name, "status_update") {
            EventType::StatusUpdate
        }         else if str_eq(name, "info") {
            EventType::Info
        }         else if str_eq(name, "warning") {
            EventType::Warning
        }         else if str_eq(name, "error") {
            EventType::Error
        }         else if str_eq(name, "test") {
            EventType::Test
        }         else if str_eq(name, "pong") {
            EventType::Pong
        }         else if str_eq(name, "command_success") {
            EventType::CommandSuccess
        }         else if str_eq(name, "command_error") {
            EventType::CommandError
        } else {
            EventType::Other
        }
    }
}

/// The commands that the service takes.
#[derive(Debug, Clone, Copy, PartialEq, Eq, Structural)]
pub enum CommandType {
    // Service control
    ServiceChoice,
    StartServer,
    StopServer,
    StartClient,
    StopClient,
    // Status queries
    Status,
    ServerStatus,
    ClientStatus,
    // Configuration management
    GetServerConfig,
    SetServerConfig,
    GetClientConfig,
    SetClientConfig,
    SaveConfig,
    ReloadConfig,
    // Stream management
    EnableStream,
    DisableStream,
    GetStreams,
    // Client management (server only)
    AddClient,
    RemoveClient,
    EditClient,
    ListClients,
    // SSL/Certificate management
    EnableSsl,
    DisableSsl,
    ShareCertificate,
    ReceiveCertificate,
    SetOtp,
    // Server selection (client)
    CheckServerChoiceNeeded,
    GetFoundServers,
    ChooseServer,
    CheckOtpNeeded,
    // Service discovery
    DiscoverServices,
    // Daemon control
    Shutdown,
    Ping,
}

impl Type for CommandType {

}

impl TypeToString for CommandType {
    open spec fn wire_name(&self) -> Seq<char> {
        match self {
            CommandType::ServiceChoice => "service_choice"@,
            CommandType::StartServer => "start_server"@,
            CommandType::StopServer => "stop_server"@,
            CommandType::StartClient => "start_client"@,
            CommandType::StopClient => "stop_client"@,
            CommandType::Status => "status"@,
            CommandType::ServerStatus => "server_status"@,
            CommandType::ClientStatus => "client_status"@,
            CommandType::GetServerConfig => "get_server_config"@,
            CommandType::SetServerConfig => "set_server_config"@,
            CommandType::GetClientConfig => "get_client_config"@,
            CommandType::SetClientConfig => "set_client_config"@,
            CommandType::SaveConfig => "save_config"@,
            CommandType::ReloadConfig => "reload_config"@,
            CommandType::EnableStream => "enable_stream"@,
            CommandType::DisableStream => "disable_stream"@,
            CommandType::GetStreams => "get_streams"@,
            CommandType::AddClient => "add_client"@,
            CommandType::RemoveClient => "remove_client"@,
            CommandType::EditClient => "edit_client"@,
            CommandType::ListClients => "list_clients"@,
            CommandType::EnableSsl => "enable_ssl"@,
            CommandType::DisableSsl => "disable_ssl"@,
            CommandType::ShareCertificate => "share_certificate"@,
            CommandType::ReceiveCertificate => "receive_certificate"@,
            CommandType::SetOtp => "set_otp"@,
            CommandType::CheckServerChoiceNeeded => "check_server_choice_needed"@,
            CommandType::GetFoundServers => "get_found_servers"@,
            CommandType::ChooseServer => "choose_server"@,
            CommandType::CheckOtpNeeded => "check_otp_needed"@,
            CommandType::DiscoverServices => "discover_services"@,
            CommandType::Shutdown => "shutdown"@,
            CommandType::Ping => "ping"@,
        }
    }
    fn to_string(&self) -> (name: &'static str) {
        match self {
            CommandType::ServiceChoice => "service_choice",
            CommandType::StartServer => "start_server",
            CommandType::StopServer => "stop_server",
            CommandType::StartClient => "start_client",
            CommandType::StopClient => "stop_client",
            CommandType::Status => "status",
            CommandType::ServerStatus => "server_status",
            CommandType::ClientStatus => "client_status",
            CommandType::GetServerConfig => "get_server_config",
            CommandType::SetServerConfig => "set_server_config",
            CommandType::GetClientConfig => "get_client_config",
            CommandType::SetClientConfig => "set_client_config",
            CommandType::SaveConfig => "save_config",
            CommandType::ReloadConfig => "reload_config",
            CommandType::EnableStream => "enable_stream",
            CommandType::DisableStream => "disable_stream",
            CommandType::GetStreams => "get_streams",
            CommandType::AddClient => "add_client",
            CommandType::RemoveClient => "remove_client",
            CommandType::EditClient => "edit_client",
            CommandType::ListClients => "list_clients",
            CommandType::EnableSsl => "enable_ssl",
            CommandType::DisableSsl => "disable_ssl",
            CommandType::ShareCertificate => "share_certificate",
            CommandType::ReceiveCertificate => "receive_certificate",
            CommandType::SetOtp => "set_otp",
            CommandType::CheckServerChoiceNeeded => "check_server_choice_needed",
            CommandType::GetFoundServers => "get_found_servers",
            CommandType::ChooseServer => "choose_server",
            CommandType::CheckOtpNeeded => "check_otp_needed",
            CommandType::DiscoverServices => "discover_services",
            CommandType::Shutdown => "shutdown",
            CommandType::Ping => "ping",
        }
    }
}

impl CommandType {
    /// The command that `name` stands for on the wire, if it stands for one.
    pub open spec fn named(name: Seq<char>) -> Option<CommandType> {
        if name == "service_choice"@ {
            Some(CommandType::ServiceChoice)
        }         else if name == "start_server"@ {
            Some(CommandType::StartServer)
        }         else if name == "stop_server"@ {
            Some(CommandType::StopServer)
        }         else if name == "start_client"@ {
            Some(CommandType::StartClient)
        }         else if name == "stop_client"@ {
            Some(CommandType::StopClient)
        }         else if name == "status"@ {
            Some(CommandType::Status)
        }         else if name == "server_status"@ {
            Some(CommandType::ServerStatus)
        }         else if name == "client_status"@ {
            Some(CommandType::ClientStatus)
        }         else if name == "get_server_config"@ {
            Some(CommandType::GetServerConfig)
        }         else if name == "set_server_config"@ {
            Some(CommandType::SetServerConfig)
        }         else if name == "get_client_config"@ {
            Some(CommandType::GetClientConfig)
        }         else if name == "set_client_config"@ {
            Some(CommandType::SetClientConfig)
        }         else if name == "save_config"@ {
            Some(CommandType::SaveConfig)
        }         else if name == "reload_config"@ {
            Some(CommandType::ReloadConfig)
        }         else if name == "enable_stream"@ {
            Some(CommandType::EnableStream)
        }         else if name == "disable_stream"@ {
            Some(CommandType::DisableStream)
        }         else if name == "get_streams"@ {
            Some(CommandType::GetStreams)
        }         else if name == "add_client"@ {
            Some(CommandType::AddClient)
        }         else if name == "remove_client"@ {
            Some(CommandType::RemoveClient)
        }         else if name == "edit_client"@ {
            Some(CommandType::EditClient)
        }         else if name == "list_clients"@ {
            Some(CommandType::ListClients)
        }         else if name == "enable_ssl"@ {
            Some(CommandType::EnableSsl)
        }         else if name == "disable_ssl"@ {
            Some(CommandType::DisableSsl)
        }         else if name == "share_certificate"@ {
            Some(CommandType::ShareCertificate)
        }         else if name == "receive_certificate"@ {
            Some(CommandType::ReceiveCertificate)
        }         else if name == "set_otp"@ {
            Some(CommandType::SetOtp)
        }         else if name == "check_server_choice_needed"@ {
            Some(CommandType::CheckServerChoiceNeeded)
        }         else if name == "get_found_servers"@ {
            Some(CommandType::GetFoundServers)
        }         else if name == "choose_server"@ {
            Some(CommandType::ChooseServer)
        }         else if name == "check_otp_needed"@ {
            Some(CommandType::CheckOtpNeeded)
        }         else if name == "discover_services"@ {
            Some(CommandType::DiscoverServices)
        }         else if name == "shutdown"@ {
            Some(CommandType::Shutdown)
        }         else if name == "ping"@ {
            Some(CommandType::Ping)
        } else {
            None
        }
    }

    /// The command that `name` stands for on the wire, if it stands for one.
    pub fn from_name(name: &str) -> (command: Option<CommandType>)
        ensures
            command == CommandType::named(name@),
    {
        if str_eq(name, "service_choice") {
            Some(CommandType::ServiceChoice)
        }         else if str_eq(name, "start_server") {
            Some(CommandType::StartServer)
        }         else if str_eq(name, "stop_server") {
            Some(CommandType::StopServer)
        }         else if str_eq(name, "start_client") {
            Some(CommandType::StartClient)
        }         else if str_eq(name, "stop_client") {
            Some(CommandType::StopClient)
        }         else if str_eq(name, "status") {
            Some(CommandType::Status)
        }         else if str_eq(name, "server_status") {
            Some(CommandType::ServerStatus)
        }         else if str_eq(name, "client_status") {
            Some(CommandType::ClientStatus)
        }         else if str_eq(name, "get_server_config") {
            Some(CommandType::GetServerConfig)
        }         else if str_eq(name, "set_server_config") {
            Some(CommandType::SetServerConfig)
        }         else if str_eq(name, "get_client_config") {
            Some(CommandType::GetClientConfig)
        }         else if str_eq(name, "set_client_config") {
            Some(CommandType::SetClientConfig)
        }         else if str_eq(name, "save_config") {
            Some(CommandType::SaveConfig)
        }         else if str_eq(name, "reload_config") {
            Some(CommandType::ReloadConfig)
        }         else if str_eq(name, "enable_stream") {
            Some(CommandType::EnableStream)
        }         else if str_eq(name, "disable_stream") {
            Some(CommandType::DisableStream)
        }         else if str_eq(name, "get_streams") {
            Some(CommandType::GetStreams)
        }         else if str_eq(name, "add_client") {
            Some(CommandType::AddClient)
        }         else if str_eq(name, "remove_client") {
            Some(CommandType::RemoveClient)
        }         else if str_eq(name, "edit_client") {
            Some(CommandType::EditClient)
        }         else if str_eq(name, "list_clients") {
            Some(CommandType::ListClients)
        }         else if str_eq(name, "enable_ssl") {
            Some(CommandType::EnableSsl)
        }         else if str_eq(name, "disable_ssl") {
            Some(CommandType::DisableSsl)
        }         else if str_eq(name, "share_certificate") {
            Some(CommandType::ShareCertificate)
        }         else if str_eq(name, "receive_certificate") {
            Some(CommandType::ReceiveCertificate)
        }         else if str_eq(name, "set_otp") {
            Some(CommandType::SetOtp)
        }         else if str_eq(name, "check_server_choice_needed") {
            Some(CommandType::CheckServerChoiceNeeded)
        }         else if str_eq(name, "get_found_servers") {
            Some(CommandType::GetFoundServers)
        }         else if str_eq(name, "choose_server") {
            Some(CommandType::ChooseServer)
        }         else if str_eq(name, "check_otp_needed") {
            Some(CommandType::CheckOtpNeeded)
        }         else if str_eq(name, "discover_services") {
            Some(CommandType::DiscoverServices)
        }         else if str_eq(name, "shutdown") {
            Some(CommandType::Shutdown)
        }         else if str_eq(name, "ping") {
            Some(CommandType::Ping)
        } else {
            None
        }
    }
}

/// A notification from the service.
#[derive(Debug, Clone)]
pub struct NotificationEvent {
    /// What happened.
    pub event_type: EventType,
    /// What the notification carries, as JSON text; `None` for `null`.
    pub data: Option<String>,
    /// When it happened, as the service wrote it.
    pub timestamp: String,
    /// Which part of the service sent it.
    pub source: String,
    /// A message for the reader, if there is one.
    pub message: Option<String>,
    /// What else the service attached, as JSON text; `None` for `null`.
    pub metadata: Option<String>,
}

impl Event for NotificationEvent {

}

/// A notification, as mathematics.
pub struct NotificationView {
    pub event_type: EventType,
    pub data: Option<Seq<char>>,
    pub timestamp: Seq<char>,
    pub source: Seq<char>,
    pub message: Option<Seq<char>>,
    pub metadata: Option<Seq<char>>,
}

impl View for NotificationEvent {
    type V = NotificationView;

    open spec fn view(&self) -> NotificationView {
        NotificationView {
            event_type: self.event_type,
            data: opt_text(self.data),
            timestamp: self.timestamp@,
            source: self.source@,
            message: opt_text(self.message),
            metadata: opt_text(self.metadata),
        }
    }
}

/// A command for the service.
#[derive(Debug, Clone)]
pub struct CommandEvent {
    /// What the service is asked to do.
    pub command: CommandType,
    /// The parameters, as JSON text; `None` where there are none.
    pub params: Option<String>,
}

impl Event for CommandEvent {

}

/// A command, as mathematics.
pub struct CommandView {
    pub command: CommandType,
    pub params: Option<Seq<char>>,
}

impl View for CommandEvent {
    type V = CommandView;

    open spec fn view(&self) -> CommandView {
        CommandView { command: self.command, params: opt_text(self.params) }
    }
}

/// The text that a command travels as: a JSON object with the command's name
/// under `command` and the parameters, or `null`, under `params`.
pub open spec fn command_text(command: CommandType, params: Option<Seq<char>>) -> Seq<char> {
    "{\"command\":\""@ + command.wire_name() + "\",\"params\":"@ + (match params {
        Some(text) => text,
        None => "null"@,
    }) + "}"@
}

impl CommandEvent {
    /// A command with the parameters that `params` holds as JSON. Empty
    /// text, and text that is not JSON, give a command without parameters.
    pub fn build(command: CommandType, params: &str) -> (event: CommandEvent)
        ensures
            event.command == command,
            opt_text(event.params) == if params@.len() == 0 {
                None
            } else {
                json_compact(params@)
            },
    {
        let params_value = if params.is_empty() {
            None
        } else {
            match parse(params) {
                Some(value) => Some(to_text(&value)),
                None => None,
            }
        };
        CommandEvent { command, params: params_value }
    }

    /// A command without parameters.
    pub fn empty(command: CommandType) -> (event: CommandEvent)
        ensures
            event.command == command,
            event.params is None,
    {
        CommandEvent { command, params: None }
    }

    /// A command with `params`, which is JSON text, as its parameters.
    pub fn new(command: CommandType, params: Option<String>) -> (event: CommandEvent)
        ensures
            event.command == command,
            event.params == params,
    {
        CommandEvent { command, params }
    }
}

/// What a JSON object holds under one key.
#[derive(Debug, Clone)]
pub struct Member {
    /// The value, as JSON text in its shortest form.
    pub json: String,
    /// The string itself, where the value is a JSON string.
    pub text: Option<String>,
}

/// A member, as mathematics.
pub struct MemberView {
    pub json: Seq<char>,
    pub text: Option<Seq<char>>,
}

/// The member that `member` holds, if it holds one, as mathematics.
pub open spec fn opt_member(member: Option<Member>) -> Option<MemberView> {
    match member {
        Some(m) => Some(MemberView { json: m.json@, text: opt_text(m.text) }),
        None => None,
    }
}

/// The six members that make a notification, each as it was found.
#[derive(Debug, Clone)]
pub struct RawNotification {
    pub event_type: Option<Member>,
    pub data: Option<Member>,
    pub timestamp: Option<Member>,
    pub source: Option<Member>,
    pub message: Option<Member>,
    pub metadata: Option<Member>,
}

/// The six members, as mathematics.
pub struct RawNotificationView {
    pub event_type: Option<MemberView>,
    pub data: Option<MemberView>,
    pub timestamp: Option<MemberView>,
    pub source: Option<MemberView>,
    pub message: Option<MemberView>,
    pub metadata: Option<MemberView>,
}

impl View for RawNotification {
    type V = RawNotificationView;

    open spec fn view(&self) -> RawNotificationView {
        RawNotificationView {
            event_type: opt_member(self.event_type),
            data: opt_member(self.data),
            timestamp: opt_member(self.timestamp),
            source: opt_member(self.source),
            message: opt_member(self.message),
            metadata: opt_member(self.metadata),
        }
    }
}

/// The members of an envelope that must or may be strings.
#[derive(Debug, Clone, Copy, PartialEq, Eq, Structural)]
pub enum Field {
    EventType,
    Timestamp,
    Source,
    Message,
    Command,
}

/// Why a text is not an envelope.
#[derive(Debug, Clone, Copy, PartialEq, Eq, Structural)]
pub enum ParseError {
    /// The text is not JSON.
    NotJson,
    /// A member that must be there is not.
    MissingField(Field),
    /// A member that must be a string is something else.
    InvalidType(Field),
    /// The name of the command stands for none.
    UnknownCommand,
}

/// A value that is passed on as it came: its JSON text, or nothing where the
/// member is missing or `null`.
pub open spec fn passed_on(member: Option<MemberView>) -> Option<Seq<char>> {
    match member {
        Some(m) => if m.json == "null"@ {
            None
        } else {
            Some(m.json)
        },
        None => None,
    }
}

/// A member that must be a string.
pub open spec fn required_text(member: Option<MemberView>, field: Field) -> Result<
    Seq<char>,
    ParseError,
> {
    match member {
        None => Err(ParseError::MissingField(field)),
        Some(m) => match m.text {
            Some(text) => Ok(text),
            None => Err(ParseError::InvalidType(field)),
        },
    }
}

/// A member that is a string where it is there and not `null`.
pub open spec fn optional_text(member: Option<MemberView>, field: Field) -> Result<
    Option<Seq<char>>,
    ParseError,
> {
    match member {
        None => Ok(None),
        Some(m) => if m.json == "null"@ {
            Ok(None)
        } else {
            match m.text {
                Some(text) => Ok(Some(text)),
                None => Err(ParseError::InvalidType(field)),
            }
        },
    }
}

/// The notification that six members make, or the first thing wrong with
/// them, in the order kind, time, source, message.
///
/// The kind, the time and the source must be there and be strings; the kind
/// is looked up by its name, and a name that is not known gives `Other`. The
/// message is a string where it is there and not `null`. `data` and
/// `metadata` are passed on.
pub open spec fn notification_of(raw: RawNotificationView) -> Result<NotificationView, ParseError> {
    match required_text(raw.event_type, Field::EventType) {
        Err(e) => Err(e),
        Ok(kind) => match required_text(raw.timestamp, Field::Timestamp) {
            Err(e) => Err(e),
            Ok(timestamp) => match required_text(raw.source, Field::Source) {
                Err(e) => Err(e),
                Ok(source) => match optional_text(raw.message, Field::Message) {
                    Err(e) => Err(e),
                    Ok(message) => Ok(
                        NotificationView {
                            event_type: EventType::named(kind),
                            data: passed_on(raw.data),
                            timestamp,
                            source,
                            message,
                            metadata: passed_on(raw.metadata),
                        },
                    ),
                },
            },
        },
    }
}

/// What a JSON object holds under `key`, the object given by its text.
pub open spec fn member_of(document: Seq<char>, key: Seq<char>) -> Option<MemberView> {
    match json_member(document, key) {
        Some(json) => Some(MemberView { json, text: json_string(json) }),
        None => None,
    }
}

/// The six members of the notification in a document, the document given by
/// its text.
pub open spec fn raw_notification_of(document: Seq<char>) -> RawNotificationView {
    RawNotificationView {
        event_type: member_of(document, "event_type"@),
        data: member_of(document, "data"@),
        timestamp: member_of(document, "timestamp"@),
        source: member_of(document, "source"@),
        message: member_of(document, "message"@),
        metadata: member_of(document, "metadata"@),
    }
}

/// The notification that `input` holds, or why it holds none.
pub open spec fn parse_notification(input: Seq<char>) -> Result<NotificationView, ParseError> {
    match json_compact(input) {
        None => Err(ParseError::NotJson),
        Some(document) => notification_of(raw_notification_of(document)),
    }
}

/// The command that two members make, or the first thing wrong with them.
///
/// The name must be there, be a string and stand for a command. The
/// parameters are passed on.
pub open spec fn command_of(command: Option<MemberView>, params: Option<MemberView>) -> Result<
    CommandView,
    ParseError,
> {
    match required_text(command, Field::Command) {
        Err(e) => Err(e),
        Ok(name) => match CommandType::named(name) {
            Some(command) => Ok(CommandView { command, params: passed_on(params) }),
            None => Err(ParseError::UnknownCommand),
        },
    }
}

/// The command that `input` holds, or why it holds none.
pub open spec fn parse_command(input: Seq<char>) -> Result<CommandView, ParseError> {
    match json_compact(input) {
        None => Err(ParseError::NotJson),
        Some(document) => command_of(
            member_of(document, "command"@),
            member_of(document, "params"@),
        ),
    }
}

/// A value that is passed on, or `null` where there is none.
pub open spec fn or_null(value: Option<Seq<char>>) -> Seq<char> {
    match value {
        Some(text) => text,
        None => "null"@,
    }
}

/// A string as JSON, or `null` where there is none.
pub open spec fn quoted_or_null(value: Option<Seq<char>>) -> Seq<char> {
    match value {
        Some(text) => json_quoted(text),
        None => "null"@,
    }
}

/// The text that a notification travels as: a JSON object with the six
/// members in the order kind, data, time, source, message, metadata.
pub open spec fn notification_text(event: NotificationView) -> Seq<char> {
    "{\"event_type\":\""@ + event.event_type.wire_name() + "\",\"data\":"@ + or_null(event.data)
        + ",\"timestamp\":"@ + json_quoted(event.timestamp) + ",\"source\":"@ + json_quoted(
        event.source,
    ) + ",\"message\":"@ + quoted_or_null(event.message) + ",\"metadata\":"@ + or_null(
        event.metadata,
    ) + "}"@
}

/// A parsed command, or the error, as mathematics.
pub open spec fn parsed_command_view(res: Result<CommandEvent, ParseError>) -> Result<
    CommandView,
    ParseError,
> {
    match res {
        Ok(event) => Ok(event@),
        Err(e) => Err(e),
    }
}

/// A parsed notification, or the error, as mathematics.
pub open spec fn parsed_view(res: Result<NotificationEvent, ParseError>) -> Result<
    NotificationView,
    ParseError,
> {
    match res {
        Ok(event) => Ok(event@),
        Err(e) => Err(e),
    }
}

fn take_required(member: Option<Member>, field: Field) -> (res: Result<String, ParseError>)
    ensures
        match res {
            Ok(text) => required_text(opt_member(member), field) == Ok::<Seq<char>, ParseError>(
                text@,
            ),
            Err(e) => required_text(opt_member(member), field) == Err::<Seq<char>, ParseError>(e),
        },
{
    match member {
        None => Err(ParseError::MissingField(field)),
        Some(m) => match m.text {
            Some(text) => Ok(text),
            None => Err(ParseError::InvalidType(field)),
        },
    }
}

fn take_optional(member: Option<Member>, field: Field) -> (res: Result<Option<String>, ParseError>)
    ensures
        match res {
            Ok(text) => optional_text(opt_member(member), field) == Ok::<
                Option<Seq<char>>,
                ParseError,
            >(opt_text(text)),
            Err(e) => optional_text(opt_member(member), field) == Err::<
                Option<Seq<char>>,
                ParseError,
            >(e),
        },
{
    match member {
        None => Ok(None),
        Some(m) => {
            if str_eq(m.json.as_str(), "null") {
                Ok(None)
            } else {
                match m.text {
                    Some(text) => Ok(Some(text)),
                    None => Err(ParseError::InvalidType(field)),
                }
            }
        },
    }
}

fn take_passed_on(member: Option<Member>) -> (value: Option<String>)
    ensures
        opt_text(value) == passed_on(opt_member(member)),
{
    match member {
        None => None,
        Some(m) => {
            if str_eq(m.json.as_str(), "null") {
                None
            } else {
                Some(m.json)
            }
        },
    }
}

fn lookup(document: &Value, key: &str) -> (found: Option<Member>)
    ensures
        opt_member(found) == member_of(json_text(*document), key@),
{
    match member(document, key) {
        Some(value) => {
            let text = match string(value) {
                Some(s) => Some(s.to_owned()),
                None => None,
            };
            Some(Member { json: to_text(value), text })
        },
        None => None,
    }
}

fn quoted(text: &str) -> (out: String)
    ensures
        out@ == json_quoted(text@),
{
    let value = string_value(text);
    to_text(&value)
}

impl CommandEvent {
    /// The command that two members make: see `command_of`.
    pub fn from_members(command: Option<Member>, params: Option<Member>) -> (res: Result<
        CommandEvent,
        ParseError,
    >)
        ensures
            parsed_command_view(res) == command_of(opt_member(command), opt_member(params)),
    {
        let name = match take_required(command, Field::Command) {
            Ok(name) => name,
            Err(e) => { return Err(e); },
        };
        match CommandType::from_name(name.as_str()) {
            Some(command) => Ok(CommandEvent { command, params: take_passed_on(params) }),
            None => Err(ParseError::UnknownCommand),
        }
    }
}

impl NotificationEvent {
    /// The notification that six members make: see `notification_of`.
    pub fn from_members(raw: RawNotification) -> (res: Result<NotificationEvent, ParseError>)
        ensures
            parsed_view(res) == notification_of(raw@),
    {
        let kind = match take_required(raw.event_type, Field::EventType) {
            Ok(kind) => kind,
            Err(e) => { return Err(e); },
        };
        let timestamp = match take_required(raw.timestamp, Field::Timestamp) {
            Ok(timestamp) => timestamp,
            Err(e) => { return Err(e); },
        };
        let source = match take_required(raw.source, Field::Source) {
            Ok(source) => source,
            Err(e) => { return Err(e); },
        };
        let message = match take_optional(raw.message, Field::Message) {
            Ok(message) => message,
            Err(e) => { return Err(e); },
        };
        Ok(
            NotificationEvent {
                event_type: EventType::from_name(kind.as_str()),
                data: take_passed_on(raw.data),
                timestamp,
                source,
                message,
                metadata: take_passed_on(raw.metadata),
            },
        )
    }
}

/// Reads notifications and writes commands.
pub struct EventParser;

impl EventParser {
    /// The notification that `input` holds: a JSON object whose members are
    /// judged as `notification_of` says. Members that a notification does
    /// not have are ignored.
    pub fn parse_json(input: &str) -> (res: Result<NotificationEvent, ParseError>)
        ensures
            parsed_view(res) == parse_notification(input@),
    {
        let document = match parse(input) {
            Some(document) => document,
            None => { return Err(ParseError::NotJson); },
        };
        let raw = RawNotification {
            event_type: lookup(&document, "event_type"),
            data: lookup(&document, "data"),
            timestamp: lookup(&document, "timestamp"),
            source: lookup(&document, "source"),
            message: lookup(&document, "message"),
            metadata: lookup(&document, "metadata"),
        };
        NotificationEvent::from_members(raw)
    }

    /// The command that `input` holds: a JSON object whose members are
    /// judged as `command_of` says.
    pub fn parse_command(input: &str) -> (res: Result<CommandEvent, ParseError>)
        ensures
            parsed_command_view(res) == parse_command(input@),
    {
        let document = match parse(input) {
            Some(document) => document,
            None => { return Err(ParseError::NotJson); },
        };
        CommandEvent::from_members(lookup(&document, "command"), lookup(&document, "params"))
    }

    /// The text that a notification travels as.
    pub fn serialize_notification(event: &NotificationEvent) -> (text: String)
        ensures
            text@ == notification_text(event@),
    {
        let mut text = "{\"event_type\":\"".to_owned();
        text.append(event.event_type.to_string());
        text.append("\",\"data\":");
        match &event.data {
            Some(data) => text.append(data.as_str()),
            None => text.append("null"),
        }
        text.append(",\"timestamp\":");
        text.append(quoted(event.timestamp.as_str()).as_str());
        text.append(",\"source\":");
        text.append(quoted(event.source.as_str()).as_str());
        text.append(",\"message\":");
        match &event.message {
            Some(message) => text.append(quoted(message.as_str()).as_str()),
            None => text.append("null"),
        }
        text.append(",\"metadata\":");
        match &event.metadata {
            Some(metadata) => text.append(metadata.as_str()),
            None => text.append("null"),
        }
        text.append("}");
        text
    }

    /// The text that `event` travels as.
    pub fn serialize(event: &CommandEvent) -> (text: String)
        ensures
            text@ == command_text(event.command, opt_text(event.params)),
    {
        let mut text = "{\"command\":\"".to_owned();
        text.append(event.command.to_string());
        text.append("\",\"params\":");
        match &event.params {
            Some(params) => text.append(params.as_str()),
            None => text.append("null"),
        }
        text.append("}");
        text
    }
}

impl Parser<NotificationEvent> for EventParser {
    open spec fn parsed(input: Seq<char>) -> Result<NotificationView, ParseError> {
        parse_notification(input)
    }

    open spec fn written(event: NotificationView) -> Seq<char> {
        notification_text(event)
    }

    fn parse_json(input: &str) -> (res: Result<NotificationEvent, ParseError>) {
        EventParser::parse_json(input)
    }

    fn serialize(event: &NotificationEvent) -> (text: String) {
        EventParser::serialize_notification(event)
    }
}

impl Parser<CommandEvent> for EventParser {
    open spec fn parsed(input: Seq<char>) -> Result<CommandView, ParseError> {
        parse_command(input)
    }

    open spec fn written(event: CommandView) -> Seq<char> {
        command_text(event.command, event.params)
    }

    fn parse_json(input: &str) -> (res: Result<CommandEvent, ParseError>) {
        EventParser::parse_command(input)
    }

    fn serialize(event: &CommandEvent) -> (text: String) {
        EventParser::serialize(event)
    }
}

/// The character of `name` at `index`, or a blank where `name` is shorter.
pub open spec fn char_at(name: Seq<char>, index: int) -> char {
    if index < name.len() {
        name[index]
    } else {
        ' '
    }
}

/// What tells the names on the wire apart: the length of a name and five of
/// its characters. No two names of notifications share it, and no two names
/// of commands.
pub open spec fn name_key(name: Seq<char>) -> (nat, char, char, char, char, char) {
    (
        name.len(),
        char_at(name, 0),
        char_at(name, 4),
        char_at(name, 8),
        char_at(name, 10),
        char_at(name, 16),
    )
}

/// Every kind of notification is found again under its name on the wire.
pub proof fn lemma_event_name_round_trip(kind: EventType)
    ensures
        EventType::named(kind.wire_name()) == kind,
{
    reveal_strlit("service_initialized");
    reveal_strlit("service_starting");
    reveal_strlit("service_started");
    reveal_strlit("service_stopping");
    reveal_strlit("service_stopped");
    reveal_strlit("service_error");
    reveal_strlit("connected");
    reveal_strlit("disconnected");
    reveal_strlit("connection_error");
    reveal_strlit("connection_lost");
    reveal_strlit("reconnecting");
    reveal_strlit("reconnected");
    reveal_strlit("discovery_started");
    reveal_strlit("server_list_found");
    reveal_strlit("server_discovered");
    reveal_strlit("discovery_completed");
    reveal_strlit("discovery_timeout");
    reveal_strlit("otp_needed");
    reveal_strlit("otp_validated");
    reveal_strlit("otp_invalid");
    reveal_strlit("otp_generated");
    reveal_strlit("ssl_handshake_started");
    reveal_strlit("ssl_handshake_completed");
    reveal_strlit("ssl_handshake_failed");
    reveal_strlit("certificate_shared");
    reveal_strlit("certificate_received");
    reveal_strlit("server_choice_needed");
    reveal_strlit("server_choice_made");
    reveal_strlit("client_connected");
    reveal_strlit("client_disconnected");
    reveal_strlit("client_authenticated");
    reveal_strlit("client_added");
    reveal_strlit("client_removed");
    reveal_strlit("client_updated");
    reveal_strlit("stream_enabled");
    reveal_strlit("stream_disabled");
    reveal_strlit("streams_updated");
    reveal_strlit("config_loaded");
    reveal_strlit("config_saved");
    reveal_strlit("config_updated");
    reveal_strlit("config_error");
    reveal_strlit("state_changed");
    reveal_strlit("mode_changed");
    reveal_strlit("screen_changed");
    reveal_strlit("screen_transition_started");
    reveal_strlit("screen_transition_completed");
    reveal_strlit("file_transfer_started");
    reveal_strlit("file_transfer_progress");
    reveal_strlit("file_transfer_completed");
    reveal_strlit("file_transfer_failed");
    reveal_strlit("clipboard_synced");
    reveal_strlit("network_latency_high");
    reveal_strlit("network_quality_degraded");
    reveal_strlit("network_quality_restored");
    reveal_strlit("status_update");
    reveal_strlit("info");
    reveal_strlit("warning");
    reveal_strlit("error");
    reveal_strlit("test");
    reveal_strlit("pong");
    reveal_strlit("command_success");
    reveal_strlit("command_error");
    reveal_strlit("other");
    assert(name_key("service_initialized"@) == (19nat, 's', 'i', 'i', 'i', 'z'));
    assert(name_key("service_starting"@) == (16nat, 's', 'i', 's', 'a', ' '));
    assert(name_key("service_started"@) == (15nat, 's', 'i', 's', 'a', ' '));
    assert(name_key("service_stopping"@) == (16nat, 's', 'i', 's', 'o', ' '));
    assert(name_key("service_stopped"@) == (15nat, 's', 'i', 's', 'o', ' '));
    assert(name_key("service_error"@) == (13nat, 's', 'i', 'e', 'r', ' '));
    assert(name_key("connected"@) == (9nat, 'c', 'e', 'd', ' ', ' '));
    assert(name_key("disconnected"@) == (12nat, 'd', 'o', 'c', 'e', ' '));
    assert(name_key("connection_error"@) == (16nat, 'c', 'e', 'o', '_', ' '));
    assert(name_key("connection_lost"@) == (15nat, 'c', 'e', 'o', '_', ' '));
    assert(name_key("reconnecting"@) == (12nat, 'r', 'n', 't', 'n', ' '));
    assert(name_key("reconnected"@) == (11nat, 'r', 'n', 't', 'd', ' '));
    assert(name_key("discovery_started"@) == (17nat, 'd', 'o', 'y', 's', 'd'));
    assert(name_key("server_list_found"@) == (17nat, 's', 'e', 'i', 't', 'd'));
    assert(name_key("server_discovered"@) == (17nat, 's', 'e', 'i', 'c', 'd'));
    assert(name_key("discovery_completed"@) == (19nat, 'd', 'o', 'y', 'c', 't'));
    assert(name_key("discovery_timeout"@) == (17nat, 'd', 'o', 'y', 't', 't'));
    assert(name_key("otp_needed"@) == (10nat, 'o', 'n', 'e', ' ', ' '));
    assert(name_key("otp_validated"@) == (13nat, 'o', 'v', 'd', 't', ' '));
    assert(name_key("otp_invalid"@) == (11nat, 'o', 'i', 'l', 'd', ' '));
    assert(name_key("otp_generated"@) == (13nat, 'o', 'g', 'r', 't', ' '));
    assert(name_key("ssl_handshake_started"@) == (21nat, 's', 'h', 's', 'a', 'a'));
    assert(name_key("ssl_handshake_completed"@) == (23nat, 's', 'h', 's', 'a', 'm'));
    assert(name_key("ssl_handshake_failed"@) == (20nat, 's', 'h', 's', 'a', 'i'));
    assert(name_key("certificate_shared"@) == (18nat, 'c', 'i', 'a', 'e', 'e'));
    assert(name_key("certificate_received"@) == (20nat, 'c', 'i', 'a', 'e', 'i'));
    assert(name_key("server_choice_needed"@) == (20nat, 's', 'e', 'h', 'i', 'e'));
    assert(name_key("server_choice_made"@) == (18nat, 's', 'e', 'h', 'i', 'd'));
    assert(name_key("client_connected"@) == (16nat, 'c', 'n', 'o', 'n', ' '));
    assert(name_key("client_disconnected"@) == (19nat, 'c', 'n', 'i', 'c', 't'));
    assert(name_key("client_authenticated"@) == (20nat, 'c', 'n', 'u', 'h', 'a'));
    assert(name_key("client_added"@) == (12nat, 'c', 'n', 'd', 'e', ' '));
    assert(name_key("client_removed"@) == (14nat, 'c', 'n', 'e', 'o', ' '));
    assert(name_key("client_updated"@) == (14nat, 'c', 'n', 'p', 'a', ' '));
    assert(name_key("stream_enabled"@) == (14nat, 's', 'a', 'n', 'b', ' '));
    assert(name_key("stream_disabled"@) == (15nat, 's', 'a', 'i', 'a', ' '));
    assert(name_key("streams_updated"@) == (15nat, 's', 'a', 'u', 'd', ' '));
    assert(name_key("config_loaded"@) == (13nat, 'c', 'i', 'o', 'd', ' '));
    assert(name_key("config_saved"@) == (12nat, 'c', 'i', 'a', 'e', ' '));
    assert(name_key("config_updated"@) == (14nat, 'c', 'i', 'p', 'a', ' '));
    assert(name_key("config_error"@) == (12nat, 'c', 'i', 'r', 'o', ' '));
    assert(name_key("state_changed"@) == (13nat, 's', 'e', 'a', 'g', ' '));
    assert(name_key("mode_changed"@) == (12nat, 'm', '_', 'n', 'e', ' '));
    assert(name_key("screen_changed"@) == (14nat, 's', 'e', 'h', 'n', ' '));
    assert(name_key("screen_transition_started"@) == (25nat, 's', 'e', 'r', 'n', 'n'));
    assert(name_key("screen_transition_completed"@) == (27nat, 's', 'e', 'r', 'n', 'n'));
    assert(name_key("file_transfer_started"@) == (21nat, 'f', '_', 'n', 'f', 'a'));
    assert(name_key("file_transfer_progress"@) == (22nat, 'f', '_', 'n', 'f', 'o'));
    assert(name_key("file_transfer_completed"@) == (23nat, 'f', '_', 'n', 'f', 'm'));
    assert(name_key("file_transfer_failed"@) == (20nat, 'f', '_', 'n', 'f', 'i'));
    assert(name_key("clipboard_synced"@) == (16nat, 'c', 'b', 'd', 's', ' '));
    assert(name_key("network_latency_high"@) == (20nat, 'n', 'o', 'l', 't', 'h'));
    assert(name_key("network_quality_degraded"@) == (24nat, 'n', 'o', 'q', 'a', 'd'));
    assert(name_key("network_quality_restored"@) == (24nat, 'n', 'o', 'q', 'a', 'r'));
    assert(name_key("status_update"@) == (13nat, 's', 'u', 'p', 'a', ' '));
    assert(name_key("info"@) == (4nat, 'i', ' ', ' ', ' ', ' '));
    assert(name_key("warning"@) == (7nat, 'w', 'i', ' ', ' ', ' '));
    assert(name_key("error"@) == (5nat, 'e', 'r', ' ', ' ', ' '));
    assert(name_key("test"@) == (4nat, 't', ' ', ' ', ' ', ' '));
    assert(name_key("pong"@) == (4nat, 'p', ' ', ' ', ' ', ' '));
    assert(name_key("command_success"@) == (15nat, 'c', 'a', 's', 'c', ' '));
    assert(name_key("command_error"@) == (13nat, 'c', 'a', 'e', 'r', ' '));
    assert(name_key("other"@) == (5nat, 'o', 'r', ' ', ' ', ' '));
}

/// Every command is found again under its name on the wire.
pub proof fn lemma_command_name_round_trip(command: CommandType)
    ensures
        CommandType::named(command.wire_name()) == Some(command),
{
    reveal_strlit("service_choice");
    reveal_strlit("start_server");
    reveal_strlit("stop_server");
    reveal_strlit("start_client");
    reveal_strlit("stop_client");
    reveal_strlit("status");
    reveal_strlit("server_status");
    reveal_strlit("client_status");
    reveal_strlit("get_server_config");
    reveal_strlit("set_server_config");
    reveal_strlit("get_client_config");
    reveal_strlit("set_client_config");
    reveal_strlit("save_config");
    reveal_strlit("reload_config");
    reveal_strlit("enable_stream");
    reveal_strlit("disable_stream");
    reveal_strlit("get_streams");
    reveal_strlit("add_client");
    reveal_strlit("remove_client");
    reveal_strlit("edit_client");
    reveal_strlit("list_clients");
    reveal_strlit("enable_ssl");
    reveal_strlit("disable_ssl");
    reveal_strlit("share_certificate");
    reveal_strlit("receive_certificate");
    reveal_strlit("set_otp");
    reveal_strlit("check_server_choice_needed");
    reveal_strlit("get_found_servers");
    reveal_strlit("choose_server");
    reveal_strlit("check_otp_needed");
    reveal_strlit("discover_services");
    reveal_strlit("shutdown");
    reveal_strlit("ping");
    assert(name_key("service_choice"@) == (14nat, 's', 'i', 'c', 'o', ' '));
    assert(name_key("start_server"@) == (12nat, 's', 't', 'r', 'e', ' '));
    assert(name_key("stop_server"@) == (11nat, 's', '_', 'v', 'r', ' '));
    assert(name_key("start_client"@) == (12nat, 's', 't', 'i', 'n', ' '));
    assert(name_key("stop_client"@) == (11nat, 's', '_', 'e', 't', ' '));
    assert(name_key("status"@) == (6nat, 's', 'u', ' ', ' ', ' '));
    assert(name_key("server_status"@) == (13nat, 's', 'e', 't', 't', ' '));
    assert(name_key("client_status"@) == (13nat, 'c', 'n', 't', 't', ' '));
    assert(name_key("get_server_config"@) == (17nat, 'g', 's', 'e', '_', 'g'));
    assert(name_key("set_server_config"@) == (17nat, 's', 's', 'e', '_', 'g'));
    assert(name_key("get_client_config"@) == (17nat, 'g', 'c', 'n', '_', 'g'));
    assert(name_key("set_client_config"@) == (17nat, 's', 'c', 'n', '_', 'g'));
    assert(name_key("save_config"@) == (11nat, 's', '_', 'f', 'g', ' '));
    assert(name_key("reload_config"@) == (13nat, 'r', 'a', 'o', 'f', ' '));
    assert(name_key("enable_stream"@) == (13nat, 'e', 'l', 't', 'e', ' '));
    assert(name_key("disable_stream"@) == (14nat, 'd', 'b', 's', 'r', ' '));
    assert(name_key("get_streams"@) == (11nat, 'g', 's', 'a', 's', ' '));
    assert(name_key("add_client"@) == (10nat, 'a', 'c', 'n', ' ', ' '));
    assert(name_key("remove_client"@) == (13nat, 'r', 'v', 'l', 'e', ' '));
    assert(name_key("edit_client"@) == (11nat, 'e', '_', 'e', 't', ' '));
    assert(name_key("list_clients"@) == (12nat, 'l', '_', 'e', 't', ' '));
    assert(name_key("enable_ssl"@) == (10nat, 'e', 'l', 's', ' ', ' '));
    assert(name_key("disable_ssl"@) == (11nat, 'd', 'b', 's', 'l', ' '));
    assert(name_key("share_certificate"@) == (17nat, 's', 'e', 'r', 'i', 'e'));
    assert(name_key("receive_certificate"@) == (19nat, 'r', 'i', 'c', 'r', 'a'));
    assert(name_key("set_otp"@) == (7nat, 's', 'o', ' ', ' ', ' '));
    assert(name_key("check_server_choice_needed"@) == (26nat, 'c', 'k', 'r', 'e', 'i'));
    assert(name_key("get_found_servers"@) == (17nat, 'g', 'f', 'd', 's', 's'));
    assert(name_key("choose_server"@) == (13nat, 'c', 's', 'e', 'v', ' '));
    assert(name_key("check_otp_needed"@) == (16nat, 'c', 'k', 'p', 'n', ' '));
    assert(name_key("discover_services"@) == (17nat, 'd', 'o', '_', 'e', 's'));
    assert(name_key("shutdown"@) == (8nat, 's', 'd', ' ', ' ', ' '));
    assert(name_key("ping"@) == (4nat, 'p', ' ', ' ', ' ', ' '));
}

} // verus!
