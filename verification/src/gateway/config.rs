//! The gateway's configuration and its defaults.
use vstd::prelude::*;
use crate::solana_connector::config::{
    ConnectorConfig, default_channels, default_synchronizer, is_default_solana,
};

verus! {

/// The format of log lines.
#[derive(Clone, Copy, Debug, PartialEq, Eq, Structural)]
pub enum LogFormat {
    Plain,
    Json,
}

/// Where log lines go.
#[derive(Clone, Copy, Debug, PartialEq, Eq, Structural)]
pub enum LogOutput {
    Stdout,
    File,
}

/// Logging settings.
#[derive(Clone, Debug)]
pub struct LogConfig {
    /// The least severe level logged, by name.
    pub level: String,
    pub format: LogFormat,
    pub output: LogOutput,
    /// The log file, needed when the output is a file.
    pub file_path: Option<String>,
}

/// The address the gRPC server listens on.
#[derive(Clone, Debug)]
pub struct GrpcConfig {
    pub host: String,
    pub port: u16,
}

/// The capacities of the gateway's streams.
#[derive(Clone, Copy, Debug, PartialEq, Eq, Structural)]
pub struct StreamingConfig {
    pub broadcast_capacity: usize,
    pub command_capacity: usize,
    pub listener_channel_capacity: usize,
    pub output_stream_capacity: usize,
    pub service_listener_capacity: usize,
}

/// The gateway's own settings.
#[derive(Clone, Debug)]
pub struct GatewaySpecificConfig {
    /// Where the synchronisation state is stored.
    pub db_path: String,
    pub grpc: GrpcConfig,
    pub streaming: StreamingConfig,
    pub log: LogConfig,
}

/// The whole configuration: the connector's and the gateway's settings.
#[derive(Clone, Debug)]
pub struct GatewayConfig {
    pub connector: ConnectorConfig,
    pub gateway: GatewaySpecificConfig,
}

/// The default stream capacities.
pub open spec fn default_streaming() -> StreamingConfig {
    StreamingConfig {
        broadcast_capacity: 4096,
        command_capacity: 256,
        listener_channel_capacity: 1024,
        output_stream_capacity: 1024,
        service_listener_capacity: 256,
    }
}

/// The default logging: plain lines at `info` on standard output.
pub open spec fn is_default_log(l: LogConfig) -> bool {
    &&& l.level@ == "info"@
    &&& l.format == LogFormat::Plain
    &&& l.output == LogOutput::Stdout
    &&& l.file_path is None
}

/// The default gRPC address, `127.0.0.1:50051`.
pub open spec fn is_default_grpc(g: GrpcConfig) -> bool {
    g.host@ == "127.0.0.1"@ && g.port == 50051
}

/// The default gateway settings.
pub open spec fn is_default_gateway(g: GatewaySpecificConfig) -> bool {
    &&& g.db_path@ == "./w3b2_gateway.db"@
    &&& is_default_grpc(g.grpc)
    &&& g.streaming == default_streaming()
    &&& is_default_log(g.log)
}

impl Default for LogConfig {
    fn default() -> (r: Self)
        ensures
            is_default_log(r),
    {
        LogConfig {
            level: "info".to_owned(),
            format: LogFormat::Plain,
            output: LogOutput::Stdout,
            file_path: None,
        }
    }
}

impl Default for GrpcConfig {
    fn default() -> (r: Self)
        ensures
            is_default_grpc(r),
    {
        GrpcConfig { host: "127.0.0.1".to_owned(), port: 50051 }
    }
}

impl Default for StreamingConfig {
    fn default() -> (r: Self)
        ensures
            r == default_streaming(),
    {
        StreamingConfig {
            broadcast_capacity: 4096,
            command_capacity: 256,
            listener_channel_capacity: 1024,
            output_stream_capacity: 1024,
            service_listener_capacity: 256,
        }
    }
}

impl Default for GatewaySpecificConfig {
    fn default() -> (r: Self)
        ensures
            is_default_gateway(r),
    {
        GatewaySpecificConfig {
            db_path: "./w3b2_gateway.db".to_owned(),
            grpc: GrpcConfig::default(),
            streaming: StreamingConfig::default(),
            log: LogConfig::default(),
        }
    }
}

impl Default for GatewayConfig {
    fn default() -> (r: Self)
        ensures
            is_default_solana(r.connector.solana),
            r.connector.synchronizer == default_synchronizer(),
            r.connector.channels == default_channels(),
            is_default_gateway(r.gateway),
    {
        GatewayConfig { connector: ConnectorConfig::default(), gateway: GatewaySpecificConfig::default() }
    }
}

/// Why the logging settings cannot be used.
#[derive(Clone, Copy, Debug, PartialEq, Eq, Structural)]
pub enum LogConfigError {
    /// The output is a file but no file is named.
    MissingFilePath,
}

/// The file logs go to: none for standard output; for a file output, the named
/// file, which must be given.
pub fn log_file_path(log: &LogConfig) -> (r: Result<Option<&String>, LogConfigError>)
    ensures
        log.output == LogOutput::Stdout ==> r == Ok::<Option<&String>, LogConfigError>(None),
        log.output == LogOutput::File ==> match log.file_path {
            Some(p) => r == Ok::<Option<&String>, LogConfigError>(Some(&p)),
            None => r == Err::<Option<&String>, LogConfigError>(LogConfigError::MissingFilePath),
        },
{
    match log.output {
        LogOutput::Stdout => Ok(None),
        LogOutput::File => match &log.file_path {
            Some(p) => Ok(Some(p)),
            None => Err(LogConfigError::MissingFilePath),
        },
    }
}

} // verus!
