use w3b2::connector::synchronizer::{StartError, SynchronizerBuilder};
use w3b2::connector::config::SyncConfig;
use w3b2::gateway::config::{
    log_file_path, GatewayConfig, LogConfig, LogConfigError, LogFormat, LogOutput,
};
use w3b2::solana_connector::config::{
    commitment_from_name, commitment_name, CommitmentLevel, ConnectorConfig,
};

#[test]
fn connector_defaults() {
    let c = ConnectorConfig::default();
    assert_eq!(c.solana.rpc_url, "http://127.0.0.1:8899");
    assert_eq!(c.solana.ws_url, "ws://127.0.0.1:8900");
    assert_eq!(c.solana.commitment, CommitmentLevel::Confirmed);
    assert_eq!(c.synchronizer.max_catchup_depth, None);
    assert_eq!(c.synchronizer.poll_interval_secs, 3);
    assert_eq!(c.synchronizer.max_signature_fetch, 1000);
    assert_eq!(c.channels.dispatcher_event_buffer, 256);
    assert_eq!(c.channels.dispatcher_command_buffer, 128);
    assert_eq!(c.channels.listener_event_buffer, 128);
}

#[test]
fn sync_config_defaults() {
    let c = SyncConfig::default();
    assert_eq!(c.rpc_url, "http://127.0.0.1:8899");
    assert_eq!(c.ws_url, "ws://127.0.0.1:8900");
    assert_eq!(c.program_id, "3LhCu6pXXdiwpvBUrFKLxCy1XQ5qyE7v6WSCLbkbS8Dr");
    assert_eq!(c.max_catchup_depth, 10_000);
    assert!(!c.skip_stale);
}

#[test]
fn gateway_defaults() {
    let c = GatewayConfig::default();
    assert_eq!(c.gateway.db_path, "./w3b2_gateway.db");
    assert_eq!(c.gateway.grpc.host, "127.0.0.1");
    assert_eq!(c.gateway.grpc.port, 50051);
    assert_eq!(c.gateway.streaming.broadcast_capacity, 4096);
    assert_eq!(c.gateway.streaming.command_capacity, 256);
    assert_eq!(c.gateway.streaming.listener_channel_capacity, 1024);
    assert_eq!(c.gateway.streaming.output_stream_capacity, 1024);
    assert_eq!(c.gateway.streaming.service_listener_capacity, 256);
    assert_eq!(c.gateway.log.level, "info");
    assert_eq!(c.gateway.log.format, LogFormat::Plain);
    assert_eq!(c.gateway.log.output, LogOutput::Stdout);
    assert_eq!(c.gateway.log.file_path, None);
    assert_eq!(c.connector.synchronizer.poll_interval_secs, 3);
}

#[test]
fn log_file_rule() {
    let mut log = LogConfig::default();
    assert_eq!(log_file_path(&log), Ok(None));
    log.output = LogOutput::File;
    assert_eq!(log_file_path(&log), Err(LogConfigError::MissingFilePath));
    log.file_path = Some("/var/log/gw.log".to_string());
    assert_eq!(log_file_path(&log), Ok(Some(&"/var/log/gw.log".to_string())));
}

#[test]
fn commitment_names() {
    for c in [CommitmentLevel::Processed, CommitmentLevel::Confirmed, CommitmentLevel::Finalized] {
        assert_eq!(commitment_from_name(&commitment_name(c)), c);
    }
    assert_eq!(commitment_name(CommitmentLevel::Finalized), "Finalized");
    assert_eq!(commitment_from_name("PROCESSED"), CommitmentLevel::Processed);
    assert_eq!(commitment_from_name("finalized"), CommitmentLevel::Finalized);
    assert_eq!(commitment_from_name("recent"), CommitmentLevel::Confirmed);
    assert_eq!(commitment_from_name("cOnFiRmEd"), CommitmentLevel::Confirmed);
    assert_eq!(commitment_from_name("FINALIZED"), CommitmentLevel::Finalized);
}

#[test]
fn synchronizer_needs_config_and_storage() {
    let b: SynchronizerBuilder<u8> = SynchronizerBuilder::new();
    assert_eq!(b.parts().err(), Some(StartError::ConfigNotProvided));
    let b: SynchronizerBuilder<u8> = SynchronizerBuilder::new().with_storage(1);
    assert_eq!(b.parts().err(), Some(StartError::ConfigNotProvided));
    let b: SynchronizerBuilder<u8> = SynchronizerBuilder::new().with_config(SyncConfig::default());
    assert_eq!(b.parts().err(), Some(StartError::StorageNotProvided));
    let b = SynchronizerBuilder::new()
        .with_config(SyncConfig::default())
        .with_max_catchup_depth(42)
        .with_storage(7u8);
    let (cfg, storage) = b.parts().unwrap();
    assert_eq!(cfg.max_catchup_depth, 42);
    assert_eq!(storage, 7);
    let b = SynchronizerBuilder::new()
        .with_max_catchup_depth(42)
        .with_config(SyncConfig::default())
        .with_storage(7u8);
    assert_eq!(b.parts().unwrap().0.max_catchup_depth, 42);
    let (cfg, _) = SynchronizerBuilder::new().with_config(SyncConfig::default()).with_storage(1u8).parts().unwrap();
    assert_eq!(cfg.max_catchup_depth, 10_000);
}
