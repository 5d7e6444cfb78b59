//! The off-chain session protocol carried in the `payload` of dispatch
//! instructions. The program does not read the payload; off-chain services
//! write a `CommandConfig` into it to agree on a direct connection.
use vstd::prelude::*;
use vstd::bytes::*;
use vstd::string::StringSliceAdditionalSpecFns;
use vstd::utf8::encode_utf8;
use crate::program::instructions::MAX_PAYLOAD_SIZE;

verus! {

/// The communication flow a service follows after receiving a command.
#[derive(Clone, Copy, Debug, PartialEq, Eq, Structural)]
pub enum CommandMode {
    /// The service answers with a new on-chain command.
    RequestResponse,
    /// No on-chain answer is expected.
    OneWay,
}

/// A network endpoint of an off-chain service.
#[derive(Clone, Debug, PartialEq, Eq)]
pub enum Destination {
    /// An IPv4 address and port.
    IpV4([u8; 4], u16),
    /// An IPv6 address and port.
    IpV6([u8; 16], u16),
    /// A URL, written as a length-prefixed UTF-8 string.
    Url(String),
}

/// A message that opens an off-chain communication session.
#[derive(Clone, Debug, PartialEq, Eq)]
pub struct CommandConfig {
    /// Identifier of the off-chain session.
    pub session_id: u64,
    /// The encrypted session key.
    pub encrypted_session_key: Vec<u8>,
    /// Where the initiator expects the recipient to connect.
    pub destination: Destination,
    /// Any further metadata.
    pub meta: Vec<u8>,
}

/// Why a `CommandConfig` could not be built.
#[derive(Clone, Copy, Debug, PartialEq, Eq, Structural)]
pub enum ConfigError {
    /// The written config would be longer than the largest payload.
    PayloadTooLarge { calculated_size: usize, max_size: usize },
}

/// The UTF-8 bytes of a URL.
pub open spec fn url_bytes(s: String) -> Seq<u8> {
    encode_utf8(s@)
}

/// The written form of a destination: a one-byte variant tag, then its fields.
pub open spec fn destination_bytes(d: Destination) -> Seq<u8> {
    match d {
        Destination::IpV4(ip, port) => seq![0u8] + ip@ + spec_u16_to_le_bytes(port),
        Destination::IpV6(ip, port) => seq![1u8] + ip@ + spec_u16_to_le_bytes(port),
        Destination::Url(s) => seq![2u8] + spec_u32_to_le_bytes(url_bytes(s).len() as u32) + url_bytes(
            s,
        ),
    }
}

/// The size of the written form of a destination.
pub open spec fn destination_size(d: Destination) -> int {
    1 + match d {
        Destination::IpV4(_, _) => 6int,
        Destination::IpV6(_, _) => 18int,
        Destination::Url(s) => 4 + url_bytes(s).len() as int,
    }
}

/// The written form of a config: the session id, the length-prefixed key,
/// the destination and the length-prefixed metadata.
pub open spec fn config_bytes(c: CommandConfig) -> Seq<u8> {
    spec_u64_to_le_bytes(c.session_id) + spec_u32_to_le_bytes(
        c.encrypted_session_key@.len() as u32,
    ) + c.encrypted_session_key@ + destination_bytes(c.destination) + spec_u32_to_le_bytes(
        c.meta@.len() as u32,
    ) + c.meta@
}

/// The size of the written form of a config.
pub open spec fn config_size(c: CommandConfig) -> int {
    8 + (4 + c.encrypted_session_key@.len()) + destination_size(c.destination) + (4
        + c.meta@.len())
}

/// The lists of the config can be written: each holds at most `u32::MAX`
/// bytes.
pub open spec fn config_writable(c: CommandConfig) -> bool {
    &&& c.encrypted_session_key@.len() <= u32::MAX
    &&& c.meta@.len() <= u32::MAX
    &&& (c.destination matches Destination::Url(s) ==> url_bytes(s).len() <= u32::MAX)
}

impl Destination {
    /// The size in bytes of the written form of the destination.
    pub fn size(&self) -> (r: usize)
        requires
            destination_size(*self) <= usize::MAX,
        ensures
            r == destination_size(*self),
    {
        1 + match self {
            Destination::IpV4(_, _) => 4 + 2,
            Destination::IpV6(_, _) => 16 + 2,
            Destination::Url(s) => 4 + s.as_str().len(),
        }
    }
}

impl CommandConfig {
    /// The size in bytes of the written form of the config.
    fn calculate_size(&self) -> (r: usize)
        requires
            config_size(*self) <= usize::MAX,
        ensures
            r == config_size(*self),
    {
        8 + (4 + self.encrypted_session_key.len()) + self.destination.size() + (4 + self.meta.len())
    }

    /// Builds a config, refusing one whose written form would be longer than
    /// the largest payload a dispatch instruction accepts.
    pub fn new(
        session_id: u64,
        encrypted_session_key: Vec<u8>,
        destination: Destination,
        meta: Vec<u8>,
    ) -> (r: Result<Self, ConfigError>)
        requires
            config_size(
                CommandConfig { session_id, encrypted_session_key, destination, meta },
            ) <= usize::MAX,
        ensures
            ({
                let c = CommandConfig { session_id, encrypted_session_key, destination, meta };
                if config_size(c) > MAX_PAYLOAD_SIZE {
                    r == Err::<CommandConfig, ConfigError>(
                        ConfigError::PayloadTooLarge {
                            calculated_size: config_size(c) as usize,
                            max_size: MAX_PAYLOAD_SIZE,
                        },
                    )
                } else {
                    r == Ok::<CommandConfig, ConfigError>(c)
                }
            }),
    {
        let config = Self { session_id, encrypted_session_key, destination, meta };
        let calculated_size = config.calculate_size();
        if calculated_size > MAX_PAYLOAD_SIZE {
            return Err(ConfigError::PayloadTooLarge { calculated_size, max_size: MAX_PAYLOAD_SIZE });
        }
        Ok(config)
    }
}

/// The size that `Destination::size` computes is the length of the
/// destination's written form.
pub proof fn lemma_destination_size_is_written_length(d: Destination)
    requires
        d matches Destination::Url(s) ==> url_bytes(s).len() <= u32::MAX,
    ensures
        destination_bytes(d).len() == destination_size(d),
{
    lemma_auto_spec_u16_to_from_le_bytes();
    lemma_auto_spec_u32_to_from_le_bytes();
    match d {
        Destination::IpV4(ip, port) => {
            assert(ip@.len() == 4);
        },
        Destination::IpV6(ip, port) => {
            assert(ip@.len() == 16);
        },
        Destination::Url(s) => {},
    }
}

/// The size that `calculate_size` computes is the length of the written form.
pub proof fn lemma_config_size_is_written_length(c: CommandConfig)
    requires
        config_writable(c),
    ensures
        config_bytes(c).len() == config_size(c),
{
    lemma_auto_spec_u16_to_from_le_bytes();
    lemma_auto_spec_u32_to_from_le_bytes();
    lemma_auto_spec_u64_to_from_le_bytes();
    match c.destination {
        Destination::IpV4(ip, port) => {
            assert(ip@.len() == 4);
        },
        Destination::IpV6(ip, port) => {
            assert(ip@.len() == 16);
        },
        Destination::Url(s) => {},
    }
}

/// A config that `CommandConfig::new` accepts is a payload that the dispatch
/// instructions accept, and one that it refuses would be refused by them.
pub proof fn lemma_new_config_fits_payload(
    session_id: u64,
    encrypted_session_key: Vec<u8>,
    destination: Destination,
    meta: Vec<u8>,
)
    requires
        config_writable(CommandConfig { session_id, encrypted_session_key, destination, meta }),
    ensures
        ({
            let c = CommandConfig { session_id, encrypted_session_key, destination, meta };
            config_size(c) <= MAX_PAYLOAD_SIZE <==> config_bytes(c).len() <= MAX_PAYLOAD_SIZE
        }),
{
    lemma_config_size_is_written_length(
        CommandConfig { session_id, encrypted_session_key, destination, meta },
    );
}

} // verus!
