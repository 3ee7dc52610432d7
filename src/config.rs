use crate::secattr::SecurityAttributes;
use vstd::prelude::*;

verus! {

/// The default size, in bytes, of each of a pipe's buffers.
pub const DEFAULT_BUFFER_SIZE: u32 = 0x10000;

/// How each pipe instance of a listener is created.
#[derive(Debug)]
pub struct NamedPipeConfig {
    /// Refuse clients on other machines.
    pub reject_remote_clients: bool,
    /// Data flows from clients to the server.
    pub inbound: bool,
    /// Data flows from the server to clients.
    pub outbound: bool,
    pub out_buffer_size: u32,
    pub in_buffer_size: u32,
    pub security_attributes: SecurityAttributes,
}

impl NamedPipeConfig {
    /// A pipe carries data in at least one direction.
    pub open spec fn wf(&self) -> bool {
        self.inbound || self.outbound
    }
}

impl Default for NamedPipeConfig {
    /// Both directions, 64 KiB buffers, local clients only, and the system's
    /// default access.
    fn default() -> (r: NamedPipeConfig)
        ensures
            r.wf(),
            r.reject_remote_clients,
            r.inbound,
            r.outbound,
            r.out_buffer_size == DEFAULT_BUFFER_SIZE,
            r.in_buffer_size == DEFAULT_BUFFER_SIZE,
            r.security_attributes.security_descriptor is None,
            !r.security_attributes.inherit_handle,
    {
        NamedPipeConfig {
            reject_remote_clients: true,
            inbound: true,
            outbound: true,
            out_buffer_size: DEFAULT_BUFFER_SIZE,
            in_buffer_size: DEFAULT_BUFFER_SIZE,
            security_attributes: SecurityAttributes::default(),
        }
    }
}

/// The options of one pipe-instance creation, besides its security
/// attributes.
#[derive(Clone, Copy, Debug, PartialEq, Eq, Structural)]
pub struct CreateOptions {
    /// Fail where an instance of the path exists already.
    pub first_pipe_instance: bool,
    pub reject_remote_clients: bool,
    pub access_inbound: bool,
    pub access_outbound: bool,
    pub in_buffer_size: u32,
    pub out_buffer_size: u32,
}

/// The options that `config` gives an instance; `first_pipe_instance` says
/// whether it must be the path's first.
pub open spec fn options_of(config: &NamedPipeConfig, first_pipe_instance: bool) -> CreateOptions {
    CreateOptions {
        first_pipe_instance,
        reject_remote_clients: config.reject_remote_clients,
        access_inbound: config.inbound,
        access_outbound: config.outbound,
        in_buffer_size: config.in_buffer_size,
        out_buffer_size: config.out_buffer_size,
    }
}

} // verus!
