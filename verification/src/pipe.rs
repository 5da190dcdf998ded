use vstd::prelude::*;

verus! {

/// The flow of data in the pipe goes from client to server only.
pub const PIPE_ACCESS_INBOUND: u32 = 0x00000001;
/// The flow of data in the pipe goes from server to client only.
pub const PIPE_ACCESS_OUTBOUND: u32 = 0x00000002;
/// The pipe is bi-directional.
pub const PIPE_ACCESS_DUPLEX: u32 = 0x00000003;
/// Data is written to the pipe as a stream of bytes.
pub const PIPE_TYPE_BYTE: u32 = 0x00000000;
/// Data is written to the pipe as a stream of messages.
pub const PIPE_TYPE_MESSAGE: u32 = 0x00000004;
/// Connections from remote clients are automatically rejected.
pub const PIPE_REJECT_REMOTE_CLIENTS: u32 = 0x00000008;
/// The number of pipe instances is limited only by system resources.
pub const PIPE_UNLIMITED_INSTANCES: u32 = 255;
/// Creation of a second instance of the pipe fails.
pub const FILE_FLAG_FIRST_PIPE_INSTANCE: u32 = 0x00080000;
/// The default size of the input and output buffers of a pipe.
pub const DEFAULT_PIPE_BUFFER_SIZE: u32 = 65536;

/// The pipe mode of a named pipe.
///
/// Set through [CreatePipeOptions::pipe_mode].
#[derive(Debug, Clone, Copy, PartialEq, Eq, Hash, Structural)]
#[non_exhaustive]
pub enum PipeMode {
    /// Data is written to the pipe as a stream of bytes. The pipe does not
    /// distinguish bytes written during different write operations.
    ///
    /// Corresponds to `PIPE_TYPE_BYTE`.
    Byte,
    /// Data is written to the pipe as a stream of messages. The pipe treats the
    /// bytes written during each write operation as a message unit. Any reading
    /// function on a named pipe returns `ERROR_MORE_DATA` when a message is not
    /// read completely.
    ///
    /// Corresponds to `PIPE_TYPE_MESSAGE`.
    Message,
}

/// The bits `bits` with the flag `flag` set when `on` holds and cleared
/// otherwise.
pub open spec fn with_flag(bits: u32, flag: u32, on: bool) -> u32 {
    if on { bits | flag } else { bits & !flag }
}

/// Set or clear a flag in a bitfield.
pub fn set_flag(bits: u32, flag: u32, on: bool) -> (r: u32)
    ensures
        r == with_flag(bits, flag, on),
{
    if on { bits | flag } else { bits & !flag }
}

/// Setting or clearing a flag sets or clears exactly the flag's bits, and
/// leaves every other bit as it was.
pub proof fn lemma_with_flag(bits: u32, flag: u32, on: bool)
    ensures
        with_flag(bits, flag, on) & flag == (if on { flag } else { 0 }),
        with_flag(bits, flag, on) & !flag == bits & !flag,
{
    if on {
        assert((bits | flag) & flag == flag) by (bit_vector);
        assert((bits | flag) & !flag == bits & !flag) by (bit_vector);
    } else {
        assert((bits & !flag) & flag == 0) by (bit_vector);
        assert((bits & !flag) & !flag == bits & !flag) by (bit_vector);
    }
}

/// The arguments that creating a named pipe with some options passes to the
/// operating system.
#[derive(Debug, Clone, Copy, PartialEq, Eq, Structural)]
pub struct PipeArgs {
    pub open_mode: u32,
    pub pipe_mode: u32,
    pub max_instances: u32,
    pub out_buffer_size: u32,
    pub in_buffer_size: u32,
    pub default_timeout: u32,
}

/// The settings that a [CreatePipeOptions] holds.
pub struct PipeOptionsView {
    pub open_mode: u32,
    pub pipe_mode: u32,
    pub max_instances: u32,
    pub out_buffer_size: u32,
    pub in_buffer_size: u32,
    pub default_timeout: u32,
    pub custom_flags: u32,
}

/// A builder structure for construct a named pipe with named pipe-specific
/// options. This is required to use for named pipe servers who wants to modify
/// pipe-related options.
#[derive(Debug, Clone, Copy)]
pub struct CreatePipeOptions {
    open_mode: u32,
    pipe_mode: u32,
    max_instances: u32,
    out_buffer_size: u32,
    in_buffer_size: u32,
    default_timeout: u32,
    custom_flags: u32,
}

impl View for CreatePipeOptions {
    type V = PipeOptionsView;

    closed spec fn view(&self) -> PipeOptionsView {
        PipeOptionsView {
            open_mode: self.open_mode,
            pipe_mode: self.pipe_mode,
            max_instances: self.max_instances,
            out_buffer_size: self.out_buffer_size,
            in_buffer_size: self.in_buffer_size,
            default_timeout: self.default_timeout,
            custom_flags: self.custom_flags,
        }
    }
}

impl CreatePipeOptions {
    /// Creates a new named pipe builder with the default settings: a duplex,
    /// byte-mode pipe that rejects remote clients, with unlimited instances
    /// and buffers of 64 KiB.
    pub fn new() -> (r: CreatePipeOptions)
        ensures
            r@ == (PipeOptionsView {
                open_mode: PIPE_ACCESS_DUPLEX,
                pipe_mode: PIPE_TYPE_BYTE | PIPE_REJECT_REMOTE_CLIENTS,
                max_instances: PIPE_UNLIMITED_INSTANCES,
                out_buffer_size: DEFAULT_PIPE_BUFFER_SIZE,
                in_buffer_size: DEFAULT_PIPE_BUFFER_SIZE,
                default_timeout: 0,
                custom_flags: 0,
            }),
    {
        CreatePipeOptions {
            open_mode: PIPE_ACCESS_DUPLEX,
            pipe_mode: PIPE_TYPE_BYTE | PIPE_REJECT_REMOTE_CLIENTS,
            max_instances: PIPE_UNLIMITED_INSTANCES,
            out_buffer_size: DEFAULT_PIPE_BUFFER_SIZE,
            in_buffer_size: DEFAULT_PIPE_BUFFER_SIZE,
            default_timeout: 0,
            custom_flags: 0,
        }
    }

    /// The pipe mode.
    ///
    /// The default pipe mode is [PipeMode::Byte]. See [PipeMode] for
    /// documentation of what each mode means. Only the type bit of
    /// `dwPipeMode` changes: `PIPE_TYPE_MESSAGE` is set for [PipeMode::Message]
    /// and cleared for [PipeMode::Byte], whose `PIPE_TYPE_BYTE` is zero, so
    /// that the other flags, such as rejecting remote clients, stay as they
    /// were.
    pub fn pipe_mode(&mut self, pipe_mode: PipeMode) -> (r: &mut Self)
        ensures
            r@ == (PipeOptionsView {
                pipe_mode: with_flag(old(self)@.pipe_mode, PIPE_TYPE_MESSAGE, pipe_mode == PipeMode::Message),
                ..old(self)@
            }),
            *final(self) == *final(r),
    {
        let message = match pipe_mode {
            PipeMode::Byte => false,
            PipeMode::Message => true,
        };
        self.pipe_mode = set_flag(self.pipe_mode, PIPE_TYPE_MESSAGE, message);
        self
    }

    /// The flow of data in the pipe goes from client to server only.
    ///
    /// This corresponds to setting `PIPE_ACCESS_INBOUND`.
    pub fn access_inbound(&mut self, allowed: bool) -> (r: &mut Self)
        ensures
            r@ == (PipeOptionsView {
                open_mode: with_flag(old(self)@.open_mode, PIPE_ACCESS_INBOUND, allowed),
                ..old(self)@
            }),
            *final(self) == *final(r),
    {
        self.open_mode = set_flag(self.open_mode, PIPE_ACCESS_INBOUND, allowed);
        self
    }

    /// The flow of data in the pipe goes from server to client only.
    ///
    /// This corresponds to setting `PIPE_ACCESS_OUTBOUND`.
    pub fn access_outbound(&mut self, allowed: bool) -> (r: &mut Self)
        ensures
            r@ == (PipeOptionsView {
                open_mode: with_flag(old(self)@.open_mode, PIPE_ACCESS_OUTBOUND, allowed),
                ..old(self)@
            }),
            *final(self) == *final(r),
    {
        self.open_mode = set_flag(self.open_mode, PIPE_ACCESS_OUTBOUND, allowed);
        self
    }

    /// If you attempt to open multiple instances of a pipe with this flag,
    /// creation of the first instance succeeds, but creation of the next
    /// instance fails with `ERROR_ACCESS_DENIED`.
    ///
    /// This corresponds to setting `FILE_FLAG_FIRST_PIPE_INSTANCE`.
    pub fn first_pipe_instance(&mut self, first: bool) -> (r: &mut Self)
        ensures
            r@ == (PipeOptionsView {
                open_mode: with_flag(old(self)@.open_mode, FILE_FLAG_FIRST_PIPE_INSTANCE, first),
                ..old(self)@
            }),
            *final(self) == *final(r),
    {
        self.open_mode = set_flag(self.open_mode, FILE_FLAG_FIRST_PIPE_INSTANCE, first);
        self
    }

    /// Indicates whether this server can accept remote clients or not. This is
    /// enabled by default.
    ///
    /// This corresponds to setting `PIPE_REJECT_REMOTE_CLIENTS`.
    pub fn reject_remote_clients(&mut self, reject: bool) -> (r: &mut Self)
        ensures
            r@ == (PipeOptionsView {
                pipe_mode: with_flag(old(self)@.pipe_mode, PIPE_REJECT_REMOTE_CLIENTS, reject),
                ..old(self)@
            }),
            *final(self) == *final(r),
    {
        self.pipe_mode = set_flag(self.pipe_mode, PIPE_REJECT_REMOTE_CLIENTS, reject);
        self
    }

    /// The maximum number of instances that can be created for this pipe. The
    /// first instance of the pipe can specify this value; the same number must
    /// be specified for other instances of the pipe. Acceptable values are in
    /// the range 1 through 254. The default value is unlimited.
    ///
    /// More than 254 instances cannot be specified. If you do not wish to set
    /// an instance limit, leave it unspecified.
    pub fn max_instances(&mut self, instances: usize) -> (r: &mut Self)
        requires
            instances < 255,
        ensures
            r@ == (PipeOptionsView { max_instances: instances as u32, ..old(self)@ }),
            *final(self) == *final(r),
    {
        self.max_instances = instances as u32;
        self
    }

    /// The number of bytes to reserve for the output buffer.
    pub fn out_buffer_size(&mut self, buffer: u32) -> (r: &mut Self)
        ensures
            r@ == (PipeOptionsView { out_buffer_size: buffer, ..old(self)@ }),
            *final(self) == *final(r),
    {
        self.out_buffer_size = buffer;
        self
    }

    /// The number of bytes to reserve for the input buffer.
    pub fn in_buffer_size(&mut self, buffer: u32) -> (r: &mut Self)
        ensures
            r@ == (PipeOptionsView { in_buffer_size: buffer, ..old(self)@ }),
            *final(self) == *final(r),
    {
        self.in_buffer_size = buffer;
        self
    }

    /// Sets extra flags for the `dwOpenMode` argument of creating the named
    /// pipe to the specified value.
    pub fn custom_flags(&mut self, flags: u32) -> (r: &mut Self)
        ensures
            r@ == (PipeOptionsView { custom_flags: flags, ..old(self)@ }),
            *final(self) == *final(r),
    {
        self.custom_flags = flags;
        self
    }

    /// The arguments that creating a named pipe with these options passes to
    /// the operating system: the custom flags join the open mode.
    pub fn args(&self) -> (r: PipeArgs)
        ensures
            r == (PipeArgs {
                open_mode: self@.custom_flags | self@.open_mode,
                pipe_mode: self@.pipe_mode,
                max_instances: self@.max_instances,
                out_buffer_size: self@.out_buffer_size,
                in_buffer_size: self@.in_buffer_size,
                default_timeout: self@.default_timeout,
            }),
    {
        PipeArgs {
            open_mode: self.custom_flags | self.open_mode,
            pipe_mode: self.pipe_mode,
            max_instances: self.max_instances,
            out_buffer_size: self.out_buffer_size,
            in_buffer_size: self.in_buffer_size,
            default_timeout: self.default_timeout,
        }
    }
}

} // verus!
