use iocp::pipe::{
    set_flag, FILE_FLAG_FIRST_PIPE_INSTANCE, PIPE_ACCESS_DUPLEX, PIPE_ACCESS_INBOUND,
    PIPE_ACCESS_OUTBOUND, PIPE_REJECT_REMOTE_CLIENTS, PIPE_TYPE_BYTE, PIPE_TYPE_MESSAGE,
    PIPE_UNLIMITED_INSTANCES,
};
use iocp::{CreatePipeOptions, PipeMode};

#[test]
fn default_pipe_options() {
    let args = CreatePipeOptions::new().args();
    assert_eq!(args.open_mode, PIPE_ACCESS_DUPLEX);
    assert_eq!(args.pipe_mode, PIPE_TYPE_BYTE | PIPE_REJECT_REMOTE_CLIENTS);
    assert_eq!(args.max_instances, PIPE_UNLIMITED_INSTANCES);
    assert_eq!(args.out_buffer_size, 65536);
    assert_eq!(args.in_buffer_size, 65536);
    assert_eq!(args.default_timeout, 0);
}

#[test]
fn access_inbound_false_leaves_outbound() {
    let args = CreatePipeOptions::new().access_inbound(false).args();
    assert_eq!(args.open_mode, PIPE_ACCESS_OUTBOUND);
}

#[test]
fn access_outbound_false_leaves_inbound() {
    let args = CreatePipeOptions::new().access_outbound(false).args();
    assert_eq!(args.open_mode, PIPE_ACCESS_INBOUND);
}

#[test]
fn flags_set_then_cleared() {
    let mut options = CreatePipeOptions::new();
    options.first_pipe_instance(true);
    assert_eq!(options.args().open_mode, PIPE_ACCESS_DUPLEX | FILE_FLAG_FIRST_PIPE_INSTANCE);
    options.first_pipe_instance(false);
    assert_eq!(options.args().open_mode, PIPE_ACCESS_DUPLEX);
}

#[test]
fn custom_flags_join_open_mode() {
    let args = CreatePipeOptions::new().custom_flags(iocp::flags::FILE_FLAG_OVERLAPPED).args();
    assert_eq!(args.open_mode, 0x4000_0003);
}

#[test]
fn pipe_mode_sets_only_the_type_bit() {
    let args = CreatePipeOptions::new().pipe_mode(PipeMode::Message).args();
    assert_eq!(args.pipe_mode, PIPE_TYPE_MESSAGE | PIPE_REJECT_REMOTE_CLIENTS);
    let args = CreatePipeOptions::new().pipe_mode(PipeMode::Message).pipe_mode(PipeMode::Byte).args();
    assert_eq!(args.pipe_mode, PIPE_TYPE_BYTE | PIPE_REJECT_REMOTE_CLIENTS);
    let args = CreatePipeOptions::new().reject_remote_clients(false).pipe_mode(PipeMode::Message).args();
    assert_eq!(args.pipe_mode, PIPE_TYPE_MESSAGE);
}

#[test]
fn reject_remote_clients_false() {
    let args = CreatePipeOptions::new().reject_remote_clients(false).args();
    assert_eq!(args.pipe_mode, PIPE_TYPE_BYTE);
}

#[test]
fn sizes_and_instances() {
    let args = CreatePipeOptions::new().max_instances(254).out_buffer_size(1).in_buffer_size(2).args();
    assert_eq!(args.max_instances, 254);
    assert_eq!(args.out_buffer_size, 1);
    assert_eq!(args.in_buffer_size, 2);
}

#[test]
fn set_flag_examples() {
    assert_eq!(set_flag(0b1010, 0b0100, true), 0b1110);
    assert_eq!(set_flag(0b1110, 0b0100, false), 0b1010);
    assert_eq!(set_flag(0b1010, 0b0100, false), 0b1010);
}
