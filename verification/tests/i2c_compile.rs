use hal_bridge::i2c::compile;
use hal_bridge::i2c::execute_outcome;
use hal_bridge::i2c::Message;
use hal_bridge::i2c::Operation;
use hal_bridge::i2c::MSG_READ;
use hal_bridge::i2c::MSG_RESTART;
use hal_bridge::i2c::MSG_STOP;
use hal_bridge::errors::ErrorKind;

#[test]
fn compile_empty_yields_empty() {
    let ops: Vec<Operation> = Vec::new();
    let msgs = compile(&ops);
    assert_eq!(msgs, Vec::<Message>::new());
}

#[test]
fn compile_single_write_has_stop_only() {
    let ops = vec![Operation::Write(vec![0x0f])];
    let msgs = compile(&ops);
    assert_eq!(msgs.len(), 1);
    assert_eq!(msgs[0].flags, MSG_STOP);
    assert_eq!(msgs[0].len, 1);
}

#[test]
fn compile_single_read_has_read_and_stop() {
    let ops = vec![Operation::Read(vec![0u8; 3])];
    let msgs = compile(&ops);
    assert_eq!(msgs.len(), 1);
    assert_eq!(msgs[0].flags, MSG_READ | MSG_STOP);
    assert_eq!(msgs[0].len, 3);
}

#[test]
fn compile_write_then_read_restarts_on_the_read() {
    let ops = vec![Operation::Write(vec![0x0f]), Operation::Read(vec![0u8])];
    let msgs = compile(&ops);
    assert_eq!(msgs.len(), 2);
    assert_eq!(msgs[0].flags, 0);
    assert_eq!(msgs[1].flags, MSG_READ | MSG_RESTART | MSG_STOP);
}

#[test]
fn compile_same_direction_has_no_restart() {
    let ops = vec![Operation::Read(vec![0u8]), Operation::Read(vec![0u8; 2])];
    let msgs = compile(&ops);
    assert_eq!(msgs.len(), 2);
    assert_eq!(msgs[0].flags, MSG_READ);
    assert_eq!(msgs[1].flags, MSG_READ | MSG_STOP);
}

#[test]
fn compile_sets_stop_exactly_once_on_final_message() {
    let ops = vec![
        Operation::Write(vec![1, 2]),
        Operation::Write(vec![3]),
        Operation::Read(vec![0u8; 4]),
        Operation::Read(vec![0u8]),
        Operation::Write(vec![9]),
    ];
    let msgs = compile(&ops);
    assert_eq!(msgs.len(), 5);
    let stops: Vec<usize> = msgs
        .iter()
        .enumerate()
        .filter(|(_, m)| m.flags & MSG_STOP != 0)
        .map(|(i, _)| i)
        .collect();
    assert_eq!(stops, vec![4]);
}

#[test]
fn compile_restart_tracks_every_direction_change() {
    let ops = vec![
        Operation::Write(vec![1]),
        Operation::Read(vec![0u8]),
        Operation::Read(vec![0u8]),
        Operation::Write(vec![2]),
        Operation::Read(vec![0u8]),
    ];
    let msgs = compile(&ops);
    let is_read = [false, true, true, false, true];
    assert_eq!(msgs[0].flags & MSG_RESTART, 0);
    for i in 1..5 {
        let restarted = msgs[i].flags & MSG_RESTART != 0;
        assert_eq!(restarted, is_read[i] != is_read[i - 1], "message {}", i);
    }
}

#[test]
fn compile_direction_bit_matches_each_operation() {
    let ops = vec![
        Operation::Read(vec![0u8; 2]),
        Operation::Write(vec![7, 8, 9]),
        Operation::Read(vec![0u8]),
    ];
    let msgs = compile(&ops);
    assert_ne!(msgs[0].flags & MSG_READ, 0);
    assert_eq!(msgs[1].flags & MSG_READ, 0);
    assert_ne!(msgs[2].flags & MSG_READ, 0);
}

#[test]
fn compile_lengths_match_buffers() {
    let ops = vec![
        Operation::Write(vec![1, 2, 3]),
        Operation::Read(Vec::new()),
        Operation::Read(vec![0u8; 7]),
    ];
    let msgs = compile(&ops);
    let lens: Vec<u32> = msgs.iter().map(|m| m.len).collect();
    assert_eq!(lens, vec![3, 0, 7]);
}

#[test]
fn execute_outcome_success_on_zero_or_positive_status() {
    assert!(execute_outcome(0).is_ok());
    assert!(execute_outcome(3).is_ok());
}

#[test]
fn execute_outcome_maps_negative_status_to_typed_error() {
    let err = execute_outcome(-5).unwrap_err();
    assert_eq!(err.code, 5);
    assert_eq!(err.kind(), ErrorKind::Other);
}
