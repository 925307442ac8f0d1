use gt911_touch::gt911::{
    clear_point_info_command, point_record_read_command, poll_followup_commands,
    poll_status_command, product_id_matches, product_id_read_command, BusCommand,
};
use gt911_touch::registers::{
    decode_reg_addr, encode_reg_addr, reg_clear_frame, reg_select_frame, REG_POINT_1,
    REG_POINT_INFO, REG_PRODUCT_ID,
};

fn is_clear_command(cmd: &BusCommand) -> bool {
    match cmd {
        BusCommand::Write { tx } => tx.as_slice() == [0x81, 0x4E, 0x00],
        _ => false,
    }
}

#[test]
fn register_addresses_split_big_endian() {
    assert_eq!(encode_reg_addr(REG_PRODUCT_ID), [0x81, 0x40]);
    assert_eq!(encode_reg_addr(REG_POINT_INFO), [0x81, 0x4E]);
    assert_eq!(encode_reg_addr(REG_POINT_1), [0x81, 0x4F]);
}

#[test]
fn register_address_round_trip() {
    for reg in [REG_PRODUCT_ID, REG_POINT_INFO, REG_POINT_1, 0x0000, 0x00FF, 0xFFFF] {
        let pair = encode_reg_addr(reg);
        assert_eq!(decode_reg_addr(pair[0], pair[1]), reg);
    }
}

#[test]
fn select_and_clear_frames() {
    assert_eq!(reg_select_frame(REG_POINT_INFO), vec![0x81, 0x4E]);
    assert_eq!(reg_clear_frame(REG_POINT_INFO), vec![0x81, 0x4E, 0x00]);
}

#[test]
fn product_id_command_reads_four_bytes() {
    match product_id_read_command() {
        BusCommand::WriteRead { tx, rx_len } => {
            assert_eq!(tx, vec![0x81, 0x40]);
            assert_eq!(rx_len, 4);
        }
        _ => panic!("expected a combined write-then-read transaction"),
    }
}

#[test]
fn poll_status_command_reads_one_byte() {
    match poll_status_command() {
        BusCommand::WriteRead { tx, rx_len } => {
            assert_eq!(tx, vec![0x81, 0x4E]);
            assert_eq!(rx_len, 1);
        }
        _ => panic!("expected a combined write-then-read transaction"),
    }
}

#[test]
fn clear_command_writes_zero_byte() {
    assert!(is_clear_command(&clear_point_info_command()));
}

#[test]
fn point_record_command_reads_seven_bytes() {
    match point_record_read_command() {
        BusCommand::WriteRead { tx, rx_len } => {
            assert_eq!(tx, vec![0x81, 0x4F]);
            assert_eq!(rx_len, 7);
        }
        _ => panic!("expected a combined write-then-read transaction"),
    }
}

#[test]
fn every_poll_branch_clears_exactly_once() {
    // Buffer ready (whatever the touch count), not ready: one clear each.
    for status in [0x81u8, 0x83, 0x80, 0x00, 0x01, 0x07] {
        let cmds = poll_followup_commands(status);
        let clears = cmds.iter().filter(|c| is_clear_command(c)).count();
        assert_eq!(clears, 1);
        // The acknowledgment comes first.
        assert!(is_clear_command(&cmds[0]));
        if status & 0x80 != 0 {
            assert_eq!(cmds.len(), 2);
            match &cmds[1] {
                BusCommand::WriteRead { tx, rx_len } => {
                    assert_eq!(tx, &vec![0x81, 0x4F]);
                    assert_eq!(*rx_len, 7);
                }
                _ => panic!("expected the point-record read"),
            }
        } else {
            assert_eq!(cmds.len(), 1);
        }
    }
}

#[test]
fn product_id_911a_matches_family() {
    assert!(product_id_matches(&[b'9', b'1', b'1', b'A']));
}

#[test]
fn product_id_zeros_is_a_mismatch() {
    assert!(!product_id_matches(&[b'0', b'0', b'0', b'0']));
}

#[test]
fn product_id_trailing_911_matches_family() {
    assert!(product_id_matches(&[b'A', b'9', b'1', b'1']));
}
