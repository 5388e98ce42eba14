use dynamixel_xm::error::Error;
use dynamixel_xm::codec::Width;
use dynamixel_xm::register::{Access, ReadRequest, Register, RegisterTable};
use dynamixel_xm::xm::{
    present_position_speed_load_request, sync_read_present_position_speed_load, xm_table,
    ReadOnlyRegister, ReadWriteRegister, TELEMETRY_BLOCK_LEN,
};

fn block(current: u16, velocity: u32, position: u32) -> Vec<u8> {
    let mut b = Vec::new();
    b.extend_from_slice(&current.to_le_bytes());
    b.extend_from_slice(&velocity.to_le_bytes());
    b.extend_from_slice(&position.to_le_bytes());
    b
}

#[test]
fn sync_read_returns_tuples_in_request_order() {
    let ids = [1u8, 2, 3];
    let blocks = vec![
        block(10, 100, 2048),
        block(20, 200, 1024),
        block(0xfffe, 0xdead_beef, 4095),
    ];
    let out = sync_read_present_position_speed_load(&ids, Ok(blocks.clone())).unwrap();
    assert_eq!(out.len(), 3);
    assert_eq!(out, vec![(2048, 100, 10), (1024, 200, 20), (4095, 0xdead_beef, 0xfffe)]);
    for (t, b) in out.iter().zip(blocks.iter()) {
        assert_eq!(t.0, u32::from_le_bytes(b[6..10].try_into().unwrap()));
        assert_eq!(t.1, u32::from_le_bytes(b[2..6].try_into().unwrap()));
        assert_eq!(t.2, u16::from_le_bytes(b[0..2].try_into().unwrap()));
    }
}

#[test]
fn sync_read_decodes_raw_bytes() {
    let ids = [7u8];
    let raw = vec![vec![0x01, 0x02, 0x03, 0x04, 0x05, 0x06, 0x07, 0x08, 0x09, 0x0a]];
    let out = sync_read_present_position_speed_load(&ids, Ok(raw)).unwrap();
    assert_eq!(out, vec![(0x0a09_0807, 0x0605_0403, 0x0201)]);
}

#[test]
fn sync_read_short_block_fails_whole_batch() {
    let ids = [1u8, 2, 3];
    let mut short = block(1, 2, 3);
    short.pop();
    assert_eq!(short.len(), 9);
    let blocks = vec![block(1, 2, 3), short, block(4, 5, 6)];
    assert_eq!(sync_read_present_position_speed_load(&ids, Ok(blocks)), Err(Error::Format));
}

#[test]
fn sync_read_long_block_fails_whole_batch() {
    let ids = [1u8, 2];
    let mut long = block(1, 2, 3);
    long.push(0);
    let blocks = vec![long, block(4, 5, 6)];
    assert_eq!(sync_read_present_position_speed_load(&ids, Ok(blocks)), Err(Error::Format));
}

#[test]
fn sync_read_wrong_block_count_is_format_error() {
    let ids = [1u8, 2, 3];
    let blocks = vec![block(1, 2, 3), block(4, 5, 6)];
    assert_eq!(sync_read_present_position_speed_load(&ids, Ok(blocks)), Err(Error::Format));
}

#[test]
fn sync_read_passes_transport_error_through() {
    let ids = [1u8];
    let r = sync_read_present_position_speed_load(&ids, Err("timeout".to_string()));
    assert_eq!(r, Err(Error::Transport("timeout".to_string())));
}

#[test]
fn sync_read_keeps_duplicate_ids() {
    let ids = [5u8, 5];
    let blocks = vec![block(1, 2, 3), block(4, 5, 6)];
    let out = sync_read_present_position_speed_load(&ids, Ok(blocks)).unwrap();
    assert_eq!(out, vec![(3, 2, 1), (6, 5, 4)]);
}

#[test]
fn sync_read_of_no_ids_is_empty() {
    let out = sync_read_present_position_speed_load(&[], Ok(vec![])).unwrap();
    assert!(out.is_empty());
}

#[test]
fn sync_read_request_window() {
    let r = present_position_speed_load_request(&[3, 1, 3]);
    assert_eq!(r.ids, vec![3, 1, 3]);
    assert_eq!(r.address, 126);
    assert_eq!(r.length, 10);
    assert_eq!(TELEMETRY_BLOCK_LEN, 10);
}

#[test]
fn table_has_no_overlapping_registers() {
    let t = xm_table();
    assert_eq!(t.len(), 48);
    for i in 0..t.len() {
        for j in (i + 1)..t.len() {
            let a = t.get(i);
            let b = t.get(j);
            let a_end = a.address as usize + a.encoding.width.bytes();
            let b_end = b.address as usize + b.encoding.width.bytes();
            assert!(a_end <= b.address as usize || b_end <= a.address as usize, "{} overlaps {}", a.name, b.name);
        }
    }
}

#[test]
fn table_is_in_address_order() {
    let t = xm_table();
    for i in 1..t.len() {
        assert!(t.get(i - 1).address < t.get(i).address);
    }
    assert_eq!(t.get(0).name, "model_number");
    assert_eq!(t.get(t.len() - 1).name, "present_temperature");
}

#[test]
fn register_descriptors() {
    let p = ReadOnlyRegister::PresentPosition.register();
    assert_eq!(p.name, "present_position");
    assert_eq!(p.address, 132);
    assert_eq!(p.encoding.width.bytes(), 4);
    assert!(!p.encoding.signed);
    assert_eq!(p.access, Access::ReadOnly);
    let h = ReadWriteRegister::HomingOffset.register();
    assert_eq!(h.address, 20);
    assert!(h.encoding.signed);
    assert_eq!(h.access, Access::ReadWrite);
    assert_eq!(ReadWriteRegister::GoalPosition.register().address, 116);
    assert_eq!(ReadWriteRegister::TorqueEnable.register().address, 64);
}

#[test]
fn read_request_covers_register() {
    assert_eq!(
        ReadOnlyRegister::PresentCurrent.read_request(4),
        ReadRequest { id: 4, address: 126, length: 2 }
    );
    assert_eq!(
        ReadWriteRegister::Led.read_request(254),
        ReadRequest { id: 254, address: 65, length: 1 }
    );
}

#[test]
fn read_reply_decodes_value() {
    let r = ReadOnlyRegister::PresentPosition.read_reply(Ok(vec![0x00, 0x08, 0, 0]));
    assert_eq!(r, Ok(2048));
    let r = ReadWriteRegister::HomingOffset.read_reply(Ok(vec![0xff, 0xff, 0xff, 0xff]));
    assert_eq!(r, Ok(-1));
}

#[test]
fn read_reply_wrong_length_is_format_error() {
    let r = ReadOnlyRegister::PresentPosition.read_reply(Ok(vec![0x00, 0x08]));
    assert_eq!(r, Err(Error::Format));
}

#[test]
fn read_reply_passes_transport_error_through() {
    let r = ReadOnlyRegister::ModelNumber.read_reply(Err("checksum".to_string()));
    assert_eq!(r, Err(Error::Transport("checksum".to_string())));
}

#[test]
fn write_request_encodes_value() {
    let w = ReadWriteRegister::GoalPosition.write_request(1, 2048).unwrap();
    assert_eq!(w.id, 1);
    assert_eq!(w.address, 116);
    assert_eq!(w.data, vec![0x00, 0x08, 0x00, 0x00]);
    let w = ReadWriteRegister::HomingOffset.write_request(2, -2).unwrap();
    assert_eq!(w.data, vec![0xfe, 0xff, 0xff, 0xff]);
    let w = ReadWriteRegister::TorqueEnable.write_request(3, 1).unwrap();
    assert_eq!((w.address, w.data), (64, vec![1]));
}

#[test]
fn write_request_refuses_value_that_does_not_fit() {
    assert_eq!(ReadWriteRegister::TorqueEnable.write_request(1, 256), Err(Error::Format));
    assert_eq!(ReadWriteRegister::GoalPosition.write_request(1, -1), Err(Error::Format));
    assert_eq!(ReadWriteRegister::GoalPwm.write_request(1, 70000), Err(Error::Format));
}

#[test]
fn table_push_keeps_address_order() {
    let mut t = RegisterTable::new();
    assert_eq!(t.len(), 0);
    t.push(Register::new("a", 0, Width::Two, false, Access::ReadOnly));
    t.push(Register::new("b", 2, Width::Four, true, Access::ReadWrite));
    t.push(Register::new("c", 10, Width::One, false, Access::ReadWrite));
    assert_eq!(t.len(), 3);
    assert_eq!(t.get(0).name, "a");
    assert_eq!(t.get(1).address, 2);
    assert!(t.get(1).encoding.signed);
    assert_eq!(t.get(2).name, "c");
}

#[test]
fn table_holds_every_declared_register() {
    let t = xm_table();
    let names: Vec<&str> = (0..t.len()).map(|i| t.get(i).name).collect();
    for r in [ReadOnlyRegister::ModelNumber, ReadOnlyRegister::PresentTemperature, ReadOnlyRegister::PresentCurrent] {
        assert!(names.contains(&r.register().name));
    }
    for r in [ReadWriteRegister::Id, ReadWriteRegister::HomingOffset, ReadWriteRegister::GoalPosition] {
        assert!(names.contains(&r.register().name));
    }
}
