use ws63_rf::bytes::{copy_prefix, prefix_vec};
use ws63_rf::diag_text::{
    frw_queue_corruption_line, hex32, hex8, hex_bytes, irq_event_line, netdev_lookup_line,
    netdev_register_line, push_hex_field, rf_ops_line, trace_message_line,
    trace_bad_free_line, trace_nv_line, trace_stage_line, trace_task_line, trace_timer_line,
    trace_wait_line, wifi_event_line,
};
use ws63_rf::error::{check, WifiError, ERRCODE_SUCC};
use ws63_rf::interrupt::ExternalInterrupt;
use ws63_rf::pmp::{
    memattr_position, memattr_with, pmp_plan, pmpaddr_value, pmpcfg_register, pmpcfg_with,
    tor_config_steps, PmpEntry, ROX, RW, RWX,
};

#[test]
fn hex_rendering() {
    assert_eq!(&hex8(0xdead_beef), b"deadbeef");
    assert_eq!(&hex32(0x1a), b"0x0000001a");
    assert_eq!(hex_bytes(&[0x00, 0xab, 0x7f]), b"00ab7f".to_vec());
    let mut line = b"x".to_vec();
    push_hex_field(&mut line, " v=0x", 255);
    assert_eq!(line, b"x v=0x000000ff".to_vec());
}

#[test]
fn trace_lines() {
    assert_eq!(trace_stage_line(b"wifi_init", 0), b"RFDBG_STAGE wifi_init=0x00000000\r\n".to_vec());
    assert_eq!(
        trace_nv_line(5, 6, 0, 1),
        b"RFDBG_NV key=0x00000005 max=0x00000006 len=0x00000000 ret=0x00000001\r\n".to_vec()
    );
    assert_eq!(
        trace_bad_free_line(0x10, 0x20, 0x30, 0x40),
        b"RFDBG_BAD_FREE ptr=0x00000010 total=0x00000020 magic=0x00000030 ra=0x00000040\r\n".to_vec()
    );
    assert_eq!(
        trace_task_line(b"create", 1, 2, 3, 4),
        b"RFDBG_TASK create slot=0x00000001 entry=0x00000002 arg=0x00000003 stack=0x00000004\r\n".to_vec()
    );
    assert_eq!(
        trace_wait_line(b"block", 1, 2, 3, 4, 5),
        b"RFDBG_WAIT block task=0x00000001 wait=0x00000002 timeout=0x00000003 ret=0x00000004 ra=0x00000005\r\n".to_vec()
    );
    assert_eq!(
        trace_timer_line(b"arm", 1, 2, 3, 4),
        b"RFDBG_TIMER arm timer=0x00000001 handler=0x00000002 data=0x00000003 interval=0x00000004\r\n".to_vec()
    );
    assert_eq!(irq_event_line(b"enable", 44), b"RFDBG_IRQ enable irq=0x0000002c\r\n".to_vec());
    assert_eq!(
        frw_queue_corruption_line(1, 2, 3),
        b"RFDBG_FRW_QUEUE_CORRUPT irq=0x00000001 before=0x00000002 after=0x00000003\r\n".to_vec()
    );
}

#[test]
fn wifi_event_line_decodes_the_packed_word() {
    let press: u32 = (0x12 << 24) | (0x1 << 16) | (0x2 << 6);
    let line = wifi_event_line(press, &[7, 8]);
    let expected = format!(
        "[wifi:W] file=0x{:08x} line=0x{:08x} press=0x{:08x} 0x00000007 0x00000008\r\n",
        ((press >> 6) & 0x3fc) | ((press >> 16) & 0x3),
        ((press >> 24) & 0xff) | ((press >> 10) & 0x3f00),
        press
    );
    assert_eq!(line, expected.into_bytes());
    assert!(wifi_event_line(0, &[]).starts_with(b"[wifi:?] "));
}

#[test]
fn errcodes_map_to_results() {
    assert_eq!(check(ERRCODE_SUCC), Ok(()));
    assert_eq!(check(0x8000_0001), Err(WifiError(0x8000_0001)));
}

#[test]
fn interrupt_lines_round_trip() {
    assert_eq!(ExternalInterrupt::BT_INT0.number(), 26);
    assert_eq!(ExternalInterrupt::UART_0.number(), 39);
    assert_eq!(ExternalInterrupt::from_number(39), Some(ExternalInterrupt::UART_0));
    assert_eq!(ExternalInterrupt::from_number(45), None);
    assert_eq!(ExternalInterrupt::from_number(0), None);
    for n in 0..200u16 {
        if let Some(irq) = ExternalInterrupt::from_number(n) {
            assert_eq!(irq.number(), n);
        }
    }
}

#[test]
fn byte_prefix_helpers() {
    let mut dst = [0u8; 4];
    copy_prefix(&mut dst, &[1, 2, 3], 2);
    assert_eq!(dst, [1, 2, 0, 0]);
    assert_eq!(prefix_vec(&[5, 6, 7], 2), vec![5, 6]);
}

#[test]
fn pmp_plan_programs_the_application_entries() {
    let plan = pmp_plan(0x0010_0000, 0x0010_203f, 0x0020_0000, 0x1000);
    assert_eq!(plan.len(), 9);
    assert_eq!(plan[0], PmpEntry { index: 0, end: 0x0018_0000, config: ROX, attr: 3 });
    assert_eq!(plan[1].config, RW);
    assert_eq!(plan[2], PmpEntry { index: 5, end: 0x0010_0000, config: RWX, attr: 7 });
    assert_eq!(plan[3].end, 0x0010_2020);
    assert_eq!(plan[5].end, 0x0020_1000);
    assert_eq!(plan[8].index, 11);
}

#[test]
fn pmp_register_fields() {
    assert_eq!(pmpaddr_value(0x0018_0000), 0x0006_0000);
    assert_eq!(tor_config_steps(RWX), (0x07, RWX));
    assert_eq!(tor_config_steps(ROX), (0x05, ROX));
    assert_eq!(pmpcfg_register(5), Some(1));
    assert_eq!(pmpcfg_register(12), None);
    assert_eq!(pmpcfg_with(0x1122_3344, 1, 0xaa), 0x1122_aa44);
    assert_eq!(pmpcfg_with(0x1122_3344, 7, 0x8f), 0x8f22_3344);
    assert_eq!(memattr_position(5), (0, 20));
    assert_eq!(memattr_position(11), (1, 12));
    assert_eq!(memattr_with(0xffff_ffff, 12, 3), 0xffff_3fff);
}

#[test]
fn message_ops_and_netdev_lines() {
    assert_eq!(
        trace_message_line(b"post", 0x12, 8, 0),
        b"RFDBG_MSG post id=0x00000012 len=0x00000008 ret=0x00000000\r\n".to_vec()
    );
    assert_eq!(rf_ops_line(3, 0x40), b"RFDBG_OPS cfg=0x00000003 ra=0x00000040\r\n".to_vec());
    assert_eq!(
        netdev_lookup_line(Some(b"wlan0\0junk"), 0x1000),
        b"RFDBG_NET lookup=wlan0 result=0x00001000\r\n".to_vec()
    );
    assert_eq!(netdev_lookup_line(None, 0), b"RFDBG_NET lookup=<null> result=0x00000000\r\n".to_vec());
    let long = [b'a'; 40];
    let line = netdev_lookup_line(Some(&long), 0);
    assert_eq!(&line[17..49], &[b'a'; 32]);
    assert_eq!(&line[49..52], b" re");
    assert_eq!(
        netdev_register_line(0x2000, 1),
        b"RFDBG_NET register=0x00002000 ret=0x00000001\r\n".to_vec()
    );
}
