use firmware_update::io::Writer;

#[test]
fn uart_is_set_up_before_the_first_write_only() {
    let mut writer = Writer::new();
    assert!(writer.begin_write());
    assert!(!writer.begin_write());
    assert!(!writer.begin_write());
}

#[test]
fn each_writer_sets_up_its_own_uart() {
    let mut first = Writer::new();
    let mut second = Writer::new();
    assert!(first.begin_write());
    assert!(second.begin_write());
    assert!(!first.begin_write());
    assert!(!second.begin_write());
}
