use ysos::mbr::MbrPartition;

fn sample() -> [u8; 16] {
    [
        0x80, 0x01, 0x01, 0x00, 0x0b, 0xfe, 0xbf, 0xfc, 0x3f, 0x00, 0x00, 0x00, 0x7e, 0x86, 0xbb,
        0x00,
    ]
}

#[test]
fn partition_test() {
    let data = sample();

    let meta = MbrPartition::parse(&data);

    println!("{:#?}", meta.describe());

    assert!(meta.is_active());
    assert_eq!(meta.begin_head(), 1);
    assert_eq!(meta.begin_sector(), 1);
    assert_eq!(meta.begin_cylinder(), 0);
    assert_eq!(meta.partition_type(), 0x0b);
    assert_eq!(meta.end_head(), 254);
    assert_eq!(meta.end_sector(), 63);
    assert_eq!(meta.end_cylinder(), 764);
    assert_eq!(meta.begin_lba(), 63);
    assert_eq!(meta.total_lba(), 12289662);
}

#[test]
fn inactive_partition_has_status_zero() {
    let mut data = sample();
    data[0] = 0x00;
    let meta = MbrPartition::parse(&data);
    assert!(!meta.is_active());
    assert_eq!(meta.status(), 0);
}

#[test]
fn status_with_bit_seven_set_is_active() {
    let mut data = sample();
    data[0] = 0x81;
    assert!(MbrPartition::parse(&data).is_active());
    data[0] = 0x7f;
    assert!(!MbrPartition::parse(&data).is_active());
}

#[test]
fn chs_fields_take_high_sector_bits_for_cylinder() {
    let mut data = [0u8; 16];
    // sector byte 0xff: sector 63, cylinder bits 0b11; cylinder byte 0xff
    data[2] = 0xff;
    data[3] = 0xff;
    data[6] = 0x41;
    data[7] = 0x02;
    let meta = MbrPartition::parse(&data);
    assert_eq!(meta.begin_sector(), 63);
    assert_eq!(meta.begin_cylinder(), 1023);
    assert_eq!(meta.end_sector(), 1);
    assert_eq!(meta.end_cylinder(), 0x102);
}

#[test]
fn lba_fields_are_little_endian() {
    let mut data = [0u8; 16];
    data[8..12].copy_from_slice(&[0x78, 0x56, 0x34, 0x12]);
    data[12..16].copy_from_slice(&[0xff, 0xff, 0xff, 0xff]);
    let meta = MbrPartition::parse(&data);
    assert_eq!(meta.begin_lba(), 0x1234_5678);
    assert_eq!(meta.total_lba(), u32::MAX);
}

#[test]
fn default_partition_is_all_zero() {
    let meta = MbrPartition::default();
    assert_eq!(meta.status(), 0);
    assert!(!meta.is_active());
    assert_eq!(meta.begin_lba(), 0);
    assert_eq!(meta.total_lba(), 0);
}

#[test]
fn describe_lists_fields_in_hex() {
    let meta = MbrPartition::parse(&sample());
    let fields = meta.describe();
    let expected = [
        ("Active", "true"),
        ("Begin Head", "0x01"),
        ("Begin Sector", "0x0001"),
        ("Begin Cylinder", "0x0000"),
        ("Partition Type", "0x0b"),
        ("End Head", "0xfe"),
        ("End Sector", "0x003f"),
        ("End Cylinder", "0x02fc"),
        ("Begin LBA", "0x0000003f"),
        ("Total LBA", "0x00bb867e"),
    ];
    assert_eq!(fields.len(), expected.len());
    for (field, (name, value)) in fields.iter().zip(expected.iter()) {
        assert_eq!(field.0, *name);
        assert_eq!(field.1, *value);
    }
}
