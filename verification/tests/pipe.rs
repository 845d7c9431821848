use gpu_backend::pipe::{
    decode_u64s, default_cl_cts_version, printf_payload, printf_seed, RWFlags, ResourceMapType,
    ResourceTemplate, ResourceType, PRINTF_CURSOR_START,
};

#[test]
fn map_flags() {
    assert_eq!(RWFlags::RD.map_flags(), 1);
    assert_eq!(RWFlags::WR.map_flags(), 2);
    assert_eq!(RWFlags::RW.map_flags(), 3);
    assert_eq!(ResourceMapType::Normal.map_flags(), 0);
    assert_eq!(ResourceMapType::Async.map_flags(), 1 << 10);
    assert_eq!(ResourceMapType::Coherent.map_flags(), (1 << 14) | (1 << 13) | (1 << 10));
}

#[test]
fn resource_templates() {
    let mut t = ResourceTemplate { usage: 0, flags: 0x100, bind: 0x80 };
    ResourceType::Normal.apply(&mut t);
    assert_eq!(t, ResourceTemplate { usage: 0, flags: 0x100, bind: 0x80 });
    ResourceType::Staging.apply(&mut t);
    assert_eq!(t, ResourceTemplate { usage: 4, flags: 0x103, bind: 0x80 | (1 << 21) });
}

#[test]
fn values_reported_as_bytes() {
    assert_eq!(decode_u64s(&[]), Vec::<u64>::new());
    assert_eq!(decode_u64s(&[1, 2, 3]), Vec::<u64>::new());
    let mut bytes = 0x0102_0304_0506_0708u64.to_le_bytes().to_vec();
    bytes.extend_from_slice(&u64::MAX.to_le_bytes());
    bytes.push(9);
    assert_eq!(decode_u64s(&bytes), vec![0x0102_0304_0506_0708, u64::MAX]);
}

#[test]
fn printf_buffer() {
    assert_eq!(PRINTF_CURSOR_START, 4);
    assert_eq!(printf_seed(), [4, 0, 0, 0]);
    assert_eq!(printf_payload(&printf_seed()), Some(vec![]));
    assert_eq!(printf_payload(&[4, 0, 0, 0, 1, 2, 3]), Some(vec![]));
    assert_eq!(printf_payload(&[6, 0, 0, 0, 1, 2, 3]), Some(vec![1, 2]));
    assert_eq!(printf_payload(&[7, 0, 0, 0, 1, 2, 3]), Some(vec![1, 2, 3]));
    // a cursor past the buffer, before its own end, or missing
    assert_eq!(printf_payload(&[8, 0, 0, 0, 1, 2, 3]), None);
    assert_eq!(printf_payload(&[3, 0, 0, 0, 1, 2, 3]), None);
    assert_eq!(printf_payload(&[0, 1, 0, 0, 1, 2, 3]), None);
    assert_eq!(printf_payload(&[4, 0, 0]), None);
    assert_eq!(default_cl_cts_version(), "v0000-01-01-00");
}
