use mshv_bindings::buffer::Buffer;
use mshv_bindings::vp_state::{
    get_vp_state_comp_start_offset, initialize_comp_sizes, AllVpStateComponents,
    MSHV_VP_STATE_COUNT, VP_STATE_COMPONENTS_BUFFER_SIZE,
};
use mshv_bindings::{RegsError, HV_PAGE_SIZE};

#[test]
fn test_all_vp_state_components_copy_to_buffer() {
    let mut states: AllVpStateComponents = AllVpStateComponents::default();
    let mut buffer = Buffer::new(HV_PAGE_SIZE, HV_PAGE_SIZE).unwrap();

    for i in 0..VP_STATE_COMPONENTS_BUFFER_SIZE {
        states.buffer[i] = 0xB9;
    }

    //test copy to buffer
    for i in 0..MSHV_VP_STATE_COUNT {
        let len = initialize_comp_sizes()[i];
        let start = get_vp_state_comp_start_offset(i);
        let end = start + len;
        states.copy_to_or_from_buffer(i, &mut buffer, true);
        let buf_arr = &buffer.data[0..len];
        assert!(states.buffer[start..end].iter().zip(buf_arr).all(|(a, b)| a == b));
    }
}

#[test]
fn test_all_vp_state_components_copy_from_buffer() {
    let mut states: AllVpStateComponents = AllVpStateComponents::default();
    let mut buffer = Buffer::new(HV_PAGE_SIZE, HV_PAGE_SIZE).unwrap();
    let mut copy_buffer = Buffer::new(HV_PAGE_SIZE, HV_PAGE_SIZE).unwrap();

    for itm in buffer.data.iter_mut().take(HV_PAGE_SIZE) {
        *itm = 0xA5;
    }

    copy_buffer.data.copy_from_slice(&buffer.data[0..HV_PAGE_SIZE]);

    //test copy to buffer
    for i in 0..MSHV_VP_STATE_COUNT {
        let len = initialize_comp_sizes()[i];
        let start = get_vp_state_comp_start_offset(i);
        let end = start + len;

        states.copy_to_or_from_buffer(i, &mut copy_buffer, false);
        let buf_arr = &buffer.data[0..len];
        assert!(states.buffer[start..end].iter().zip(buf_arr).all(|(a, b)| a == b));
    }
}

#[test]
fn test_vp_state_layout() {
    assert_eq!(VP_STATE_COMPONENTS_BUFFER_SIZE, 13512);
    assert_eq!(initialize_comp_sizes(), [1024, 4096, 4096, 4096, 200]);
    assert_eq!(get_vp_state_comp_start_offset(0), 0);
    assert_eq!(get_vp_state_comp_start_offset(1), 1024);
    assert_eq!(get_vp_state_comp_start_offset(2), 5120);
    assert_eq!(get_vp_state_comp_start_offset(3), 9216);
    assert_eq!(get_vp_state_comp_start_offset(4), 13312);
    assert_eq!(get_vp_state_comp_start_offset(5), 13512);
    let states = AllVpStateComponents::default();
    assert_eq!(states.buffer.len(), 13512);
}

#[test]
fn test_component_copy_round_trip() {
    // a directory whose bytes encode their own offsets
    let mut src = AllVpStateComponents::default();
    for i in 0..VP_STATE_COMPONENTS_BUFFER_SIZE {
        src.buffer[i] = (i % 251) as u8;
    }
    for index in 0..MSHV_VP_STATE_COUNT {
        let len = initialize_comp_sizes()[index];
        let start = get_vp_state_comp_start_offset(index);
        let mut transfer = Buffer::new(HV_PAGE_SIZE, HV_PAGE_SIZE).unwrap();
        src.copy_to_or_from_buffer(index, &mut transfer, true);

        let mut dst = AllVpStateComponents::default();
        dst.copy_to_or_from_buffer(index, &mut transfer, false);
        assert_eq!(&dst.buffer[start..start + len], &src.buffer[start..start + len]);
        // bytes outside the copied component stay zero in the fresh directory
        if start > 0 {
            assert_eq!(dst.buffer[start - 1], 0);
        }
        if start + len < VP_STATE_COMPONENTS_BUFFER_SIZE {
            assert_eq!(dst.buffer[start + len], 0);
        }
    }
}

#[test]
fn test_copy_rejects_small_buffer() {
    let mut states = AllVpStateComponents::default();
    for i in 0..VP_STATE_COMPONENTS_BUFFER_SIZE {
        states.buffer[i] = 0x5A;
    }
    let mut small = Buffer::new(100, 1).unwrap();
    let before = states.clone();
    let r = states.try_copy_to_or_from_buffer(0, &mut small, true);
    assert_eq!(r.unwrap_err(), RegsError::InvalidBufferLength);
    // rejected before any byte was copied
    assert!(small.data.iter().all(|b| *b == 0));
    assert_eq!(states, before);

    let r = states.try_copy_to_or_from_buffer(0, &mut small, false);
    assert_eq!(r.unwrap_err(), RegsError::InvalidBufferLength);
    assert_eq!(states, before);
}

#[test]
fn test_try_copy_accepts_adequate_buffer() {
    let mut states = AllVpStateComponents::default();
    for i in 0..VP_STATE_COMPONENTS_BUFFER_SIZE {
        states.buffer[i] = 0x7E;
    }
    let mut buffer = Buffer::new(HV_PAGE_SIZE, HV_PAGE_SIZE).unwrap();
    assert!(states.try_copy_to_or_from_buffer(4, &mut buffer, true).is_ok());
    let len = initialize_comp_sizes()[4];
    assert!(buffer.data[0..len].iter().all(|b| *b == 0x7E));
    // bytes past the copied component are untouched
    assert!(buffer.data[len..].iter().all(|b| *b == 0));
}
