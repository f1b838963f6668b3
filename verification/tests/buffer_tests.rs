use mshv_bindings::buffer::Buffer;
use mshv_bindings::xsave::{XSave, XSAVE_STATE_SIZE};
use mshv_bindings::{RegsError, HV_PAGE_SIZE};

#[test]
fn test_buffer_new_reports_size_and_zero_fills() {
    let buf = Buffer::new(100, 64).unwrap();
    assert_eq!(buf.size(), 100);
    assert_eq!(buf.align, 64);
    assert!(buf.data.iter().all(|b| *b == 0));
}

#[test]
fn test_buffer_zero_out_buf() {
    let mut buf = Buffer::new(32, 1).unwrap();
    for b in buf.data.iter_mut() {
        *b = 0xCC;
    }
    buf.zero_out_buf();
    assert_eq!(buf.size(), 32);
    assert!(buf.data.iter().all(|b| *b == 0));
}

#[test]
fn test_buffer_allocation_failure() {
    // a region of the full address space can never be reserved
    let r = Buffer::new(usize::MAX, HV_PAGE_SIZE);
    assert_eq!(r.unwrap_err(), RegsError::AllocationFailure);
}

#[test]
fn test_xsave_buffer_round_trip() {
    let mut state = XSave::default();
    for i in 0..XSAVE_STATE_SIZE {
        state.buffer[i] = (i % 253) as u8;
    }
    let buf = state.to_buffer().unwrap();
    assert_eq!(buf.size(), XSAVE_STATE_SIZE);
    assert_eq!(buf.align, HV_PAGE_SIZE);
    let back = XSave::from_buffer(&buf).unwrap();
    assert_eq!(back, state);
}

#[test]
fn test_xsave_from_short_buffer_zero_pads() {
    let mut buf = Buffer::new(16, 1).unwrap();
    for b in buf.data.iter_mut() {
        *b = 0xEE;
    }
    let state = XSave::from_buffer(&buf).unwrap();
    assert!(state.buffer[0..16].iter().all(|b| *b == 0xEE));
    assert!(state.buffer[16..].iter().all(|b| *b == 0));
}

#[test]
fn test_xsave_rejects_oversized_buffer() {
    let buf = Buffer::new(XSAVE_STATE_SIZE + 1, 1).unwrap();
    assert_eq!(XSave::from_buffer(&buf).unwrap_err(), RegsError::SizeMismatch);
}
