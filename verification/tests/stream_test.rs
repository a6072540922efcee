use std::sync::{Arc, Condvar, Mutex};
use terminal_music_player::stream::{AudioState, SeekOrigin, StreamHandle, StreamWriter, WaitReason};

/// Reads as a reader of the shared buffer does, on a buffer that needs no
/// waiting.
fn read(handle: &mut StreamHandle, buf: &mut [u8]) -> usize {
    let shared = handle.state().clone();
    let st = shared.lock().unwrap();
    assert!(!st.must_wait(handle.read_wait()));
    handle.read_from(&st, buf)
}

/// Seeks as a reader of the shared buffer does, on a buffer that needs no
/// waiting.
fn seek(handle: &mut StreamHandle, origin: SeekOrigin) -> u64 {
    let shared = handle.state().clone();
    let st = shared.lock().unwrap();
    if let Some(reason) = StreamHandle::seek_first_wait(origin) {
        assert!(!st.must_wait(reason));
    }
    let target = handle.seek_target(&st, origin);
    assert!(!st.must_wait(WaitReason::Reach(target)));
    handle.seek_to(&st, target)
}

#[test]
fn test_stream_handle_read() {
    let state = Arc::new(Mutex::new(AudioState {
        data: vec![1, 2, 3, 4, 5],
        finished: true,
    }));
    let cvar = Arc::new(Condvar::new());
    let mut handle = StreamHandle::new(state.clone(), cvar.clone(), 0);

    let mut buf = [0u8; 3];
    let n = read(&mut handle, &mut buf);
    assert_eq!(n, 3);
    assert_eq!(&buf[..n], &[1, 2, 3]);
    assert_eq!(handle.pos, 3);
}

#[test]
fn test_stream_handle_read_eof() {
    let state = Arc::new(Mutex::new(AudioState {
        data: vec![1, 2, 3],
        finished: true,
    }));
    let cvar = Arc::new(Condvar::new());
    let mut handle = StreamHandle::new(state.clone(), cvar.clone(), 3);

    let mut buf = [0u8; 3];
    let n = read(&mut handle, &mut buf);
    assert_eq!(n, 0);
}

#[test]
fn test_stream_handle_seek_start() {
    let state = Arc::new(Mutex::new(AudioState {
        data: vec![1, 2, 3, 4, 5],
        finished: true,
    }));
    let cvar = Arc::new(Condvar::new());
    let mut handle = StreamHandle::new(state.clone(), cvar.clone(), 0);

    let new_pos = seek(&mut handle, SeekOrigin::Start(2));
    assert_eq!(new_pos, 2);
    assert_eq!(handle.pos, 2);
}

#[test]
fn test_stream_handle_seek_current() {
    let state = Arc::new(Mutex::new(AudioState {
        data: vec![1, 2, 3, 4, 5],
        finished: true,
    }));
    let cvar = Arc::new(Condvar::new());
    let mut handle = StreamHandle::new(state.clone(), cvar.clone(), 2);

    let new_pos = seek(&mut handle, SeekOrigin::Current(1));
    assert_eq!(new_pos, 3);
    assert_eq!(handle.pos, 3);
}

#[test]
fn test_stream_handle_seek_end() {
    let state = Arc::new(Mutex::new(AudioState {
        data: vec![1, 2, 3, 4, 5],
        finished: true,
    }));
    let cvar = Arc::new(Condvar::new());
    let mut handle = StreamHandle::new(state.clone(), cvar.clone(), 0);

    let new_pos = seek(&mut handle, SeekOrigin::End(0));
    assert_eq!(new_pos, 5);
    assert_eq!(handle.pos, 5);
}

#[test]
fn test_stream_writer_write() {
    let state = Arc::new(Mutex::new(AudioState {
        data: Vec::new(),
        finished: false,
    }));
    let cvar = Arc::new(Condvar::new());
    let writer = StreamWriter::new(state.clone(), cvar.clone());

    writer.write(&[1, 2, 3]);
    let s = state.lock().unwrap();
    assert_eq!(s.data, vec![1, 2, 3]);
}

#[test]
fn test_stream_writer_finish() {
    let state = Arc::new(Mutex::new(AudioState {
        data: Vec::new(),
        finished: false,
    }));
    let cvar = Arc::new(Condvar::new());
    let writer = StreamWriter::new(state.clone(), cvar.clone());

    writer.finish();
    let s = state.lock().unwrap();
    assert!(s.finished);
}

#[test]
fn seeks_are_clamped_to_the_data() {
    let state = Arc::new(Mutex::new(AudioState { data: vec![9; 5], finished: true }));
    let cvar = Arc::new(Condvar::new());
    let mut handle = StreamHandle::new(state.clone(), cvar.clone(), 4);
    assert_eq!(seek(&mut handle, SeekOrigin::Current(-10)), 0);
    assert_eq!(seek(&mut handle, SeekOrigin::Start(99)), 5);
    assert_eq!(seek(&mut handle, SeekOrigin::End(-2)), 3);
    assert_eq!(seek(&mut handle, SeekOrigin::Start(u64::MAX)), 0);
}

#[test]
fn audio_state_rules() {
    let mut s = AudioState { data: vec![1, 2], finished: false };
    assert!(s.must_wait(WaitReason::Read(2)));
    assert!(!s.must_wait(WaitReason::Read(1)));
    s.append(&[3, 4]);
    assert_eq!(s.data, vec![1, 2, 3, 4]);
    let mut buf = [0u8; 3];
    assert_eq!(s.copy_available(1, &mut buf), 3);
    assert_eq!(buf, [2, 3, 4]);
    let mut buf = [5u8; 3];
    assert_eq!(s.copy_available(4, &mut buf), 0);
    assert_eq!(buf, [5, 5, 5]);
    assert_eq!(s.seek_request(SeekOrigin::End(-1), 0), 3);
    assert_eq!(s.seek_request(SeekOrigin::Current(-5), 2), -3);
    assert_eq!(s.clamp_position(-3), 0);
    assert_eq!(s.clamp_position(10), 4);
    assert!(s.must_wait(WaitReason::Reach(10)));
    assert!(s.must_wait(WaitReason::End));
    s.mark_finished();
    assert!(!s.must_wait(WaitReason::Read(4)));
    assert!(!s.must_wait(WaitReason::Reach(10)));
    assert!(!s.must_wait(WaitReason::End));
}

#[test]
fn reader_reads_back_what_the_writer_wrote() {
    let state = Arc::new(Mutex::new(AudioState { data: Vec::new(), finished: false }));
    let cvar = Arc::new(Condvar::new());
    let writer = StreamWriter::new(state.clone(), cvar.clone());
    let mut handle = StreamHandle::new(state.clone(), cvar.clone(), 0);
    writer.write(&[10, 20, 30]);
    let mut buf = [0u8; 2];
    assert_eq!(read(&mut handle, &mut buf), 2);
    assert_eq!(buf, [10, 20]);
    writer.write(&[40]);
    writer.finish();
    let mut buf = [0u8; 4];
    assert_eq!(read(&mut handle, &mut buf), 2);
    assert_eq!(&buf[..2], &[30, 40]);
    assert_eq!(read(&mut handle, &mut buf), 0);
}

#[test]
fn reads_available_data_before_the_download_ends() {
    let state = Arc::new(Mutex::new(AudioState { data: vec![7, 8, 9], finished: false }));
    let cvar = Arc::new(Condvar::new());
    let mut handle = StreamHandle::new(state.clone(), cvar.clone(), 1);
    let mut buf = [0u8; 8];
    assert_eq!(read(&mut handle, &mut buf), 2);
    assert_eq!(&buf[..2], &[8, 9]);
    assert_eq!(handle.pos, 3);
}

#[test]
fn seek_within_an_unfinished_download_does_not_wait() {
    let state = Arc::new(Mutex::new(AudioState { data: vec![1, 2, 3, 4], finished: false }));
    let cvar = Arc::new(Condvar::new());
    let mut handle = StreamHandle::new(state.clone(), cvar.clone(), 0);
    assert_eq!(seek(&mut handle, SeekOrigin::Start(3)), 3);
    assert_eq!(seek(&mut handle, SeekOrigin::Current(-1)), 2);
    assert_eq!(seek(&mut handle, SeekOrigin::Start(0)), 0);
    let mut buf = [0u8; 2];
    assert_eq!(read(&mut handle, &mut buf), 2);
    assert_eq!(buf, [1, 2]);
}

#[test]
fn reader_waits_where_the_data_ends() {
    let state = Arc::new(Mutex::new(AudioState { data: vec![1, 2], finished: false }));
    let cvar = Arc::new(Condvar::new());
    let handle = StreamHandle::new(state.clone(), cvar.clone(), 2);
    assert!(matches!(handle.read_wait(), WaitReason::Read(2)));
    assert!(state.lock().unwrap().must_wait(handle.read_wait()));
    assert!(matches!(StreamHandle::seek_first_wait(SeekOrigin::End(0)), Some(WaitReason::End)));
    assert!(StreamHandle::seek_first_wait(SeekOrigin::Start(0)).is_none());
    assert!(StreamHandle::seek_first_wait(SeekOrigin::Current(3)).is_none());
    let st = state.lock().unwrap();
    let target = handle.seek_target(&st, SeekOrigin::Current(3));
    assert_eq!(target, 5);
    assert!(st.must_wait(WaitReason::Reach(target)));
}
