use libsoxr::{Datatype, ErrorType, IOSpec, InputMode, ScratchOwner, SoxrState};

fn mono() -> SoxrState<u32> {
    SoxrState::create(1, None, None).unwrap()
}

#[test]
fn create_takes_the_engine_answer() {
    let s = SoxrState::<u32>::create(2, None, None).unwrap();
    assert_eq!(2, s.channels());
    assert_eq!(InputMode::Direct, s.mode());
    assert!(!s.has_input_fn());
    assert!(s.engine_live());
    assert!(s.input_interleaved() && s.output_interleaved());

    let e = SoxrState::<u32>::create(2, None, Some("invalid io_ratio".to_string())).err().unwrap();
    assert_eq!(Some("Soxr::new".to_string()), e.0);
    assert!(matches!(e.1, ErrorType::CreateError(ref m) if m == "invalid io_ratio"));
}

#[test]
fn io_spec_decides_the_layout() {
    let io = IOSpec::new(Datatype::Float32S, Datatype::Float64I);
    let s = SoxrState::<u32>::create(2, Some(&io), None).unwrap();
    assert_eq!(Some(io), s.io_spec());
    assert!(!s.input_interleaved());
    assert!(s.output_interleaved());
    let plan = s.plan_process(Some(96), 192).unwrap();
    assert_eq!(vec![0, 48], plan.input.unwrap().channel_starts);
    assert!(plan.output.channel_starts.is_empty());
    assert_eq!(96, plan.output.samples_per_channel);
}

#[test]
fn mono_upsample_step_sizes() {
    let mut s = mono();
    let plan = s.plan_process(Some(48), 96).unwrap();
    assert_eq!(48, plan.input.as_ref().unwrap().samples_per_channel);
    assert_eq!(96, plan.output.samples_per_channel);
    assert_eq!((48, 90), s.finish_process(&plan, None, 48, 90).unwrap());
    let flush = s.plan_process(None, 96).unwrap();
    assert!(flush.input.is_none());
    assert_eq!((0, 6), s.finish_process(&flush, None, 0, 6).unwrap());
    assert_eq!(InputMode::Ended, s.mode());
}

#[test]
fn input_after_end_of_input_is_refused_until_clear() {
    let mut s = mono();
    let flush = s.plan_process(None, 10).unwrap();
    assert_eq!((0, 0), s.finish_process(&flush, None, 0, 0).unwrap());
    let e = s.plan_process(Some(10), 10).err().unwrap();
    assert!(matches!(e.1, ErrorType::ProcessError(_)));
    assert!(s.plan_process(None, 10).is_ok());
    let e = s.finish_clear(Some("busy".to_string())).err().unwrap();
    assert_eq!(Some("Soxr::clear".to_string()), e.0);
    assert_eq!(InputMode::Ended, s.mode());
    s.finish_clear(None).unwrap();
    assert_eq!(InputMode::Direct, s.mode());
    assert!(s.plan_process(Some(10), 10).is_ok());
}

#[test]
fn end_of_input_consumes_nothing() {
    let mut s = mono();
    let flush = s.plan_process(None, 10).unwrap();
    let e = s.finish_process(&flush, None, 1, 0).err().unwrap();
    assert!(matches!(e.1, ErrorType::ProcessError(_)));
    assert_eq!(InputMode::Direct, s.mode());
}

#[test]
fn process_errors_carry_the_engine_message() {
    let mut s = mono();
    let plan = s.plan_process(Some(4), 4).unwrap();
    let e = s.finish_process(&plan, Some("engine failed".to_string()), 0, 0).err().unwrap();
    assert_eq!(Some("Soxr::process".to_string()), e.0);
    assert!(matches!(e.1, ErrorType::ProcessError(ref m) if m == "engine failed"));
    let e = s.finish_process(&plan, None, 4, 5).err().unwrap();
    assert!(matches!(e.1, ErrorType::ProcessError(_)));
}

#[test]
fn uneven_buffers_never_reach_the_engine() {
    let s = SoxrState::<u32>::create(2, None, None).unwrap();
    let e = s.plan_process(Some(5), 4).err().unwrap();
    assert!(matches!(e.1, ErrorType::SizeMismatch { len: 5, channels: 2 }));
    let e = s.plan_process(Some(4), 5).err().unwrap();
    assert!(matches!(e.1, ErrorType::SizeMismatch { len: 5, channels: 2 }));
    let e = s.plan_process(None, 3).err().unwrap();
    assert!(matches!(e.1, ErrorType::SizeMismatch { len: 3, channels: 2 }));
}

#[test]
fn uneven_buffers_are_a_size_mismatch_in_every_mode() {
    let mut s = SoxrState::<u32>::create(2, None, None).unwrap();
    let flush = s.plan_process(None, 4).unwrap();
    s.finish_process(&flush, None, 0, 0).unwrap();
    let e = s.plan_process(Some(3), 4).err().unwrap();
    assert!(matches!(e.1, ErrorType::SizeMismatch { len: 3, channels: 2 }));
    let _ = s.finish_set_input(1, None);
    let e = s.plan_process(Some(4), 7).err().unwrap();
    assert!(matches!(e.1, ErrorType::SizeMismatch { len: 7, channels: 2 }));
    s.engine_deleted();
    let e = s.plan_process(None, 1).err().unwrap();
    assert!(matches!(e.1, ErrorType::SizeMismatch { len: 1, channels: 2 }));
}

#[test]
fn registration_retires_the_previous_block() {
    let mut s = SoxrState::<u32>::create(2, None, None).unwrap();
    let (r, retired) = s.finish_set_input(1, None);
    assert!(r.is_ok());
    assert_eq!(None, retired);
    assert_eq!(InputMode::Callback, s.mode());
    let (r, retired) = s.finish_set_input(2, None);
    assert!(r.is_ok());
    assert_eq!(Some(1), retired);
    s.engine_deleted();
    assert_eq!(vec![2], s.release_blocks());
}

#[test]
fn refused_registration_keeps_both_blocks_until_deletion() {
    let mut s = SoxrState::<u32>::create(2, None, None).unwrap();
    let _ = s.finish_set_input(1, None);
    let (r, retired) = s.finish_set_input(2, Some("refused".to_string()));
    let e = r.err().unwrap();
    assert!(matches!(e.1, ErrorType::ProcessError(ref m) if m == "refused"));
    assert_eq!(None, retired);
    s.engine_deleted();
    assert_eq!(vec![2, 1], s.release_blocks());
    assert!(!s.has_input_fn());
}

#[test]
fn process_is_refused_while_a_supplier_is_registered() {
    let mut s = mono();
    let _ = s.finish_set_input(7, None);
    let e = s.plan_process(Some(4), 4).err().unwrap();
    assert!(matches!(e.1, ErrorType::ProcessError(_)));
    s.finish_clear(None).unwrap();
    assert_eq!(InputMode::Callback, s.mode());
}

#[test]
fn output_only_in_callback_mode() {
    let mut s = SoxrState::<u32>::create(2, None, None).unwrap();
    assert_eq!(0, s.output_request(100));
    let _ = s.finish_set_input(1, None);
    assert_eq!(100, s.output_request(100));
    assert!(s.output_fits(200, 100));
    assert!(!s.output_fits(199, 100));
    assert!(!s.output_fits(10, usize::MAX));
    assert_eq!(80, s.finish_output(100, 80));
    assert_eq!(100, s.finish_output(100, 120));
}

#[test]
fn output_layout_for_split_buffers() {
    let io = IOSpec::new(Datatype::Float32I, Datatype::Float32S);
    let s = SoxrState::<u32>::create(2, Some(&io), None).unwrap();
    let p = s.plan_output(201).unwrap();
    assert_eq!(100, p.samples_per_channel);
    assert_eq!(vec![0, 100], p.channel_starts);
    let s = SoxrState::<u32>::create(2, None, None).unwrap();
    let p = s.plan_output(200).unwrap();
    assert_eq!(100, p.samples_per_channel);
    assert!(p.channel_starts.is_empty());
    let s = SoxrState::<u32>::create(0, None, None).unwrap();
    assert!(s.plan_output(200).is_err());
}

#[test]
fn nothing_is_requested_after_deletion() {
    let mut s = SoxrState::<u32>::create(2, None, None).unwrap();
    let _ = s.finish_set_input(1, None);
    s.engine_deleted();
    assert_eq!(0, s.output_request(2500));
    assert!(s.plan_process(None, 10).is_err());
    assert_eq!(vec![1], s.release_blocks());
    assert!(s.release_blocks().is_empty());
}

#[derive(Debug, PartialEq)]
struct Owner {
    id: u32,
    channels: u32,
}

impl ScratchOwner for Owner {
    fn follow_channels(&mut self, channels: u32) {
        self.channels = channels;
    }
}

#[test]
fn channel_change() {
    let mut s = SoxrState::<Owner>::create(2, None, None).unwrap();
    s.finish_channel_change(4, None).unwrap();
    assert_eq!(4, s.channels());
    let e = s.finish_channel_change(0, Some("invalid # of channels".to_string())).err().unwrap();
    assert_eq!(Some("Soxr::set_num_channels".to_string()), e.0);
    assert!(matches!(e.1, ErrorType::ChangeError(ref m) if m == "invalid # of channels"));
    assert_eq!(4, s.channels());
}

#[test]
fn channel_change_resizes_every_live_block() {
    let mut s = SoxrState::<Owner>::create(2, None, None).unwrap();
    let _ = s.finish_set_input(Owner { id: 1, channels: 2 }, None);
    let _ = s.finish_set_input(Owner { id: 2, channels: 2 }, Some("refused".to_string()));
    s.finish_channel_change(3, None).unwrap();
    assert_eq!(3, s.channels());
    let _ = s.finish_channel_change(5, Some("refused".to_string()));
    s.engine_deleted();
    assert_eq!(
        vec![Owner { id: 2, channels: 3 }, Owner { id: 1, channels: 3 }],
        s.release_blocks()
    );
}

#[test]
fn change_result_maps_engine_errors() {
    assert!(libsoxr::change_result("Soxr::set_error", None).is_ok());
    let e = libsoxr::change_result("Soxr::set_io_ratio", Some("not VR".to_string()))
        .err()
        .unwrap();
    assert_eq!(Some("Soxr::set_io_ratio".to_string()), e.0);
    assert!(matches!(e.1, ErrorType::ChangeError(ref m) if m == "not VR"));
}
