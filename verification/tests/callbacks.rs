use scap::format::VideoFormat;
use scap::frame::{Frame, VideoFrame};
use scap::listener::{
    format_parsed, param_changed, ListenerUserData, MediaSubtype, MediaType, ParamAction,
    ParamType, VideoInfo,
};
use scap::meta::{get_timestamp, MetaType};
use scap::process::{Dequeued, ProcessAction, ProcessEvent};
use std::time::SystemTime;

fn info(format: VideoFormat) -> VideoInfo {
    VideoInfo { format, width: 3, height: 2 }
}

#[test]
fn only_a_present_format_parameter_is_parsed() {
    assert_eq!(param_changed(ParamType::Format, true), ParamAction::ParseFormat);
    assert_eq!(param_changed(ParamType::Format, false), ParamAction::Ignore);
    assert_eq!(param_changed(ParamType::Other(6), true), ParamAction::Ignore);
}

#[test]
fn only_raw_video_is_taken_over() {
    let raw = MediaSubtype::Raw;
    assert_eq!(format_parsed(Some((MediaType::Video, raw))), ParamAction::ParseVideoInfo);
    assert_eq!(format_parsed(Some((MediaType::Other(1), raw))), ParamAction::Ignore);
    assert_eq!(
        format_parsed(Some((MediaType::Video, MediaSubtype::Other(2)))),
        ParamAction::Ignore
    );
    assert_eq!(format_parsed(None), ParamAction::Ignore);
}

/// Runs a call of the process callback on a buffer at `buffer`, and returns its actions.
fn call(
    data: &mut ListenerUserData,
    buffer: usize,
    dequeued: Dequeued,
    bytes: &[u8],
) -> Vec<ProcessAction> {
    let mut actions = Vec::new();
    let mut event = ProcessEvent::Called;
    loop {
        let action = data.process_callback(event);
        event = match action {
            ProcessAction::Dequeue => ProcessEvent::Dequeued { buffer, dequeued },
            ProcessAction::Capture { buffer } => ProcessEvent::Copied {
                buffer,
                display_time: SystemTime::UNIX_EPOCH,
                data: bytes.to_vec(),
            },
            ProcessAction::ReportOutOfBuffers { buffer }
            | ProcessAction::ReportUnsupported { buffer, .. }
            | ProcessAction::ReportUndecodable { buffer, .. }
            | ProcessAction::Send { buffer, .. } => ProcessEvent::Delivered { buffer },
            ProcessAction::Queue { .. } => ProcessEvent::Queued,
            ProcessAction::Finish => {
                actions.push(action);
                return actions;
            }
        };
        actions.push(action);
    }
}

/// `actions` take a buffer and give it back, with nothing in between.
fn given_back_at_once(actions: &[ProcessAction], address: usize) -> bool {
    matches!(
        actions,
        [ProcessAction::Dequeue, ProcessAction::Queue { buffer }, ProcessAction::Finish]
            if *buffer == address
    )
}

#[test]
fn an_unusable_format_is_reported_once_per_negotiation() {
    let mut data = ListenerUserData::new(info(VideoFormat::Other(0)));
    let full = Dequeued::Contents { n_datas: 1 };
    assert!(matches!(
        call(&mut data, 8, full, &[])[..],
        [
            ProcessAction::Dequeue,
            ProcessAction::ReportUnsupported { buffer: 8, format: VideoFormat::Other(0) },
            ProcessAction::Queue { buffer: 8 },
            ProcessAction::Finish
        ]
    ));
    for address in 10..20 {
        assert!(given_back_at_once(&call(&mut data, address, full, &[]), address));
    }
    data.format_negotiated(info(VideoFormat::Other(12)));
    assert!(matches!(
        call(&mut data, 8, full, &[])[1],
        ProcessAction::ReportUnsupported { buffer: 8, format: VideoFormat::Other(12) }
    ));
    assert!(given_back_at_once(&call(&mut data, 8, full, &[]), 8));
}

#[test]
fn buffers_without_data_are_given_back() {
    for format in [VideoFormat::BGRx, VideoFormat::Other(12)] {
        let mut data = ListenerUserData::new(info(format));
        let none = Dequeued::Contents { n_datas: 0 };
        assert!(given_back_at_once(&call(&mut data, 64, none, &[]), 64));
        assert!(given_back_at_once(&call(&mut data, 72, Dequeued::Empty, &[]), 72));
        assert_eq!(data, ListenerUserData::new(info(format)));
    }
}

#[test]
fn a_missing_buffer_is_reported_and_answered() {
    let mut data = ListenerUserData::new(info(VideoFormat::BGRx));
    assert!(matches!(
        call(&mut data, 0, Dequeued::OutOfBuffers, &[])[..],
        [
            ProcessAction::Dequeue,
            ProcessAction::ReportOutOfBuffers { buffer: 0 },
            ProcessAction::Queue { buffer: 0 },
            ProcessAction::Finish
        ]
    ));
    assert!(!data.unsupported_format_reported);
}

#[test]
fn a_supported_frame_is_captured_and_sent() {
    let mut data = ListenerUserData::new(info(VideoFormat::Other(0)));
    data.format_negotiated(info(VideoFormat::xBGR));
    let bytes: Vec<u8> = (0..24).collect();
    let actions = call(&mut data, 32, Dequeued::Contents { n_datas: 2 }, &bytes);
    match &actions[..] {
        [
            ProcessAction::Dequeue,
            ProcessAction::Capture { buffer: 32 },
            ProcessAction::Send { buffer: 32, frame: Frame::Video(VideoFrame::XBGR(frame)) },
            ProcessAction::Queue { buffer: 32 },
            ProcessAction::Finish,
        ] => {
            assert_eq!((frame.width, frame.height), (3, 2));
            assert_eq!(frame.display_time, SystemTime::UNIX_EPOCH);
            assert_eq!(frame.data, bytes);
        }
        other => panic!("{other:?}"),
    }
    assert_eq!(data, ListenerUserData::new(info(VideoFormat::xBGR)));
}

/// The action that follows the copy of an empty frame.
fn copied(data: &mut ListenerUserData) -> ProcessAction {
    data.process_callback(ProcessEvent::Copied {
        buffer: 5,
        display_time: SystemTime::UNIX_EPOCH,
        data: Vec::new(),
    })
}

#[test]
fn an_undecodable_frame_is_reported_once() {
    let mut data = ListenerUserData::new(info(VideoFormat::Other(16)));
    assert!(matches!(
        copied(&mut data),
        ProcessAction::ReportUndecodable { buffer: 5, format: VideoFormat::Other(16) }
    ));
    assert!(matches!(copied(&mut data), ProcessAction::Queue { buffer: 5 }));
}

#[test]
fn sizes_are_read_as_signed() {
    let mut data = ListenerUserData::new(VideoInfo {
        format: VideoFormat::RGB,
        width: u32::MAX,
        height: 0x8000_0000,
    });
    match copied(&mut data) {
        ProcessAction::Send { frame: Frame::Video(VideoFrame::RGB(frame)), .. } => {
            assert_eq!((frame.width, frame.height), (-1, i32::MIN));
        }
        other => panic!("{other:?}"),
    }
}

#[test]
fn the_first_header_gives_the_timestamp() {
    let pts = [11i64, 22, 33, 44];
    let metas = [MetaType::Other(4), MetaType::Header, MetaType::Other(2), MetaType::Header];
    assert_eq!(get_timestamp(&metas, |i| pts[i]), 22);
    assert_eq!(get_timestamp(&metas[2..], |i| pts[i + 2]), 44);
}

#[test]
fn without_a_header_the_timestamp_is_zero() {
    let metas = [MetaType::Other(4), MetaType::Other(2)];
    assert_eq!(get_timestamp(&metas, |_| 7), 0);
    assert_eq!(get_timestamp(&[], |_| 7), 0);
}
