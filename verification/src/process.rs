//! The processing of a buffer, one step at a time.
//!
//! A call of the stream's process callback is an exchange: the library names an action, and
//! the event that comes of it leads to the next action, until nothing is left to do.
use crate::format::{
    decoded, is_supported, law_decoding_preserves_payload, law_offered_iff_decodable, supported,
    video_frame_for, VideoFormat,
};
use crate::frame::{signed, signed_dimension, Frame, VideoFrame};
use crate::listener::{ListenerUserData, VideoInfo};
use vstd::prelude::*;

verus! {

/// What came of taking a buffer from the stream.
#[derive(Clone, Copy, Debug, PartialEq, Eq, Structural)]
pub enum Dequeued {
    /// The stream had no buffer.
    OutOfBuffers,
    /// The stream's buffer has no contents attached.
    Empty,
    /// The contents hold this many data blocks.
    Contents { n_datas: u32 },
}

/// What has happened in a call of the process callback. A buffer is known by its address,
/// which is zero where the stream had none.
#[derive(Debug)]
pub enum ProcessEvent {
    /// The stream has made the call.
    Called,
    /// The stream was asked for a buffer.
    Dequeued { buffer: usize, dequeued: Dequeued },
    /// The first data block of the buffer was copied, at this time.
    Copied { buffer: usize, display_time: std::time::SystemTime, data: Vec<u8> },
    /// A report was made or a frame was sent, whether or not somebody took it.
    Delivered { buffer: usize },
    /// The buffer was given back.
    Queued,
}

/// What to do next in a call of the process callback.
#[derive(Debug)]
pub enum ProcessAction {
    /// Ask the stream for a buffer.
    Dequeue,
    /// Report that there was no buffer.
    ReportOutOfBuffers { buffer: usize },
    /// Report that frames of this format cannot be used.
    ReportUnsupported { buffer: usize, format: VideoFormat },
    /// Copy the first data block of the buffer.
    Capture { buffer: usize },
    /// Send the frame to the user.
    Send { buffer: usize, frame: Frame },
    /// Report that frames of this format cannot be decoded.
    ReportUndecodable { buffer: usize, format: VideoFormat },
    /// Give this buffer back to the stream.
    Queue { buffer: usize },
    /// Return from the call.
    Finish,
}

impl ProcessAction {
    /// The action reports a format that cannot be used.
    pub open spec fn reports_format(self) -> bool {
        self is ReportUnsupported || self is ReportUndecodable
    }
}

impl ListenerUserData {
    /// The frame that `data` makes up in the negotiated format.
    pub open spec fn frame(self, display_time: std::time::SystemTime, data: Vec<u8>) -> Option<
        VideoFrame,
    > {
        decoded(
            self.format.format,
            display_time,
            signed(self.format.width) as i32,
            signed(self.format.height) as i32,
            data,
        )
    }

    /// What follows from `event`: the memory after it, and the next action.
    pub open spec fn on_event(self, event: ProcessEvent) -> (ListenerUserData, ProcessAction) {
        match event {
            ProcessEvent::Called => (self, ProcessAction::Dequeue),
            ProcessEvent::Dequeued { buffer, dequeued } => match dequeued {
                Dequeued::OutOfBuffers => (self, ProcessAction::ReportOutOfBuffers { buffer }),
                Dequeued::Empty => (self, ProcessAction::Queue { buffer }),
                Dequeued::Contents { n_datas } => if n_datas < 1 {
                    (self, ProcessAction::Queue { buffer })
                } else if supported(self.format.format) {
                    (self, ProcessAction::Capture { buffer })
                } else if self.unsupported_format_reported {
                    (self, ProcessAction::Queue { buffer })
                } else {
                    (
                        self.reported(),
                        ProcessAction::ReportUnsupported { buffer, format: self.format.format },
                    )
                },
            },
            ProcessEvent::Copied { buffer, display_time, data } => match self.frame(
                display_time,
                data,
            ) {
                Some(frame) => (
                    self,
                    ProcessAction::Send { buffer, frame: Frame::Video(frame) },
                ),
                None => if self.unsupported_format_reported {
                    (self, ProcessAction::Queue { buffer })
                } else {
                    (
                        self.reported(),
                        ProcessAction::ReportUndecodable { buffer, format: self.format.format },
                    )
                },
            },
            ProcessEvent::Delivered { buffer } => (self, ProcessAction::Queue { buffer }),
            ProcessEvent::Queued => (self, ProcessAction::Finish),
        }
    }

    /// Decides what to do next in a call of the process callback. The format is tested
    /// before anything is copied, and one that cannot be used is reported once per
    /// negotiation.
    pub fn process_callback(&mut self, event: ProcessEvent) -> (action: ProcessAction)
        ensures
            (*final(self), action) == old(self).on_event(event),
            final(self).format == old(self).format,
    {
        let negotiated: VideoFormat = self.format.format;
        match event {
            ProcessEvent::Called => ProcessAction::Dequeue,
            ProcessEvent::Dequeued { buffer, dequeued } => match dequeued {
                Dequeued::OutOfBuffers => ProcessAction::ReportOutOfBuffers { buffer },
                Dequeued::Empty => ProcessAction::Queue { buffer },
                Dequeued::Contents { n_datas } => {
                    if n_datas < 1 {
                        return ProcessAction::Queue { buffer };
                    }
                    if !is_supported(negotiated) {
                        if !self.unsupported_format_reported {
                            self.unsupported_format_reported = true;
                            return ProcessAction::ReportUnsupported { buffer, format: negotiated };
                        }
                        return ProcessAction::Queue { buffer };
                    }
                    ProcessAction::Capture { buffer }
                },
            },
            ProcessEvent::Copied { buffer, display_time, data } => {
                let width: i32 = signed_dimension(self.format.width);
                let height: i32 = signed_dimension(self.format.height);
                match video_frame_for(negotiated, display_time, width, height, data) {
                    Some(frame) => ProcessAction::Send { buffer, frame: Frame::Video(frame) },
                    None => {
                        if !self.unsupported_format_reported {
                            self.unsupported_format_reported = true;
                            return ProcessAction::ReportUndecodable { buffer, format: negotiated };
                        }
                        ProcessAction::Queue { buffer }
                    },
                }
            },
            ProcessEvent::Delivered { buffer } => ProcessAction::Queue { buffer },
            ProcessEvent::Queued => ProcessAction::Finish,
        }
    }
}

/// What a call of the process callback meets with: the buffer that the stream hands out,
/// and the time and the bytes of its frame, should it be copied.
pub struct Arrival {
    pub buffer: usize,
    pub dequeued: Dequeued,
    pub display_time: std::time::SystemTime,
    pub data: Vec<u8>,
}

impl Arrival {
    /// The event that comes of `action`.
    pub open spec fn answer(self, action: ProcessAction) -> ProcessEvent {
        match action {
            ProcessAction::Dequeue => ProcessEvent::Dequeued {
                buffer: self.buffer,
                dequeued: self.dequeued,
            },
            ProcessAction::ReportOutOfBuffers { buffer } => ProcessEvent::Delivered { buffer },
            ProcessAction::ReportUnsupported { buffer, .. } => ProcessEvent::Delivered { buffer },
            ProcessAction::Capture { buffer } => ProcessEvent::Copied {
                buffer,
                display_time: self.display_time,
                data: self.data,
            },
            ProcessAction::Send { buffer, .. } => ProcessEvent::Delivered { buffer },
            ProcessAction::ReportUndecodable { buffer, .. } => ProcessEvent::Delivered { buffer },
            ProcessAction::Queue { .. } => ProcessEvent::Queued,
            ProcessAction::Finish => ProcessEvent::Queued,
        }
    }
}

/// How many actions can still follow `event` before the last one.
pub open spec fn steps_left(event: ProcessEvent) -> nat {
    match event {
        ProcessEvent::Called => 4,
        ProcessEvent::Dequeued { .. } => 3,
        ProcessEvent::Copied { .. } => 2,
        ProcessEvent::Delivered { .. } => 1,
        ProcessEvent::Queued => 0,
    }
}

impl ListenerUserData {
    /// The actions of a call from `event` on, in their order.
    pub open spec fn actions(self, arrival: Arrival, event: ProcessEvent) -> Seq<ProcessAction>
        decreases steps_left(event),
    {
        let (next, action) = self.on_event(event);
        if action is Finish {
            seq![action]
        } else {
            seq![action] + next.actions(arrival, arrival.answer(action))
        }
    }

    /// The memory after a call from `event` on.
    pub open spec fn finished(self, arrival: Arrival, event: ProcessEvent) -> ListenerUserData
        decreases steps_left(event),
    {
        let (next, action) = self.on_event(event);
        if action is Finish {
            next
        } else {
            next.finished(arrival, arrival.answer(action))
        }
    }
}

/// How many of `actions` report a format that cannot be used.
pub open spec fn format_reports(actions: Seq<ProcessAction>) -> nat
    decreases actions.len(),
{
    if actions.len() == 0 {
        0
    } else {
        (if actions[0].reports_format() {
            1nat
        } else {
            0nat
        }) + format_reports(actions.drop_first())
    }
}

/// The actions of a call for a buffer that is given back at once.
pub open spec fn course_given_back(buffer: usize) -> Seq<ProcessAction> {
    seq![ProcessAction::Dequeue, ProcessAction::Queue { buffer }, ProcessAction::Finish]
}

/// The actions of a call that makes one report.
pub open spec fn course_reported(buffer: usize, report: ProcessAction) -> Seq<ProcessAction> {
    seq![ProcessAction::Dequeue, report, ProcessAction::Queue { buffer }, ProcessAction::Finish]
}

/// The actions of a call that sends a frame.
pub open spec fn course_sent(buffer: usize, frame: VideoFrame) -> Seq<ProcessAction> {
    seq![
        ProcessAction::Dequeue,
        ProcessAction::Capture { buffer },
        ProcessAction::Send { buffer, frame: Frame::Video(frame) },
        ProcessAction::Queue { buffer },
        ProcessAction::Finish,
    ]
}

/// A buffer without contents or without a data block is given back at once, and leaves
/// the memory as it was.
pub proof fn law_nothing_to_capture(data: ListenerUserData, arrival: Arrival)
    requires
        arrival.dequeued == Dequeued::Empty || arrival.dequeued == (Dequeued::Contents {
            n_datas: 0,
        }),
    ensures
        data.actions(arrival, ProcessEvent::Called) == course_given_back(arrival.buffer),
        data.actions(arrival, ProcessEvent::Called) == seq![
            ProcessAction::Dequeue,
            ProcessAction::Queue { buffer: arrival.buffer },
            ProcessAction::Finish,
        ],
        data.finished(arrival, ProcessEvent::Called) == data,
{
    reveal_with_fuel(ListenerUserData::actions, 3);
    reveal_with_fuel(ListenerUserData::finished, 3);
    assert(data.actions(arrival, ProcessEvent::Called) =~= course_given_back(arrival.buffer));
}

/// A stream without a buffer is reported and answered all the same.
pub proof fn law_out_of_buffers(data: ListenerUserData, arrival: Arrival)
    requires
        arrival.dequeued == Dequeued::OutOfBuffers,
    ensures
        data.actions(arrival, ProcessEvent::Called) == course_reported(
            arrival.buffer,
            ProcessAction::ReportOutOfBuffers { buffer: arrival.buffer },
        ),
        data.actions(arrival, ProcessEvent::Called) == seq![
            ProcessAction::Dequeue,
            ProcessAction::ReportOutOfBuffers { buffer: arrival.buffer },
            ProcessAction::Queue { buffer: arrival.buffer },
            ProcessAction::Finish,
        ],
        data.finished(arrival, ProcessEvent::Called) == data,
{
    reveal_with_fuel(ListenerUserData::actions, 4);
    reveal_with_fuel(ListenerUserData::finished, 4);
    assert(data.actions(arrival, ProcessEvent::Called) =~= course_reported(
        arrival.buffer,
        ProcessAction::ReportOutOfBuffers { buffer: arrival.buffer },
    ));
}

/// A buffer in a format that cannot be used is never copied from. The first one is
/// reported, and once that is done the others are given back in silence.
pub proof fn law_unusable_format(data: ListenerUserData, arrival: Arrival)
    requires
        arrival.dequeued matches Dequeued::Contents { n_datas } && n_datas >= 1,
        !supported(data.format.format),
    ensures
        data.actions(arrival, ProcessEvent::Called) == if data.unsupported_format_reported {
            course_given_back(arrival.buffer)
        } else {
            course_reported(
                arrival.buffer,
                ProcessAction::ReportUnsupported {
                    buffer: arrival.buffer,
                    format: data.format.format,
                },
            )
        },
        data.actions(arrival, ProcessEvent::Called) == if data.unsupported_format_reported {
            seq![
                ProcessAction::Dequeue,
                ProcessAction::Queue { buffer: arrival.buffer },
                ProcessAction::Finish,
            ]
        } else {
            seq![
                ProcessAction::Dequeue,
                ProcessAction::ReportUnsupported {
                    buffer: arrival.buffer,
                    format: data.format.format,
                },
                ProcessAction::Queue { buffer: arrival.buffer },
                ProcessAction::Finish,
            ]
        },
        data.finished(arrival, ProcessEvent::Called) == data.reported(),
        data.finished(arrival, ProcessEvent::Called).unsupported_format_reported,
        data.finished(arrival, ProcessEvent::Called).format == data.format,
{
    reveal_with_fuel(ListenerUserData::actions, 4);
    reveal_with_fuel(ListenerUserData::finished, 4);
    if data.unsupported_format_reported {
        assert(data.actions(arrival, ProcessEvent::Called) =~= course_given_back(arrival.buffer));
    } else {
        assert(data.actions(arrival, ProcessEvent::Called) =~= course_reported(
            arrival.buffer,
            ProcessAction::ReportUnsupported {
                buffer: arrival.buffer,
                format: data.format.format,
            },
        ));
    }
}

/// A buffer with data in a format that is offered leads to exactly one frame for the user,
/// with the time and the bytes of the copy, the negotiated size, and the layout of the
/// negotiated format: `RGB` for `RGB`, `RGBx` for `RGBA` and `RGBx`, `XBGR` for `xBGR`, and
/// `BGRx` for `BGRx`. What passes the test before the copy can be decoded after it.
pub proof fn law_captured_is_sent(data: ListenerUserData, arrival: Arrival)
    requires
        arrival.dequeued matches Dequeued::Contents { n_datas } && n_datas >= 1,
        supported(data.format.format),
    ensures
        data.frame(arrival.display_time, arrival.data) matches Some(frame) && {
            &&& frame.display_time() == arrival.display_time
            &&& frame.dimensions().0 == signed(data.format.width)
            &&& frame.dimensions().1 == signed(data.format.height)
            &&& frame.data() == arrival.data
            &&& frame is RGB <==> data.format.format == VideoFormat::RGB
            &&& frame is RGBx <==> (data.format.format == VideoFormat::RGBA || data.format.format
                == VideoFormat::RGBx)
            &&& frame is XBGR <==> data.format.format == VideoFormat::xBGR
            &&& frame is BGRx <==> data.format.format == VideoFormat::BGRx
            &&& Some(frame) == decoded(
                data.format.format,
                arrival.display_time,
                signed(data.format.width) as i32,
                signed(data.format.height) as i32,
                arrival.data,
            )
            &&& data.actions(arrival, ProcessEvent::Called) == course_sent(arrival.buffer, frame)
            &&& data.actions(arrival, ProcessEvent::Called) == seq![
                ProcessAction::Dequeue,
                ProcessAction::Capture { buffer: arrival.buffer },
                ProcessAction::Send { buffer: arrival.buffer, frame: Frame::Video(frame) },
                ProcessAction::Queue { buffer: arrival.buffer },
                ProcessAction::Finish,
            ]
        },
        data.finished(arrival, ProcessEvent::Called) == data,
{
    law_decoding_preserves_payload(
        data.format.format,
        arrival.display_time,
        signed(data.format.width) as i32,
        signed(data.format.height) as i32,
        arrival.data,
    );
    let frame = data.frame(arrival.display_time, arrival.data)->0;
    reveal_with_fuel(ListenerUserData::actions, 5);
    reveal_with_fuel(ListenerUserData::finished, 5);
    assert(data.actions(arrival, ProcessEvent::Called) =~= course_sent(arrival.buffer, frame));
}

/// Every step keeps the negotiated format, never takes a report back, and notes one
/// exactly when it makes one for the first time.
pub proof fn law_step_keeps_format(data: ListenerUserData, event: ProcessEvent)
    ensures
        ({
            let (next, action) = data.on_event(event);
            &&& next.format == data.format
            &&& next.unsupported_format_reported <==> data.unsupported_format_reported
                || action.reports_format()
            &&& action is ReportUnsupported || action is ReportUndecodable
                ==> !data.unsupported_format_reported
            &&& action is ReportUnsupported ==> action->ReportUnsupported_format
                == data.format.format
            &&& action is ReportUndecodable ==> action->ReportUndecodable_format
                == data.format.format
        }),
{
}

/// The steps around a buffer, whatever is remembered: a call begins with taking a buffer,
/// what was reported or sent is followed by giving the buffer back, and that by the end.
/// None of them touches the memory.
pub proof fn law_outer_steps(data: ListenerUserData, buffer: usize)
    ensures
        data.on_event(ProcessEvent::Called) == (data, ProcessAction::Dequeue),
        data.on_event(ProcessEvent::Delivered { buffer }) == (
            data,
            ProcessAction::Queue { buffer },
        ),
        data.on_event(ProcessEvent::Queued) == (data, ProcessAction::Finish),
{
}

/// What is done with a buffer concerns that buffer, and depends on which buffer it is in
/// nothing else.
pub proof fn law_dequeued_step_names_buffer(
    data: ListenerUserData,
    buffer: usize,
    other: usize,
    dequeued: Dequeued,
)
    ensures
        ({
            let (next, action) = data.on_event(ProcessEvent::Dequeued { buffer, dequeued });
            let (other_next, other_action) = data.on_event(
                ProcessEvent::Dequeued { buffer: other, dequeued },
            );
            &&& next == other_next
            &&& match action {
                ProcessAction::ReportOutOfBuffers { buffer: named } => named == buffer
                    && other_action == (ProcessAction::ReportOutOfBuffers { buffer: other }),
                ProcessAction::ReportUnsupported { buffer: named, format } => named == buffer
                    && other_action == (ProcessAction::ReportUnsupported { buffer: other, format }),
                ProcessAction::Capture { buffer: named } => named == buffer && other_action == (
                ProcessAction::Capture { buffer: other }),
                ProcessAction::Queue { buffer: named } => named == buffer && other_action == (
                ProcessAction::Queue { buffer: other }),
                _ => false,
            }
        }),
{
}

/// A copy is sent as a frame in the layout of the negotiated format, with its own time and
/// bytes and the negotiated size, exactly when the format is offered. A copy in any other
/// format is reported once, under its format, and never sent.
pub proof fn law_copied_step(
    data: ListenerUserData,
    buffer: usize,
    display_time: std::time::SystemTime,
    bytes: Vec<u8>,
)
    ensures
        ({
            let (next, action) = data.on_event(
                ProcessEvent::Copied { buffer, display_time, data: bytes },
            );
            if supported(data.format.format) {
                &&& next == data
                &&& action matches ProcessAction::Send { buffer: named, frame: Frame::Video(frame) }
                &&& named == buffer
                &&& frame.display_time() == display_time
                &&& frame.dimensions().0 == signed(data.format.width)
                &&& frame.dimensions().1 == signed(data.format.height)
                &&& frame.data() == bytes
                &&& frame is RGB <==> data.format.format == VideoFormat::RGB
                &&& frame is RGBx <==> (data.format.format == VideoFormat::RGBA
                    || data.format.format == VideoFormat::RGBx)
                &&& frame is XBGR <==> data.format.format == VideoFormat::xBGR
                &&& frame is BGRx <==> data.format.format == VideoFormat::BGRx
            } else if data.unsupported_format_reported {
                &&& next == data
                &&& action == (ProcessAction::Queue { buffer })
            } else {
                &&& next.unsupported_format_reported
                &&& action == (ProcessAction::ReportUndecodable {
                    buffer,
                    format: data.format.format,
                })
            }
        }),
{
    law_offered_iff_decodable(
        data.format.format,
        display_time,
        signed(data.format.width) as i32,
        signed(data.format.height) as i32,
        bytes,
    );
    if supported(data.format.format) {
        law_decoding_preserves_payload(
            data.format.format,
            display_time,
            signed(data.format.width) as i32,
            signed(data.format.height) as i32,
            bytes,
        );
    }
}

/// A frame that follows a negotiation has the negotiated size and layout, whatever was
/// negotiated before.
pub proof fn law_frame_follows_negotiation(
    data: ListenerUserData,
    format: VideoInfo,
    arrival: Arrival,
)
    requires
        arrival.dequeued matches Dequeued::Contents { n_datas } && n_datas >= 1,
        supported(format.format),
    ensures
        data.on_format(format).actions(arrival, ProcessEvent::Called).len() == 5,
        data.on_format(format).actions(arrival, ProcessEvent::Called)[2] matches
            ProcessAction::Send { buffer, frame: Frame::Video(frame) } && {
            &&& buffer == arrival.buffer
            &&& frame.dimensions().0 == signed(format.width)
            &&& frame.dimensions().1 == signed(format.height)
            &&& frame.display_time() == arrival.display_time
            &&& frame.data() == arrival.data
            &&& frame is RGB <==> format.format == VideoFormat::RGB
            &&& frame is RGBx <==> (format.format == VideoFormat::RGBA || format.format
                == VideoFormat::RGBx)
            &&& frame is XBGR <==> format.format == VideoFormat::xBGR
            &&& frame is BGRx <==> format.format == VideoFormat::BGRx
        },
{
    law_captured_is_sent(data.on_format(format), arrival);
}

/// Every call takes exactly one buffer from the stream, first of all, and gives exactly
/// that buffer back exactly once, after everything else. At most one frame is sent, and
/// at most one copy is made.
pub proof fn law_buffer_given_back_once(data: ListenerUserData, arrival: Arrival)
    ensures
        ({
            let actions = data.actions(arrival, ProcessEvent::Called);
            let last = actions.len() - 1;
            &&& last >= 2
            &&& actions[0] == ProcessAction::Dequeue
            &&& actions[last - 1] == ProcessAction::Queue { buffer: arrival.buffer }
            &&& actions[last] == ProcessAction::Finish
            &&& forall|i: int|
                0 <= i <= last ==> {
                    &&& (#[trigger] actions[i] is Dequeue <==> i == 0)
                    &&& (actions[i] is Queue <==> i == last - 1)
                    &&& (actions[i] is Finish <==> i == last)
                }
            &&& forall|i: int, j: int|
                0 <= i <= last && 0 <= j <= last && #[trigger] actions[i] is Send
                    && #[trigger] actions[j] is Send ==> i == j
            &&& forall|i: int, j: int|
                0 <= i <= last && 0 <= j <= last && #[trigger] actions[i] is Capture
                    && #[trigger] actions[j] is Capture ==> i == j
        }),
{
    match arrival.dequeued {
        Dequeued::OutOfBuffers => {
            law_out_of_buffers(data, arrival);
        },
        Dequeued::Empty => {
            law_nothing_to_capture(data, arrival);
        },
        Dequeued::Contents { n_datas } => {
            if n_datas < 1 {
                law_nothing_to_capture(data, arrival);
            } else if supported(data.format.format) {
                law_captured_is_sent(data, arrival);
            } else {
                law_unusable_format(data, arrival);
            }
        },
    }
}

/// Bytes are copied out of a buffer exactly when it holds data in a format that is
/// offered: frames of any other format are turned away before the copy.
pub proof fn law_captured_iff_supported(data: ListenerUserData, buffer: usize, dequeued: Dequeued)
    ensures
        data.on_event(ProcessEvent::Dequeued { buffer, dequeued }).1 is Capture <==> {
            &&& dequeued matches Dequeued::Contents { n_datas }
            &&& n_datas >= 1
            &&& supported(data.format.format)
        },
{
}

/// One call of a callback, as far as it bears on the memory of the listener.
pub enum Callback {
    /// A format was negotiated.
    Negotiated(VideoInfo),
    /// A buffer was processed.
    Processed(Arrival),
}

impl ListenerUserData {
    /// The memory after a callback.
    pub open spec fn after(self, callback: Callback) -> ListenerUserData {
        match callback {
            Callback::Negotiated(format) => self.on_format(format),
            Callback::Processed(arrival) => self.finished(arrival, ProcessEvent::Called),
        }
    }

    /// How many reports of an unusable format a callback leads to.
    pub open spec fn reports(self, callback: Callback) -> nat {
        match callback {
            Callback::Negotiated(_) => 0,
            Callback::Processed(arrival) => format_reports(
                self.actions(arrival, ProcessEvent::Called),
            ),
        }
    }

    /// How many reports of an unusable format a run of callbacks leads to.
    pub open spec fn total_reports(self, callbacks: Seq<Callback>) -> nat
        decreases callbacks.len(),
    {
        if callbacks.len() == 0 {
            0
        } else {
            self.reports(callbacks[0]) + self.after(callbacks[0]).total_reports(
                callbacks.drop_first(),
            )
        }
    }
}

/// How many formats are negotiated in a run of callbacks.
pub open spec fn negotiations(callbacks: Seq<Callback>) -> nat
    decreases callbacks.len(),
{
    if callbacks.len() == 0 {
        0
    } else {
        (if callbacks[0] is Negotiated {
            1nat
        } else {
            0nat
        }) + negotiations(callbacks.drop_first())
    }
}

/// Within a call, a report is made exactly when it is noted in the memory.
proof fn lemma_reports_noted(data: ListenerUserData, arrival: Arrival, event: ProcessEvent)
    ensures
        format_reports(data.actions(arrival, event)) == (if data.finished(
            arrival,
            event,
        ).unsupported_format_reported {
            1int
        } else {
            0int
        }) - (if data.unsupported_format_reported {
            1int
        } else {
            0int
        }),
    decreases steps_left(event),
{
    let (next, action) = data.on_event(event);
    if action is Finish {
        assert(seq![action].drop_first() =~= seq![]);
        reveal_with_fuel(format_reports, 2);
    } else {
        let rest = next.actions(arrival, arrival.answer(action));
        lemma_reports_noted(next, arrival, arrival.answer(action));
        assert((seq![action] + rest).drop_first() =~= rest);
    }
}

/// However many buffers are processed, an unusable format is reported at most once, and
/// at most once more for each format that is negotiated. After a report, only a
/// negotiation allows another one.
pub proof fn law_reports_bounded(data: ListenerUserData, callbacks: Seq<Callback>)
    ensures
        data.total_reports(callbacks) <= negotiations(callbacks)
            + if data.unsupported_format_reported {
            0nat
        } else {
            1nat
        },
    decreases callbacks.len(),
{
    if callbacks.len() > 0 {
        if let Callback::Processed(arrival) = callbacks[0] {
            lemma_reports_noted(data, arrival, ProcessEvent::Called);
        }
        law_reports_bounded(data.after(callbacks[0]), callbacks.drop_first());
    }
}

} // verus!
