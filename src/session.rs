use vstd::prelude::*;
use crate::naming::{decimal, push_decimal, push_zero_padded, zero_padded};

verus! {

/// The capture side of a stream.
#[derive(Clone, Copy, Debug, PartialEq, Eq, Structural)]
pub enum Direction {
    /// The microphone-class input device.
    Input,
    /// The system-output (loopback) device.
    Output,
}

/// Why a capture session could not start.
#[derive(Clone, Copy, Debug, PartialEq, Eq, Structural)]
pub enum CaptureError {
    /// The platform reports no default device for the direction.
    DeviceNotFound(Direction),
    /// Every attempt to build the direction's stream failed.
    StreamBuildFailed(Direction),
}

impl CaptureError {
    /// The message shown to the user.
    pub fn message(&self) -> (r: String)
        ensures
            *self == CaptureError::DeviceNotFound(Direction::Input) ==> r@
                == "No default input device found"@,
            *self == CaptureError::DeviceNotFound(Direction::Output) ==> r@
                == "No default output device found"@,
            self is StreamBuildFailed ==> r@ == "Failed after 3 attempts"@,
    {
        match self {
            CaptureError::DeviceNotFound(Direction::Input) => String::from_str(
                "No default input device found",
            ),
            CaptureError::DeviceNotFound(Direction::Output) => String::from_str(
                "No default output device found",
            ),
            CaptureError::StreamBuildFailed(_) => String::from_str("Failed after 3 attempts"),
        }
    }
}

/// The label of a session started at the given local date and time:
/// `YYYYMMDD_HHMMSS`.
pub open spec fn label_of(year: u32, month: u32, day: u32, hour: u32, minute: u32, second: u32) -> Seq<char> {
    zero_padded(year as nat, 4) + zero_padded(month as nat, 2) + zero_padded(day as nat, 2)
        + "_"@ + zero_padded(hour as nat, 2) + zero_padded(minute as nat, 2) + zero_padded(
        second as nat,
        2,
    )
}

/// Formats the label of a session started at the given local date and time.
pub fn session_label(year: u32, month: u32, day: u32, hour: u32, minute: u32, second: u32) -> (r: String)
    ensures
        r@ == label_of(year, month, day, hour, minute, second),
{
    let mut s = String::new();
    push_zero_padded(&mut s, year as u64, 4);
    push_zero_padded(&mut s, month as u64, 2);
    push_zero_padded(&mut s, day as u64, 2);
    s.append("_");
    push_zero_padded(&mut s, hour as u64, 2);
    push_zero_padded(&mut s, minute as u64, 2);
    push_zero_padded(&mut s, second as u64, 2);
    assert(s@ =~= label_of(year, month, day, hour, minute, second));
    s
}

/// The prefix of the segment files of a direction.
pub open spec fn segment_prefix(direction: Direction) -> Seq<char> {
    match direction {
        Direction::Input => "mic_recording_"@,
        Direction::Output => "speaker_recording_"@,
    }
}

/// The name of segment `index` of a direction in the session labelled `label`.
pub open spec fn segment_name(direction: Direction, label: Seq<char>, index: nat) -> Seq<char> {
    segment_prefix(direction) + label + "_part"@ + decimal(index) + ".wav"@
}

/// The name of the merged file of a direction.
pub open spec fn merged_name(direction: Direction, label: Seq<char>) -> Seq<char> {
    match direction {
        Direction::Input => "merged_mic_"@ + label + ".wav"@,
        Direction::Output => "merged_speaker_"@ + label + ".wav"@,
    }
}

/// The name of the mixed file of a session.
pub open spec fn superimposed_name(label: Seq<char>) -> Seq<char> {
    "superimposed_"@ + label + ".wav"@
}

/// The name of the final compressed file when the caller gives none.
pub open spec fn default_output_name(label: Seq<char>) -> Seq<char> {
    "final_"@ + label + ".mp3"@
}

/// Names segment `index` of `direction` in the session labelled `label`.
pub fn segment_file_name(direction: Direction, label: &str, index: u64) -> (r: String)
    ensures
        r@ == segment_name(direction, label@, index as nat),
{
    let mut s = match direction {
        Direction::Input => String::from_str("mic_recording_"),
        Direction::Output => String::from_str("speaker_recording_"),
    };
    s.append(label);
    s.append("_part");
    push_decimal(&mut s, index);
    s.append(".wav");
    s
}

/// Names the merged file of `direction` in the session labelled `label`.
pub fn merged_file_name(direction: Direction, label: &str) -> (r: String)
    ensures
        r@ == merged_name(direction, label@),
{
    let mut s = match direction {
        Direction::Input => String::from_str("merged_mic_"),
        Direction::Output => String::from_str("merged_speaker_"),
    };
    s.append(label);
    s.append(".wav");
    s
}

/// Names the mixed file of the session labelled `label`.
pub fn superimposed_file_name(label: &str) -> (r: String)
    ensures
        r@ == superimposed_name(label@),
{
    let mut s = String::from_str("superimposed_");
    s.append(label);
    s.append(".wav");
    s
}

/// The final output path: the caller's, or one derived from the label.
pub fn final_output_name(label: &str, requested: Option<String>) -> (r: String)
    ensures
        requested matches Some(p) ==> r@ == p@,
        requested is None ==> r@ == default_output_name(label@),
{
    match requested {
        Some(p) => p,
        None => {
            let mut s = String::from_str("final_");
            s.append(label);
            s.append(".mp3");
            s
        },
    }
}

/// `name` is the name of some segment of `direction` in the session labelled
/// `label`.
pub open spec fn is_segment_of(name: Seq<char>, direction: Direction, label: Seq<char>) -> bool {
    exists|k: nat| name == segment_name(direction, label, k)
}

/// The views of a list of strings.
pub open spec fn views(v: Seq<String>) -> Seq<Seq<char>> {
    Seq::new(v.len(), |i: int| v[i]@)
}

/// The bookkeeping of one capture session: its label, the next segment index,
/// the segment files written so far for each direction, and whether it is
/// still recording.
pub struct CaptureSession {
    pub label: String,
    pub segment_index: u64,
    pub input_segments: Vec<String>,
    pub output_segments: Vec<String>,
    pub recording_active: bool,
}

/// The files that the post-processor reads, writes and removes at the end of
/// a session.
pub struct PostProcessPlan {
    pub input_segments: Vec<String>,
    pub output_segments: Vec<String>,
    pub merged_input: String,
    pub merged_output: String,
    pub superimposed: String,
    pub final_output: String,
    /// Every intermediate file, removed once the final output is written.
    pub cleanup: Vec<String>,
}

fn clone_names(v: &Vec<String>) -> (r: Vec<String>)
    ensures
        views(r@) == views(v@),
{
    let mut out: Vec<String> = Vec::new();
    let mut i: usize = 0;
    while i < v.len()
        invariant
            i <= v@.len(),
            out@.len() == i,
            views(out@) =~= views(v@.take(i as int)),
        decreases v@.len() - i,
    {
        let ghost prev = out@;
        out.push(v[i].clone());
        proof {
            assert forall|j: int| 0 <= j < i + 1 implies #[trigger] views(out@)[j] == views(
                v@.take(i + 1),
            )[j] by {
                if j < i {
                    assert(views(prev)[j] == views(v@.take(i as int))[j]);
                }
            }
        }
        i = i + 1;
        assert(views(out@) =~= views(v@.take(i as int)));
    }
    assert(v@.take(i as int) =~= v@);
    out
}

fn append_names(out: &mut Vec<String>, v: &Vec<String>)
    ensures
        views(final(out)@) == views(old(out)@) + views(v@),
{
    let ghost base = views(out@);
    assert(base.len() == out@.len());
    let mut i: usize = 0;
    while i < v.len()
        invariant
            i <= v@.len(),
            out@.len() == base.len() + i,
            views(out@) =~= base + views(v@.take(i as int)),
        decreases v@.len() - i,
    {
        let ghost prev = out@;
        out.push(v[i].clone());
        proof {
            assert forall|j: int| 0 <= j < out@.len() implies #[trigger] views(out@)[j] == (base
                + views(v@.take(i + 1)))[j] by {
                if j < prev.len() {
                    assert(views(prev)[j] == (base + views(v@.take(i as int)))[j]);
                }
            }
        }
        i = i + 1;
        assert(views(out@) =~= base + views(v@.take(i as int)));
    }
    assert(v@.take(i as int) =~= v@);
}

impl CaptureSession {
    /// A session just started under `label`: segment index 1, no segment
    /// written, recording.
    pub fn new(label: String) -> (r: CaptureSession)
        ensures
            r.label@ == label@,
            r.segment_index == 1,
            r.input_segments@.len() == 0,
            r.output_segments@.len() == 0,
            r.recording_active,
            r.wf(),
    {
        CaptureSession {
            label,
            segment_index: 1,
            input_segments: Vec::new(),
            output_segments: Vec::new(),
            recording_active: true,
        }
    }

    /// Every recorded segment file carries its direction's segment name.
    pub open spec fn wf(self) -> bool {
        &&& forall|i: int|
            0 <= i < self.input_segments@.len() ==> is_segment_of(
                (#[trigger] self.input_segments@[i])@,
                Direction::Input,
                self.label@,
            )
        &&& forall|i: int|
            0 <= i < self.output_segments@.len() ==> is_segment_of(
                (#[trigger] self.output_segments@[i])@,
                Direction::Output,
                self.label@,
            )
    }

    /// Takes the index for the next flush and advances the counter; both
    /// directions flushed together share one index.
    pub fn claim_segment_index(&mut self) -> (r: u64)
        requires
            old(self).segment_index < u64::MAX,
        ensures
            r == old(self).segment_index,
            final(self).segment_index == old(self).segment_index + 1,
            final(self).label == old(self).label,
            final(self).input_segments == old(self).input_segments,
            final(self).output_segments == old(self).output_segments,
            final(self).recording_active == old(self).recording_active,
    {
        let r = self.segment_index;
        self.segment_index = self.segment_index + 1;
        r
    }

    /// The name of segment `index` of `direction` in this session.
    pub fn segment_name_for(&self, direction: Direction, index: u64) -> (r: String)
        ensures
            r@ == segment_name(direction, self.label@, index as nat),
    {
        segment_file_name(direction, self.label.as_str(), index)
    }

    /// Records that segment `index` of `direction` was written.
    pub fn record_segment(&mut self, direction: Direction, index: u64)
        requires
            old(self).wf(),
        ensures
            final(self).wf(),
            final(self).label == old(self).label,
            final(self).segment_index == old(self).segment_index,
            final(self).recording_active == old(self).recording_active,
            direction == Direction::Input ==> views(final(self).input_segments@)
                == views(old(self).input_segments@).push(
                segment_name(direction, old(self).label@, index as nat),
            ),
            direction == Direction::Input ==> final(self).output_segments
                == old(self).output_segments,
            direction == Direction::Output ==> views(final(self).output_segments@)
                == views(old(self).output_segments@).push(
                segment_name(direction, old(self).label@, index as nat),
            ),
            direction == Direction::Output ==> final(self).input_segments
                == old(self).input_segments,
    {
        let name = segment_file_name(direction, self.label.as_str(), index);
        proof {
            assert(is_segment_of(name@, direction, self.label@)) by {
                assert(name@ == segment_name(direction, self.label@, index as nat));
            }
        }
        match direction {
            Direction::Input => {
                self.input_segments.push(name);
                assert(views(self.input_segments@) =~= views(old(self).input_segments@).push(
                    segment_name(direction, old(self).label@, index as nat),
                ));
                assert forall|i: int| 0 <= i < self.input_segments@.len() implies is_segment_of(
                    (#[trigger] self.input_segments@[i])@,
                    Direction::Input,
                    self.label@,
                ) by {
                    if i < old(self).input_segments@.len() {
                        assert(self.input_segments@[i] == old(self).input_segments@[i]);
                    }
                }
            },
            Direction::Output => {
                self.output_segments.push(name);
                assert(views(self.output_segments@) =~= views(old(self).output_segments@).push(
                    segment_name(direction, old(self).label@, index as nat),
                ));
                assert forall|i: int| 0 <= i < self.output_segments@.len() implies is_segment_of(
                    (#[trigger] self.output_segments@[i])@,
                    Direction::Output,
                    self.label@,
                ) by {
                    if i < old(self).output_segments@.len() {
                        assert(self.output_segments@[i] == old(self).output_segments@[i]);
                    }
                }
            },
        }
    }

    /// Ends the recording: the health monitor stops at its next poll.
    pub fn stop(&mut self)
        ensures
            !final(self).recording_active,
            final(self).label == old(self).label,
            final(self).segment_index == old(self).segment_index,
            final(self).input_segments == old(self).input_segments,
            final(self).output_segments == old(self).output_segments,
    {
        self.recording_active = false;
    }

    /// Ends the session: recording stops, the post-processing plan of the
    /// files written so far is handed out, and the segment lists are emptied
    /// so that the next session starts from none.
    pub fn finish(&mut self, requested_output: Option<String>) -> (r: PostProcessPlan)
        ensures
            !final(self).recording_active,
            final(self).input_segments@.len() == 0,
            final(self).output_segments@.len() == 0,
            final(self).label == old(self).label,
            final(self).segment_index == old(self).segment_index,
            final(self).wf(),
            views(r.input_segments@) == views(old(self).input_segments@),
            views(r.output_segments@) == views(old(self).output_segments@),
            r.merged_input@ == merged_name(Direction::Input, old(self).label@),
            r.merged_output@ == merged_name(Direction::Output, old(self).label@),
            r.superimposed@ == superimposed_name(old(self).label@),
            requested_output matches Some(p) ==> r.final_output@ == p@,
            requested_output is None ==> r.final_output@ == default_output_name(old(self).label@),
            views(r.cleanup@) == views(old(self).input_segments@) + views(
                old(self).output_segments@,
            ) + seq![
                merged_name(Direction::Input, old(self).label@),
                merged_name(Direction::Output, old(self).label@),
                superimposed_name(old(self).label@),
            ],
    {
        self.recording_active = false;
        let plan = self.post_process_plan(requested_output);
        self.input_segments.clear();
        self.output_segments.clear();
        plan
    }

    /// The post-processing plan of this session: merge each direction's
    /// segments, mix the two merged files, encode the mix to the final path,
    /// then remove every intermediate file.
    pub fn post_process_plan(&self, requested_output: Option<String>) -> (r: PostProcessPlan)
        ensures
            views(r.input_segments@) == views(self.input_segments@),
            views(r.output_segments@) == views(self.output_segments@),
            r.merged_input@ == merged_name(Direction::Input, self.label@),
            r.merged_output@ == merged_name(Direction::Output, self.label@),
            r.superimposed@ == superimposed_name(self.label@),
            requested_output matches Some(p) ==> r.final_output@ == p@,
            requested_output is None ==> r.final_output@ == default_output_name(self.label@),
            views(r.cleanup@) == views(self.input_segments@) + views(self.output_segments@) + seq![
                merged_name(Direction::Input, self.label@),
                merged_name(Direction::Output, self.label@),
                superimposed_name(self.label@),
            ],
    {
        let label = self.label.as_str();
        let merged_input = merged_file_name(Direction::Input, label);
        let merged_output = merged_file_name(Direction::Output, label);
        let superimposed = superimposed_file_name(label);
        let final_output = final_output_name(label, requested_output);
        let mut cleanup: Vec<String> = Vec::new();
        append_names(&mut cleanup, &self.input_segments);
        append_names(&mut cleanup, &self.output_segments);
        let ghost before = views(cleanup@);
        cleanup.push(merged_input.clone());
        cleanup.push(merged_output.clone());
        cleanup.push(superimposed.clone());
        assert(views(cleanup@) =~= before + seq![
            merged_name(Direction::Input, self.label@),
            merged_name(Direction::Output, self.label@),
            superimposed_name(self.label@),
        ]);
        PostProcessPlan {
            input_segments: clone_names(&self.input_segments),
            output_segments: clone_names(&self.output_segments),
            merged_input,
            merged_output,
            superimposed,
            final_output,
            cleanup,
        }
    }
}


/// The end-of-session law: after post-processing, the cleanup list of a
/// well-formed session holds every segment file written for either direction
/// and every merged or mixed intermediate, and never the final output under
/// its default name; so once cleanup is done the one file left is the final
/// output.
pub proof fn lemma_cleanup_leaves_only_output(session: CaptureSession, cleanup: Seq<Seq<char>>)
    requires
        session.wf(),
        cleanup == views(session.input_segments@) + views(session.output_segments@) + seq![
            merged_name(Direction::Input, session.label@),
            merged_name(Direction::Output, session.label@),
            superimposed_name(session.label@),
        ],
    ensures
        forall|i: int|
            0 <= i < session.input_segments@.len() ==> cleanup.contains(
                (#[trigger] session.input_segments@[i])@,
            ),
        forall|i: int|
            0 <= i < session.output_segments@.len() ==> cleanup.contains(
                (#[trigger] session.output_segments@[i])@,
            ),
        cleanup.contains(merged_name(Direction::Input, session.label@)),
        cleanup.contains(merged_name(Direction::Output, session.label@)),
        cleanup.contains(superimposed_name(session.label@)),
        !cleanup.contains(default_output_name(session.label@)),
{
    let label = session.label@;
    let ni = session.input_segments@.len() as int;
    let no = session.output_segments@.len() as int;
    reveal_strlit("final_");
    reveal_strlit("mic_recording_");
    reveal_strlit("speaker_recording_");
    reveal_strlit("merged_mic_");
    reveal_strlit("merged_speaker_");
    reveal_strlit("superimposed_");
    assert forall|i: int| 0 <= i < ni implies cleanup.contains(
        (#[trigger] session.input_segments@[i])@,
    ) by {
        assert(cleanup[i] == session.input_segments@[i]@);
    }
    assert forall|i: int| 0 <= i < no implies cleanup.contains(
        (#[trigger] session.output_segments@[i])@,
    ) by {
        assert(cleanup[ni + i] == session.output_segments@[i]@);
    }
    assert(cleanup[ni + no] == merged_name(Direction::Input, label));
    assert(cleanup[ni + no + 1] == merged_name(Direction::Output, label));
    assert(cleanup[ni + no + 2] == superimposed_name(label));
    let out = default_output_name(label);
    assert(out[0] == 'f');
    assert forall|j: int| 0 <= j < cleanup.len() implies cleanup[j][0] != 'f' by {
        if j < ni {
            let name = session.input_segments@[j]@;
            assert(is_segment_of(name, Direction::Input, label));
            let k = choose|k: nat| name == segment_name(Direction::Input, label, k);
            assert(name[0] == 'm');
        } else if j < ni + no {
            let name = session.output_segments@[j - ni]@;
            assert(is_segment_of(name, Direction::Output, label));
            let k = choose|k: nat| name == segment_name(Direction::Output, label, k);
            assert(name[0] == 's');
        } else if j == ni + no {
            assert(cleanup[j][0] == 'm');
        } else if j == ni + no + 1 {
            assert(cleanup[j][0] == 'm');
        } else {
            assert(cleanup[j][0] == 's');
        }
    }
}

} // verus!
