//! The options model: what the user asked for, and which engine serves it.

use vstd::prelude::*;

verus! {

/// The executable name of the general transcoder.
pub open spec fn transcoder() -> Seq<char> {
    "ffmpeg"@
}

/// The executable name of the scene-detection tool.
pub open spec fn scene_detector() -> Seq<char> {
    "scenedetect"@
}

/// The action selected on the command line.
#[derive(Debug, Clone)]
pub enum Commands {
    /// Find scene changes in the input, served by the scene detector.
    SceneDetect { detect_content: bool, list_scenes: bool, split_video: bool },
    /// Extract frames starting at a point in time, served by the transcoder.
    SplitByTime {
        start_time: String,
        video_quality: u8,
        output_format: String,
        video_frame: u8,
        output_suffix: String,
        width_scale: i8,
        height_scale: i8,
    },
}

/// The mathematical content of a [`Commands`] value.
pub enum CommandsView {
    SceneDetect { detect_content: bool, list_scenes: bool, split_video: bool },
    SplitByTime {
        start_time: Seq<char>,
        video_quality: u8,
        output_format: Seq<char>,
        video_frame: u8,
        output_suffix: Seq<char>,
        width_scale: i8,
        height_scale: i8,
    },
}

impl View for Commands {
    type V = CommandsView;

    open spec fn view(&self) -> CommandsView {
        match *self {
            Commands::SceneDetect { detect_content, list_scenes, split_video } => {
                CommandsView::SceneDetect { detect_content, list_scenes, split_video }
            },
            Commands::SplitByTime {
                start_time,
                video_quality,
                output_format,
                video_frame,
                output_suffix,
                width_scale,
                height_scale,
            } => CommandsView::SplitByTime {
                start_time: start_time@,
                video_quality,
                output_format: output_format@,
                video_frame,
                output_suffix: output_suffix@,
                width_scale,
                height_scale,
            },
        }
    }
}

/// Everything one invocation was asked to do.
///
/// `program` names the engine that will run. It starts out as whatever the
/// caller chose and is settled by [`Opts::calibrate`].
#[derive(Debug, Clone)]
pub struct Opts {
    pub program: String,
    pub gui: bool,
    pub input_path: Option<String>,
    pub output_path: Option<String>,
    pub action: Option<Commands>,
    pub verbose: bool,
    pub dryrun: bool,
}

/// The mathematical content of an [`Opts`] value.
pub struct OptsView {
    pub program: Seq<char>,
    pub gui: bool,
    pub input_path: Option<Seq<char>>,
    pub output_path: Option<Seq<char>>,
    pub action: Option<CommandsView>,
    pub verbose: bool,
    pub dryrun: bool,
}

impl View for Opts {
    type V = OptsView;

    open spec fn view(&self) -> OptsView {
        OptsView {
            program: self.program@,
            gui: self.gui,
            input_path: self.input_path.deep_view(),
            output_path: self.output_path.deep_view(),
            action: match self.action {
                Some(c) => Some(c@),
                None => None,
            },
            verbose: self.verbose,
            dryrun: self.dryrun,
        }
    }
}

/// The engine that serves an action: scene detection always runs on the scene
/// detector, and every other action keeps the engine already chosen.
pub open spec fn engine_for(program: Seq<char>, action: Option<CommandsView>) -> Seq<char> {
    match action {
        Some(CommandsView::SceneDetect { .. }) => scene_detector(),
        Some(CommandsView::SplitByTime { .. }) => program,
        None => program,
    }
}

/// The options after calibration: the same request, with the engine settled.
pub open spec fn calibrated(o: OptsView) -> OptsView {
    OptsView { program: engine_for(o.program, o.action), ..o }
}

impl Opts {
    /// Settles which engine runs: selecting scene detection forces the scene
    /// detector, whatever engine was named before; any other action leaves
    /// the engine alone. Nothing but `program` changes.
    pub fn calibrate(&mut self)
        ensures
            final(self)@ == calibrated(old(self)@),
            old(self)@.action matches Some(CommandsView::SceneDetect { .. })
                ==> final(self)@.program == scene_detector(),
            !(old(self)@.action matches Some(CommandsView::SceneDetect { .. }))
                ==> final(self)@.program == old(self)@.program,
    {
        match &self.action {
            Some(Commands::SceneDetect { .. }) => {
                self.program = "scenedetect".to_owned();
            },
            Some(Commands::SplitByTime { .. }) => {},
            None => {},
        }
    }
}

impl Default for Opts {
    /// Options that ask for nothing: no engine named, no paths, no action,
    /// every flag off.
    fn default() -> (o: Opts)
        ensures
            o@.program == Seq::<char>::empty(),
            o@.input_path is None,
            o@.output_path is None,
            o@.action is None,
            !o@.gui,
            !o@.verbose,
            !o@.dryrun,
    {
        Opts {
            program: String::new(),
            gui: false,
            input_path: None,
            output_path: None,
            action: None,
            verbose: false,
            dryrun: false,
        }
    }
}

/// The two engines go by different names.
pub proof fn lemma_engines_differ()
    ensures
        transcoder() != scene_detector(),
{
    reveal_strlit("ffmpeg");
    reveal_strlit("scenedetect");
    assert(transcoder().len() == 6);
    assert(scene_detector().len() == 11);
}

/// Calibrating twice settles on the same engine as calibrating once.
pub proof fn lemma_calibrated_is_idempotent(o: OptsView)
    ensures
        calibrated(calibrated(o)) == calibrated(o),
{
}

} // verus!
