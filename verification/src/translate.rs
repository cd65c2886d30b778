//! The argument grammar of each engine, and the translator that follows it.

use vstd::prelude::*;
use vstd::string::*;
use crate::decimal::{
    decimal,
    is_numeral_char,
    lemma_signed_decimal_chars,
    render_i8,
    render_u8,
    signed_decimal,
};
use crate::options::{
    calibrated,
    lemma_engines_differ,
    scene_detector,
    transcoder,
    Commands,
    CommandsView,
    Opts,
    OptsView,
};
use crate::output_name::{input_stem, synthesize_output_name, synthesized_name};

verus! {

/// The input arguments: the engine's input flag followed by the path, or
/// nothing without an input path.
pub open spec fn input_args(flag: Seq<char>, input_path: Option<Seq<char>>) -> Seq<Seq<char>> {
    match input_path {
        Some(p) => seq![flag, p],
        None => Seq::empty(),
    }
}

/// The value of the transcoder's video filter: `scale=`, the width, a colon,
/// the height. The token goes to the engine as it stands, with no quotation
/// marks around it.
pub open spec fn scale_filter(width_scale: i8, height_scale: i8) -> Seq<char> {
    "scale="@ + signed_decimal(width_scale as int) + ":"@ + signed_decimal(height_scale as int)
}

/// The transcoder's arguments for extracting frames from a point in time,
/// in the order the engine expects them.
pub open spec fn split_args(
    start_time: Seq<char>,
    video_quality: u8,
    output_format: Seq<char>,
    video_frame: u8,
    width_scale: i8,
    height_scale: i8,
) -> Seq<Seq<char>> {
    seq![
        "-nostdin"@,
        "-stats"@,
        "-v"@,
        "panic"@,
        "-ss"@,
        start_time,
        "-q:v"@,
        decimal(video_quality as nat),
        "-f"@,
        output_format,
        "-vframes"@,
        decimal(video_frame as nat),
        "-vf"@,
        scale_filter(width_scale, height_scale),
    ]
}

/// What the selected action adds to the transcoder's arguments.
pub open spec fn transcoder_action_args(action: Option<CommandsView>) -> Seq<Seq<char>> {
    match action {
        Some(
            CommandsView::SplitByTime {
                start_time,
                video_quality,
                output_format,
                video_frame,
                output_suffix,
                width_scale,
                height_scale,
            },
        ) => split_args(
            start_time,
            video_quality,
            output_format,
            video_frame,
            width_scale,
            height_scale,
        ),
        Some(CommandsView::SceneDetect { .. }) => Seq::empty(),
        None => Seq::empty(),
    }
}

/// The output path the transcoder writes to: the one given, or, when frames
/// are extracted and none was given, the default name. No other action makes
/// up a name.
pub open spec fn resolved_output(o: OptsView) -> Option<Seq<char>> {
    match o.output_path {
        Some(p) => Some(p),
        None => match o.action {
            Some(CommandsView::SplitByTime { output_format, output_suffix, .. }) => Some(
                synthesized_name(input_stem(o.input_path), output_format, output_suffix),
            ),
            Some(CommandsView::SceneDetect { .. }) => None,
            None => None,
        },
    }
}

/// The output argument: the path alone, with no flag, or nothing.
pub open spec fn output_args(output: Option<Seq<char>>) -> Seq<Seq<char>> {
    match output {
        Some(p) => seq![p],
        None => Seq::empty(),
    }
}

/// The transcoder's argument vector: banner suppression first, then the
/// input, then what the action adds, and the output path last.
pub open spec fn transcoder_args(o: OptsView) -> Seq<Seq<char>> {
    seq!["-hide_banner"@] + input_args("-i"@, o.input_path) + transcoder_action_args(o.action)
        + output_args(resolved_output(o))
}

/// The scene detector's commands, one per switch that is on, in fixed order.
pub open spec fn scene_flags(detect_content: bool, list_scenes: bool, split_video: bool) -> Seq<
    Seq<char>,
> {
    (if detect_content {
        seq!["detect-content"@]
    } else {
        Seq::empty()
    }) + (if list_scenes {
        seq!["list-scene"@]
    } else {
        Seq::empty()
    }) + (if split_video {
        seq!["split-video"@]
    } else {
        Seq::empty()
    })
}

/// What the selected action adds to the scene detector's arguments.
pub open spec fn scene_detector_action_args(action: Option<CommandsView>) -> Seq<Seq<char>> {
    match action {
        Some(CommandsView::SceneDetect { detect_content, list_scenes, split_video }) => scene_flags(
            detect_content,
            list_scenes,
            split_video,
        ),
        Some(CommandsView::SplitByTime { .. }) => Seq::empty(),
        None => Seq::empty(),
    }
}

/// The scene detector's argument vector: the input, then the commands.
pub open spec fn scene_detector_args(o: OptsView) -> Seq<Seq<char>> {
    input_args("--input"@, o.input_path) + scene_detector_action_args(o.action)
}

/// Whether `program` names an engine the translator knows.
pub open spec fn known_engine(program: Seq<char>) -> bool {
    program == transcoder() || program == scene_detector()
}

/// The argument vector for the engine that `o.program` names. An engine that
/// the translator does not know gets no arguments.
pub open spec fn translate(o: OptsView) -> Seq<Seq<char>> {
    if o.program == transcoder() {
        transcoder_args(o)
    } else if o.program == scene_detector() {
        scene_detector_args(o)
    } else {
        Seq::empty()
    }
}

/// Appends one argument.
fn push_arg(args: &mut Vec<String>, arg: String)
    ensures
        final(args).deep_view() == old(args).deep_view().push(arg@),
{
    args.push(arg);
    assert(args.deep_view() =~= old(args).deep_view().push(arg@));
}

/// Appends the input flag and the input path, where there is a path.
fn push_input(args: &mut Vec<String>, flag: &str, input_path: &Option<String>)
    ensures
        final(args).deep_view() == old(args).deep_view() + input_args(
            flag@,
            input_path.deep_view(),
        ),
{
    match input_path {
        Some(p) => {
            push_arg(args, flag.to_owned());
            push_arg(args, p.clone());
        },
        None => {},
    }
    assert(args.deep_view() =~= old(args).deep_view() + input_args(flag@, input_path.deep_view()));
}

/// Writes the value of the transcoder's video filter. The token is handed to
/// the engine directly, not through a shell, so it carries no quotation
/// marks: with them the engine would not read it as a filter.
pub fn scale_token(width_scale: i8, height_scale: i8) -> (token: String)
    ensures
        token@ == scale_filter(width_scale, height_scale),
{
    let mut token = "scale=".to_owned();
    token.append(render_i8(width_scale).as_str());
    token.append(":");
    token.append(render_i8(height_scale).as_str());
    token
}

impl Opts {
    /// Translates the options into the argument vector of the engine that
    /// `program` names. Order matters to the engines and is kept as the
    /// grammar gives it; every token is passed as it stands. Options that
    /// name an engine the translator does not know translate to no arguments.
    pub fn to_args(&self) -> (args: Vec<String>)
        ensures
            args.deep_view() == translate(self@),
            !known_engine(self@.program) ==> args@.len() == 0,
    {
        let mut args: Vec<String> = Vec::new();
        let ffmpeg = "ffmpeg".to_owned();
        let scenedetect = "scenedetect".to_owned();
        assert(args.deep_view() =~= Seq::<Seq<char>>::empty());
        if self.program == ffmpeg {
            push_arg(&mut args, "-hide_banner".to_owned());
            push_input(&mut args, "-i", &self.input_path);
            let mut output_path = self.output_path.clone();
            match &self.action {
                Some(
                    Commands::SplitByTime {
                        start_time,
                        video_quality,
                        output_format,
                        video_frame,
                        output_suffix,
                        width_scale,
                        height_scale,
                    },
                ) => {
                    push_arg(&mut args, "-nostdin".to_owned());
                    push_arg(&mut args, "-stats".to_owned());
                    push_arg(&mut args, "-v".to_owned());
                    push_arg(&mut args, "panic".to_owned());
                    push_arg(&mut args, "-ss".to_owned());
                    push_arg(&mut args, start_time.clone());
                    push_arg(&mut args, "-q:v".to_owned());
                    push_arg(&mut args, render_u8(*video_quality));
                    push_arg(&mut args, "-f".to_owned());
                    push_arg(&mut args, output_format.clone());
                    push_arg(&mut args, "-vframes".to_owned());
                    push_arg(&mut args, render_u8(*video_frame));
                    push_arg(&mut args, "-vf".to_owned());
                    push_arg(&mut args, scale_token(*width_scale, *height_scale));
                    if output_path.is_none() {
                        output_path = Some(
                            synthesize_output_name(
                                &self.input_path,
                                output_format.as_str(),
                                output_suffix.as_str(),
                            ),
                        );
                    }
                },
                Some(Commands::SceneDetect { .. }) => {},
                None => {},
            }
            assert(output_path.deep_view() == resolved_output(self@));
            match output_path {
                Some(p) => {
                    push_arg(&mut args, p);
                },
                None => {},
            }
            assert(args.deep_view() =~= transcoder_args(self@));
        } else if self.program == scenedetect {
            push_input(&mut args, "--input", &self.input_path);
            match &self.action {
                Some(Commands::SceneDetect { detect_content, list_scenes, split_video }) => {
                    if *detect_content {
                        push_arg(&mut args, "detect-content".to_owned());
                    }
                    if *list_scenes {
                        push_arg(&mut args, "list-scene".to_owned());
                    }
                    if *split_video {
                        push_arg(&mut args, "split-video".to_owned());
                    }
                },
                Some(Commands::SplitByTime { .. }) => {},
                None => {},
            }
            assert(args.deep_view() =~= scene_detector_args(self@));
        }
        args
    }
}

/// Translating the same options twice gives the same argument vector, token
/// for token and character for character.
pub proof fn lemma_to_args_is_repeatable(opts: Opts, first: Vec<String>, second: Vec<String>)
    requires
        call_ensures(Opts::to_args, (&opts,), first),
        call_ensures(Opts::to_args, (&opts,), second),
    ensures
        first.deep_view() == second.deep_view(),
        first@.len() == second@.len(),
        forall|i: int| 0 <= i < first@.len() ==> first@[i]@ == second@[i]@,
{
    assert(first.deep_view().len() == first@.len());
    assert(second.deep_view().len() == second@.len());
    assert forall|i: int| 0 <= i < first@.len() implies first@[i]@ == second@[i]@ by {
        assert(first.deep_view()[i] == first@[i]@);
        assert(second.deep_view()[i] == second@[i]@);
    }
}

/// An engine that the translator does not know gets an empty argument
/// vector, whatever else the options hold.
pub proof fn lemma_unknown_engine_gets_nothing(o: OptsView)
    requires
        !known_engine(o.program),
    ensures
        translate(o) == Seq::<Seq<char>>::empty(),
{
}

/// After calibration a scene-detection request is translated by the scene
/// detector's grammar, whatever engine was named before: the input, then one
/// command for each switch that is on.
pub proof fn lemma_scene_detection_uses_the_scene_detector(
    o: OptsView,
    detect_content: bool,
    list_scenes: bool,
    split_video: bool,
)
    requires
        o.action == Some(CommandsView::SceneDetect { detect_content, list_scenes, split_video }),
    ensures
        translate(calibrated(o)) == input_args("--input"@, o.input_path) + scene_flags(
            detect_content,
            list_scenes,
            split_video,
        ),
{
    lemma_engines_differ();
}

/// The translation reads the engine, the two paths and the action, and
/// nothing else: options that agree on those translate alike.
pub proof fn lemma_translate_ignores_flags(a: OptsView, b: OptsView)
    requires
        a.program == b.program,
        a.input_path == b.input_path,
        a.output_path == b.output_path,
        a.action == b.action,
    ensures
        translate(a) == translate(b),
{
}

/// The transcoder's arguments begin with banner suppression, and where there
/// is an output path, given or made up, it comes last.
pub proof fn lemma_transcoder_args_ends(o: OptsView)
    ensures
        transcoder_args(o).len() >= 1,
        transcoder_args(o)[0] == "-hide_banner"@,
        resolved_output(o) matches Some(p) ==> transcoder_args(o).last() == p,
{
}

/// The video filter token holds no quotation mark of either kind: only the
/// letters of `scale=`, the colon, digits and minus signs.
pub proof fn lemma_scale_filter_is_unquoted(width_scale: i8, height_scale: i8)
    ensures
        forall|i: int|
            0 <= i < scale_filter(width_scale, height_scale).len() ==> {
                let c = #[trigger] scale_filter(width_scale, height_scale)[i];
                c != '"' && c != '\''
            },
{
    reveal_strlit("scale=");
    reveal_strlit(":");
    lemma_signed_decimal_chars(width_scale as int);
    lemma_signed_decimal_chars(height_scale as int);
    let w = signed_decimal(width_scale as int);
    let h = signed_decimal(height_scale as int);
    let token = scale_filter(width_scale, height_scale);
    assert forall|i: int| 0 <= i < token.len() implies {
        let c = #[trigger] token[i];
        c != '"' && c != '\''
    } by {
        if i < 6 {
            assert(token[i] == "scale="@[i]);
        } else if i < 6 + w.len() {
            assert(token[i] == w[i - 6]);
            assert(is_numeral_char(w[i - 6]));
        } else if i == 6 + w.len() {
            assert(token[i] == ":"@[0]);
        } else {
            assert(token[i] == h[i - 7 - w.len()]);
            assert(is_numeral_char(h[i - 7 - w.len()]));
        }
    }
}

} // verus!
