//! The configuration of one image request and the command it compiles to.

use crate::algorithm::Algorithm;
use crate::aspect::Aspect;
use crate::choices::{Choices, ChoicesView};
use crate::text::{decimal, is_blank, push_decimal, trim, trimmed};
use crate::themes::{rendered, segments, Themes};
use vstd::prelude::*;
use vstd::string::*;

verus! {

/// The stylize strength that the service applies when none is given.
pub const DEFAULT_STYLIZE: u32 = 2500;

/// The least stylize strength.
pub const MIN_STYLIZE: u32 = 625;

/// The greatest stylize strength.
pub const MAX_STYLIZE: u32 = 60000;

/// The single-select axes of a configuration.
#[derive(Clone, Copy, Debug, PartialEq, Eq, Structural)]
pub enum Axis {
    Style,
    Color,
    Body,
    Hair,
    Pose,
}

/// `n` brought into the range of stylize strengths.
pub open spec fn clamped(n: nat) -> nat {
    if n < 625 {
        625
    } else if n > 60000 {
        60000
    } else {
        n
    }
}

/// ` --stylize {n}`, or nothing for the default strength.
pub open spec fn stylize_flag(stylize: nat) -> Seq<char> {
    if stylize == 2500 {
        Seq::empty()
    } else {
        " --stylize "@ + decimal(stylize)
    }
}

/// ` --video` where a video is asked for.
pub open spec fn video_flag(video: bool) -> Seq<char> {
    if video {
        " --video"@
    } else {
        Seq::empty()
    }
}

/// ` --sameseed {seed}` where the seed is in use, whatever the seed.
pub open spec fn seed_flag(use_seed: bool, seed: nat) -> Seq<char> {
    if use_seed {
        " --sameseed "@ + decimal(seed)
    } else {
        Seq::empty()
    }
}

/// Appends the stylize flag to `out`.
fn push_stylize_flag(out: &mut String, stylize: u32)
    ensures
        final(out)@ == old(out)@ + stylize_flag(stylize as nat),
{
    if stylize != DEFAULT_STYLIZE {
        out.append(" --stylize ");
        push_decimal(out, stylize);
    }
}

/// Appends the video flag to `out`.
fn push_video_flag(out: &mut String, video: bool)
    ensures
        final(out)@ == old(out)@ + video_flag(video),
{
    if video {
        out.append(" --video");
    }
}

/// Appends the seed flag to `out`.
fn push_seed_flag(out: &mut String, use_seed: bool, seed: u32)
    ensures
        final(out)@ == old(out)@ + seed_flag(use_seed, seed as nat),
{
    if use_seed {
        out.append(" --sameseed ");
        push_decimal(out, seed);
    }
}

/// What a [`Prompt`] holds, as plain values.
pub struct PromptView {
    pub text: Seq<char>,
    pub style: ChoicesView,
    pub themes: Seq<(Seq<char>, bool)>,
    pub color: ChoicesView,
    pub body: ChoicesView,
    pub hair: ChoicesView,
    pub pose: ChoicesView,
    pub algorithm: Algorithm,
    pub aspect: Aspect,
    pub stylize: nat,
    pub use_seed: bool,
    pub seed: nat,
    pub video: bool,
    pub copy_on_change: bool,
    pub copied_command: Seq<char>,
}

impl PromptView {
    /// The stylize strength is in its range and every axis has a slot.
    pub open spec fn wf(self) -> bool {
        &&& 625 <= self.stylize <= 60000
        &&& self.style.wf()
        &&& self.color.wf()
        &&& self.body.wf()
        &&& self.hair.wf()
        &&& self.pose.wf()
    }

    /// The axis of that name.
    pub open spec fn axis(self, axis: Axis) -> ChoicesView {
        match axis {
            Axis::Style => self.style,
            Axis::Color => self.color,
            Axis::Body => self.body,
            Axis::Hair => self.hair,
            Axis::Pose => self.pose,
        }
    }

    /// The same configuration with `choices` on the axis of that name.
    pub open spec fn with_axis(self, axis: Axis, choices: ChoicesView) -> PromptView {
        match axis {
            Axis::Style => PromptView { style: choices, ..self },
            Axis::Color => PromptView { color: choices, ..self },
            Axis::Body => PromptView { body: choices, ..self },
            Axis::Hair => PromptView { hair: choices, ..self },
            Axis::Pose => PromptView { pose: choices, ..self },
        }
    }

    /// The descriptive part of the command: the prefix, the trimmed text, and
    /// a segment for style, body, hair, pose, each theme, and color, in that order.
    pub open spec fn subject(self) -> Seq<char> {
        "/imagine prompt: "@ + trimmed(self.text) + self.style.segment(Seq::empty())
            + self.body.segment(" body"@) + self.hair.segment(" hair"@) + self.pose.segment(
            " pose"@,
        ) + segments(rendered(self.themes)) + self.color.segment(" colors"@)
    }

    /// The flags of the command: stylize, aspect ratio, video, seed and
    /// algorithm, in that order, each only where it departs from the default.
    pub open spec fn flags(self) -> Seq<char> {
        stylize_flag(self.stylize) + self.aspect.flag() + video_flag(self.video) + seed_flag(
            self.use_seed,
            self.seed,
        ) + self.algorithm.flag()
    }

    /// The command that the configuration compiles to: the descriptive part,
    /// then the flags.
    pub open spec fn command(self) -> Seq<char> {
        self.subject() + stylize_flag(self.stylize) + self.aspect.flag() + video_flag(self.video)
            + seed_flag(self.use_seed, self.seed) + self.algorithm.flag()
    }

    /// Whether the command is to be copied now. A configuration without text
    /// is never copied. One that copies on change is copied when its command
    /// differs from `previous`, the command before the latest changes; any
    /// other when the user has asked for it.
    pub open spec fn copy_due(self, previous: Seq<char>, asked: bool) -> bool {
        !is_blank(self.text) && (if self.copy_on_change {
            self.command() != previous
        } else {
            asked
        })
    }

    /// What is shown after an attempt to copy the command: the command
    /// itself, or why copying failed.
    pub open spec fn copy_report(self, failure: Option<Seq<char>>) -> Seq<char> {
        match failure {
            None => "copied command:\n"@ + self.command(),
            Some(reason) => "error copying command: "@ + reason,
        }
    }

    /// The configuration that a first run starts with.
    pub open spec fn initial() -> PromptView {
        PromptView {
            text: Seq::empty(),
            style: ChoicesView {
                current: None,
                options: seq!["ultra realistic"@, "lo-fi anime"@],
            },
            themes: seq![("cyberpunk"@, false), ("steampunk"@, false)],
            color: ChoicesView {
                current: None,
                options: seq!["vibrant"@, "muted"@, "grayscale"@, "high contrast"@],
            },
            body: ChoicesView { current: None, options: seq!["feminine"@, "masculine"@] },
            hair: ChoicesView {
                current: None,
                options: seq!["blonde"@, "brown"@, "black"@, "red"@, "light brown"@],
            },
            pose: ChoicesView {
                current: None,
                options: seq!["dynamic"@, "relaxed"@, "confident"@],
            },
            algorithm: Algorithm::V3,
            aspect: Aspect::Square,
            stylize: 2500,
            use_seed: false,
            seed: 0,
            video: false,
            copy_on_change: true,
            copied_command: Seq::empty(),
        }
    }
}

/// The configuration of one image request.
#[derive(Debug)]
pub struct Prompt {
    pub(crate) text: String,
    pub(crate) style: Choices,
    pub(crate) themes: Themes,
    pub(crate) color: Choices,
    pub(crate) body: Choices,
    pub(crate) hair: Choices,
    pub(crate) pose: Choices,
    pub(crate) algorithm: Algorithm,
    pub(crate) aspect: Aspect,
    pub(crate) stylize: u32,
    pub(crate) video: bool,
    pub(crate) copy_on_change: bool,
    pub(crate) use_seed: bool,
    pub(crate) seed: u32,
    pub(crate) copied_command: String,
}

impl View for Prompt {
    type V = PromptView;

    open(crate) spec fn view(&self) -> PromptView {
        PromptView {
            text: self.text@,
            style: self.style@,
            themes: self.themes@,
            color: self.color@,
            body: self.body@,
            hair: self.hair@,
            pose: self.pose@,
            algorithm: self.algorithm,
            aspect: self.aspect,
            stylize: self.stylize as nat,
            use_seed: self.use_seed,
            seed: self.seed as nat,
            video: self.video,
            copy_on_change: self.copy_on_change,
            copied_command: self.copied_command@,
        }
    }
}

impl Default for Prompt {
    /// The configuration that a first run starts with.
    fn default() -> (r: Prompt)
        ensures
            r@ == PromptView::initial(),
            r@.wf(),
    {
        let style = Choices::new(&["ultra realistic", "lo-fi anime"]);
        let color = Choices::new(&["vibrant", "muted", "grayscale", "high contrast"]);
        let body = Choices::new(&["feminine", "masculine"]);
        let hair = Choices::new(&["blonde", "brown", "black", "red", "light brown"]);
        let pose = Choices::new(&["dynamic", "relaxed", "confident"]);
        let themes = Themes::new(vec![("cyberpunk".to_owned(), false), ("steampunk".to_owned(), false)]);
        assert(style@.options =~= PromptView::initial().style.options);
        assert(color@.options =~= PromptView::initial().color.options);
        assert(body@.options =~= PromptView::initial().body.options);
        assert(hair@.options =~= PromptView::initial().hair.options);
        assert(pose@.options =~= PromptView::initial().pose.options);
        assert(themes@ =~= PromptView::initial().themes);
        Prompt {
            text: String::new(),
            style,
            themes,
            color,
            body,
            hair,
            pose,
            algorithm: Algorithm::V3,
            aspect: Aspect::Square,
            stylize: DEFAULT_STYLIZE,
            use_seed: false,
            seed: 0,
            video: false,
            copy_on_change: true,
            copied_command: String::new(),
        }
    }
}

impl Prompt {
    /// The axis of that name.
    pub fn axis(&self, axis: Axis) -> (r: &Choices)
        ensures
            r@ == self@.axis(axis),
    {
        match axis {
            Axis::Style => &self.style,
            Axis::Color => &self.color,
            Axis::Body => &self.body,
            Axis::Hair => &self.hair,
            Axis::Pose => &self.pose,
        }
    }

    /// The axis of that name, to change it. Nothing else of the configuration
    /// changes, and the stylize strength stays in its range.
    pub fn axis_mut(&mut self, axis: Axis) -> (r: &mut Choices)
        ensures
            r@ == old(self)@.axis(axis),
            final(self)@ == old(self)@.with_axis(axis, final(r)@),
            old(self)@.wf() && final(r)@.wf() ==> final(self)@.wf(),
    {
        match axis {
            Axis::Style => &mut self.style,
            Axis::Color => &mut self.color,
            Axis::Body => &mut self.body,
            Axis::Hair => &mut self.hair,
            Axis::Pose => &mut self.pose,
        }
    }

    /// The themes.
    pub fn themes(&self) -> (r: &Themes)
        ensures
            r@ == self@.themes,
    {
        &self.themes
    }

    /// The themes, to change them. Nothing else of the configuration changes.
    pub fn themes_mut(&mut self) -> (r: &mut Themes)
        ensures
            r@ == old(self)@.themes,
            final(self)@ == (PromptView { themes: final(r)@, ..old(self)@ }),
            old(self)@.wf() ==> final(self)@.wf(),
    {
        &mut self.themes
    }
    /// The free text that describes the subject.
    pub fn text(&self) -> (r: &str)
        ensures
            r@ == self@.text,
    {
        self.text.as_str()
    }

    /// Replaces the free text.
    pub fn set_text(&mut self, text: String)
        ensures
            final(self)@ == (PromptView { text: text@, ..old(self)@ }),
            old(self)@.wf() ==> final(self)@.wf(),
    {
        self.text = text;
    }

    /// The rendering algorithm.
    pub fn algorithm(&self) -> (r: Algorithm)
        ensures
            r == self@.algorithm,
    {
        self.algorithm
    }

    /// Changes the algorithm. An aspect that the new algorithm does not
    /// permit is remapped, so that afterwards the aspect is a permitted one.
    pub fn set_algorithm(&mut self, algorithm: Algorithm)
        ensures
            final(self)@ == (PromptView {
                algorithm,
                aspect: algorithm.remapped(old(self)@.aspect),
                ..old(self)@
            }),
            algorithm.permits(final(self)@.aspect),
            old(self)@.wf() ==> final(self)@.wf(),
    {
        proof {
            crate::algorithm::lemma_remap(algorithm, self.aspect);
        }
        self.algorithm = algorithm;
        self.aspect = algorithm.remap(self.aspect);
    }

    /// The aspect preset.
    pub fn aspect(&self) -> (r: Aspect)
        ensures
            r == self@.aspect,
    {
        self.aspect
    }

    /// Selects an aspect preset. It is taken as it is, also where the
    /// algorithm does not permit it: it then stays until the algorithm changes.
    pub fn set_aspect(&mut self, aspect: Aspect)
        ensures
            final(self)@ == (PromptView { aspect, ..old(self)@ }),
            old(self)@.wf() ==> final(self)@.wf(),
    {
        self.aspect = aspect;
    }

    /// The stylize strength.
    pub fn stylize(&self) -> (r: u32)
        ensures
            r == self@.stylize,
    {
        self.stylize
    }

    /// Sets the stylize strength to `stylize`, brought into its range.
    pub fn set_stylize(&mut self, stylize: u32)
        ensures
            final(self)@ == (PromptView { stylize: clamped(stylize as nat), ..old(self)@ }),
            old(self)@.wf() ==> final(self)@.wf(),
    {
        self.stylize = if stylize < MIN_STYLIZE {
            MIN_STYLIZE
        } else if stylize > MAX_STYLIZE {
            MAX_STYLIZE
        } else {
            stylize
        };
    }

    /// Sets the stylize strength back to the default.
    pub fn reset_stylize(&mut self)
        ensures
            final(self)@ == (PromptView { stylize: 2500, ..old(self)@ }),
            old(self)@.wf() ==> final(self)@.wf(),
    {
        self.stylize = DEFAULT_STYLIZE;
    }

    /// Whether the seed is passed to the service.
    pub fn use_seed(&self) -> (r: bool)
        ensures
            r == self@.use_seed,
    {
        self.use_seed
    }

    /// Says whether the seed is passed to the service.
    pub fn set_use_seed(&mut self, use_seed: bool)
        ensures
            final(self)@ == (PromptView { use_seed, ..old(self)@ }),
            old(self)@.wf() ==> final(self)@.wf(),
    {
        self.use_seed = use_seed;
    }

    /// The seed.
    pub fn seed(&self) -> (r: u32)
        ensures
            r == self@.seed,
    {
        self.seed
    }

    /// Sets the seed.
    pub fn set_seed(&mut self, seed: u32)
        ensures
            final(self)@ == (PromptView { seed: seed as nat, ..old(self)@ }),
            old(self)@.wf() ==> final(self)@.wf(),
    {
        self.seed = seed;
    }

    /// Whether a video is asked for.
    pub fn video(&self) -> (r: bool)
        ensures
            r == self@.video,
    {
        self.video
    }

    /// Says whether a video is asked for.
    pub fn set_video(&mut self, video: bool)
        ensures
            final(self)@ == (PromptView { video, ..old(self)@ }),
            old(self)@.wf() ==> final(self)@.wf(),
    {
        self.video = video;
    }

    /// Whether the command is copied whenever it changes.
    pub fn copy_on_change(&self) -> (r: bool)
        ensures
            r == self@.copy_on_change,
    {
        self.copy_on_change
    }

    /// Says whether the command is copied whenever it changes.
    pub fn set_copy_on_change(&mut self, copy_on_change: bool)
        ensures
            final(self)@ == (PromptView { copy_on_change, ..old(self)@ }),
            old(self)@.wf() ==> final(self)@.wf(),
    {
        self.copy_on_change = copy_on_change;
    }

    /// What the last copy left to show: a report of it, or nothing yet.
    pub fn copied_command(&self) -> (r: &str)
        ensures
            r@ == self@.copied_command,
    {
        self.copied_command.as_str()
    }

    /// Compiles the configuration into the command for the image service.
    pub fn command(&self) -> (r: String)
        ensures
            r@ == self@.command(),
    {
        let mut s = "/imagine prompt: ".to_owned();
        s.append(trim(self.text.as_str()));
        proof {
            reveal_strlit("");
            assert(""@ =~= Seq::<char>::empty());
        }
        self.style.push_segment(&mut s, "");
        self.body.push_segment(&mut s, " body");
        self.hair.push_segment(&mut s, " hair");
        self.pose.push_segment(&mut s, " pose");
        self.themes.push_segments(&mut s);
        self.color.push_segment(&mut s, " colors");
        push_stylize_flag(&mut s, self.stylize);
        self.aspect.push_flag(&mut s);
        push_video_flag(&mut s, self.video);
        push_seed_flag(&mut s, self.use_seed, self.seed);
        self.algorithm.push_flag(&mut s);
        s
    }
    /// Whether there is a text to copy a command for.
    pub fn copy_enabled(&self) -> (r: bool)
        ensures
            r == !is_blank(self@.text),
    {
        !trim(self.text.as_str()).is_empty()
    }

    /// Decides whether the command is to be copied now. `previous` is the
    /// command as it was before the latest changes, `asked` whether the user
    /// has asked for a copy.
    pub fn copy_due(&self, previous: &str, asked: bool) -> (r: bool)
        ensures
            r == self@.copy_due(previous@, asked),
    {
        if !self.copy_enabled() {
            false
        } else if self.copy_on_change {
            let now = self.command();
            let before = previous.to_owned();
            now != before
        } else {
            asked
        }
    }

    /// Records how an attempt to copy the command went: `Ok`, or the reason
    /// of the failure. Only what is shown of the last copy changes.
    pub fn record_copy(&mut self, outcome: Result<(), String>)
        ensures
            final(self)@ == (PromptView {
                copied_command: old(self)@.copy_report(
                    match outcome {
                        Ok(_) => None,
                        Err(reason) => Some(reason@),
                    },
                ),
                ..old(self)@
            }),
            old(self)@.wf() ==> final(self)@.wf(),
    {
        match outcome {
            Ok(_) => {
                let mut report = "copied command:\n".to_owned();
                let command = self.command();
                report.append(command.as_str());
                self.copied_command = report;
            },
            Err(reason) => {
                let mut report = "error copying command: ".to_owned();
                report.append(reason.as_str());
                self.copied_command = report;
            },
        }
    }
}

} // verus!
