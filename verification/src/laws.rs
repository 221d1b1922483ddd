//! What holds of every configuration and its command.

use crate::algorithm::Algorithm;
use crate::aspect::Aspect;
use crate::choices::ChoicesView;
use crate::prompt::{clamped, seed_flag, stylize_flag, video_flag, Axis, PromptView};
use crate::text::{decimal, trimmed};
use crate::themes::{rendered, segments, theme_label};
use vstd::prelude::*;

verus! {

/// A list in which no entry contributes accounts for nothing.
pub proof fn lemma_rendered_nothing(entries: Seq<(Seq<char>, bool)>)
    requires
        forall|i: int| 0 <= i < entries.len() ==> theme_label(#[trigger] entries[i]) is None,
    ensures
        rendered(entries) == Seq::<Seq<char>>::empty(),
        segments(rendered(entries)) == Seq::<char>::empty(),
    decreases entries.len(),
{
    if entries.len() > 0 {
        let front = entries.drop_last();
        assert forall|i: int| 0 <= i < front.len() implies theme_label(#[trigger] front[i])
            is None by {
            assert(front[i] == entries[i]);
        }
        lemma_rendered_nothing(front);
        assert(theme_label(entries[entries.len() - 1]) is None);
    }
}

/// The command is the descriptive part followed by the flags.
pub proof fn lemma_command_parts(p: PromptView)
    ensures
        p.command() == p.subject() + p.flags(),
{
    assert(p.command() =~= p.subject() + p.flags());
}

/// A configuration in which no axis and no theme contributes, and every
/// setting is the default, compiles to the prefix and the trimmed text, with
/// nothing after it.
pub proof fn lemma_quiet_command(p: PromptView)
    requires
        p.algorithm == Algorithm::V3,
        p.aspect == Aspect::Square,
        p.stylize == 2500,
        !p.use_seed,
        !p.video,
        p.style.rendered() is None,
        p.color.rendered() is None,
        p.body.rendered() is None,
        p.hair.rendered() is None,
        p.pose.rendered() is None,
        forall|i: int| 0 <= i < p.themes.len() ==> theme_label(#[trigger] p.themes[i]) is None,
    ensures
        p.command() == "/imagine prompt: "@ + trimmed(p.text),
{
    lemma_rendered_nothing(p.themes);
    assert(p.subject() =~= "/imagine prompt: "@ + trimmed(p.text));
    assert(p.command() =~= "/imagine prompt: "@ + trimmed(p.text));
}

/// With the algorithm `V3`, the aspect `Square`, the stylize strength 2500,
/// neither seed nor video, nothing selected on any axis and every theme
/// switched off, the command is exactly the prefix and the trimmed text.
pub proof fn lemma_bare_command(p: PromptView)
    requires
        p.algorithm == Algorithm::V3,
        p.aspect == Aspect::Square,
        p.stylize == 2500,
        !p.use_seed,
        !p.video,
        p.style.current is None,
        p.color.current is None,
        p.body.current is None,
        p.hair.current is None,
        p.pose.current is None,
        forall|i: int| 0 <= i < p.themes.len() ==> !(#[trigger] p.themes[i]).1,
    ensures
        p.command() == "/imagine prompt: "@ + trimmed(p.text),
{
    lemma_quiet_command(p);
}

/// Compiling is a function of the configuration: two commands compiled from
/// one configuration are the same, character for character.
pub proof fn lemma_command_idempotent(p: PromptView, first: Seq<char>, second: Seq<char>)
    requires
        first == p.command(),
        second == p.command(),
    ensures
        first == second,
{
}

/// The command does not depend on what the last copy left to show, nor on
/// whether the command is copied on change: compiling, copying and compiling
/// again gives the same command.
pub proof fn lemma_command_ignores_copying(p: PromptView, report: Seq<char>, copy_on_change: bool)
    ensures
        (PromptView { copied_command: report, copy_on_change, ..p }).command() == p.command(),
{
}

/// The stylize strength 2500 leaves no trace in the command; any other
/// strength stands in it as ` --stylize ` and its decimal numeral, right
/// after the descriptive part.
pub proof fn lemma_stylize_flag(p: PromptView)
    ensures
        p.stylize == 2500 ==> p.command() == p.subject() + p.aspect.flag() + video_flag(p.video)
            + seed_flag(p.use_seed, p.seed) + p.algorithm.flag(),
        p.stylize != 2500 ==> p.command() == p.subject() + " --stylize "@ + decimal(p.stylize)
            + p.aspect.flag() + video_flag(p.video) + seed_flag(p.use_seed, p.seed)
            + p.algorithm.flag(),
{
    if p.stylize == 2500 {
        assert(p.subject() + stylize_flag(p.stylize) =~= p.subject());
    } else {
        assert(p.subject() + stylize_flag(p.stylize) =~= p.subject() + " --stylize "@ + decimal(
            p.stylize,
        ));
    }
}

/// The algorithm `V3` leaves no trace in the command; any other algorithm
/// stands at its end as ` --` and its name.
pub proof fn lemma_algorithm_flag(p: PromptView)
    ensures
        p.algorithm == Algorithm::V3 ==> p.command() == p.subject() + stylize_flag(p.stylize)
            + p.aspect.flag() + video_flag(p.video) + seed_flag(p.use_seed, p.seed),
        p.algorithm != Algorithm::V3 ==> p.command() == p.subject() + stylize_flag(p.stylize)
            + p.aspect.flag() + video_flag(p.video) + seed_flag(p.use_seed, p.seed) + " --"@
            + p.algorithm.name(),
        Algorithm::Test.flag() == " --test"@,
        Algorithm::TestPhoto.flag() == " --testp"@,
{
    let head = p.subject() + stylize_flag(p.stylize) + p.aspect.flag() + video_flag(p.video)
        + seed_flag(p.use_seed, p.seed);
    if p.algorithm == Algorithm::V3 {
        assert(head + p.algorithm.flag() =~= head);
    } else {
        assert(head + p.algorithm.flag() =~= head + " --"@ + p.algorithm.name());
    }
    reveal_strlit(" --");
    reveal_strlit("test");
    reveal_strlit("testp");
    reveal_strlit(" --test");
    reveal_strlit(" --testp");
    assert(Algorithm::Test.flag() =~= " --test"@);
    assert(Algorithm::TestPhoto.flag() =~= " --testp"@);
}

/// `Square` leaves no trace in the command; every other aspect stands in it
/// as ` --ar ` and its ratio: 2:3 for `Portrait`, 3:2 for `Landscape`, 1:2
/// for `Tall`, 16:9 for `Wide`, 21:9 for `UltraWide`.
pub proof fn lemma_aspect_flag()
    ensures
        Aspect::Square.flag() == Seq::<char>::empty(),
        Aspect::Portrait.flag() == " --ar 2:3"@,
        Aspect::Landscape.flag() == " --ar 3:2"@,
        Aspect::Tall.flag() == " --ar 1:2"@,
        Aspect::Wide.flag() == " --ar 16:9"@,
        Aspect::UltraWide.flag() == " --ar 21:9"@,
{
    reveal_with_fuel(decimal, 2);
    reveal_strlit(" --ar ");
    reveal_strlit(":");
    reveal_strlit(" --ar 2:3");
    reveal_strlit(" --ar 3:2");
    reveal_strlit(" --ar 1:2");
    reveal_strlit(" --ar 16:9");
    reveal_strlit(" --ar 21:9");
    assert(Aspect::Portrait.flag() =~= " --ar 2:3"@);
    assert(Aspect::Landscape.flag() =~= " --ar 3:2"@);
    assert(Aspect::Tall.flag() =~= " --ar 1:2"@);
    assert(Aspect::Wide.flag() =~= " --ar 16:9"@);
    assert(Aspect::UltraWide.flag() =~= " --ar 21:9"@);
}

/// Every change that the configuration offers keeps the stylize strength in
/// its range and a slot on every axis.
pub proof fn lemma_wf_kept(p: PromptView, axis: Axis, choices: ChoicesView, stylize: nat)
    requires
        p.wf(),
    ensures
        choices.wf() ==> p.with_axis(axis, choices).wf(),
        (PromptView { stylize: clamped(stylize), ..p }).wf(),
        (PromptView { stylize: 2500, ..p }).wf(),
        PromptView::initial().wf(),
{
    let initial = PromptView::initial();
    assert(initial.style.options.len() == 2);
    assert(initial.color.options.len() == 4);
    assert(initial.body.options.len() == 2);
    assert(initial.hair.options.len() == 5);
    assert(initial.pose.options.len() == 3);
}

} // verus!
