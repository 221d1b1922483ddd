//! What of a configuration is kept from one run to the next, and how a
//! configuration comes back from it.

use crate::algorithm::{lemma_algorithm_names, Algorithm};
use crate::aspect::{lemma_aspect_names, Aspect};
use crate::choices::{Choices, ChoicesView};
use crate::prompt::{clamped, Prompt, PromptView, MAX_STYLIZE, MIN_STYLIZE};
use crate::themes::Themes;
use vstd::prelude::*;
use vstd::string::*;

verus! {

/// The directory, below the user's local data directory, that holds the document.
pub const STORE_DIR: &'static str = "midjourney_prompt";

/// The name of the document in that directory.
pub const STORE_FILE: &'static str = "promt.yaml";

/// The stored form of a configuration. The free text and the report of the
/// last copy belong to a session and are not part of it; algorithm and aspect
/// are stored by name.
#[derive(Debug)]
pub struct Document {
    pub style: Choices,
    pub themes: Themes,
    pub color: Choices,
    pub body: Choices,
    pub hair: Choices,
    pub pose: Choices,
    pub algorithm: String,
    pub aspect: String,
    pub stylize: u32,
    pub video: bool,
    pub copy_on_change: bool,
    pub use_seed: bool,
    pub seed: u32,
}

/// What a [`Document`] holds, as plain values.
pub struct DocumentView {
    pub style: ChoicesView,
    pub themes: Seq<(Seq<char>, bool)>,
    pub color: ChoicesView,
    pub body: ChoicesView,
    pub hair: ChoicesView,
    pub pose: ChoicesView,
    pub algorithm: Seq<char>,
    pub aspect: Seq<char>,
    pub stylize: nat,
    pub video: bool,
    pub copy_on_change: bool,
    pub use_seed: bool,
    pub seed: nat,
}

impl View for Document {
    type V = DocumentView;

    open spec fn view(&self) -> DocumentView {
        DocumentView {
            style: self.style@,
            themes: self.themes@,
            color: self.color@,
            body: self.body@,
            hair: self.hair@,
            pose: self.pose@,
            algorithm: self.algorithm@,
            aspect: self.aspect@,
            stylize: self.stylize as nat,
            video: self.video,
            copy_on_change: self.copy_on_change,
            use_seed: self.use_seed,
            seed: self.seed as nat,
        }
    }
}

impl DocumentView {
    /// What is stored of the configuration `p`: every field but the free text
    /// and the report of the last copy.
    pub open spec fn of(p: PromptView) -> DocumentView {
        DocumentView {
            style: p.style,
            themes: p.themes,
            color: p.color,
            body: p.body,
            hair: p.hair,
            pose: p.pose,
            algorithm: p.algorithm.name(),
            aspect: p.aspect.name(),
            stylize: p.stylize,
            video: p.video,
            copy_on_change: p.copy_on_change,
            use_seed: p.use_seed,
            seed: p.seed,
        }
    }

    /// Every axis of the document has a slot.
    pub open spec fn has_slots(self) -> bool {
        &&& self.style.wf()
        &&& self.color.wf()
        &&& self.body.wf()
        &&& self.hair.wf()
        &&& self.pose.wf()
    }

    /// The configuration that the document stands for, if it names an
    /// algorithm and an aspect that exist: the stored fields, the stylize
    /// strength brought into its range, no text and no report.
    pub open spec fn restored(self) -> Option<PromptView> {
        match (Algorithm::named(self.algorithm), Aspect::named(self.aspect)) {
            (Some(algorithm), Some(aspect)) => Some(
                PromptView {
                    text: Seq::empty(),
                    style: self.style,
                    themes: self.themes,
                    color: self.color,
                    body: self.body,
                    hair: self.hair,
                    pose: self.pose,
                    algorithm,
                    aspect,
                    stylize: clamped(self.stylize),
                    use_seed: self.use_seed,
                    seed: self.seed,
                    video: self.video,
                    copy_on_change: self.copy_on_change,
                    copied_command: Seq::empty(),
                },
            ),
            _ => None,
        }
    }
}

/// The configuration that a run starts with, given what the store held: the
/// one that the document stands for, or the initial one where there is no
/// document or it stands for none.
pub open spec fn loaded(stored: Option<DocumentView>) -> PromptView {
    match stored {
        Some(document) => match document.restored() {
            Some(p) => p,
            None => PromptView::initial(),
        },
        None => PromptView::initial(),
    }
}

impl Prompt {
    /// The stored form of the configuration.
    pub fn document(&self) -> (r: Document)
        ensures
            r@ == DocumentView::of(self@),
    {
        Document {
            style: self.style.clone(),
            themes: self.themes.clone(),
            color: self.color.clone(),
            body: self.body.clone(),
            hair: self.hair.clone(),
            pose: self.pose.clone(),
            algorithm: self.algorithm.str().to_owned(),
            aspect: self.aspect.str().to_owned(),
            stylize: self.stylize,
            video: self.video,
            copy_on_change: self.copy_on_change,
            use_seed: self.use_seed,
            seed: self.seed,
        }
    }

    /// The configuration that `document` stands for, or `None` where it
    /// names an algorithm or an aspect that does not exist.
    pub fn from_document(document: Document) -> (r: Option<Prompt>)
        ensures
            r.is_some() == document@.restored().is_some(),
            r.is_some() ==> r.unwrap()@ == document@.restored().unwrap(),
            r.is_some() && document@.has_slots() ==> r.unwrap()@.wf(),
    {
        let algorithm = match Algorithm::from_name(document.algorithm.as_str()) {
            Some(a) => a,
            None => {
                return None;
            },
        };
        let aspect = match Aspect::from_name(document.aspect.as_str()) {
            Some(a) => a,
            None => {
                return None;
            },
        };
        let stylize = if document.stylize < MIN_STYLIZE {
            MIN_STYLIZE
        } else if document.stylize > MAX_STYLIZE {
            MAX_STYLIZE
        } else {
            document.stylize
        };
        Some(
            Prompt {
                text: String::new(),
                style: document.style,
                themes: document.themes,
                color: document.color,
                body: document.body,
                hair: document.hair,
                pose: document.pose,
                algorithm,
                aspect,
                stylize,
                video: document.video,
                copy_on_change: document.copy_on_change,
                use_seed: document.use_seed,
                seed: document.seed,
                copied_command: String::new(),
            },
        )
    }

    /// The configuration that a run starts with. `stored` is the document
    /// that the store held, or `None` where it held none that could be read.
    pub fn load(stored: Option<Document>) -> (r: Prompt)
        ensures
            r@ == loaded(
                match stored {
                    Some(document) => Some(document@),
                    None => None,
                },
            ),
    {
        match stored {
            Some(document) => match Prompt::from_document(document) {
                Some(p) => p,
                None => Prompt::default(),
            },
            None => Prompt::default(),
        }
    }
}

/// Storing a configuration and restoring it gives the configuration back,
/// field for field, but for the free text and the report of the last copy,
/// which come back empty.
pub proof fn lemma_round_trip(p: PromptView)
    requires
        625 <= p.stylize <= 60000,
    ensures
        DocumentView::of(p).restored() == Some(
            PromptView { text: Seq::empty(), copied_command: Seq::empty(), ..p },
        ),
        loaded(Some(DocumentView::of(p))) == (PromptView {
            text: Seq::empty(),
            copied_command: Seq::empty(),
            ..p
        }),
{
    lemma_algorithm_names(p.algorithm);
    lemma_aspect_names(p.aspect);
}

/// Whatever the store held, the run starts with a configuration whose
/// stylize strength is in its range; without a document, or with one that
/// names an unknown algorithm or aspect, it starts with the initial one.
pub proof fn lemma_loaded(stored: Option<DocumentView>)
    ensures
        625 <= loaded(stored).stylize <= 60000,
        stored is None ==> loaded(stored) == PromptView::initial(),
        stored is Some && stored->0.restored() is None ==> loaded(stored) == PromptView::initial(),
        stored is Some && stored->0.has_slots() ==> loaded(stored).wf(),
{
    let initial = PromptView::initial();
    assert(initial.style.options.len() == 2);
    assert(initial.color.options.len() == 4);
    assert(initial.body.options.len() == 2);
    assert(initial.hair.options.len() == 5);
    assert(initial.pose.options.len() == 3);
}

} // verus!
