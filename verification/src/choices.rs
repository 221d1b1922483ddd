//! One attribute axis: a list of candidate texts and at most one of them
//! selected.

use crate::text::{clone_opt_text, clone_texts, is_blank, trim, trimmed};
use vstd::prelude::*;
use vstd::string::*;

verus! {

/// What a [`Choices`] holds, as plain sequences of characters.
pub struct ChoicesView {
    /// The selected text, if any.
    pub current: Option<Seq<char>>,
    /// The candidate texts, in their order.
    pub options: Seq<Seq<char>>,
}

impl ChoicesView {
    /// An axis keeps at least one slot.
    pub open spec fn wf(self) -> bool {
        self.options.len() > 0
    }

    /// What the axis contributes: the selected text, trimmed, if it is one of
    /// the options as it stands and is not blank; otherwise nothing.
    pub open spec fn rendered(self) -> Option<Seq<char>> {
        match self.current {
            Some(c) => if self.options.contains(c) && !is_blank(c) {
                Some(trimmed(c))
            } else {
                None
            },
            None => None,
        }
    }

    /// The part of a command that the axis accounts for: `, {text}{suffix}`,
    /// or nothing where the axis contributes nothing.
    pub open spec fn segment(self, suffix: Seq<char>) -> Seq<char> {
        match self.rendered() {
            Some(v) => ", "@ + v + suffix,
            None => Seq::empty(),
        }
    }

    /// The options that can be offered for selection: the non-empty ones, in order.
    pub open spec fn offered(self) -> Seq<Seq<char>> {
        self.options.filter(filled())
    }

    /// How the selection is shown: the selected text, or `none`.
    pub open spec fn selected_text(self) -> Seq<char> {
        match self.current {
            Some(c) => c,
            None => "none"@,
        }
    }

    /// The options of a set that is made from `options`: `options` itself,
    /// or one empty slot where `options` is empty.
    pub open spec fn slots(options: Seq<Seq<char>>) -> Seq<Seq<char>> {
        if options.len() == 0 {
            seq![Seq::empty()]
        } else {
            options
        }
    }
}

/// Tells an option with text in it from an empty slot.
pub open spec fn filled() -> spec_fn(Seq<char>) -> bool {
    |o: Seq<char>| o.len() > 0
}

/// An attribute axis.
#[derive(Debug)]
pub struct Choices {
    curr: Option<String>,
    choices: Vec<String>,
}

impl View for Choices {
    type V = ChoicesView;

    closed spec fn view(&self) -> ChoicesView {
        ChoicesView { current: self.curr.deep_view(), options: self.choices.deep_view() }
    }
}

impl Choices {
    /// A set with the given options and nothing selected. A set always has a
    /// slot: without options it starts with one empty slot.
    pub fn new(options: &[&str]) -> (r: Choices)
        ensures
            r@.current is None,
            r@.options == ChoicesView::slots(options.deep_view()),
            r@.wf(),
    {
        let mut texts: Vec<String> = Vec::new();
        let mut i: usize = 0;
        while i < options.len()
            invariant
                i <= options.len(),
                texts.len() == i,
                forall|j: int| 0 <= j < i ==> texts@[j]@ == options@[j]@,
            decreases options.len() - i,
        {
            texts.push(options[i].to_owned());
            i = i + 1;
        }
        assert(texts.deep_view() =~= options.deep_view());
        Choices::from_parts(None, texts)
    }

    /// A set with the given selection and options. Without options it starts
    /// with one empty slot.
    pub fn from_parts(current: Option<String>, options: Vec<String>) -> (r: Choices)
        ensures
            r@.current == current.deep_view(),
            r@.options == ChoicesView::slots(options.deep_view()),
            r@.wf(),
    {
        let mut options = options;
        if options.len() == 0 {
            options.push(String::new());
            assert(options.deep_view() =~= seq![Seq::<char>::empty()]);
        }
        Choices { curr: current, choices: options }
    }

    /// The selected text, if any.
    pub fn current(&self) -> (r: &Option<String>)
        ensures
            r.deep_view() == self@.current,
    {
        &self.curr
    }

    /// The candidate texts.
    pub fn options(&self) -> (r: &Vec<String>)
        ensures
            r.deep_view() == self@.options,
    {
        &self.choices
    }
    /// Tells whether `text` is one of the options, character for character.
    pub fn has_option(&self, text: &String) -> (r: bool)
        ensures
            r == self@.options.contains(text@),
    {
        let mut i: usize = 0;
        while i < self.choices.len()
            invariant
                i <= self.choices.len(),
                forall|j: int| 0 <= j < i ==> self.choices.deep_view()[j] != text@,
            decreases self.choices.len() - i,
        {
            if self.choices[i] == *text {
                assert(self.choices.deep_view()[i as int] == text@);
                return true;
            }
            i = i + 1;
        }
        false
    }

    /// Whether an option can be removed: the last slot stays.
    pub fn removable(&self) -> (r: bool)
        ensures
            r == (self@.options.len() > 1),
    {
        self.choices.len() > 1
    }

    /// Selects `value`, or nothing. The value is not held against the options:
    /// one that is not among them contributes nothing.
    pub fn select(&mut self, value: Option<String>)
        ensures
            final(self)@.current == value.deep_view(),
            final(self)@.options == old(self)@.options,
    {
        self.curr = value;
    }

    /// Appends an empty slot.
    pub fn add_option(&mut self)
        ensures
            final(self)@.options == old(self)@.options.push(Seq::empty()),
            final(self)@.current == old(self)@.current,
            old(self)@.wf() ==> final(self)@.wf(),
    {
        self.choices.push(String::new());
        assert(self.choices.deep_view() =~= old(self).choices.deep_view().push(Seq::empty()));
    }

    /// Removes the option at `index`. The selection is left alone, even if it
    /// was that option. Nothing happens where there is no such option, or
    /// where it is the only slot left.
    pub fn remove_option(&mut self, index: usize)
        ensures
            final(self)@.options == (if index < old(self)@.options.len() && old(
                self,
            )@.options.len() > 1 {
                old(self)@.options.remove(index as int)
            } else {
                old(self)@.options
            }),
            final(self)@.current == old(self)@.current,
            old(self)@.wf() ==> final(self)@.wf(),
    {
        if index < self.choices.len() && self.choices.len() > 1 {
            self.choices.remove(index);
            assert(self.choices.deep_view() =~= old(self).choices.deep_view().remove(
                index as int,
            ));
        }
    }

    /// Replaces the option at `index` by `text`, in place. The selection is
    /// left alone. Nothing happens where there is no such option.
    pub fn edit_option(&mut self, index: usize, text: String)
        ensures
            final(self)@.options == (if index < old(self)@.options.len() {
                old(self)@.options.update(index as int, text@)
            } else {
                old(self)@.options
            }),
            final(self)@.current == old(self)@.current,
            old(self)@.wf() ==> final(self)@.wf(),
    {
        if index < self.choices.len() {
            self.choices.set(index, text);
            assert(self.choices.deep_view() =~= old(self).choices.deep_view().update(
                index as int,
                text@,
            ));
        }
    }

    /// What the axis contributes to a command, if anything.
    pub fn render(&self) -> (r: Option<&str>)
        ensures
            r.deep_view() == self@.rendered(),
    {
        match &self.curr {
            None => None,
            Some(c) => {
                if !self.has_option(c) {
                    return None;
                }
                let t = trim(c.as_str());
                if t.is_empty() {
                    None
                } else {
                    Some(t)
                }
            },
        }
    }

    /// Appends the axis's part of a command to `out`.
    pub fn push_segment(&self, out: &mut String, suffix: &str)
        ensures
            final(out)@ == old(out)@ + self@.segment(suffix@),
    {
        if let Some(t) = self.render() {
            out.append(", ");
            out.append(t);
            out.append(suffix);
        }
    }

    /// How the selection is shown: the selected text, or `none`.
    pub fn selected_text(&self) -> (r: &str)
        ensures
            r@ == self@.selected_text(),
    {
        match &self.curr {
            Some(c) => c.as_str(),
            None => "none",
        }
    }

    /// The options that can be offered for selection: the non-empty ones, in order.
    pub fn offered(&self) -> (r: Vec<String>)
        ensures
            r.deep_view() == self@.offered(),
    {
        let mut r: Vec<String> = Vec::new();
        let mut i: usize = 0;
        assert(self@.options.take(0) =~= Seq::empty());
        while i < self.choices.len()
            invariant
                i <= self.choices.len(),
                r.deep_view() == self@.options.take(i as int).filter(filled()),
            decreases self.choices.len() - i,
        {
            proof {
                let seen = self@.options.take(i as int);
                assert(self@.options.take(i + 1) =~= seen.push(self@.options[i as int]));
                seen.lemma_filter_push(self@.options[i as int], filled());
            }
            if !self.choices[i].as_str().is_empty() {
                let ghost before = r.deep_view();
                r.push(self.choices[i].clone());
                assert(r.deep_view() =~= before.push(self@.options[i as int]));
            }
            i = i + 1;
        }
        assert(self@.options.take(i as int) =~= self@.options);
        r
    }
}

impl Clone for Choices {
    fn clone(&self) -> (r: Choices)
        ensures
            r@ == self@,
    {
        Choices { curr: clone_opt_text(&self.curr), choices: clone_texts(&self.choices) }
    }
}

} // verus!
