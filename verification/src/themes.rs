//! The multi-select axis: an ordered list of labels, each switched on or off.

use crate::text::{is_blank, trim, trimmed};
use vstd::prelude::*;
use vstd::string::*;

verus! {

/// What an entry contributes: its label, trimmed, if the entry is switched on
/// and the label is not blank; otherwise nothing.
pub open spec fn theme_label(entry: (Seq<char>, bool)) -> Option<Seq<char>> {
    if entry.1 && !is_blank(entry.0) {
        Some(trimmed(entry.0))
    } else {
        None
    }
}

/// [`theme_label`] as a value.
pub open spec fn labelled() -> spec_fn((Seq<char>, bool)) -> Option<Seq<char>> {
    |entry: (Seq<char>, bool)| theme_label(entry)
}

/// The labels that a list contributes: those of its contributing entries, in
/// the order in which the list holds them.
pub open spec fn rendered(entries: Seq<(Seq<char>, bool)>) -> Seq<Seq<char>> {
    entries.filter_map(labelled())
}

/// The part of a command that the labels account for: `, {label}` for each, in order.
pub open spec fn segments(labels: Seq<Seq<char>>) -> Seq<char>
    decreases labels.len(),
{
    if labels.len() == 0 {
        Seq::empty()
    } else {
        segments(labels.drop_last()) + ", "@ + labels.last()
    }
}

/// The labels in one line, `, ` between them.
pub open spec fn summary(labels: Seq<Seq<char>>) -> Seq<char>
    decreases labels.len(),
{
    if labels.len() == 0 {
        Seq::empty()
    } else if labels.len() == 1 {
        labels[0]
    } else {
        summary(labels.drop_last()) + ", "@ + labels.last()
    }
}

/// The multi-select axis.
#[derive(Debug)]
pub struct Themes {
    entries: Vec<(String, bool)>,
}

impl View for Themes {
    type V = Seq<(Seq<char>, bool)>;

    closed spec fn view(&self) -> Seq<(Seq<char>, bool)> {
        self.entries.deep_view()
    }
}

impl Themes {
    /// A list of the given entries, in their order.
    pub fn new(entries: Vec<(String, bool)>) -> (r: Themes)
        ensures
            r@ == entries.deep_view(),
    {
        Themes { entries }
    }

    /// The entries, in their order.
    pub fn entries(&self) -> (r: &Vec<(String, bool)>)
        ensures
            r.deep_view() == self@,
    {
        &self.entries
    }

    /// Appends an entry with an empty label, switched on.
    pub fn add(&mut self)
        ensures
            final(self)@ == old(self)@.push((Seq::empty(), true)),
    {
        self.entries.push((String::new(), true));
        assert(self.entries.deep_view() =~= old(self).entries.deep_view().push(
            (Seq::empty(), true),
        ));
    }

    /// Removes the entry at `index`; the others keep their order. Nothing
    /// happens where there is no such entry.
    pub fn remove(&mut self, index: usize)
        ensures
            final(self)@ == (if index < old(self)@.len() {
                old(self)@.remove(index as int)
            } else {
                old(self)@
            }),
    {
        if index < self.entries.len() {
            self.entries.remove(index);
            assert(self.entries.deep_view() =~= old(self).entries.deep_view().remove(
                index as int,
            ));
        }
    }

    /// Switches the entry at `index` on if it was off, and off if it was on.
    /// Nothing happens where there is no such entry.
    pub fn toggle(&mut self, index: usize)
        ensures
            final(self)@ == (if index < old(self)@.len() {
                old(self)@.update(index as int, (old(self)@[index as int].0, !old(self)@[index as int].1))
            } else {
                old(self)@
            }),
    {
        if index < self.entries.len() {
            self.entries[index].1 = !self.entries[index].1;
            assert(self.entries.deep_view() =~= old(self).entries.deep_view().update(
                index as int,
                (old(self)@[index as int].0, !old(self)@[index as int].1),
            ));
        }
    }

    /// Replaces the label of the entry at `index` by `text`, in place.
    /// Nothing happens where there is no such entry.
    pub fn edit_label(&mut self, index: usize, text: String)
        ensures
            final(self)@ == (if index < old(self)@.len() {
                old(self)@.update(index as int, (text@, old(self)@[index as int].1))
            } else {
                old(self)@
            }),
    {
        if index < self.entries.len() {
            self.entries[index].0 = text;
            assert(self.entries.deep_view() =~= old(self).entries.deep_view().update(
                index as int,
                (text@, old(self)@[index as int].1),
            ));
        }
    }
    /// The labels that the list contributes, in order.
    pub fn render(&self) -> (r: Vec<&str>)
        ensures
            r.deep_view() == rendered(self@),
    {
        let mut r: Vec<&str> = Vec::new();
        let mut i: usize = 0;
        assert(self@.take(0) =~= Seq::empty());
        while i < self.entries.len()
            invariant
                i <= self.entries.len(),
                r.deep_view() == rendered(self@.take(i as int)),
            decreases self.entries.len() - i,
        {
            proof {
                self@.lemma_filter_map_take_succ(labelled(), i as int);
            }
            if self.entries[i].1 {
                let t = trim(self.entries[i].0.as_str());
                if !t.is_empty() {
                    let ghost before = r.deep_view();
                    r.push(t);
                    assert(r.deep_view() =~= before + seq![t@]);
                }
            }
            i = i + 1;
        }
        assert(self@.take(i as int) =~= self@);
        r
    }

    /// Appends the list's part of a command to `out`.
    pub fn push_segments(&self, out: &mut String)
        ensures
            final(out)@ == old(out)@ + segments(rendered(self@)),
    {
        let labels = self.render();
        let ghost start = out@;
        let mut i: usize = 0;
        assert(labels.deep_view().take(0) =~= Seq::empty());
        while i < labels.len()
            invariant
                i <= labels.len(),
                out@ == start + segments(labels.deep_view().take(i as int)),
            decreases labels.len() - i,
        {
            proof {
                let l = labels.deep_view();
                assert(l.take(i + 1).drop_last() =~= l.take(i as int));
            }
            out.append(", ");
            out.append(labels[i]);
            i = i + 1;
        }
        assert(labels.deep_view().take(i as int) =~= labels.deep_view());
    }

    /// The contributed labels in one line, `, ` between them.
    pub fn summary(&self) -> (r: String)
        ensures
            r@ == summary(rendered(self@)),
    {
        let labels = self.render();
        let mut r = String::new();
        let mut i: usize = 0;
        assert(labels.deep_view().take(0) =~= Seq::empty());
        while i < labels.len()
            invariant
                i <= labels.len(),
                r@ == summary(labels.deep_view().take(i as int)),
            decreases labels.len() - i,
        {
            proof {
                let l = labels.deep_view();
                assert(l.take(i + 1).drop_last() =~= l.take(i as int));
            }
            if i > 0 {
                r.append(", ");
            }
            r.append(labels[i]);
            i = i + 1;
        }
        assert(labels.deep_view().take(i as int) =~= labels.deep_view());
        r
    }
}

impl Clone for Themes {
    fn clone(&self) -> (r: Themes)
        ensures
            r@ == self@,
    {
        let mut entries: Vec<(String, bool)> = Vec::new();
        let mut i: usize = 0;
        while i < self.entries.len()
            invariant
                i <= self.entries.len(),
                entries.len() == i,
                forall|j: int|
                    0 <= j < i ==> entries@[j].0@ == self.entries@[j].0@ && entries@[j].1
                        == self.entries@[j].1,
            decreases self.entries.len() - i,
        {
            entries.push((self.entries[i].0.clone(), self.entries[i].1));
            i = i + 1;
        }
        assert(entries.deep_view() =~= self.entries.deep_view());
        Themes { entries }
    }
}

/// What a list contributes is what its front part contributes, followed by
/// what the rest contributes: labels keep the order of the list.
pub proof fn lemma_rendered_concat(a: Seq<(Seq<char>, bool)>, b: Seq<(Seq<char>, bool)>)
    ensures
        rendered(a + b) == rendered(a) + rendered(b),
    decreases b.len(),
{
    if b.len() == 0 {
        assert(a + b =~= a);
        assert(rendered(a) + rendered(b) =~= rendered(a));
    } else {
        assert((a + b).drop_last() =~= a + b.drop_last());
        assert((a + b).last() == b.last());
        lemma_rendered_concat(a, b.drop_last());
        assert(rendered(a + b) =~= rendered(a) + rendered(b));
    }
}

/// The segments of two runs of labels, one after the other, are the segments
/// of the first run followed by those of the second.
pub proof fn lemma_segments_concat(a: Seq<Seq<char>>, b: Seq<Seq<char>>)
    ensures
        segments(a + b) == segments(a) + segments(b),
    decreases b.len(),
{
    if b.len() == 0 {
        assert(a + b =~= a);
        assert(segments(a) + segments(b) =~= segments(a));
    } else {
        assert((a + b).drop_last() =~= a + b.drop_last());
        assert((a + b).last() == b.last());
        lemma_segments_concat(a, b.drop_last());
        assert(segments(a + b) =~= segments(a) + segments(b));
    }
}

/// A single entry accounts for `, {label}` with its trimmed label if it is
/// switched on and its label is not blank, and for nothing otherwise.
pub proof fn lemma_theme_single(entry: (Seq<char>, bool))
    ensures
        segments(rendered(seq![entry])) == (if entry.1 && !is_blank(entry.0) {
            ", "@ + trimmed(entry.0)
        } else {
            Seq::empty()
        }),
{
    let one = seq![entry];
    assert(one.drop_last() =~= Seq::empty());
    assert(one.last() == entry);
    assert(rendered(one.drop_last()) =~= Seq::empty());
    if entry.1 && !is_blank(entry.0) {
        let labels = rendered(one);
        assert(labels =~= seq![trimmed(entry.0)]);
        assert(labels.drop_last() =~= Seq::empty());
        reveal_with_fuel(segments, 2);
        assert(segments(labels) =~= ", "@ + trimmed(entry.0));
    } else {
        assert(rendered(one) =~= Seq::empty());
    }
}

/// Theme segments stand in a command in the order in which the list holds
/// the entries: the segments of a list are those of any front part of it,
/// followed by those of the rest.
pub proof fn lemma_theme_order(a: Seq<(Seq<char>, bool)>, b: Seq<(Seq<char>, bool)>)
    ensures
        segments(rendered(a + b)) == segments(rendered(a)) + segments(rendered(b)),
{
    lemma_rendered_concat(a, b);
    lemma_segments_concat(rendered(a), rendered(b));
}

/// The one-line summary is the segments without their leading `, `.
pub proof fn lemma_summary(labels: Seq<Seq<char>>)
    requires
        labels.len() > 0,
    ensures
        segments(labels) == ", "@ + summary(labels),
    decreases labels.len(),
{
    if labels.len() == 1 {
        assert(labels.drop_last() =~= Seq::empty());
        reveal_with_fuel(segments, 2);
        assert(segments(labels) =~= ", "@ + summary(labels));
    } else {
        lemma_summary(labels.drop_last());
        assert(segments(labels) =~= ", "@ + summary(labels));
    }
}

} // verus!
