use vstd::prelude::*;
use crate::panel::Panel;
use crate::panel::PanelInfo;

verus! {

/// No two registered panels share an identity label.
pub open spec fn labels_unique(s: Seq<Panel>) -> bool {
    forall|i: int, j: int|
        0 <= i < j < s.len() ==> s[i].label@ != s[j].label@
}

/// Some registered panel carries the given identity label.
pub open spec fn has_label(s: Seq<Panel>, label: Seq<char>) -> bool {
    exists|i: int| 0 <= i < s.len() && s[i].label@ == label
}

/// The attributes of the panels registered under the given label, in
/// registration order.
pub open spec fn infos_under(s: Seq<Panel>, label: Seq<char>) -> Seq<PanelInfo>
    decreases s.len(),
{
    if s.len() == 0 {
        Seq::empty()
    } else if s.last().label@ == label {
        infos_under(s.drop_last(), label).push(s.last().info)
    } else {
        infos_under(s.drop_last(), label)
    }
}

/// Registering one more panel appends its attributes to the slice under its
/// own label and leaves every other label's slice unchanged.
pub proof fn lemma_infos_push(s: Seq<Panel>, p: Panel, label: Seq<char>)
    ensures
        p.label@ == label ==> infos_under(s.push(p), label) == infos_under(s, label).push(
            p.info,
        ),
        p.label@ != label ==> infos_under(s.push(p), label) == infos_under(s, label),
{
    assert(s.push(p).drop_last() =~= s);
    assert(s.push(p).last() == p);
}

/// A label no registered panel carries has an empty attribute slice.
pub proof fn lemma_no_label_infos_empty(s: Seq<Panel>, label: Seq<char>)
    requires
        !has_label(s, label),
    ensures
        infos_under(s, label) == Seq::<PanelInfo>::empty(),
    decreases s.len(),
{
    if s.len() > 0 {
        assert(s[s.len() - 1].label@ != label);
        assert(!has_label(s.drop_last(), label)) by {
            assert(forall|i: int|
                0 <= i < s.drop_last().len() ==> s.drop_last()[i] == s[i]);
        }
        lemma_no_label_infos_empty(s.drop_last(), label);
    }
}

/// A label is carried by some registered panel exactly when its attribute
/// slice is non-empty.
pub proof fn lemma_has_label_iff_infos_nonempty(s: Seq<Panel>, label: Seq<char>)
    ensures
        has_label(s, label) <==> infos_under(s, label).len() > 0,
    decreases s.len(),
{
    if s.len() > 0 {
        lemma_has_label_iff_infos_nonempty(s.drop_last(), label);
        assert(forall|i: int| 0 <= i < s.drop_last().len() ==> s.drop_last()[i] == s[i]);
        if s.last().label@ == label {
            assert(s[s.len() - 1].label@ == label);
        } else {
            if has_label(s, label) {
                let i = choose|i: int| 0 <= i < s.len() && s[i].label@ == label;
                assert(s.drop_last()[i] == s[i]);
            }
            if has_label(s.drop_last(), label) {
                let i = choose|i: int|
                    0 <= i < s.drop_last().len() && s.drop_last()[i].label@ == label;
                assert(s[i].label@ == label);
            }
        }
    }
}

/// With unique labels, at most one registered panel carries any given label.
pub proof fn lemma_unique_infos_at_most_one(s: Seq<Panel>, label: Seq<char>)
    requires
        labels_unique(s),
    ensures
        infos_under(s, label).len() <= 1,
    decreases s.len(),
{
    if s.len() > 0 {
        assert(forall|i: int| 0 <= i < s.drop_last().len() ==> s.drop_last()[i] == s[i]);
        if s.last().label@ == label {
            assert(!has_label(s.drop_last(), label)) by {
                if has_label(s.drop_last(), label) {
                    let i = choose|i: int|
                        0 <= i < s.drop_last().len() && s.drop_last()[i].label@ == label;
                    assert(s[i].label@ == s[s.len() - 1].label@);
                }
            }
            lemma_no_label_infos_empty(s.drop_last(), label);
        } else {
            lemma_unique_infos_at_most_one(s.drop_last(), label);
        }
    }
}

/// The process-wide set of live panels, as the window manager owns it: one
/// entry per registered window, looked up by identity label.  Existence of
/// the overlay panel is always re-derived from this set, never cached.
pub struct PanelRegistry {
    /// The live panels, in registration order.
    pub panels: Vec<Panel>,
}

impl PanelRegistry {
    /// Well-formedness: the window manager never holds two panels under one
    /// identity label.
    pub open spec fn wf(self) -> bool {
        labels_unique(self.panels@)
    }

    /// A panel with the given identity label is currently registered.
    pub open spec fn spec_contains(self, label: Seq<char>) -> bool {
        has_label(self.panels@, label)
    }

    /// The attribute slice registered under the given label.
    pub open spec fn infos(self, label: Seq<char>) -> Seq<PanelInfo> {
        infos_under(self.panels@, label)
    }

    /// An empty registry, as the process starts with.
    pub fn new() -> (r: Self)
        ensures
            r.wf(),
            r.panels@.len() == 0,
            forall|label: Seq<char>| !r.spec_contains(label),
    {
        PanelRegistry { panels: Vec::new() }
    }

    /// Live lookup: the index of the panel registered under the given
    /// label, or `None` when no such panel exists.
    pub fn lookup(&self, label: &String) -> (r: Option<usize>)
        ensures
            match r {
                Some(i) => i < self.panels@.len() && self.panels@[i as int].label@ == label@,
                None => !self.spec_contains(label@),
            },
    {
        let mut idx: usize = 0;
        while idx < self.panels.len()
            invariant
                idx <= self.panels@.len(),
                forall|j: int| 0 <= j < idx ==> self.panels@[j].label@ != label@,
            decreases self.panels@.len() - idx,
        {
            if self.panels[idx].label.eq(label) {
                return Some(idx);
            }
            idx += 1;
        }
        None
    }

    /// Live lookup reduced to existence: does a panel with the given label
    /// currently exist?
    pub fn contains(&self, label: &String) -> (b: bool)
        ensures
            b == self.spec_contains(label@),
    {
        self.lookup(label).is_some()
    }

    /// Registers a panel whose label is not yet taken.
    pub fn register(&mut self, p: Panel)
        requires
            !old(self).spec_contains(p.label@),
        ensures
            final(self).panels@ == old(self).panels@.push(p),
            old(self).wf() ==> final(self).wf(),
            final(self).spec_contains(p.label@),
            final(self).infos(p.label@) == old(self).infos(p.label@).push(p.info),
            forall|label: Seq<char>|
                label != p.label@ ==> final(self).infos(label) == old(self).infos(label),
    {
        proof {
            let s = self.panels@;
            assert forall|label: Seq<char>| true implies infos_under(s.push(p), label) == (
                if label == p.label@ {
                    infos_under(s, label).push(p.info)
                } else {
                    infos_under(s, label)
                }
            ) by {
                lemma_infos_push(s, p, label);
            }
        }
        self.panels.push(p);
        proof {
            let s = old(self).panels@;
            assert(self.panels@[s.len() as int] == p);
            assert(self.panels@.drop_last() =~= s);
            assert(old(self).wf() ==> self.wf()) by {
                if labels_unique(s) {
                    assert forall|i: int, j: int|
                        0 <= i < j < self.panels@.len() implies self.panels@[i].label@
                        != self.panels@[j].label@ by {
                        if j < s.len() {
                            assert(s[i].label@ != s[j].label@);
                        } else {
                            assert(self.panels@[j] == p);
                            assert(self.panels@[i] == s[i]);
                        }
                    }
                }
            }
            assert(self.panels@[s.len() as int].label@ == p.label@);
        }
    }

    /// Removes and returns the panel registered under the given label; a
    /// silent no-op returning `None` when no such panel exists.
    pub fn unregister(&mut self, label: &String) -> (r: Option<Panel>)
        requires
            old(self).wf(),
        ensures
            final(self).wf(),
            !final(self).spec_contains(label@),
            final(self).infos(label@) == Seq::<PanelInfo>::empty(),
            match r {
                Some(p) => {
                    &&& old(self).spec_contains(label@)
                    &&& p.label@ == label@
                    &&& exists|i: int|
                        0 <= i < old(self).panels@.len() && p == old(self).panels@[i]
                            && final(self).panels@ == old(self).panels@.remove(i)
                },
                None => {
                    &&& !old(self).spec_contains(label@)
                    &&& *final(self) == *old(self)
                },
            },
    {
        let found = self.lookup(label);
        match found {
            None => {
                proof {
                    lemma_no_label_infos_empty(self.panels@, label@);
                }
                None
            },
            Some(i) => {
                let p = self.panels.remove(i);
                proof {
                    let s = old(self).panels@;
                    let t = self.panels@;
                    s.remove_ensures(i as int);
                    assert(t == s.remove(i as int));
                    assert forall|a: int, b: int|
                        0 <= a < b < t.len() implies t[a].label@ != t[b].label@ by {
                        let sa: int = if a < i { a } else { a + 1 };
                        let sb: int = if b < i { b } else { b + 1 };
                        assert(t[a] == s[sa]);
                        assert(t[b] == s[sb]);
                    }
                    assert(!has_label(t, label@)) by {
                        if has_label(t, label@) {
                            let a = choose|a: int| 0 <= a < t.len() && t[a].label@ == label@;
                            let sa: int = if a < i { a } else { a + 1 };
                            assert(t[a] == s[sa]);
                            assert(s[sa].label@ == s[i as int].label@);
                        }
                    }
                    lemma_no_label_infos_empty(t, label@);
                    assert(0 <= i < s.len() && p == s[i as int] && t == s.remove(i as int));
                }
                Some(p)
            },
        }
    }
}

} // verus!
