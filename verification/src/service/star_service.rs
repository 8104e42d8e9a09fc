use crate::adapter::star_store::StarStore;
use crate::domain::job::JobSummary;
use crate::error::{AppError, AppResult};
use crate::text::{chars_eq, str_views, to_chars};
use std::sync::Arc;
use vstd::prelude::*;

verus! {

/// The labels that a list of strings holds, as a set.
pub open spec fn label_set(v: Seq<String>) -> Set<Seq<char>> {
    str_views(v).to_set()
}

fn holds(v: &Vec<String>, label: &str) -> (r: bool)
    ensures
        r == label_set(v@).contains(label@),
{
    let l = to_chars(label);
    let mut i: usize = 0;
    while i < v.len()
        invariant
            i <= v.len(),
            l@ == label@,
            forall|j: int| 0 <= j < i ==> v@[j]@ != label@,
        decreases v.len() - i,
    {
        let x = to_chars(v[i].as_str());
        if chars_eq(&x, &l) {
            assert(str_views(v@)[i as int] == label@);
            return true;
        }
        i = i + 1;
    }
    assert(!str_views(v@).contains(label@)) by {
        if str_views(v@).contains(label@) {
            let k = choose|k: int| 0 <= k < str_views(v@).len() && str_views(v@)[k] == label@;
            assert(v@[k]@ == label@);
        }
    }
    false
}

fn without(v: &Vec<String>, label: &str) -> (r: Vec<String>)
    ensures
        label_set(r@) == label_set(v@).remove(label@),
{
    let l = to_chars(label);
    let mut r: Vec<String> = Vec::new();
    let mut i: usize = 0;
    while i < v.len()
        invariant
            i <= v.len(),
            l@ == label@,
            label_set(r@) == label_set(v@.subrange(0, i as int)).remove(label@),
        decreases v.len() - i,
    {
        let x = to_chars(v[i].as_str());
        let ghost pre = v@.subrange(0, i as int);
        let ghost item = v@[i as int]@;
        assert(v@.subrange(0, i + 1) == pre.push(v@[i as int]));
        assert(str_views(pre.push(v@[i as int])) =~= str_views(pre).push(item));
        proof {
            str_views(pre).lemma_push_to_set_commute(item);
        }
        if !chars_eq(&x, &l) {
            let ghost old_r = r@;
            r.push(v[i].clone());
            assert(str_views(r@) =~= str_views(old_r).push(item));
            proof {
                str_views(old_r).lemma_push_to_set_commute(item);
            }
        }
        assert(label_set(r@) =~= label_set(v@.subrange(0, i + 1)).remove(label@));
        i = i + 1;
    }
    assert(v@.subrange(0, v.len() as int) == v@);
    r
}

/// The stars that loading from the store gives: those stored, or none where the store
/// failed.
pub open spec fn stars_loaded(loaded: AppResult<Vec<String>>) -> Set<Seq<char>> {
    match loaded {
        Ok(v) => label_set(v@),
        Err(_) => Set::empty(),
    }
}

/// Keeps track of starred jobs, by label, and saves every change to its store.
pub struct StarService<S: StarStore> {
    store: Arc<S>,
    starred_labels: Vec<String>,
}

impl<S: StarStore> StarService<S> {
    pub fn new(store: Arc<S>) -> (r: Self)
        ensures
            r.starred() == Set::<Seq<char>>::empty(),
            r.store() == store,
    {
        let v: Vec<String> = Vec::new();
        assert(label_set(v@) =~= Set::<Seq<char>>::empty());
        StarService { store, starred_labels: v }
    }

    /// The starred labels.
    pub closed spec fn starred(&self) -> Set<Seq<char>> {
        label_set(self.starred_labels@)
    }

    /// Takes the stars from the store; a store that fails leaves no star.
    pub fn load(&mut self) -> (r: AppResult<()>)
        ensures
            r is Ok,
            final(self).store() == old(self).store(),
            exists|loaded: AppResult<Vec<String>>|
                #[trigger] call_ensures(S::load_stars, (&*old(self).store(),), loaded)
                    && final(self).starred() == stars_loaded(loaded),
    {
        let loaded = self.store.load_stars();
        assert(call_ensures(S::load_stars, (&*self.store,), loaded));
        self.starred_labels = match loaded {
            Ok(v) => v,
            Err(_) => Vec::new(),
        };
        assert(self.starred() =~= stars_loaded(loaded));
        assert(call_ensures(S::load_stars, (&*old(self).store(),), loaded) && self.starred()
            == stars_loaded(loaded));
        Ok(())
    }

    /// The store the stars are saved to.
    pub closed spec fn store(&self) -> Arc<S> {
        self.store
    }

    pub fn is_starred(&self, label: &str) -> (r: bool)
        ensures
            r == self.starred().contains(label@),
    {
        holds(&self.starred_labels, label)
    }

    /// Stars an unstarred label or unstars a starred one, then saves the stars. Returns
    /// whether the label is now starred, or the store's error; the change stands either way.
    pub fn toggle(&mut self, label: &str) -> (r: AppResult<bool>)
        ensures
            final(self).starred() == toggled(old(self).starred(), label@),
            final(self).store() == old(self).store(),
            exists|saved: &Vec<String>, res: AppResult<()>|
                #[trigger] call_ensures(S::save_stars, (&*old(self).store(), saved), res)
                    && label_set(saved@) == final(self).starred() && match res {
                    Ok(_) => r == Ok::<bool, AppError>(!old(self).starred().contains(label@)),
                    Err(e) => r == Err::<bool, AppError>(e),
                },
    {
        let is_starred = if holds(&self.starred_labels, label) {
            self.starred_labels = without(&self.starred_labels, label);
            false
        } else {
            let ghost old_v = self.starred_labels@;
            let s = crate::text::from_chars(to_chars(label).as_slice());
            self.starred_labels.push(s);
            assert(str_views(self.starred_labels@) =~= str_views(old_v).push(label@));
            proof {
                str_views(old_v).lemma_push_to_set_commute(label@);
            }
            true
        };
        let saved = &self.starred_labels;
        let res = self.store.save_stars(saved);
        assert(call_ensures(S::save_stars, (&*self.store, saved), res));
        match res {
            Ok(_) => Ok(is_starred),
            Err(e) => Err(e),
        }
    }

    /// Marks each job starred exactly when its label is starred; nothing else changes.
    pub fn apply_to_jobs(&self, jobs: &mut Vec<JobSummary>)
        ensures
            final(jobs)@.len() == old(jobs)@.len(),
            forall|i: int|
                0 <= i < final(jobs)@.len() ==> {
                    let j = #[trigger] final(jobs)@[i];
                    let o = old(jobs)@[i];
                    &&& j.is_starred == self.starred().contains(o.label@)
                    &&& j == JobSummary { is_starred: j.is_starred, ..o }
                },
    {
        let mut i: usize = 0;
        while i < jobs.len()
            invariant
                i <= jobs.len(),
                jobs@.len() == old(jobs)@.len(),
                forall|k: int|
                    0 <= k < i ==> {
                        let j = #[trigger] jobs@[k];
                        let o = old(jobs)@[k];
                        &&& j.is_starred == self.starred().contains(o.label@)
                        &&& j == JobSummary { is_starred: j.is_starred, ..o }
                    },
                forall|k: int| i <= k < jobs@.len() ==> #[trigger] jobs@[k] == old(jobs)@[k],
            decreases jobs.len() - i,
        {
            let starred = self.is_starred(jobs[i].label.as_str());
            let mut job = jobs.remove(i);
            job.is_starred = starred;
            jobs.insert(i, job);
            i = i + 1;
        }
    }
}

/// The stars after toggling `label`: it leaves the set if it was in it, else it joins.
pub open spec fn toggled(stars: Set<Seq<char>>, label: Seq<char>) -> Set<Seq<char>> {
    if stars.contains(label) {
        stars.remove(label)
    } else {
        stars.insert(label)
    }
}

/// Toggling the same label twice leaves the stars as they were, and a toggle flips whether
/// that label is starred while leaving every other label alone.
pub proof fn lemma_toggle_twice(stars: Set<Seq<char>>, label: Seq<char>)
    ensures
        toggled(toggled(stars, label), label) == stars,
        toggled(stars, label).contains(label) == !stars.contains(label),
        forall|other: Seq<char>|
            other != label ==> (#[trigger] toggled(stars, label).contains(other)
                == stars.contains(other)),
{
    assert(toggled(toggled(stars, label), label) =~= stars);
}

} // verus!
